[package]
name = "engineertools"
version = "0.1.0"
edition = "2021"
publish = false

[dependencies]
js-sys = "*"
leptos = "*"
leptos_meta = "*"
leptos_router = "*"
phf = { version = "*", features = ["macros"] }
web-sys = { version = "*", features = ["Clipboard", "Document", "Element", "ErrorEvent", "MouseEvent", "Navigator", "Storage", "Window"] }
