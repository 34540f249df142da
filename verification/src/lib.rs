//! Localisation and calculator logic of a small bilingual site for engineers.

pub mod cards;
pub mod dom;
pub mod i18n;
pub mod locales;
pub mod text;
