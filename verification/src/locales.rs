//! Locales, translation tables and the current-locale state.

pub mod i18n;
pub mod preference;
