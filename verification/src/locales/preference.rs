//! The current locale, and the preference that is stored of it.
//!
//! The state is always a supported locale: a tag is resolved when it comes
//! in, from the store or from a control, and only the locale is kept.

use crate::locales::i18n::{I18n, Locale};
use vstd::prelude::*;

verus! {

/// The key under which the preference is stored.
pub open spec fn spec_preference_key() -> Seq<char> {
    "lang"@
}

/// The key under which the preference is stored.
pub fn preference_key() -> (key: &'static str)
    ensures
        key@ == spec_preference_key(),
{
    "lang"
}

/// A write to the store that is due: `value` is to be stored under `key`.
#[derive(Clone, Copy, Debug)]
pub struct SavePreference {
    pub key: &'static str,
    pub value: &'static str,
}

/// The locale that the site is shown in.
#[derive(Clone, Copy, Debug, PartialEq, Eq)]
pub struct CurrentLocale {
    locale: Locale,
}

impl View for CurrentLocale {
    type V = Locale;

    closed spec fn view(&self) -> Locale {
        self.locale
    }
}

impl CurrentLocale {
    /// The locale at startup: the default where nothing was stored, else
    /// what the stored tag resolves to, which for a tag that names no
    /// supported locale is the default too.
    pub open spec fn spec_startup(stored: Option<Seq<char>>) -> Locale {
        match stored {
            Some(tag) => Locale::spec_resolve(tag),
            None => Locale::default_locale(),
        }
    }

    /// The state at startup, from what the store held under the preference
    /// key.
    pub fn startup(stored: Option<&str>) -> (state: Self)
        ensures
            state@ == Self::spec_startup(
                match stored {
                    Some(tag) => Some(tag@),
                    None => None,
                },
            ),
    {
        match stored {
            Some(tag) => CurrentLocale { locale: Locale::resolve(tag) },
            None => CurrentLocale { locale: Locale::Nl },
        }
    }

    /// The current locale.
    pub fn locale(&self) -> (locale: Locale)
        ensures
            locale == self@,
    {
        self.locale
    }

    /// The write that keeps the current locale for the next startup.
    pub fn preference(&self) -> (save: SavePreference)
        ensures
            save.key@ == spec_preference_key(),
            save.value@ == self@.spec_tag(),
    {
        SavePreference { key: preference_key(), value: self.locale.tag() }
    }

    /// Makes the locale that `tag` resolves to the current one, and returns
    /// the write that stores it.
    pub fn select(&mut self, tag: &str) -> (save: SavePreference)
        ensures
            final(self)@ == Locale::spec_resolve(tag@),
            save.key@ == spec_preference_key(),
            save.value@ == final(self)@.spec_tag(),
    {
        self.locale = Locale::resolve(tag);
        self.preference()
    }

    /// The lookup facade of the current locale.
    pub fn i18n(&self) -> (i18n: I18n)
        ensures
            i18n.lang() == self@.spec_tag(),
            i18n.messages() == self@.messages(),
    {
        proof {
            crate::locales::i18n::lemma_supported_tag_resolves_to_own_table(self@);
        }
        I18n::new(self.locale.tag())
    }
}

/// What `select` stores brings back, at the next startup, the locale that it
/// selected.
pub proof fn lemma_stored_preference_restores_locale(tag: Seq<char>)
    ensures
        CurrentLocale::spec_startup(Some(Locale::spec_resolve(tag).spec_tag()))
            == Locale::spec_resolve(tag),
{
    crate::locales::i18n::lemma_supported_tag_resolves_to_own_table(Locale::spec_resolve(tag));
}

} // verus!
