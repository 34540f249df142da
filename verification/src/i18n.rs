//! Message lookup in tables that were built at compile time.
//!
//! The tables are perfect-hash maps that the caller holds as statics; this
//! module picks the table for a language tag and looks keys up in it.

use crate::locales::i18n::{translated, Locale};
use vstd::prelude::*;

verus! {

/// `phf::Map`, an immutable map that was laid out at compile time. Nothing
/// inside it is visible here; `found_in` and `table_len` name what it holds.
#[verifier::external_type_specification]
#[verifier::external_body]
#[verifier::reject_recursive_types(K)]
#[verifier::reject_recursive_types(V)]
pub struct ExPhfMap<K: 'static, V: 'static>(phf::Map<K, V>);

/// What `phf::Map::get` finds in a table, by key.
pub uninterp spec fn found_in(table: phf::Map<&'static str, &'static str>) -> Map<
    Seq<char>,
    Seq<char>,
>;

/// The number of entries of a table: what `phf::Map::len` returns for it.
pub uninterp spec fn table_len(table: phf::Map<&'static str, &'static str>) -> nat;

/// The messages that a table holds, by key. A table without entries holds
/// none, and is never searched.
pub open spec fn table_messages(table: phf::Map<&'static str, &'static str>) -> Map<
    Seq<char>,
    Seq<char>,
> {
    if table_len(table) == 0 {
        Map::empty()
    } else {
        found_in(table)
    }
}

/// Calls `phf::Map::len`, which returns the number of entries that the table
/// was built with.
#[verifier::external_body]
fn len_of(table: &phf::Map<&'static str, &'static str>) -> (count: usize)
    ensures
        count == table_len(*table),
{
    table.len()
}

/// Calls `phf::Map::get`, which hashes the key to the one entry that may hold
/// it and returns that entry's value if its key equals the given one, `None`
/// otherwise. The result depends on the table and on the characters of the
/// key alone. On a table without entries the index of the entry cannot be
/// computed, so such a table is left out.
#[verifier::external_body]
fn get_in(table: &phf::Map<&'static str, &'static str>, key: &str) -> (found: Option<&'static str>)
    requires
        table_len(*table) > 0,
    ensures
        match found {
            Some(message) => found_in(*table).contains_key(key@) && message@ == found_in(
                *table,
            )[key@],
            None => !found_in(*table).contains_key(key@),
        },
{
    table.get(key).copied()
}

/// The message that `table` holds under `key`, if it holds one.
pub fn lookup(table: &phf::Map<&'static str, &'static str>, key: &str) -> (found: Option<
    &'static str,
>)
    ensures
        match found {
            Some(message) => table_messages(*table).contains_key(key@) && message@
                == table_messages(*table)[key@],
            None => !table_messages(*table).contains_key(key@),
        },
{
    if len_of(table) == 0 {
        None
    } else {
        get_in(table, key)
    }
}

/// What is shown for `key` once the table was asked: the message that was
/// found, or the key itself where none was.
pub fn message_or_key(found: Option<&str>, key: &str) -> (shown: String)
    ensures
        shown@ == match found {
            Some(message) => message@,
            None => key@,
        },
{
    match found {
        Some(message) => message.to_owned(),
        None => key.to_owned(),
    }
}

/// The lookup facade over one compile-time table.
pub struct I18n {
    translations: &'static phf::Map<&'static str, &'static str>,
}

impl I18n {
    /// The messages that lookups go to.
    pub closed spec fn messages(&self) -> Map<Seq<char>, Seq<char>> {
        table_messages(*self.translations)
    }

    /// Picks the table for `lang` from the two that the site has: the English
    /// one for `"en"`, the Dutch one, the default, for every other string.
    pub fn new(
        lang: &str,
        en: &'static phf::Map<&'static str, &'static str>,
        nl: &'static phf::Map<&'static str, &'static str>,
    ) -> (i18n: Self)
        ensures
            i18n.messages() == match Locale::spec_resolve(lang@) {
                Locale::Nl => table_messages(*nl),
                Locale::En => table_messages(*en),
            },
    {
        let translations = match Locale::resolve(lang) {
            Locale::Nl => nl,
            Locale::En => en,
        };
        Self { translations }
    }

    /// Looks `key` up: the message where the table holds the key, the key
    /// itself, unchanged, where it does not.
    pub fn t(&self, key: &str) -> (shown: String)
        ensures
            shown@ == translated(self.messages(), key@),
    {
        message_or_key(lookup(self.translations, key), key)
    }
}

impl Clone for I18n {
    fn clone(&self) -> (copy: Self)
        ensures
            copy.messages() == self.messages(),
    {
        Self { translations: self.translations }
    }
}

} // verus!
