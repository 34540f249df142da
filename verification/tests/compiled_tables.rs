use engineertools::i18n::{lookup, message_or_key, I18n};

type Table = phf::Map<&'static str, &'static str>;

/// Lays the three entries out as a perfect-hash table: tries orders and
/// displacements until every key is found where the hash sends it.
fn table_of(entries: [(&'static str, &'static str); 3]) -> &'static Table {
    let orders = [[0, 1, 2], [0, 2, 1], [1, 0, 2], [1, 2, 0], [2, 0, 1], [2, 1, 0]];
    for order in orders {
        let laid_out: &'static [(&'static str, &'static str)] =
            Box::leak(Box::new([entries[order[0]], entries[order[1]], entries[order[2]]]));
        for d1 in 0..256u32 {
            for d2 in 0..3u32 {
                let disps: &'static [(u32, u32)] = Box::leak(Box::new([(d1, d2)]));
                let table = Table { key: 0, disps, entries: laid_out };
                if entries.iter().all(|(key, message)| table.get(*key) == Some(message)) {
                    return Box::leak(Box::new(table));
                }
            }
        }
    }
    panic!("no layout found");
}

fn single(key: &'static str, message: &'static str) -> &'static Table {
    let entries: &'static [(&'static str, &'static str)] = Box::leak(Box::new([(key, message)]));
    let disps: &'static [(u32, u32)] = Box::leak(Box::new([(0, 0)]));
    Box::leak(Box::new(Table { key: 0, disps, entries }))
}

fn empty() -> &'static Table {
    Box::leak(Box::new(Table::new()))
}

fn english() -> &'static Table {
    table_of([
        ("welcome", "Welcome to Leptos - served from Spin!"),
        ("click-me", "Click Me: { $count }"),
        ("not-found", "Not Found"),
    ])
}

fn dutch() -> &'static Table {
    table_of([
        ("welcome", "Welkom bij Leptos - geserveerd vanaf Spin!"),
        ("click-me", "Klik Mij: { $count }"),
        ("not-found", "Niet Gevonden"),
    ])
}

#[test]
fn lookup_finds_what_the_table_holds() {
    let table = english();
    assert_eq!(lookup(table, "welcome"), Some("Welcome to Leptos - served from Spin!"));
    assert_eq!(lookup(table, "click-me"), Some("Click Me: { $count }"));
    assert_eq!(lookup(table, "not-found"), Some("Not Found"));
    assert_eq!(lookup(table, "not_found"), None);
    assert_eq!(lookup(table, "Welcome"), None);
    assert_eq!(lookup(table, ""), None);
    assert_eq!(lookup(table, "unused_key_xyz"), None);
}

#[test]
fn lookup_in_a_single_entry_table() {
    let table = single("welcome", "Welkom");
    assert_eq!(lookup(table, "welcome"), Some("Welkom"));
    assert_eq!(lookup(table, "Welkom"), None);
    assert_eq!(lookup(table, "welcom"), None);
}

#[test]
fn lookup_in_an_empty_table_finds_nothing() {
    let table = empty();
    assert_eq!(lookup(table, "welcome"), None);
    assert_eq!(lookup(table, ""), None);
}

#[test]
fn message_or_key_prefers_the_message() {
    assert_eq!(message_or_key(Some("Not Found"), "not-found"), "Not Found");
    assert_eq!(message_or_key(Some(""), "not-found"), "");
    assert_eq!(message_or_key(None, "not-found"), "not-found");
    assert_eq!(message_or_key(None, ""), "");
}

#[test]
fn facade_picks_the_english_table_for_en_only() {
    let (en, nl) = (english(), dutch());
    assert_eq!(I18n::new("en", en, nl).t("not-found"), "Not Found");
    assert_eq!(I18n::new("en", en, nl).t("welcome"), "Welcome to Leptos - served from Spin!");
    for tag in ["nl", "", "fr", "EN", "en ", "en-GB"] {
        let i18n = I18n::new(tag, en, nl);
        assert_eq!(i18n.t("not-found"), "Niet Gevonden");
        assert_eq!(i18n.t("click-me"), "Klik Mij: { $count }");
    }
}

#[test]
fn facade_returns_an_absent_key_unchanged() {
    let (en, nl) = (english(), dutch());
    for tag in ["en", "nl"] {
        let i18n = I18n::new(tag, en, nl);
        assert_eq!(i18n.t("unused_key_xyz"), "unused_key_xyz");
        assert_eq!(i18n.t(""), "");
        let once = i18n.t("unused_key_xyz");
        assert_eq!(i18n.t(&once), once);
    }
    let nothing = I18n::new("en", empty(), empty());
    assert_eq!(nothing.t("welcome"), "welcome");
}

#[test]
fn facade_clone_looks_up_in_the_same_table() {
    let i18n = I18n::new("nl", english(), dutch());
    let copy = i18n.clone();
    assert_eq!(copy.t("click-me"), "Klik Mij: { $count }");
    assert_eq!(copy.t("click-me"), i18n.t("click-me"));
}
