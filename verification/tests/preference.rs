use engineertools::dom::storage::{get_local_storage_item, set_local_storage_item, StorageError};
use engineertools::locales::i18n::Locale;
use engineertools::locales::preference::{preference_key, CurrentLocale};

#[test]
fn startup_without_a_stored_preference_is_dutch() {
    let state = CurrentLocale::startup(None);
    assert_eq!(state.locale(), Locale::Nl);
    let i18n = state.i18n();
    assert_eq!(i18n.t("sum_calculator"), "Som Calculator");
    assert_eq!(i18n.t("menu_basics"), "Basis berekeningen");
    assert_eq!(i18n.t("copyright"), "Auteursrecht 2025 engineertools.nl");
    let save = state.preference();
    assert_eq!(save.key, "lang");
    assert_eq!(save.value, "nl");
}

#[test]
fn startup_applies_the_stored_preference() {
    assert_eq!(CurrentLocale::startup(Some("en")).locale(), Locale::En);
    assert_eq!(CurrentLocale::startup(Some("nl")).locale(), Locale::Nl);
    assert_eq!(CurrentLocale::startup(Some("en")).i18n().t("sum_calculator"), "Sum calculator");
    assert_eq!(CurrentLocale::startup(Some("en")).preference().value, "en");
}

#[test]
fn startup_resolves_an_unknown_stored_tag_to_dutch() {
    for tag in ["", "fr", "EN", "lang"] {
        let state = CurrentLocale::startup(Some(tag));
        assert_eq!(state.locale(), Locale::Nl);
        assert_eq!(state.preference().key, "lang");
        assert_eq!(state.preference().value, "nl");
        assert_eq!(state.i18n().t("menu_basics"), "Basis berekeningen");
    }
}

#[test]
fn selecting_english_switches_every_message_and_stores_en() {
    let mut state = CurrentLocale::startup(None);
    let keys = ["sum_calculator", "menu_basics", "sum_result", "rec_area_breedte", "copyright"];
    let dutch = ["Som Calculator", "Basis berekeningen", "De som is: ", "Breedte", "Auteursrecht 2025 engineertools.nl"];
    let english = ["Sum calculator", "Basic calculations", "The sum is: ", "Width", "Copyright 2025 engineertools.nl"];
    let before = state.i18n();
    for (key, message) in keys.iter().zip(dutch.iter()) {
        assert_eq!(before.t(key), *message);
    }
    let save = state.select("en");
    assert_eq!(state.locale(), Locale::En);
    assert_eq!(save.key, "lang");
    assert_eq!(save.value, "en");
    let after = state.i18n();
    for (key, message) in keys.iter().zip(english.iter()) {
        assert_eq!(after.t(key), *message);
    }
}

#[test]
fn selecting_dutch_again_switches_back() {
    let mut state = CurrentLocale::startup(Some("en"));
    let save = state.select("nl");
    assert_eq!(state.locale(), Locale::Nl);
    assert_eq!(save.value, "nl");
    assert_eq!(state.i18n().t("circle_area_radius"), "Straal");
    let again = state.select("nl");
    assert_eq!(state.locale(), Locale::Nl);
    assert_eq!(again.value, "nl");
}

#[test]
fn selecting_an_unknown_tag_stores_the_default() {
    let mut state = CurrentLocale::startup(Some("en"));
    assert_eq!(state.locale(), Locale::En);
    let save = state.select("de");
    assert_eq!(state.locale(), Locale::Nl);
    assert_eq!(save.key, "lang");
    assert_eq!(save.value, "nl");
}

#[test]
fn what_was_stored_restores_the_selected_locale() {
    for tag in ["en", "nl", "fr", ""] {
        let mut state = CurrentLocale::startup(None);
        let save = state.select(tag);
        let stored = get_local_storage_item::<String>(Some(Ok(Some(save.value.to_string()))));
        let restored = CurrentLocale::startup(stored.as_deref());
        assert_eq!(restored, state);
    }
}

#[test]
fn preference_key_is_lang() {
    assert_eq!(preference_key(), "lang");
}

#[test]
fn a_read_gives_the_stored_value_or_nothing() {
    assert_eq!(get_local_storage_item::<String>(Some(Ok(Some("en".to_string())))), Some("en".to_string()));
    assert_eq!(get_local_storage_item::<String>(Some(Ok(Some(String::new())))), Some(String::new()));
    assert_eq!(get_local_storage_item::<String>(Some(Ok(None))), None);
    assert_eq!(get_local_storage_item(Some(Err("denied".to_string()))), None);
    assert_eq!(get_local_storage_item::<String>(None), None);
    assert_eq!(get_local_storage_item(Some(Err(7u8))), None);
}

#[test]
fn a_write_succeeds_or_says_why_not() {
    assert!(set_local_storage_item(Some(Ok(()))).is_ok());
    match set_local_storage_item(None) {
        Err(StorageError::Unavailable) => {}
        other => panic!("unexpected outcome: {:?}", other),
    }
    match set_local_storage_item(Some(Err("quota exceeded".to_string()))) {
        Err(StorageError::Rejected(reason)) => assert_eq!(reason, "quota exceeded"),
        other => panic!("unexpected outcome: {:?}", other),
    }
}

#[test]
fn storage_errors_have_a_message() {
    assert_eq!(StorageError::Unavailable.message(), "Local storage not available");
    assert_eq!(StorageError::Rejected("quota exceeded".to_string()).message(), "quota exceeded");
}
