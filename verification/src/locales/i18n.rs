//! Locale resolution and message lookup.

use crate::text::same_text;
use std::borrow::Cow;
use vstd::prelude::*;

verus! {

/// A locale of the closed set that the site is written in.
#[derive(Clone, Copy, Debug, PartialEq, Eq, Structural)]
pub enum Locale {
    En,
    Nl,
}

impl Locale {
    /// The tag under which this locale is selected and stored.
    pub open spec fn spec_tag(self) -> Seq<char> {
        match self {
            Locale::En => "en"@,
            Locale::Nl => "nl"@,
        }
    }

    /// The locale that a tag stands for: `"en"` is English, every other
    /// string is Dutch, the default.
    pub open spec fn spec_resolve(tag: Seq<char>) -> Locale {
        if tag == "en"@ {
            Locale::En
        } else {
            Locale::Nl
        }
    }

    /// The default locale: the one at startup, and the one that unrecognised
    /// tags resolve to.
    pub open spec fn default_locale() -> Locale {
        Locale::Nl
    }

    /// The messages written in this locale's language.
    pub open spec fn messages(self) -> Map<Seq<char>, Seq<char>> {
        match self {
            Locale::En => en_messages(),
            Locale::Nl => nl_messages(),
        }
    }

    /// The tag of this locale.
    pub fn tag(&self) -> (tag: &'static str)
        ensures
            tag@ == self.spec_tag(),
    {
        match self {
            Locale::En => "en",
            Locale::Nl => "nl",
        }
    }

    /// Resolves an arbitrary string to a locale. Resolution is total: a string
    /// that names no supported locale gives the default.
    pub fn resolve(tag: &str) -> (locale: Locale)
        ensures
            locale == Locale::spec_resolve(tag@),
    {
        if same_text(tag, "en") {
            Locale::En
        } else {
            Locale::Nl
        }
    }
}

/// What a lookup of `key` in `messages` shows: the message where there is one,
/// the key itself where there is none.
pub open spec fn translated(messages: Map<Seq<char>, Seq<char>>, key: Seq<char>) -> Seq<char> {
    if messages.contains_key(key) {
        messages[key]
    } else {
        key
    }
}

/// The map that a list of entries stands for; of two entries with one key the
/// later one counts.
pub open spec fn table_of(entries: Seq<(&'static str, &'static str)>) -> Map<Seq<char>, Seq<char>>
    decreases entries.len(),
{
    if entries.len() == 0 {
        Map::empty()
    } else {
        table_of(entries.drop_last()).insert(entries.last().0@, entries.last().1@)
    }
}

/// An immutable mapping from message keys to messages, kept as the list of
/// its entries.
#[derive(Debug, PartialEq, Eq)]
pub struct TranslationTable {
    entries: Vec<(&'static str, &'static str)>,
}

impl View for TranslationTable {
    type V = Map<Seq<char>, Seq<char>>;

    closed spec fn view(&self) -> Map<Seq<char>, Seq<char>> {
        table_of(self.entries@)
    }
}

impl Clone for TranslationTable {
    fn clone(&self) -> (copy: Self)
        ensures
            copy@ == self@,
    {
        let mut entries: Vec<(&'static str, &'static str)> = Vec::new();
        let mut i: usize = 0;
        while i < self.entries.len()
            invariant
                i <= self.entries@.len(),
                entries@ == self.entries@.take(i as int),
            decreases self.entries@.len() - i,
        {
            entries.push(self.entries[i]);
            i += 1;
            proof {
                assert(entries@ =~= self.entries@.take(i as int));
            }
        }
        proof {
            assert(entries@ =~= self.entries@);
        }
        TranslationTable { entries }
    }
}

impl TranslationTable {
    fn new() -> (table: Self)
        ensures
            table@ == Map::<Seq<char>, Seq<char>>::empty(),
    {
        TranslationTable { entries: Vec::new() }
    }

    fn insert(&mut self, key: &'static str, message: &'static str)
        ensures
            final(self)@ == old(self)@.insert(key@, message@),
    {
        self.entries.push((key, message));
        proof {
            assert(self.entries@.drop_last() =~= old(self).entries@);
        }
    }

    /// The message stored under `key`, if there is one.
    pub fn get(&self, key: &str) -> (found: Option<&'static str>)
        ensures
            match found {
                Some(message) => self@.contains_key(key@) && message@ == self@[key@],
                None => !self@.contains_key(key@),
            },
    {
        let mut i: usize = self.entries.len();
        proof {
            assert(self.entries@.take(i as int) =~= self.entries@);
        }
        while i > 0
            invariant
                i <= self.entries@.len(),
                table_of(self.entries@).contains_key(key@) == table_of(
                    self.entries@.take(i as int),
                ).contains_key(key@),
                table_of(self.entries@).contains_key(key@) ==> table_of(self.entries@)[key@]
                    == table_of(self.entries@.take(i as int))[key@],
            decreases i,
        {
            let ghost prefix = self.entries@.take(i as int);
            i -= 1;
            let entry = self.entries[i];
            proof {
                assert(prefix.drop_last() =~= self.entries@.take(i as int));
                assert(prefix.last() == self.entries@[i as int]);
            }
            if same_text(entry.0, key) {
                return Some(entry.1);
            }
        }
        proof {
            assert(self.entries@.take(0) =~= Seq::<(&'static str, &'static str)>::empty());
        }
        None
    }
}

/// The lookup facade of one locale: the tag it was made for and the table
/// that the tag resolves to.
#[derive(PartialEq, Eq)]
pub struct I18n {
    lang: String,
    translations: TranslationTable,
}

impl I18n {
    #[verifier::type_invariant]
    spec fn well_formed(&self) -> bool {
        self.translations@ == Locale::spec_resolve(self.lang@).messages()
    }

    /// The tag that this facade was made for, as it was given.
    pub closed spec fn lang(&self) -> Seq<char> {
        self.lang@
    }

    /// The messages that lookups go to.
    pub closed spec fn messages(&self) -> Map<Seq<char>, Seq<char>> {
        self.translations@
    }

    /// Selects the table for `lang`: the English one for `"en"`, the Dutch
    /// one, the default, for every other string.
    pub fn new(lang: &str) -> (i18n: Self)
        ensures
            i18n.lang() == lang@,
            i18n.messages() == Locale::spec_resolve(lang@).messages(),
    {
        let translations = match Locale::resolve(lang) {
            Locale::Nl => nl_translations(),
            Locale::En => en_translations(),
        };
        Self { lang: lang.to_owned(), translations }
    }

    /// Looks `key` up: the message where the table holds the key, the key
    /// itself, unchanged, where it does not.
    pub fn t<'a>(&'a self, key: &'a str) -> (shown: Cow<'a, str>)
        ensures
            shown@ == translated(self.messages(), key@),
            self.messages() == Locale::spec_resolve(self.lang()).messages(),
            self.messages().contains_key(key@) ==> shown@ != key@,
    {
        proof {
            use_type_invariant(self);
            if self.messages().contains_key(key@) {
                lemma_present_key_shows_message(Locale::spec_resolve(self.lang()), key@);
            }
        }
        match self.translations.get(key) {
            Some(val) => Cow::Borrowed(val),
            None => Cow::Borrowed(key),
        }
    }
}

impl Clone for I18n {
    fn clone(&self) -> (copy: Self)
        ensures
            copy.lang() == self.lang(),
            copy.messages() == self.messages(),
    {
        proof {
            use_type_invariant(self);
        }
        Self { lang: self.lang.clone(), translations: self.translations.clone() }
    }
}

/// The English messages, by key.
pub open spec fn en_messages() -> Map<Seq<char>, Seq<char>> {
    map![
        "website_for_engineers"@ => "A website for engineers!"@,
        "welcome_to_engineertools"@ => "Welcome to engineertools.nl"@,
        "menu_home"@ => "Home"@,
        "menu_basics"@ => "Basic calculations"@,
        "home_welcome"@ => "Welcome to engineertools.nl"@,
        "home_description"@ => "This is a website for engineers!"@,
        "home_resources"@ => "You can use this website to find useful tools and resources for your engineering projects."@,
        "basic_page_title"@ => "Basic Calculations"@,
        "basic_page_description"@ => "This page contains basic calculations for engineers."@,
        "sum_calculator"@ => "Sum calculator"@,
        "calculate_sum"@ => "Calculate Sum"@,
        "sum_result"@ => "The sum is: "@,
        "rec_area_calculator"@ => "Rectangular area calculator"@,
        "rec_area_calculate"@ => "Calculate rectangle area"@,
        "rec_area_result"@ => "The area of rectangle is: "@,
        "rec_area_area"@ => "Area"@,
        "rec_area_breedte"@ => "Width"@,
        "rec_area_hoogte"@ => "Height"@,
        "circle_area_calculator"@ => "Circle area calculator"@,
        "circle_area_radius"@ => "Radius"@,
        "circle_area_calculate"@ => "Calculate circle area"@,
        "circle_area_result"@ => "The area of circle is: "@,
        "copy_to_clipboard"@ => "Copy to clipboard"@,
        "copyright"@ => "Copyright 2025 engineertools.nl"@,
    ]
}

/// The Dutch messages, by key.
pub open spec fn nl_messages() -> Map<Seq<char>, Seq<char>> {
    map![
        "website_for_engineers"@ => "Een website voor engineers!"@,
        "welcome_to_engineertools"@ => "Welkom bij engineertools.nl"@,
        "menu_home"@ => "Home"@,
        "menu_basics"@ => "Basis berekeningen"@,
        "home_welcome"@ => "Welkom bij engineertools.nl"@,
        "home_description"@ => "Dit is een website voor engineers!"@,
        "home_resources"@ => "Je kunt deze website gebruiken om nuttige tools en bronnen te vinden voor je engineering projecten."@,
        "basic_page_title"@ => "Basis Berekeningen"@,
        "basic_page_description"@ => "Deze pagina bevat basis berekeningen voor engineers."@,
        "sum_calculator"@ => "Som Calculator"@,
        "calculate_sum"@ => "Bereken som"@,
        "sum_result"@ => "De som is: "@,
        "rec_area_calculator"@ => "Rechthoek oppervlakte calculator"@,
        "rec_area_calculate"@ => "Bereken oppervlakte"@,
        "rec_area_result"@ => "De oppervlakte van rechthoek is: "@,
        "rec_area_area"@ => "Oppervlakte"@,
        "rec_area_breedte"@ => "Breedte"@,
        "rec_area_hoogte"@ => "Hoogte"@,
        "circle_area_calculator"@ => "Cirkel oppervlakte calculator"@,
        "circle_area_radius"@ => "Straal"@,
        "circle_area_calculate"@ => "Bereken oppervlakte"@,
        "circle_area_result"@ => "De oppervlakte van de cirkel is: "@,
        "copy_to_clipboard"@ => "Kopieer naar klembord"@,
        "copyright"@ => "Auteursrecht 2025 engineertools.nl"@,
    ]
}

/// Builds the English table.
pub fn en_translations() -> (table: TranslationTable)
    ensures
        table@ == en_messages(),
{
    let mut table = TranslationTable::new();
    table.insert("website_for_engineers", "A website for engineers!");
    table.insert("welcome_to_engineertools", "Welcome to engineertools.nl");
    table.insert("menu_home", "Home");
    table.insert("menu_basics", "Basic calculations");
    // Home text
    table.insert("home_welcome", "Welcome to engineertools.nl");
    table.insert("home_description", "This is a website for engineers!");
    table.insert("home_resources", "You can use this website to find useful tools and resources for your engineering projects.");
    // Basic page
    table.insert("basic_page_title", "Basic Calculations");
    table.insert("basic_page_description", "This page contains basic calculations for engineers.");
    // Sum calculator
    table.insert("sum_calculator", "Sum calculator");
    table.insert("calculate_sum", "Calculate Sum");
    table.insert("sum_result", "The sum is: ");
    // Rectangular area calculator
    table.insert("rec_area_calculator", "Rectangular area calculator");
    table.insert("rec_area_calculate", "Calculate rectangle area");
    table.insert("rec_area_result", "The area of rectangle is: ");
    table.insert("rec_area_area", "Area");
    table.insert("rec_area_breedte", "Width");
    table.insert("rec_area_hoogte", "Height");
    // Circle area calculator
    table.insert("circle_area_calculator", "Circle area calculator");
    table.insert("circle_area_radius", "Radius");
    table.insert("circle_area_calculate", "Calculate circle area");
    table.insert("circle_area_result", "The area of circle is: ");
    // Other keys
    table.insert("copy_to_clipboard", "Copy to clipboard");
    // Footer
    table.insert("copyright", "Copyright 2025 engineertools.nl");
    table
}

/// Builds the Dutch table.
pub fn nl_translations() -> (table: TranslationTable)
    ensures
        table@ == nl_messages(),
{
    let mut table = TranslationTable::new();
    table.insert("website_for_engineers", "Een website voor engineers!");
    table.insert("welcome_to_engineertools", "Welkom bij engineertools.nl");
    table.insert("menu_home", "Home");
    table.insert("menu_basics", "Basis berekeningen");
    // Home text
    table.insert("home_welcome", "Welkom bij engineertools.nl");
    table.insert("home_description", "Dit is een website voor engineers!");
    table.insert("home_resources", "Je kunt deze website gebruiken om nuttige tools en bronnen te vinden voor je engineering projecten.");
    // Basic page
    table.insert("basic_page_title", "Basis Berekeningen");
    table.insert("basic_page_description", "Deze pagina bevat basis berekeningen voor engineers.");
    // Sum calculator
    table.insert("sum_calculator", "Som Calculator");
    table.insert("calculate_sum", "Bereken som");
    table.insert("sum_result", "De som is: ");
    // Rectangular area calculator
    table.insert("rec_area_calculator", "Rechthoek oppervlakte calculator");
    table.insert("rec_area_calculate", "Bereken oppervlakte");
    table.insert("rec_area_result", "De oppervlakte van rechthoek is: ");
    table.insert("rec_area_area", "Oppervlakte");
    table.insert("rec_area_breedte", "Breedte");
    table.insert("rec_area_hoogte", "Hoogte");
    // Circle area calculator
    table.insert("circle_area_calculator", "Cirkel oppervlakte calculator");
    table.insert("circle_area_radius", "Straal");
    table.insert("circle_area_calculate", "Bereken oppervlakte");
    table.insert("circle_area_result", "De oppervlakte van de cirkel is: ");
    // Other keys
    table.insert("copy_to_clipboard", "Kopieer naar klembord");
    // Footer
    table.insert("copyright", "Auteursrecht 2025 engineertools.nl");
    table
}

/// No English message is spelled like the key it stands under.
proof fn lemma_en_message_differs_from_key(key: Seq<char>)
    requires
        en_messages().contains_key(key),
    ensures
        en_messages()[key] != key,
{
    reveal_strlit("website_for_engineers");
    reveal_strlit("A website for engineers!");
    reveal_strlit("welcome_to_engineertools");
    reveal_strlit("Welcome to engineertools.nl");
    reveal_strlit("menu_home");
    reveal_strlit("Home");
    reveal_strlit("menu_basics");
    reveal_strlit("Basic calculations");
    reveal_strlit("home_welcome");
    reveal_strlit("home_description");
    reveal_strlit("This is a website for engineers!");
    reveal_strlit("home_resources");
    reveal_strlit("You can use this website to find useful tools and resources for your engineering projects.");
    reveal_strlit("basic_page_title");
    reveal_strlit("Basic Calculations");
    reveal_strlit("basic_page_description");
    reveal_strlit("This page contains basic calculations for engineers.");
    reveal_strlit("sum_calculator");
    reveal_strlit("Sum calculator");
    reveal_strlit("calculate_sum");
    reveal_strlit("Calculate Sum");
    reveal_strlit("sum_result");
    reveal_strlit("The sum is: ");
    reveal_strlit("rec_area_calculator");
    reveal_strlit("Rectangular area calculator");
    reveal_strlit("rec_area_calculate");
    reveal_strlit("Calculate rectangle area");
    reveal_strlit("rec_area_result");
    reveal_strlit("The area of rectangle is: ");
    reveal_strlit("rec_area_area");
    reveal_strlit("Area");
    reveal_strlit("rec_area_breedte");
    reveal_strlit("Width");
    reveal_strlit("rec_area_hoogte");
    reveal_strlit("Height");
    reveal_strlit("circle_area_calculator");
    reveal_strlit("Circle area calculator");
    reveal_strlit("circle_area_radius");
    reveal_strlit("Radius");
    reveal_strlit("circle_area_calculate");
    reveal_strlit("Calculate circle area");
    reveal_strlit("circle_area_result");
    reveal_strlit("The area of circle is: ");
    reveal_strlit("copy_to_clipboard");
    reveal_strlit("Copy to clipboard");
    reveal_strlit("copyright");
    reveal_strlit("Copyright 2025 engineertools.nl");
    assert("website_for_engineers"@.len() != "A website for engineers!"@.len());
    assert("welcome_to_engineertools"@.len() != "Welcome to engineertools.nl"@.len());
    assert("menu_home"@.len() != "Home"@.len());
    assert("menu_basics"@.len() != "Basic calculations"@.len());
    assert("home_welcome"@.len() != "Welcome to engineertools.nl"@.len());
    assert("home_description"@.len() != "This is a website for engineers!"@.len());
    assert("home_resources"@.len() != "You can use this website to find useful tools and resources for your engineering projects."@.len());
    assert("basic_page_title"@.len() != "Basic Calculations"@.len());
    assert("basic_page_description"@.len() != "This page contains basic calculations for engineers."@.len());
    assert("sum_calculator"@[0] != "Sum calculator"@[0]);
    assert("calculate_sum"@[0] != "Calculate Sum"@[0]);
    assert("sum_result"@.len() != "The sum is: "@.len());
    assert("rec_area_calculator"@.len() != "Rectangular area calculator"@.len());
    assert("rec_area_calculate"@.len() != "Calculate rectangle area"@.len());
    assert("rec_area_result"@.len() != "The area of rectangle is: "@.len());
    assert("rec_area_area"@.len() != "Area"@.len());
    assert("rec_area_breedte"@.len() != "Width"@.len());
    assert("rec_area_hoogte"@.len() != "Height"@.len());
    assert("circle_area_calculator"@[0] != "Circle area calculator"@[0]);
    assert("circle_area_radius"@.len() != "Radius"@.len());
    assert("circle_area_calculate"@[0] != "Calculate circle area"@[0]);
    assert("circle_area_result"@.len() != "The area of circle is: "@.len());
    assert("copy_to_clipboard"@[0] != "Copy to clipboard"@[0]);
    assert("copyright"@.len() != "Copyright 2025 engineertools.nl"@.len());
}

/// No Dutch message is spelled like the key it stands under.
proof fn lemma_nl_message_differs_from_key(key: Seq<char>)
    requires
        nl_messages().contains_key(key),
    ensures
        nl_messages()[key] != key,
{
    reveal_strlit("website_for_engineers");
    reveal_strlit("Een website voor engineers!");
    reveal_strlit("welcome_to_engineertools");
    reveal_strlit("Welkom bij engineertools.nl");
    reveal_strlit("menu_home");
    reveal_strlit("Home");
    reveal_strlit("menu_basics");
    reveal_strlit("Basis berekeningen");
    reveal_strlit("home_welcome");
    reveal_strlit("home_description");
    reveal_strlit("Dit is een website voor engineers!");
    reveal_strlit("home_resources");
    reveal_strlit("Je kunt deze website gebruiken om nuttige tools en bronnen te vinden voor je engineering projecten.");
    reveal_strlit("basic_page_title");
    reveal_strlit("Basis Berekeningen");
    reveal_strlit("basic_page_description");
    reveal_strlit("Deze pagina bevat basis berekeningen voor engineers.");
    reveal_strlit("sum_calculator");
    reveal_strlit("Som Calculator");
    reveal_strlit("calculate_sum");
    reveal_strlit("Bereken som");
    reveal_strlit("sum_result");
    reveal_strlit("De som is: ");
    reveal_strlit("rec_area_calculator");
    reveal_strlit("Rechthoek oppervlakte calculator");
    reveal_strlit("rec_area_calculate");
    reveal_strlit("Bereken oppervlakte");
    reveal_strlit("rec_area_result");
    reveal_strlit("De oppervlakte van rechthoek is: ");
    reveal_strlit("rec_area_area");
    reveal_strlit("Oppervlakte");
    reveal_strlit("rec_area_breedte");
    reveal_strlit("Breedte");
    reveal_strlit("rec_area_hoogte");
    reveal_strlit("Hoogte");
    reveal_strlit("circle_area_calculator");
    reveal_strlit("Cirkel oppervlakte calculator");
    reveal_strlit("circle_area_radius");
    reveal_strlit("Straal");
    reveal_strlit("circle_area_calculate");
    reveal_strlit("circle_area_result");
    reveal_strlit("De oppervlakte van de cirkel is: ");
    reveal_strlit("copy_to_clipboard");
    reveal_strlit("Kopieer naar klembord");
    reveal_strlit("copyright");
    reveal_strlit("Auteursrecht 2025 engineertools.nl");
    assert("website_for_engineers"@.len() != "Een website voor engineers!"@.len());
    assert("welcome_to_engineertools"@.len() != "Welkom bij engineertools.nl"@.len());
    assert("menu_home"@.len() != "Home"@.len());
    assert("menu_basics"@.len() != "Basis berekeningen"@.len());
    assert("home_welcome"@.len() != "Welkom bij engineertools.nl"@.len());
    assert("home_description"@.len() != "Dit is een website voor engineers!"@.len());
    assert("home_resources"@.len() != "Je kunt deze website gebruiken om nuttige tools en bronnen te vinden voor je engineering projecten."@.len());
    assert("basic_page_title"@.len() != "Basis Berekeningen"@.len());
    assert("basic_page_description"@.len() != "Deze pagina bevat basis berekeningen voor engineers."@.len());
    assert("sum_calculator"@[0] != "Som Calculator"@[0]);
    assert("calculate_sum"@.len() != "Bereken som"@.len());
    assert("sum_result"@.len() != "De som is: "@.len());
    assert("rec_area_calculator"@.len() != "Rechthoek oppervlakte calculator"@.len());
    assert("rec_area_calculate"@.len() != "Bereken oppervlakte"@.len());
    assert("rec_area_result"@.len() != "De oppervlakte van rechthoek is: "@.len());
    assert("rec_area_area"@.len() != "Oppervlakte"@.len());
    assert("rec_area_breedte"@.len() != "Breedte"@.len());
    assert("rec_area_hoogte"@.len() != "Hoogte"@.len());
    assert("circle_area_calculator"@.len() != "Cirkel oppervlakte calculator"@.len());
    assert("circle_area_radius"@.len() != "Straal"@.len());
    assert("circle_area_calculate"@.len() != "Bereken oppervlakte"@.len());
    assert("circle_area_result"@.len() != "De oppervlakte van de cirkel is: "@.len());
    assert("copy_to_clipboard"@.len() != "Kopieer naar klembord"@.len());
    assert("copyright"@.len() != "Auteursrecht 2025 engineertools.nl"@.len());
}

/// The keys of the messages, in the order of the tables.
pub open spec fn message_keys() -> Seq<Seq<char>> {
    seq![
        "website_for_engineers"@,
        "welcome_to_engineertools"@,
        "menu_home"@,
        "menu_basics"@,
        "home_welcome"@,
        "home_description"@,
        "home_resources"@,
        "basic_page_title"@,
        "basic_page_description"@,
        "sum_calculator"@,
        "calculate_sum"@,
        "sum_result"@,
        "rec_area_calculator"@,
        "rec_area_calculate"@,
        "rec_area_result"@,
        "rec_area_area"@,
        "rec_area_breedte"@,
        "rec_area_hoogte"@,
        "circle_area_calculator"@,
        "circle_area_radius"@,
        "circle_area_calculate"@,
        "circle_area_result"@,
        "copy_to_clipboard"@,
        "copyright"@,
    ]
}

/// No key stands twice among the message keys.
proof fn lemma_message_keys_are_distinct()
    ensures
        message_keys().len() == 24,
        message_keys().no_duplicates(),
{
    reveal_strlit("website_for_engineers");
    reveal_strlit("welcome_to_engineertools");
    reveal_strlit("menu_home");
    reveal_strlit("menu_basics");
    reveal_strlit("home_welcome");
    reveal_strlit("home_description");
    reveal_strlit("home_resources");
    reveal_strlit("basic_page_title");
    reveal_strlit("basic_page_description");
    reveal_strlit("sum_calculator");
    reveal_strlit("calculate_sum");
    reveal_strlit("sum_result");
    reveal_strlit("rec_area_calculator");
    reveal_strlit("rec_area_calculate");
    reveal_strlit("rec_area_result");
    reveal_strlit("rec_area_area");
    reveal_strlit("rec_area_breedte");
    reveal_strlit("rec_area_hoogte");
    reveal_strlit("circle_area_calculator");
    reveal_strlit("circle_area_radius");
    reveal_strlit("circle_area_calculate");
    reveal_strlit("circle_area_result");
    reveal_strlit("copy_to_clipboard");
    reveal_strlit("copyright");
    assert("website_for_engineers"@.len() == 21);
    assert("welcome_to_engineertools"@.len() == 24);
    assert("menu_home"@.len() == 9);
    assert("menu_basics"@.len() == 11);
    assert("home_welcome"@.len() == 12);
    assert("home_description"@.len() == 16);
    assert("home_resources"@.len() == 14);
    assert("basic_page_title"@.len() == 16);
    assert("basic_page_description"@.len() == 22);
    assert("sum_calculator"@.len() == 14);
    assert("calculate_sum"@.len() == 13);
    assert("sum_result"@.len() == 10);
    assert("rec_area_calculator"@.len() == 19);
    assert("rec_area_calculate"@.len() == 18);
    assert("rec_area_result"@.len() == 15);
    assert("rec_area_area"@.len() == 13);
    assert("rec_area_breedte"@.len() == 16);
    assert("rec_area_hoogte"@.len() == 15);
    assert("circle_area_calculator"@.len() == 22);
    assert("circle_area_radius"@.len() == 18);
    assert("circle_area_calculate"@.len() == 21);
    assert("circle_area_result"@.len() == 18);
    assert("copy_to_clipboard"@.len() == 17);
    assert("copyright"@.len() == 9);
    assert("website_for_engineers"@[0] != "circle_area_calculate"@[0]);
    assert("menu_home"@[0] != "copyright"@[0]);
    assert("home_description"@[0] != "basic_page_title"@[0]);
    assert("home_description"@[0] != "rec_area_breedte"@[0]);
    assert("home_resources"@[0] != "sum_calculator"@[0]);
    assert("basic_page_title"@[0] != "rec_area_breedte"@[0]);
    assert("basic_page_description"@[0] != "circle_area_calculator"@[0]);
    assert("calculate_sum"@[0] != "rec_area_area"@[0]);
    assert("rec_area_calculate"@[0] != "circle_area_radius"@[0]);
    assert("rec_area_calculate"@[0] != "circle_area_result"@[0]);
    assert("rec_area_result"@[9] != "rec_area_hoogte"@[9]);
    assert("circle_area_radius"@[13] != "circle_area_result"@[13]);
}

/// Both tables hold a message for each of the message keys and for no other
/// key: every key is translated in both locales, and each table has as many
/// entries as there are keys.
pub proof fn lemma_tables_hold_the_message_keys()
    ensures
        en_messages().dom() == message_keys().to_set(),
        nl_messages().dom() == message_keys().to_set(),
        en_messages().dom().finite(),
        en_messages().dom().len() == message_keys().len(),
        message_keys().len() == 24,
{
    lemma_message_keys_are_distinct();
    message_keys().unique_seq_to_set();
    vstd::seq_lib::seq_to_set_is_finite(message_keys());
    assert(message_keys()[0] == "website_for_engineers"@);
    assert(message_keys()[1] == "welcome_to_engineertools"@);
    assert(message_keys()[2] == "menu_home"@);
    assert(message_keys()[3] == "menu_basics"@);
    assert(message_keys()[4] == "home_welcome"@);
    assert(message_keys()[5] == "home_description"@);
    assert(message_keys()[6] == "home_resources"@);
    assert(message_keys()[7] == "basic_page_title"@);
    assert(message_keys()[8] == "basic_page_description"@);
    assert(message_keys()[9] == "sum_calculator"@);
    assert(message_keys()[10] == "calculate_sum"@);
    assert(message_keys()[11] == "sum_result"@);
    assert(message_keys()[12] == "rec_area_calculator"@);
    assert(message_keys()[13] == "rec_area_calculate"@);
    assert(message_keys()[14] == "rec_area_result"@);
    assert(message_keys()[15] == "rec_area_area"@);
    assert(message_keys()[16] == "rec_area_breedte"@);
    assert(message_keys()[17] == "rec_area_hoogte"@);
    assert(message_keys()[18] == "circle_area_calculator"@);
    assert(message_keys()[19] == "circle_area_radius"@);
    assert(message_keys()[20] == "circle_area_calculate"@);
    assert(message_keys()[21] == "circle_area_result"@);
    assert(message_keys()[22] == "copy_to_clipboard"@);
    assert(message_keys()[23] == "copyright"@);
    assert(en_messages().dom() =~= message_keys().to_set());
    assert(nl_messages().dom() =~= message_keys().to_set());
}

/// A key that a locale's table holds is shown as the message stored under it,
/// and that message is never the key itself.
pub proof fn lemma_present_key_shows_message(locale: Locale, key: Seq<char>)
    requires
        locale.messages().contains_key(key),
    ensures
        translated(locale.messages(), key) == locale.messages()[key],
        translated(locale.messages(), key) != key,
{
    match locale {
        Locale::En => lemma_en_message_differs_from_key(key),
        Locale::Nl => lemma_nl_message_differs_from_key(key),
    }
}

/// The tag of a supported locale resolves to that locale, and so to the table
/// written in its language.
pub proof fn lemma_supported_tag_resolves_to_own_table(locale: Locale)
    ensures
        Locale::spec_resolve(locale.spec_tag()) == locale,
        Locale::spec_resolve(locale.spec_tag()).messages() == locale.messages(),
{
    reveal_strlit("en");
    reveal_strlit("nl");
    assert("en"@[0] != "nl"@[0]);
}

/// The two tables differ: the copyright line is not the same in both.
pub proof fn lemma_tables_differ()
    ensures
        en_messages() != nl_messages(),
{
    reveal_strlit("Copyright 2025 engineertools.nl");
    reveal_strlit("Auteursrecht 2025 engineertools.nl");
    assert(en_messages()["copyright"@].len() != nl_messages()["copyright"@].len());
}

/// Every string but the tags of the two supported locales resolves to the
/// default locale, and so to the table that the default's own tag gives.
pub proof fn lemma_unsupported_tag_resolves_to_default(tag: Seq<char>)
    requires
        tag != Locale::En.spec_tag(),
        tag != Locale::Nl.spec_tag(),
    ensures
        Locale::spec_resolve(tag) == Locale::default_locale(),
        Locale::spec_resolve(tag).messages() == Locale::spec_resolve(
            Locale::default_locale().spec_tag(),
        ).messages(),
{
    lemma_supported_tag_resolves_to_own_table(Locale::default_locale());
}

/// A key that a table lacks is shown unchanged, so looking up what was shown
/// gives the same again.
pub proof fn lemma_absent_key_shows_itself(messages: Map<Seq<char>, Seq<char>>, key: Seq<char>)
    requires
        !messages.contains_key(key),
    ensures
        translated(messages, key) == key,
        translated(messages, translated(messages, key)) == translated(messages, key),
{
}

} // verus!
