//! Translation tables: the built-in ones, the one parsed from a translation
//! file, and the lookup that falls back to a plain text.

use crate::catalog::{
    builtin, builtin_table, builtin_text, is_message_key, key, key_of, lemma_keys_are_distinct,
    message_index, message_list, message_under, messages, plain, plain_text, Language,
    MessageId, ENGLISH_CODE, ENGLISH_FILE,
};
use crate::text::same_text;
use vstd::hash_map::StringHashMap;
use vstd::prelude::*;

verus! {

/// A table from message keys to message texts.
pub struct Translations {
    table: StringHashMap<String>,
}

impl View for Translations {
    type V = Map<Seq<char>, Seq<char>>;

    closed spec fn view(&self) -> Map<Seq<char>, Seq<char>> {
        self.table@.map_values(|t: String| t@)
    }
}

/// What a text holds when read as a JSON object whose values are all strings:
/// its entries as pairs of key and text, ordered by key with each key once, or
/// `None` when the text is no such object.
pub uninterp spec fn json_string_table(text: Seq<char>) -> Option<Seq<(Seq<char>, Seq<char>)>>;

/// The table that holds the entries of a list; of two entries with one key
/// the later one stays.
pub open spec fn table_of(entries: Seq<(Seq<char>, Seq<char>)>) -> Map<Seq<char>, Seq<char>>
    decreases entries.len(),
{
    if entries.len() == 0 {
        Map::empty()
    } else {
        table_of(entries.drop_last()).insert(entries.last().0, entries.last().1)
    }
}

/// The table for a language code, given what its translation file held:
/// for English the file's table, or the built-in English one without a
/// readable file; for every other code the built-in Korean table.
pub open spec fn translations_for(
    lang: Seq<char>,
    file: Option<Seq<(Seq<char>, Seq<char>)>>,
) -> Map<Seq<char>, Seq<char>> {
    if lang == ENGLISH_CODE@ {
        match file {
            Some(entries) => table_of(entries),
            None => builtin_table(Language::English),
        }
    } else {
        builtin_table(Language::Korean)
    }
}

/// The text shown for a message: the table's entry, or the plain text where
/// the table has none.
pub open spec fn text_in(table: Map<Seq<char>, Seq<char>>, id: MessageId) -> Seq<char> {
    if table.contains_key(key_of(id)) {
        table[key_of(id)]
    } else {
        plain_text(id)
    }
}

/// `serde_json::from_str` at the type of a map from strings to strings, with
/// the entries handed out in key order. Trusted: the answer is
/// [`json_string_table`] of the text, `None` where the parser reports an error.
#[verifier::external_body]
fn parse_string_table(text: &str) -> (parsed: Option<Vec<(String, String)>>)
    ensures
        match parsed {
            Some(entries) => json_string_table(text@) == Some(entries.deep_view()),
            None => json_string_table(text@) is None,
        },
{
    match serde_json::from_str::<std::collections::BTreeMap<String, String>>(text) {
        Ok(map) => Some(map.into_iter().collect()),
        Err(_) => None,
    }
}

impl Translations {
    /// The empty table.
    pub fn new() -> (t: Translations)
        ensures
            t@ == Map::<Seq<char>, Seq<char>>::empty(),
    {
        Translations { table: StringHashMap::new() }
    }

    /// Puts `text` under `key`, in place of what stood there.
    pub fn set(&mut self, key: &str, text: &str)
        ensures
            final(self)@ == old(self)@.insert(key@, text@),
    {
        let owned = text.to_owned();
        self.table.insert(key.to_owned(), owned);
    }

    /// The text under `key`, if the table has one.
    pub fn get(&self, key: &str) -> (text: Option<String>)
        ensures
            match text {
                Some(t) => self@.contains_key(key@) && t@ == self@[key@],
                None => !self@.contains_key(key@),
            },
    {
        match self.table.get(key) {
            Some(t) => Some(t.clone()),
            None => None,
        }
    }

    /// The built-in table of a language.
    pub fn builtin(lang: Language) -> (t: Translations)
        ensures
            t@ == builtin_table(lang),
    {
        let ids = messages();
        let mut t = Translations::new();
        let mut i: usize = 0;
        while i < ids.len()
            invariant
                ids@ == message_list(),
                i <= ids.len(),
                forall|k: Seq<char>| #[trigger]
                    t@.contains_key(k) <==> exists|j: int|
                        0 <= j < i && key_of(#[trigger] ids@[j]) == k,
                forall|k: Seq<char>| #[trigger]
                    t@.contains_key(k) ==> t@[k] == builtin_text(lang, message_under(k)),
            decreases ids.len() - i,
        {
            let id = ids[i];
            proof {
                lemma_keys_are_distinct(id, id);
            }
            t.set(key(id), builtin(lang, id));
            i += 1;
        }
        assert forall|k: Seq<char>| t@.contains_key(k) <==> is_message_key(k) by {
            if is_message_key(k) {
                assert(ids@[message_index(message_under(k))] == message_under(k));
            }
        }
        t
    }

    /// The table that holds the entries of a list, later entries over earlier ones.
    pub fn from_entries(entries: &Vec<(String, String)>) -> (t: Translations)
        ensures
            t@ == table_of(entries.deep_view()),
    {
        let mut t = Translations::new();
        let mut i: usize = 0;
        let ghost all = entries.deep_view();
        while i < entries.len()
            invariant
                all == entries.deep_view(),
                all.len() == entries.len(),
                i <= entries.len(),
                t@ == table_of(all.take(i as int)),
            decreases entries.len() - i,
        {
            let entry = &entries[i];
            t.set(entry.0.as_str(), entry.1.as_str());
            i += 1;
            assert(all.take(i as int).drop_last() =~= all.take(i - 1));
        }
        assert(all.take(i as int) =~= all);
        t
    }

    /// The text shown for a message: the table's entry, or the plain text
    /// where the table has none.
    pub fn message(&self, id: MessageId) -> (text: String)
        ensures
            text@ == text_in(self@, id),
    {
        match self.get(key(id)) {
            Some(t) => t,
            None => plain(id).to_owned(),
        }
    }
}

/// The file that holds the table of a language, for the languages that have one.
pub fn translation_file(lang: &str) -> (path: Option<&'static str>)
    ensures
        lang@ == ENGLISH_CODE@ ==> path is Some && path->0@ == ENGLISH_FILE@,
        lang@ != ENGLISH_CODE@ ==> path is None,
{
    if same_text(lang, ENGLISH_CODE) {
        Some(ENGLISH_FILE)
    } else {
        None
    }
}

/// The table for a language code, given the entries that its translation file
/// held, or `None` where the file could not be read or parsed.
pub fn select_translations(lang: &str, file: Option<Vec<(String, String)>>) -> (t: Translations)
    ensures
        t@ == translations_for(
            lang@,
            match file {
                Some(entries) => Some(entries.deep_view()),
                None => None,
            },
        ),
{
    if same_text(lang, ENGLISH_CODE) {
        match file {
            Some(entries) => Translations::from_entries(&entries),
            None => Translations::builtin(Language::English),
        }
    } else {
        Translations::builtin(Language::Korean)
    }
}

/// The table for a language code. `file_text` is what the translation file of
/// the language holds, or `None` where there is no such file or it could not be
/// read.
pub fn load_translations(lang: &str, file_text: Option<&str>) -> (t: Translations)
    ensures
        t@ == translations_for(
            lang@,
            match file_text {
                Some(text) => json_string_table(text@),
                None => None,
            },
        ),
{
    let parsed = match file_text {
        Some(text) => if same_text(lang, ENGLISH_CODE) {
            parse_string_table(text)
        } else {
            None
        },
        None => None,
    };
    select_translations(lang, parsed)
}

/// The table of the default language, Korean.
pub fn load_translations_default() -> (t: Translations)
    ensures
        t@ == builtin_table(Language::Korean),
{
    Translations::builtin(Language::Korean)
}

/// Every message has its own text in a built-in table, so a lookup there
/// never falls back to the plain text.
pub proof fn lemma_builtin_message(lang: Language, id: MessageId)
    ensures
        text_in(builtin_table(lang), id) == builtin_text(lang, id),
{
    lemma_keys_are_distinct(id, id);
}

} // verus!
