//! The settings: texts by key. They start from defaults, take what a
//! settings file holds, and can be written back as such a file. Reading and
//! writing the file itself is left to the caller; a file's text is taken
//! apart by the `config` crate, and the settings are written down by the
//! `toml` crate.
//!
//! A key is a text as it stands: a dot or a bracket in it means nothing. Of
//! a settings file the keys of its top level count, each with a value that
//! can be written as a text; a table or an array under a key is passed over.
//! The keys of a file are taken in no particular order, so which of
//! two new keys comes first in the list is open; what each key yields is not.

use crate::text::{ends_with, has_suffix, joined, same_text};
use config::{File, FileFormat, Source};
use std::collections::BTreeMap;
use vstd::prelude::*;

verus! {

/// Settings as a list of keys with their values.
pub type Entries = Seq<(Seq<char>, Seq<char>)>;

/// Index of the first entry with the key; the number of entries where none has it.
pub open spec fn index_of_key(entries: Entries, key: Seq<char>) -> int
    decreases entries.len(),
{
    if entries.len() == 0 || entries[0].0 == key {
        0
    } else {
        1 + index_of_key(entries.drop_first(), key)
    }
}

/// The value of the key, where an entry has it.
pub open spec fn lookup(entries: Entries, key: Seq<char>) -> Option<Seq<char>> {
    let i = index_of_key(entries, key);
    if 0 <= i < entries.len() {
        Some(entries[i].1)
    } else {
        None
    }
}

/// The entries with `value` under `key`: in the place of the key's old
/// value where it had one, at the end where it had none.
pub open spec fn with_value(entries: Entries, key: Seq<char>, value: Seq<char>) -> Entries {
    let i = index_of_key(entries, key);
    if 0 <= i < entries.len() {
        entries.update(i, (key, value))
    } else {
        entries.push((key, value))
    }
}

/// The entries with every entry of `more` set, in order.
pub open spec fn with_values(entries: Entries, more: Entries) -> Entries
    decreases more.len(),
{
    if more.len() == 0 {
        entries
    } else {
        with_value(with_values(entries, more.drop_last()), more.last().0, more.last().1)
    }
}

/// No key occurs twice.
pub open spec fn keys_distinct(entries: Entries) -> bool {
    forall|i: int, j: int| 0 <= i < j < entries.len() ==> entries[i].0 != entries[j].0
}

/// The settings that hold before anything is set: downloads go to
/// `Downloads`, the home page is `gopher://jan.bio:70/0/ncgopher/`, and
/// debugging is off.
pub open spec fn default_entries() -> Entries {
    seq![
        ("download_path"@, "Downloads"@),
        ("homepage"@, "gopher://jan.bio:70/0/ncgopher/"@),
        ("debug"@, "false"@),
    ]
}

/// The name of the settings file below the directory `dir`:
/// `ncgopher/config` in it.
pub open spec fn config_file_in(dir: Seq<char>) -> Seq<char> {
    if has_suffix(dir, "/"@) {
        dir + "ncgopher/config"@
    } else {
        dir + "/ncgopher/config"@
    }
}

/// The text of a settings file for the entries, given the TOML for them.
pub open spec fn file_text_of(toml: Seq<char>) -> Seq<char> {
    "# Automatically generated by ncgopher.\n"@ + toml
}

/// What was found in a settings file: its keys, each with its value as a
/// text where the value can be written as one.
pub type Found = Seq<(Seq<char>, Option<Seq<char>>)>;

/// The entries among what was found: the keys that have a text, in order.
pub open spec fn texts_of(found: Found) -> Entries
    decreases found.len(),
{
    if found.len() == 0 {
        Seq::empty()
    } else {
        let before = texts_of(found.drop_last());
        match found.last().1 {
            Some(value) => before.push((found.last().0, value)),
            None => before,
        }
    }
}

/// The keys of what was found are all different.
pub open spec fn found_keys_distinct(found: Found) -> bool {
    forall|i: int, j: int| 0 <= i < j < found.len() ==> found[i].0 != found[j].0
}

/// The map that holds what was found: each key with its value.
pub open spec fn found_map(found: Found) -> Map<Seq<char>, Option<Seq<char>>>
    decreases found.len(),
{
    if found.len() == 0 {
        Map::empty()
    } else {
        found_map(found.drop_last()).insert(found.last().0, found.last().1)
    }
}

/// What the `config` crate finds in a settings file in TOML: the keys of
/// its top level, as they are written, each with its value as a text
/// (`None` for a table, an array and an empty value); or, for a text that
/// is no TOML, the words of the parser's error.
pub uninterp spec fn settings_document(text: Seq<char>) -> Result<
    Map<Seq<char>, Option<Seq<char>>>,
    Seq<char>,
>;

/// The TOML that `toml::to_string` writes for a map with these entries;
/// `None` where it gives an error.
pub uninterp spec fn toml_document(entries: Entries) -> Option<Seq<char>>;

/// `config::Source::collect` on `config::File::from_str(text, FileFormat::Toml)`,
/// with each value handed through `config::Value::into_string`. The crate
/// keeps what it read in a hash map, so the pairs come in no particular
/// order. The contract claims that no key comes twice, and that the pairs
/// make up the one map `settings_document` of the text; for a text that the
/// parser refuses, that the error's text is the one that `settings_document`
/// holds.
#[verifier::external_body]
fn parse_settings(text: &str) -> (r: Result<Vec<(String, Option<String>)>, String>)
    ensures
        match r {
            Ok(found) => found_keys_distinct(found.deep_view()) && settings_document(text@) == Ok::<
                Map<Seq<char>, Option<Seq<char>>>,
                Seq<char>,
            >(found_map(found.deep_view())),
            Err(error) => settings_document(text@) == Err::<
                Map<Seq<char>, Option<Seq<char>>>,
                Seq<char>,
            >(error@),
        },
{
    match File::from_str(text, FileFormat::Toml).collect() {
        Ok(map) => Ok(map.into_iter().map(|(key, value)| (key, value.into_string().ok())).collect()),
        Err(error) => Err(error.to_string()),
    }
}

/// `toml::to_string` of the map that holds the entries, ordered by key.
/// The contract claims only that the outcome is the one function
/// `toml_document` of the entries.
#[verifier::external_body]
fn toml_text(entries: &Vec<(String, String)>) -> (r: Option<String>)
    ensures
        r.deep_view() == toml_document(entries.deep_view()),
{
    let map: BTreeMap<&str, &str> = entries.iter().map(|e| (e.0.as_str(), e.1.as_str())).collect();
    toml::to_string(&map).ok()
}

/// `dirs::config_dir`, with the path as a string where it is valid Unicode.
/// The result depends on the user's environment, so nothing is claimed of it.
#[verifier::external_body]
fn config_dir() -> Option<String> {
    dirs::config_dir().and_then(|path| path.into_os_string().into_string().ok())
}

/// `index_of_key` gives an index within bounds or the length; no entry
/// before it has the key, and the entry at it has.
pub proof fn lemma_index_of_key(entries: Entries, key: Seq<char>)
    ensures
        0 <= index_of_key(entries, key) <= entries.len(),
        index_of_key(entries, key) < entries.len() ==> entries[index_of_key(entries, key)].0 == key,
        forall|j: int| 0 <= j < index_of_key(entries, key) ==> entries[j].0 != key,
    decreases entries.len(),
{
    if entries.len() == 0 || entries[0].0 == key {
    } else {
        let rest = entries.drop_first();
        lemma_index_of_key(rest, key);
        assert forall|j: int| 0 <= j < index_of_key(entries, key) implies entries[j].0 != key by {
            if j > 0 {
                assert(entries[j] == rest[j - 1]);
            }
        }
    }
}

/// An index before which no entry has the key, and which has it or is
/// the length, is the one that `index_of_key` gives.
pub proof fn lemma_index_of_key_is(entries: Entries, key: Seq<char>, i: int)
    requires
        0 <= i <= entries.len(),
        forall|j: int| 0 <= j < i ==> entries[j].0 != key,
        i < entries.len() ==> entries[i].0 == key,
    ensures
        index_of_key(entries, key) == i,
    decreases entries.len(),
{
    if entries.len() == 0 || entries[0].0 == key {
    } else {
        let rest = entries.drop_first();
        lemma_index_of_key_is(rest, key, i - 1);
    }
}

/// What was set is what is found: the key yields the new value, every
/// other key what it yielded before, and still no key occurs twice.
pub proof fn lemma_set_then_get(entries: Entries, key: Seq<char>, value: Seq<char>, other: Seq<char>)
    requires
        keys_distinct(entries),
    ensures
        lookup(with_value(entries, key, value), key) == Some(value),
        other != key ==> lookup(with_value(entries, key, value), other) == lookup(entries, other),
        keys_distinct(with_value(entries, key, value)),
{
    let after = with_value(entries, key, value);
    let i = index_of_key(entries, key);
    lemma_index_of_key(entries, key);
    lemma_index_of_key_is(after, key, i);
    if other != key {
        let k = index_of_key(entries, other);
        lemma_index_of_key(entries, other);
        if k < entries.len() {
            lemma_index_of_key_is(after, other, k);
        } else {
            lemma_index_of_key_is(after, other, after.len() as int);
        }
    }
}

/// Setting several entries leaves no key twice.
pub proof fn lemma_with_values_distinct(entries: Entries, more: Entries)
    requires
        keys_distinct(entries),
    ensures
        keys_distinct(with_values(entries, more)),
    decreases more.len(),
{
    if more.len() > 0 {
        let before = with_values(entries, more.drop_last());
        lemma_with_values_distinct(entries, more.drop_last());
        lemma_set_then_get(before, more.last().0, more.last().1, more.last().0);
    }
}

/// A key that was not found is no key of the map of what was found.
pub proof fn lemma_found_map_keys(found: Found, key: Seq<char>)
    requires
        forall|j: int| 0 <= j < found.len() ==> found[j].0 != key,
    ensures
        !found_map(found).contains_key(key),
    decreases found.len(),
{
    if found.len() > 0 {
        let earlier = found.drop_last();
        assert forall|j: int| 0 <= j < earlier.len() implies earlier[j].0 != key by {
            assert(earlier[j] == found[j]);
        }
        lemma_found_map_keys(earlier, key);
    }
}

/// After the texts of what was found are set, a key yields the text that
/// was found for it, and a key for which no text was found yields what it
/// yielded before.
pub proof fn lemma_merged_lookup(base: Entries, found: Found, key: Seq<char>)
    requires
        keys_distinct(base),
        found_keys_distinct(found),
    ensures
        lookup(with_values(base, texts_of(found)), key) == (if found_map(found).contains_key(key)
            && found_map(found)[key] is Some {
            found_map(found)[key]
        } else {
            lookup(base, key)
        }),
    decreases found.len(),
{
    if found.len() > 0 {
        let earlier = found.drop_last();
        let last = found.last();
        assert forall|i: int, j: int| 0 <= i < j < earlier.len() implies earlier[i].0
            != earlier[j].0 by {
            assert(earlier[i] == found[i] && earlier[j] == found[j]);
        }
        lemma_merged_lookup(base, earlier, key);
        let before = with_values(base, texts_of(earlier));
        lemma_with_values_distinct(base, texts_of(earlier));
        match last.1 {
            Some(value) => {
                let texts = texts_of(found);
                assert(texts.drop_last() =~= texts_of(earlier));
                assert(texts.last() == (last.0, value));
                lemma_set_then_get(before, last.0, value, key);
            },
            None => {
                if key == last.0 {
                    assert forall|j: int| 0 <= j < earlier.len() implies earlier[j].0 != key by {
                        assert(earlier[j] == found[j]);
                    }
                    lemma_found_map_keys(earlier, key);
                }
            },
        }
    }
}

/// The default settings have three different keys.
pub proof fn lemma_defaults_distinct()
    ensures
        keys_distinct(default_entries()),
{
    reveal_strlit("download_path");
    reveal_strlit("homepage");
    reveal_strlit("debug");
    assert("homepage"@.len() == 8);
    assert("debug"@.len() == 5);
}

/// Why a request to the settings failed.
#[derive(Debug, PartialEq, Eq)]
pub enum SettingsError {
    /// No value is set for the key.
    NotFound(String),
    /// The text is no settings file: the words of the parser.
    Malformed(String),
    /// The settings cannot be written down as TOML.
    Unwritable,
}

/// What a `SettingsError` stands for.
#[verifier::ext_equal]
pub enum SettingsErrorView {
    NotFound(Seq<char>),
    Malformed(Seq<char>),
    Unwritable,
}

impl View for SettingsError {
    type V = SettingsErrorView;

    open spec fn view(&self) -> SettingsErrorView {
        match self {
            SettingsError::NotFound(key) => SettingsErrorView::NotFound(key@),
            SettingsError::Malformed(words) => SettingsErrorView::Malformed(words@),
            SettingsError::Unwritable => SettingsErrorView::Unwritable,
        }
    }
}

/// The settings, and the name of the file that they are kept in.
#[derive(Debug, PartialEq, Eq)]
pub struct Settings {
    values: Vec<(String, String)>,
    config_filename: String,
}

/// What a `Settings` stands for.
#[verifier::ext_equal]
pub struct SettingsView {
    pub values: Entries,
    pub config_filename: Seq<char>,
}

impl View for Settings {
    type V = SettingsView;

    closed spec fn view(&self) -> SettingsView {
        SettingsView { values: self.values.deep_view(), config_filename: self.config_filename@ }
    }
}

impl Settings {
    /// No key occurs twice, at all times.
    #[verifier::type_invariant]
    spec fn wf(&self) -> bool {
        keys_distinct(self.values.deep_view())
    }

    /// The name of the settings file below `dir`; empty where no
    /// directory is known.
    pub fn config_file_below(dir: Option<String>) -> (r: String)
        ensures
            r@ == match dir.deep_view() {
                Some(d) => config_file_in(d),
                None => Seq::empty(),
            },
    {
        match dir {
            Some(d) => {
                if ends_with(d.as_str(), "/") {
                    joined(d.as_str(), "ncgopher/config")
                } else {
                    joined(d.as_str(), "/ncgopher/config")
                }
            },
            None => String::new(),
        }
    }

    /// The default settings, kept in the file of the given name.
    pub fn with_filename(config_filename: String) -> (r: Settings)
        ensures
            r@ == (SettingsView { values: default_entries(), config_filename: config_filename@ }),
    {
        let mut values: Vec<(String, String)> = Vec::new();
        values.push(("download_path".to_owned(), "Downloads".to_owned()));
        values.push(("homepage".to_owned(), "gopher://jan.bio:70/0/ncgopher/".to_owned()));
        values.push(("debug".to_owned(), "false".to_owned()));
        proof {
            lemma_defaults_distinct();
        }
        Settings { values, config_filename }
    }

    /// The default settings, kept in the file `ncgopher/config` below the
    /// user's configuration directory. Where that directory cannot be
    /// found, the file's name is empty.
    pub fn new() -> (r: Settings)
        ensures
            r@.values == default_entries(),
            r@.config_filename.len() == 0 || exists|dir: Seq<char>|
                r@.config_filename == #[trigger] config_file_in(dir),
    {
        let dir = config_dir();
        let name = Settings::config_file_below(dir);
        Settings::with_filename(name)
    }

    /// The name of the file that the settings are kept in.
    pub fn config_filename(&self) -> (r: &str)
        ensures
            r@ == self@.config_filename,
    {
        self.config_filename.as_str()
    }

    /// The index of the entry with the key.
    fn position(&self, key: &str) -> (r: usize)
        ensures
            r == index_of_key(self@.values, key@),
            r <= self@.values.len(),
    {
        let mut i: usize = 0;
        while i < self.values.len()
            invariant
                i <= self.values.len(),
                forall|j: int| 0 <= j < i ==> self@.values[j].0 != key@,
            decreases self.values.len() - i,
        {
            if same_text(self.values[i].0.as_str(), key) {
                proof {
                    lemma_index_of_key_is(self@.values, key@, i as int);
                }
                return i;
            }
            i += 1;
        }
        proof {
            lemma_index_of_key_is(self@.values, key@, i as int);
        }
        i
    }

    /// The value that is set for `key`. It is an error, `NotFound` with the
    /// key, if none is set.
    pub fn get_str(&self, key: &str) -> (r: Result<String, SettingsError>)
        ensures
            match r {
                Ok(value) => lookup(self@.values, key@) == Some(value@),
                Err(error) => lookup(self@.values, key@) is None && error@
                    == SettingsErrorView::NotFound(key@),
            },
    {
        let i: usize = self.position(key);
        if i < self.values.len() {
            Ok(self.values[i].1.clone())
        } else {
            Err(SettingsError::NotFound(key.to_owned()))
        }
    }

    /// Sets `value` for `key`, in the place of the value that was set before
    /// if there was one.
    pub fn set(&mut self, key: &str, value: &str)
        ensures
            final(self)@ == (SettingsView {
                values: with_value(old(self)@.values, key@, value@),
                ..old(self)@
            }),
            lookup(final(self)@.values, key@) == Some(value@),
    {
        proof {
            use_type_invariant(&*self);
            lemma_set_then_get(self@.values, key@, value@, key@);
        }
        let i: usize = self.position(key);
        let mut values: Vec<(String, String)> = Vec::new();
        core::mem::swap(&mut values, &mut self.values);
        let ghost before = values.deep_view();
        if i < values.len() {
            let _ = values.remove(i);
            values.insert(i, (key.to_owned(), value.to_owned()));
            assert(values.deep_view() =~= before.update(i as int, (key@, value@)));
        } else {
            values.push((key.to_owned(), value.to_owned()));
            assert(values.deep_view() =~= before.push((key@, value@)));
        }
        self.values = values;
    }

    /// Sets every entry of `more`, in order.
    pub fn set_all(&mut self, more: &Vec<(String, String)>)
        ensures
            final(self)@ == (SettingsView {
                values: with_values(old(self)@.values, more.deep_view()),
                ..old(self)@
            }),
    {
        let n: usize = more.len();
        let mut i: usize = 0;
        while i < n
            invariant
                i <= n,
                n == more.len(),
                self@ == (SettingsView {
                    values: with_values(old(self)@.values, more.deep_view().take(i as int)),
                    ..old(self)@
                }),
            decreases n - i,
        {
            let ghost next = more.deep_view().take(i + 1);
            assert(next.drop_last() =~= more.deep_view().take(i as int));
            assert(next.last() == (more[i as int].0@, more[i as int].1@));
            self.set(more[i].0.as_str(), more[i].1.as_str());
            i += 1;
        }
        assert(more.deep_view().take(n as int) =~= more.deep_view());
    }

    /// The entries among what was found in a settings file.
    pub fn found_texts(found: Vec<(String, Option<String>)>) -> (entries: Vec<(String, String)>)
        ensures
            entries.deep_view() == texts_of(found.deep_view()),
    {
        let ghost all = found.deep_view();
        let mut entries: Vec<(String, String)> = Vec::new();
        for pair in it: found
            invariant
                it.seq().len() == all.len(),
                forall|i: int| 0 <= i < all.len() ==> it.seq()[i].deep_view() == #[trigger] all[i],
                entries.deep_view() == texts_of(all.take(it.index() as int)),
        {
            assert(all.take(it.index() + 1).drop_last() =~= all.take(it.index() as int));
            let ghost before = entries.deep_view();
            match pair.1 {
                Some(value) => {
                    entries.push((pair.0, value));
                    assert(entries.deep_view() =~= before.push((pair.0@, value@)));
                },
                None => {},
            }
        }
        assert(all.take(all.len() as int) =~= all);
        entries
    }

    /// Goes on with what the parser made of a settings file. Of a file that
    /// it accepted, every key that has a text is set, in the order in which
    /// the keys were found. After a file that it refused the settings are
    /// as they were, and the error holds the parser's words.
    pub fn merge_parsed(
        &mut self,
        parsed: Result<Vec<(String, Option<String>)>, String>,
    ) -> (r: Result<(), SettingsError>)
        ensures
            match parsed {
                Ok(found) => r is Ok && final(self)@ == (SettingsView {
                    values: with_values(old(self)@.values, texts_of(found.deep_view())),
                    ..old(self)@
                }),
                Err(words) => r matches Err(error) && error@ == SettingsErrorView::Malformed(words@)
                    && final(self)@ == old(self)@,
            },
    {
        match parsed {
            Ok(found) => {
                let entries = Settings::found_texts(found);
                self.set_all(&entries);
                Ok(())
            },
            Err(words) => Err(SettingsError::Malformed(words)),
        }
    }

    /// Takes the settings that the text of a settings file holds. Of a
    /// text that the parser accepts, every key that it finds with a text
    /// yields that text afterwards, and every other key what it yielded
    /// before. A text that the parser refuses changes nothing and is an
    /// error, `Malformed` with the parser's words.
    pub fn merge_text(&mut self, text: &str) -> (r: Result<(), SettingsError>)
        ensures
            match settings_document(text@) {
                Ok(found) => r is Ok && final(self)@.config_filename == old(self)@.config_filename
                    && forall|key: Seq<char>|
                    #[trigger] lookup(final(self)@.values, key) == (if found.contains_key(key)
                        && found[key] is Some {
                        found[key]
                    } else {
                        lookup(old(self)@.values, key)
                    }),
                Err(words) => r matches Err(error) && error@ == SettingsErrorView::Malformed(words)
                    && final(self)@ == old(self)@,
            },
    {
        proof {
            use_type_invariant(&*self);
        }
        let parsed = parse_settings(text);
        let ghost pairs: Found = if parsed is Ok {
            parsed->Ok_0.deep_view()
        } else {
            Seq::empty()
        };
        let r = self.merge_parsed(parsed);
        proof {
            if r is Ok {
                assert forall|key: Seq<char>|
                    #[trigger] lookup(self@.values, key) == (if found_map(pairs).contains_key(key)
                        && found_map(pairs)[key] is Some {
                        found_map(pairs)[key]
                    } else {
                        lookup(old(self)@.values, key)
                    }) by {
                    lemma_merged_lookup(old(self)@.values, pairs, key);
                }
            }
        }
        r
    }

    /// Goes on with the TOML that was written for the settings: the text
    /// of the settings file is a line that says where it comes from,
    /// followed by the TOML.
    pub fn file_text_with(toml: Option<String>) -> (r: Result<String, SettingsError>)
        ensures
            match toml {
                Some(document) => r matches Ok(text) && text@ == file_text_of(document@),
                None => r matches Err(error) && error@ == SettingsErrorView::Unwritable,
            },
    {
        match toml {
            Some(document) => Ok(
                joined("# Automatically generated by ncgopher.\n", document.as_str()),
            ),
            None => Err(SettingsError::Unwritable),
        }
    }

    /// The text of the settings file for these settings.
    pub fn settings_file_text(&self) -> (r: Result<String, SettingsError>)
        ensures
            match toml_document(self@.values) {
                Some(document) => r matches Ok(text) && text@ == file_text_of(document),
                None => r matches Err(error) && error@ == SettingsErrorView::Unwritable,
            },
    {
        Settings::file_text_with(toml_text(&self.values))
    }
}

} // verus!
