//! The configuration document: its entries as plain values, and the calls
//! into `toml` that read and write it.

use crate::text::{chars_of, same_text};
use vstd::prelude::*;

verus! {

/// The value of an entry, as far as the configuration reads it.
#[derive(Debug, PartialEq, Eq)]
pub enum EntryValue {
    Text(String),
    Flag(bool),
    /// A value of another type; the configuration passes over it.
    Other,
}

/// The mathematical value of an `EntryValue`.
pub enum EntryValueView {
    Text(Seq<char>),
    Flag(bool),
    Other,
}

/// One key of one section of the document, with its value.
#[derive(Debug, PartialEq, Eq)]
pub struct Entry {
    pub section: String,
    pub key: String,
    pub value: EntryValue,
}

/// The mathematical value of an `Entry`.
pub struct EntryView {
    pub section: Seq<char>,
    pub key: Seq<char>,
    pub value: EntryValueView,
}

impl View for EntryValue {
    type V = EntryValueView;

    open spec fn view(&self) -> EntryValueView {
        match self {
            EntryValue::Text(text) => EntryValueView::Text(text@),
            EntryValue::Flag(flag) => EntryValueView::Flag(*flag),
            EntryValue::Other => EntryValueView::Other,
        }
    }
}

impl View for Entry {
    type V = EntryView;

    open spec fn view(&self) -> EntryView {
        EntryView { section: self.section@, key: self.key@, value: self.value@ }
    }
}

/// The values of a sequence of entries.
pub open spec fn entry_views(entries: Seq<Entry>) -> Seq<EntryView> {
    entries.map_values(|entry: Entry| entry@)
}

/// A value that is written to the document.
#[derive(Debug, PartialEq, Eq)]
pub enum SettingValue {
    Text(String),
    Flag(bool),
}

/// The mathematical value of a `SettingValue`.
pub enum SettingValueView {
    Text(Seq<char>),
    Flag(bool),
}

/// One key of one section, with the value to write under it.
#[derive(Debug, PartialEq, Eq)]
pub struct Setting {
    pub section: String,
    pub key: String,
    pub value: SettingValue,
}

/// The mathematical value of a `Setting`.
pub struct SettingView {
    pub section: Seq<char>,
    pub key: Seq<char>,
    pub value: SettingValueView,
}

impl View for SettingValue {
    type V = SettingValueView;

    open spec fn view(&self) -> SettingValueView {
        match self {
            SettingValue::Text(text) => SettingValueView::Text(text@),
            SettingValue::Flag(flag) => SettingValueView::Flag(*flag),
        }
    }
}

impl View for Setting {
    type V = SettingView;

    open spec fn view(&self) -> SettingView {
        SettingView { section: self.section@, key: self.key@, value: self.value@ }
    }
}

/// The values of a sequence of settings.
pub open spec fn setting_views(settings: Seq<Setting>) -> Seq<SettingView> {
    settings.map_values(|setting: Setting| setting@)
}

/// The value of what reading a document gives.
pub open spec fn read_view(read: Result<Vec<Entry>, String>) -> Result<Seq<EntryView>, Seq<char>> {
    match read {
        Ok(entries) => Ok(entry_views(entries@)),
        Err(message) => Err(message@),
    }
}

/// The value of what writing a document gives.
pub open spec fn written_view(written: Result<String, String>) -> Result<Seq<char>, Seq<char>> {
    match written {
        Ok(text) => Ok(text@),
        Err(message) => Err(message@),
    }
}

/// The entries of the tables at the top of a TOML document, as
/// `toml::from_str` reads it: for each table in the order of the parsed map,
/// its keys in the order of the parsed map. `Err` with the message of the
/// parser where the text is no TOML document.
pub uninterp spec fn toml_entries(text: Seq<char>) -> Result<Seq<EntryView>, Seq<char>>;

/// The TOML document that `toml::to_string` writes for a table of tables
/// that holds the given settings; `Err` with the serializer's message where
/// it fails.
pub uninterp spec fn toml_document(settings: Seq<SettingView>) -> Result<Seq<char>, Seq<char>>;

/// The greatest number of levels that a document may open.
pub const MAX_LEVELS: usize = 128;

/// Whether a character can open a level of a document: `[` opens an array
/// or a header, `{` an inline table, `.` a further part of a dotted key.
pub open spec fn opens_level(c: char) -> bool {
    c == '[' || c == '{' || c == '.'
}

/// The number of characters of a text that can open a level. No array,
/// table or key of the document lies deeper than this.
pub open spec fn levels(text: Seq<char>) -> nat
    decreases text.len(),
{
    if text.len() == 0 {
        0
    } else {
        levels(text.drop_last()) + if opens_level(text.last()) {
            1nat
        } else {
            0nat
        }
    }
}

/// Whether a document opens no more levels than `MAX_LEVELS`.
pub open spec fn shallow(text: Seq<char>) -> bool {
    levels(text) <= MAX_LEVELS
}

/// A start of a text opens no more levels than the text.
pub proof fn lemma_levels_grow(text: Seq<char>, upto: int)
    requires
        0 <= upto <= text.len(),
    ensures
        levels(text.take(upto)) <= levels(text),
    decreases text.len() - upto,
{
    if upto < text.len() {
        lemma_levels_grow(text, upto + 1);
        assert(text.take(upto + 1).drop_last() == text.take(upto));
    } else {
        assert(text.take(upto) == text);
    }
}

/// Tells whether a document opens no more levels than `MAX_LEVELS`.
pub fn is_shallow(text: &str) -> (ok: bool)
    ensures
        ok == shallow(text@),
{
    let chars = chars_of(text);
    let mut count: usize = 0;
    let mut i: usize = 0;
    while i < chars.len()
        invariant
            i <= chars.len(),
            chars@ == text@,
            count == levels(chars@.take(i as int)),
            count <= MAX_LEVELS,
        decreases chars.len() - i,
    {
        assert(chars@.take(i + 1).drop_last() == chars@.take(i as int));
        let c = chars[i];
        if c == '[' || c == '{' || c == '.' {
            if count == MAX_LEVELS {
                proof {
                    lemma_levels_grow(chars@, i + 1);
                }
                return false;
            }
            count += 1;
        }
        i += 1;
    }
    assert(chars@.take(chars.len() as int) == chars@);
    true
}

/// Parses `text` with `toml::from_str::<toml::Value>` and lists what the
/// tables at the top of the document hold. A string becomes `Text`, a
/// boolean `Flag`, every other value `Other`; a top-level key that is no
/// table holds no entries. The parser has no limit of its own: it descends
/// once for each nested array and inline table and for each part of a
/// dotted key, so the document must be shallow.
#[verifier::external_body]
pub(crate) fn read_document(text: &str) -> (entries: Result<Vec<Entry>, String>)
    requires
        shallow(text@),
    ensures
        read_view(entries) == toml_entries(text@),
{
    let root = toml::from_str::<toml::Value>(text).map_err(|e| e.to_string())?;
    let mut entries = Vec::new();
    for (section, table) in root.as_table().into_iter().flatten() {
        for (key, value) in table.as_table().into_iter().flatten() {
            let value = match value {
                toml::Value::String(text) => EntryValue::Text(text.clone()),
                toml::Value::Boolean(flag) => EntryValue::Flag(*flag),
                _ => EntryValue::Other,
            };
            entries.push(Entry { section: section.clone(), key: key.clone(), value });
        }
    }
    Ok(entries)
}

/// Builds a `toml::value::Table` of tables from the settings, each under
/// its section and key, and writes it with `toml::to_string`.
#[verifier::external_body]
pub(crate) fn write_document(settings: &Vec<Setting>) -> (text: Result<String, String>)
    ensures
        written_view(text) == toml_document(setting_views(settings@)),
{
    let mut root = toml::value::Table::new();
    for setting in settings {
        let value = match &setting.value {
            SettingValue::Text(text) => toml::Value::String(text.clone()),
            SettingValue::Flag(flag) => toml::Value::Boolean(*flag),
        };
        let section = root.entry(setting.section.clone()).or_insert(toml::Value::Table(toml::value::Table::new()));
        section.as_table_mut().map(|table| table.insert(setting.key.clone(), value));
    }
    toml::to_string(&root).map_err(|e| e.to_string())
}

/// The value of the first entry under `section` and `key`, if there is one.
pub open spec fn value_of(entries: Seq<EntryView>, section: Seq<char>, key: Seq<char>) -> Option<
    EntryValueView,
>
    decreases entries.len(),
{
    if entries.len() == 0 {
        None
    } else if entries[0].section == section && entries[0].key == key {
        Some(entries[0].value)
    } else {
        value_of(entries.skip(1), section, key)
    }
}

/// The text under `section` and `key`; nothing where the key is missing or
/// holds no text.
pub open spec fn text_at(entries: Seq<EntryView>, section: Seq<char>, key: Seq<char>) -> Option<
    Seq<char>,
> {
    match value_of(entries, section, key) {
        Some(EntryValueView::Text(text)) => Some(text),
        _ => None,
    }
}

/// The flag under `section` and `key`; nothing where the key is missing or
/// holds no flag.
pub open spec fn flag_at(entries: Seq<EntryView>, section: Seq<char>, key: Seq<char>) -> Option<
    bool,
> {
    match value_of(entries, section, key) {
        Some(EntryValueView::Flag(flag)) => Some(flag),
        _ => None,
    }
}

/// Finds the first entry under `section` and `key`.
pub fn find_entry<'a>(entries: &'a Vec<Entry>, section: &str, key: &str) -> (found: Option<
    &'a EntryValue,
>)
    ensures
        found.is_some() == value_of(entry_views(entries@), section@, key@).is_some(),
        found matches Some(value) ==> value_of(entry_views(entries@), section@, key@) == Some(
            value@,
        ),
{
    let ghost views = entry_views(entries@);
    assert(views.skip(0) == views);
    let mut i: usize = 0;
    while i < entries.len()
        invariant
            i <= entries.len(),
            views == entry_views(entries@),
            value_of(views, section@, key@) == value_of(views.skip(i as int), section@, key@),
        decreases entries.len() - i,
    {
        assert(views.skip(i as int)[0] == entries@[i as int]@);
        if same_text(entries[i].section.as_str(), section) && same_text(
            entries[i].key.as_str(),
            key,
        ) {
            return Some(&entries[i].value);
        }
        assert(views.skip(i as int).skip(1) == views.skip(i + 1));
        i += 1;
    }
    None
}

/// Looks up the text under `section` and `key`.
pub fn find_text(entries: &Vec<Entry>, section: &str, key: &str) -> (found: Option<String>)
    ensures
        found.is_some() == text_at(entry_views(entries@), section@, key@).is_some(),
        found matches Some(text) ==> text_at(entry_views(entries@), section@, key@) == Some(text@),
{
    match find_entry(entries, section, key) {
        Some(EntryValue::Text(text)) => Some(text.clone()),
        _ => None,
    }
}

/// Looks up the flag under `section` and `key`.
pub fn find_flag(entries: &Vec<Entry>, section: &str, key: &str) -> (found: Option<bool>)
    ensures
        found == flag_at(entry_views(entries@), section@, key@),
{
    match find_entry(entries, section, key) {
        Some(EntryValue::Flag(flag)) => Some(*flag),
        _ => None,
    }
}

} // verus!
