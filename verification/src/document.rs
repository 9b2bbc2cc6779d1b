//! TOML documents, as far as they are read here: tables at the top level and
//! the entries in them. Parsing is left to the `toml` crate.

use vstd::prelude::*;

verus! {

/// A parsed TOML value of the `toml` crate. Nothing of its inside is visible
/// here; `toml_tables` names what the functions below read from it.
#[verifier::external_type_specification]
#[verifier::external_body]
pub struct ExTomlValue(toml::Value);

/// The error with which the `toml` crate rejects a text.
#[verifier::external_type_specification]
#[verifier::external_body]
pub struct ExTomlError(toml::de::Error);

/// One entry of a table, as a plain value.
#[derive(Debug, Clone, PartialEq, Eq)]
pub enum Entry {
    /// A string.
    Text(String),
    /// An integer.
    Integer(i64),
    /// A float, as the bits of its IEEE 754 double.
    Float(u64),
    /// A boolean.
    Boolean(bool),
    /// Anything else: a date-time, an array or a table.
    Other,
}

/// An entry with its text as a sequence.
pub enum EntryView {
    Text(Seq<char>),
    Integer(i64),
    Float(u64),
    Boolean(bool),
    Other,
}

impl View for Entry {
    type V = EntryView;

    open spec fn view(&self) -> EntryView {
        match self {
            Entry::Text(s) => EntryView::Text(s@),
            Entry::Integer(i) => EntryView::Integer(*i),
            Entry::Float(bits) => EntryView::Float(*bits),
            Entry::Boolean(b) => EntryView::Boolean(*b),
            Entry::Other => EntryView::Other,
        }
    }
}

/// An entry that may be missing, with its text as a sequence.
pub open spec fn view_of(entry: Option<Entry>) -> Option<EntryView> {
    match entry {
        Some(e) => Some(e@),
        None => None,
    }
}

/// The tables of a document: under the name of each table, its entries by key.
pub type Tables = Map<Seq<char>, Map<Seq<char>, EntryView>>;

/// What a parsed value holds: for each key at its top level whose value is a
/// table, the entries of that table. A value that is no table holds none.
pub uninterp spec fn toml_tables(doc: toml::Value) -> Tables;

/// The tables that the `toml` crate reads from `text`, or `None` where it
/// rejects the text.
pub uninterp spec fn toml_parse(text: Seq<char>) -> Option<Tables>;

/// The entry under `key` in the table `table`, where there is one.
pub open spec fn entry_at(tables: Tables, table: Seq<char>, key: Seq<char>) -> Option<EntryView> {
    if tables.dom().contains(table) && tables[table].dom().contains(key) {
        Some(tables[table][key])
    } else {
        None
    }
}

/// Calls `toml::from_str::<toml::Value>`. What it reads is a function of the
/// text alone; `toml_parse` names it and nothing more is claimed.
#[verifier::external_body]
pub(crate) fn toml_from_str(text: &str) -> (r: Result<toml::Value, toml::de::Error>)
    ensures
        match r {
            Ok(doc) => toml_parse(text@) == Some(toml_tables(doc)),
            Err(_) => toml_parse(text@) is None,
        },
{
    toml::from_str::<toml::Value>(text)
}

/// Calls `toml::Value::get` with `table` and `toml::Value::as_table` on what
/// it finds: whether the document holds a table of that name.
#[verifier::external_body]
pub(crate) fn toml_has_table(doc: &toml::Value, table: &str) -> (r: bool)
    ensures
        r == toml_tables(*doc).dom().contains(table@),
{
    doc.get(table).and_then(toml::Value::as_table).is_some()
}

/// Calls `toml::Value::get` with `table` and then with `key`, and hands the
/// value found back as a plain entry, variant by variant. `get` with a string
/// finds nothing in a value that is no table.
#[verifier::external_body]
pub(crate) fn toml_entry(doc: &toml::Value, table: &str, key: &str) -> (r: Option<Entry>)
    ensures
        view_of(r) == entry_at(toml_tables(*doc), table@, key@),
{
    Some(
        match doc.get(table)?.get(key)? {
            toml::Value::String(s) => Entry::Text(s.clone()),
            toml::Value::Integer(i) => Entry::Integer(*i),
            toml::Value::Float(f) => Entry::Float(f.to_bits()),
            toml::Value::Boolean(b) => Entry::Boolean(*b),
            toml::Value::Datetime(_) => Entry::Other,
            toml::Value::Array(_) => Entry::Other,
            toml::Value::Table(_) => Entry::Other,
        },
    )
}

} // verus!
