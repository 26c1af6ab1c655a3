//! TOML documents as the `toml` crate parses and renders them.
//!
//! A parsed document stays in the `toml` crate's own table type. What it
//! holds is spoken of through the model below. The contracts in this module
//! are believed, not proved: each says of one function of the `toml` crate
//! what that function's source shows.

use vstd::prelude::*;

verus! {

/// What a TOML value holds.
pub enum Item {
    /// A string.
    Str(Seq<char>),
    /// An integer.
    Integer(i64),
    /// A float, by its IEEE 754 bit pattern.
    Float(u64),
    /// A boolean.
    Boolean(bool),
    /// A date, a time or both, in its RFC 3339 spelling.
    Datetime(Seq<char>),
    /// An array, in order.
    Array(Seq<Item>),
    /// A table, by key.
    Table(Map<Seq<char>, Item>),
}

/// The entries of a TOML table: its keys, each with what its value holds.
pub type Entries = Map<Seq<char>, Item>;

/// `toml::map::Map`, the type of tables: `toml::Table` is the map from
/// `String` to `toml::Value`. Its inside is not looked at.
#[verifier::external_type_specification]
#[verifier::external_body]
#[verifier::reject_recursive_types(K)]
#[verifier::reject_recursive_types(V)]
pub struct ExTomlMap<K, V>(toml::map::Map<K, V>);

/// `toml::Value`, the type of values. Its inside is not looked at.
#[verifier::external_type_specification]
#[verifier::external_body]
pub struct ExTomlValue(toml::Value);

/// The entries that a table holds.
pub uninterp spec fn table_items(table: toml::Table) -> Entries;

/// What a value holds.
pub uninterp spec fn value_item(value: toml::Value) -> Item;

/// What `toml::from_str` makes of a text read as a whole document: its
/// top-level entries, or the message of the error it reports.
pub uninterp spec fn parsed_document(text: Seq<char>) -> Result<Entries, Seq<char>>;

/// What `toml::to_string` writes for a table with the given entries: the
/// document's text, or the message of the error it reports.
pub uninterp spec fn rendered_document(items: Entries) -> Result<Seq<char>, Seq<char>>;

/// `toml::from_str`, asked for a table: parses `text` as a TOML document.
///
/// Believed: the outcome depends on the text alone. It is `parsed_document`
/// of the text, an error being handed on as the message it displays.
#[verifier::external_body]
pub(crate) fn parse_document(text: &str) -> (parsed: Result<toml::Table, String>)
    ensures
        match parsed {
            Ok(table) => parsed_document(text@) matches Ok(items) && items == table_items(table),
            Err(message) => parsed_document(text@) matches Err(cause) && cause == message@,
        },
{
    toml::from_str::<toml::Table>(text).map_err(|e| e.to_string())
}

/// `toml::to_string` on a table: writes it out as a TOML document.
///
/// Believed: the outcome depends on the table's entries alone. It is
/// `rendered_document` of them, an error being handed on as the message it
/// displays.
#[verifier::external_body]
pub(crate) fn render_document(table: &toml::Table) -> (rendered: Result<String, String>)
    ensures
        match rendered {
            Ok(text) => rendered_document(table_items(*table)) matches Ok(written) && written
                == text@,
            Err(message) => rendered_document(table_items(*table)) matches Err(cause) && cause
                == message@,
        },
{
    toml::to_string(table).map_err(|e| e.to_string())
}

/// `Map::get`: looks `key` up in the table.
///
/// Believed: it returns the value under `key` where the table has that key,
/// and `None` where it has not.
#[verifier::external_body]
pub(crate) fn table_get<'a>(table: &'a toml::Table, key: &str) -> (found: Option<&'a toml::Value>)
    ensures
        match found {
            Some(value) => table_items(*table).contains_key(key@)
                && table_items(*table)[key@] == value_item(*value),
            None => !table_items(*table).contains_key(key@),
        },
{
    table.get(key)
}

/// A table's entries number `count`; in particular they are finitely many.
pub open spec fn counts(items: Entries, count: nat) -> bool {
    items.dom().finite() && items.len() == count
}

/// `Map::len`. Believed: it returns the number of the table's keys.
pub assume_specification[ toml::Table::len ](table: &toml::Table) -> (count: usize)
    ensures
        counts(table_items(*table), count as nat),
;

/// `Map::new`. Believed: it returns a table without entries.
pub assume_specification[ toml::Table::new ]() -> (made: toml::Table)
    ensures
        table_items(made) == Entries::empty(),
;

/// `Map::insert`. Believed: it puts `value` under `key`, in place of what
/// was there, leaves the other entries alone, and returns what was there.
pub assume_specification[ toml::Table::insert ](
    table: &mut toml::Table,
    key: String,
    value: toml::Value,
) -> (previous: Option<toml::Value>)
    ensures
        table_items(*final(table)) == table_items(*old(table)).insert(key@, value_item(value)),
        match previous {
            Some(before) => table_items(*old(table)).contains_key(key@)
                && table_items(*old(table))[key@] == value_item(before),
            None => !table_items(*old(table)).contains_key(key@),
        },
;

/// `Value::as_str`. Believed: it returns the string where the value is one,
/// and `None` where it is not.
pub assume_specification<'a>[ toml::Value::as_str ](
    value: &'a toml::Value,
) -> (text: Option<&'a str>)
    ensures
        match value_item(*value) {
            Item::Str(s) => text matches Some(t) && t@ == s,
            _ => text.is_none(),
        },
;

/// `Value::as_integer`. Believed: it returns the integer where the value is
/// one, and `None` where it is not.
pub assume_specification[ toml::Value::as_integer ](value: &toml::Value) -> (number: Option<i64>)
    ensures
        match value_item(*value) {
            Item::Integer(i) => number == Some(i),
            _ => number.is_none(),
        },
;

/// `Value::as_array`. Believed: it returns the elements, in order, where the
/// value is an array, and `None` where it is not.
pub assume_specification<'a>[ toml::Value::as_array ](
    value: &'a toml::Value,
) -> (elements: Option<&'a Vec<toml::Value>>)
    ensures
        match value_item(*value) {
            Item::Array(items) => elements matches Some(v) && items == v@.map_values(
                |e: toml::Value| value_item(e),
            ),
            _ => elements.is_none(),
        },
;

/// `Value::as_table`. Believed: it returns the table where the value is one,
/// and `None` where it is not.
pub assume_specification<'a>[ toml::Value::as_table ](
    value: &'a toml::Value,
) -> (table: Option<&'a toml::Table>)
    ensures
        match value_item(*value) {
            Item::Table(items) => table matches Some(t) && table_items(*t) == items,
            _ => table.is_none(),
        },
;

/// `Value::String`. Believed: it makes the value that holds the string `text`.
#[verifier::external_body]
pub(crate) fn string_value(text: String) -> (value: toml::Value)
    ensures
        value_item(value) == Item::Str(text@),
{
    toml::Value::String(text)
}

/// `Value::Integer`. Believed: it makes the value that holds the integer
/// `number`.
#[verifier::external_body]
pub(crate) fn integer_value(number: i64) -> (value: toml::Value)
    ensures
        value_item(value) == Item::Integer(number),
{
    toml::Value::Integer(number)
}

/// `Value::Table`. Believed: it makes the value that holds `table`.
#[verifier::external_body]
pub(crate) fn table_value(table: toml::Table) -> (value: toml::Value)
    ensures
        value_item(value) == Item::Table(table_items(table)),
{
    toml::Value::Table(table)
}

} // verus!
