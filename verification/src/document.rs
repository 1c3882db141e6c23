//! The TOML side of a record: parsed documents and the values in them.
//!
//! Parsing is left to the `toml` crate. Its tables and values are opaque
//! here; what they hold is named by [`table_content`] and [`value_content`],
//! and the functions below are the only ones that touch them. Their
//! contracts are taken on trust from the crate's source.

use vstd::prelude::*;

verus! {

/// `toml::map::Map`, the table of a document; `toml::Table` is this map
/// from `String` to `toml::Value`.
#[verifier::external_type_specification]
#[verifier::external_body]
#[verifier::reject_recursive_types(K)]
#[verifier::reject_recursive_types(V)]
pub struct ExMap<K, V>(toml::map::Map<K, V>);

/// `toml::Value`, one value of a document.
#[verifier::external_type_specification]
#[verifier::external_body]
pub struct ExValue(toml::Value);

/// `toml::de::Error`, the error of parsing a document.
#[verifier::external_type_specification]
#[verifier::external_body]
pub struct ExError(toml::de::Error);

/// What a TOML value holds, as far as a record can use it.
pub ghost enum Content {
    /// A string.
    Text(Seq<char>),
    /// An integer.
    Integer(i64),
    /// A boolean.
    Flag(bool),
    /// An array; for each item its text if the item is a string.
    Items(Seq<Option<Seq<char>>>),
    /// A float, a date or time, or a table.
    Other,
}

/// The text of a string value, `None` for any other value.
pub open spec fn text_of(content: Content) -> Option<Seq<char>> {
    match content {
        Content::Text(s) => Some(s),
        _ => None,
    }
}

/// The top-level keys of the document written in `text` with what each
/// holds, or, where `text` is no TOML document, the parser's description of
/// what is wrong with it.
pub uninterp spec fn document_content(text: Seq<char>) -> Result<
    Map<Seq<char>, Content>,
    Seq<char>,
>;

/// The keys of a parsed table with what each holds.
pub uninterp spec fn table_content(table: toml::Table) -> Map<Seq<char>, Content>;

/// What a parsed value holds.
pub uninterp spec fn value_content(value: toml::Value) -> Content;

/// The description that a parse error carries.
pub uninterp spec fn error_text(error: toml::de::Error) -> Seq<char>;

/// `toml::from_str` for a `toml::Table`. Trusted: what it returns depends on
/// `text` alone; the table holds the document's top-level keys, and text
/// that is no document gives an error.
#[verifier::external_body]
pub(crate) fn parse_table(text: &str) -> (r: Result<toml::Table, toml::de::Error>)
    ensures
        match r {
            Ok(table) => document_content(text@) == Ok::<_, Seq<char>>(table_content(table)),
            Err(error) => document_content(text@) == Err::<Map<Seq<char>, Content>, _>(
                error_text(error),
            ),
        },
{
    toml::from_str::<toml::Table>(text)
}

/// `toml::map::Map::get`. Trusted: it returns the value stored under
/// `key`, and `None` exactly where the table has no such key.
#[verifier::external_body]
pub(crate) fn table_get<'a>(table: &'a toml::Table, key: &str) -> (r: Option<&'a toml::Value>)
    ensures
        match r {
            Some(value) => table_content(*table).contains_key(key@) && table_content(
                *table,
            )[key@] == value_content(*value),
            None => !table_content(*table).contains_key(key@),
        },
{
    table.get(key)
}

/// `toml::Value::as_str`. Trusted: it returns the text of a string value
/// and `None` for every other value.
#[verifier::external_body]
pub(crate) fn value_text<'a>(value: &'a toml::Value) -> (r: Option<&'a str>)
    ensures
        match r {
            Some(s) => value_content(*value) == Content::Text(s@),
            None => !(value_content(*value) is Text),
        },
{
    value.as_str()
}

/// `toml::Value::as_integer`. Trusted: it returns the number of an integer
/// value and `None` for every other value.
#[verifier::external_body]
pub(crate) fn value_integer(value: &toml::Value) -> (r: Option<i64>)
    ensures
        match r {
            Some(n) => value_content(*value) == Content::Integer(n),
            None => !(value_content(*value) is Integer),
        },
{
    value.as_integer()
}

/// `toml::Value::as_bool`. Trusted: it returns the truth value of a
/// boolean value and `None` for every other value.
#[verifier::external_body]
pub(crate) fn value_flag(value: &toml::Value) -> (r: Option<bool>)
    ensures
        match r {
            Some(b) => value_content(*value) == Content::Flag(b),
            None => !(value_content(*value) is Flag),
        },
{
    value.as_bool()
}

/// `toml::Value::as_array`. Trusted: it returns the items of an array
/// value, in their order, and `None` for every other value.
#[verifier::external_body]
pub(crate) fn value_items<'a>(value: &'a toml::Value) -> (r: Option<&'a Vec<toml::Value>>)
    ensures
        match r {
            Some(items) => value_content(*value) == Content::Items(
                Seq::new(items@.len(), |i: int| text_of(value_content(items@[i]))),
            ),
            None => !(value_content(*value) is Items),
        },
{
    value.as_array()
}

/// `toml::de::Error::message`. Trusted: it returns the error's description.
#[verifier::external_body]
pub(crate) fn error_message<'a>(error: &'a toml::de::Error) -> (r: &'a str)
    ensures
        r@ == error_text(*error),
{
    error.message()
}

} // verus!
