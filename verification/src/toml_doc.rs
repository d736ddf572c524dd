//! TOML documents.
//!
//! Configuration text is parsed by the `toml` crate. Verification sees the
//! parsed tables through a mathematical model, [`Toml`], and reaches them
//! only through the functions at the end of this file, each of which states
//! what one `toml` function returns in terms of that model. Those statements
//! are taken on trust.

use vstd::prelude::*;

verus! {

/// `toml::Value`, opaque to the verifier; see [`toml_of`] for its model.
#[verifier::external_type_specification]
#[verifier::external_body]
pub struct ExTomlValue(toml::Value);

/// `toml::map::Map`, opaque to the verifier; see [`table_of`] for its model.
#[verifier::external_type_specification]
#[verifier::external_body]
#[verifier::reject_recursive_types(K)]
#[verifier::reject_recursive_types(V)]
pub struct ExTomlMap<K, V>(toml::map::Map<K, V>);

/// `toml::de::Error`, the parser's account of why a text is not TOML.
#[verifier::external_type_specification]
#[verifier::external_body]
pub struct ExTomlError(toml::de::Error);

/// A TOML table: string keys, TOML values.
pub type TomlTable = toml::map::Map<String, toml::Value>;

/// The model of a TOML value: a tree whose tables are maps without order.
pub enum Toml {
    Text(Seq<char>),
    Integer(int),
    /// A float, by the bit pattern of its IEEE 754 binary64 form.
    Float(u64),
    Boolean(bool),
    /// A date, a time or both, by its RFC 3339 text.
    Datetime(Seq<char>),
    Array(Seq<Toml>),
    Table(Map<Seq<char>, Toml>),
}

/// What a `toml::Value` holds.
pub uninterp spec fn toml_of(value: toml::Value) -> Toml;

/// The entries that a `toml::map::Map` holds.
pub uninterp spec fn table_of(table: toml::map::Map<String, toml::Value>) -> Map<Seq<char>, Toml>;

/// The root table that the `toml` parser reads from a text, or nothing where
/// it rejects the text.
pub uninterp spec fn toml_document(text: Seq<char>) -> Option<Map<Seq<char>, Toml>>;

/// `toml::from_str` at type `toml::Table`: the root table of the text, or the
/// parser's error where the text is not a TOML document.
#[verifier::external_body]
pub(crate) fn parse_table(text: &str) -> (parsed: Result<TomlTable, toml::de::Error>)
    ensures
        parsed matches Ok(table) ==> toml_document(text@) == Some(table_of(table)),
        parsed is Err ==> toml_document(text@) is None,
{
    toml::from_str::<toml::Table>(text)
}

/// `toml::de::Error::message`: what went wrong, in the parser's words.
#[verifier::external_body]
pub(crate) fn error_message(error: &toml::de::Error) -> (message: String) {
    error.message().to_string()
}

/// `toml::map::Map::get`: the value stored under `key`, if there is one.
#[verifier::external_body]
pub(crate) fn table_get<'a>(table: &'a TomlTable, key: &str) -> (found: Option<&'a toml::Value>)
    ensures
        found is Some <==> table_of(*table).contains_key(key@),
        found matches Some(v) ==> toml_of(*v) == table_of(*table)[key@],
{
    table.get(key)
}

/// `toml::Value::as_table`: the entries of a table value, nothing for any
/// other kind of value.
#[verifier::external_body]
pub(crate) fn value_as_table<'a>(value: &'a toml::Value) -> (inner: Option<&'a TomlTable>)
    ensures
        inner is Some <==> toml_of(*value) is Table,
        inner matches Some(t) ==> toml_of(*value) == Toml::Table(table_of(*t)),
{
    value.as_table()
}

/// `toml::Value::as_str`: the text of a string value, nothing for any other
/// kind of value.
#[verifier::external_body]
pub(crate) fn value_as_str<'a>(value: &'a toml::Value) -> (text: Option<&'a str>)
    ensures
        text is Some <==> toml_of(*value) is Text,
        text matches Some(s) ==> toml_of(*value) == Toml::Text(s@),
{
    value.as_str()
}

/// `toml::Value::as_bool`: the truth value of a boolean, nothing for any
/// other kind of value.
#[verifier::external_body]
pub(crate) fn value_as_bool(value: &toml::Value) -> (flag: Option<bool>)
    ensures
        flag is Some <==> toml_of(*value) is Boolean,
        flag matches Some(b) ==> toml_of(*value) == Toml::Boolean(b),
{
    value.as_bool()
}

} // verus!
