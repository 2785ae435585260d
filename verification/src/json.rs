//! The JSON values that cross the bridge, and the calls into `serde_json`
//! that read, build and print them.
//!
//! A `serde_json::Value` is opaque to the verifier. Contracts speak of it
//! through [`json_data`], its mathematical content. Every function marked
//! `external_body` in this file makes one call into `serde_json`; its
//! contract is believed, not proved.
//!
//! `serde_json` is built with `preserve_order`: an object keeps its members
//! in the order in which they were inserted, and prints them in that order.
//! The map behind it hashes with a seed of its own in every process, but
//! neither the order nor the content of an object depends on the hashes.

use serde_json::Value;
use vstd::prelude::*;

verus! {

/// The content of a JSON value.
///
/// The members of an object stand in the order in which they are printed;
/// no two of them have the same key.
pub enum JsonData {
    Null,
    Bool(bool),
    /// A non-negative integer.
    Unsigned(u64),
    /// A negative integer.
    Negative(i64),
    /// A number with a fractional part or an exponent, by its bit pattern.
    Fraction(u64),
    Text(Seq<char>),
    List(Seq<JsonData>),
    Object(Seq<(Seq<char>, JsonData)>),
}

/// How `serde_json` classes a failure to decode.
#[derive(Clone, Copy, Debug, PartialEq, Eq)]
pub enum Category {
    /// Bytes could not be read or written.
    Io,
    /// The input is not syntactically valid JSON.
    Syntax,
    /// The input is valid JSON of the wrong shape.
    Data,
    /// The input ended too early.
    Eof,
}

/// What a failed parse reports.
pub struct ParseFailure {
    pub message: Seq<char>,
    pub category: Category,
}

#[verifier::external_type_specification]
#[verifier::external_body]
pub struct ExValue(serde_json::Value);

#[verifier::external_type_specification]
#[verifier::external_body]
pub struct ExParseError(serde_json::Error);

#[verifier::external_type_specification]
#[verifier::external_body]
#[verifier::reject_recursive_types(K)]
#[verifier::reject_recursive_types(V)]
pub struct ExMap<K, V>(serde_json::Map<K, V>);

/// The content of a `serde_json::Value`.
pub uninterp spec fn json_data(v: Value) -> JsonData;

/// The members that a `serde_json::Map` holds, in their order.
pub uninterp spec fn map_entries(m: serde_json::Map<String, Value>) -> Seq<(Seq<char>, JsonData)>;

/// The text and the category that a `serde_json::Error` carries.
pub uninterp spec fn error_data(e: serde_json::Error) -> ParseFailure;

/// What `serde_json::from_slice` makes of a byte string.
pub uninterp spec fn parsed(bytes: Seq<u8>) -> Result<JsonData, ParseFailure>;

/// The compact JSON text that `serde_json::to_vec` prints for a value.
pub uninterp spec fn json_text(data: JsonData) -> Seq<u8>;

/// The first member of `entries` under `key`, if there is one.
pub open spec fn member_of(entries: Seq<(Seq<char>, JsonData)>, key: Seq<char>) -> Option<JsonData>
    decreases entries.len(),
{
    if entries.len() == 0 {
        None
    } else if entries[0].0 == key {
        Some(entries[0].1)
    } else {
        member_of(entries.drop_first(), key)
    }
}

/// The member of an object under `key`; `None` for a missing member and for
/// anything that is not an object.
pub open spec fn field(data: JsonData, key: Seq<char>) -> Option<JsonData> {
    match data {
        JsonData::Object(entries) => member_of(entries, key),
        _ => None,
    }
}

/// `serde_json::from_slice::<Value>`: parses JSON text. The outcome, the
/// value or the error, depends on the bytes alone; [`parsed`] names it.
#[verifier::external_body]
pub(crate) fn parse(bytes: &[u8]) -> (r: Result<Value, serde_json::Error>)
    ensures
        match r {
            Ok(v) => parsed(bytes@) == Ok::<JsonData, ParseFailure>(json_data(v)),
            Err(e) => parsed(bytes@) == Err::<JsonData, ParseFailure>(error_data(e)),
        },
{
    serde_json::from_slice::<Value>(bytes)
}

/// `ToString::to_string` on a `serde_json::Error`: the text that its
/// `Display` writes, which is the message that [`error_data`] stands for.
#[verifier::external_body]
pub(crate) fn error_text(e: &serde_json::Error) -> (s: String)
    ensures
        s@ == error_data(*e).message,
{
    e.to_string()
}

/// `serde_json::Error::classify`, with each of the four categories mapped
/// to the variant of the same name.
#[verifier::external_body]
pub(crate) fn error_category(e: &serde_json::Error) -> (c: Category)
    ensures
        c == error_data(*e).category,
{
    match e.classify() {
        serde_json::error::Category::Io => Category::Io,
        serde_json::error::Category::Syntax => Category::Syntax,
        serde_json::error::Category::Data => Category::Data,
        serde_json::error::Category::Eof => Category::Eof,
    }
}

/// `Value::get` with a string index: the member of an object under `key`,
/// `None` where the value is no object or has no such member.
#[verifier::external_body]
pub(crate) fn member<'a>(v: &'a Value, key: &str) -> (r: Option<&'a Value>)
    ensures
        match r {
            Some(m) => field(json_data(*v), key@) == Some(json_data(*m)),
            None => field(json_data(*v), key@) is None,
        },
{
    v.get(key)
}

/// `Value::is_object`: whether the value is an object.
#[verifier::external_body]
pub(crate) fn is_object(v: &Value) -> (b: bool)
    ensures
        b == (json_data(*v) is Object),
{
    v.is_object()
}

/// `Value::is_null`: whether the value is `null`.
#[verifier::external_body]
pub(crate) fn is_null(v: &Value) -> (b: bool)
    ensures
        b == (json_data(*v) is Null),
{
    v.is_null()
}

/// `Value::as_u64`: the number itself where the value is a non-negative
/// integer, `None` for every other value.
#[verifier::external_body]
pub(crate) fn as_u64(v: &Value) -> (r: Option<u64>)
    ensures
        r == match json_data(*v) {
            JsonData::Unsigned(n) => Some(n),
            _ => None,
        },
{
    v.as_u64()
}

/// The variant `Value::Null`.
#[verifier::external_body]
pub(crate) fn null_value() -> (v: Value)
    ensures
        json_data(v) == JsonData::Null,
{
    Value::Null
}

/// `Value::from` at `u64`: a non-negative integer.
#[verifier::external_body]
pub(crate) fn unsigned_value(n: u64) -> (v: Value)
    ensures
        json_data(v) == JsonData::Unsigned(n),
{
    Value::from(n)
}

/// The variant `Value::String`.
#[verifier::external_body]
pub(crate) fn text_value(s: String) -> (v: Value)
    ensures
        json_data(v) == JsonData::Text(s@),
{
    Value::String(s)
}

/// `Map::new`: a map without members.
#[verifier::external_body]
pub(crate) fn new_map() -> (m: serde_json::Map<String, Value>)
    ensures
        map_entries(m) == Seq::<(Seq<char>, JsonData)>::empty(),
{
    serde_json::Map::new()
}

/// `Map::insert` with a key that the map does not hold yet: the new member
/// comes last, and the members before it stay as they are.
#[verifier::external_body]
pub(crate) fn map_insert(m: &mut serde_json::Map<String, Value>, key: String, value: Value)
    requires
        member_of(map_entries(*old(m)), key@) is None,
    ensures
        map_entries(*final(m)) == map_entries(*old(m)).push((key@, json_data(value))),
{
    m.insert(key, value);
}

/// The variant `Value::Object`.
#[verifier::external_body]
pub(crate) fn object_value(m: serde_json::Map<String, Value>) -> (v: Value)
    ensures
        json_data(v) == JsonData::Object(map_entries(m)),
{
    Value::Object(m)
}

/// `serde_json::to_vec` on a `Value`: its compact JSON text, which depends
/// on the content alone; [`json_text`] names it. Printing a `Value` into a
/// `Vec` cannot fail (all keys are strings and the writer is memory), so the
/// result is unwrapped.
#[verifier::external_body]
pub(crate) fn to_bytes(v: &Value) -> (bytes: Vec<u8>)
    ensures
        bytes@ == json_text(json_data(*v)),
{
    serde_json::to_vec(v).unwrap()
}

} // verus!
