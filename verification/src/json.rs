//! JSON documents as `serde_json` holds them, with the mathematical model
//! that the contracts of this crate speak of.
//!
//! Nothing in this file is proved: each item states what `serde_json` does,
//! and the rest of the crate is verified against these statements.

use serde_json::Value;
use vstd::prelude::*;

verus! {

/// A JSON document as a mathematical value.
pub enum JsonDoc {
    Null,
    Bool(bool),
    /// A number held as an integer.
    Integer(int),
    /// A number held in floating point, given by the 64 bits of that form.
    Real(u64),
    Text(Seq<char>),
    Array(Seq<JsonDoc>),
    /// An object; no name occurs twice in one.
    Object(Map<Seq<char>, JsonDoc>),
}

/// `serde_json::Value`: carried as it is, never looked into.
#[verifier::external_type_specification]
#[verifier::external_body]
pub struct ExValue(serde_json::Value);

/// `serde_json::Map`: carried as it is, never looked into.
#[verifier::external_type_specification]
#[verifier::external_body]
#[verifier::reject_recursive_types(K)]
#[verifier::reject_recursive_types(V)]
pub struct ExMap<K, V>(serde_json::Map<K, V>);

/// `serde_json::Error`: why a text is no JSON document. Never looked into.
#[verifier::external_type_specification]
#[verifier::external_body]
pub struct ExError(serde_json::Error);

/// The document that a `serde_json::Value` holds.
pub uninterp spec fn json_doc(v: Value) -> JsonDoc;

/// The members that a `serde_json::Map` holds, each by the document it is.
pub uninterp spec fn json_members(m: serde_json::Map<String, Value>) -> Map<Seq<char>, JsonDoc>;

/// The document that `serde_json::from_slice` reads from bytes, where it
/// reads one.
pub uninterp spec fn json_parsed(bytes: Seq<u8>) -> Option<JsonDoc>;

/// The members of an object that has none.
pub open spec fn no_members() -> Map<Seq<char>, JsonDoc> {
    Map::empty()
}

/// The documents of a sequence of values, one for one.
pub open spec fn json_docs(items: Seq<Value>) -> Seq<JsonDoc> {
    items.map_values(|v: Value| json_doc(v))
}

/// `serde_json::from_slice` at the type `Value`: it reads the bytes as one
/// JSON document or fails, and the outcome depends on the bytes alone.
#[verifier::external_body]
pub(crate) fn parse_json(bytes: &[u8]) -> (r: Result<Value, serde_json::Error>)
    ensures
        match r {
            Ok(v) => json_parsed(bytes@) == Some(json_doc(v)),
            Err(_) => json_parsed(bytes@) is None,
        },
{
    serde_json::from_slice::<Value>(bytes)
}

/// `Value::clone`: a value that holds the same document.
pub assume_specification[ <Value as Clone>::clone ](v: &Value) -> (r: Value)
    ensures
        json_doc(r) == json_doc(*v),
;

/// `Value::get` with a string index: the member of that name where the value
/// is an object that has one, and nothing otherwise.
#[verifier::external_body]
pub(crate) fn json_member<'a>(v: &'a Value, name: &str) -> (r: Option<&'a Value>)
    ensures
        match r {
            Some(member) => json_doc(*v) matches JsonDoc::Object(members) && members.contains_key(
                name@,
            ) && json_doc(*member) == members[name@],
            None => !(json_doc(*v) matches JsonDoc::Object(members) && members.contains_key(name@)),
        },
{
    v.get(name)
}

/// `Value::as_array`: the elements where the value is an array, nothing
/// otherwise.
pub assume_specification<'a>[ Value::as_array ](v: &'a Value) -> (r: Option<&'a Vec<Value>>)
    ensures
        match r {
            Some(items) => json_doc(*v) == JsonDoc::Array(json_docs(items@)),
            None => !(json_doc(*v) is Array),
        },
;

/// `Value::as_str`: the characters where the value is a string, nothing
/// otherwise.
pub assume_specification<'a>[ Value::as_str ](v: &'a Value) -> (r: Option<&'a str>)
    ensures
        match r {
            Some(text) => json_doc(*v) == JsonDoc::Text(text@),
            None => !(json_doc(*v) is Text),
        },
;

/// The variant `Value::String`: a JSON string of the given characters.
#[verifier::external_body]
pub(crate) fn json_text(text: String) -> (r: Value)
    ensures
        json_doc(r) == JsonDoc::Text(text@),
{
    Value::String(text)
}

/// `Value::from` at `i32`: a JSON number held as that integer.
#[verifier::external_body]
pub(crate) fn json_integer(n: i32) -> (r: Value)
    ensures
        json_doc(r) == JsonDoc::Integer(n as int),
{
    Value::from(n)
}

/// The variant `Value::Array`: a JSON array of the given elements in their
/// order.
#[verifier::external_body]
pub(crate) fn json_array(items: Vec<Value>) -> (r: Value)
    ensures
        json_doc(r) == JsonDoc::Array(json_docs(items@)),
{
    Value::Array(items)
}

/// The variant `Value::Object`: a JSON object of the given members.
#[verifier::external_body]
pub(crate) fn json_object(members: serde_json::Map<String, Value>) -> (r: Value)
    ensures
        json_doc(r) == JsonDoc::Object(json_members(members)),
{
    Value::Object(members)
}

/// `Map::new`: a map without members.
pub assume_specification[ serde_json::Map::<String, Value>::new ]() -> (r: serde_json::Map<String, Value>)
    ensures
        json_members(r) == no_members(),
;

/// `Map::insert`: the name is bound to the value, in place of what it was
/// bound to before, which is returned.
pub assume_specification[ serde_json::Map::<String, Value>::insert ](
    m: &mut serde_json::Map<String, Value>,
    k: String,
    v: Value,
) -> (r: Option<Value>)
    ensures
        json_members(*final(m)) == json_members(*old(m)).insert(k@, json_doc(v)),
        match r {
            Some(before) => json_members(*old(m)).contains_key(k@) && json_doc(before)
                == json_members(*old(m))[k@],
            None => !json_members(*old(m)).contains_key(k@),
        },
;

} // verus!
