//! JSON documents.
//!
//! Documents are `serde_json::Value`s. Verus cannot look inside one, so the
//! contracts speak of the document that a value holds, a [`JsonDoc`], and the
//! functions at the top of this file say what each `serde_json` constructor
//! puts into it.

use vstd::prelude::*;

verus! {

/// The mathematical content of a JSON document. Objects are maps: the order
/// of their members carries no meaning. A natural number is a `Number`; any
/// other number, negative or fractional, is an `OtherNumber` by the text
/// that stands for it. The documents built by this crate hold natural
/// numbers only, and never `null`; a document handed in from outside may
/// hold anything.
pub ghost enum JsonDoc {
    Null,
    Bool(bool),
    Number(nat),
    OtherNumber(Seq<char>),
    Text(Seq<char>),
    Array(Seq<JsonDoc>),
    Object(Map<Seq<char>, JsonDoc>),
}

/// Declares `serde_json::Value`, a JSON document, as a type whose inside is
/// not looked at.
#[verifier::external_type_specification]
#[verifier::external_body]
pub struct ExValue(serde_json::Value);

/// Declares `serde_json::Map`, the members of a JSON object, as a type
/// whose inside is not looked at.
#[verifier::external_type_specification]
#[verifier::external_body]
#[verifier::reject_recursive_types(K)]
#[verifier::reject_recursive_types(V)]
pub struct ExJsonMap<K, V>(serde_json::Map<K, V>);

/// Declares `serde_json::Error`, the failure of writing or reading JSON, as
/// a type whose inside is not looked at.
#[verifier::external_type_specification]
#[verifier::external_body]
pub struct ExJsonError(serde_json::Error);

/// The document that a `serde_json::Value` holds.
pub uninterp spec fn json_doc(v: serde_json::Value) -> JsonDoc;

/// The members that a `serde_json::Map` holds, by key.
pub uninterp spec fn json_members(m: serde_json::Map<String, serde_json::Value>) -> Map<
    Seq<char>,
    JsonDoc,
>;

/// The text that `serde_json::to_string_pretty` writes for a document: two
/// spaces of indentation, one member or element per line, the members of an
/// object ordered by key. The order by key is that of `serde_json` as this
/// crate asks for it, without its option to keep the order of insertion;
/// with that option the text would depend on more than the document.
pub uninterp spec fn pretty_text(doc: JsonDoc) -> Seq<char>;

/// The documents held by a list of values.
pub open spec fn json_docs(items: Seq<serde_json::Value>) -> Seq<JsonDoc> {
    Seq::new(items.len(), |i: int| json_doc(items[i]))
}

/// Trusted: `Value::Bool` holds the boolean it was given.
#[verifier::external_body]
pub(crate) fn json_bool(b: bool) -> (v: serde_json::Value)
    ensures
        json_doc(v) == JsonDoc::Bool(b),
{
    serde_json::Value::Bool(b)
}

/// Trusted: `Value::from` on an unsigned integer holds that number.
#[verifier::external_body]
pub(crate) fn json_number(n: usize) -> (v: serde_json::Value)
    ensures
        json_doc(v) == JsonDoc::Number(n as nat),
{
    serde_json::Value::from(n)
}

/// Trusted: `Value::String` holds the text it was given.
#[verifier::external_body]
pub(crate) fn json_string(s: String) -> (v: serde_json::Value)
    ensures
        json_doc(v) == JsonDoc::Text(s@),
{
    serde_json::Value::String(s)
}

/// Trusted: `Value::Array` holds the given values, in their order.
#[verifier::external_body]
pub(crate) fn json_array(items: Vec<serde_json::Value>) -> (v: serde_json::Value)
    ensures
        json_doc(v) == JsonDoc::Array(json_docs(items@)),
{
    serde_json::Value::Array(items)
}

/// Trusted: `Value::Object` holds the members of the map it was given.
#[verifier::external_body]
pub(crate) fn json_object(m: serde_json::Map<String, serde_json::Value>) -> (v: serde_json::Value)
    ensures
        json_doc(v) == JsonDoc::Object(json_members(m)),
{
    serde_json::Value::Object(m)
}

/// Trusted: `Map::new` makes a map without members.
#[verifier::external_body]
pub(crate) fn json_map_new() -> (m: serde_json::Map<String, serde_json::Value>)
    ensures
        json_members(m) =~= Map::empty(),
{
    serde_json::Map::new()
}

/// Trusted: `Map::insert` sets the member under `k` to `v`, replacing one
/// that was there, and leaves the other members as they were.
#[verifier::external_body]
pub(crate) fn json_map_insert(
    m: &mut serde_json::Map<String, serde_json::Value>,
    k: String,
    v: serde_json::Value,
)
    ensures
        json_members(*final(m)) == json_members(*old(m)).insert(k@, json_doc(v)),
{
    m.insert(k, v);
}

/// Trusted: the clone of a `Value` holds the same document.
#[verifier::external_body]
pub(crate) fn json_clone(v: &serde_json::Value) -> (r: serde_json::Value)
    ensures
        json_doc(r) == json_doc(*v),
{
    v.clone()
}

/// Trusted: `serde_json::to_string_pretty` returns a text for every value,
/// and the text depends on the document alone; the contract names it. It
/// returns one because it writes into a byte vector: every failure of the
/// printer is a failure of its writer, a byte vector takes every write, and
/// a `Value` has strings for keys and serialises without a failure of its
/// own.
#[verifier::external_body]
pub(crate) fn json_pretty(v: &serde_json::Value) -> (r: Result<String, serde_json::Error>)
    ensures
        r is Ok,
        r is Ok ==> r->Ok_0@ == pretty_text(json_doc(*v)),
{
    serde_json::to_string_pretty(v)
}

/// The document `{ "type": kind }`.
pub open spec fn typed_doc(kind: Seq<char>) -> JsonDoc {
    JsonDoc::Object(map!["type"@ => JsonDoc::Text(kind)])
}

/// The document `{ "type": "array", "items": items }`.
pub open spec fn array_doc(items: JsonDoc) -> JsonDoc {
    JsonDoc::Object(map!["type"@ => JsonDoc::Text("array"@), "items"@ => items])
}

/// The document `{ "type": "object", "additionalProperties": rest }`.
pub open spec fn open_object_doc(rest: JsonDoc) -> JsonDoc {
    JsonDoc::Object(
        map!["type"@ => JsonDoc::Text("object"@), "additionalProperties"@ => rest],
    )
}

/// A value holding the given text.
pub fn json_text(s: &str) -> (v: serde_json::Value)
    ensures
        json_doc(v) == JsonDoc::Text(s@),
{
    json_string(s.to_owned())
}

/// Builds `{ "type": kind }`.
pub fn typed(kind: &str) -> (v: serde_json::Value)
    ensures
        json_doc(v) == typed_doc(kind@),
{
    let mut m = json_map_new();
    json_map_insert(&mut m, "type".to_owned(), json_text(kind));
    assert(json_members(m) =~= map!["type"@ => JsonDoc::Text(kind@)]);
    json_object(m)
}

/// Builds `{ "type": "array", "items": items }`.
pub fn array_of(items: serde_json::Value) -> (v: serde_json::Value)
    ensures
        json_doc(v) == array_doc(json_doc(items)),
{
    let mut m = json_map_new();
    json_map_insert(&mut m, "type".to_owned(), json_text("array"));
    json_map_insert(&mut m, "items".to_owned(), items);
    assert(json_members(m) =~= map!["type"@ => JsonDoc::Text("array"@), "items"@ => json_doc(
        items,
    )]);
    json_object(m)
}

/// Builds `{ "type": "object", "additionalProperties": rest }`.
pub fn open_object(rest: serde_json::Value) -> (v: serde_json::Value)
    ensures
        json_doc(v) == open_object_doc(json_doc(rest)),
{
    let mut m = json_map_new();
    json_map_insert(&mut m, "type".to_owned(), json_text("object"));
    json_map_insert(&mut m, "additionalProperties".to_owned(), rest);
    assert(json_members(m) =~= map!["type"@ => JsonDoc::Text("object"@), "additionalProperties"@
        => json_doc(rest)]);
    json_object(m)
}

/// The array of the given texts.
pub open spec fn text_array_doc(items: Seq<Seq<char>>) -> JsonDoc {
    JsonDoc::Array(Seq::new(items.len(), |i: int| JsonDoc::Text(items[i])))
}

/// Builds the array of the given texts.
pub fn text_array(items: &Vec<String>) -> (v: serde_json::Value)
    ensures
        json_doc(v) == text_array_doc(crate::text::texts(items@)),
{
    let mut out: Vec<serde_json::Value> = Vec::new();
    let mut i: usize = 0;
    while i < items.len()
        invariant
            i <= items.len(),
            out@.len() == i,
            forall|j: int| 0 <= j < i ==> json_doc(#[trigger] out@[j]) == JsonDoc::Text(items@[j]@),
        decreases items.len() - i,
    {
        out.push(json_text(items[i].as_str()));
        i += 1;
    }
    let v = json_array(out);
    assert(json_docs(out@) =~= Seq::new(
        items@.len(),
        |i: int| JsonDoc::Text(crate::text::texts(items@)[i]),
    ));
    v
}

} // verus!
