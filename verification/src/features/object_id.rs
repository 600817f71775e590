//! The identifier of a stored object.
//!
//! It is recognised by its exact type name and always rendered the same way:
//! as a one-field wrapper around a string, which validators and JSON Schema
//! hold to twenty-four hexadecimal digits.

use crate::field_type::{object_id_ts_text, object_id_zod_text, FieldDefType, ShapeModel};
use crate::json::{json_bool, json_doc, json_map_insert, json_map_new, json_members,
    json_object, json_text, text_array, JsonDoc, array_doc, array_of};
use crate::text::same_text;
use vstd::prelude::*;
use vstd::string::*;

verus! {

/// Whether a type name is that of the identifier.
pub fn is_object_id_type(name: &str) -> (r: bool)
    ensures
        r == (name@ == "ObjectId"@),
{
    same_text(name, "ObjectId")
}

/// The shape of the identifier.
pub fn get_object_id_field_type() -> (r: FieldDefType)
    ensures
        r@ == ShapeModel::OpaqueId,
{
    FieldDefType::ObjectId
}

/// The static type of the identifier: the one-field wrapper.
pub fn get_object_id_typescript_type() -> (r: String)
    ensures
        r@ == object_id_ts_text(),
{
    String::from_str("{ $oid: string }")
}

/// The validator of the identifier.
pub fn get_object_id_zod_schema() -> (r: String)
    ensures
        r@ == object_id_zod_text(),
{
    String::from_str(
        "z.object({ $oid: z.string().regex(/^[a-f\\d]{24}$/i, { message: \"Invalid ObjectId\" }) })",
    )
}

/// The pattern of the identifier: twenty-four hexadecimal digits.
pub open spec fn object_id_pattern() -> Seq<char> {
    "^[a-f0-9]{24}$"@
}

/// The schema of the one member of the wrapper: a string that follows the
/// pattern of the identifier.
pub open spec fn object_id_member_doc() -> JsonDoc {
    JsonDoc::Object(
        map![
            "type"@ => JsonDoc::Text("string"@),
            "pattern"@ => JsonDoc::Text(object_id_pattern()),
        ],
    )
}

/// The JSON Schema of the identifier: an object with the one required member
/// `$oid`, a string of twenty-four hexadecimal digits, and no other.
pub open spec fn object_id_doc() -> JsonDoc {
    JsonDoc::Object(
        map![
            "type"@ => JsonDoc::Text("object"@),
            "properties"@ => JsonDoc::Object(map!["$oid"@ => object_id_member_doc()]),
            "required"@ => JsonDoc::Array(seq![JsonDoc::Text("$oid"@)]),
            "additionalProperties"@ => JsonDoc::Bool(false),
        ],
    )
}

/// The JSON Schema of the identifier.
pub fn get_object_id_json_schema() -> (v: serde_json::Value)
    ensures
        json_doc(v) == object_id_doc(),
{
    let mut member = json_map_new();
    json_map_insert(&mut member, "type".to_owned(), json_text("string"));
    json_map_insert(&mut member, "pattern".to_owned(), json_text("^[a-f0-9]{24}$"));
    assert(json_members(member) =~= object_id_member_doc()->Object_0);
    let mut properties = json_map_new();
    json_map_insert(&mut properties, "$oid".to_owned(), json_object(member));
    assert(json_members(properties) =~= map!["$oid"@ => object_id_member_doc()]);
    let mut names: Vec<String> = Vec::new();
    names.push("$oid".to_owned());
    let required = text_array(&names);
    assert(json_doc(required)->Array_0 =~= seq![JsonDoc::Text("$oid"@)]);
    let mut m = json_map_new();
    json_map_insert(&mut m, "type".to_owned(), json_text("object"));
    json_map_insert(&mut m, "properties".to_owned(), json_object(properties));
    json_map_insert(&mut m, "required".to_owned(), required);
    json_map_insert(&mut m, "additionalProperties".to_owned(), json_bool(false));
    assert(json_members(m) =~= object_id_doc()->Object_0);
    json_object(m)
}

/// The JSON Schema of an array of identifiers.
pub fn get_object_id_array_json_schema() -> (v: serde_json::Value)
    ensures
        json_doc(v) == array_doc(object_id_doc()),
{
    array_of(get_object_id_json_schema())
}

/// Whether a type of this name is handled as the identifier.
pub fn should_handle_as_object_id(name: &str) -> (r: bool)
    ensures
        r == (name@ == "ObjectId"@),
{
    is_object_id_type(name)
}

} // verus!
