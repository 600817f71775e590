//! The JSON Schema of a field, of a record and of an enum.
//!
//! A schema is a document, not text. Scalars and literals have a schema of
//! their own; a type known by name takes the schema registered for it; a map
//! is an object whose further members follow the schema of the map's values
//! as far as that is simple, and are unconstrained beyond.

use crate::error::{ErrorKind, ErrorModel, SchemaError};
use crate::features::object_id::{get_object_id_json_schema, object_id_doc};
use crate::field_type::{declared_text, is_known_collection, is_refused_shape,
    lemma_shape_children, min_length_of, refused_shape, FieldDef, FieldDefType, FieldModel,
    ShapeModel};
use crate::json::{array_doc, array_of, json_array, json_bool, json_clone, json_doc, json_docs,
    json_map_insert, json_map_new, json_members, json_number, json_object, json_pretty, json_text,
    open_object, open_object_doc, pretty_text, text_array, text_array_doc, typed, typed_doc,
    JsonDoc};
use crate::registry::{find_entry, EntryModel, SchemaRegistry};
use crate::text::{comment, comment_text, lines_of, same_text, split_lines, texts};
use vstd::prelude::*;
use vstd::string::*;

verus! {

/// Whether JSON Schemas are emitted by this build of the library: always.
pub fn should_generate_json_schema() -> (r: bool)
    ensures
        r,
{
    true
}

/// The schema of a scalar shape; none for the shapes that are not scalars.
pub open spec fn scalar_doc(shape: ShapeModel) -> Option<JsonDoc> {
    if shape is Text {
        Some(typed_doc("string"@))
    } else if shape.is_integer() {
        Some(typed_doc("integer"@))
    } else if shape.is_float() {
        Some(typed_doc("number"@))
    } else if shape is Boolean {
        Some(typed_doc("boolean"@))
    } else if shape is OpaqueId {
        Some(object_id_doc())
    } else {
        None
    }
}

/// The schema that accepts everything.
pub open spec fn any_doc() -> JsonDoc {
    JsonDoc::Bool(true)
}

/// The schema of a scalar, and the one that accepts everything for any other
/// shape.
pub open spec fn scalar_or_any(shape: ShapeModel) -> JsonDoc {
    match scalar_doc(shape) {
        Some(doc) => doc,
        None => any_doc(),
    }
}

/// `doc`, as the items of an array where `is_array` holds.
pub open spec fn in_array(is_array: bool, doc: JsonDoc) -> JsonDoc {
    if is_array {
        array_doc(doc)
    } else {
        doc
    }
}

/// The schema of the values of a map with string keys.
pub open spec fn map_value_doc(value: FieldModel) -> JsonDoc {
    match value.shape {
        ShapeModel::Dictionary(inner_key, inner_value) => if value.is_array
            && inner_key.shape is Text {
            array_doc(open_object_doc(scalar_or_any(inner_value.shape)))
        } else {
            any_doc()
        },
        ShapeModel::Reference(name, args) => if name == "Vec"@ && args.len() == 1 {
            match args[0].shape {
                ShapeModel::Dictionary(inner_key, inner_value) => if inner_key.shape is Text {
                    array_doc(open_object_doc(scalar_or_any(inner_value.shape)))
                } else {
                    any_doc()
                },
                shape => match scalar_doc(shape) {
                    Some(doc) => array_doc(doc),
                    None => any_doc(),
                },
            }
        } else {
            any_doc()
        },
        shape => match scalar_doc(shape) {
            Some(doc) => in_array(value.is_array, doc),
            None => any_doc(),
        },
    }
}

/// The schema of a string, with its minimum length where it has one.
pub open spec fn string_doc(min_length: Option<nat>) -> JsonDoc {
    match min_length {
        Some(n) => JsonDoc::Object(
            map!["type"@ => JsonDoc::Text("string"@), "minLength"@ => JsonDoc::Number(n)],
        ),
        None => typed_doc("string"@),
    }
}

/// The schema of a string pinned to `value`.
pub open spec fn literal_doc(value: Seq<char>) -> JsonDoc {
    JsonDoc::Object(map!["type"@ => JsonDoc::Text("string"@), "const"@ => JsonDoc::Text(value)])
}

/// The schema of a map whose keys are the values of an enum: one member for
/// each of them, all with the schema of the map's values, and no other.
pub open spec fn closed_map_doc(keys: Seq<Seq<char>>, value: JsonDoc) -> JsonDoc {
    JsonDoc::Object(
        map![
            "type"@ => JsonDoc::Text("object"@),
            "properties"@ => JsonDoc::Object(keyed(keys, value)),
            "additionalProperties"@ => JsonDoc::Bool(false),
        ],
    )
}

/// The map that takes each of `keys` to `value`.
pub open spec fn keyed(keys: Seq<Seq<char>>, value: JsonDoc) -> Map<Seq<char>, JsonDoc> {
    Map::new(|k: Seq<char>| keys.contains(k), |k: Seq<char>| value)
}

/// The name under which the schema of the type written `name` is registered.
pub open spec fn declared_name(name: Seq<char>) -> Seq<char> {
    name + "Json"@
}

/// The schema of a map whose keys are of the type `key` and whose values are
/// of the type `value`, both known by name: the first failure, in the order
/// key, key's values, value.
pub open spec fn keyed_map_doc(
    f: FieldModel,
    key: Seq<char>,
    value: Seq<char>,
    reg: Seq<EntryModel>,
) -> Result<JsonDoc, ErrorModel> {
    match find_entry(reg, declared_name(key)) {
        None => Err(
            ErrorModel::at_field(ErrorKind::UnknownReference, f.name, declared_name(key)),
        ),
        Some(k) => match k.members {
            None => Err(
                ErrorModel::at_field(ErrorKind::NotEnumerable, f.name, declared_name(key)),
            ),
            Some(keys) => match find_entry(reg, declared_name(value)) {
                None => Err(
                    ErrorModel::at_field(
                        ErrorKind::UnknownReference,
                        f.name,
                        declared_name(value),
                    ),
                ),
                Some(v) => Ok(closed_map_doc(keys, v.schema)),
            },
        },
    }
}

/// The schema registered for the type written `name`, for the field `f`.
pub open spec fn registered_doc(f: FieldModel, name: Seq<char>, reg: Seq<EntryModel>) -> Result<
    JsonDoc,
    ErrorModel,
> {
    match find_entry(reg, declared_name(name)) {
        Some(e) => Ok(e.schema),
        None => Err(ErrorModel::at_field(ErrorKind::UnknownReference, f.name, declared_name(name))),
    }
}

/// The JSON Schema of a field's shape, without the array modifier, or why it
/// has none.
///
/// - A shape outside the supported ones has none: the failure names the field
///   and its type.
/// - A string, a literal and a scalar have their own schema.
/// - A type known by name has the schema registered for it. The collections
///   `Vec` and `HashSet` of one argument are an array of strings, `HashMap`
///   and `BTreeMap` of two an object of anything.
/// - A map with string keys is an object whose members follow
///   [`map_value_doc`]; one keyed by a named type is closed over that type's
///   values; a map with any other key is an object of anything.
/// - A tuple and an unknown shape are rendered permissively: their schema
///   accepts everything.
pub open spec fn shape_doc(f: FieldModel, reg: Seq<EntryModel>) -> Result<JsonDoc, ErrorModel> {
    if refused_shape(f) {
        Err(ErrorModel::at_field(ErrorKind::UnsupportedShape, f.name, declared_text(f)))
    } else {
        match f.shape {
            ShapeModel::Text => Ok(string_doc(min_length_of(f))),
            ShapeModel::Literal(value) => Ok(literal_doc(value)),
            ShapeModel::Reference(name, args) => if (name == "Vec"@ || name == "HashSet"@)
                && args.len() == 1 {
                Ok(array_doc(typed_doc("string"@)))
            } else if args.len() == 0 {
                registered_doc(f, name, reg)
            } else {
                Ok(open_object_doc(any_doc()))
            },
            ShapeModel::Dictionary(key, value) => match (key.shape, value.shape) {
                (ShapeModel::Text, _) => Ok(open_object_doc(map_value_doc(*value))),
                (
                    ShapeModel::Reference(key_name, key_args),
                    ShapeModel::Reference(value_name, _),
                ) => if key_args.len() == 0 {
                    keyed_map_doc(f, key_name, value_name, reg)
                } else {
                    Ok(open_object_doc(any_doc()))
                },
                _ => Ok(open_object_doc(any_doc())),
            },
            ShapeModel::Unknown | ShapeModel::Tuple(_) => Ok(any_doc()),
            shape => Ok(scalar_doc(shape)->Some_0),
        }
    }
}

/// The JSON Schema of a field, or why it has none: the schema of its shape,
/// as the items of an array where the field is an array, whatever the shape.
/// Whether the field is optional does not show in its schema.
pub open spec fn field_doc(f: FieldModel, reg: Seq<EntryModel>) -> Result<JsonDoc, ErrorModel> {
    match shape_doc(f, reg) {
        Ok(doc) => Ok(in_array(f.is_array, doc)),
        Err(e) => Err(e),
    }
}

/// The schema of one field of a record, and whether the record requires it.
#[derive(Debug)]
pub struct FieldSchema {
    pub name: String,
    pub schema: serde_json::Value,
    pub required: bool,
}

/// What a [`FieldSchema`] holds.
pub ghost struct FieldSchemaModel {
    pub name: Seq<char>,
    pub schema: JsonDoc,
    pub required: bool,
}

impl View for FieldSchema {
    type V = FieldSchemaModel;

    open spec fn view(&self) -> FieldSchemaModel {
        FieldSchemaModel { name: self.name@, schema: json_doc(self.schema), required: self.required }
    }
}

/// The entry of a field in the schema of its record: its schema under its
/// name, required unless the field is optional.
pub open spec fn field_schema(f: FieldModel, reg: Seq<EntryModel>) -> Result<
    FieldSchemaModel,
    ErrorModel,
> {
    match field_doc(f, reg) {
        Ok(doc) => Ok(FieldSchemaModel { name: f.name, schema: doc, required: !f.is_optional }),
        Err(e) => Err(e),
    }
}

/// The schema of a scalar shape, where it is one.
fn scalar_schema(t: &FieldDefType) -> (r: Option<serde_json::Value>)
    ensures
        match r {
            Some(v) => scalar_doc(t@) == Some(json_doc(v)),
            None => scalar_doc(t@) is None,
        },
{
    match t {
        FieldDefType::String => Some(typed("string")),
        FieldDefType::U8 | FieldDefType::U16 | FieldDefType::U32 | FieldDefType::U64
        | FieldDefType::I8 | FieldDefType::I16 | FieldDefType::I32 | FieldDefType::I64
        | FieldDefType::Usize | FieldDefType::Isize => Some(typed("integer")),
        FieldDefType::F32 | FieldDefType::F64 => Some(typed("number")),
        FieldDefType::Boolean => Some(typed("boolean")),
        FieldDefType::ObjectId => Some(get_object_id_json_schema()),
        _ => None,
    }
}

/// The schema of a scalar shape, or the one that accepts everything.
fn scalar_or_any_schema(t: &FieldDefType) -> (v: serde_json::Value)
    ensures
        json_doc(v) == scalar_or_any(t@),
{
    match scalar_schema(t) {
        Some(v) => v,
        None => json_bool(true),
    }
}

/// The schema of the values of a map with string keys.
fn map_value_schema(value: &FieldDef) -> (v: serde_json::Value)
    ensures
        json_doc(v) == map_value_doc(value@),
{
    proof {
        lemma_shape_children(value.field_type);
    }
    match &value.field_type {
        FieldDefType::Mapping(inner_key, inner_value) => {
            proof {
                lemma_shape_children(inner_key.field_type);
                lemma_shape_children(inner_value.field_type);
            }
            if value.is_array {
                if let FieldDefType::String = inner_key.field_type {
                    return array_of(
                        open_object(scalar_or_any_schema(&inner_value.field_type)),
                    );
                }
            }
            json_bool(true)
        },
        FieldDefType::SiblingType(name, args) => {
            if same_text(name.as_str(), "Vec") && args.len() == 1 {
                let inner = &args[0];
                assert(value@.shape->Reference_1[0] == inner@);
                proof {
                    lemma_shape_children(inner.field_type);
                }
                match &inner.field_type {
                    FieldDefType::Mapping(inner_key, inner_value) => {
                        proof {
                            lemma_shape_children(inner_key.field_type);
                            lemma_shape_children(inner_value.field_type);
                        }
                        if let FieldDefType::String = inner_key.field_type {
                            array_of(
                                open_object(scalar_or_any_schema(&inner_value.field_type)),
                            )
                        } else {
                            json_bool(true)
                        }
                    },
                    shape => match scalar_schema(shape) {
                        Some(v) => array_of(v),
                        None => json_bool(true),
                    },
                }
            } else {
                json_bool(true)
            }
        },
        shape => match scalar_schema(shape) {
            Some(v) => generate_type_schema(value, v),
            None => json_bool(true),
        },
    }
}

/// The schema of a string, with its minimum length where it has one.
fn string_schema(min_length: Option<usize>) -> (v: serde_json::Value)
    ensures
        json_doc(v) == string_doc(
            match min_length {
                Some(n) => Some(n as nat),
                None => None,
            },
        ),
{
    match min_length {
        Some(n) => {
            let mut m = json_map_new();
            json_map_insert(&mut m, "type".to_owned(), json_text("string"));
            json_map_insert(&mut m, "minLength".to_owned(), json_number(n));
            assert(json_members(m) =~= map!["type"@ => JsonDoc::Text("string"@), "minLength"@
                => JsonDoc::Number(n as nat)]);
            json_object(m)
        },
        None => typed("string"),
    }
}

/// The schema of a string pinned to `value`.
fn literal_schema(value: &str) -> (v: serde_json::Value)
    ensures
        json_doc(v) == literal_doc(value@),
{
    let mut m = json_map_new();
    json_map_insert(&mut m, "type".to_owned(), json_text("string"));
    json_map_insert(&mut m, "const".to_owned(), json_text(value));
    assert(json_members(m) =~= map!["type"@ => JsonDoc::Text("string"@), "const"@
        => JsonDoc::Text(value@)]);
    json_object(m)
}

/// `name` followed by `Json`: the name under which its schema is registered.
fn declared(name: &str) -> (r: String)
    ensures
        r@ == declared_name(name@),
{
    let mut out = String::from_str(name);
    out.append("Json");
    out
}

/// The schema registered for the type written `name`.
fn registered_schema(fld: &FieldDef, name: &str, registry: &SchemaRegistry) -> (r: Result<
    serde_json::Value,
    SchemaError,
>)
    ensures
        match r {
            Ok(v) => registered_doc(fld@, name@, registry@) == Ok::<JsonDoc, ErrorModel>(
                json_doc(v),
            ),
            Err(e) => registered_doc(fld@, name@, registry@) == Err::<JsonDoc, ErrorModel>(e@),
        },
{
    let full = declared(name);
    match registry.schema_of(full.as_str()) {
        Some(v) => Ok(v),
        None => Err(
            SchemaError::at_field(ErrorKind::UnknownReference, fld.name.as_str(), full.as_str()),
        ),
    }
}

/// The schema of a map keyed by the values of a named enum.
fn keyed_map_schema(fld: &FieldDef, key: &str, value: &str, registry: &SchemaRegistry) -> (r:
    Result<serde_json::Value, SchemaError>)
    ensures
        match r {
            Ok(v) => keyed_map_doc(fld@, key@, value@, registry@) == Ok::<JsonDoc, ErrorModel>(
                json_doc(v),
            ),
            Err(e) => keyed_map_doc(fld@, key@, value@, registry@) == Err::<JsonDoc, ErrorModel>(
                e@,
            ),
        },
{
    let key_name = declared(key);
    let at = match registry.position(key_name.as_str()) {
        Some(at) => at,
        None => {
            return Err(
                SchemaError::at_field(
                    ErrorKind::UnknownReference,
                    fld.name.as_str(),
                    key_name.as_str(),
                ),
            );
        },
    };
    let keys = match &registry.entries[at].members {
        Some(keys) => keys,
        None => {
            return Err(
                SchemaError::at_field(
                    ErrorKind::NotEnumerable,
                    fld.name.as_str(),
                    key_name.as_str(),
                ),
            );
        },
    };
    let value_name = declared(value);
    let value_schema = match registry.schema_of(value_name.as_str()) {
        Some(v) => v,
        None => {
            return Err(
                SchemaError::at_field(
                    ErrorKind::UnknownReference,
                    fld.name.as_str(),
                    value_name.as_str(),
                ),
            );
        },
    };
    let ghost doc = json_doc(value_schema);
    let mut properties = json_map_new();
    let mut i: usize = 0;
    while i < keys.len()
        invariant
            i <= keys.len(),
            json_doc(value_schema) == doc,
            json_members(properties) == keyed(texts(keys@).take(i as int), doc),
        decreases keys.len() - i,
    {
        json_map_insert(&mut properties, keys[i].clone(), json_clone(&value_schema));
        proof {
            let before = texts(keys@).take(i as int);
            let after = texts(keys@).take(i + 1);
            assert(after =~= before.push(keys@[i as int]@));
            assert forall|k: Seq<char>| after.contains(k) <==> (before.contains(k) || k
                == keys@[i as int]@) by {
                if after.contains(k) {
                    let j = choose|j: int| 0 <= j < after.len() && after[j] == k;
                    if j < i {
                        assert(before[j] == k);
                    }
                }
                if before.contains(k) {
                    let j = choose|j: int| 0 <= j < before.len() && before[j] == k;
                    assert(after[j] == k);
                }
                if k == keys@[i as int]@ {
                    assert(after[i as int] == k);
                }
            }
            assert(json_members(properties) =~= keyed(after, doc));
        }
        i += 1;
    }
    assert(texts(keys@).take(keys.len() as int) =~= texts(keys@));
    let mut m = json_map_new();
    json_map_insert(&mut m, "type".to_owned(), json_text("object"));
    json_map_insert(&mut m, "properties".to_owned(), json_object(properties));
    json_map_insert(&mut m, "additionalProperties".to_owned(), json_bool(false));
    assert(json_members(m) =~= closed_map_doc(texts(keys@), doc)->Object_0);
    Ok(json_object(m))
}

/// Wraps the schema of a field's type as the items of an array where the
/// field is one.
pub fn generate_type_schema(fld: &FieldDef, type_json_schema: serde_json::Value) -> (v:
    serde_json::Value)
    ensures
        json_doc(v) == in_array(fld@.is_array, json_doc(type_json_schema)),
{
    if fld.is_array {
        array_of(type_json_schema)
    } else {
        type_json_schema
    }
}

/// The document of the schema of a field's shape.
fn shape_document(fld: &FieldDef, registry: &SchemaRegistry) -> (r: Result<
    serde_json::Value,
    SchemaError,
>)
    ensures
        match r {
            Ok(v) => shape_doc(fld@, registry@) == Ok::<JsonDoc, ErrorModel>(json_doc(v)),
            Err(e) => shape_doc(fld@, registry@) == Err::<JsonDoc, ErrorModel>(e@),
        },
{
    proof {
        lemma_shape_children(fld.field_type);
    }
    if is_refused_shape(fld) {
        let text = fld.declared_typename();
        return Err(
            SchemaError::at_field(ErrorKind::UnsupportedShape, fld.name.as_str(), text.as_str()),
        );
    }
    match &fld.field_type {
        FieldDefType::String => {
            let min_length = match &fld.model_schema_prop_meta {
                Some(meta) => meta.min_length,
                None => None,
            };
            Ok(string_schema(min_length))
        },
        FieldDefType::StringLiteral(value) => Ok(literal_schema(value.as_str())),
        FieldDefType::SiblingType(name, args) => {
            let n = name.as_str();
            if (same_text(n, "Vec") || same_text(n, "HashSet")) && args.len() == 1 {
                Ok(array_of(typed("string")))
            } else if args.len() == 0 {
                registered_schema(fld, n, registry)
            } else {
                Ok(open_object(json_bool(true)))
            }
        },
        FieldDefType::Mapping(key, value) => {
            proof {
                lemma_shape_children(key.field_type);
                lemma_shape_children(value.field_type);
            }
            match &key.field_type {
                FieldDefType::String => Ok(open_object(map_value_schema(value))),
                FieldDefType::SiblingType(key_name, key_args) => {
                    if key_args.len() == 0 {
                        match &value.field_type {
                            FieldDefType::SiblingType(value_name, _) => keyed_map_schema(
                                fld,
                                key_name.as_str(),
                                value_name.as_str(),
                                registry,
                            ),
                            _ => Ok(open_object(json_bool(true))),
                        }
                    } else {
                        Ok(open_object(json_bool(true)))
                    }
                },
                _ => Ok(open_object(json_bool(true))),
            }
        },
        FieldDefType::Unknown | FieldDefType::Tuple(_) => Ok(json_bool(true)),
        shape => {
            match scalar_schema(shape) {
                Some(v) => Ok(v),
                None => Ok(json_bool(true)),
            }
        },
    }
}

/// The document of a field's schema.
fn field_document(fld: &FieldDef, registry: &SchemaRegistry) -> (r: Result<
    serde_json::Value,
    SchemaError,
>)
    ensures
        match r {
            Ok(v) => field_doc(fld@, registry@) == Ok::<JsonDoc, ErrorModel>(json_doc(v)),
            Err(e) => field_doc(fld@, registry@) == Err::<JsonDoc, ErrorModel>(e@),
        },
{
    match shape_document(fld, registry) {
        Ok(v) => Ok(generate_type_schema(fld, v)),
        Err(e) => Err(e),
    }
}

/// The entry of a field in the schema of its record: the field's schema
/// under the field's name, required unless the field is optional. Fails
/// exactly where the field has no schema, with the reason.
pub fn build_field_schema(fld: &FieldDef, registry: &SchemaRegistry) -> (r: Result<
    FieldSchema,
    SchemaError,
>)
    ensures
        match r {
            Ok(s) => field_schema(fld@, registry@) == Ok::<FieldSchemaModel, ErrorModel>(s@),
            Err(e) => field_schema(fld@, registry@) == Err::<FieldSchemaModel, ErrorModel>(e@),
        },
{
    match field_document(fld, registry) {
        Ok(schema) => Ok(FieldSchema { name: fld.name.clone(), schema, required: !fld.is_optional }),
        Err(e) => Err(e),
    }
}

/// The models of a list of field schemas.
pub open spec fn schema_models(schemas: Seq<FieldSchema>) -> Seq<FieldSchemaModel> {
    Seq::new(schemas.len(), |i: int| schemas[i]@)
}

/// `base` with the schema of each field under the field's name; of two
/// fields of one name the later stays.
pub open spec fn properties_onto(base: Map<Seq<char>, JsonDoc>, schemas: Seq<FieldSchemaModel>) -> Map<
    Seq<char>,
    JsonDoc,
>
    decreases schemas.len(),
{
    if schemas.len() == 0 {
        base
    } else {
        properties_onto(base, schemas.drop_last()).insert(
            schemas.last().name,
            schemas.last().schema,
        )
    }
}

/// The names of the required fields, in the order of the fields.
pub open spec fn required_names(schemas: Seq<FieldSchemaModel>) -> Seq<Seq<char>>
    decreases schemas.len(),
{
    if schemas.len() == 0 {
        Seq::empty()
    } else if schemas.last().required {
        required_names(schemas.drop_last()).push(schemas.last().name)
    } else {
        required_names(schemas.drop_last())
    }
}

/// The schema of a record: an object with exactly the given properties, of
/// which it requires those that are not optional.
pub open spec fn record_doc(schemas: Seq<FieldSchemaModel>) -> JsonDoc {
    JsonDoc::Object(
        map![
            "type"@ => JsonDoc::Text("object"@),
            "additionalProperties"@ => JsonDoc::Bool(false),
            "properties"@ => JsonDoc::Object(properties_onto(Map::empty(), schemas)),
            "required"@ => text_array_doc(required_names(schemas)),
        ],
    )
}

/// The schema of a plain enum: a string that is one of its values.
pub open spec fn plain_enum_doc(members: Seq<Seq<char>>) -> JsonDoc {
    JsonDoc::Object(
        map!["type"@ => JsonDoc::Text("string"@), "enum"@ => text_array_doc(members)],
    )
}

/// The schema of a tagged union: an object that follows one of the schemas
/// of its variants.
pub open spec fn union_doc(variants: Seq<JsonDoc>) -> JsonDoc {
    JsonDoc::Object(
        map!["type"@ => JsonDoc::Text("object"@), "oneOf"@ => JsonDoc::Array(variants)],
    )
}

/// The fields whose name is not `tag`, in order.
pub open spec fn without_tag(schemas: Seq<FieldSchemaModel>, tag: Seq<char>) -> Seq<
    FieldSchemaModel,
>
    decreases schemas.len(),
{
    if schemas.len() == 0 {
        Seq::empty()
    } else if schemas.last().name == tag {
        without_tag(schemas.drop_last(), tag)
    } else {
        without_tag(schemas.drop_last(), tag).push(schemas.last())
    }
}

/// The schema of one variant of a tagged union: a closed record whose first
/// property is the tag, pinned to the variant's name and required, followed
/// by the variant's own fields. A field named like the tag gives way to it.
pub open spec fn variant_doc(tag: Seq<char>, value: Seq<char>, schemas: Seq<FieldSchemaModel>) -> JsonDoc {
    JsonDoc::Object(
        map![
            "additionalProperties"@ => JsonDoc::Bool(false),
            "properties"@ => JsonDoc::Object(
                properties_onto(map![tag => literal_doc(value)], without_tag(schemas, tag)),
            ),
            "required"@ => text_array_doc(seq![tag] + required_names(without_tag(schemas, tag))),
        ],
    )
}

/// Inserts the schema of each field into `properties` and collects the names
/// of the required ones behind `required`.
fn collect_fields(
    properties: &mut serde_json::Map<String, serde_json::Value>,
    required: &mut Vec<String>,
    fields: &[FieldSchema],
)
    ensures
        json_members(*final(properties)) == properties_onto(
            json_members(*old(properties)),
            schema_models(fields@),
        ),
        texts(final(required)@) == texts(old(required)@) + required_names(schema_models(fields@)),
{
    let ghost base = json_members(*properties);
    let ghost head = texts(required@);
    let mut i: usize = 0;
    proof {
        assert(head + Seq::<Seq<char>>::empty() =~= head);
    }
    while i < fields.len()
        invariant
            i <= fields.len(),
            json_members(*properties) == properties_onto(
                base,
                schema_models(fields@).take(i as int),
            ),
            texts(required@) == head + required_names(schema_models(fields@).take(i as int)),
        decreases fields.len() - i,
    {
        proof {
            let m = schema_models(fields@);
            assert(m.take(i + 1).drop_last() =~= m.take(i as int));
            assert(m.take(i + 1).last() == fields@[i as int]@);
        }
        json_map_insert(properties, fields[i].name.clone(), json_clone(&fields[i].schema));
        if fields[i].required {
            let name = fields[i].name.clone();
            proof {
                let m = schema_models(fields@);
                assert(texts(required@.push(name)) =~= texts(required@).push(name@));
                assert(head + required_names(m.take(i as int)).push(name@) =~= (head
                    + required_names(m.take(i as int))).push(name@));
            }
            required.push(name);
        }
        i += 1;
    }
    assert(schema_models(fields@).take(fields.len() as int) =~= schema_models(fields@));
}

/// The schema of a record from the schemas of its fields.
pub fn generate_struct_json_schema_method(json_schema_fields: &[FieldSchema]) -> (v:
    serde_json::Value)
    ensures
        json_doc(v) == record_doc(schema_models(json_schema_fields@)),
{
    let mut properties = json_map_new();
    let mut required: Vec<String> = Vec::new();
    collect_fields(&mut properties, &mut required, json_schema_fields);
    proof {
        assert(texts(required@) =~= required_names(schema_models(json_schema_fields@)));
    }
    let mut schema_obj = json_map_new();
    json_map_insert(&mut schema_obj, "type".to_owned(), json_text("object"));
    json_map_insert(&mut schema_obj, "additionalProperties".to_owned(), json_bool(false));
    json_map_insert(&mut schema_obj, "properties".to_owned(), json_object(properties));
    json_map_insert(&mut schema_obj, "required".to_owned(), text_array(&required));
    assert(json_members(schema_obj) =~= record_doc(schema_models(json_schema_fields@))->Object_0);
    json_object(schema_obj)
}

/// The schema of a plain enum from its values.
pub fn generate_plain_enum_json_schema_method(members: &Vec<String>) -> (v: serde_json::Value)
    ensures
        json_doc(v) == plain_enum_doc(texts(members@)),
{
    let mut schema_obj = json_map_new();
    json_map_insert(&mut schema_obj, "type".to_owned(), json_text("string"));
    json_map_insert(&mut schema_obj, "enum".to_owned(), text_array(members));
    assert(json_members(schema_obj) =~= plain_enum_doc(texts(members@))->Object_0);
    json_object(schema_obj)
}

/// The schema of a tagged union from the schemas of its variants.
pub fn generate_discriminated_enum_json_schema_method(json_schema_variants: Vec<serde_json::Value>) -> (v:
    serde_json::Value)
    ensures
        json_doc(v) == union_doc(json_docs(json_schema_variants@)),
{
    let ghost variants = json_docs(json_schema_variants@);
    let mut schema_obj = json_map_new();
    json_map_insert(&mut schema_obj, "type".to_owned(), json_text("object"));
    json_map_insert(&mut schema_obj, "oneOf".to_owned(), json_array(json_schema_variants));
    assert(json_members(schema_obj) =~= union_doc(variants)->Object_0);
    json_object(schema_obj)
}

/// The schema of one variant of a tagged union.
pub fn generate_variant_json_schema(tag_name: &str, discriminator_value: &str, fields: &[FieldSchema]) -> (v:
    serde_json::Value)
    ensures
        json_doc(v) == variant_doc(tag_name@, discriminator_value@, schema_models(fields@)),
{
    let mut kept: Vec<FieldSchema> = Vec::new();
    let mut i: usize = 0;
    while i < fields.len()
        invariant
            i <= fields.len(),
            schema_models(kept@) == without_tag(schema_models(fields@).take(i as int), tag_name@),
        decreases fields.len() - i,
    {
        proof {
            let m = schema_models(fields@);
            assert(m.take(i + 1).drop_last() =~= m.take(i as int));
            assert(m.take(i + 1).last() == fields@[i as int]@);
        }
        if !same_text(fields[i].name.as_str(), tag_name) {
            let copy = FieldSchema {
                name: fields[i].name.clone(),
                schema: json_clone(&fields[i].schema),
                required: fields[i].required,
            };
            proof {
                assert(schema_models(kept@.push(copy)) =~= schema_models(kept@).push(copy@));
            }
            kept.push(copy);
        }
        i += 1;
    }
    assert(schema_models(fields@).take(fields.len() as int) =~= schema_models(fields@));
    let mut properties = json_map_new();
    json_map_insert(&mut properties, String::from_str(tag_name), literal_schema(discriminator_value));
    assert(json_members(properties) =~= map![tag_name@ => literal_doc(discriminator_value@)]);
    let mut required: Vec<String> = Vec::new();
    required.push(String::from_str(tag_name));
    assert(texts(required@) =~= seq![tag_name@]);
    collect_fields(&mut properties, &mut required, kept.as_slice());
    let mut schema_obj = json_map_new();
    json_map_insert(&mut schema_obj, "additionalProperties".to_owned(), json_bool(false));
    json_map_insert(&mut schema_obj, "properties".to_owned(), json_object(properties));
    json_map_insert(&mut schema_obj, "required".to_owned(), text_array(&required));
    assert(json_members(schema_obj) =~= variant_doc(
        tag_name@,
        discriminator_value@,
        schema_models(fields@),
    )->Object_0);
    json_object(schema_obj)
}

/// The lines of a pretty-printed schema as the lines of a comment.
pub open spec fn schema_comment(pretty: Seq<char>) -> Seq<char> {
    comment_text(lines_of(pretty))
}

/// Writes a pretty-printed schema as the lines of a comment.
pub fn generate_json_schema_docs(pretty: &str) -> (r: String)
    ensures
        r@ == schema_comment(pretty@),
{
    let lines = split_lines(pretty);
    comment(&lines)
}

/// The text of a schema, pretty-printed. There always is one.
pub fn prettified(schema: &serde_json::Value) -> (r: Option<String>)
    ensures
        r is Some,
        r->Some_0@ == pretty_text(json_doc(*schema)),
{
    match json_pretty(schema) {
        Ok(text) => Some(text),
        Err(_) => None,
    }
}

/// A type whose schema a field takes from the registry.
#[derive(Debug)]
pub struct SchemaReference {
    /// The name under which the type is looked up.
    pub name: String,
    /// Whether its list of values is asked for as well.
    pub enumerated: bool,
}

/// What a [`SchemaReference`] holds.
pub ghost struct ReferenceModel {
    pub name: Seq<char>,
    pub enumerated: bool,
}

impl View for SchemaReference {
    type V = ReferenceModel;

    open spec fn view(&self) -> ReferenceModel {
        ReferenceModel { name: self.name@, enumerated: self.enumerated }
    }
}

/// The views of a list of references.
pub open spec fn reference_models(r: Seq<SchemaReference>) -> Seq<ReferenceModel> {
    Seq::new(r.len(), |i: int| r[i]@)
}

/// The types that the schema of a field is taken from, in the order in which
/// they are looked up: the type a field names; the key type, with its
/// values, and the value type of a map keyed by a named type.
pub open spec fn field_references(f: FieldModel) -> Seq<ReferenceModel> {
    match f.shape {
        ShapeModel::Reference(name, args) => if !is_known_collection(name, args) && args.len()
            == 0 {
            seq![ReferenceModel { name: declared_name(name), enumerated: false }]
        } else {
            Seq::empty()
        },
        ShapeModel::Dictionary(key, value) => match (key.shape, value.shape) {
            (ShapeModel::Reference(key_name, key_args), ShapeModel::Reference(value_name, value_args)) => if key_args.len()
                == 0 && value_args.len() == 0 {
                seq![
                    ReferenceModel { name: declared_name(key_name), enumerated: true },
                    ReferenceModel { name: declared_name(value_name), enumerated: false },
                ]
            } else {
                Seq::empty()
            },
            _ => Seq::empty(),
        },
        _ => Seq::empty(),
    }
}

/// The types that the schema of a field is taken from.
pub fn schema_references(fld: &FieldDef) -> (r: Vec<SchemaReference>)
    ensures
        reference_models(r@) == field_references(fld@),
{
    proof {
        lemma_shape_children(fld.field_type);
    }
    let mut out: Vec<SchemaReference> = Vec::new();
    match &fld.field_type {
        FieldDefType::SiblingType(name, args) => {
            let n = name.as_str();
            let known = ((same_text(n, "Vec") || same_text(n, "HashSet")) && args.len() == 1) || ((
            same_text(n, "HashMap") || same_text(n, "BTreeMap")) && args.len() == 2);
            if !known && args.len() == 0 {
                out.push(SchemaReference { name: declared(n), enumerated: false });
            }
        },
        FieldDefType::Mapping(key, value) => {
            proof {
                lemma_shape_children(key.field_type);
                lemma_shape_children(value.field_type);
            }
            if let FieldDefType::SiblingType(key_name, key_args) = &key.field_type {
                if let FieldDefType::SiblingType(value_name, value_args) = &value.field_type {
                    if key_args.len() == 0 && value_args.len() == 0 {
                        out.push(
                            SchemaReference { name: declared(key_name.as_str()), enumerated: true },
                        );
                        out.push(
                            SchemaReference {
                                name: declared(value_name.as_str()),
                                enumerated: false,
                            },
                        );
                    }
                }
            }
        },
        _ => {},
    }
    assert(reference_models(out@) =~= field_references(fld@));
    out
}

/// The schema of a field depends on the registry through the types it refers
/// to alone: two registries that hold the same under each of these names
/// give the field the same schema, or the same failure.
pub proof fn law_schema_depends_on_references_only(
    f: FieldModel,
    reg: Seq<EntryModel>,
    other: Seq<EntryModel>,
)
    requires
        forall|i: int|
            0 <= i < field_references(f).len() ==> find_entry(
                reg,
                (#[trigger] field_references(f)[i]).name,
            ) == find_entry(other, field_references(f)[i].name),
    ensures
        field_doc(f, reg) == field_doc(f, other),
        field_schema(f, reg) == field_schema(f, other),
{
    let refs = field_references(f);
    match f.shape {
        ShapeModel::Reference(name, args) => {
            if !is_known_collection(name, args) && args.len() == 0 {
                assert(refs[0].name == declared_name(name));
            }
        },
        ShapeModel::Dictionary(key, value) => {
            match (key.shape, value.shape) {
                (
                    ShapeModel::Reference(key_name, key_args),
                    ShapeModel::Reference(value_name, value_args),
                ) => {
                    if key_args.len() == 0 && value_args.len() == 0 {
                        assert(refs[0].name == declared_name(key_name));
                        assert(refs[1].name == declared_name(value_name));
                    }
                },
                _ => {},
            }
        },
        _ => {},
    }
}

} // verus!
