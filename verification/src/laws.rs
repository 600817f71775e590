//! What holds of every compiled declaration.
//!
//! Each statement here is proved from the definitions that the contracts of
//! the compiler use, for all declarations, fields and registries.

use crate::error::{ErrorKind, ErrorModel};
use crate::features::jsonschema::{field_doc, field_schema, in_array, literal_doc, map_value_doc,
    properties_onto, required_names, shape_doc, string_doc, union_doc, variant_doc, without_tag,
    FieldSchemaModel};
use crate::features::model_schema_prop::MetaModel;
use crate::features::object_id::{object_id_doc, object_id_member_doc, object_id_pattern};
use crate::features::zod::{zod_array_text, zod_optional_text};
use crate::features::Features;
use crate::field_type::{first_unsupported, min_length_of, named_shape, object_id_ts_text,
    object_id_zod_text, refused_shape, ts_array_text, ts_optional_text, ts_shape, ts_type,
    written_text, zod_shape, zod_text, FieldModel, ShapeModel};
use crate::text::decimal_text;
use crate::json::{array_doc, open_object_doc, text_array_doc, typed_doc, JsonDoc};
use crate::model_schema::{compiled_field, compiled_fields, compiled_variant, compiled_variants,
    convention_of, field_outcome, struct_outcome, union_result, variant_docs, variant_fields,
    variant_final_name, with_overrides, VariantModel};
use crate::registry::EntryModel;
use crate::syntax::{Field, ItemEnum, ItemStruct, Variant};
use vstd::prelude::*;

verus! {

/// The text that marks a static type as possibly absent.
pub open spec fn absent_marker() -> Seq<char> {
    " | undefined"@
}

/// The names of the fields that are not optional, in the order of the
/// fields.
pub open spec fn mandatory_names(fields: Seq<FieldModel>) -> Seq<Seq<char>>
    decreases fields.len(),
{
    if fields.len() == 0 {
        Seq::empty()
    } else if fields.last().is_optional {
        mandatory_names(fields.drop_last())
    } else {
        mandatory_names(fields.drop_last()).push(fields.last().name)
    }
}

/// The number of fields that are not optional.
pub open spec fn mandatory_count(fields: Seq<FieldModel>) -> nat
    decreases fields.len(),
{
    if fields.len() == 0 {
        0
    } else if fields.last().is_optional {
        mandatory_count(fields.drop_last())
    } else {
        mandatory_count(fields.drop_last()) + 1
    }
}

/// The fields that compile are as many as the fields declared, each is what
/// its declaration resolves to, and where a JSON Schema is asked for each has
/// its schema under its name, required unless the field is optional.
pub proof fn lemma_compiled_fields_aligned(
    rename_all: Option<Seq<char>>,
    fields: Seq<Field>,
    features: Features,
    reg: Seq<EntryModel>,
)
    requires
        compiled_fields(rename_all, fields, features, reg) is Ok,
    ensures
        ({
            let m = compiled_fields(rename_all, fields, features, reg)->Ok_0;
            &&& m.defs.len() == fields.len()
            &&& forall|i: int|
                0 <= i < fields.len() ==> field_outcome(rename_all, fields[i], features) == Ok::<
                    FieldModel,
                    ErrorModel,
                >(#[trigger] m.defs[i])
            &&& features.jsonschema ==> m.schemas.len() == fields.len()
            &&& features.jsonschema ==> forall|i: int|
                0 <= i < fields.len() ==> field_schema(m.defs[i], reg) == Ok::<
                    FieldSchemaModel,
                    ErrorModel,
                >(#[trigger] m.schemas[i])
            &&& features.jsonschema ==> required_names(m.schemas) == mandatory_names(m.defs)
        }),
    decreases fields.len(),
{
    if fields.len() > 0 {
        let rest = fields.drop_last();
        lemma_compiled_fields_aligned(rename_all, rest, features, reg);
        let before = compiled_fields(rename_all, rest, features, reg)->Ok_0;
        let m = compiled_fields(rename_all, fields, features, reg)->Ok_0;
        let last = compiled_field(rename_all, fields.last(), features, reg)->Ok_0;
        assert(m.defs == before.defs.push(last.0));
        assert(m.defs.drop_last() =~= before.defs);
        assert forall|i: int| 0 <= i < fields.len() implies field_outcome(
            rename_all,
            fields[i],
            features,
        ) == Ok::<FieldModel, ErrorModel>(#[trigger] m.defs[i]) by {
            if i < fields.len() - 1 {
                assert(fields[i] == rest[i]);
                assert(m.defs[i] == before.defs[i]);
            }
        }
        if features.jsonschema {
            assert(m.schemas == before.schemas.push(last.1->Some_0));
            assert(m.schemas.drop_last() =~= before.schemas);
            assert forall|i: int| 0 <= i < fields.len() implies field_schema(m.defs[i], reg)
                == Ok::<FieldSchemaModel, ErrorModel>(#[trigger] m.schemas[i]) by {
                if i < fields.len() - 1 {
                    assert(m.defs[i] == before.defs[i]);
                    assert(m.schemas[i] == before.schemas[i]);
                }
            }
        }
    }
}

/// There are as many names of mandatory fields as mandatory fields.
pub proof fn lemma_mandatory_names_count(fields: Seq<FieldModel>)
    ensures
        mandatory_names(fields).len() == mandatory_count(fields),
    decreases fields.len(),
{
    if fields.len() > 0 {
        lemma_mandatory_names_count(fields.drop_last());
    }
}

/// The schema of a record requires exactly its fields that are not optional:
/// its member `required` lists their names in the order of the fields, so it
/// is as long as there are such fields.
pub proof fn law_required_lists_the_mandatory_fields(
    item: ItemStruct,
    features: Features,
    reg: Seq<EntryModel>,
)
    requires
        features.jsonschema,
        struct_outcome(item, features, reg) is Ok,
    ensures
        ({
            let fields = compiled_fields(
                convention_of(item.attrs@, features),
                item.fields@,
                features,
                reg,
            )->Ok_0.defs;
            let schema = struct_outcome(item, features, reg)->Ok_0.json_schema;
            &&& schema is Some
            &&& schema->Some_0 is Object
            &&& schema->Some_0->Object_0.dom().contains("required"@)
            &&& schema->Some_0->Object_0["required"@] == text_array_doc(mandatory_names(fields))
            &&& schema->Some_0->Object_0["required"@]->Array_0.len() == mandatory_count(fields)
            &&& fields.len() == item.fields@.len()
        }),
{
    let rename_all = convention_of(item.attrs@, features);
    lemma_compiled_fields_aligned(rename_all, item.fields@, features, reg);
    let fields = compiled_fields(rename_all, item.fields@, features, reg)->Ok_0.defs;
    lemma_mandatory_names_count(fields);
}

/// A text that ends with another ends with that text's last character.
pub proof fn lemma_suffix_last(whole: Seq<char>, end: Seq<char>)
    requires
        end.is_suffix_of(whole),
        end.len() > 0,
    ensures
        whole.len() > 0,
        whole.last() == end.last(),
{
    let tail = whole.subrange((whole.len() - end.len()) as int, whole.len() as int);
    assert(tail[end.len() - 1] == whole[whole.len() - 1]);
}

/// A field whose static type ends like an optional one although it is not
/// optional: a bare named type whose name itself ends with the marker.
pub open spec fn named_like_optional(f: FieldModel) -> bool {
    &&& f.shape is Reference
    &&& f.shape->Reference_1.len() == 0
    &&& !f.is_array
    &&& absent_marker().is_suffix_of(f.shape->Reference_0)
}

/// The static type of an optional field ends with the marker of absence.
/// That of a field that is not optional does not, unless the field is a bare
/// named type whose name ends that way.
pub proof fn law_absent_marker(f: FieldModel)
    ensures
        f.is_optional ==> absent_marker().is_suffix_of(ts_type(f)),
        !f.is_optional && !named_like_optional(f) ==> !absent_marker().is_suffix_of(ts_type(f)),
{
    let marker = absent_marker();
    reveal_strlit(" | undefined");
    assert(marker.len() == 12);
    assert(marker.last() == 'd');
    if f.is_optional {
        let inner = if f.is_array {
            ts_array_text(ts_shape(f))
        } else {
            ts_shape(f)
        };
        assert(ts_type(f) == inner + marker);
        assert((inner + marker).subrange(inner.len() as int, (inner + marker).len() as int)
            =~= marker);
    } else if !named_like_optional(f) {
        if marker.is_suffix_of(ts_type(f)) {
            lemma_suffix_last(ts_type(f), marker);
            let t = ts_type(f);
            if f.is_array {
                reveal_strlit(">");
                assert(t == "Array<"@ + ts_shape(f) + ">"@);
                assert(t.last() == '>');
            } else {
                assert(t == ts_shape(f));
                match f.shape {
                    ShapeModel::Unknown => {
                        reveal_strlit("unknown");
                        assert(t.len() == 7);
                    },
                    ShapeModel::Tuple(elements) => {
                        reveal_strlit(" }");
                        assert(t.last() == '}');
                    },
                    ShapeModel::Reference(name, args) => {
                        if args.len() == 0 {
                            assert(t == name);
                        } else {
                            reveal_strlit(">");
                            assert(t.last() == '>');
                        }
                    },
                    ShapeModel::Dictionary(k, v) => {
                        reveal_strlit(">>");
                        assert(t.last() == '>');
                    },
                    ShapeModel::Boolean => {
                        reveal_strlit("boolean");
                        assert(t.len() == 7);
                    },
                    ShapeModel::Text => {
                        reveal_strlit("string");
                        assert(t.len() == 6);
                    },
                    ShapeModel::Literal(value) => {
                        reveal_strlit("\"");
                        assert(t.last() == '"');
                    },
                    ShapeModel::OpaqueId => {
                        reveal_strlit("{ $oid: string }");
                        assert(t.last() == '}');
                    },
                    _ => {
                        reveal_strlit("number");
                        assert(t.len() == 6);
                    },
                }
            }
        }
    }
}

/// Whether a document is the schema of an array: an object whose `type` is
/// `array` and that has `items`.
pub open spec fn is_array_schema(doc: JsonDoc) -> bool {
    &&& doc is Object
    &&& doc->Object_0.dom().contains("type"@)
    &&& doc->Object_0["type"@] == JsonDoc::Text("array"@)
    &&& doc->Object_0.dom().contains("items"@)
}

/// The schema of an array is one.
pub proof fn lemma_array_doc_is_array(items: JsonDoc)
    ensures
        is_array_schema(array_doc(items)),
        array_doc(items)->Object_0["items"@] == items,
{
    reveal_strlit("type");
    reveal_strlit("items");
    assert("type"@.len() != "items"@.len());
}

/// An array has the schema of an array, whatever its shape: its items follow
/// the schema that the same field has where it is no array.
pub proof fn law_array_schema(f: FieldModel, reg: Seq<EntryModel>)
    requires
        f.is_array,
        field_doc(f, reg) is Ok,
    ensures
        field_doc(FieldModel { is_array: false, ..f }, reg) is Ok,
        field_doc(f, reg)->Ok_0 == array_doc(
            field_doc(FieldModel { is_array: false, ..f }, reg)->Ok_0,
        ),
        is_array_schema(field_doc(f, reg)->Ok_0),
        field_doc(f, reg)->Ok_0->Object_0["items"@] == field_doc(
            FieldModel { is_array: false, ..f },
            reg,
        )->Ok_0,
{
    lemma_array_doc_is_array(shape_doc(f, reg)->Ok_0);
}

/// An optional array has the static type `Array<..> | undefined` and the
/// validator `z.array(..).or(z.undefined())`; its record does not require
/// it; and its schema is that of an array, whatever its shape.
pub proof fn law_optional_array(f: FieldModel, reg: Seq<EntryModel>)
    requires
        f.is_array,
        f.is_optional,
    ensures
        ts_type(f) == ts_optional_text(ts_array_text(ts_shape(f))),
        ts_type(f) == "Array<"@ + ts_shape(f) + ">"@ + absent_marker(),
        zod_text(f) == zod_optional_text(zod_array_text(zod_shape(f))),
        field_schema(f, reg) is Ok ==> !field_schema(f, reg)->Ok_0.required,
        field_schema(f, reg) is Ok ==> field_schema(f, reg)->Ok_0.schema == field_doc(
            f,
            reg,
        )->Ok_0,
        field_doc(f, reg) is Ok ==> is_array_schema(field_doc(f, reg)->Ok_0),
{
    if field_doc(f, reg) is Ok {
        law_array_schema(f, reg);
    }
}

/// A minimum length applies wherever the shape is a string, with or without
/// another override beside it: the validator and the schema carry it.
pub proof fn law_min_length_applies_to_strings(
    def: FieldModel,
    prop: MetaModel,
    reg: Seq<EntryModel>,
)
    requires
        def.shape is Text,
        prop.literal is None,
        prop.min_length is Some,
    ensures
        ({
            let f = with_overrides(def, prop);
            let n = prop.min_length->Some_0;
            &&& f.shape is Text
            &&& min_length_of(f) == Some(n)
            &&& zod_shape(f) == "z.string()"@ + ".min("@ + decimal_text(n) + ")"@
            &&& shape_doc(f, reg) == Ok::<JsonDoc, ErrorModel>(string_doc(Some(n)))
            &&& string_doc(Some(n))->Object_0.dom().contains("minLength"@)
            &&& string_doc(Some(n))->Object_0["minLength"@] == JsonDoc::Number(n)
        }),
{
}

/// The fields that are left when those named like the tag are taken out are
/// not named like the tag.
pub proof fn lemma_without_tag_names(schemas: Seq<FieldSchemaModel>, tag: Seq<char>)
    ensures
        forall|i: int|
            0 <= i < without_tag(schemas, tag).len() ==> (#[trigger] without_tag(
                schemas,
                tag,
            )[i]).name != tag,
    decreases schemas.len(),
{
    if schemas.len() > 0 {
        lemma_without_tag_names(schemas.drop_last(), tag);
    }
}

/// A property survives the insertion of properties under other names.
pub proof fn lemma_property_survives(
    base: Map<Seq<char>, JsonDoc>,
    schemas: Seq<FieldSchemaModel>,
    key: Seq<char>,
)
    requires
        base.dom().contains(key),
        forall|i: int| 0 <= i < schemas.len() ==> (#[trigger] schemas[i]).name != key,
    ensures
        properties_onto(base, schemas).dom().contains(key),
        properties_onto(base, schemas)[key] == base[key],
    decreases schemas.len(),
{
    if schemas.len() > 0 {
        let rest = schemas.drop_last();
        assert forall|i: int| 0 <= i < rest.len() implies (#[trigger] rest[i]).name != key by {
            assert(rest[i] == schemas[i]);
        }
        lemma_property_survives(base, rest, key);
        assert(schemas.last() == schemas[schemas.len() - 1]);
    }
}

/// The schema of a literal pins the string to its value, and bounds no
/// length.
pub proof fn lemma_literal_doc(value: Seq<char>)
    ensures
        literal_doc(value) is Object,
        literal_doc(value)->Object_0.dom().contains("const"@),
        literal_doc(value)->Object_0["const"@] == JsonDoc::Text(value),
        literal_doc(value)->Object_0.dom().contains("type"@),
        literal_doc(value)->Object_0["type"@] == JsonDoc::Text("string"@),
        !literal_doc(value)->Object_0.dom().contains("minLength"@),
{
    reveal_strlit("type");
    reveal_strlit("const");
    reveal_strlit("minLength");
    assert("type"@.len() != "const"@.len());
    assert("type"@.len() != "minLength"@.len());
    assert("const"@.len() != "minLength"@.len());
}

/// The schema of a variant requires the tag and pins it to the variant's
/// value.
pub proof fn lemma_variant_doc(tag: Seq<char>, value: Seq<char>, schemas: Seq<FieldSchemaModel>)
    ensures
        ({
            let doc = variant_doc(tag, value, schemas);
            &&& doc is Object
            &&& doc->Object_0.dom().contains("required"@)
            &&& doc->Object_0["required"@] is Array
            &&& doc->Object_0["required"@]->Array_0.contains(JsonDoc::Text(tag))
            &&& doc->Object_0.dom().contains("properties"@)
            &&& doc->Object_0["properties"@] is Object
            &&& doc->Object_0["properties"@]->Object_0.dom().contains(tag)
            &&& doc->Object_0["properties"@]->Object_0[tag] == literal_doc(value)
        }),
{
    reveal_strlit("properties");
    reveal_strlit("required");
    assert("properties"@.len() != "required"@.len());
    let kept = without_tag(schemas, tag);
    lemma_without_tag_names(schemas, tag);
    lemma_property_survives(map![tag => literal_doc(value)], kept, tag);
    let names = seq![tag] + required_names(kept);
    assert(text_array_doc(names)->Array_0[0] == JsonDoc::Text(tag));
}

/// Each variant that compiles is what its declaration compiles to.
pub proof fn lemma_compiled_variants_each(
    rename_all: Option<Seq<char>>,
    tag: Seq<char>,
    variants: Seq<Variant>,
    features: Features,
    reg: Seq<EntryModel>,
)
    requires
        compiled_variants(rename_all, tag, variants, features, reg) is Ok,
    ensures
        ({
            let vs = compiled_variants(rename_all, tag, variants, features, reg)->Ok_0;
            &&& vs.len() == variants.len()
            &&& forall|i: int|
                0 <= i < variants.len() ==> compiled_variant(
                    rename_all,
                    tag,
                    variants[i],
                    features,
                    reg,
                ) == Ok::<VariantModel, ErrorModel>(#[trigger] vs[i])
        }),
    decreases variants.len(),
{
    if variants.len() > 0 {
        let rest = variants.drop_last();
        lemma_compiled_variants_each(rename_all, tag, rest, features, reg);
        let before = compiled_variants(rename_all, tag, rest, features, reg)->Ok_0;
        let vs = compiled_variants(rename_all, tag, variants, features, reg)->Ok_0;
        assert forall|i: int| 0 <= i < variants.len() implies compiled_variant(
            rename_all,
            tag,
            variants[i],
            features,
            reg,
        ) == Ok::<VariantModel, ErrorModel>(#[trigger] vs[i]) by {
            if i < variants.len() - 1 {
                assert(variants[i] == rest[i]);
                assert(vs[i] == before[i]);
            }
        }
    }
}

/// The schema of a tagged union offers one schema per variant, in the order
/// of the variants. Each requires the tag, and pins the tag to the final
/// name of its variant.
pub proof fn law_union_schema_follows_the_variants(
    item: ItemEnum,
    tag: Seq<char>,
    rename_all: Option<Seq<char>>,
    item_name: Seq<char>,
    features: Features,
    reg: Seq<EntryModel>,
)
    requires
        features.jsonschema,
        union_result(item, tag, rename_all, item_name, features, reg) is Ok,
    ensures
        ({
            let schema = union_result(
                item,
                tag,
                rename_all,
                item_name,
                features,
                reg,
            )->Ok_0.json_schema;
            &&& schema is Some
            &&& schema->Some_0 is Object
            &&& schema->Some_0->Object_0.dom().contains("oneOf"@)
            &&& schema->Some_0->Object_0["oneOf"@] is Array
            &&& schema->Some_0->Object_0["oneOf"@]->Array_0.len() == item.variants@.len()
            &&& forall|i: int|
                0 <= i < item.variants@.len() ==> {
                    let v = #[trigger] schema->Some_0->Object_0["oneOf"@]->Array_0[i];
                    let name = variant_final_name(rename_all, item.variants@[i], features);
                    &&& v is Object
                    &&& v->Object_0["required"@] is Array
                    &&& v->Object_0["required"@]->Array_0.contains(JsonDoc::Text(tag))
                    &&& v->Object_0["properties"@] is Object
                    &&& v->Object_0["properties"@]->Object_0.dom().contains(tag)
                    &&& v->Object_0["properties"@]->Object_0[tag] == literal_doc(name)
                    &&& literal_doc(name)->Object_0["const"@] == JsonDoc::Text(name)
                }
        }),
{
    lemma_compiled_variants_each(rename_all, tag, item.variants@, features, reg);
    let vs = compiled_variants(rename_all, tag, item.variants@, features, reg)->Ok_0;
    let schema = union_result(item, tag, rename_all, item_name, features, reg)->Ok_0.json_schema;
    assert(schema == Some(union_doc(variant_docs(vs))));
    assert forall|i: int| 0 <= i < item.variants@.len() implies {
        let v = #[trigger] schema->Some_0->Object_0["oneOf"@]->Array_0[i];
        let name = variant_final_name(rename_all, item.variants@[i], features);
        &&& v is Object
        &&& v->Object_0["required"@] is Array
        &&& v->Object_0["required"@]->Array_0.contains(JsonDoc::Text(tag))
        &&& v->Object_0["properties"@] is Object
        &&& v->Object_0["properties"@]->Object_0.dom().contains(tag)
        &&& v->Object_0["properties"@]->Object_0[tag] == literal_doc(name)
        &&& literal_doc(name)->Object_0["const"@] == JsonDoc::Text(name)
    } by {
        let variant = item.variants@[i];
        let name = variant_final_name(rename_all, variant, features);
        let m = compiled_fields(rename_all, variant_fields(variant), features, reg)->Ok_0;
        assert(compiled_variant(rename_all, tag, variant, features, reg) == Ok::<
            VariantModel,
            ErrorModel,
        >(vs[i]));
        assert(vs[i].json_schema == Some(variant_doc(tag, name, m.schemas)));
        assert(variant_docs(vs)[i] == variant_doc(tag, name, m.schemas));
        lemma_variant_doc(tag, name, m.schemas);
        lemma_literal_doc(name);
    }
}

/// A literal outranks a minimum length set beside it: the field is the
/// literal in all three outputs, its schema pins the string to the literal
/// and bounds no length.
pub proof fn law_literal_outranks_min_length(def: FieldModel, prop: MetaModel, reg: Seq<EntryModel>)
    requires
        prop.literal is Some,
    ensures
        ({
            let f = with_overrides(def, prop);
            let value = prop.literal->Some_0;
            &&& f.shape == ShapeModel::Literal(value)
            &&& ts_shape(f) == "\""@ + value + "\""@
            &&& zod_shape(f) == "z.literal(\""@ + value + "\")"@
            &&& field_doc(f, reg) == Ok::<JsonDoc, ErrorModel>(
                in_array(f.is_array, literal_doc(value)),
            )
            &&& literal_doc(value)->Object_0.dom().contains("const"@)
            &&& literal_doc(value)->Object_0["const"@] == JsonDoc::Text(value)
            &&& !literal_doc(value)->Object_0.dom().contains("minLength"@)
            &&& f.docs == def.docs
        }),
{
    lemma_literal_doc(prop.literal->Some_0);
}

/// The schema of the identifier of a stored object is a one-field wrapper,
/// never a bare string: it requires the member `$oid` and holds it to a
/// string that follows the pattern of twenty-four hexadecimal digits.
pub proof fn lemma_object_id_doc()
    ensures
        object_id_doc() is Object,
        object_id_doc()->Object_0.dom().contains("properties"@),
        object_id_doc() != typed_doc("string"@),
        object_id_doc()->Object_0["required"@] == JsonDoc::Array(seq![JsonDoc::Text("$oid"@)]),
        object_id_doc()->Object_0["properties"@] == JsonDoc::Object(
            map!["$oid"@ => object_id_member_doc()],
        ),
        object_id_member_doc()->Object_0.dom().contains("pattern"@),
        object_id_member_doc()->Object_0["pattern"@] == JsonDoc::Text(object_id_pattern()),
        object_id_member_doc()->Object_0.dom().contains("type"@),
        object_id_member_doc()->Object_0["type"@] == JsonDoc::Text("string"@),
{
    reveal_strlit("type");
    reveal_strlit("pattern");
    reveal_strlit("properties");
    reveal_strlit("required");
    reveal_strlit("additionalProperties");
    assert("type"@.len() != "properties"@.len());
    assert("type"@.len() != "pattern"@.len());
    assert("properties"@.len() != "required"@.len());
    assert("properties"@.len() != "additionalProperties"@.len());
    assert("required"@.len() != "additionalProperties"@.len());
    assert(!typed_doc("string"@)->Object_0.dom().contains("properties"@));
}

/// The identifier of a stored object is rendered the same way wherever it
/// stands. Its type name resolves to it. Bare, its static type, its
/// validator and its schema are each the fixed one-field wrapper. As an
/// array and as an optional it is wrapped like any other shape. No registry
/// takes part.
pub proof fn law_object_id_is_rendered_alike(f: FieldModel, reg: Seq<EntryModel>)
    requires
        f.shape is OpaqueId,
    ensures
        named_shape("ObjectId"@, true) == ShapeModel::OpaqueId,
        ts_shape(f) == object_id_ts_text(),
        ts_shape(f) == "{ $oid: string }"@,
        zod_shape(f) == object_id_zod_text(),
        shape_doc(f, reg) == Ok::<JsonDoc, ErrorModel>(object_id_doc()),
        field_doc(f, reg) == Ok::<JsonDoc, ErrorModel>(in_array(f.is_array, object_id_doc())),
        map_value_doc(f) == in_array(f.is_array, object_id_doc()),
        object_id_doc() != typed_doc("string"@),
{
    lemma_object_id_doc();
    reveal_strlit("ObjectId");
    reveal_strlit("bool");
    reveal_strlit("String");
    reveal_strlit("u8");
    reveal_strlit("u16");
    reveal_strlit("u32");
    reveal_strlit("u64");
    reveal_strlit("i8");
    reveal_strlit("i16");
    reveal_strlit("i32");
    reveal_strlit("i64");
    reveal_strlit("usize");
    reveal_strlit("isize");
    reveal_strlit("f32");
    reveal_strlit("f64");
    let name = "ObjectId"@;
    assert(name.len() == 8);
    assert(name[0] == 'O');
    assert(name != "String"@) by {
        assert("String"@.len() == 6);
    }
    assert(name != "bool"@ && name != "u8"@ && name != "u16"@ && name != "u32"@ && name != "u64"@
        && name != "i8"@ && name != "i16"@ && name != "i32"@ && name != "i64"@ && name
        != "usize"@ && name != "isize"@ && name != "f32"@ && name != "f64"@) by {
        assert("bool"@.len() == 4);
        assert("u8"@.len() == 2);
        assert("u16"@.len() == 3);
        assert("u32"@.len() == 3);
        assert("u64"@.len() == 3);
        assert("i8"@.len() == 2);
        assert("i16"@.len() == 3);
        assert("i32"@.len() == 3);
        assert("i64"@.len() == 3);
        assert("usize"@.len() == 5);
        assert("isize"@.len() == 5);
        assert("f32"@.len() == 3);
        assert("f64"@.len() == 3);
    }
}

/// As the value of a map with string keys, the identifier of a stored object
/// is rendered as it is elsewhere: the map's static type and validator hold
/// those of the value, and the schema of the map's further members is the
/// one-field wrapper, as the items of an array where the value is one.
pub proof fn law_object_id_as_map_value(owner: FieldModel, reg: Seq<EntryModel>)
    requires
        owner.shape is Dictionary,
        owner.shape->Dictionary_0.shape is Text,
        owner.shape->Dictionary_1.shape is OpaqueId,
    ensures
        ({
            let key = *owner.shape->Dictionary_0;
            let value = *owner.shape->Dictionary_1;
            &&& shape_doc(owner, reg) == Ok::<JsonDoc, ErrorModel>(
                open_object_doc(in_array(value.is_array, object_id_doc())),
            )
            &&& ts_shape(owner) == "Partial<Record<"@ + ts_type(key) + ", "@ + ts_type(value)
                + ">>"@
            &&& zod_shape(owner) == "z.record("@ + zod_text(key) + ", "@ + zod_text(value) + ")"@
            &&& ts_shape(value) == object_id_ts_text()
            &&& zod_shape(value) == object_id_zod_text()
        }),
{
}

/// What a field resolves to, and whether it is refused, does not depend on
/// which outputs are asked for: only on whether renaming is switched on and
/// whether the identifier of a stored object is recognised.
pub proof fn law_fields_resolve_alike_whatever_is_asked_for(
    rename_all: Option<Seq<char>>,
    field: Field,
    features: Features,
    other: Features,
)
    requires
        features.serde == other.serde,
        features.object_id == other.object_id,
    ensures
        field_outcome(rename_all, field, features) == field_outcome(rename_all, field, other),
{
}

/// A field whose written type resolves fails exactly where its shape is
/// outside the supported shapes, with the unsupported-shape failure, which
/// carries the type as it is written.
pub proof fn law_refused_shape_fails(
    rename_all: Option<Seq<char>>,
    field: Field,
    features: Features,
)
    requires
        first_unsupported(field.ty) is None,
    ensures
        field_outcome(rename_all, field, features) is Ok ==> !refused_shape(
            field_outcome(rename_all, field, features)->Ok_0,
        ),
        field_outcome(rename_all, field, features) is Err ==> {
            let e = field_outcome(rename_all, field, features)->Err_0;
            &&& e.kind == ErrorKind::UnsupportedShape
            &&& e.type_text == written_text(field.ty)
            &&& e.declaration == Seq::<char>::empty()
        },
{
}

/// One failing field fails the whole list of fields.
pub proof fn lemma_failing_field_fails_all(
    rename_all: Option<Seq<char>>,
    fields: Seq<Field>,
    features: Features,
    reg: Seq<EntryModel>,
    i: int,
)
    requires
        0 <= i < fields.len(),
        field_outcome(rename_all, fields[i], features) is Err,
    ensures
        compiled_fields(rename_all, fields, features, reg) is Err,
    decreases fields.len(),
{
    if i < fields.len() - 1 {
        let rest = fields.drop_last();
        assert(rest[i] == fields[i]);
        lemma_failing_field_fails_all(rename_all, rest, features, reg, i);
    } else {
        assert(fields.last() == fields[i]);
    }
}

/// One failing variant fails the whole list of variants.
pub proof fn lemma_failing_variant_fails_all(
    rename_all: Option<Seq<char>>,
    tag: Seq<char>,
    variants: Seq<Variant>,
    features: Features,
    reg: Seq<EntryModel>,
    j: int,
)
    requires
        0 <= j < variants.len(),
        compiled_variant(rename_all, tag, variants[j], features, reg) is Err,
    ensures
        compiled_variants(rename_all, tag, variants, features, reg) is Err,
    decreases variants.len(),
{
    if j < variants.len() - 1 {
        let rest = variants.drop_last();
        assert(rest[j] == variants[j]);
        lemma_failing_variant_fails_all(rename_all, tag, rest, features, reg, j);
    } else {
        assert(variants.last() == variants[j]);
    }
}

/// Compilation is all or nothing. A record with one field that does not
/// resolve or whose shape is outside the supported shapes has no output at
/// all, whatever the features ask for and whatever the other fields are; the
/// failure names the record.
pub proof fn law_one_failing_field_fails_the_record(
    item: ItemStruct,
    features: Features,
    reg: Seq<EntryModel>,
    i: int,
)
    requires
        0 <= i < item.fields@.len(),
        field_outcome(convention_of(item.attrs@, features), item.fields@[i], features) is Err,
    ensures
        struct_outcome(item, features, reg) is Err,
        struct_outcome(item, features, reg)->Err_0.declaration == item.ident@,
{
    lemma_failing_field_fails_all(
        convention_of(item.attrs@, features),
        item.fields@,
        features,
        reg,
        i,
    );
}

/// A tagged union with one field, in one variant, that does not resolve or
/// whose shape is outside the supported shapes has no output at all; the
/// failure names the enum.
pub proof fn law_one_failing_field_fails_the_union(
    item: ItemEnum,
    tag: Seq<char>,
    rename_all: Option<Seq<char>>,
    item_name: Seq<char>,
    features: Features,
    reg: Seq<EntryModel>,
    j: int,
    i: int,
)
    requires
        0 <= j < item.variants@.len(),
        0 <= i < variant_fields(item.variants@[j]).len(),
        field_outcome(rename_all, variant_fields(item.variants@[j])[i], features) is Err,
    ensures
        union_result(item, tag, rename_all, item_name, features, reg) is Err,
        union_result(item, tag, rename_all, item_name, features, reg)->Err_0.declaration
            == item.ident@,
{
    lemma_failing_field_fails_all(
        rename_all,
        variant_fields(item.variants@[j]),
        features,
        reg,
        i,
    );
    lemma_failing_variant_fails_all(rename_all, tag, item.variants@, features, reg, j);
}

} // verus!
