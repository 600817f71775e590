//! Compiling a declaration into its three outputs.
//!
//! A record, a plain enum and a tagged union each compile to a static type
//! declaration, a validator declaration and a JSON Schema, as far as the
//! features ask for them. The three are built from the same resolved fields
//! and never from each other, except that the comment above the static type
//! quotes the schema. Compilation is all or nothing: the first field that
//! fails stops it.

use crate::attributes::{reading, Reader};
use crate::error::{ErrorKind, ErrorModel, SchemaError};
use crate::features::jsonschema::{build_field_schema, field_references, field_schema,
    reference_models, schema_references, ReferenceModel, SchemaReference,
    generate_discriminated_enum_json_schema_method, generate_json_schema_docs,
    generate_plain_enum_json_schema_method, generate_struct_json_schema_method,
    generate_variant_json_schema, plain_enum_doc, prettified, record_doc, schema_comment,
    schema_models, union_doc, variant_doc, FieldSchema, FieldSchemaModel};
use crate::features::model_schema_prop::{opt_text, parse_model_schema_prop_attributes, MetaModel};
use crate::features::serde::{apply_rename_all, camel_text, parse_serde_field_attributes,
    parse_serde_type_attributes, renamed, resolved_name, to_camel_case};
use crate::features::zod::show_optionals;
use crate::features::Features;
use crate::field_type::{field_models, get_field_def, is_refused_shape, refused_shape, resolution,
    ts_type, write_type, written_text, zod_text, FieldDef, FieldDefType, FieldModel, ShapeModel};
use crate::generation::typescript::{quote_all, quoted};
use crate::json::{json_doc, json_docs, pretty_text, JsonDoc};
use crate::registry::{EntryModel, SchemaRegistry};
use crate::syntax::{Attribute, Field, Item, ItemEnum, ItemStruct, Variant};
use crate::text::{decimal, decimal_text, join, joined, texts};
use crate::utils::{doc_comment, documentation, format_doc_comment, get_enum_docs, get_field_docs,
    get_struct_docs, get_variant_docs, safe_name, safe_type_name};
use vstd::prelude::*;
use vstd::string::*;

verus! {

/// What a declaration compiles to. An output that the features do not ask
/// for is absent.
#[derive(Debug)]
pub struct CompiledModel {
    /// The name under which the type is emitted.
    pub name: String,
    /// The name under which the type was declared.
    pub declared_name: String,
    /// The declaration of the static type.
    pub ts_definition: Option<String>,
    /// The declaration of the runtime validator.
    pub zod_schema: Option<String>,
    /// The JSON Schema.
    pub json_schema: Option<serde_json::Value>,
    /// The values of a plain enum.
    pub enum_members: Option<Vec<String>>,
    /// The names of the optional fields of a record, in order.
    pub optional_fields: Vec<String>,
}

/// What a [`CompiledModel`] holds.
pub ghost struct CompiledView {
    pub name: Seq<char>,
    pub declared_name: Seq<char>,
    pub ts_definition: Option<Seq<char>>,
    pub zod_schema: Option<Seq<char>>,
    pub json_schema: Option<JsonDoc>,
    pub enum_members: Option<Seq<Seq<char>>>,
    pub optional_fields: Seq<Seq<char>>,
}

impl View for CompiledModel {
    type V = CompiledView;

    open spec fn view(&self) -> CompiledView {
        CompiledView {
            name: self.name@,
            declared_name: self.declared_name@,
            ts_definition: opt_text(self.ts_definition),
            zod_schema: opt_text(self.zod_schema),
            json_schema: match self.json_schema {
                Some(v) => Some(json_doc(v)),
                None => None,
            },
            enum_members: crate::utils::opt_texts(self.enum_members),
            optional_fields: texts(self.optional_fields@),
        }
    }
}

/// Converts a snake-case name to camel case: the head in lowercase, each
/// character behind an underscore in uppercase, the underscores dropped.
pub fn snake_to_camel(s: &str) -> (r: String)
    ensures
        r@ == camel_text(s@),
{
    to_camel_case(s)
}

/// The name under which a field or a variant is emitted: its override where
/// it has one, else its raw name under the container's convention.
pub fn get_final_name(name: String, field_rename: &Option<String>, rename_all: &Option<String>) -> (r:
    String)
    ensures
        r@ == resolved_name(name@, opt_text(*field_rename), opt_text(*rename_all)),
{
    if let Some(rename) = field_rename {
        rename.clone()
    } else {
        apply_rename_all(name.as_str(), rename_all)
    }
}

/// Documentation with a line that states a minimum length.
pub open spec fn with_length_note(docs: Seq<char>, n: nat) -> Seq<char> {
    (if docs.len() == 0 {
        docs
    } else {
        docs + "\n"@
    }) + " * Minimum length: "@ + decimal_text(n)
}

/// A resolved field under the overrides of its declaration. The overrides
/// are kept where any of them is set. A literal replaces the shape. A
/// minimum length applies where the shape is then a string, and is noted in
/// the documentation.
pub open spec fn with_overrides(def: FieldModel, prop: MetaModel) -> FieldModel {
    let meta = if prop.as_type is Some || prop.literal is Some || prop.min_length is Some {
        Some(prop)
    } else {
        None
    };
    let shape = match prop.literal {
        Some(value) => ShapeModel::Literal(value),
        None => def.shape,
    };
    let docs = match prop.min_length {
        Some(n) => if shape is Text {
            with_length_note(def.docs, n)
        } else {
            def.docs
        },
        None => def.docs,
    };
    FieldModel { meta, shape, docs, ..def }
}

/// The convention of a container: the one its attributes name, where
/// renaming is switched on.
pub open spec fn convention_of(attrs: Seq<Attribute>, features: Features) -> Option<Seq<char>> {
    if features.serde {
        reading(Reader::SerdeType, attrs).0.rename_all
    } else {
        None
    }
}

/// The override of a field or a variant: the one its attributes name, where
/// renaming is switched on.
pub open spec fn override_of(attrs: Seq<Attribute>, features: Features) -> Option<Seq<char>> {
    if features.serde {
        reading(Reader::SerdeField, attrs).0.rename
    } else {
        None
    }
}

/// The name under which a declared field is emitted.
pub open spec fn field_final_name(rename_all: Option<Seq<char>>, field: Field, features: Features) -> Seq<
    char,
> {
    resolved_name(
        match field.ident {
            Some(ident) => ident@,
            None => Seq::empty(),
        },
        override_of(field.attrs@, features),
        rename_all,
    )
}

/// What a declared field resolves to: its type resolved under its final
/// name and its comment, then its overrides applied. A field whose shape is
/// then outside the supported shapes fails, whatever the features ask for;
/// the failure names the field and its type as it is written.
pub open spec fn field_outcome(rename_all: Option<Seq<char>>, field: Field, features: Features) -> Result<
    FieldModel,
    ErrorModel,
> {
    let name = field_final_name(rename_all, field, features);
    let docs = doc_comment(documentation(field.attrs@), name);
    match resolution(name, field.ty, docs, features.object_id) {
        Ok(def) => {
            let f = with_overrides(def, reading(Reader::SchemaProp, field.attrs@).0.schema_prop());
            if refused_shape(f) {
                Err(
                    ErrorModel::at_field(
                        ErrorKind::UnsupportedShape,
                        f.name,
                        written_text(field.ty),
                    ),
                )
            } else {
                Ok(f)
            }
        },
        Err(e) => Err(e),
    }
}

/// Resolves a declared field. Fails exactly where its type holds an
/// unsupported one, or resolves to a shape outside the supported ones.
pub fn process_field(rename_all: &Option<String>, field: &Field, features: &Features) -> (r: Result<
    FieldDef,
    SchemaError,
>)
    ensures
        match r {
            Ok(def) => field_outcome(opt_text(*rename_all), *field, *features) == Ok::<
                FieldModel,
                ErrorModel,
            >(def@),
            Err(e) => field_outcome(opt_text(*rename_all), *field, *features) == Err::<
                FieldModel,
                ErrorModel,
            >(e@),
        },
{
    let field_rename = if features.has_serde() {
        parse_serde_field_attributes(field.attrs.as_slice()).0.rename
    } else {
        None
    };
    let model_schema_prop_meta = parse_model_schema_prop_attributes(field.attrs.as_slice()).0;
    let name = match &field.ident {
        Some(ident) => ident.clone(),
        None => String::new(),
    };
    let final_name = get_final_name(name, &field_rename, rename_all);
    let field_docs = format_doc_comment(&get_field_docs(field), final_name.as_str());
    let mut field_def = match get_field_def(
        final_name.as_str(),
        &field.ty,
        field_docs.as_str(),
        features,
    ) {
        Ok(def) => def,
        Err(e) => {
            return Err(e);
        },
    };
    let ghost resolved = field_def@;
    let ghost prop = model_schema_prop_meta@;
    if let Some(literal) = &model_schema_prop_meta.literal {
        field_def.field_type = FieldDefType::StringLiteral(literal.clone());
    }
    if model_schema_prop_meta.as_type.is_some() || model_schema_prop_meta.literal.is_some()
        || model_schema_prop_meta.min_length.is_some() {
        if let Some(n) = model_schema_prop_meta.min_length {
            if let FieldDefType::String = field_def.field_type {
                let mut docs = String::new();
                if field_def.docs.as_str().unicode_len() != 0 {
                    docs.append(field_def.docs.as_str());
                    docs.append("\n");
                }
                docs.append(" * Minimum length: ");
                docs.append(decimal(n).as_str());
                proof {
                    assert(docs@ =~= with_length_note(resolved.docs, n as nat));
                }
                field_def.docs = docs;
            }
        }
        field_def.model_schema_prop_meta = Some(model_schema_prop_meta);
    } else {
        field_def.model_schema_prop_meta = None;
    }
    assert(field_def@ == with_overrides(resolved, prop));
    if is_refused_shape(&field_def) {
        let written = write_type(&field.ty);
        return Err(
            SchemaError::at_field(
                ErrorKind::UnsupportedShape,
                field_def.name.as_str(),
                written.as_str(),
            ),
        );
    }
    Ok(field_def)
}

/// The line of a field in the body of a static type, below its comment.
pub open spec fn type_line(f: FieldModel) -> Seq<char> {
    "  /**\n"@ + f.docs + "\n**/\n  "@ + f.name + ": "@ + ts_type(f) + ";\n"@
}

/// The line of a field in the body of a validator.
pub open spec fn schema_line(f: FieldModel) -> Seq<char> {
    "  "@ + f.name + ": "@ + zod_text(f) + ",\n"@
}

/// The lines of the fields in the body of a static type.
pub open spec fn type_code(fields: Seq<FieldModel>) -> Seq<char>
    decreases fields.len(),
{
    if fields.len() == 0 {
        Seq::empty()
    } else {
        type_code(fields.drop_last()) + type_line(fields.last())
    }
}

/// The lines of the fields in the body of a validator; nothing where no
/// validator is asked for.
pub open spec fn schema_code(fields: Seq<FieldModel>, zod: bool) -> Seq<char>
    decreases fields.len(),
{
    if fields.len() == 0 || !zod {
        Seq::empty()
    } else {
        schema_code(fields.drop_last(), zod) + schema_line(fields.last())
    }
}

/// Appends the line of a field to the body of a static type and, where a
/// validator is asked for, to the body of the validator.
pub fn write_field_type_and_schema(
    type_code: &mut String,
    schema_code: &mut String,
    fld: &FieldDef,
    features: &Features,
)
    ensures
        final(type_code)@ == old(type_code)@ + type_line(fld@),
        final(schema_code)@ == (if features.zod {
            old(schema_code)@ + schema_line(fld@)
        } else {
            old(schema_code)@
        }),
{
    let ghost before = type_code@;
    type_code.append("  /**\n");
    type_code.append(fld.docs.as_str());
    type_code.append("\n**/\n  ");
    type_code.append(fld.name.as_str());
    type_code.append(": ");
    type_code.append(fld.typescript_typename().as_str());
    type_code.append(";\n");
    assert(type_code@ =~= before + type_line(fld@));
    if features.has_zod() {
        let ghost before = schema_code@;
        schema_code.append("  ");
        schema_code.append(fld.name.as_str());
        schema_code.append(": ");
        schema_code.append(fld.zod_type().as_str());
        schema_code.append(",\n");
        assert(schema_code@ =~= before + schema_line(fld@));
    }
}

/// The names of the optional fields, in the order of the fields.
pub open spec fn optional_names(fields: Seq<FieldModel>) -> Seq<Seq<char>>
    decreases fields.len(),
{
    if fields.len() == 0 {
        Seq::empty()
    } else if fields.last().is_optional {
        optional_names(fields.drop_last()).push(fields.last().name)
    } else {
        optional_names(fields.drop_last())
    }
}

/// Collects the names of the optional fields.
pub fn collect_optional_names(defs: &Vec<FieldDef>) -> (r: Vec<String>)
    ensures
        texts(r@) == optional_names(field_models(defs@)),
{
    let mut out: Vec<String> = Vec::new();
    let mut i: usize = 0;
    while i < defs.len()
        invariant
            i <= defs.len(),
            texts(out@) == optional_names(field_models(defs@).take(i as int)),
        decreases defs.len() - i,
    {
        proof {
            let m = field_models(defs@);
            assert(m.take(i + 1).drop_last() =~= m.take(i as int));
            assert(m.take(i + 1).last() == defs@[i as int]@);
        }
        if defs[i].is_optional {
            let name = defs[i].name.clone();
            proof {
                assert(texts(out@.push(name)) =~= texts(out@).push(name@));
            }
            out.push(name);
        }
        i += 1;
    }
    assert(field_models(defs@).take(defs.len() as int) =~= field_models(defs@));
    out
}

/// The compiled fields of a record or of a variant.
#[derive(Debug)]
pub struct CompiledFields {
    /// The resolved fields, in order.
    pub defs: Vec<FieldDef>,
    /// Their schemas, in order; none where no JSON Schema is asked for.
    pub schemas: Vec<FieldSchema>,
}

/// What a [`CompiledFields`] holds.
pub ghost struct FieldsModel {
    pub defs: Seq<FieldModel>,
    pub schemas: Seq<FieldSchemaModel>,
}

impl View for CompiledFields {
    type V = FieldsModel;

    open spec fn view(&self) -> FieldsModel {
        FieldsModel { defs: field_models(self.defs@), schemas: schema_models(self.schemas@) }
    }
}

/// What one declared field compiles to: the resolved field and, where a JSON
/// Schema is asked for, its schema; or the first failure of the two.
pub open spec fn compiled_field(
    rename_all: Option<Seq<char>>,
    field: Field,
    features: Features,
    reg: Seq<EntryModel>,
) -> Result<(FieldModel, Option<FieldSchemaModel>), ErrorModel> {
    match field_outcome(rename_all, field, features) {
        Err(e) => Err(e),
        Ok(def) => if features.jsonschema {
            match field_schema(def, reg) {
                Ok(schema) => Ok((def, Some(schema))),
                Err(e) => Err(e),
            }
        } else {
            Ok((def, None))
        },
    }
}

/// What the declared fields compile to, in order; or the failure of the
/// first field that fails.
pub open spec fn compiled_fields(
    rename_all: Option<Seq<char>>,
    fields: Seq<Field>,
    features: Features,
    reg: Seq<EntryModel>,
) -> Result<FieldsModel, ErrorModel>
    decreases fields.len(),
{
    if fields.len() == 0 {
        Ok(FieldsModel { defs: Seq::empty(), schemas: Seq::empty() })
    } else {
        match compiled_fields(rename_all, fields.drop_last(), features, reg) {
            Err(e) => Err(e),
            Ok(m) => match compiled_field(rename_all, fields.last(), features, reg) {
                Err(e) => Err(e),
                Ok((def, schema)) => Ok(
                    FieldsModel {
                        defs: m.defs.push(def),
                        schemas: match schema {
                            Some(s) => m.schemas.push(s),
                            None => m.schemas,
                        },
                    },
                ),
            },
        }
    }
}

/// A failure among the first fields is the failure of the whole list.
pub proof fn lemma_compiled_fields_prefix(
    rename_all: Option<Seq<char>>,
    fields: Seq<Field>,
    features: Features,
    reg: Seq<EntryModel>,
    n: int,
)
    requires
        0 <= n <= fields.len(),
        compiled_fields(rename_all, fields.take(n), features, reg) is Err,
    ensures
        compiled_fields(rename_all, fields, features, reg) == compiled_fields(
            rename_all,
            fields.take(n),
            features,
            reg,
        ),
    decreases fields.len() - n,
{
    if n < fields.len() {
        assert(fields.take(n + 1).drop_last() =~= fields.take(n));
        lemma_compiled_fields_prefix(rename_all, fields, features, reg, n + 1);
    } else {
        assert(fields.take(n) =~= fields);
    }
}

/// Compiles the fields of a record or of a variant, in order.
pub fn process_fields(
    rename_all: &Option<String>,
    fields: &Vec<Field>,
    features: &Features,
    registry: &SchemaRegistry,
) -> (r: Result<CompiledFields, SchemaError>)
    ensures
        match r {
            Ok(c) => compiled_fields(opt_text(*rename_all), fields@, *features, registry@) == Ok::<
                FieldsModel,
                ErrorModel,
            >(c@),
            Err(e) => compiled_fields(opt_text(*rename_all), fields@, *features, registry@)
                == Err::<FieldsModel, ErrorModel>(e@),
        },
{
    let mut defs: Vec<FieldDef> = Vec::new();
    let mut schemas: Vec<FieldSchema> = Vec::new();
    let mut i: usize = 0;
    proof {
        assert(field_models(defs@) =~= Seq::<FieldModel>::empty());
        assert(schema_models(schemas@) =~= Seq::<FieldSchemaModel>::empty());
    }
    while i < fields.len()
        invariant
            i <= fields.len(),
            compiled_fields(opt_text(*rename_all), fields@.take(i as int), *features, registry@)
                == Ok::<FieldsModel, ErrorModel>(
                FieldsModel { defs: field_models(defs@), schemas: schema_models(schemas@) },
            ),
        decreases fields.len() - i,
    {
        proof {
            assert(fields@.take(i + 1).drop_last() =~= fields@.take(i as int));
            assert(fields@.take(i + 1).last() == fields@[i as int]);
        }
        let def = match process_field(rename_all, &fields[i], features) {
            Ok(def) => def,
            Err(e) => {
                proof {
                    lemma_compiled_fields_prefix(
                        opt_text(*rename_all),
                        fields@,
                        *features,
                        registry@,
                        i + 1,
                    );
                }
                return Err(e);
            },
        };
        if features.has_jsonschema() {
            match build_field_schema(&def, registry) {
                Ok(schema) => {
                    proof {
                        assert(schema_models(schemas@.push(schema)) =~= schema_models(schemas@).push(
                            schema@,
                        ));
                    }
                    schemas.push(schema);
                },
                Err(e) => {
                    proof {
                        lemma_compiled_fields_prefix(
                            opt_text(*rename_all),
                            fields@,
                            *features,
                            registry@,
                            i + 1,
                        );
                    }
                    return Err(e);
                },
            }
        }
        proof {
            assert(field_models(defs@.push(def)) =~= field_models(defs@).push(def@));
        }
        defs.push(def);
        i += 1;
    }
    assert(fields@.take(fields.len() as int) =~= fields@);
    Ok(CompiledFields { defs, schemas })
}

/// The comment that opens a static type declaration: the documentation and,
/// where the schema is quoted, the lines of the pretty-printed schema.
/// `spaced` tells whether the comment without a schema closes with a space
/// before `**/`.
pub open spec fn json_docs_text(docs: Seq<char>, pretty: Option<Seq<char>>, spaced: bool) -> Seq<
    char,
> {
    match pretty {
        Some(p) => "/**\n"@ + docs + "\n * JSON Schema:\n"@ + schema_comment(p) + "\n **/\n"@,
        None => if spaced {
            "/**\n"@ + docs + "\n **/\n"@
        } else {
            "/**\n"@ + docs + "\n**/\n"@
        },
    }
}

/// Writes the comment that opens a static type declaration.
pub fn generate_json_docs_part(docs: &str, pretty: Option<&str>, spaced: bool) -> (r: String)
    ensures
        r@ == json_docs_text(
            docs@,
            match pretty {
                Some(p) => Some(p@),
                None => None,
            },
            spaced,
        ),
{
    let mut out = String::from_str("/**\n");
    out.append(docs);
    match pretty {
        Some(p) => {
            out.append("\n * JSON Schema:\n");
            out.append(generate_json_schema_docs(p).as_str());
            out.append("\n **/\n");
        },
        None => {
            if spaced {
                out.append("\n **/\n");
            } else {
                out.append("\n**/\n");
            }
        },
    }
    out
}

/// The declaration of the static type of a record. A record with fields is
/// the opening comment, an empty line and the type with its body. A record
/// without fields is declared on one line as the type without properties;
/// there the opening comment stands inside a second comment whose line
/// breaks are written as the two characters `\n`.
pub open spec fn struct_ts_text(
    docs: Seq<char>,
    item_name: Seq<char>,
    type_code: Seq<char>,
    fields_empty: bool,
    pretty: Option<Seq<char>>,
) -> Seq<char> {
    let opening = json_docs_text(docs, pretty, true);
    if fields_empty {
        "/**\\n"@ + opening + "\\n**/\\nexport type "@ + item_name + " = Record<string, never>;"@
    } else {
        opening + "\n\nexport type "@ + item_name + " = {\n"@ + type_code + "\n};"@
    }
}

/// Writes the declaration of the static type of a record.
pub fn generate_ts_definition_method(
    docs: &str,
    item_name: &str,
    type_code: &str,
    fields_empty: bool,
    pretty: Option<&str>,
) -> (r: String)
    ensures
        r@ == struct_ts_text(
            docs@,
            item_name@,
            type_code@,
            fields_empty,
            match pretty {
                Some(p) => Some(p@),
                None => None,
            },
        ),
{
    let opening = generate_json_docs_part(docs, pretty, true);
    if fields_empty {
        let mut out = String::from_str("/**\\n");
        out.append(opening.as_str());
        out.append("\\n**/\\nexport type ");
        out.append(item_name);
        out.append(" = Record<string, never>;");
        out
    } else {
        let mut out = opening;
        out.append("\n\nexport type ");
        out.append(item_name);
        out.append(" = {\n");
        out.append(type_code);
        out.append("\n};");
        out
    }
}

/// The head of a validator declaration: the constant's name and, where
/// static types are emitted, its type.
pub open spec fn zod_head_text(item_name: Seq<char>, annotation: Option<Seq<char>>) -> Seq<char> {
    match annotation {
        Some(a) => "export const "@ + item_name + "$Schema: z.Schema<"@ + item_name + a + "> = "@,
        None => "export const "@ + item_name + "$Schema = "@,
    }
}

/// Writes the head of a validator declaration.
fn zod_head(item_name: &str, annotation: Option<&str>) -> (r: String)
    ensures
        r@ == zod_head_text(
            item_name@,
            match annotation {
                Some(a) => Some(a@),
                None => None,
            },
        ),
{
    let mut out = String::from_str("export const ");
    out.append(item_name);
    match annotation {
        Some(a) => {
            out.append("$Schema: z.Schema<");
            out.append(item_name);
            out.append(a);
            out.append("> = ");
        },
        None => {
            out.append("$Schema = ");
        },
    }
    out
}

/// The second and third argument of the type of a validator that takes
/// unknown input.
pub open spec fn input_annotation(typescript: bool) -> Option<Seq<char>> {
    if typescript {
        Some(", z.ZodTypeDef, unknown"@)
    } else {
        None
    }
}

/// The declaration of the validator of a record: a strict object over the
/// lines of its fields.
pub open spec fn struct_zod_text(
    item_name: Seq<char>,
    schema_code: Seq<char>,
    show_opts: Seq<char>,
    typescript: bool,
) -> Seq<char> {
    zod_head_text(item_name, input_annotation(typescript)) + "z.strictObject({\n"@ + schema_code
        + "\n})"@ + show_opts + ";"@
}

/// Writes the declaration of the validator of a record.
pub fn generate_zod_schema_method(
    item_name: &str,
    schema_code: &str,
    show_opts: &str,
    typescript: bool,
) -> (r: String)
    ensures
        r@ == struct_zod_text(item_name@, schema_code@, show_opts@, typescript),
{
    let mut out = if typescript {
        zod_head(item_name, Some(", z.ZodTypeDef, unknown"))
    } else {
        zod_head(item_name, None)
    };
    out.append("z.strictObject({\n");
    out.append(schema_code);
    out.append("\n})");
    out.append(show_opts);
    out.append(";");
    out
}

/// The declaration of the static type of a plain enum, on one line: the
/// opening comment stands inside a second comment whose line breaks are
/// written as the two characters `\n`.
pub open spec fn plain_enum_ts_text(
    docs: Seq<char>,
    item_name: Seq<char>,
    type_code: Seq<char>,
    pretty: Option<Seq<char>>,
) -> Seq<char> {
    "/**\\n"@ + json_docs_text(docs, pretty, false) + "\\n**/\\nexport type "@ + item_name + " = "@
        + type_code + ";"@
}

/// Writes the declaration of the static type of a plain enum.
pub fn generate_plain_enum_ts_definition_method(
    docs: &str,
    item_name: &str,
    type_code: &str,
    pretty: Option<&str>,
) -> (r: String)
    ensures
        r@ == plain_enum_ts_text(
            docs@,
            item_name@,
            type_code@,
            match pretty {
                Some(p) => Some(p@),
                None => None,
            },
        ),
{
    let mut out = String::from_str("/**\\n");
    out.append(generate_json_docs_part(docs, pretty, false).as_str());
    out.append("\\n**/\\nexport type ");
    out.append(item_name);
    out.append(" = ");
    out.append(type_code);
    out.append(";");
    out
}

/// The declaration of the validator of a plain enum.
pub open spec fn plain_enum_zod_text(item_name: Seq<char>, schema_code: Seq<char>, typescript: bool) -> Seq<
    char,
> {
    zod_head_text(
        item_name,
        if typescript {
            Some(Seq::empty())
        } else {
            None
        },
    ) + "z.enum(["@ + schema_code + "]);"@
}

/// Writes the declaration of the validator of a plain enum.
pub fn generate_plain_enum_zod_schema_method(item_name: &str, schema_code: &str, typescript: bool) -> (r:
    String)
    ensures
        r@ == plain_enum_zod_text(item_name@, schema_code@, typescript),
{
    let mut out = if typescript {
        let r = zod_head(item_name, Some(""));
        proof {
            reveal_strlit("");
            assert(""@ =~= Seq::<char>::empty());
        }
        r
    } else {
        zod_head(item_name, None)
    };
    out.append("z.enum([");
    out.append(schema_code);
    out.append("]);");
    out
}

/// The declaration of the static type of a tagged union: the opening
/// comment, then the union of the variants' record types.
pub open spec fn union_ts_text(
    docs: Seq<char>,
    item_name: Seq<char>,
    type_code: Seq<char>,
    pretty: Option<Seq<char>>,
) -> Seq<char> {
    json_docs_text(docs, pretty, false) + "export type "@ + item_name + " = "@ + type_code + ";"@
}

/// Writes the declaration of the static type of a tagged union.
pub fn generate_discriminated_enum_ts_definition_method(
    docs: &str,
    item_name: &str,
    type_code: &str,
    pretty: Option<&str>,
) -> (r: String)
    ensures
        r@ == union_ts_text(
            docs@,
            item_name@,
            type_code@,
            match pretty {
                Some(p) => Some(p@),
                None => None,
            },
        ),
{
    let mut out = generate_json_docs_part(docs, pretty, false);
    out.append("export type ");
    out.append(item_name);
    out.append(" = ");
    out.append(type_code);
    out.append(";");
    out
}

/// The declaration of the validator of a tagged union.
pub open spec fn union_zod_text(item_name: Seq<char>, schema_code: Seq<char>, typescript: bool) -> Seq<
    char,
> {
    zod_head_text(item_name, input_annotation(typescript)) + schema_code + ";"@
}

/// Writes the declaration of the validator of a tagged union.
pub fn generate_discriminated_enum_zod_schema_method(
    item_name: &str,
    schema_code: &str,
    typescript: bool,
) -> (r: String)
    ensures
        r@ == union_zod_text(item_name@, schema_code@, typescript),
{
    let mut out = if typescript {
        zod_head(item_name, Some(", z.ZodTypeDef, unknown"))
    } else {
        zod_head(item_name, None)
    };
    out.append(schema_code);
    out.append(";");
    out
}

/// The text of the schema that the comment above a static type quotes.
pub open spec fn quoted_schema(json: Option<JsonDoc>, quote: bool) -> Option<Seq<char>> {
    match json {
        Some(doc) => if quote {
            Some(pretty_text(doc))
        } else {
            None
        },
        None => None,
    }
}

/// Pretty-prints the schema that the comment above a static type quotes.
fn quote_schema(json: &Option<serde_json::Value>, quote: bool) -> (r: Option<String>)
    ensures
        opt_text(r) == quoted_schema(
            match *json {
                Some(v) => Some(json_doc(v)),
                None => None,
            },
            quote,
        ),
{
    match json {
        Some(v) => {
            if quote {
                prettified(v)
            } else {
                None
            }
        },
        None => None,
    }
}

/// The outputs of a record whose fields compiled to `m`.
pub open spec fn struct_view(item: ItemStruct, features: Features, m: FieldsModel) -> CompiledView {
    let name = safe_name(item.ident@);
    let json = if features.jsonschema {
        Some(record_doc(m.schemas))
    } else {
        None
    };
    CompiledView {
        name,
        declared_name: item.ident@,
        ts_definition: if features.typescript {
            Some(
                struct_ts_text(
                    doc_comment(documentation(item.attrs@), item.ident@),
                    name,
                    type_code(m.defs),
                    m.defs.len() == 0,
                    quoted_schema(json, true),
                ),
            )
        } else {
            None
        },
        zod_schema: if features.zod {
            Some(
                struct_zod_text(
                    name,
                    schema_code(m.defs, true),
                    Seq::empty(),
                    features.typescript,
                ),
            )
        } else {
            None
        },
        json_schema: json,
        enum_members: None,
        optional_fields: optional_names(m.defs),
    }
}

/// What a record compiles to: its outputs, or the failure of its first
/// failing field, reported for the record.
pub open spec fn struct_outcome(item: ItemStruct, features: Features, reg: Seq<EntryModel>) -> Result<
    CompiledView,
    ErrorModel,
> {
    match compiled_fields(convention_of(item.attrs@, features), item.fields@, features, reg) {
        Ok(m) => Ok(struct_view(item, features, m)),
        Err(e) => Err(e.within(item.ident@)),
    }
}

/// Writes the lines of `defs` in the body of a static type and of a
/// validator.
fn write_fields(defs: &Vec<FieldDef>, features: &Features) -> (r: (String, String))
    ensures
        r.0@ == type_code(field_models(defs@)),
        r.1@ == schema_code(field_models(defs@), features.zod),
{
    let mut type_code = String::new();
    let mut schema_code = String::new();
    let mut i: usize = 0;
    while i < defs.len()
        invariant
            i <= defs.len(),
            type_code@ == self::type_code(field_models(defs@).take(i as int)),
            schema_code@ == self::schema_code(field_models(defs@).take(i as int), features.zod),
        decreases defs.len() - i,
    {
        proof {
            let m = field_models(defs@);
            assert(m.take(i + 1).drop_last() =~= m.take(i as int));
            assert(m.take(i + 1).last() == defs@[i as int]@);
        }
        write_field_type_and_schema(&mut type_code, &mut schema_code, &defs[i], features);
        i += 1;
    }
    assert(field_models(defs@).take(defs.len() as int) =~= field_models(defs@));
    (type_code, schema_code)
}

/// Compiles a record.
///
/// Succeeds exactly where every field compiles, with the outputs that
/// [`struct_view`] states; else fails with the failure of the first failing
/// field.
pub fn process_struct(item_struct: &ItemStruct, features: &Features, registry: &SchemaRegistry) -> (r:
    Result<CompiledModel, SchemaError>)
    ensures
        match r {
            Ok(m) => struct_outcome(*item_struct, *features, registry@) == Ok::<
                CompiledView,
                ErrorModel,
            >(m@),
            Err(e) => struct_outcome(*item_struct, *features, registry@) == Err::<
                CompiledView,
                ErrorModel,
            >(e@),
        },
{
    let rename_all = if features.has_serde() {
        parse_serde_type_attributes(item_struct.attrs.as_slice()).0.rename_all
    } else {
        None
    };
    let item_name = safe_type_name(item_struct.ident.as_str());
    let fields = match process_fields(&rename_all, &item_struct.fields, features, registry) {
        Ok(fields) => fields,
        Err(e) => {
            return Err(e.within(item_struct.ident.as_str()));
        },
    };
    let (type_code, schema_code) = write_fields(&fields.defs, features);
    let json_schema = if features.has_jsonschema() {
        Some(generate_struct_json_schema_method(fields.schemas.as_slice()))
    } else {
        None
    };
    let ts_definition = if features.has_typescript() {
        let pretty = quote_schema(&json_schema, true);
        let docs = format_doc_comment(&get_struct_docs(item_struct), item_struct.ident.as_str());
        Some(
            generate_ts_definition_method(
                docs.as_str(),
                item_name.as_str(),
                type_code.as_str(),
                fields.defs.len() == 0,
                match &pretty {
                    Some(p) => Some(p.as_str()),
                    None => None,
                },
            ),
        )
    } else {
        None
    };
    let optional_fields = collect_optional_names(&fields.defs);
    let zod_schema = if features.has_zod() {
        Some(
            generate_zod_schema_method(
                item_name.as_str(),
                schema_code.as_str(),
                show_optionals(optional_fields.as_slice()).as_str(),
                features.has_typescript(),
            ),
        )
    } else {
        None
    };
    Ok(
        CompiledModel {
            name: item_name,
            declared_name: item_struct.ident.clone(),
            ts_definition,
            zod_schema,
            json_schema,
            enum_members: None,
            optional_fields,
        },
    )
}

/// Whether no variant of an enum carries fields.
pub open spec fn plain_enum(item: ItemEnum) -> bool {
    forall|i: int| 0 <= i < item.variants@.len() ==> (#[trigger] item.variants@[i]).fields is None
}

/// Whether no variant of an enum carries fields.
pub fn is_plain_enum(item_enum: &ItemEnum) -> (r: bool)
    ensures
        r == plain_enum(*item_enum),
{
    let mut i: usize = 0;
    while i < item_enum.variants.len()
        invariant
            i <= item_enum.variants.len(),
            forall|j: int| 0 <= j < i ==> (#[trigger] item_enum.variants@[j]).fields is None,
        decreases item_enum.variants.len() - i,
    {
        if item_enum.variants[i].fields.is_some() {
            return false;
        }
        i += 1;
    }
    true
}

/// The name under which a variant is emitted.
pub open spec fn variant_final_name(rename_all: Option<Seq<char>>, v: Variant, features: Features) -> Seq<
    char,
> {
    resolved_name(v.ident@, override_of(v.attrs@, features), rename_all)
}

/// The names under which the variants are emitted, in order.
pub open spec fn enum_options(rename_all: Option<Seq<char>>, variants: Seq<Variant>, features: Features) -> Seq<
    Seq<char>,
> {
    Seq::new(variants.len(), |i: int| variant_final_name(rename_all, variants[i], features))
}

/// The name under which a variant is emitted.
fn final_variant_name(rename_all: &Option<String>, v: &Variant, features: &Features) -> (r: String)
    ensures
        r@ == variant_final_name(opt_text(*rename_all), *v, *features),
{
    let field_rename = if features.has_serde() {
        parse_serde_field_attributes(v.attrs.as_slice()).0.rename
    } else {
        None
    };
    get_final_name(v.ident.clone(), &field_rename, rename_all)
}

/// The outputs of a plain enum whose variants are renamed under
/// `rename_all` and which is emitted as `item_name`.
pub open spec fn plain_enum_outputs(
    item: ItemEnum,
    rename_all: Option<Seq<char>>,
    item_name: Seq<char>,
    features: Features,
) -> CompiledView {
    let options = enum_options(rename_all, item.variants@, features);
    let json = if features.jsonschema {
        Some(plain_enum_doc(options))
    } else {
        None
    };
    CompiledView {
        name: item_name,
        declared_name: item.ident@,
        ts_definition: if features.typescript {
            Some(
                plain_enum_ts_text(
                    doc_comment(documentation(item.attrs@), item.ident@),
                    item_name,
                    joined(quoted(options), " | "@),
                    quoted_schema(json, features.zod),
                ),
            )
        } else {
            None
        },
        zod_schema: if features.zod {
            Some(
                plain_enum_zod_text(item_name, joined(quoted(options), ", "@), features.typescript),
            )
        } else {
            None
        },
        json_schema: json,
        enum_members: Some(options),
        optional_fields: Seq::empty(),
    }
}

/// The outputs of a plain enum, under the convention that its attributes
/// name and the name that its own gives.
pub open spec fn plain_enum_view(item: ItemEnum, features: Features) -> CompiledView {
    plain_enum_outputs(
        item,
        convention_of(item.attrs@, features),
        safe_name(item.ident@),
        features,
    )
}

/// Compiles a plain enum: its values are the final names of its variants.
/// A plain enum always compiles.
pub fn process_plain_enum(
    item_enum: &ItemEnum,
    rename_all: &Option<String>,
    item_name: &str,
    features: &Features,
) -> (r: CompiledModel)
    ensures
        r@ == plain_enum_outputs(*item_enum, opt_text(*rename_all), item_name@, *features),
{
    let mut enum_options: Vec<String> = Vec::new();
    let mut i: usize = 0;
    while i < item_enum.variants.len()
        invariant
            i <= item_enum.variants.len(),
            enum_options.len() == i,
            forall|j: int|
                0 <= j < i ==> (#[trigger] enum_options@[j])@ == variant_final_name(
                    opt_text(*rename_all),
                    item_enum.variants@[j],
                    *features,
                ),
        decreases item_enum.variants.len() - i,
    {
        enum_options.push(final_variant_name(rename_all, &item_enum.variants[i], features));
        i += 1;
    }
    assert(texts(enum_options@) =~= self::enum_options(
        opt_text(*rename_all),
        item_enum.variants@,
        *features,
    ));
    let options = quote_all(enum_options.as_slice());
    let json_schema = if features.has_jsonschema() {
        Some(generate_plain_enum_json_schema_method(&enum_options))
    } else {
        None
    };
    let ts_definition = if features.has_typescript() {
        let pretty = quote_schema(&json_schema, features.has_zod());
        let docs = format_doc_comment(&get_enum_docs(item_enum), item_enum.ident.as_str());
        Some(
            generate_plain_enum_ts_definition_method(
                docs.as_str(),
                item_name,
                join(&options, " | ").as_str(),
                match &pretty {
                    Some(p) => Some(p.as_str()),
                    None => None,
                },
            ),
        )
    } else {
        None
    };
    let zod_schema = if features.has_zod() {
        Some(
            generate_plain_enum_zod_schema_method(
                item_name,
                join(&options, ", ").as_str(),
                features.has_typescript(),
            ),
        )
    } else {
        None
    };
    let r = CompiledModel {
        name: String::from_str(item_name),
        declared_name: item_enum.ident.clone(),
        ts_definition,
        zod_schema,
        json_schema,
        enum_members: Some(enum_options),
        optional_fields: Vec::new(),
    };
    assert(r@.optional_fields =~= Seq::<Seq<char>>::empty());
    r
}

/// The code of one variant of a tagged union.
#[derive(Debug)]
pub struct VariantCode {
    /// The record type of the variant.
    pub type_code: String,
    /// The body of the validator of the variant.
    pub schema_code: String,
    /// The names of the variant's optional fields, in order.
    pub optional_fields: Vec<String>,
    /// The schema of the variant; none where no JSON Schema is asked for.
    pub json_schema: Option<serde_json::Value>,
}

/// What a [`VariantCode`] holds.
pub ghost struct VariantModel {
    pub type_code: Seq<char>,
    pub schema_code: Seq<char>,
    pub optional_fields: Seq<Seq<char>>,
    pub json_schema: Option<JsonDoc>,
}

impl View for VariantCode {
    type V = VariantModel;

    open spec fn view(&self) -> VariantModel {
        VariantModel {
            type_code: self.type_code@,
            schema_code: self.schema_code@,
            optional_fields: texts(self.optional_fields@),
            json_schema: match self.json_schema {
                Some(v) => Some(json_doc(v)),
                None => None,
            },
        }
    }
}

/// The views of a list of variants.
pub open spec fn variant_models(v: Seq<VariantCode>) -> Seq<VariantModel> {
    Seq::new(v.len(), |i: int| v[i]@)
}

/// The code of a variant: a closed record whose first field is the tag,
/// pinned to the variant's final name, followed by the variant's own fields.
pub open spec fn variant_code(
    tag: Seq<char>,
    value: Seq<char>,
    m: FieldsModel,
    docs: Seq<char>,
    features: Features,
) -> VariantModel {
    VariantModel {
        type_code: "{  /**\n"@ + docs + "\n**/\n  "@ + tag + ": \""@ + value + "\";\n"@ + type_code(
            m.defs,
        ) + "}"@,
        schema_code: "{\n  "@ + tag + ": z.literal(\""@ + value + "\"),\n"@ + schema_code(
            m.defs,
            features.zod,
        ) + "}"@,
        optional_fields: optional_names(m.defs),
        json_schema: if features.jsonschema {
            Some(variant_doc(tag, value, m.schemas))
        } else {
            None
        },
    }
}

/// Writes the code of one variant of a tagged union.
pub fn generate_variant_code(
    tag_name: &str,
    discriminator_value: &str,
    fields: &CompiledFields,
    discriminator_docs: &str,
    features: &Features,
) -> (r: VariantCode)
    ensures
        r@ == variant_code(tag_name@, discriminator_value@, fields@, discriminator_docs@, *features),
{
    let (fields_type_code, fields_schema_code) = write_fields(&fields.defs, features);
    let mut variant_type_code = String::from_str("{  /**\n");
    variant_type_code.append(discriminator_docs);
    variant_type_code.append("\n**/\n  ");
    variant_type_code.append(tag_name);
    variant_type_code.append(": \"");
    variant_type_code.append(discriminator_value);
    variant_type_code.append("\";\n");
    variant_type_code.append(fields_type_code.as_str());
    variant_type_code.append("}");
    let mut variant_schema_code = String::from_str("{\n  ");
    variant_schema_code.append(tag_name);
    variant_schema_code.append(": z.literal(\"");
    variant_schema_code.append(discriminator_value);
    variant_schema_code.append("\"),\n");
    variant_schema_code.append(fields_schema_code.as_str());
    variant_schema_code.append("}");
    let json_schema = if features.has_jsonschema() {
        Some(generate_variant_json_schema(tag_name, discriminator_value, fields.schemas.as_slice()))
    } else {
        None
    };
    VariantCode {
        type_code: variant_type_code,
        schema_code: variant_schema_code,
        optional_fields: collect_optional_names(&fields.defs),
        json_schema,
    }
}

/// The name of the field that tells the variants apart: the one the
/// container names, else `type`.
pub open spec fn tag_name_of(attrs: Seq<Attribute>, features: Features) -> Seq<char> {
    if features.serde {
        match reading(Reader::SerdeType, attrs).0.tag {
            Some(tag) => tag,
            None => "type"@,
        }
    } else {
        "type"@
    }
}

/// The fields of a variant; none for a unit variant.
pub open spec fn variant_fields(v: Variant) -> Seq<Field> {
    match v.fields {
        Some(fields) => fields@,
        None => Seq::empty(),
    }
}

/// What one variant compiles to, or the failure of its first failing field.
pub open spec fn compiled_variant(
    rename_all: Option<Seq<char>>,
    tag: Seq<char>,
    v: Variant,
    features: Features,
    reg: Seq<EntryModel>,
) -> Result<VariantModel, ErrorModel> {
    let value = variant_final_name(rename_all, v, features);
    match compiled_fields(rename_all, variant_fields(v), features, reg) {
        Ok(m) => Ok(
            variant_code(tag, value, m, doc_comment(documentation(v.attrs@), value), features),
        ),
        Err(e) => Err(e),
    }
}

/// What the variants compile to, in order, or the failure of the first
/// variant that fails.
pub open spec fn compiled_variants(
    rename_all: Option<Seq<char>>,
    tag: Seq<char>,
    variants: Seq<Variant>,
    features: Features,
    reg: Seq<EntryModel>,
) -> Result<Seq<VariantModel>, ErrorModel>
    decreases variants.len(),
{
    if variants.len() == 0 {
        Ok(Seq::empty())
    } else {
        match compiled_variants(rename_all, tag, variants.drop_last(), features, reg) {
            Err(e) => Err(e),
            Ok(vs) => match compiled_variant(rename_all, tag, variants.last(), features, reg) {
                Ok(v) => Ok(vs.push(v)),
                Err(e) => Err(e),
            },
        }
    }
}

/// A failure among the first variants is the failure of the whole list.
pub proof fn lemma_compiled_variants_prefix(
    rename_all: Option<Seq<char>>,
    tag: Seq<char>,
    variants: Seq<Variant>,
    features: Features,
    reg: Seq<EntryModel>,
    n: int,
)
    requires
        0 <= n <= variants.len(),
        compiled_variants(rename_all, tag, variants.take(n), features, reg) is Err,
    ensures
        compiled_variants(rename_all, tag, variants, features, reg) == compiled_variants(
            rename_all,
            tag,
            variants.take(n),
            features,
            reg,
        ),
    decreases variants.len() - n,
{
    if n < variants.len() {
        assert(variants.take(n + 1).drop_last() =~= variants.take(n));
        lemma_compiled_variants_prefix(rename_all, tag, variants, features, reg, n + 1);
    } else {
        assert(variants.take(n) =~= variants);
    }
}

/// The record types of the variants.
pub open spec fn variant_type_codes(vs: Seq<VariantModel>) -> Seq<Seq<char>> {
    Seq::new(vs.len(), |i: int| vs[i].type_code)
}

/// The validators of the variants: each a strict object.
pub open spec fn variant_validators(vs: Seq<VariantModel>) -> Seq<Seq<char>> {
    Seq::new(vs.len(), |i: int| "z.strictObject("@ + vs[i].schema_code + ")"@)
}

/// The schemas of the variants.
pub open spec fn variant_docs(vs: Seq<VariantModel>) -> Seq<JsonDoc> {
    Seq::new(vs.len(), |i: int| vs[i].json_schema->Some_0)
}

/// The validator of a tagged union: a union told apart by the tag, over the
/// validators of the variants.
pub open spec fn union_validator_text(tag: Seq<char>, vs: Seq<VariantModel>) -> Seq<char> {
    "z.discriminatedUnion(\""@ + tag + "\", ["@ + joined(variant_validators(vs), ", "@) + "])"@
}

/// The outputs of a tagged union that is told apart by `tag`, emitted as
/// `item_name`, and whose variants compiled to `vs`.
pub open spec fn union_outputs(
    item: ItemEnum,
    tag: Seq<char>,
    item_name: Seq<char>,
    features: Features,
    vs: Seq<VariantModel>,
) -> CompiledView {
    let json = if features.jsonschema {
        Some(union_doc(variant_docs(vs)))
    } else {
        None
    };
    CompiledView {
        name: item_name,
        declared_name: item.ident@,
        ts_definition: if features.typescript {
            Some(
                union_ts_text(
                    doc_comment(documentation(item.attrs@), item.ident@),
                    item_name,
                    joined(variant_type_codes(vs), " | "@),
                    quoted_schema(json, features.zod),
                ),
            )
        } else {
            None
        },
        zod_schema: if features.zod {
            Some(union_zod_text(item_name, union_validator_text(tag, vs), features.typescript))
        } else {
            None
        },
        json_schema: json,
        enum_members: None,
        optional_fields: Seq::empty(),
    }
}

/// What a tagged union compiles to, told apart by `tag`, renamed under
/// `rename_all` and emitted as `item_name`: its outputs, or the failure of
/// its first failing field, reported for the enum.
pub open spec fn union_result(
    item: ItemEnum,
    tag: Seq<char>,
    rename_all: Option<Seq<char>>,
    item_name: Seq<char>,
    features: Features,
    reg: Seq<EntryModel>,
) -> Result<CompiledView, ErrorModel> {
    match compiled_variants(rename_all, tag, item.variants@, features, reg) {
        Ok(vs) => Ok(union_outputs(item, tag, item_name, features, vs)),
        Err(e) => Err(e.within(item.ident@)),
    }
}

/// What a tagged union compiles to, under the tag and the convention that
/// its attributes name and the name that its own gives.
pub open spec fn union_outcome(item: ItemEnum, features: Features, reg: Seq<EntryModel>) -> Result<
    CompiledView,
    ErrorModel,
> {
    union_result(
        item,
        tag_name_of(item.attrs@, features),
        convention_of(item.attrs@, features),
        safe_name(item.ident@),
        features,
        reg,
    )
}

/// Compiles one variant of a tagged union.
pub fn process_variant(
    rename_all: &Option<String>,
    tag_name: &str,
    item: &Variant,
    features: &Features,
    registry: &SchemaRegistry,
) -> (r: Result<VariantCode, SchemaError>)
    ensures
        match r {
            Ok(code) => compiled_variant(
                opt_text(*rename_all),
                tag_name@,
                *item,
                *features,
                registry@,
            ) == Ok::<VariantModel, ErrorModel>(code@),
            Err(e) => compiled_variant(
                opt_text(*rename_all),
                tag_name@,
                *item,
                *features,
                registry@,
            ) == Err::<VariantModel, ErrorModel>(e@),
        },
{
    let final_name = final_variant_name(rename_all, item, features);
    let no_fields: Vec<Field> = Vec::new();
    let fields = match &item.fields {
        Some(fields) => fields,
        None => &no_fields,
    };
    assert(fields@ =~= variant_fields(*item));
    let compiled = match process_fields(rename_all, fields, features, registry) {
        Ok(compiled) => compiled,
        Err(e) => {
            return Err(e);
        },
    };
    let discriminator_docs = format_doc_comment(&get_variant_docs(item), final_name.as_str());
    Ok(
        generate_variant_code(
            tag_name,
            final_name.as_str(),
            &compiled,
            discriminator_docs.as_str(),
            features,
        ),
    )
}

/// Compiles the variants of a tagged union, in order.
pub fn process_variants(
    rename_all: &Option<String>,
    tag_name: &str,
    variants: &Vec<Variant>,
    features: &Features,
    registry: &SchemaRegistry,
) -> (r: Result<Vec<VariantCode>, SchemaError>)
    ensures
        match r {
            Ok(codes) => compiled_variants(
                opt_text(*rename_all),
                tag_name@,
                variants@,
                *features,
                registry@,
            ) == Ok::<Seq<VariantModel>, ErrorModel>(variant_models(codes@)),
            Err(e) => compiled_variants(
                opt_text(*rename_all),
                tag_name@,
                variants@,
                *features,
                registry@,
            ) == Err::<Seq<VariantModel>, ErrorModel>(e@),
        },
{
    let mut codes: Vec<VariantCode> = Vec::new();
    let mut i: usize = 0;
    proof {
        assert(variant_models(codes@) =~= Seq::<VariantModel>::empty());
    }
    while i < variants.len()
        invariant
            i <= variants.len(),
            compiled_variants(
                opt_text(*rename_all),
                tag_name@,
                variants@.take(i as int),
                *features,
                registry@,
            ) == Ok::<Seq<VariantModel>, ErrorModel>(variant_models(codes@)),
        decreases variants.len() - i,
    {
        proof {
            assert(variants@.take(i + 1).drop_last() =~= variants@.take(i as int));
            assert(variants@.take(i + 1).last() == variants@[i as int]);
        }
        match process_variant(rename_all, tag_name, &variants[i], features, registry) {
            Ok(code) => {
                proof {
                    assert(variant_models(codes@.push(code)) =~= variant_models(codes@).push(code@));
                }
                codes.push(code);
            },
            Err(e) => {
                proof {
                    lemma_compiled_variants_prefix(
                        opt_text(*rename_all),
                        tag_name@,
                        variants@,
                        *features,
                        registry@,
                        i + 1,
                    );
                }
                return Err(e);
            },
        }
        i += 1;
    }
    assert(variants@.take(variants.len() as int) =~= variants@);
    Ok(codes)
}

/// Every compiled variant carries a schema where a JSON Schema is asked for.
pub open spec fn variants_have_schemas(vs: Seq<VariantModel>) -> bool {
    forall|i: int| 0 <= i < vs.len() ==> (#[trigger] vs[i]).json_schema is Some
}

/// The variants that compile carry a schema each where a JSON Schema is
/// asked for, and are as many as the variants declared.
pub proof fn lemma_compiled_variants_shape(
    rename_all: Option<Seq<char>>,
    tag: Seq<char>,
    variants: Seq<Variant>,
    features: Features,
    reg: Seq<EntryModel>,
)
    requires
        compiled_variants(rename_all, tag, variants, features, reg) is Ok,
    ensures
        compiled_variants(rename_all, tag, variants, features, reg)->Ok_0.len() == variants.len(),
        features.jsonschema ==> variants_have_schemas(
            compiled_variants(rename_all, tag, variants, features, reg)->Ok_0,
        ),
    decreases variants.len(),
{
    if variants.len() > 0 {
        lemma_compiled_variants_shape(rename_all, tag, variants.drop_last(), features, reg);
    }
}

/// The three lists that the declarations of a tagged union are made of.
fn split_variants(codes: Vec<VariantCode>) -> (r: (Vec<String>, Vec<String>, Vec<serde_json::Value>))
    ensures
        texts(r.0@) == variant_type_codes(variant_models(codes@)),
        texts(r.1@) == variant_validators(variant_models(codes@)),
        variants_have_schemas(variant_models(codes@)) ==> json_docs(r.2@) == variant_docs(
            variant_models(codes@),
        ),
{
    let ghost vs = variant_models(codes@);
    let mut codes = codes;
    let mut type_code_items: Vec<String> = Vec::new();
    let mut schema_code_items: Vec<String> = Vec::new();
    let mut json_schema_variants: Vec<serde_json::Value> = Vec::new();
    let n = codes.len();
    let mut i: usize = n;
    while i > 0
        invariant
            i <= n,
            n == vs.len(),
            codes.len() == i,
            variant_models(codes@) == vs.take(i as int),
            type_code_items.len() == n - i,
            schema_code_items.len() == n - i,
            forall|j: int|
                0 <= j < n - i ==> (#[trigger] type_code_items@[j])@ == vs[n - 1 - j].type_code,
            forall|j: int|
                0 <= j < n - i ==> (#[trigger] schema_code_items@[j])@ == "z.strictObject("@ + vs[n
                    - 1 - j].schema_code + ")"@,
            variants_have_schemas(vs) ==> json_schema_variants.len() == n - i,
            variants_have_schemas(vs) ==> forall|j: int|
                0 <= j < n - i ==> json_doc(#[trigger] json_schema_variants@[j]) == vs[n - 1
                    - j].json_schema->Some_0,
        decreases i,
    {
        let code = codes.pop().unwrap();
        proof {
            assert(code@ == vs.take(i as int)[i - 1]);
            assert(variant_models(codes@) =~= vs.take(i - 1));
        }
        let mut validator = String::from_str("z.strictObject(");
        validator.append(code.schema_code.as_str());
        validator.append(")");
        type_code_items.push(code.type_code);
        schema_code_items.push(validator);
        if let Some(json) = code.json_schema {
            json_schema_variants.push(json);
        }
        i -= 1;
    }
    let type_code_items = reversed(type_code_items);
    let schema_code_items = reversed(schema_code_items);
    let json_schema_variants = reversed(json_schema_variants);
    proof {
        assert(texts(type_code_items@) =~= variant_type_codes(vs));
        assert(texts(schema_code_items@) =~= variant_validators(vs));
        if variants_have_schemas(vs) {
            assert(json_docs(json_schema_variants@) =~= variant_docs(vs));
        }
    }
    (type_code_items, schema_code_items, json_schema_variants)
}

/// The items of a list in the opposite order.
fn reversed<T>(items: Vec<T>) -> (r: Vec<T>)
    ensures
        r@.len() == items@.len(),
        forall|j: int| 0 <= j < r@.len() ==> r@[j] == items@[items@.len() - 1 - j],
{
    let ghost all = items@;
    let mut items = items;
    let mut out: Vec<T> = Vec::new();
    while items.len() > 0
        invariant
            items@.len() + out@.len() == all.len(),
            items@ == all.take(items@.len() as int),
            forall|j: int| 0 <= j < out@.len() ==> out@[j] == all[all.len() - 1 - j],
        decreases items.len(),
    {
        let x = items.pop().unwrap();
        out.push(x);
    }
    out
}

/// Compiles a tagged union: one closed record per variant, in the order of
/// the variants, each led by the tag. Variants are not compared: two of one
/// final name are both emitted, and keeping them apart is the caller's part.
///
/// Succeeds exactly where every field of every variant compiles; else fails
/// with the failure of the first failing field.
pub fn process_discriminated_enum(
    item_enum: &ItemEnum,
    tag_name: &str,
    rename_all: &Option<String>,
    item_name: &str,
    features: &Features,
    registry: &SchemaRegistry,
) -> (r: Result<CompiledModel, SchemaError>)
    ensures
        match r {
            Ok(m) => union_result(
                *item_enum,
                tag_name@,
                opt_text(*rename_all),
                item_name@,
                *features,
                registry@,
            ) == Ok::<CompiledView, ErrorModel>(m@),
            Err(e) => union_result(
                *item_enum,
                tag_name@,
                opt_text(*rename_all),
                item_name@,
                *features,
                registry@,
            ) == Err::<CompiledView, ErrorModel>(e@),
        },
{
    let codes = match process_variants(rename_all, tag_name, &item_enum.variants, features, registry) {
        Ok(codes) => codes,
        Err(e) => {
            return Err(e.within(item_enum.ident.as_str()));
        },
    };
    let ghost vs = variant_models(codes@);
    proof {
        lemma_compiled_variants_shape(
            opt_text(*rename_all),
            tag_name@,
            item_enum.variants@,
            *features,
            registry@,
        );
    }
    let (type_code_items, schema_code_items, json_schema_variants) = split_variants(codes);
    let json_schema = if features.has_jsonschema() {
        Some(generate_discriminated_enum_json_schema_method(json_schema_variants))
    } else {
        None
    };
    let ts_definition = if features.has_typescript() {
        let pretty = quote_schema(&json_schema, features.has_zod());
        let docs = format_doc_comment(&get_enum_docs(item_enum), item_enum.ident.as_str());
        Some(
            generate_discriminated_enum_ts_definition_method(
                docs.as_str(),
                item_name,
                join(&type_code_items, " | ").as_str(),
                match &pretty {
                    Some(p) => Some(p.as_str()),
                    None => None,
                },
            ),
        )
    } else {
        None
    };
    let zod_schema = if features.has_zod() {
        let mut schema_code = String::from_str("z.discriminatedUnion(\"");
        schema_code.append(tag_name);
        schema_code.append("\", [");
        schema_code.append(join(&schema_code_items, ", ").as_str());
        schema_code.append("])");
        Some(
            generate_discriminated_enum_zod_schema_method(
                item_name,
                schema_code.as_str(),
                features.has_typescript(),
            ),
        )
    } else {
        None
    };
    let r = CompiledModel {
        name: String::from_str(item_name),
        declared_name: item_enum.ident.clone(),
        ts_definition,
        zod_schema,
        json_schema,
        enum_members: None,
        optional_fields: Vec::new(),
    };
    assert(r@.optional_fields =~= Seq::<Seq<char>>::empty());
    Ok(r)
}

/// What an enum compiles to: a plain enum where no variant carries fields,
/// else a tagged union.
pub open spec fn enum_outcome(item: ItemEnum, features: Features, reg: Seq<EntryModel>) -> Result<
    CompiledView,
    ErrorModel,
> {
    if plain_enum(item) {
        Ok(plain_enum_view(item, features))
    } else {
        union_outcome(item, features, reg)
    }
}

/// Compiles an enum.
pub fn process_enum(item_enum: &ItemEnum, features: &Features, registry: &SchemaRegistry) -> (r:
    Result<CompiledModel, SchemaError>)
    ensures
        match r {
            Ok(m) => enum_outcome(*item_enum, *features, registry@) == Ok::<
                CompiledView,
                ErrorModel,
            >(m@),
            Err(e) => enum_outcome(*item_enum, *features, registry@) == Err::<
                CompiledView,
                ErrorModel,
            >(e@),
        },
{
    let item_name = safe_type_name(item_enum.ident.as_str());
    let (tag, rename_all) = if features.has_serde() {
        let meta = parse_serde_type_attributes(item_enum.attrs.as_slice()).0;
        (meta.tag, meta.rename_all)
    } else {
        (None, None)
    };
    if is_plain_enum(item_enum) {
        Ok(process_plain_enum(item_enum, &rename_all, item_name.as_str(), features))
    } else {
        let tag_name = match tag {
            Some(tag) => tag,
            None => String::from_str("type"),
        };
        process_discriminated_enum(
            item_enum,
            tag_name.as_str(),
            &rename_all,
            item_name.as_str(),
            features,
            registry,
        )
    }
}

/// A declaration that is neither a record nor an enum.
pub open spec fn unsupported_target(what: Seq<char>) -> ErrorModel {
    ErrorModel {
        kind: ErrorKind::UnsupportedTarget,
        declaration: Seq::empty(),
        field: Seq::empty(),
        type_text: what,
    }
}

/// What a declaration compiles to.
pub open spec fn item_outcome(item: Item, features: Features, reg: Seq<EntryModel>) -> Result<
    CompiledView,
    ErrorModel,
> {
    match item {
        Item::Struct(item_struct) => struct_outcome(item_struct, features, reg),
        Item::Enum(item_enum) => enum_outcome(item_enum, features, reg),
        Item::Other(what) => Err(unsupported_target(what@)),
    }
}

/// Compiles a declaration: a record or an enum. Any other declaration is an
/// unsupported target.
pub fn exec_model_schema(item: &Item, features: &Features, registry: &SchemaRegistry) -> (r: Result<
    CompiledModel,
    SchemaError,
>)
    ensures
        match r {
            Ok(m) => item_outcome(*item, *features, registry@) == Ok::<CompiledView, ErrorModel>(
                m@,
            ),
            Err(e) => item_outcome(*item, *features, registry@) == Err::<CompiledView, ErrorModel>(
                e@,
            ),
        },
{
    match item {
        Item::Struct(item_struct) => process_struct(item_struct, features, registry),
        Item::Enum(item_enum) => process_enum(item_enum, features, registry),
        Item::Other(what) => Err(
            SchemaError {
                kind: ErrorKind::UnsupportedTarget,
                declaration: String::new(),
                field: String::new(),
                type_text: what.clone(),
            },
        ),
    }
}

/// The types that the schemas of a list of fields are taken from, field by
/// field; or the failure of the first field that does not resolve.
pub open spec fn fields_references(
    rename_all: Option<Seq<char>>,
    fields: Seq<Field>,
    features: Features,
) -> Result<Seq<ReferenceModel>, ErrorModel>
    decreases fields.len(),
{
    if fields.len() == 0 {
        Ok(Seq::empty())
    } else {
        match fields_references(rename_all, fields.drop_last(), features) {
            Err(e) => Err(e),
            Ok(found) => match field_outcome(rename_all, fields.last(), features) {
                Err(e) => Err(e),
                Ok(def) => Ok(found + field_references(def)),
            },
        }
    }
}

/// The types that the schemas of the variants' fields are taken from,
/// variant by variant; or the failure of the first field that does not
/// resolve.
pub open spec fn variants_references(
    rename_all: Option<Seq<char>>,
    variants: Seq<Variant>,
    features: Features,
) -> Result<Seq<ReferenceModel>, ErrorModel>
    decreases variants.len(),
{
    if variants.len() == 0 {
        Ok(Seq::empty())
    } else {
        match variants_references(rename_all, variants.drop_last(), features) {
            Err(e) => Err(e),
            Ok(found) => match fields_references(
                rename_all,
                variant_fields(variants.last()),
                features,
            ) {
                Err(e) => Err(e),
                Ok(more) => Ok(found + more),
            },
        }
    }
}

/// The types that must be registered for the schema of a declaration, in
/// the order in which its fields refer to them; or why a field does not
/// resolve.
pub open spec fn item_references(item: Item, features: Features) -> Result<
    Seq<ReferenceModel>,
    ErrorModel,
> {
    match item {
        Item::Struct(s) => match fields_references(
            convention_of(s.attrs@, features),
            s.fields@,
            features,
        ) {
            Ok(found) => Ok(found),
            Err(e) => Err(e.within(s.ident@)),
        },
        Item::Enum(e) => match variants_references(
            convention_of(e.attrs@, features),
            e.variants@,
            features,
        ) {
            Ok(found) => Ok(found),
            Err(err) => Err(err.within(e.ident@)),
        },
        Item::Other(what) => Err(unsupported_target(what@)),
    }
}

/// A failure among the first fields is the failure of the whole list.
pub proof fn lemma_fields_references_prefix(
    rename_all: Option<Seq<char>>,
    fields: Seq<Field>,
    features: Features,
    n: int,
)
    requires
        0 <= n <= fields.len(),
        fields_references(rename_all, fields.take(n), features) is Err,
    ensures
        fields_references(rename_all, fields, features) == fields_references(
            rename_all,
            fields.take(n),
            features,
        ),
    decreases fields.len() - n,
{
    if n < fields.len() {
        assert(fields.take(n + 1).drop_last() =~= fields.take(n));
        lemma_fields_references_prefix(rename_all, fields, features, n + 1);
    } else {
        assert(fields.take(n) =~= fields);
    }
}

/// A failure among the first variants is the failure of the whole list.
pub proof fn lemma_variants_references_prefix(
    rename_all: Option<Seq<char>>,
    variants: Seq<Variant>,
    features: Features,
    n: int,
)
    requires
        0 <= n <= variants.len(),
        variants_references(rename_all, variants.take(n), features) is Err,
    ensures
        variants_references(rename_all, variants, features) == variants_references(
            rename_all,
            variants.take(n),
            features,
        ),
    decreases variants.len() - n,
{
    if n < variants.len() {
        assert(variants.take(n + 1).drop_last() =~= variants.take(n));
        lemma_variants_references_prefix(rename_all, variants, features, n + 1);
    } else {
        assert(variants.take(n) =~= variants);
    }
}

/// Appends the references of a list of fields.
fn collect_references(
    out: &mut Vec<SchemaReference>,
    rename_all: &Option<String>,
    fields: &Vec<Field>,
    features: &Features,
) -> (r: Result<(), SchemaError>)
    ensures
        match r {
            Ok(_) => fields_references(opt_text(*rename_all), fields@, *features) is Ok
                && reference_models(final(out)@) == reference_models(old(out)@)
                + fields_references(opt_text(*rename_all), fields@, *features)->Ok_0,
            Err(e) => fields_references(opt_text(*rename_all), fields@, *features) == Err::<
                Seq<ReferenceModel>,
                ErrorModel,
            >(e@),
        },
{
    let ghost before = reference_models(out@);
    let mut i: usize = 0;
    proof {
        assert(before + Seq::<ReferenceModel>::empty() =~= before);
    }
    while i < fields.len()
        invariant
            i <= fields.len(),
            fields_references(opt_text(*rename_all), fields@.take(i as int), *features) is Ok,
            reference_models(out@) == before + fields_references(
                opt_text(*rename_all),
                fields@.take(i as int),
                *features,
            )->Ok_0,
        decreases fields.len() - i,
    {
        proof {
            assert(fields@.take(i + 1).drop_last() =~= fields@.take(i as int));
            assert(fields@.take(i + 1).last() == fields@[i as int]);
        }
        let def = match process_field(rename_all, &fields[i], features) {
            Ok(def) => def,
            Err(e) => {
                proof {
                    lemma_fields_references_prefix(
                        opt_text(*rename_all),
                        fields@,
                        *features,
                        i + 1,
                    );
                }
                return Err(e);
            },
        };
        let ghost so_far = fields_references(
            opt_text(*rename_all),
            fields@.take(i as int),
            *features,
        )->Ok_0;
        let mut found = schema_references(&def);
        let ghost added = reference_models(found@);
        let ghost start = reference_models(out@);
        // References are few: move them over from the back.
        let mut moved: Vec<SchemaReference> = Vec::new();
        while found.len() > 0
            invariant
                found@.len() + moved@.len() == added.len(),
                reference_models(found@) == added.take(found@.len() as int),
                forall|j: int|
                    0 <= j < moved@.len() ==> (#[trigger] moved@[j])@ == added[added.len() - 1
                        - j],
            decreases found.len(),
        {
            let ghost n = found@.len();
            let x = found.pop().unwrap();
            proof {
                assert(x@ == added.take(n as int)[n - 1]);
                assert(reference_models(found@) =~= added.take(n - 1));
            }
            moved.push(x);
        }
        let ghost mut done: int = 0;
        while moved.len() > 0
            invariant
                0 <= done <= added.len(),
                moved@.len() == added.len() - done,
                forall|j: int|
                    0 <= j < moved@.len() ==> (#[trigger] moved@[j])@ == added[added.len() - 1
                        - j],
                reference_models(out@) == start + added.take(done),
            decreases moved.len(),
        {
            let x = moved.pop().unwrap();
            proof {
                assert(x@ == added[done]);
                assert(reference_models(out@.push(x)) =~= reference_models(out@).push(x@));
                assert(start + added.take(done + 1) =~= (start + added.take(done)).push(
                    added[done],
                ));
                done = done + 1;
            }
            out.push(x);
        }
        proof {
            assert(added.take(done) =~= added);
            assert(before + so_far + added =~= before + (so_far + added));
        }
        i += 1;
    }
    assert(fields@.take(fields.len() as int) =~= fields@);
    Ok(())
}

/// The references of the fields of a list of variants.
fn collect_variant_references(
    rename_all: &Option<String>,
    variants: &Vec<Variant>,
    features: &Features,
) -> (r: Result<Vec<SchemaReference>, SchemaError>)
    ensures
        match r {
            Ok(found) => variants_references(opt_text(*rename_all), variants@, *features) == Ok::<
                Seq<ReferenceModel>,
                ErrorModel,
            >(reference_models(found@)),
            Err(e) => variants_references(opt_text(*rename_all), variants@, *features) == Err::<
                Seq<ReferenceModel>,
                ErrorModel,
            >(e@),
        },
{
    let mut out: Vec<SchemaReference> = Vec::new();
    assert(reference_models(out@) =~= Seq::<ReferenceModel>::empty());
    let mut i: usize = 0;
    while i < variants.len()
        invariant
            i <= variants.len(),
            variants_references(opt_text(*rename_all), variants@.take(i as int), *features)
                == Ok::<Seq<ReferenceModel>, ErrorModel>(reference_models(out@)),
        decreases variants.len() - i,
    {
        proof {
            assert(variants@.take(i + 1).drop_last() =~= variants@.take(i as int));
            assert(variants@.take(i + 1).last() == variants@[i as int]);
        }
        let no_fields: Vec<Field> = Vec::new();
        let fields = match &variants[i].fields {
            Some(fields) => fields,
            None => &no_fields,
        };
        assert(fields@ =~= variant_fields(variants@[i as int]));
        match collect_references(&mut out, rename_all, fields, features) {
            Ok(_) => {},
            Err(err) => {
                proof {
                    lemma_variants_references_prefix(
                        opt_text(*rename_all),
                        variants@,
                        *features,
                        i + 1,
                    );
                }
                return Err(err);
            },
        }
        i += 1;
    }
    assert(variants@.take(variants.len() as int) =~= variants@);
    Ok(out)
}

/// The types that must be registered before a declaration is compiled with
/// its schema. Fails exactly where a field does not resolve, or where the
/// declaration is neither a record nor an enum.
pub fn declaration_references(item: &Item, features: &Features) -> (r: Result<
    Vec<SchemaReference>,
    SchemaError,
>)
    ensures
        match r {
            Ok(found) => item_references(*item, *features) == Ok::<Seq<ReferenceModel>, ErrorModel>(
                reference_models(found@),
            ),
            Err(e) => item_references(*item, *features) == Err::<Seq<ReferenceModel>, ErrorModel>(
                e@,
            ),
        },
{
    match item {
        Item::Struct(s) => {
            let rename_all = if features.has_serde() {
                parse_serde_type_attributes(s.attrs.as_slice()).0.rename_all
            } else {
                None
            };
            let mut out: Vec<SchemaReference> = Vec::new();
            let ghost nothing = reference_models(out@);
            assert(nothing =~= Seq::<ReferenceModel>::empty());
            match collect_references(&mut out, &rename_all, &s.fields, features) {
                Ok(_) => {
                    proof {
                        let found = fields_references(
                            opt_text(rename_all),
                            s.fields@,
                            *features,
                        )->Ok_0;
                        assert(nothing + found =~= found);
                    }
                    Ok(out)
                },
                Err(e) => Err(e.within(s.ident.as_str())),
            }
        },
        Item::Enum(e) => {
            let rename_all = if features.has_serde() {
                parse_serde_type_attributes(e.attrs.as_slice()).0.rename_all
            } else {
                None
            };
            match collect_variant_references(&rename_all, &e.variants, features) {
                Ok(found) => Ok(found),
                Err(err) => Err(err.within(e.ident.as_str())),
            }
        },
        Item::Other(what) => Err(
            SchemaError {
                kind: ErrorKind::UnsupportedTarget,
                declaration: String::new(),
                field: String::new(),
                type_text: what.clone(),
            },
        ),
    }
}

} // verus!
