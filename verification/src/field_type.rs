//! The normalized type model and its two textual renderings.
//!
//! A [`FieldDef`] is a shape with two independent modifiers outside it, array
//! and optional. The static-type text and the validator text are both
//! functions of the model alone.

use crate::features::model_schema_prop::{MetaModel, ModelSchemaPropMeta};
use crate::error::{ErrorKind, ErrorModel, SchemaError};
use crate::features::zod::{zod_array_text, zod_optional_text};
use crate::features::Features;
use crate::syntax::TypeExpr;
use crate::text::{decimal, decimal_text, join, joined, same_text, texts};
use crate::utils::{safe_name, safe_type_name};
use vstd::prelude::*;
use vstd::string::*;

verus! {

/// The shape of a field, without its modifiers.
#[derive(Debug)]
pub enum FieldDefType {
    /// A shape that is not supported; rendered permissively.
    Unknown,
    /// A type known by name only, with its type arguments.
    SiblingType(String, Vec<FieldDef>),
    /// An associative container from keys to values.
    Mapping(Box<FieldDef>, Box<FieldDef>),
    /// A fixed sequence of elements of different types.
    Tuple(Vec<FieldDef>),
    Boolean,
    String,
    /// A string pinned to one value.
    StringLiteral(String),
    U8,
    U16,
    U32,
    U64,
    I8,
    I16,
    I32,
    I64,
    Usize,
    Isize,
    F32,
    F64,
    /// The identifier of a stored object: twenty-four hexadecimal digits in a
    /// one-field wrapper.
    ObjectId,
}

/// One field of a record, of a variant or of a container.
#[derive(Debug)]
pub struct FieldDef {
    pub is_optional: bool,
    /// The name under which the field is emitted.
    pub name: String,
    /// The comment lines emitted above the field.
    pub docs: String,
    pub field_type: FieldDefType,
    pub is_array: bool,
    pub array_num: Option<u16>,
    pub model_schema_prop_meta: Option<ModelSchemaPropMeta>,
}

/// What a [`FieldDefType`] holds.
pub ghost enum ShapeModel {
    Unknown,
    Reference(Seq<char>, Seq<FieldModel>),
    Dictionary(Box<FieldModel>, Box<FieldModel>),
    Tuple(Seq<FieldModel>),
    Boolean,
    Text,
    Literal(Seq<char>),
    U8,
    U16,
    U32,
    U64,
    I8,
    I16,
    I32,
    I64,
    Usize,
    Isize,
    F32,
    F64,
    OpaqueId,
}

/// What a [`FieldDef`] holds.
pub ghost struct FieldModel {
    pub is_optional: bool,
    pub name: Seq<char>,
    pub docs: Seq<char>,
    pub shape: ShapeModel,
    pub is_array: bool,
    pub array_num: Option<u16>,
    pub meta: Option<MetaModel>,
}

impl ShapeModel {
    /// One of the ten integer kinds.
    pub open spec fn is_integer(self) -> bool {
        self is U8 || self is U16 || self is U32 || self is U64 || self is I8 || self is I16
            || self is I32 || self is I64 || self is Usize || self is Isize
    }

    /// One of the two floating-point kinds.
    pub open spec fn is_float(self) -> bool {
        self is F32 || self is F64
    }
}

/// The model of a field.
pub open spec fn field_model(f: FieldDef) -> FieldModel
    decreases f,
{
    FieldModel {
        is_optional: f.is_optional,
        name: f.name@,
        docs: f.docs@,
        shape: shape_model(f.field_type),
        is_array: f.is_array,
        array_num: f.array_num,
        meta: match f.model_schema_prop_meta {
            Some(m) => Some(m@),
            None => None,
        },
    }
}

/// The model of a shape.
pub open spec fn shape_model(t: FieldDefType) -> ShapeModel
    decreases t,
{
    match t {
        FieldDefType::Unknown => ShapeModel::Unknown,
        FieldDefType::SiblingType(name, args) => ShapeModel::Reference(
            name@,
            Seq::new(
                args@.len(),
                |i: int|
                    if 0 <= i < args@.len() {
                        field_model(args@[i])
                    } else {
                        arbitrary()
                    },
            ),
        ),
        FieldDefType::Mapping(k, v) => ShapeModel::Dictionary(
            Box::new(field_model(*k)),
            Box::new(field_model(*v)),
        ),
        FieldDefType::Tuple(elements) => ShapeModel::Tuple(
            Seq::new(
                elements@.len(),
                |i: int|
                    if 0 <= i < elements@.len() {
                        field_model(elements@[i])
                    } else {
                        arbitrary()
                    },
            ),
        ),
        FieldDefType::Boolean => ShapeModel::Boolean,
        FieldDefType::String => ShapeModel::Text,
        FieldDefType::StringLiteral(value) => ShapeModel::Literal(value@),
        FieldDefType::U8 => ShapeModel::U8,
        FieldDefType::U16 => ShapeModel::U16,
        FieldDefType::U32 => ShapeModel::U32,
        FieldDefType::U64 => ShapeModel::U64,
        FieldDefType::I8 => ShapeModel::I8,
        FieldDefType::I16 => ShapeModel::I16,
        FieldDefType::I32 => ShapeModel::I32,
        FieldDefType::I64 => ShapeModel::I64,
        FieldDefType::Usize => ShapeModel::Usize,
        FieldDefType::Isize => ShapeModel::Isize,
        FieldDefType::F32 => ShapeModel::F32,
        FieldDefType::F64 => ShapeModel::F64,
        FieldDefType::ObjectId => ShapeModel::OpaqueId,
    }
}

/// The models of a list of fields.
pub open spec fn field_models(fields: Seq<FieldDef>) -> Seq<FieldModel> {
    Seq::new(fields.len(), |i: int| field_model(fields[i]))
}

impl View for FieldDef {
    type V = FieldModel;

    open spec fn view(&self) -> FieldModel {
        field_model(*self)
    }
}

impl View for FieldDefType {
    type V = ShapeModel;

    open spec fn view(&self) -> ShapeModel {
        shape_model(*self)
    }
}

/// The arguments of a reference and the elements of a tuple are modelled one
/// by one.
pub proof fn lemma_shape_children(t: FieldDefType)
    ensures
        match t {
            FieldDefType::SiblingType(_, args) => t@->Reference_1 == field_models(args@),
            FieldDefType::Tuple(elements) => t@->Tuple_0 == field_models(elements@),
            _ => true,
        },
{
    match t {
        FieldDefType::SiblingType(_, args) => {
            assert(t@->Reference_1 =~= field_models(args@));
        },
        FieldDefType::Tuple(elements) => {
            assert(t@->Tuple_0 =~= field_models(elements@));
        },
        _ => {},
    }
}

/// A copy of a list of fields.
fn clone_fields(fields: &Vec<FieldDef>) -> (r: Vec<FieldDef>)
    ensures
        field_models(r@) == field_models(fields@),
    decreases fields,
{
    let mut out: Vec<FieldDef> = Vec::new();
    let mut i: usize = 0;
    while i < fields.len()
        invariant
            i <= fields.len(),
            out.len() == i,
            forall|j: int| 0 <= j < i ==> (#[trigger] out@[j])@ == fields@[j]@,
        decreases fields.len() - i,
    {
        out.push(clone_field(&fields[i]));
        i += 1;
    }
    assert(field_models(out@) =~= field_models(fields@));
    out
}

/// A copy of a shape.
fn clone_shape(t: &FieldDefType) -> (r: FieldDefType)
    ensures
        r@ == t@,
    decreases t,
{
    let r = match t {
        FieldDefType::Unknown => FieldDefType::Unknown,
        FieldDefType::SiblingType(name, args) => FieldDefType::SiblingType(
            name.clone(),
            clone_fields(args),
        ),
        FieldDefType::Mapping(k, v) => FieldDefType::Mapping(
            Box::new(clone_field(k)),
            Box::new(clone_field(v)),
        ),
        FieldDefType::Tuple(elements) => FieldDefType::Tuple(clone_fields(elements)),
        FieldDefType::Boolean => FieldDefType::Boolean,
        FieldDefType::String => FieldDefType::String,
        FieldDefType::StringLiteral(value) => FieldDefType::StringLiteral(value.clone()),
        FieldDefType::U8 => FieldDefType::U8,
        FieldDefType::U16 => FieldDefType::U16,
        FieldDefType::U32 => FieldDefType::U32,
        FieldDefType::U64 => FieldDefType::U64,
        FieldDefType::I8 => FieldDefType::I8,
        FieldDefType::I16 => FieldDefType::I16,
        FieldDefType::I32 => FieldDefType::I32,
        FieldDefType::I64 => FieldDefType::I64,
        FieldDefType::Usize => FieldDefType::Usize,
        FieldDefType::Isize => FieldDefType::Isize,
        FieldDefType::F32 => FieldDefType::F32,
        FieldDefType::F64 => FieldDefType::F64,
        FieldDefType::ObjectId => FieldDefType::ObjectId,
    };
    proof {
        lemma_shape_children(*t);
        lemma_shape_children(r);
    }
    r
}

/// A copy of a field.
fn clone_field(f: &FieldDef) -> (r: FieldDef)
    ensures
        r@ == f@,
    decreases f,
{
    FieldDef {
        is_optional: f.is_optional,
        name: f.name.clone(),
        docs: f.docs.clone(),
        field_type: clone_shape(&f.field_type),
        is_array: f.is_array,
        array_num: f.array_num,
        model_schema_prop_meta: match &f.model_schema_prop_meta {
            Some(meta) => Some(meta.clone()),
            None => None,
        },
    }
}

impl Clone for FieldDef {
    fn clone(&self) -> (r: Self)
        ensures
            r@ == self@,
    {
        clone_field(self)
    }
}

impl Clone for FieldDefType {
    fn clone(&self) -> (r: Self)
        ensures
            r@ == self@,
    {
        clone_shape(self)
    }
}

/// The static type of an array whose elements have type `inner`.
pub open spec fn ts_array_text(inner: Seq<char>) -> Seq<char> {
    "Array<"@ + inner + ">"@
}

/// The static type of a value of type `inner` that may be absent.
pub open spec fn ts_optional_text(inner: Seq<char>) -> Seq<char> {
    inner + " | undefined"@
}

/// The modifiers, applied to the text of a shape: the array first, the
/// optional outermost.
pub open spec fn ts_wrapped(f: FieldModel, base: Seq<char>) -> Seq<char> {
    let inner = if f.is_array {
        ts_array_text(base)
    } else {
        base
    };
    if f.is_optional {
        ts_optional_text(inner)
    } else {
        inner
    }
}

/// The static type of a field.
pub open spec fn ts_type(f: FieldModel) -> Seq<char>
    decreases f, 1nat,
{
    ts_wrapped(f, ts_shape(f))
}

/// The static type of a field's shape, without the modifiers.
pub open spec fn ts_shape(f: FieldModel) -> Seq<char>
    decreases f, 0nat,
{
    match f.shape {
        ShapeModel::Unknown => "unknown"@,
        ShapeModel::Tuple(elements) => "{ "@ + joined(
            named_parts(elements, ts_types(elements)),
            "; "@,
        ) + " }"@,
        ShapeModel::Reference(name, args) => if args.len() == 0 {
            name
        } else {
            name + "<"@ + joined(ts_types(args), ", "@) + ">"@
        },
        ShapeModel::Dictionary(k, v) => "Partial<Record<"@ + ts_type(*k) + ", "@ + ts_type(*v)
            + ">>"@,
        ShapeModel::Boolean => "boolean"@,
        ShapeModel::Text => "string"@,
        ShapeModel::Literal(value) => "\""@ + value + "\""@,
        ShapeModel::OpaqueId => object_id_ts_text(),
        _ => "number"@,
    }
}

/// The static types of a list of fields.
pub open spec fn ts_types(fields: Seq<FieldModel>) -> Seq<Seq<char>>
    decreases fields,
{
    if fields.len() == 0 {
        Seq::empty()
    } else {
        ts_types(fields.drop_last()).push(ts_type(fields.last()))
    }
}

/// `name: text` for each field, with the texts given beside the fields.
pub open spec fn named_parts(fields: Seq<FieldModel>, rendered: Seq<Seq<char>>) -> Seq<Seq<char>> {
    Seq::new(fields.len(), |i: int| fields[i].name + ": "@ + rendered[i])
}

/// The static type of the identifier of a stored object: a wrapper with the
/// one field `$oid`, a string.
pub open spec fn object_id_ts_text() -> Seq<char> {
    "{ $oid: string }"@
}

/// The validator of the identifier of a stored object.
pub open spec fn object_id_zod_text() -> Seq<char> {
    "z.object({ $oid: z.string().regex(/^[a-f\\d]{24}$/i, { message: \"Invalid ObjectId\" }) })"@
}

/// The modifiers, applied to the validator of a shape: the array first, the
/// optional outermost.
pub open spec fn zod_wrapped(f: FieldModel, base: Seq<char>) -> Seq<char> {
    let inner = if f.is_array {
        zod_array_text(base)
    } else {
        base
    };
    if f.is_optional {
        zod_optional_text(inner)
    } else {
        inner
    }
}

/// The minimum length that applies to a field: the one of its overrides.
pub open spec fn min_length_of(f: FieldModel) -> Option<nat> {
    match f.meta {
        Some(m) => m.min_length,
        None => None,
    }
}

/// The validator of a string, with its minimum length where it has one.
pub open spec fn zod_string_text(min_length: Option<nat>) -> Seq<char> {
    match min_length {
        Some(n) => "z.string()"@ + ".min("@ + decimal_text(n) + ")"@,
        None => "z.string()"@,
    }
}

/// The validator of a field.
pub open spec fn zod_text(f: FieldModel) -> Seq<char>
    decreases f, 1nat,
{
    zod_wrapped(f, zod_shape(f))
}

/// The validator of a field's shape, without the modifiers.
pub open spec fn zod_shape(f: FieldModel) -> Seq<char>
    decreases f, 0nat,
{
    match f.shape {
        ShapeModel::Unknown => "z.unknown()"@,
        ShapeModel::Tuple(elements) => "{ "@ + joined(
            named_parts(elements, zod_texts(elements)),
            "; "@,
        ) + " }"@,
        ShapeModel::Reference(name, args) => if args.len() == 0 {
            name + "$Schema"@
        } else {
            name + "<"@ + joined(ts_types(args), ", "@) + ">"@
        },
        ShapeModel::Dictionary(k, v) => "z.record("@ + zod_text(*k) + ", "@ + zod_text(*v) + ")"@,
        ShapeModel::Boolean => "z.boolean()"@,
        ShapeModel::Text => zod_string_text(min_length_of(f)),
        ShapeModel::Literal(value) => "z.literal(\""@ + value + "\")"@,
        ShapeModel::OpaqueId => object_id_zod_text(),
        ShapeModel::F32 | ShapeModel::F64 => "z.number()"@,
        _ => "z.number().int()"@,
    }
}

/// The validators of a list of fields.
pub open spec fn zod_texts(fields: Seq<FieldModel>) -> Seq<Seq<char>>
    decreases fields,
{
    if fields.len() == 0 {
        Seq::empty()
    } else {
        zod_texts(fields.drop_last()).push(zod_text(fields.last()))
    }
}

/// `name: text` for each field of `fields`, with its text taken from
/// `rendered`.
fn name_parts(fields: &Vec<FieldDef>, rendered: &Vec<String>) -> (r: Vec<String>)
    requires
        rendered.len() == fields.len(),
    ensures
        texts(r@) == named_parts(field_models(fields@), texts(rendered@)),
{
    let mut out: Vec<String> = Vec::new();
    let mut i: usize = 0;
    while i < fields.len()
        invariant
            i <= fields.len(),
            rendered.len() == fields.len(),
            out.len() == i,
            forall|j: int|
                0 <= j < i ==> (#[trigger] out@[j])@ == fields@[j].name@ + ": "@ + rendered@[j]@,
        decreases fields.len() - i,
    {
        let mut part = fields[i].name.clone();
        part.append(": ");
        part.append(rendered[i].as_str());
        out.push(part);
        i += 1;
    }
    assert(texts(out@) =~= named_parts(field_models(fields@), texts(rendered@)));
    out
}

/// Applies the array and optional modifiers of `f` to the static type `base`.
fn wrap_ts(f: &FieldDef, base: String) -> (r: String)
    ensures
        r@ == ts_wrapped(f@, base@),
{
    let inner = if f.is_array {
        let mut out = String::from_str("Array<");
        out.append(base.as_str());
        out.append(">");
        out
    } else {
        base
    };
    if f.is_optional {
        let mut out = inner;
        out.append(" | undefined");
        out
    } else {
        inner
    }
}

/// Applies the array and optional modifiers of `f` to the validator `base`.
fn wrap_zod(f: &FieldDef, base: String) -> (r: String)
    ensures
        r@ == zod_wrapped(f@, base@),
{
    let inner = crate::features::zod::wrap_with_array_if_needed(base.as_str(), f.is_array);
    crate::features::zod::wrap_with_optional_if_needed(inner.as_str(), f.is_optional)
}

/// The static types of `fields`, in order.
fn typescript_typenames(fields: &Vec<FieldDef>) -> (r: Vec<String>)
    ensures
        texts(r@) == ts_types(field_models(fields@)),
        r.len() == fields.len(),
    decreases fields,
{
    let mut out: Vec<String> = Vec::new();
    let mut i: usize = 0;
    while i < fields.len()
        invariant
            i <= fields.len(),
            out.len() == i,
            texts(out@) == ts_types(field_models(fields@).take(i as int)),
        decreases fields.len() - i,
    {
        let t = fields[i].typescript_typename();
        proof {
            let m = field_models(fields@);
            assert(m.take(i + 1).drop_last() =~= m.take(i as int));
            assert(m.take(i + 1).last() == fields@[i as int]@);
            assert(texts(out@.push(t)) =~= texts(out@).push(t@));
        }
        out.push(t);
        i += 1;
    }
    assert(field_models(fields@).take(fields.len() as int) =~= field_models(fields@));
    out
}

/// The validators of `fields`, in order.
fn zod_types(fields: &Vec<FieldDef>) -> (r: Vec<String>)
    ensures
        texts(r@) == zod_texts(field_models(fields@)),
        r.len() == fields.len(),
    decreases fields,
{
    let mut out: Vec<String> = Vec::new();
    let mut i: usize = 0;
    while i < fields.len()
        invariant
            i <= fields.len(),
            out.len() == i,
            texts(out@) == zod_texts(field_models(fields@).take(i as int)),
        decreases fields.len() - i,
    {
        let t = fields[i].zod_type();
        proof {
            let m = field_models(fields@);
            assert(m.take(i + 1).drop_last() =~= m.take(i as int));
            assert(m.take(i + 1).last() == fields@[i as int]@);
            assert(texts(out@.push(t)) =~= texts(out@).push(t@));
        }
        out.push(t);
        i += 1;
    }
    assert(field_models(fields@).take(fields.len() as int) =~= field_models(fields@));
    out
}

impl FieldDef {
    /// The static type of the field: the text of its shape, wrapped in
    /// `Array<..>` where it is an array, then followed by ` | undefined`
    /// where it is optional.
    pub fn typescript_typename(&self) -> (r: String)
        ensures
            r@ == ts_type(self@),
        decreases self,
    {
        proof {
            lemma_shape_children(self.field_type);
        }
        let base = match &self.field_type {
            FieldDefType::Unknown => String::from_str("unknown"),
            FieldDefType::Tuple(elements) => {
                let rendered = typescript_typenames(elements);
                let parts = name_parts(elements, &rendered);
                let mut out = String::from_str("{ ");
                out.append(join(&parts, "; ").as_str());
                out.append(" }");
                out
            },
            FieldDefType::SiblingType(name, args) => {
                if args.len() == 0 {
                    name.clone()
                } else {
                    let rendered = typescript_typenames(args);
                    let mut out = name.clone();
                    out.append("<");
                    out.append(join(&rendered, ", ").as_str());
                    out.append(">");
                    out
                }
            },
            FieldDefType::Mapping(k, v) => {
                let mut out = String::from_str("Partial<Record<");
                out.append(k.typescript_typename().as_str());
                out.append(", ");
                out.append(v.typescript_typename().as_str());
                out.append(">>");
                out
            },
            FieldDefType::Boolean => String::from_str("boolean"),
            FieldDefType::String => String::from_str("string"),
            FieldDefType::StringLiteral(value) => {
                let mut out = String::from_str("\"");
                out.append(value.as_str());
                out.append("\"");
                out
            },
            FieldDefType::ObjectId => crate::features::object_id::get_object_id_typescript_type(),
            _ => String::from_str("number"),
        };
        wrap_ts(self, base)
    }

    /// The validator of the field: the validator of its shape, wrapped in
    /// `z.array(..)` where it is an array, then followed by
    /// `.or(z.undefined())` where it is optional. A string with a minimum
    /// length carries `.min(n)` inside both.
    pub fn zod_type(&self) -> (r: String)
        ensures
            r@ == zod_text(self@),
        decreases self,
    {
        proof {
            lemma_shape_children(self.field_type);
        }
        let base = match &self.field_type {
            FieldDefType::Unknown => String::from_str("z.unknown()"),
            FieldDefType::Tuple(elements) => {
                let rendered = zod_types(elements);
                let parts = name_parts(elements, &rendered);
                let mut out = String::from_str("{ ");
                out.append(join(&parts, "; ").as_str());
                out.append(" }");
                out
            },
            FieldDefType::SiblingType(name, args) => {
                if args.len() == 0 {
                    let mut out = name.clone();
                    out.append("$Schema");
                    out
                } else {
                    let rendered = typescript_typenames(args);
                    let mut out = name.clone();
                    out.append("<");
                    out.append(join(&rendered, ", ").as_str());
                    out.append(">");
                    out
                }
            },
            FieldDefType::Mapping(k, v) => {
                let mut out = String::from_str("z.record(");
                out.append(k.zod_type().as_str());
                out.append(", ");
                out.append(v.zod_type().as_str());
                out.append(")");
                out
            },
            FieldDefType::Boolean => String::from_str("z.boolean()"),
            FieldDefType::String => {
                let mut out = String::from_str("z.string()");
                if let Some(meta) = &self.model_schema_prop_meta {
                    if let Some(min_len) = meta.min_length {
                        out.append(".min(");
                        out.append(decimal(min_len).as_str());
                        out.append(")");
                    }
                }
                out
            },
            FieldDefType::StringLiteral(value) => {
                let mut out = String::from_str("z.literal(\"");
                out.append(value.as_str());
                out.append("\")");
                out
            },
            FieldDefType::ObjectId => crate::features::object_id::get_object_id_zod_schema(),
            FieldDefType::F32 | FieldDefType::F64 => String::from_str("z.number()"),
            _ => String::from_str("z.number().int()"),
        };
        wrap_zod(self, base)
    }
}

/// The shape that a bare type name stands for: a scalar by its fixed name,
/// the identifier of a stored object by its exact name where `object_id`
/// holds, else the type of that name, without the suffix `Json` where it has
/// one.
pub open spec fn named_shape(name: Seq<char>, object_id: bool) -> ShapeModel {
    if name == "bool"@ {
        ShapeModel::Boolean
    } else if name == "String"@ {
        ShapeModel::Text
    } else if name == "u8"@ {
        ShapeModel::U8
    } else if name == "u16"@ {
        ShapeModel::U16
    } else if name == "u32"@ {
        ShapeModel::U32
    } else if name == "u64"@ {
        ShapeModel::U64
    } else if name == "i8"@ {
        ShapeModel::I8
    } else if name == "i16"@ {
        ShapeModel::I16
    } else if name == "i32"@ {
        ShapeModel::I32
    } else if name == "i64"@ {
        ShapeModel::I64
    } else if name == "usize"@ {
        ShapeModel::Usize
    } else if name == "isize"@ {
        ShapeModel::Isize
    } else if name == "f32"@ {
        ShapeModel::F32
    } else if name == "f64"@ {
        ShapeModel::F64
    } else if name == "ObjectId"@ {
        if object_id {
            ShapeModel::OpaqueId
        } else {
            ShapeModel::Reference(name, Seq::empty())
        }
    } else {
        ShapeModel::Reference(safe_name(name), Seq::empty())
    }
}

/// A field of the given shape without modifiers or overrides.
pub open spec fn plain_field(name: Seq<char>, docs: Seq<char>, shape: ShapeModel) -> FieldModel {
    FieldModel {
        is_optional: false,
        name: safe_name(name),
        docs,
        shape,
        is_array: false,
        array_num: None,
        meta: None,
    }
}

/// The name of the element of a tuple at position `i`.
pub open spec fn element_name(i: nat) -> Seq<char> {
    "element_"@ + decimal_text(i)
}

/// The field that a written type resolves to.
///
/// - `Option<T>` is `T` made optional and `Vec<T>` is `T` made an array,
///   under the name of the field; whatever else `T` resolved to stays.
/// - `HashMap<K, V>` is a map from `K` to `V`.
/// - Any other path with type arguments is the type of that name with those
///   arguments; a path whose arguments hold no type is the type of that name.
/// - A path without arguments follows [`named_shape`].
/// - A reference is what it refers to; an array and a slice are their element
///   made an array; a tuple is the tuple of its elements, named by position.
/// - Anything else is unknown.
pub open spec fn resolved(name: Seq<char>, ty: TypeExpr, docs: Seq<char>, object_id: bool) -> FieldModel
    decreases ty,
{
    match ty {
        TypeExpr::Named(ident) => plain_field(name, docs, named_shape(ident@, object_id)),
        TypeExpr::Generic(ident, args) => {
            let inner = resolved_args(args@, object_id);
            if inner.len() == 0 {
                plain_field(name, docs, ShapeModel::Reference(ident@, Seq::empty()))
            } else if inner.len() == 1 && ident@ == "Option"@ {
                FieldModel { name: safe_name(name), is_optional: true, ..inner[0] }
            } else if inner.len() == 1 && ident@ == "Vec"@ {
                FieldModel { name: safe_name(name), is_array: true, ..inner[0] }
            } else if inner.len() == 2 && ident@ == "HashMap"@ {
                plain_field(
                    name,
                    docs,
                    ShapeModel::Dictionary(Box::new(inner[0]), Box::new(inner[1])),
                )
            } else {
                plain_field(name, docs, ShapeModel::Reference(ident@, inner))
            }
        },
        TypeExpr::Callable(_) => plain_field(name, docs, ShapeModel::Unknown),
        TypeExpr::Ref(inner) => resolved(name, *inner, docs, object_id),
        TypeExpr::Array(inner) | TypeExpr::Slice(inner) => FieldModel {
            is_array: true,
            array_num: None,
            ..resolved(name, *inner, docs, object_id)
        },
        TypeExpr::Tuple(elements) => plain_field(
            name,
            docs,
            ShapeModel::Tuple(resolved_elements(elements@, docs, object_id)),
        ),
        TypeExpr::Other => plain_field(name, docs, ShapeModel::Unknown),
    }
}

/// The fields that type arguments resolve to: each without a name and
/// without documentation.
pub open spec fn resolved_args(args: Seq<TypeExpr>, object_id: bool) -> Seq<FieldModel>
    decreases args,
{
    if args.len() == 0 {
        Seq::empty()
    } else {
        resolved_args(args.drop_last(), object_id).push(
            resolved(Seq::empty(), args.last(), Seq::empty(), object_id),
        )
    }
}

/// The fields that the elements of a tuple resolve to: each named by its
/// position, with the documentation of the tuple.
pub open spec fn resolved_elements(elements: Seq<TypeExpr>, docs: Seq<char>, object_id: bool) -> Seq<
    FieldModel,
>
    decreases elements,
{
    if elements.len() == 0 {
        Seq::empty()
    } else {
        resolved_elements(elements.drop_last(), docs, object_id).push(
            resolved(
                element_name((elements.len() - 1) as nat),
                elements.last(),
                docs,
                object_id,
            ),
        )
    }
}

/// The first type in `ty`, in reading order, that is outside the supported
/// shapes: a path with arguments in parentheses. None where `ty` resolves.
pub open spec fn first_unsupported(ty: TypeExpr) -> Option<Seq<char>>
    decreases ty,
{
    match ty {
        TypeExpr::Generic(_, args) => first_unsupported_in(args@),
        TypeExpr::Callable(ident) => Some(ident@),
        TypeExpr::Ref(inner) | TypeExpr::Array(inner) | TypeExpr::Slice(inner) => first_unsupported(
            *inner,
        ),
        TypeExpr::Tuple(elements) => first_unsupported_in(elements@),
        _ => None,
    }
}

/// The first unsupported type in a list of types.
pub open spec fn first_unsupported_in(types: Seq<TypeExpr>) -> Option<Seq<char>>
    decreases types,
{
    if types.len() == 0 {
        None
    } else {
        match first_unsupported_in(types.drop_last()) {
            Some(t) => Some(t),
            None => first_unsupported(types.last()),
        }
    }
}

/// What resolving a written type gives: the field, or the unsupported type
/// that stops it, reported for the field.
pub open spec fn resolution(name: Seq<char>, ty: TypeExpr, docs: Seq<char>, object_id: bool) -> Result<
    FieldModel,
    ErrorModel,
> {
    match first_unsupported(ty) {
        Some(t) => Err(ErrorModel::at_field(ErrorKind::UnsupportedShape, safe_name(name), t)),
        None => Ok(resolved(name, ty, docs, object_id)),
    }
}

/// The shape that a bare type name stands for.
pub fn get_field_def_type_or_sibling(t_name: &str, features: &Features) -> (r: FieldDefType)
    ensures
        r@ == named_shape(t_name@, features.object_id),
{
    let r = if same_text(t_name, "bool") {
        FieldDefType::Boolean
    } else if same_text(t_name, "String") {
        FieldDefType::String
    } else if same_text(t_name, "u8") {
        FieldDefType::U8
    } else if same_text(t_name, "u16") {
        FieldDefType::U16
    } else if same_text(t_name, "u32") {
        FieldDefType::U32
    } else if same_text(t_name, "u64") {
        FieldDefType::U64
    } else if same_text(t_name, "i8") {
        FieldDefType::I8
    } else if same_text(t_name, "i16") {
        FieldDefType::I16
    } else if same_text(t_name, "i32") {
        FieldDefType::I32
    } else if same_text(t_name, "i64") {
        FieldDefType::I64
    } else if same_text(t_name, "usize") {
        FieldDefType::Usize
    } else if same_text(t_name, "isize") {
        FieldDefType::Isize
    } else if same_text(t_name, "f32") {
        FieldDefType::F32
    } else if same_text(t_name, "f64") {
        FieldDefType::F64
    } else if crate::features::object_id::should_handle_as_object_id(t_name) {
        if features.has_object_id() {
            crate::features::object_id::get_object_id_field_type()
        } else {
            FieldDefType::SiblingType(String::from_str(t_name), Vec::new())
        }
    } else {
        FieldDefType::SiblingType(safe_type_name(t_name), Vec::new())
    };
    proof {
        lemma_shape_children(r);
        if r is SiblingType {
            assert(r@->Reference_1 =~= Seq::<FieldModel>::empty());
        }
    }
    r
}

/// A field of the given shape without modifiers or overrides.
fn plain(name: &str, docs: &str, field_type: FieldDefType) -> (r: FieldDef)
    ensures
        r@ == plain_field(name@, docs@, field_type@),
{
    FieldDef {
        is_optional: false,
        name: safe_type_name(name),
        docs: String::from_str(docs),
        field_type,
        is_array: false,
        array_num: None,
        model_schema_prop_meta: None,
    }
}

/// Resolves the arguments of a generic type, in order.
fn get_arg_defs(args: &Vec<TypeExpr>, features: &Features) -> (r: Result<Vec<FieldDef>, SchemaError>)
    ensures
        match r {
            Ok(defs) => first_unsupported_in(args@) is None && field_models(defs@)
                == resolved_args(args@, features.object_id),
            Err(e) => first_unsupported_in(args@) is Some && e@ == ErrorModel::at_field(
                ErrorKind::UnsupportedShape,
                Seq::empty(),
                first_unsupported_in(args@)->Some_0,
            ),
        },
    decreases args,
{
    let mut out: Vec<FieldDef> = Vec::new();
    let mut i: usize = 0;
    while i < args.len()
        invariant
            i <= args.len(),
            out.len() == i,
            first_unsupported_in(args@.take(i as int)) is None,
            field_models(out@) == resolved_args(args@.take(i as int), features.object_id),
        decreases args.len() - i,
    {
        proof {
            assert(args@.take(i + 1).drop_last() =~= args@.take(i as int));
            assert(args@.take(i + 1).last() == args@[i as int]);
        }
        match get_field_def("", &args[i], "", features) {
            Ok(def) => {
                proof {
                    assert(safe_name(""@) =~= Seq::<char>::empty()) by {
                        reveal_strlit("");
                        reveal_strlit("Json");
                    }
                    assert(""@ =~= Seq::<char>::empty()) by {
                        reveal_strlit("");
                    }
                    assert(field_models(out@.push(def)) =~= field_models(out@).push(def@));
                }
                out.push(def);
            },
            Err(e) => {
                proof {
                    assert(safe_name(""@) =~= Seq::<char>::empty()) by {
                        reveal_strlit("");
                        reveal_strlit("Json");
                    }
                    lemma_first_unsupported_prefix(args@, i + 1);
                }
                return Err(e);
            },
        }
        i += 1;
    }
    assert(args@.take(args.len() as int) =~= args@);
    Ok(out)
}

/// An unsupported type found in a prefix of a list is the first of the list.
pub proof fn lemma_first_unsupported_prefix(types: Seq<TypeExpr>, n: int)
    requires
        0 <= n <= types.len(),
        first_unsupported_in(types.take(n)) is Some,
    ensures
        first_unsupported_in(types) == first_unsupported_in(types.take(n)),
    decreases types.len() - n,
{
    if n < types.len() {
        assert(types.take(n + 1).drop_last() =~= types.take(n));
        lemma_first_unsupported_prefix(types, n + 1);
    } else {
        assert(types.take(n) =~= types);
    }
}

/// Resolves the elements of a tuple, in order.
fn get_element_defs(elements: &Vec<TypeExpr>, docs: &str, features: &Features) -> (r: Result<
    Vec<FieldDef>,
    SchemaError,
>)
    ensures
        match r {
            Ok(defs) => first_unsupported_in(elements@) is None && field_models(defs@)
                == resolved_elements(elements@, docs@, features.object_id),
            Err(e) => first_unsupported_in(elements@) is Some && e.kind
                == ErrorKind::UnsupportedShape && e@.type_text == first_unsupported_in(
                elements@,
            )->Some_0,
        },
    decreases elements,
{
    let mut out: Vec<FieldDef> = Vec::new();
    let mut i: usize = 0;
    while i < elements.len()
        invariant
            i <= elements.len(),
            out.len() == i,
            first_unsupported_in(elements@.take(i as int)) is None,
            field_models(out@) == resolved_elements(
                elements@.take(i as int),
                docs@,
                features.object_id,
            ),
        decreases elements.len() - i,
    {
        proof {
            assert(elements@.take(i + 1).drop_last() =~= elements@.take(i as int));
            assert(elements@.take(i + 1).last() == elements@[i as int]);
        }
        let mut name = String::from_str("element_");
        name.append(decimal(i).as_str());
        match get_field_def(name.as_str(), &elements[i], docs, features) {
            Ok(def) => {
                proof {
                    assert(field_models(out@.push(def)) =~= field_models(out@).push(def@));
                }
                out.push(def);
            },
            Err(e) => {
                proof {
                    lemma_first_unsupported_prefix(elements@, i + 1);
                }
                return Err(e);
            },
        }
        i += 1;
    }
    assert(elements@.take(elements.len() as int) =~= elements@);
    Ok(out)
}

/// Resolves a written type into a field named `name` and documented by
/// `field_docs`. Fails exactly where the type holds an unsupported one, and
/// reports the first of them.
pub fn get_field_def(name: &str, ty: &TypeExpr, field_docs: &str, features: &Features) -> (r: Result<
    FieldDef,
    SchemaError,
>)
    ensures
        match r {
            Ok(def) => resolution(name@, *ty, field_docs@, features.object_id) == Ok::<
                FieldModel,
                ErrorModel,
            >(def@),
            Err(e) => resolution(name@, *ty, field_docs@, features.object_id) == Err::<
                FieldModel,
                ErrorModel,
            >(e@),
        },
    decreases ty,
{
    match ty {
        TypeExpr::Named(ident) => Ok(
            plain(name, field_docs, get_field_def_type_or_sibling(ident.as_str(), features)),
        ),
        TypeExpr::Generic(ident, args) => {
            let mut arg_types = match get_arg_defs(args, features) {
                Ok(defs) => defs,
                Err(e) => {
                    let safe = safe_type_name(name);
                    return Err(e.about(safe.as_str()));
                },
            };
            let ghost inner = field_models(arg_types@);
            if arg_types.len() == 0 {
                let shape = FieldDefType::SiblingType(ident.clone(), arg_types);
                proof {
                    lemma_shape_children(shape);
                    assert(shape@->Reference_1 =~= Seq::<FieldModel>::empty());
                }
                Ok(plain(name, field_docs, shape))
            } else if arg_types.len() == 1 && same_text(ident.as_str(), "Option") {
                let mut result = arg_types.pop().unwrap();
                assert(result@ == inner[0]);
                result.name = safe_type_name(name);
                result.is_optional = true;
                Ok(result)
            } else if arg_types.len() == 1 && same_text(ident.as_str(), "Vec") {
                let mut result = arg_types.pop().unwrap();
                assert(result@ == inner[0]);
                result.name = safe_type_name(name);
                result.is_array = true;
                Ok(result)
            } else if arg_types.len() == 2 && same_text(ident.as_str(), "HashMap") {
                let value = arg_types.pop().unwrap();
                let key = arg_types.pop().unwrap();
                assert(value@ == inner[1]);
                assert(key@ == inner[0]);
                Ok(plain(name, field_docs, FieldDefType::Mapping(Box::new(key), Box::new(value))))
            } else {
                let shape = FieldDefType::SiblingType(ident.clone(), arg_types);
                proof {
                    lemma_shape_children(shape);
                }
                Ok(plain(name, field_docs, shape))
            }
        },
        TypeExpr::Callable(ident) => {
            let safe = safe_type_name(name);
            Err(SchemaError::at_field(ErrorKind::UnsupportedShape, safe.as_str(), ident.as_str()))
        },
        TypeExpr::Ref(inner) => get_field_def(name, inner, field_docs, features),
        TypeExpr::Array(inner) | TypeExpr::Slice(inner) => {
            match get_field_def(name, inner, field_docs, features) {
                Ok(def) => {
                    let mut def = def;
                    def.is_array = true;
                    def.array_num = None;
                    Ok(def)
                },
                Err(e) => Err(e),
            }
        },
        TypeExpr::Tuple(elements) => {
            match get_element_defs(elements, field_docs, features) {
                Ok(defs) => {
                    let shape = FieldDefType::Tuple(defs);
                    proof {
                        lemma_shape_children(shape);
                    }
                    Ok(plain(name, field_docs, shape))
                },
                Err(e) => {
                    let safe = safe_type_name(name);
                    Err(
                        SchemaError::at_field(
                            ErrorKind::UnsupportedShape,
                            safe.as_str(),
                            e.type_text.as_str(),
                        ),
                    )
                },
            }
        },
        TypeExpr::Other => Ok(plain(name, field_docs, FieldDefType::Unknown)),
    }
}

/// A type as it is written, as far as the declaration holds it: a path by
/// its last segment, its type arguments in angle brackets.
pub open spec fn written_text(ty: TypeExpr) -> Seq<char>
    decreases ty,
{
    match ty {
        TypeExpr::Named(name) => name@,
        TypeExpr::Generic(name, args) => name@ + "<"@ + joined(written_texts(args@), ", "@)
            + ">"@,
        TypeExpr::Callable(written) => written@,
        TypeExpr::Ref(inner) => "&"@ + written_text(*inner),
        TypeExpr::Array(inner) => "["@ + written_text(*inner) + "; _]"@,
        TypeExpr::Slice(inner) => "["@ + written_text(*inner) + "]"@,
        TypeExpr::Tuple(elements) => "("@ + joined(written_texts(elements@), ", "@) + ")"@,
        TypeExpr::Other => "_"@,
    }
}

/// The written texts of a list of types.
pub open spec fn written_texts(types: Seq<TypeExpr>) -> Seq<Seq<char>>
    decreases types,
{
    if types.len() == 0 {
        Seq::empty()
    } else {
        written_texts(types.drop_last()).push(written_text(types.last()))
    }
}

/// Writes each of a list of types as it is written.
fn write_types(types: &Vec<TypeExpr>) -> (r: Vec<String>)
    ensures
        texts(r@) == written_texts(types@),
    decreases types,
{
    let mut out: Vec<String> = Vec::new();
    let mut i: usize = 0;
    while i < types.len()
        invariant
            i <= types.len(),
            texts(out@) == written_texts(types@.take(i as int)),
        decreases types.len() - i,
    {
        let t = write_type(&types[i]);
        proof {
            assert(types@.take(i + 1).drop_last() =~= types@.take(i as int));
            assert(types@.take(i + 1).last() == types@[i as int]);
            assert(texts(out@.push(t)) =~= texts(out@).push(t@));
        }
        out.push(t);
        i += 1;
    }
    assert(types@.take(types.len() as int) =~= types@);
    out
}

/// Writes a type as it is written in its declaration.
pub fn write_type(ty: &TypeExpr) -> (r: String)
    ensures
        r@ == written_text(*ty),
    decreases ty,
{
    match ty {
        TypeExpr::Named(name) => name.clone(),
        TypeExpr::Generic(name, args) => {
            let mut out = name.clone();
            out.append("<");
            out.append(join(&write_types(args), ", ").as_str());
            out.append(">");
            out
        },
        TypeExpr::Callable(written) => written.clone(),
        TypeExpr::Ref(inner) => {
            let mut out = String::from_str("&");
            out.append(write_type(inner).as_str());
            out
        },
        TypeExpr::Array(inner) => {
            let mut out = String::from_str("[");
            out.append(write_type(inner).as_str());
            out.append("; _]");
            out
        },
        TypeExpr::Slice(inner) => {
            let mut out = String::from_str("[");
            out.append(write_type(inner).as_str());
            out.append("]");
            out
        },
        TypeExpr::Tuple(elements) => {
            let mut out = String::from_str("(");
            out.append(join(&write_types(elements), ", ").as_str());
            out.append(")");
            out
        },
        TypeExpr::Other => String::from_str("_"),
    }
}

/// Whether a named type with arguments is one of the collections that have a
/// schema of their own.
pub open spec fn is_known_collection(name: Seq<char>, args: Seq<FieldModel>) -> bool {
    ((name == "Vec"@ || name == "HashSet"@) && args.len() == 1) || ((name == "HashMap"@ || name
        == "BTreeMap"@) && args.len() == 2)
}

/// Whether a shape is outside the closed set of supported shapes: a named
/// type with arguments that is none of the known collections, or a map keyed
/// by a bare named type whose values are not of a bare named type.
pub open spec fn refused_shape(f: FieldModel) -> bool {
    match f.shape {
        ShapeModel::Reference(name, args) => args.len() > 0 && !is_known_collection(name, args),
        ShapeModel::Dictionary(key, value) => match key.shape {
            ShapeModel::Reference(_, key_args) => key_args.len() == 0 && match value.shape {
                ShapeModel::Reference(_, value_args) => value_args.len() > 0,
                _ => true,
            },
            _ => false,
        },
        _ => false,
    }
}

/// Whether the shape of a field is outside the closed set of supported
/// shapes.
pub fn is_refused_shape(fld: &FieldDef) -> (r: bool)
    ensures
        r == refused_shape(fld@),
{
    proof {
        lemma_shape_children(fld.field_type);
    }
    match &fld.field_type {
        FieldDefType::SiblingType(name, args) => {
            let n = name.as_str();
            let known = ((same_text(n, "Vec") || same_text(n, "HashSet")) && args.len() == 1) || ((
            same_text(n, "HashMap") || same_text(n, "BTreeMap")) && args.len() == 2);
            args.len() > 0 && !known
        },
        FieldDefType::Mapping(key, value) => {
            proof {
                lemma_shape_children(key.field_type);
                lemma_shape_children(value.field_type);
            }
            match &key.field_type {
                FieldDefType::SiblingType(_, key_args) => {
                    key_args.len() == 0 && match &value.field_type {
                        FieldDefType::SiblingType(_, value_args) => value_args.len() > 0,
                        _ => true,
                    }
                },
                _ => false,
            }
        },
        _ => false,
    }
}

/// The type of a field as the model holds it, in the words of the
/// declaration: the scalar by its name, a named type by the name it is
/// emitted under, an array as `Vec<..>` and an optional as `Option<..>`
/// around it.
pub open spec fn declared_text(f: FieldModel) -> Seq<char>
    decreases f, 1nat,
{
    let inner = if f.is_array {
        "Vec<"@ + declared_shape(f) + ">"@
    } else {
        declared_shape(f)
    };
    if f.is_optional {
        "Option<"@ + inner + ">"@
    } else {
        inner
    }
}

/// The shape of a field in the words of the declaration.
pub open spec fn declared_shape(f: FieldModel) -> Seq<char>
    decreases f, 0nat,
{
    match f.shape {
        ShapeModel::Unknown => "_"@,
        ShapeModel::Tuple(elements) => "("@ + joined(declared_texts(elements), ", "@) + ")"@,
        ShapeModel::Reference(name, args) => if args.len() == 0 {
            name
        } else {
            name + "<"@ + joined(declared_texts(args), ", "@) + ">"@
        },
        ShapeModel::Dictionary(k, v) => "HashMap<"@ + declared_text(*k) + ", "@ + declared_text(*v)
            + ">"@,
        ShapeModel::Boolean => "bool"@,
        ShapeModel::Text => "String"@,
        ShapeModel::Literal(_) => "String"@,
        ShapeModel::U8 => "u8"@,
        ShapeModel::U16 => "u16"@,
        ShapeModel::U32 => "u32"@,
        ShapeModel::U64 => "u64"@,
        ShapeModel::I8 => "i8"@,
        ShapeModel::I16 => "i16"@,
        ShapeModel::I32 => "i32"@,
        ShapeModel::I64 => "i64"@,
        ShapeModel::Usize => "usize"@,
        ShapeModel::Isize => "isize"@,
        ShapeModel::F32 => "f32"@,
        ShapeModel::F64 => "f64"@,
        ShapeModel::OpaqueId => "ObjectId"@,
    }
}

/// The types of a list of fields in the words of the declaration.
pub open spec fn declared_texts(fields: Seq<FieldModel>) -> Seq<Seq<char>>
    decreases fields,
{
    if fields.len() == 0 {
        Seq::empty()
    } else {
        declared_texts(fields.drop_last()).push(declared_text(fields.last()))
    }
}

/// The types of `fields` in the words of the declaration, in order.
fn declared_typenames(fields: &Vec<FieldDef>) -> (r: Vec<String>)
    ensures
        texts(r@) == declared_texts(field_models(fields@)),
    decreases fields,
{
    let mut out: Vec<String> = Vec::new();
    let mut i: usize = 0;
    while i < fields.len()
        invariant
            i <= fields.len(),
            texts(out@) == declared_texts(field_models(fields@).take(i as int)),
        decreases fields.len() - i,
    {
        let t = fields[i].declared_typename();
        proof {
            let m = field_models(fields@);
            assert(m.take(i + 1).drop_last() =~= m.take(i as int));
            assert(m.take(i + 1).last() == fields@[i as int]@);
            assert(texts(out@.push(t)) =~= texts(out@).push(t@));
        }
        out.push(t);
        i += 1;
    }
    assert(field_models(fields@).take(fields.len() as int) =~= field_models(fields@));
    out
}

impl FieldDef {
    /// The type of the field in the words of the declaration.
    pub fn declared_typename(&self) -> (r: String)
        ensures
            r@ == declared_text(self@),
        decreases self,
    {
        proof {
            lemma_shape_children(self.field_type);
        }
        let base = match &self.field_type {
            FieldDefType::Unknown => String::from_str("_"),
            FieldDefType::Tuple(elements) => {
                let mut out = String::from_str("(");
                out.append(join(&declared_typenames(elements), ", ").as_str());
                out.append(")");
                out
            },
            FieldDefType::SiblingType(name, args) => {
                if args.len() == 0 {
                    name.clone()
                } else {
                    let mut out = name.clone();
                    out.append("<");
                    out.append(join(&declared_typenames(args), ", ").as_str());
                    out.append(">");
                    out
                }
            },
            FieldDefType::Mapping(k, v) => {
                let mut out = String::from_str("HashMap<");
                out.append(k.declared_typename().as_str());
                out.append(", ");
                out.append(v.declared_typename().as_str());
                out.append(">");
                out
            },
            FieldDefType::Boolean => String::from_str("bool"),
            FieldDefType::String => String::from_str("String"),
            FieldDefType::StringLiteral(_) => String::from_str("String"),
            FieldDefType::U8 => String::from_str("u8"),
            FieldDefType::U16 => String::from_str("u16"),
            FieldDefType::U32 => String::from_str("u32"),
            FieldDefType::U64 => String::from_str("u64"),
            FieldDefType::I8 => String::from_str("i8"),
            FieldDefType::I16 => String::from_str("i16"),
            FieldDefType::I32 => String::from_str("i32"),
            FieldDefType::I64 => String::from_str("i64"),
            FieldDefType::Usize => String::from_str("usize"),
            FieldDefType::Isize => String::from_str("isize"),
            FieldDefType::F32 => String::from_str("f32"),
            FieldDefType::F64 => String::from_str("f64"),
            FieldDefType::ObjectId => String::from_str("ObjectId"),
        };
        let inner = if self.is_array {
            let mut out = String::from_str("Vec<");
            out.append(base.as_str());
            out.append(">");
            out
        } else {
            base
        };
        if self.is_optional {
            let mut out = String::from_str("Option<");
            out.append(inner.as_str());
            out.append(">");
            out
        } else {
            inner
        }
    }
}

} // verus!
