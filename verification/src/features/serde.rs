//! Renaming: the convention of a container and the override of a field.
//!
//! A field's own override is absolute. Without one the container's
//! convention is applied to the raw name, once.

use crate::attributes::{read_attributes, reading, warning_models, AttributeWarning, Reader};
use crate::features::model_schema_prop::{clone_opt, opt_text};
use crate::syntax::Attribute;
use crate::text::{chars_of, lower, lower_char, lowercase, lowered_text, push_char, raised_text,
    same_text, text_of, upper, upper_char, uppercase};
use vstd::prelude::*;
use vstd::string::*;

verus! {

/// The renaming attributes of a record or an enum.
#[derive(Debug)]
pub struct SerdeTypeMeta {
    /// The name of the field that tells the variants of an enum apart.
    pub tag: Option<String>,
    /// The convention applied to every field or variant name.
    pub rename_all: Option<String>,
}

/// The renaming attributes of a field or a variant.
#[derive(Debug)]
pub struct SerdeFieldMeta {
    /// The name that replaces the field's own.
    pub rename: Option<String>,
    /// Whether the field is marked as skipped.
    pub skip: bool,
}

/// What a [`SerdeTypeMeta`] holds.
pub ghost struct TypeMetaModel {
    pub tag: Option<Seq<char>>,
    pub rename_all: Option<Seq<char>>,
}

/// What a [`SerdeFieldMeta`] holds.
pub ghost struct FieldMetaModel {
    pub rename: Option<Seq<char>>,
    pub skip: bool,
}

impl View for SerdeTypeMeta {
    type V = TypeMetaModel;

    open spec fn view(&self) -> TypeMetaModel {
        TypeMetaModel { tag: opt_text(self.tag), rename_all: opt_text(self.rename_all) }
    }
}

impl View for SerdeFieldMeta {
    type V = FieldMetaModel;

    open spec fn view(&self) -> FieldMetaModel {
        FieldMetaModel { rename: opt_text(self.rename), skip: self.skip }
    }
}

impl Default for SerdeTypeMeta {
    fn default() -> (r: Self)
        ensures
            r@ == (TypeMetaModel { tag: None, rename_all: None }),
    {
        SerdeTypeMeta { tag: None, rename_all: None }
    }
}

impl Default for SerdeFieldMeta {
    fn default() -> (r: Self)
        ensures
            r@ == (FieldMetaModel { rename: None, skip: false }),
    {
        SerdeFieldMeta { rename: None, skip: false }
    }
}

impl Clone for SerdeTypeMeta {
    fn clone(&self) -> (r: Self)
        ensures
            r@ == self@,
    {
        SerdeTypeMeta { tag: clone_opt(&self.tag), rename_all: clone_opt(&self.rename_all) }
    }
}

impl Clone for SerdeFieldMeta {
    fn clone(&self) -> (r: Self)
        ensures
            r@ == self@,
    {
        SerdeFieldMeta { rename: clone_opt(&self.rename), skip: self.skip }
    }
}

/// Reads the renaming attributes of a record or an enum: `tag = "name"` and
/// `rename_all = "convention"` inside `serde(..)`. Returns what was read,
/// and a warning for each attribute that could not be read to its end.
pub fn parse_serde_type_attributes(attrs: &[Attribute]) -> (r: (SerdeTypeMeta, Vec<AttributeWarning>))
    ensures
        r.0@ == reading(Reader::SerdeType, attrs@).0.type_meta(),
        warning_models(r.1@) == reading(Reader::SerdeType, attrs@).1,
{
    let (p, warnings) = read_attributes(Reader::SerdeType, attrs);
    (SerdeTypeMeta { tag: p.tag, rename_all: p.rename_all }, warnings)
}

/// Reads the renaming attributes of a field or a variant: `rename = "name"`
/// and the keys that mark the field as skipped, inside `serde(..)`. Returns
/// what was read, and a warning for each attribute that could not be read to
/// its end.
pub fn parse_serde_field_attributes(attrs: &[Attribute]) -> (r: (
    SerdeFieldMeta,
    Vec<AttributeWarning>,
))
    ensures
        r.0@ == reading(Reader::SerdeField, attrs@).0.field_meta(),
        warning_models(r.1@) == reading(Reader::SerdeField, attrs@).1,
{
    let (p, warnings) = read_attributes(Reader::SerdeField, attrs);
    (SerdeFieldMeta { rename: p.rename, skip: p.skip }, warnings)
}

/// What the character at position `i` of a snake-case name contributes to
/// its camel-case form: nothing where it is an underscore; its lowercase at
/// the head of the name; its uppercase behind an underscore; else itself.
pub open spec fn camel_piece(s: Seq<char>, i: int) -> Seq<char>
    recommends
        0 <= i < s.len(),
{
    if s[i] == '_' {
        Seq::empty()
    } else if i == 0 {
        seq![lower_char(s[i])]
    } else if s[i - 1] == '_' {
        seq![upper_char(s[i])]
    } else {
        seq![s[i]]
    }
}

/// The camel-case form of the first `n` characters of `s`.
pub open spec fn camel_prefix(s: Seq<char>, n: int) -> Seq<char>
    decreases n,
{
    if n <= 0 {
        Seq::empty()
    } else {
        camel_prefix(s, n - 1) + camel_piece(s, n - 1)
    }
}

/// `user_name` as `userName`.
pub open spec fn camel_text(s: Seq<char>) -> Seq<char> {
    camel_prefix(s, s.len() as int)
}

/// `user_name` as `UserName`: the camel-case form with its head in
/// uppercase.
pub open spec fn pascal_text(s: Seq<char>) -> Seq<char> {
    let camel = camel_text(s);
    if camel.len() == 0 {
        camel
    } else {
        seq![upper_char(camel[0])] + camel.subrange(1, camel.len() as int)
    }
}

/// `user_name` as `user-name`.
pub open spec fn kebab_text(s: Seq<char>) -> Seq<char> {
    Seq::new(
        s.len(),
        |i: int|
            if s[i] == '_' {
                '-'
            } else {
                s[i]
            },
    )
}

/// A raw name under a container's convention. A convention that is not one
/// of the seven known ones leaves the name as it is, as does `snake_case`.
pub open spec fn renamed(raw: Seq<char>, convention: Option<Seq<char>>) -> Seq<char> {
    match convention {
        Some(c) => if c == "camelCase"@ {
            camel_text(raw)
        } else if c == "PascalCase"@ {
            pascal_text(raw)
        } else if c == "snake_case"@ {
            raw
        } else if c == "SCREAMING_SNAKE_CASE"@ {
            raised_text(raw)
        } else if c == "kebab-case"@ {
            kebab_text(raw)
        } else if c == "lowercase"@ {
            lowered_text(raw)
        } else if c == "UPPERCASE"@ {
            raised_text(raw)
        } else {
            raw
        },
        None => raw,
    }
}

/// The name under which a field or variant is emitted: its override where it
/// has one, else its raw name under the container's convention.
pub open spec fn resolved_name(
    raw: Seq<char>,
    field_override: Option<Seq<char>>,
    convention: Option<Seq<char>>,
) -> Seq<char> {
    match field_override {
        Some(name) => name,
        None => renamed(raw, convention),
    }
}

/// An override is absolute: the resolved name is the override whatever the
/// raw name and the container's convention are.
pub proof fn law_override_is_absolute(
    raw: Seq<char>,
    other_raw: Seq<char>,
    name: Seq<char>,
    convention: Option<Seq<char>>,
    other_convention: Option<Seq<char>>,
)
    ensures
        resolved_name(raw, Some(name), convention) == name,
        resolved_name(raw, Some(name), convention) == resolved_name(
            other_raw,
            Some(name),
            other_convention,
        ),
{
}

/// Without a convention, and under `snake_case`, resolving a name twice
/// gives what resolving it once gives.
pub proof fn law_identity_conventions_are_idempotent(raw: Seq<char>, convention: Option<Seq<char>>)
    requires
        convention is None || convention == Some("snake_case"@),
    ensures
        renamed(raw, convention) == raw,
        renamed(renamed(raw, convention), convention) == renamed(raw, convention),
{
    reveal_strlit("snake_case");
    reveal_strlit("camelCase");
    reveal_strlit("PascalCase");
    if convention is Some {
        assert("snake_case"@.len() != "camelCase"@.len());
        assert("snake_case"@[0] != "PascalCase"@[0]);
    }
}

/// Converts a snake-case name to camel case.
pub fn to_camel_case(s: &str) -> (r: String)
    ensures
        r@ == camel_text(s@),
{
    let chars = chars_of(s);
    let mut out = String::new();
    let mut i: usize = 0;
    while i < chars.len()
        invariant
            i <= chars.len(),
            chars@ == s@,
            out@ == camel_prefix(s@, i as int),
        decreases chars.len() - i,
    {
        let c = chars[i];
        if c == '_' {
        } else if i == 0 {
            push_char(&mut out, lower(c));
        } else if chars[i - 1] == '_' {
            push_char(&mut out, upper(c));
        } else {
            push_char(&mut out, c);
        }
        proof {
            let piece = camel_piece(s@, i as int);
            assert(out@ =~= camel_prefix(s@, i as int) + piece);
        }
        i += 1;
    }
    out
}

/// Converts a snake-case name to Pascal case.
pub fn to_pascal_case(s: &str) -> (r: String)
    ensures
        r@ == pascal_text(s@),
{
    let camel = to_camel_case(s);
    let chars = chars_of(camel.as_str());
    if chars.len() == 0 {
        camel
    } else {
        let mut out = String::new();
        push_char(&mut out, upper(chars[0]));
        let rest = text_of(&chars, 1, chars.len());
        out.append(rest.as_str());
        out
    }
}

/// Converts a snake-case name to kebab case.
pub fn to_kebab_case(s: &str) -> (r: String)
    ensures
        r@ == kebab_text(s@),
{
    let mut out = String::new();
    for c in it: s.chars()
        invariant
            it.seq() == s@,
            out@ == kebab_text(s@.take(it.index())),
    {
        proof {
            let before = s@.take(it.index());
            let after = s@.take(it.index() + 1);
            assert(after =~= before.push(c));
            assert(kebab_text(after) =~= kebab_text(before).push(
                if c == '_' {
                    '-'
                } else {
                    c
                },
            ));
        }
        if c == '_' {
            push_char(&mut out, '-');
        } else {
            push_char(&mut out, c);
        }
    }
    assert(s@.take(s@.len() as int) =~= s@);
    out
}

/// Applies a container's convention to a raw name.
pub fn apply_rename_all(field_name: &str, rename_all: &Option<String>) -> (r: String)
    ensures
        r@ == renamed(field_name@, opt_text(*rename_all)),
{
    match rename_all {
        Some(convention) => {
            let c = convention.as_str();
            if same_text(c, "camelCase") {
                to_camel_case(field_name)
            } else if same_text(c, "PascalCase") {
                to_pascal_case(field_name)
            } else if same_text(c, "snake_case") {
                String::from_str(field_name)
            } else if same_text(c, "SCREAMING_SNAKE_CASE") {
                uppercase(field_name)
            } else if same_text(c, "kebab-case") {
                to_kebab_case(field_name)
            } else if same_text(c, "lowercase") {
                lowercase(field_name)
            } else if same_text(c, "UPPERCASE") {
                uppercase(field_name)
            } else {
                String::from_str(field_name)
            }
        },
        None => String::from_str(field_name),
    }
}

/// The name under which a field is emitted, from its own attributes and
/// those of its container.
pub fn get_final_field_name(
    raw_name: String,
    field_meta: &SerdeFieldMeta,
    type_meta: &SerdeTypeMeta,
) -> (r: String)
    ensures
        r@ == resolved_name(raw_name@, field_meta@.rename, type_meta@.rename_all),
{
    if let Some(rename) = &field_meta.rename {
        return rename.clone();
    }
    apply_rename_all(raw_name.as_str(), &type_meta.rename_all)
}

} // verus!
