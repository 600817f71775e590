//! Field-level overrides: an explicit type, a literal value, a minimum length.

use crate::attributes::{read_attributes, reading, warning_models, AttributeWarning, Reader};
use crate::syntax::Attribute;
use vstd::prelude::*;

verus! {

/// The overrides that a field carries.
#[derive(Debug)]
pub struct ModelSchemaPropMeta {
    /// The type named by `as = Type`, as text.
    pub as_type: Option<String>,
    /// The constant named by `literal = "value"`.
    pub literal: Option<String>,
    /// The bound named by `minLength = N`.
    pub min_length: Option<usize>,
}

/// What a [`ModelSchemaPropMeta`] holds.
pub ghost struct MetaModel {
    pub as_type: Option<Seq<char>>,
    pub literal: Option<Seq<char>>,
    pub min_length: Option<nat>,
}

/// The view of an optional string.
pub open spec fn opt_text(s: Option<String>) -> Option<Seq<char>> {
    match s {
        Some(t) => Some(t@),
        None => None,
    }
}

impl View for ModelSchemaPropMeta {
    type V = MetaModel;

    open spec fn view(&self) -> MetaModel {
        MetaModel {
            as_type: opt_text(self.as_type),
            literal: opt_text(self.literal),
            min_length: match self.min_length {
                Some(n) => Some(n as nat),
                None => None,
            },
        }
    }
}

impl MetaModel {
    /// No override at all.
    pub open spec fn empty() -> MetaModel {
        MetaModel { as_type: None, literal: None, min_length: None }
    }
}

impl Default for ModelSchemaPropMeta {
    fn default() -> (r: Self)
        ensures
            r@ == MetaModel::empty(),
    {
        ModelSchemaPropMeta { as_type: None, literal: None, min_length: None }
    }
}

impl Clone for ModelSchemaPropMeta {
    fn clone(&self) -> (r: Self)
        ensures
            r@ == self@,
    {
        ModelSchemaPropMeta {
            as_type: clone_opt(&self.as_type),
            literal: clone_opt(&self.literal),
            min_length: self.min_length,
        }
    }
}

/// A copy of an optional string.
pub fn clone_opt(s: &Option<String>) -> (r: Option<String>)
    ensures
        opt_text(r) == opt_text(*s),
{
    match s {
        Some(t) => Some(t.clone()),
        None => None,
    }
}

/// Reads the overrides of a field: `as = Type`, `literal = "value"` and
/// `minLength = N` inside `model_schema_prop(..)`. Returns what was read,
/// and a warning for each attribute that could not be read to its end: a
/// malformed attribute is never dropped in silence.
pub fn parse_model_schema_prop_attributes(attrs: &[Attribute]) -> (r: (
    ModelSchemaPropMeta,
    Vec<AttributeWarning>,
))
    ensures
        r.0@ == reading(Reader::SchemaProp, attrs@).0.schema_prop(),
        warning_models(r.1@) == reading(Reader::SchemaProp, attrs@).1,
{
    let (p, warnings) = read_attributes(Reader::SchemaProp, attrs);
    (
        ModelSchemaPropMeta { as_type: p.as_type, literal: p.literal, min_length: p.min_length },
        warnings,
    )
}

} // verus!
