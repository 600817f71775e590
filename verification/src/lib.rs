//! A schema compiler: from the declaration of a record or an enum to a
//! static type declaration, a runtime validator declaration and a JSON
//! Schema that describe the same shape.

pub mod attributes;
pub mod error;
pub mod features;
pub mod field_type;
pub mod generation;
pub mod json;
pub mod laws;
pub mod model_schema;
pub mod registry;
pub mod syntax;
pub mod text;
pub mod utils;
pub mod warnings;

use crate::error::{ErrorModel, SchemaError};
use crate::features::Features;
use crate::model_schema::{exec_model_schema, item_outcome, CompiledModel, CompiledView};
use crate::registry::SchemaRegistry;
use crate::syntax::Item;
use vstd::prelude::*;

verus! {

/// Compiles a declaration into the outputs that `features` asks for. Types
/// that the declaration names are taken from `registry`.
///
/// Succeeds exactly where [`item_outcome`] does, with its outputs, and fails
/// exactly where it fails, with its failure.
pub fn model_schema(item: &Item, features: &Features, registry: &SchemaRegistry) -> (r: Result<
    CompiledModel,
    SchemaError,
>)
    ensures
        match r {
            Ok(m) => item_outcome(*item, *features, registry@) == Ok::<CompiledView, ErrorModel>(
                m@,
            ),
            Err(e) => item_outcome(*item, *features, registry@) == Err::<CompiledView, ErrorModel>(
                e@,
            ),
        },
{
    exec_model_schema(item, features, registry)
}

} // verus!
