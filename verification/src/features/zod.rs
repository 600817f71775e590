//! The pieces of validator text that do not depend on a field's shape.

use vstd::prelude::*;
use vstd::string::*;

verus! {

/// The validator of an array whose elements satisfy `schema`.
pub open spec fn zod_array_text(schema: Seq<char>) -> Seq<char> {
    "z.array("@ + schema + ")"@
}

/// The validator that accepts what `schema` accepts, and an absent value.
pub open spec fn zod_optional_text(schema: Seq<char>) -> Seq<char> {
    schema + ".or(z.undefined())"@
}

/// The text that follows a record validator to name its optional fields.
/// Optional fields are already marked one by one, so nothing follows.
pub fn show_optionals(opts: &[String]) -> (r: String)
    ensures
        r@ == Seq::<char>::empty(),
{
    String::new()
}

/// Whether validators are emitted by this build of the library: always.
pub fn should_generate_zod_schema() -> (r: bool)
    ensures
        r,
{
    true
}

/// The import line that a module of validators starts with.
pub fn get_zod_import() -> (r: String)
    ensures
        r@ == "import { z } from \"zod\";\n\n"@,
{
    String::from_str("import { z } from \"zod\";\n\n")
}

/// Wraps `schema` in an array validator where `is_array` holds.
pub fn wrap_with_array_if_needed(schema: &str, is_array: bool) -> (r: String)
    ensures
        r@ == (if is_array {
            zod_array_text(schema@)
        } else {
            schema@
        }),
{
    if is_array {
        let mut out = String::from_str("z.array(");
        out.append(schema);
        out.append(")");
        out
    } else {
        String::from_str(schema)
    }
}

/// Lets `schema` also accept an absent value where `is_optional` holds.
pub fn wrap_with_optional_if_needed(schema: &str, is_optional: bool) -> (r: String)
    ensures
        r@ == (if is_optional {
            zod_optional_text(schema@)
        } else {
            schema@
        }),
{
    if is_optional {
        let mut out = String::from_str(schema);
        out.append(".or(z.undefined())");
        out
    } else {
        String::from_str(schema)
    }
}

} // verus!
