//! Text shared by the emitters of static types.

pub mod typescript;

use crate::field_type::{ts_type, FieldDef, FieldModel};
use crate::text::{comment, comment_text, lines_of, split_lines};
use crate::utils::{safe_name, safe_type_name};
use vstd::prelude::*;
use vstd::string::*;

verus! {

/// Helpers for writing declarations.
pub struct GenerationUtils;

/// The lines of `docs`, each behind ` * `.
pub open spec fn docs_text(docs: Seq<char>) -> Seq<char> {
    comment_text(lines_of(docs))
}

/// A field of a record type, below the comment made of its documentation.
pub open spec fn typescript_field_text(f: FieldModel) -> Seq<char> {
    "  /**\n"@ + docs_text(f.docs) + "\n**/\n  "@ + f.name + ": "@ + ts_type(f) + ";"@
}

impl GenerationUtils {
    /// Writes documentation as the lines of a comment; nothing for no
    /// documentation.
    pub fn format_docs(docs: &str) -> (r: String)
        ensures
            r@ == docs_text(docs@),
    {
        let lines = split_lines(docs);
        comment(&lines)
    }

    /// Writes a field of a record type, below its documentation.
    pub fn format_typescript_field(fld: &FieldDef) -> (r: String)
        ensures
            r@ == typescript_field_text(fld@),
    {
        let mut out = String::from_str("  /**\n");
        out.append(Self::format_docs(fld.docs.as_str()).as_str());
        out.append("\n**/\n  ");
        out.append(fld.name.as_str());
        out.append(": ");
        out.append(fld.typescript_typename().as_str());
        out.append(";");
        out
    }

    /// The name under which a declared type is emitted.
    pub fn safe_typescript_name(rust_name: &str) -> (r: String)
        ensures
            r@ == safe_name(rust_name@),
    {
        safe_type_name(rust_name)
    }
}

} // verus!
