//! Static type declarations from ready-made fields.

use crate::field_type::{field_models, FieldDef, FieldModel};
use crate::generation::{docs_text, typescript_field_text, GenerationUtils};
use crate::text::{join, joined, texts};
use crate::utils::safe_name;
use vstd::prelude::*;
use vstd::string::*;

verus! {

/// Writes the declaration of a record type and of a plain enum.
pub struct TypeScriptGenerator;

/// The fields of a record type, one by one.
pub open spec fn typescript_field_texts(fields: Seq<FieldModel>) -> Seq<Seq<char>> {
    Seq::new(fields.len(), |i: int| typescript_field_text(fields[i]))
}

/// The declaration of a record type. A record without fields is declared as
/// the type without properties, not as an empty object type.
pub open spec fn struct_type_text(name: Seq<char>, fields: Seq<FieldModel>, docs: Seq<char>) -> Seq<
    char,
> {
    if fields.len() == 0 {
        "/**\n"@ + docs_text(docs) + "\n**/\nexport type "@ + safe_name(name)
            + " = Record<string, never>;"@
    } else {
        "/**\n"@ + docs_text(docs) + "\n**/\nexport type "@ + safe_name(name) + " = {\n"@ + joined(
            typescript_field_texts(fields),
            "\n"@,
        ) + "\n};"@
    }
}

/// Each of `options` between double quotes.
pub open spec fn quoted(options: Seq<Seq<char>>) -> Seq<Seq<char>> {
    Seq::new(options.len(), |i: int| "\""@ + options[i] + "\""@)
}

/// The declaration of a plain enum: the union of its quoted names.
pub open spec fn plain_enum_type_text(name: Seq<char>, options: Seq<Seq<char>>, docs: Seq<char>) -> Seq<
    char,
> {
    "/**\n"@ + docs_text(docs) + "\n**/\nexport type "@ + safe_name(name) + " = "@ + joined(
        quoted(options),
        " | "@,
    ) + ";"@
}

/// Writes each of `options` between double quotes.
pub fn quote_all(options: &[String]) -> (r: Vec<String>)
    ensures
        texts(r@) == quoted(texts(options@)),
{
    let mut out: Vec<String> = Vec::new();
    let mut i: usize = 0;
    while i < options.len()
        invariant
            i <= options.len(),
            out.len() == i,
            forall|j: int| 0 <= j < i ==> (#[trigger] out@[j])@ == "\""@ + options@[j]@ + "\""@,
        decreases options.len() - i,
    {
        let mut q = String::from_str("\"");
        q.append(options[i].as_str());
        q.append("\"");
        out.push(q);
        i += 1;
    }
    assert(texts(out@) =~= quoted(texts(options@)));
    out
}

impl TypeScriptGenerator {
    /// Writes the declaration of a record type.
    pub fn generate_struct_type(name: &str, fields: &[FieldDef], docs: &str) -> (r: String)
        ensures
            r@ == struct_type_text(name@, field_models(fields@), docs@),
    {
        let item_name = GenerationUtils::safe_typescript_name(name);
        let mut out = String::from_str("/**\n");
        out.append(GenerationUtils::format_docs(docs).as_str());
        out.append("\n**/\nexport type ");
        out.append(item_name.as_str());
        if fields.len() == 0 {
            out.append(" = Record<string, never>;");
            out
        } else {
            let mut lines: Vec<String> = Vec::new();
            let mut i: usize = 0;
            while i < fields.len()
                invariant
                    i <= fields.len(),
                    lines.len() == i,
                    forall|j: int|
                        0 <= j < i ==> (#[trigger] lines@[j])@ == typescript_field_text(
                            fields@[j]@,
                        ),
                decreases fields.len() - i,
            {
                lines.push(GenerationUtils::format_typescript_field(&fields[i]));
                i += 1;
            }
            assert(texts(lines@) =~= typescript_field_texts(field_models(fields@)));
            out.append(" = {\n");
            out.append(join(&lines, "\n").as_str());
            out.append("\n};");
            out
        }
    }

    /// Writes the declaration of a plain enum.
    pub fn generate_plain_enum_type(name: &str, enum_options: &[String], docs: &str) -> (r:
        String)
        ensures
            r@ == plain_enum_type_text(name@, texts(enum_options@), docs@),
    {
        let item_name = GenerationUtils::safe_typescript_name(name);
        let options = quote_all(enum_options);
        let mut out = String::from_str("/**\n");
        out.append(GenerationUtils::format_docs(docs).as_str());
        out.append("\n**/\nexport type ");
        out.append(item_name.as_str());
        out.append(" = ");
        out.append(join(&options, " | ").as_str());
        out.append(";");
        out
    }
}

} // verus!
