//! Names and documentation lines.

use crate::syntax::{AttrArgs, Attribute, Field, ItemEnum, ItemStruct, MetaValue, Variant};
use crate::text::{chars_of, comment, comment_text, has_suffix, lines_of, same_text, split_lines,
    text_of, texts, trim, trimmed_text};
use vstd::prelude::*;
use vstd::string::*;

verus! {

/// A name without the suffix `Json`, where it ends with it.
pub open spec fn safe_name(key: Seq<char>) -> Seq<char> {
    if "Json"@.is_suffix_of(key) {
        key.subrange(0, key.len() - "Json"@.len())
    } else {
        key
    }
}

/// The name under which a type is emitted: wire types are named with the
/// suffix `Json`, and the suffix is dropped once.
pub fn safe_type_name(key: &str) -> (r: String)
    ensures
        r@ == safe_name(key@),
{
    if has_suffix(key, "Json") {
        let chars = chars_of(key);
        let suffix = chars_of("Json");
        text_of(&chars, 0, chars.len() - suffix.len())
    } else {
        String::from_str(key)
    }
}

/// The line of documentation that an attribute carries: the text of
/// `doc = "text"`, without the white space around it.
pub open spec fn doc_line(a: Attribute) -> Option<Seq<char>> {
    if a.path@ == "doc"@ {
        match a.args {
            AttrArgs::Value(MetaValue::Str(s)) => Some(trimmed_text(s@)),
            _ => None,
        }
    } else {
        None
    }
}

/// The lines of documentation among `attrs`, in order.
pub open spec fn doc_lines(attrs: Seq<Attribute>) -> Seq<Seq<char>>
    decreases attrs.len(),
{
    if attrs.len() == 0 {
        Seq::empty()
    } else {
        match doc_line(attrs.last()) {
            Some(line) => doc_lines(attrs.drop_last()).push(line),
            None => doc_lines(attrs.drop_last()),
        }
    }
}

/// The documentation among `attrs`: its lines, or nothing where there is no
/// line at all.
pub open spec fn documentation(attrs: Seq<Attribute>) -> Option<Seq<Seq<char>>> {
    if doc_lines(attrs).len() == 0 {
        None
    } else {
        Some(doc_lines(attrs))
    }
}

/// The views of an optional list of strings.
pub open spec fn opt_texts(v: Option<Vec<String>>) -> Option<Seq<Seq<char>>> {
    match v {
        Some(lines) => Some(texts(lines@)),
        None => None,
    }
}

/// The lines of each of `docs`, in order.
pub open spec fn flat_lines(docs: Seq<Seq<char>>) -> Seq<Seq<char>>
    decreases docs.len(),
{
    if docs.len() == 0 {
        Seq::empty()
    } else {
        flat_lines(docs.drop_last()) + lines_of(docs.last())
    }
}

/// The comment above a declaration, a variant or a field: the lines of its
/// documentation, or its name where it has none, and an empty line, each
/// behind ` * `.
pub open spec fn doc_comment(docs: Option<Seq<Seq<char>>>, fallback: Seq<char>) -> Seq<char> {
    match docs {
        Some(lines) => comment_text(flat_lines(lines).push(Seq::empty())),
        None => comment_text(seq![fallback, Seq::empty()]),
    }
}

/// The documentation among `attrs`.
pub fn get_docs(attrs: &Vec<Attribute>) -> (r: Option<Vec<String>>)
    ensures
        opt_texts(r) == documentation(attrs@),
{
    let mut lines: Vec<String> = Vec::new();
    let mut i: usize = 0;
    while i < attrs.len()
        invariant
            i <= attrs.len(),
            texts(lines@) == doc_lines(attrs@.take(i as int)),
        decreases attrs.len() - i,
    {
        proof {
            assert(attrs@.take(i + 1).drop_last() =~= attrs@.take(i as int));
            assert(attrs@.take(i + 1).last() == attrs@[i as int]);
        }
        if same_text(attrs[i].path.as_str(), "doc") {
            if let AttrArgs::Value(MetaValue::Str(s)) = &attrs[i].args {
                let line = trim(s.as_str());
                proof {
                    assert(texts(lines@.push(line)) =~= texts(lines@).push(line@));
                }
                lines.push(line);
            }
        }
        i += 1;
    }
    assert(attrs@.take(attrs.len() as int) =~= attrs@);
    if lines.len() == 0 {
        None
    } else {
        Some(lines)
    }
}

/// The documentation of a record.
pub fn get_struct_docs(item_struct: &ItemStruct) -> (r: Option<Vec<String>>)
    ensures
        opt_texts(r) == documentation(item_struct.attrs@),
{
    get_docs(&item_struct.attrs)
}

/// The documentation of an enum.
pub fn get_enum_docs(item_enum: &ItemEnum) -> (r: Option<Vec<String>>)
    ensures
        opt_texts(r) == documentation(item_enum.attrs@),
{
    get_docs(&item_enum.attrs)
}

/// The documentation of a variant.
pub fn get_variant_docs(variant: &Variant) -> (r: Option<Vec<String>>)
    ensures
        opt_texts(r) == documentation(variant.attrs@),
{
    get_docs(&variant.attrs)
}

/// The documentation of a field.
pub fn get_field_docs(field: &Field) -> (r: Option<Vec<String>>)
    ensures
        opt_texts(r) == documentation(field.attrs@),
{
    get_docs(&field.attrs)
}

/// Writes the comment above a declaration, a variant or a field.
pub fn format_doc_comment(docs: &Option<Vec<String>>, fallback: &str) -> (r: String)
    ensures
        r@ == doc_comment(opt_texts(*docs), fallback@),
{
    let mut lines: Vec<String> = Vec::new();
    match docs {
        Some(doc_lines) => {
            let mut i: usize = 0;
            while i < doc_lines.len()
                invariant
                    i <= doc_lines.len(),
                    texts(lines@) == flat_lines(texts(doc_lines@).take(i as int)),
                decreases doc_lines.len() - i,
            {
                let mut parts = split_lines(doc_lines[i].as_str());
                proof {
                    let t = texts(doc_lines@);
                    assert(t.take(i + 1).drop_last() =~= t.take(i as int));
                    assert(t.take(i + 1).last() == doc_lines@[i as int]@);
                }
                let ghost before = texts(lines@);
                let ghost added = texts(parts@);
                let mut j: usize = 0;
                let n = parts.len();
                while j < n
                    invariant
                        j <= n,
                        n == parts.len(),
                        texts(parts@) == added,
                        texts(lines@) == before + added.take(j as int),
                    decreases n - j,
                {
                    let line = parts[j].clone();
                    proof {
                        assert(texts(lines@.push(line)) =~= texts(lines@).push(line@));
                        assert(before + added.take(j + 1) =~= (before + added.take(j as int)).push(
                            added[j as int],
                        ));
                    }
                    lines.push(line);
                    j += 1;
                }
                proof {
                    assert(added.take(n as int) =~= added);
                }
                i += 1;
            }
            proof {
                assert(texts(doc_lines@).take(doc_lines.len() as int) =~= texts(doc_lines@));
            }
            let last = String::new();
            proof {
                assert(texts(lines@.push(last)) =~= texts(lines@).push(Seq::empty()));
            }
            lines.push(last);
        },
        None => {
            lines.push(String::from_str(fallback));
            lines.push(String::new());
            proof {
                assert(texts(lines@) =~= seq![fallback@, Seq::empty()]);
            }
        },
    }
    comment(&lines)
}

} // verus!
