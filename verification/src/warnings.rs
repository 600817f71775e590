//! The warnings of a declaration.
//!
//! An attribute that cannot be read to its end never stops a compilation,
//! and what was read of it counts. It is reported here, for the declaration,
//! for each variant and for each field, in the order in which they are
//! written.

use crate::attributes::{read_attributes, reading, warning_models, AttributeWarning, Reader,
    WarningModel};
use crate::features::Features;
use crate::model_schema::variant_fields;
use crate::syntax::{Attribute, Field, Item, Variant};
use vstd::prelude::*;
use vstd::string::*;

verus! {

/// A warning and what it is about.
#[derive(Debug)]
pub struct ItemWarning {
    /// The name of the declaration, variant or field that carries the
    /// attribute, as it is written.
    pub owner: String,
    /// The reader that could not read the attribute to its end.
    pub reader: Reader,
    /// The place at which it stopped.
    pub warning: AttributeWarning,
}

/// What an [`ItemWarning`] holds.
pub ghost struct ItemWarningModel {
    pub owner: Seq<char>,
    pub reader: Reader,
    pub warning: WarningModel,
}

impl View for ItemWarning {
    type V = ItemWarningModel;

    open spec fn view(&self) -> ItemWarningModel {
        ItemWarningModel { owner: self.owner@, reader: self.reader, warning: self.warning@ }
    }
}

/// The views of a list of warnings.
pub open spec fn item_warning_models(w: Seq<ItemWarning>) -> Seq<ItemWarningModel> {
    Seq::new(w.len(), |i: int| w[i]@)
}

/// The warnings that a reader gives on the attributes of one owner.
pub open spec fn owner_warnings(attrs: Seq<Attribute>, owner: Seq<char>, reader: Reader) -> Seq<
    ItemWarningModel,
> {
    let found = reading(reader, attrs).1;
    Seq::new(found.len(), |i: int| ItemWarningModel { owner, reader, warning: found[i] })
}

/// The warnings of the renaming attributes of one owner; none where renaming
/// is switched off, for then they are not read.
pub open spec fn renaming_warnings(
    attrs: Seq<Attribute>,
    owner: Seq<char>,
    reader: Reader,
    features: Features,
) -> Seq<ItemWarningModel> {
    if features.serde {
        owner_warnings(attrs, owner, reader)
    } else {
        Seq::empty()
    }
}

/// The name of a field as it is written; empty for a field of a tuple.
pub open spec fn written_name(field: Field) -> Seq<char> {
    match field.ident {
        Some(ident) => ident@,
        None => Seq::empty(),
    }
}

/// The warnings of a field: those of its renaming, then those of its
/// overrides.
pub open spec fn field_warnings(field: Field, features: Features) -> Seq<ItemWarningModel> {
    renaming_warnings(field.attrs@, written_name(field), Reader::SerdeField, features)
        + owner_warnings(field.attrs@, written_name(field), Reader::SchemaProp)
}

/// The warnings of a list of fields, in order.
pub open spec fn fields_warnings(fields: Seq<Field>, features: Features) -> Seq<ItemWarningModel>
    decreases fields.len(),
{
    if fields.len() == 0 {
        Seq::empty()
    } else {
        fields_warnings(fields.drop_last(), features) + field_warnings(fields.last(), features)
    }
}

/// The warnings of a variant: those of its renaming, then those of its
/// fields.
pub open spec fn variant_warnings(v: Variant, features: Features) -> Seq<ItemWarningModel> {
    renaming_warnings(v.attrs@, v.ident@, Reader::SerdeField, features) + fields_warnings(
        variant_fields(v),
        features,
    )
}

/// The warnings of a list of variants, in order.
pub open spec fn variants_warnings(variants: Seq<Variant>, features: Features) -> Seq<
    ItemWarningModel,
>
    decreases variants.len(),
{
    if variants.len() == 0 {
        Seq::empty()
    } else {
        variants_warnings(variants.drop_last(), features) + variant_warnings(
            variants.last(),
            features,
        )
    }
}

/// The warnings of a declaration: those of its own renaming attributes, then
/// those of its fields or variants. A declaration that is neither a record
/// nor an enum has none.
pub open spec fn item_warnings(item: Item, features: Features) -> Seq<ItemWarningModel> {
    match item {
        Item::Struct(s) => renaming_warnings(s.attrs@, s.ident@, Reader::SerdeType, features)
            + fields_warnings(s.fields@, features),
        Item::Enum(e) => renaming_warnings(e.attrs@, e.ident@, Reader::SerdeType, features)
            + variants_warnings(e.variants@, features),
        Item::Other(_) => Seq::empty(),
    }
}

/// Appends the warnings that a reader gives on the attributes of one owner.
fn collect_owner(out: &mut Vec<ItemWarning>, attrs: &[Attribute], owner: &str, reader: Reader)
    ensures
        item_warning_models(final(out)@) == item_warning_models(old(out)@) + owner_warnings(
            attrs@,
            owner@,
            reader,
        ),
{
    let ghost before = item_warning_models(out@);
    let (_, found) = read_attributes(reader, attrs);
    let ghost all = warning_models(found@);
    assert(all == reading(reader, attrs@).1);
    let mut found = found;
    let mut rest: Vec<AttributeWarning> = Vec::new();
    while found.len() > 0
        invariant
            found@.len() + rest@.len() == all.len(),
            warning_models(found@) == all.take(found@.len() as int),
            forall|j: int| 0 <= j < rest@.len() ==> (#[trigger] rest@[j])@ == all[all.len() - 1 - j],
        decreases found.len(),
    {
        let ghost n = found@.len();
        let w = found.pop().unwrap();
        proof {
            assert(w@ == all.take(n as int)[n - 1]);
            assert(warning_models(found@) =~= all.take(n - 1));
        }
        rest.push(w);
    }
    let ghost mut done: int = 0;
    while rest.len() > 0
        invariant
            0 <= done <= all.len(),
            all == reading(reader, attrs@).1,
            rest@.len() == all.len() - done,
            forall|j: int| 0 <= j < rest@.len() ==> (#[trigger] rest@[j])@ == all[all.len() - 1 - j],
            item_warning_models(out@) == before + owner_warnings(attrs@, owner@, reader).take(done),
        decreases rest.len(),
    {
        let w = rest.pop().unwrap();
        let item = ItemWarning { owner: String::from_str(owner), reader, warning: w };
        proof {
            let wanted = owner_warnings(attrs@, owner@, reader);
            assert(w@ == all[done]);
            assert(item@ == wanted[done]);
            assert(item_warning_models(out@.push(item)) =~= item_warning_models(out@).push(item@));
            assert(before + wanted.take(done + 1) =~= (before + wanted.take(done)).push(
                wanted[done],
            ));
            done = done + 1;
        }
        out.push(item);
    }
    proof {
        let wanted = owner_warnings(attrs@, owner@, reader);
        assert(wanted.take(done) =~= wanted);
    }
}

/// Appends the warnings of the renaming attributes of one owner.
fn collect_renaming(
    out: &mut Vec<ItemWarning>,
    attrs: &[Attribute],
    owner: &str,
    reader: Reader,
    features: &Features,
)
    ensures
        item_warning_models(final(out)@) == item_warning_models(old(out)@) + renaming_warnings(
            attrs@,
            owner@,
            reader,
            *features,
        ),
{
    if features.has_serde() {
        collect_owner(out, attrs, owner, reader);
    } else {
        assert(item_warning_models(out@) + Seq::<ItemWarningModel>::empty() =~= item_warning_models(
            out@,
        ));
    }
}

/// Appends the warnings of a list of fields.
fn collect_fields(out: &mut Vec<ItemWarning>, fields: &Vec<Field>, features: &Features)
    ensures
        item_warning_models(final(out)@) == item_warning_models(old(out)@) + fields_warnings(
            fields@,
            *features,
        ),
{
    let ghost before = item_warning_models(out@);
    let mut i: usize = 0;
    proof {
        assert(before + Seq::<ItemWarningModel>::empty() =~= before);
    }
    while i < fields.len()
        invariant
            i <= fields.len(),
            item_warning_models(out@) == before + fields_warnings(
                fields@.take(i as int),
                *features,
            ),
        decreases fields.len() - i,
    {
        let ghost so_far = fields_warnings(fields@.take(i as int), *features);
        let no_name = String::new();
        let owner = match &fields[i].ident {
            Some(ident) => ident,
            None => &no_name,
        };
        collect_renaming(out, fields[i].attrs.as_slice(), owner.as_str(), Reader::SerdeField, features);
        collect_owner(out, fields[i].attrs.as_slice(), owner.as_str(), Reader::SchemaProp);
        proof {
            assert(fields@.take(i + 1).drop_last() =~= fields@.take(i as int));
            assert(fields@.take(i + 1).last() == fields@[i as int]);
            let renaming = renaming_warnings(
                fields@[i as int].attrs@,
                written_name(fields@[i as int]),
                Reader::SerdeField,
                *features,
            );
            let overrides = owner_warnings(
                fields@[i as int].attrs@,
                written_name(fields@[i as int]),
                Reader::SchemaProp,
            );
            assert(before + so_far + renaming + overrides =~= before + (so_far + (renaming
                + overrides)));
        }
        i += 1;
    }
    assert(fields@.take(fields.len() as int) =~= fields@);
}

/// Appends the warnings of a list of variants.
fn collect_variants(out: &mut Vec<ItemWarning>, variants: &Vec<Variant>, features: &Features)
    ensures
        item_warning_models(final(out)@) == item_warning_models(old(out)@) + variants_warnings(
            variants@,
            *features,
        ),
{
    let ghost before = item_warning_models(out@);
    let mut i: usize = 0;
    proof {
        assert(before + Seq::<ItemWarningModel>::empty() =~= before);
    }
    while i < variants.len()
        invariant
            i <= variants.len(),
            item_warning_models(out@) == before + variants_warnings(
                variants@.take(i as int),
                *features,
            ),
        decreases variants.len() - i,
    {
        let ghost so_far = variants_warnings(variants@.take(i as int), *features);
        let v = &variants[i];
        collect_renaming(out, v.attrs.as_slice(), v.ident.as_str(), Reader::SerdeField, features);
        let ghost middle = item_warning_models(out@);
        let ghost of_fields = fields_warnings(variant_fields(*v), *features);
        match &v.fields {
            Some(fields) => {
                collect_fields(out, fields, features);
            },
            None => {
                assert(middle + Seq::<ItemWarningModel>::empty() =~= middle);
            },
        }
        proof {
            assert(variants@.take(i + 1).drop_last() =~= variants@.take(i as int));
            assert(variants@.take(i + 1).last() == *v);
            let renaming = renaming_warnings(v.attrs@, v.ident@, Reader::SerdeField, *features);
            assert(before + so_far + renaming + of_fields =~= before + (so_far + (renaming
                + of_fields)));
        }
        i += 1;
    }
    assert(variants@.take(variants.len() as int) =~= variants@);
}

/// The warnings of a declaration, in the order in which its attributes are
/// written.
pub fn collect_warnings(item: &Item, features: &Features) -> (r: Vec<ItemWarning>)
    ensures
        item_warning_models(r@) == item_warnings(*item, *features),
{
    let mut out: Vec<ItemWarning> = Vec::new();
    let ghost nothing = item_warning_models(out@);
    assert(nothing =~= Seq::<ItemWarningModel>::empty());
    match item {
        Item::Struct(s) => {
            collect_renaming(&mut out, s.attrs.as_slice(), s.ident.as_str(), Reader::SerdeType, features);
            collect_fields(&mut out, &s.fields, features);
            proof {
                let own = renaming_warnings(s.attrs@, s.ident@, Reader::SerdeType, *features);
                let rest = fields_warnings(s.fields@, *features);
                assert(nothing + own + rest =~= own + rest);
            }
        },
        Item::Enum(e) => {
            collect_renaming(&mut out, e.attrs.as_slice(), e.ident.as_str(), Reader::SerdeType, features);
            collect_variants(&mut out, &e.variants, features);
            proof {
                let own = renaming_warnings(e.attrs@, e.ident@, Reader::SerdeType, *features);
                let rest = variants_warnings(e.variants@, *features);
                assert(nothing + own + rest =~= own + rest);
            }
        },
        Item::Other(_) => {},
    }
    out
}

impl ItemWarning {
    /// A sentence for the reader.
    pub fn message(&self) -> (r: String)
        ensures
            r@ == self@.message(),
    {
        let mut out = String::from_str("attribute `");
        out.append(
            match self.reader {
                Reader::SchemaProp => "model_schema_prop",
                _ => "serde",
            },
        );
        out.append("` of `");
        out.append(self.owner.as_str());
        out.append("` is read up to its entry `");
        out.append(self.warning.key.as_str());
        out.append("` only");
        out
    }
}

impl ItemWarningModel {
    /// The sentence that tells which attribute of which owner was not read
    /// to its end, and at which entry reading stopped.
    pub open spec fn message(self) -> Seq<char> {
        "attribute `"@ + crate::attributes::reader_path(self.reader) + "` of `"@ + self.owner
            + "` is read up to its entry `"@ + self.warning.key + "` only"@
    }
}

} // verus!
