//! Reading the entries of attributes.
//!
//! An attribute is read entry by entry. An entry that the reader knows sets
//! a property; a bare entry that it does not know is passed over. Reading an
//! attribute stops at the first entry that is malformed for the reader: a
//! known key without the kind of value it takes, or an unknown key that
//! carries a value. What was set before stays set, and a warning records
//! where reading stopped.

use crate::features::model_schema_prop::{opt_text, MetaModel};
use crate::features::serde::{FieldMetaModel, TypeMetaModel};
use crate::syntax::{AttrArgs, Attribute, MetaItem, MetaValue};
use crate::text::same_text;
use vstd::prelude::*;
use vstd::string::*;

verus! {

/// The three readers.
#[derive(Debug, Clone, Copy, PartialEq, Eq, Structural)]
pub enum Reader {
    /// `serde(..)` on a record or an enum: `tag`, `rename_all`.
    SerdeType,
    /// `serde(..)` on a field or a variant: `rename`, and the `skip` family.
    SerdeField,
    /// `model_schema_prop(..)` on a field: `as`, `literal`, `minLength`.
    SchemaProp,
}

/// Everything the readers can set.
#[derive(Debug)]
pub struct Properties {
    pub tag: Option<String>,
    pub rename_all: Option<String>,
    pub rename: Option<String>,
    pub skip: bool,
    pub as_type: Option<String>,
    pub literal: Option<String>,
    pub min_length: Option<usize>,
}

/// What a [`Properties`] holds.
pub ghost struct PropertiesModel {
    pub tag: Option<Seq<char>>,
    pub rename_all: Option<Seq<char>>,
    pub rename: Option<Seq<char>>,
    pub skip: bool,
    pub as_type: Option<Seq<char>>,
    pub literal: Option<Seq<char>>,
    pub min_length: Option<nat>,
}

impl View for Properties {
    type V = PropertiesModel;

    open spec fn view(&self) -> PropertiesModel {
        PropertiesModel {
            tag: opt_text(self.tag),
            rename_all: opt_text(self.rename_all),
            rename: opt_text(self.rename),
            skip: self.skip,
            as_type: opt_text(self.as_type),
            literal: opt_text(self.literal),
            min_length: match self.min_length {
                Some(n) => Some(n as nat),
                None => None,
            },
        }
    }
}

impl PropertiesModel {
    /// Nothing set.
    pub open spec fn empty() -> PropertiesModel {
        PropertiesModel {
            tag: None,
            rename_all: None,
            rename: None,
            skip: false,
            as_type: None,
            literal: None,
            min_length: None,
        }
    }

    pub open spec fn type_meta(self) -> TypeMetaModel {
        TypeMetaModel { tag: self.tag, rename_all: self.rename_all }
    }

    pub open spec fn field_meta(self) -> FieldMetaModel {
        FieldMetaModel { rename: self.rename, skip: self.skip }
    }

    pub open spec fn schema_prop(self) -> MetaModel {
        MetaModel { as_type: self.as_type, literal: self.literal, min_length: self.min_length }
    }
}

/// A place where the reading of an attribute stopped.
#[derive(Debug)]
pub struct AttributeWarning {
    /// The position of the attribute among those of its owner.
    pub attribute: usize,
    /// The position of the entry at which reading stopped.
    pub entry: usize,
    /// The key of that entry; empty where the attribute has no list.
    pub key: String,
}

/// What an [`AttributeWarning`] holds.
pub ghost struct WarningModel {
    pub attribute: nat,
    pub entry: nat,
    pub key: Seq<char>,
}

impl View for AttributeWarning {
    type V = WarningModel;

    open spec fn view(&self) -> WarningModel {
        WarningModel { attribute: self.attribute as nat, entry: self.entry as nat, key: self.key@ }
    }
}

/// The views of a list of warnings.
pub open spec fn warning_models(w: Seq<AttributeWarning>) -> Seq<WarningModel> {
    Seq::new(w.len(), |i: int| w[i]@)
}

/// The path of the attributes that a reader reads.
pub open spec fn reader_path(reader: Reader) -> Seq<char> {
    match reader {
        Reader::SchemaProp => "model_schema_prop"@,
        _ => "serde"@,
    }
}

/// The text of a string value.
pub open spec fn string_value(value: Option<MetaValue>) -> Option<Seq<char>> {
    match value {
        Some(MetaValue::Str(s)) => Some(s@),
        _ => None,
    }
}

/// Whether `key` names the skipping of a field.
pub open spec fn is_skip_key(key: Seq<char>) -> bool {
    key == "skip"@ || key == "skip_serializing"@ || key == "skip_deserializing"@ || key
        == "skip_serializing_if"@
}

/// The properties after one entry, and whether reading goes on behind it.
pub open spec fn after_item(reader: Reader, p: PropertiesModel, item: MetaItem) -> (
    PropertiesModel,
    bool,
) {
    let key = item.key@;
    let text = string_value(item.value);
    match reader {
        Reader::SerdeType => if key == "tag"@ {
            match text {
                Some(s) => (PropertiesModel { tag: Some(s), ..p }, true),
                None => (p, false),
            }
        } else if key == "rename_all"@ {
            match text {
                Some(s) => (PropertiesModel { rename_all: Some(s), ..p }, true),
                None => (p, false),
            }
        } else {
            (p, item.value is None)
        },
        Reader::SerdeField => if key == "rename"@ {
            match text {
                Some(s) => (PropertiesModel { rename: Some(s), ..p }, true),
                None => (p, false),
            }
        } else if is_skip_key(key) {
            (PropertiesModel { skip: true, ..p }, item.value is None)
        } else {
            (p, item.value is None)
        },
        Reader::SchemaProp => if key == "as"@ {
            match item.value {
                Some(MetaValue::Type(t)) => (PropertiesModel { as_type: Some(t@), ..p }, true),
                _ => (p, false),
            }
        } else if key == "literal"@ {
            match text {
                Some(s) => (PropertiesModel { literal: Some(s), ..p }, true),
                None => (p, false),
            }
        } else if key == "minLength"@ {
            match item.value {
                Some(MetaValue::Int(Some(n))) => (
                    PropertiesModel { min_length: Some(n as nat), ..p },
                    true,
                ),
                Some(MetaValue::Int(None)) => (p, true),
                _ => (p, false),
            }
        } else {
            (p, item.value is None)
        },
    }
}

/// The properties after the entries from position `from` on, and the
/// position at which reading stopped, if it did.
pub open spec fn after_items(reader: Reader, p: PropertiesModel, items: Seq<MetaItem>, from: nat) -> (
    PropertiesModel,
    Option<nat>,
)
    decreases items.len() - from,
{
    if from >= items.len() {
        (p, None)
    } else {
        let (next, go_on) = after_item(reader, p, items[from as int]);
        if go_on {
            after_items(reader, next, items, from + 1)
        } else {
            (next, Some(from))
        }
    }
}

/// The properties after one attribute, and the warning it gives rise to.
pub open spec fn after_attribute(reader: Reader, p: PropertiesModel, attrs: Seq<Attribute>, at: nat) -> (
    PropertiesModel,
    Option<WarningModel>,
)
    recommends
        at < attrs.len(),
{
    let a = attrs[at as int];
    if a.path@ != reader_path(reader) {
        (p, None)
    } else {
        match a.args {
            AttrArgs::List(items) => {
                let (next, stopped) = after_items(reader, p, items@, 0);
                (
                    next,
                    match stopped {
                        Some(j) => Some(
                            WarningModel { attribute: at, entry: j, key: items@[j as int].key@ },
                        ),
                        None => None,
                    },
                )
            },
            _ => (p, Some(WarningModel { attribute: at, entry: 0, key: Seq::empty() })),
        }
    }
}

/// The properties after the attributes from position `from` on, and the
/// warnings they give rise to, in order.
pub open spec fn after_attributes(reader: Reader, p: PropertiesModel, attrs: Seq<Attribute>, from: nat) -> (
    PropertiesModel,
    Seq<WarningModel>,
)
    decreases attrs.len() - from,
{
    if from >= attrs.len() {
        (p, Seq::empty())
    } else {
        let (next, warning) = after_attribute(reader, p, attrs, from);
        let (last, rest) = after_attributes(reader, next, attrs, from + 1);
        (
            last,
            match warning {
                Some(w) => seq![w] + rest,
                None => rest,
            },
        )
    }
}

/// What a reader makes of a list of attributes.
pub open spec fn reading(reader: Reader, attrs: Seq<Attribute>) -> (
    PropertiesModel,
    Seq<WarningModel>,
) {
    after_attributes(reader, PropertiesModel::empty(), attrs, 0)
}

/// The contents of a string value.
fn string_of_value(value: &Option<MetaValue>) -> (r: Option<String>)
    ensures
        opt_text(r) == string_value(*value),
{
    match value {
        Some(MetaValue::Str(s)) => Some(s.clone()),
        _ => None,
    }
}

/// Reads one entry. Returns whether reading goes on behind it.
fn read_item(reader: Reader, p: &mut Properties, item: &MetaItem) -> (go_on: bool)
    ensures
        (final(p)@, go_on) == after_item(reader, old(p)@, *item),
{
    let key = item.key.as_str();
    let bare = item.value.is_none();
    match reader {
        Reader::SerdeType => {
            if same_text(key, "tag") {
                match string_of_value(&item.value) {
                    Some(s) => {
                        p.tag = Some(s);
                        true
                    },
                    None => false,
                }
            } else if same_text(key, "rename_all") {
                match string_of_value(&item.value) {
                    Some(s) => {
                        p.rename_all = Some(s);
                        true
                    },
                    None => false,
                }
            } else {
                bare
            }
        },
        Reader::SerdeField => {
            if same_text(key, "rename") {
                match string_of_value(&item.value) {
                    Some(s) => {
                        p.rename = Some(s);
                        true
                    },
                    None => false,
                }
            } else if same_text(key, "skip") || same_text(key, "skip_serializing") || same_text(
                key,
                "skip_deserializing",
            ) || same_text(key, "skip_serializing_if") {
                p.skip = true;
                bare
            } else {
                bare
            }
        },
        Reader::SchemaProp => {
            if same_text(key, "as") {
                match &item.value {
                    Some(MetaValue::Type(t)) => {
                        p.as_type = Some(t.clone());
                        true
                    },
                    _ => false,
                }
            } else if same_text(key, "literal") {
                match string_of_value(&item.value) {
                    Some(s) => {
                        p.literal = Some(s);
                        true
                    },
                    None => false,
                }
            } else if same_text(key, "minLength") {
                match &item.value {
                    Some(MetaValue::Int(Some(n))) => {
                        p.min_length = Some(*n);
                        true
                    },
                    Some(MetaValue::Int(None)) => true,
                    _ => false,
                }
            } else {
                bare
            }
        },
    }
}

/// Reads the entries of one attribute. Returns the position at which reading
/// stopped, if it did.
fn read_items(reader: Reader, p: &mut Properties, items: &Vec<MetaItem>) -> (stopped: Option<usize>)
    ensures
        after_items(reader, old(p)@, items@, 0) == (
            final(p)@,
            match stopped {
                Some(j) => Some(j as nat),
                None => None,
            },
        ),
        stopped is Some ==> stopped->Some_0 < items.len(),
{
    let mut i: usize = 0;
    while i < items.len()
        invariant
            i <= items.len(),
            after_items(reader, old(p)@, items@, 0) == after_items(reader, p@, items@, i as nat),
        decreases items.len() - i,
    {
        let go_on = read_item(reader, p, &items[i]);
        if !go_on {
            return Some(i);
        }
        i += 1;
    }
    None
}

/// Reads the attributes that `reader` reads among `attrs`, in order.
pub fn read_attributes(reader: Reader, attrs: &[Attribute]) -> (r: (Properties, Vec<AttributeWarning>))
    ensures
        (r.0@, warning_models(r.1@)) == reading(reader, attrs@),
{
    let mut p = Properties {
        tag: None,
        rename_all: None,
        rename: None,
        skip: false,
        as_type: None,
        literal: None,
        min_length: None,
    };
    let mut warnings: Vec<AttributeWarning> = Vec::new();
    let path = match reader {
        Reader::SchemaProp => "model_schema_prop",
        _ => "serde",
    };
    let mut i: usize = 0;
    while i < attrs.len()
        invariant
            i <= attrs.len(),
            path@ == reader_path(reader),
            reading(reader, attrs@).0 == after_attributes(reader, p@, attrs@, i as nat).0,
            reading(reader, attrs@).1 == warning_models(warnings@) + after_attributes(
                reader,
                p@,
                attrs@,
                i as nat,
            ).1,
        decreases attrs.len() - i,
    {
        let ghost before = p@;
        let ghost seen = warning_models(warnings@);
        if same_text(attrs[i].path.as_str(), path) {
            match &attrs[i].args {
                AttrArgs::List(items) => {
                    if let Some(j) = read_items(reader, &mut p, items) {
                        warnings.push(
                            AttributeWarning { attribute: i, entry: j, key: items[j].key.clone() },
                        );
                    }
                },
                _ => {
                    warnings.push(AttributeWarning { attribute: i, entry: 0, key: String::new() });
                },
            }
        }
        proof {
            let (next, warning) = after_attribute(reader, before, attrs@, i as nat);
            let (last, rest) = after_attributes(reader, next, attrs@, (i + 1) as nat);
            assert(p@ == next);
            match warning {
                Some(w) => {
                    assert(warning_models(warnings@) =~= seen.push(w));
                    assert(seen + (seq![w] + rest) =~= seen.push(w) + rest);
                },
                None => {
                    assert(warning_models(warnings@) =~= seen);
                },
            }
        }
        i += 1;
    }
    proof {
        assert(warning_models(warnings@) + Seq::<WarningModel>::empty() =~= warning_models(
            warnings@,
        ));
    }
    (p, warnings)
}

} // verus!
