//! The schemas of the types compiled so far, by declared name.
//!
//! A field that names another type takes that type's schema from here: types
//! refer to each other by name only, and each is compiled on its own.

use crate::json::{json_clone, json_doc, JsonDoc};
use crate::model_schema::CompiledModel;
use crate::text::{same_text, texts};
use vstd::prelude::*;
use vstd::string::*;

verus! {

/// What is known of one compiled type.
#[derive(Debug)]
pub struct RegistryEntry {
    /// The name under which the type was declared.
    pub name: String,
    /// Its JSON Schema.
    pub schema: serde_json::Value,
    /// Its values, where it is a plain enum.
    pub members: Option<Vec<String>>,
}

/// The compiled types, in the order in which they were registered.
#[derive(Debug)]
pub struct SchemaRegistry {
    pub entries: Vec<RegistryEntry>,
}

/// What a [`RegistryEntry`] holds.
pub ghost struct EntryModel {
    pub name: Seq<char>,
    pub schema: JsonDoc,
    pub members: Option<Seq<Seq<char>>>,
}

impl View for RegistryEntry {
    type V = EntryModel;

    open spec fn view(&self) -> EntryModel {
        EntryModel {
            name: self.name@,
            schema: json_doc(self.schema),
            members: match self.members {
                Some(m) => Some(texts(m@)),
                None => None,
            },
        }
    }
}

impl View for SchemaRegistry {
    type V = Seq<EntryModel>;

    open spec fn view(&self) -> Seq<EntryModel> {
        Seq::new(self.entries@.len(), |i: int| self.entries@[i]@)
    }
}

/// The entry registered last under `name`.
pub open spec fn find_entry(entries: Seq<EntryModel>, name: Seq<char>) -> Option<EntryModel>
    decreases entries.len(),
{
    if entries.len() == 0 {
        None
    } else if entries.last().name == name {
        Some(entries.last())
    } else {
        find_entry(entries.drop_last(), name)
    }
}

impl SchemaRegistry {
    /// A registry without entries.
    pub fn new() -> (r: SchemaRegistry)
        ensures
            r@ == Seq::<EntryModel>::empty(),
    {
        let r = SchemaRegistry { entries: Vec::new() };
        assert(r@ =~= Seq::<EntryModel>::empty());
        r
    }

    /// Registers a type. An entry registered earlier under the same name is
    /// no longer found.
    pub fn register(&mut self, entry: RegistryEntry)
        ensures
            final(self)@ == old(self)@.push(entry@),
    {
        self.entries.push(entry);
        assert(self@ =~= old(self)@.push(entry@));
    }

    /// Registers a compiled declaration under the name it was declared with,
    /// where it has a schema. Returns whether it has one.
    pub fn register_model(&mut self, model: &CompiledModel) -> (r: bool)
        ensures
            r == model@.json_schema is Some,
            r ==> final(self)@ == old(self)@.push(
                EntryModel {
                    name: model@.declared_name,
                    schema: model@.json_schema->Some_0,
                    members: model@.enum_members,
                },
            ),
            !r ==> final(self)@ == old(self)@,
    {
        match &model.json_schema {
            Some(schema) => {
                let members = match &model.enum_members {
                    Some(names) => Some(copy_texts(names)),
                    None => None,
                };
                self.register(
                    RegistryEntry {
                        name: model.declared_name.clone(),
                        schema: json_clone(schema),
                        members,
                    },
                );
                true
            },
            None => false,
        }
    }

    /// The position of the entry registered last under `name`.
    pub fn position(&self, name: &str) -> (r: Option<usize>)
        ensures
            match r {
                Some(i) => i < self@.len() && find_entry(self@, name@) == Some(self@[i as int])
                    && self@[i as int] == self.entries@[i as int]@,
                None => find_entry(self@, name@) is None,
            },
    {
        let mut i: usize = self.entries.len();
        assert(self@.take(i as int) =~= self@);
        while i > 0
            invariant
                i <= self.entries.len(),
                find_entry(self@, name@) == find_entry(self@.take(i as int), name@),
            decreases i,
        {
            assert(self@.take(i as int).drop_last() =~= self@.take(i - 1));
            if same_text(self.entries[i - 1].name.as_str(), name) {
                return Some(i - 1);
            }
            i -= 1;
        }
        None
    }

    /// Whether a type is registered under `name`.
    pub fn contains(&self, name: &str) -> (r: bool)
        ensures
            r == find_entry(self@, name@) is Some,
    {
        self.position(name).is_some()
    }

    /// A copy of the schema registered last under `name`.
    pub fn schema_of(&self, name: &str) -> (r: Option<serde_json::Value>)
        ensures
            match r {
                Some(v) => find_entry(self@, name@) is Some && json_doc(v) == find_entry(
                    self@,
                    name@,
                )->Some_0.schema,
                None => find_entry(self@, name@) is None,
            },
    {
        match self.position(name) {
            Some(i) => Some(json_clone(&self.entries[i].schema)),
            None => None,
        }
    }
}

/// A copy of a list of strings.
pub fn copy_texts(items: &Vec<String>) -> (r: Vec<String>)
    ensures
        texts(r@) == texts(items@),
{
    let mut out: Vec<String> = Vec::new();
    let mut i: usize = 0;
    while i < items.len()
        invariant
            i <= items.len(),
            out.len() == i,
            forall|j: int| 0 <= j < i ==> (#[trigger] out@[j])@ == items@[j]@,
        decreases items.len() - i,
    {
        out.push(items[i].clone());
        i += 1;
    }
    assert(texts(out@) =~= texts(items@));
    out
}

} // verus!
