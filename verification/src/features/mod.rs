//! The optional capabilities of the compiler and what each contributes.

pub mod jsonschema;
pub mod model_schema_prop;
pub mod object_id;
pub mod serde;
pub mod zod;

use vstd::prelude::*;

verus! {

/// Which capabilities are switched on for a compilation.
#[derive(Debug, Clone, Copy, PartialEq, Eq, Structural)]
pub struct Features {
    /// Renaming attributes are honoured.
    pub serde: bool,
    /// The runtime validator is emitted.
    pub zod: bool,
    /// The JSON Schema is emitted.
    pub jsonschema: bool,
    /// The identifier of a stored object is recognised by its name.
    pub object_id: bool,
    /// The static type is emitted, and validators are annotated with it.
    pub typescript: bool,
}

/// The names of the capabilities that are switched on, in the fixed order
/// serde, zod, jsonschema, object_id, typescript.
pub open spec fn enabled_names(f: Features) -> Seq<Seq<char>> {
    (if f.serde {
        seq!["serde"@]
    } else {
        Seq::empty()
    }) + (if f.zod {
        seq!["zod"@]
    } else {
        Seq::empty()
    }) + (if f.jsonschema {
        seq!["jsonschema"@]
    } else {
        Seq::empty()
    }) + (if f.object_id {
        seq!["object_id"@]
    } else {
        Seq::empty()
    }) + (if f.typescript {
        seq!["typescript"@]
    } else {
        Seq::empty()
    })
}

/// The views of a list of string slices.
pub open spec fn slice_texts(v: Seq<&'static str>) -> Seq<Seq<char>> {
    Seq::new(v.len(), |i: int| v[i]@)
}

impl Features {
    /// Every capability switched on.
    pub fn all() -> (r: Features)
        ensures
            r == (Features {
                serde: true,
                zod: true,
                jsonschema: true,
                object_id: true,
                typescript: true,
            }),
    {
        Features { serde: true, zod: true, jsonschema: true, object_id: true, typescript: true }
    }

    pub fn has_serde(&self) -> (r: bool)
        ensures
            r == self.serde,
    {
        self.serde
    }

    pub fn has_zod(&self) -> (r: bool)
        ensures
            r == self.zod,
    {
        self.zod
    }

    pub fn has_jsonschema(&self) -> (r: bool)
        ensures
            r == self.jsonschema,
    {
        self.jsonschema
    }

    pub fn has_object_id(&self) -> (r: bool)
        ensures
            r == self.object_id,
    {
        self.object_id
    }

    pub fn has_typescript(&self) -> (r: bool)
        ensures
            r == self.typescript,
    {
        self.typescript
    }

    /// The names of the capabilities that are switched on, or the single name
    /// `minimal` where none is.
    pub fn enabled_features(&self) -> (r: Vec<&'static str>)
        ensures
            slice_texts(r@) == (if enabled_names(*self).len() == 0 {
                seq!["minimal"@]
            } else {
                enabled_names(*self)
            }),
    {
        let mut features: Vec<&'static str> = Vec::new();
        if self.has_serde() {
            features.push("serde");
        }
        if self.has_zod() {
            features.push("zod");
        }
        if self.has_jsonschema() {
            features.push("jsonschema");
        }
        if self.has_object_id() {
            features.push("object_id");
        }
        if self.has_typescript() {
            features.push("typescript");
        }
        assert(slice_texts(features@) =~= enabled_names(*self));
        if features.len() == 0 {
            features.push("minimal");
            assert(slice_texts(features@) =~= seq!["minimal"@]);
        }
        features
    }
}

impl Default for Features {
    /// Every capability switched on.
    fn default() -> (r: Features)
        ensures
            r == (Features {
                serde: true,
                zod: true,
                jsonschema: true,
                object_id: true,
                typescript: true,
            }),
    {
        Features::all()
    }
}

} // verus!
