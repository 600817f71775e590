//! Why a declaration could not be compiled.

use vstd::prelude::*;
use vstd::string::*;

verus! {

/// The kinds of failure.
#[derive(Debug, Clone, Copy, PartialEq, Eq, Structural)]
pub enum ErrorKind {
    /// A type outside the supported shapes.
    UnsupportedShape,
    /// A declaration that is neither a record nor an enum.
    UnsupportedTarget,
    /// A named type whose schema is not in the registry.
    UnknownReference,
    /// A map key type that is registered without a list of values.
    NotEnumerable,
}

/// A failed compilation: what failed, and where. Nothing is emitted for the
/// declaration.
#[derive(Debug)]
pub struct SchemaError {
    pub kind: ErrorKind,
    /// The declaration being compiled.
    pub declaration: String,
    /// The field or variant at fault; empty where none is.
    pub field: String,
    /// The offending type, as text.
    pub type_text: String,
}

/// What a [`SchemaError`] holds.
pub ghost struct ErrorModel {
    pub kind: ErrorKind,
    pub declaration: Seq<char>,
    pub field: Seq<char>,
    pub type_text: Seq<char>,
}

impl View for SchemaError {
    type V = ErrorModel;

    open spec fn view(&self) -> ErrorModel {
        ErrorModel {
            kind: self.kind,
            declaration: self.declaration@,
            field: self.field@,
            type_text: self.type_text@,
        }
    }
}

impl ErrorModel {
    /// An error about the type `type_text` of the field `field`, outside any
    /// declaration.
    pub open spec fn at_field(kind: ErrorKind, field: Seq<char>, type_text: Seq<char>) -> ErrorModel {
        ErrorModel { kind, declaration: Seq::empty(), field, type_text }
    }

    /// The same error, inside the declaration `declaration`.
    pub open spec fn within(self, declaration: Seq<char>) -> ErrorModel {
        ErrorModel { declaration, ..self }
    }

    /// The same error, about the field `field`.
    pub open spec fn about(self, field: Seq<char>) -> ErrorModel {
        ErrorModel { field, ..self }
    }

    /// The sentence that names the cause.
    pub open spec fn cause(self) -> Seq<char> {
        match self.kind {
            ErrorKind::UnsupportedShape => "unsupported type `"@ + self.type_text + "`"@,
            ErrorKind::UnsupportedTarget => "unsupported target `"@ + self.type_text + "`"@,
            ErrorKind::UnknownReference => "unknown type reference `"@ + self.type_text + "`"@,
            ErrorKind::NotEnumerable => "map key type `"@ + self.type_text + "` has no list of values"@,
        }
    }

    /// The whole message: the cause, then the field, then the declaration,
    /// each where it is known.
    pub open spec fn message(self) -> Seq<char> {
        let with_field = if self.field.len() == 0 {
            self.cause()
        } else {
            self.cause() + " in field `"@ + self.field + "`"@
        };
        if self.declaration.len() == 0 {
            with_field
        } else {
            with_field + " of `"@ + self.declaration + "`"@
        }
    }
}

impl SchemaError {
    /// An error about the type `type_text` of the field `field`.
    pub fn at_field(kind: ErrorKind, field: &str, type_text: &str) -> (r: SchemaError)
        ensures
            r@ == ErrorModel::at_field(kind, field@, type_text@),
    {
        SchemaError {
            kind,
            declaration: String::new(),
            field: String::from_str(field),
            type_text: String::from_str(type_text),
        }
    }

    /// The same error, inside the declaration `declaration`.
    pub fn within(self, declaration: &str) -> (r: SchemaError)
        ensures
            r@ == self@.within(declaration@),
    {
        SchemaError {
            kind: self.kind,
            declaration: String::from_str(declaration),
            field: self.field,
            type_text: self.type_text,
        }
    }

    /// The same error, about the field `field`.
    pub fn about(self, field: &str) -> (r: SchemaError)
        ensures
            r@ == self@.about(field@),
    {
        SchemaError {
            kind: self.kind,
            declaration: self.declaration,
            field: String::from_str(field),
            type_text: self.type_text,
        }
    }

    /// A sentence for the reader: the cause, the field and the declaration.
    pub fn message(&self) -> (r: String)
        ensures
            r@ == self@.message(),
    {
        let mut out = match self.kind {
            ErrorKind::UnsupportedShape => String::from_str("unsupported type `"),
            ErrorKind::UnsupportedTarget => String::from_str("unsupported target `"),
            ErrorKind::UnknownReference => String::from_str("unknown type reference `"),
            ErrorKind::NotEnumerable => String::from_str("map key type `"),
        };
        out.append(self.type_text.as_str());
        match self.kind {
            ErrorKind::NotEnumerable => out.append("` has no list of values"),
            _ => out.append("`"),
        }
        if self.field.as_str().unicode_len() != 0 {
            out.append(" in field `");
            out.append(self.field.as_str());
            out.append("`");
        }
        if self.declaration.as_str().unicode_len() != 0 {
            out.append(" of `");
            out.append(self.declaration.as_str());
            out.append("`");
        }
        out
    }
}

} // verus!
