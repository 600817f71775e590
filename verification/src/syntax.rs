//! The declarations that the compiler reads, as plain data.
//!
//! Whoever parses the host language hands over a declaration in this form:
//! names, types, documentation and attributes, with nothing resolved yet.

use vstd::prelude::*;

verus! {

/// A type as written in a declaration.
#[derive(Debug)]
pub enum TypeExpr {
    /// A path without arguments, by its last segment: `String`, `a::B`.
    Named(String),
    /// A path with arguments in angle brackets, by its last segment and its
    /// type arguments in order (lifetimes and constants left out):
    /// `Option<T>`, `HashMap<K, V>`.
    Generic(String, Vec<TypeExpr>),
    /// A path with arguments in parentheses, by the whole type as it is
    /// written: `Fn(A) -> B`.
    Callable(String),
    /// A reference to a type: `&T`.
    Ref(Box<TypeExpr>),
    /// An array of fixed length: `[T; N]`.
    Array(Box<TypeExpr>),
    /// A slice: `[T]`.
    Slice(Box<TypeExpr>),
    /// A tuple, by its elements in order: `(A, B)`.
    Tuple(Vec<TypeExpr>),
    /// Anything else.
    Other,
}

/// The value written behind `=` in an attribute.
#[derive(Debug)]
pub enum MetaValue {
    /// A string literal, by its contents.
    Str(String),
    /// An integer literal, by its value where that fits the machine word.
    Int(Option<usize>),
    /// A type, as text.
    Type(String),
    /// Anything else, a parenthesised list included.
    Other,
}

/// One entry of an attribute's list: `key` or `key = value`.
#[derive(Debug)]
pub struct MetaItem {
    /// The entry's path; an identifier where the path has one segment.
    pub key: String,
    /// What follows the key; nothing for a bare key.
    pub value: Option<MetaValue>,
}

/// What follows the path of an attribute.
#[derive(Debug)]
pub enum AttrArgs {
    /// Nothing: `#[path]`.
    Bare,
    /// A value: `#[path = value]`.
    Value(MetaValue),
    /// A list of entries, as far as it is well formed: `#[path(a, b = 1)]`.
    List(Vec<MetaItem>),
}

/// An attribute of a declaration, a field or a variant.
#[derive(Debug)]
pub struct Attribute {
    /// The attribute's path; an identifier where the path has one segment.
    pub path: String,
    pub args: AttrArgs,
}

/// A field of a record or of a variant.
#[derive(Debug)]
pub struct Field {
    pub attrs: Vec<Attribute>,
    /// The field's name; none for a field of a tuple.
    pub ident: Option<String>,
    pub ty: TypeExpr,
}

/// A variant of an enum.
#[derive(Debug)]
pub struct Variant {
    pub attrs: Vec<Attribute>,
    pub ident: String,
    /// The variant's fields; none for a unit variant.
    pub fields: Option<Vec<Field>>,
}

/// A record.
#[derive(Debug)]
pub struct ItemStruct {
    pub attrs: Vec<Attribute>,
    pub ident: String,
    pub fields: Vec<Field>,
}

/// An enum.
#[derive(Debug)]
pub struct ItemEnum {
    pub attrs: Vec<Attribute>,
    pub ident: String,
    pub variants: Vec<Variant>,
}

/// A declaration handed to the compiler.
#[derive(Debug)]
pub enum Item {
    Struct(ItemStruct),
    Enum(ItemEnum),
    /// Any other kind of declaration, by what it is.
    Other(String),
}

} // verus!
