//! The structural description of a record that the generator reads: its
//! fields, each field's declared type, and each field's annotations.
//!
//! These are plain data. A front end fills them in from whatever syntax tree
//! it has at hand; the generator looks at nothing else.

use vstd::prelude::*;

verus! {

/// One generic argument of a path segment.
#[derive(Debug, PartialEq, Eq)]
pub enum GenericArgument {
    /// A type argument, as `String` in `Vec<String>`.
    Type(TypeExpr),
    /// Anything that is not a type: a lifetime, a constant, a binding.
    Other,
}

/// What follows the name of a path segment.
#[derive(Debug, PartialEq, Eq)]
pub enum PathArguments {
    /// Nothing, as in `String`.
    Empty,
    /// `<A, B>`, as in `Vec<String>`.
    AngleBracketed(Vec<GenericArgument>),
    /// `(A, B) -> C`, as in `Fn(u8) -> u8`.
    Parenthesized,
}

/// One segment of a path: a name and its arguments.
#[derive(Debug, PartialEq, Eq)]
pub struct PathSegment {
    pub ident: String,
    pub arguments: PathArguments,
}

/// A declared type.
#[derive(Debug, PartialEq, Eq)]
pub struct TypeExpr {
    /// The type as it is written in generated code.
    pub text: String,
    /// The segments of the path when the type is written as one
    /// (`std::vec::Vec<u8>` has three); `None` for every other form of type.
    pub path: Option<Vec<PathSegment>>,
}

/// A literal value inside an annotation.
#[derive(Debug, PartialEq, Eq)]
pub enum Literal {
    /// A string literal, holding the string it denotes.
    Str(String),
    /// Any other literal: a number, a boolean, a character.
    Other,
}

/// One entry of a list-form annotation.
#[derive(Debug, PartialEq, Eq)]
pub enum NestedMeta {
    Meta(Meta),
    Literal(Literal),
}

/// The structured content of an annotation.
#[derive(Debug, PartialEq, Eq)]
pub enum Meta {
    /// A bare path, as `test` in `#[test]`.
    Path { path: Vec<String> },
    /// A path and a list of entries, as in `#[builder(each = "arg")]`.
    List { path: Vec<String>, nested: Vec<NestedMeta> },
    /// A path and a value, as in `#[doc = "text"]`.
    NameValue { path: Vec<String>, value: Literal },
}

/// An annotation attached to a field.
#[derive(Debug, PartialEq, Eq)]
pub struct Annotation {
    /// The content, or `None` where it has no structured form.
    pub meta: Option<Meta>,
}

/// One named field of a record.
#[derive(Debug, PartialEq, Eq)]
pub struct FieldDescriptor {
    pub name: String,
    pub declared_type: TypeExpr,
    pub raw_annotations: Vec<Annotation>,
}

/// The field section of a record.
#[derive(Debug, PartialEq, Eq)]
pub enum Fields {
    /// `{ a: A, b: B }`, in declaration order.
    Named(Vec<FieldDescriptor>),
    /// `(A, B)`: positional fields.
    Unnamed,
    /// No field section at all.
    Unit,
}

/// What kind of item a derive was attached to.
#[derive(Debug, PartialEq, Eq)]
pub enum Body {
    Struct(Fields),
    Enum,
    Union,
}

/// The item a derive was attached to.
#[derive(Debug, PartialEq, Eq)]
pub struct Record {
    pub name: String,
    pub body: Body,
}

} // verus!
