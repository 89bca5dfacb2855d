//! Classification of a declared type as plain, optional or repeated.
//!
//! The classification goes by the written name alone: a type whose outermost
//! name is `Option` or `Vec` is taken for the wrapper of that name, whatever
//! it resolves to. A type of the user's own that is called `Vec` is therefore
//! classified as repeated.

use vstd::prelude::*;
use crate::syntax::{GenericArgument, PathArguments, PathSegment, TypeExpr};
use crate::text::str_eq;

verus! {

/// The three shapes of a declared type.
#[derive(Clone, Copy, PartialEq, Eq, Structural, Debug)]
pub enum Shape {
    /// Any type that is neither of the two wrappers.
    Plain,
    /// `Option<T>`.
    Optional,
    /// `Vec<T>`.
    Repeated,
}

/// The shape of a field's declared type, with its element type: the declared
/// type itself when it is plain, the wrapped type when it is optional or
/// repeated.
pub enum ContainerKind<'a> {
    Plain(&'a TypeExpr),
    Optional(&'a TypeExpr),
    Repeated(&'a TypeExpr),
}

impl<'a> ContainerKind<'a> {
    pub open spec fn spec_shape(&self) -> Shape {
        match *self {
            ContainerKind::Plain(_) => Shape::Plain,
            ContainerKind::Optional(_) => Shape::Optional,
            ContainerKind::Repeated(_) => Shape::Repeated,
        }
    }

    pub open spec fn spec_element(&self) -> &'a TypeExpr {
        match *self {
            ContainerKind::Plain(ty) => ty,
            ContainerKind::Optional(ty) => ty,
            ContainerKind::Repeated(ty) => ty,
        }
    }

    /// The shape alone.
    #[verifier::when_used_as_spec(spec_shape)]
    pub fn shape(&self) -> (r: Shape)
        ensures
            r == self.spec_shape(),
    {
        match self {
            ContainerKind::Plain(_) => Shape::Plain,
            ContainerKind::Optional(_) => Shape::Optional,
            ContainerKind::Repeated(_) => Shape::Repeated,
        }
    }

    /// The element type.
    #[verifier::when_used_as_spec(spec_element)]
    pub fn element(&self) -> (r: &'a TypeExpr)
        ensures
            r == self.spec_element(),
    {
        match self {
            ContainerKind::Plain(ty) => ty,
            ContainerKind::Optional(ty) => ty,
            ContainerKind::Repeated(ty) => ty,
        }
    }
}

/// The last segment of the path that `ty` is written as, if it is a path and
/// has a segment.
pub open spec fn outermost(ty: &TypeExpr) -> Option<PathSegment> {
    match ty.path {
        Some(segments) => if segments@.len() > 0 {
            Some(segments@.last())
        } else {
            None
        },
        None => None,
    }
}

/// The arguments of `ty`'s last segment when that segment is called
/// `container_name`.
pub open spec fn container_arguments(ty: &TypeExpr, container_name: Seq<char>) -> Option<
    &PathArguments,
> {
    match outermost(ty) {
        Some(segment) => if segment.ident@ == container_name {
            Some(&segment.arguments)
        } else {
            None
        },
        None => None,
    }
}

/// The type argument of a wrapper that has exactly one argument, a type.
pub open spec fn contained_type(arguments: &PathArguments) -> Option<&TypeExpr> {
    match *arguments {
        PathArguments::AngleBracketed(args) => if args@.len() == 1 {
            match args@[0] {
                GenericArgument::Type(inner) => Some(&inner),
                GenericArgument::Other => None,
            }
        } else {
            None
        },
        _ => None,
    }
}

/// The classification of `ty`, or `None` when `ty` is called `Option` or
/// `Vec` and does not have exactly one type argument.
pub open spec fn classification(ty: &TypeExpr) -> Option<ContainerKind<'_>> {
    match container_arguments(ty, "Option"@) {
        Some(arguments) => match contained_type(arguments) {
            Some(inner) => Some(ContainerKind::Optional(inner)),
            None => None,
        },
        None => match container_arguments(ty, "Vec"@) {
            Some(arguments) => match contained_type(arguments) {
                Some(inner) => Some(ContainerKind::Repeated(inner)),
                None => None,
            },
            None => Some(ContainerKind::Plain(ty)),
        },
    }
}

/// The arguments of the type's outermost name when that name is
/// `container_name`.
pub fn is_container<'a>(ty: &'a TypeExpr, container_name: &str) -> (r: Option<&'a PathArguments>)
    ensures
        r == container_arguments(ty, container_name@),
{
    match &ty.path {
        Some(segments) => {
            let n = segments.len();
            if n == 0 {
                return None;
            }
            let final_segment = &segments[n - 1];
            if str_eq(final_segment.ident.as_str(), container_name) {
                Some(&final_segment.arguments)
            } else {
                None
            }
        },
        None => None,
    }
}

/// The arguments of `Option` when the type is written as `Option<..>`.
pub fn is_optional(ty: &TypeExpr) -> (r: Option<&PathArguments>)
    ensures
        r == container_arguments(ty, "Option"@),
{
    is_container(ty, "Option")
}

/// The arguments of `Vec` when the type is written as `Vec<..>`.
pub fn is_vec(ty: &TypeExpr) -> (r: Option<&PathArguments>)
    ensures
        r == container_arguments(ty, "Vec"@),
{
    is_container(ty, "Vec")
}

/// The wrapped type of a wrapper's arguments: `Some` exactly when there is
/// one argument and it is a type.
pub fn get_contained_type(input: &PathArguments) -> (r: Option<&TypeExpr>)
    ensures
        r == contained_type(input),
{
    match input {
        PathArguments::AngleBracketed(args) => {
            if args.len() != 1 {
                return None;
            }
            match &args[0] {
                GenericArgument::Type(ty) => Some(ty),
                GenericArgument::Other => None,
            }
        },
        _ => None,
    }
}

/// Classifies a declared type. `None` reports a wrapper with other than one
/// type argument, which the generator does not support.
pub fn classify(ty: &TypeExpr) -> (r: Option<ContainerKind<'_>>)
    ensures
        r == classification(ty),
{
    match is_optional(ty) {
        Some(arguments) => match get_contained_type(arguments) {
            Some(inner) => Some(ContainerKind::Optional(inner)),
            None => None,
        },
        None => match is_vec(ty) {
            Some(arguments) => match get_contained_type(arguments) {
                Some(inner) => Some(ContainerKind::Repeated(inner)),
                None => None,
            },
            None => Some(ContainerKind::Plain(ty)),
        },
    }
}

} // verus!
