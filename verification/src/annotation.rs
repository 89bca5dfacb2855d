//! Interpretation of a field's annotations as a request for a per-element
//! accessor.
//!
//! The request is written `builder(each = "name")`: a list-form annotation
//! whose first entry is a key/value pair. The first annotation of that form
//! decides, whatever the list is called: with the key `each` and a string for
//! its value it is the request; with anything else it is malformed.
//! Annotations of other forms, such as documentation, are passed over.

use vstd::prelude::*;
use vstd::string::StringExecFns;
use crate::syntax::{Annotation, Literal, Meta, NestedMeta};
use crate::text::str_eq;

verus! {

/// A malformed request, found in the annotation at index `attribute` of its
/// field. It is reported at that annotation and does not stop generation.
#[derive(Clone, Copy, PartialEq, Eq, Structural, Debug)]
pub struct Diagnostic {
    pub attribute: usize,
}

/// What a field's annotations ask for.
pub enum Customization<'a> {
    /// Nothing: the field gets its default setter.
    Absent,
    /// A per-element accessor of the given name.
    Each(&'a String),
    /// A request that could not be read.
    Malformed(Diagnostic),
}

/// A key/value pair found at the head of a list-form annotation.
pub struct Directive<'a> {
    /// Index of the annotation among those of its field.
    pub attribute: usize,
    pub key: &'a String,
    pub value: &'a Literal,
}

/// The message of every diagnostic.
pub open spec fn diagnostic_message() -> Seq<char> {
    "expected `builder(each = \"...\")`"@
}

/// The key and the value of the pair at the head of a list-form annotation;
/// `None` for an annotation of any other form.
pub open spec fn head_pair(annotation: &Annotation) -> Option<(&String, &Literal)> {
    match annotation.meta {
        Some(Meta::List { path: _, nested }) => if nested@.len() > 0 {
            match nested@[0] {
                NestedMeta::Meta(Meta::NameValue { path, value }) => if path@.len() > 0 {
                    Some((&path@[0], &value))
                } else {
                    None
                },
                _ => None,
            }
        } else {
            None
        },
        _ => None,
    }
}

/// Index of the first annotation from `start` on that has a head pair.
pub open spec fn first_directive(annotations: Seq<Annotation>, start: int) -> Option<int>
    decreases annotations.len() - start,
{
    if start < 0 || start >= annotations.len() {
        None
    } else if head_pair(&annotations[start]) is Some {
        Some(start)
    } else {
        first_directive(annotations, start + 1)
    }
}

/// What a key/value pair asks for.
pub open spec fn reading<'a>(attribute: int, key: &String, value: &'a Literal) -> Customization<'a> {
    match *value {
        Literal::Str(name) => if key@ == "each"@ {
            Customization::Each(&name)
        } else {
            Customization::Malformed(Diagnostic { attribute: attribute as usize })
        },
        Literal::Other => Customization::Malformed(Diagnostic { attribute: attribute as usize }),
    }
}

/// What the annotations of one field ask for.
pub open spec fn interpretation(annotations: Seq<Annotation>) -> Customization<'static> {
    match first_directive(annotations, 0) {
        Some(i) => {
            let pair = head_pair(&annotations[i])->0;
            reading(i, pair.0, pair.1)
        },
        None => Customization::Absent,
    }
}

impl Diagnostic {
    /// The text to report.
    pub fn message(&self) -> (r: String)
        ensures
            r@ == diagnostic_message(),
    {
        String::from_str("expected `builder(each = \"...\")`")
    }
}

/// The head pair of one annotation.
fn head_of(annotation: &Annotation) -> (r: Option<(&String, &Literal)>)
    ensures
        r == head_pair(annotation),
{
    match &annotation.meta {
        Some(Meta::List { path: _, nested }) => {
            if nested.len() == 0 {
                return None;
            }
            match &nested[0] {
                NestedMeta::Meta(Meta::NameValue { path, value }) => {
                    if path.len() == 0 {
                        return None;
                    }
                    Some((&path[0], value))
                },
                _ => None,
            }
        },
        _ => None,
    }
}

/// Finds the first annotation that holds a key/value pair at the head of a
/// list, and returns the pair with the annotation's index.
pub fn parse_attribute(attrs: &Vec<Annotation>) -> (r: Option<Directive<'_>>)
    ensures
        match first_directive(attrs@, 0) {
            Some(i) => r matches Some(d) && d.attribute == i && Some((d.key, d.value)) == head_pair(
                &attrs@[i],
            ),
            None => r is None,
        },
{
    let mut i: usize = 0;
    while i < attrs.len()
        invariant
            i <= attrs.len(),
            first_directive(attrs@, 0) == first_directive(attrs@, i as int),
        decreases attrs.len() - i,
    {
        match head_of(&attrs[i]) {
            Some((key, value)) => {
                return Some(Directive { attribute: i, key, value });
            },
            None => {},
        }
        i = i + 1;
    }
    None
}

/// Reads the request out of a field's annotations.
pub fn interpret(attrs: &Vec<Annotation>) -> (r: Customization<'_>)
    ensures
        r == interpretation(attrs@),
{
    match parse_attribute(attrs) {
        Some(directive) => match directive.value {
            Literal::Str(name) => {
                if str_eq(directive.key.as_str(), "each") {
                    Customization::Each(name)
                } else {
                    Customization::Malformed(Diagnostic { attribute: directive.attribute })
                }
            },
            Literal::Other => Customization::Malformed(
                Diagnostic { attribute: directive.attribute },
            ),
        },
        None => Customization::Absent,
    }
}

} // verus!
