//! What each pass of the generator decides for a field, apart from how the
//! decision is written down as code.
//!
//! Four passes look at the same analysed field: one gives the builder its
//! field, one gives that field its first value, one gives it its accessors
//! and one reads it back when the record is built. The decisions are kept
//! separate from the text so that the behaviour of the generated builder can
//! be stated over them.

use vstd::prelude::*;
use crate::annotation::Customization;
use crate::classify::Shape;
use crate::plan::{Custom, FieldPlan, FieldSpec};
use crate::text::str_eq;

verus! {

/// The type of a builder field.
#[derive(Clone, Copy, PartialEq, Eq, Structural, Debug)]
pub enum Storage {
    /// `Option` of the declared type: the value may not have been given yet.
    Wrapped,
    /// The declared type itself, which has an empty value of its own.
    Declared,
}

/// The first value of a builder field.
#[derive(Clone, Copy, PartialEq, Eq, Structural, Debug)]
pub enum Initial {
    /// `None`.
    Absent,
    /// An empty collection.
    Empty,
}

/// What an accessor does with its argument.
#[derive(Clone, Copy, PartialEq, Eq, Structural, Debug)]
pub enum Action {
    /// Stores the argument as the field's value.
    Store,
    /// Takes the argument, a whole collection, for the field's contents.
    Replace,
    /// Appends the argument to the field's contents.
    Append,
}

/// How the finalizer reads a builder field.
#[derive(Clone, Copy, PartialEq, Eq, Structural, Debug)]
pub enum Finish {
    /// The value must have been given; its absence fails the build.
    Required,
    /// Whatever the field holds goes into the record.
    AsIs,
}

/// One accessor method.
pub struct Method {
    /// The method's name.
    pub name: Seq<char>,
    /// The type of its one argument, as text.
    pub parameter: Seq<char>,
    pub action: Action,
}

/// Everything the generated builder does with one field.
pub struct FieldCode {
    pub name: Seq<char>,
    pub storage: Storage,
    pub initial: Initial,
    pub methods: Seq<Method>,
    pub finish: Finish,
}

/// A plain value starts unset, so it is stored wrapped; an optional or a
/// repeated field is stored as declared.
pub open spec fn storage_of(shape: Shape) -> Storage {
    match shape {
        Shape::Plain => Storage::Wrapped,
        Shape::Optional => Storage::Declared,
        Shape::Repeated => Storage::Declared,
    }
}

/// A repeated field starts empty, every other field absent.
pub open spec fn initial_of(shape: Shape) -> Initial {
    match shape {
        Shape::Repeated => Initial::Empty,
        _ => Initial::Absent,
    }
}

/// A plain field must be given; the others are taken as they are.
pub open spec fn finish_of(shape: Shape) -> Finish {
    match shape {
        Shape::Plain => Finish::Required,
        _ => Finish::AsIs,
    }
}

/// The default setter of a field: it is named after the field and takes the
/// element of a plain or optional field, the whole collection of a repeated
/// one.
pub open spec fn setter_of(field: FieldPlan) -> Method {
    match field.shape {
        Shape::Repeated => Method {
            name: field.name,
            parameter: field.declared,
            action: Action::Replace,
        },
        _ => Method { name: field.name, parameter: field.element, action: Action::Store },
    }
}

/// The per-element accessor of a field, under the name asked for.
pub open spec fn appender_of(field: FieldPlan, name: Seq<char>) -> Method {
    Method { name, parameter: field.element, action: Action::Append }
}

/// The accessors of a field: the default setter, and the per-element
/// accessor where one is asked for, which takes the setter's place where it
/// has the setter's name. A field with a malformed request has none.
pub open spec fn methods_of(field: FieldPlan) -> Seq<Method> {
    match field.custom {
        Custom::Absent => seq![setter_of(field)],
        Custom::Each(name) => if name == field.name {
            seq![appender_of(field, name)]
        } else {
            seq![setter_of(field), appender_of(field, name)]
        },
        Custom::Malformed(_) => seq![],
    }
}

/// What the four passes decide for a field.
pub open spec fn code_of(field: FieldPlan) -> FieldCode {
    FieldCode {
        name: field.name,
        storage: storage_of(field.shape),
        initial: initial_of(field.shape),
        methods: methods_of(field),
        finish: finish_of(field.shape),
    }
}

/// What the four passes decide for each field of a record.
pub open spec fn program_of(fields: Seq<FieldPlan>) -> Seq<FieldCode> {
    fields.map_values(|field: FieldPlan| code_of(field))
}

/// One accessor method, with its name and its parameter's type where the
/// analysed field holds them.
pub struct Accessor<'a> {
    pub name: &'a String,
    pub parameter: &'a String,
    pub action: Action,
}

impl<'a> View for Accessor<'a> {
    type V = Method;

    open spec fn view(&self) -> Method {
        Method { name: self.name@, parameter: self.parameter@, action: self.action }
    }
}

/// The views of a list of accessors.
pub open spec fn accessor_views(accessors: Seq<Accessor<'_>>) -> Seq<Method> {
    accessors.map_values(|accessor: Accessor<'_>| accessor@)
}

/// Decides the accessors of a field.
pub fn methods_for<'a>(field: &FieldSpec<'a>) -> (r: Vec<Accessor<'a>>)
    ensures
        accessor_views(r@) == methods_of(field@),
{
    let mut out: Vec<Accessor<'a>> = Vec::new();
    let setter = match field.kind.shape() {
        Shape::Repeated => Accessor {
            name: &field.descriptor.name,
            parameter: &field.descriptor.declared_type.text,
            action: Action::Replace,
        },
        _ => Accessor {
            name: &field.descriptor.name,
            parameter: &field.kind.element().text,
            action: Action::Store,
        },
    };
    match field.customization {
        Customization::Absent => {
            out.push(setter);
        },
        Customization::Each(name) => {
            if !str_eq(name.as_str(), field.descriptor.name.as_str()) {
                out.push(setter);
            }
            out.push(
                Accessor { name, parameter: &field.kind.element().text, action: Action::Append },
            );
        },
        Customization::Malformed(_) => {},
    }
    out
}

/// Decides the type of the builder field.
pub fn storage_for(shape: Shape) -> (r: Storage)
    ensures
        r == storage_of(shape),
{
    match shape {
        Shape::Plain => Storage::Wrapped,
        Shape::Optional => Storage::Declared,
        Shape::Repeated => Storage::Declared,
    }
}

/// Decides the first value of the builder field.
pub fn initial_for(shape: Shape) -> (r: Initial)
    ensures
        r == initial_of(shape),
{
    match shape {
        Shape::Repeated => Initial::Empty,
        _ => Initial::Absent,
    }
}

/// Decides how the finalizer reads the builder field.
pub fn finish_for(shape: Shape) -> (r: Finish)
    ensures
        r == finish_of(shape),
{
    match shape {
        Shape::Plain => Finish::Required,
        _ => Finish::AsIs,
    }
}

} // verus!
