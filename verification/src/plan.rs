//! The analysed form of a record: every field classified and its annotations
//! interpreted, or the reason why no builder can be generated for it.

use vstd::prelude::*;
use vstd::string::StringExecFns;
use crate::annotation::{interpret, interpretation, Customization, Diagnostic};
use crate::classify::{classification, classify, ContainerKind, Shape};
use crate::ident::{identifier, is_identifier};
use crate::syntax::{FieldDescriptor, Fields};
use crate::text::joined;

verus! {

/// Why no builder is generated. Each of these stops generation as a whole.
#[derive(Clone, Copy, PartialEq, Eq, Structural, Debug)]
pub enum GenerationError {
    /// The item is an enum or a union.
    NotAStruct,
    /// The record has no fields.
    FieldlessRecord,
    /// The record's fields are positional.
    PositionalFields,
    /// The field at this index is an `Option` or a `Vec` with other than one
    /// type argument.
    UnsupportedContainer { field: usize },
    /// The field at this index asks for a per-element accessor and is not a
    /// `Vec`.
    EachOnNonRepeated { field: usize },
    /// The field at this index asks for a per-element accessor under a name
    /// that is no identifier.
    InvalidAccessorName { field: usize },
}

/// What a field's annotations ask for, with the accessor's name as text.
pub enum Custom {
    Absent,
    Each(Seq<char>),
    Malformed(Diagnostic),
}

/// One analysed field, as the passes of the generator see it.
pub struct FieldPlan {
    /// The field's name.
    pub name: Seq<char>,
    /// The declared type, as text.
    pub declared: Seq<char>,
    /// The element type, as text: the declared type of a plain field, the
    /// wrapped type of an optional or repeated one.
    pub element: Seq<char>,
    pub shape: Shape,
    pub custom: Custom,
}

/// One analysed record.
pub struct BuilderPlan {
    /// The record's name.
    pub target: Seq<char>,
    /// The name of the builder type.
    pub builder: Seq<char>,
    /// The record's fields in declaration order.
    pub fields: Seq<FieldPlan>,
}

/// The builder of a record is named after it.
pub open spec fn builder_name(target: Seq<char>) -> Seq<char> {
    target + "Builder"@
}

impl FieldPlan {
    /// A per-element accessor is only ever asked of a repeated field.
    pub open spec fn consistent(self) -> bool {
        self.custom is Each ==> self.shape == Shape::Repeated
    }
}

impl<'a> View for Customization<'a> {
    type V = Custom;

    open spec fn view(&self) -> Custom {
        match *self {
            Customization::Absent => Custom::Absent,
            Customization::Each(name) => Custom::Each(name@),
            Customization::Malformed(diagnostic) => Custom::Malformed(diagnostic),
        }
    }
}

/// One analysed field, with the descriptor it was made from.
pub struct FieldSpec<'a> {
    pub descriptor: &'a FieldDescriptor,
    pub kind: ContainerKind<'a>,
    pub customization: Customization<'a>,
}

impl<'a> View for FieldSpec<'a> {
    type V = FieldPlan;

    open spec fn view(&self) -> FieldPlan {
        FieldPlan {
            name: self.descriptor.name@,
            declared: self.descriptor.declared_type.text@,
            element: self.kind.spec_element().text@,
            shape: self.kind.spec_shape(),
            custom: self.customization@,
        }
    }
}

/// One analysed record, with its builder's name.
pub struct BuilderSpec<'a> {
    pub target_name: &'a str,
    pub builder_name: String,
    pub fields: Vec<FieldSpec<'a>>,
}

impl<'a> View for BuilderSpec<'a> {
    type V = BuilderPlan;

    open spec fn view(&self) -> BuilderPlan {
        BuilderPlan {
            target: self.target_name@,
            builder: self.builder_name@,
            fields: self.fields@.map_values(|field: FieldSpec<'a>| field@),
        }
    }
}

/// The plan of a field whose type can be classified.
pub open spec fn field_plan(field: &FieldDescriptor) -> FieldPlan {
    let kind = classification(&field.declared_type)->0;
    FieldPlan {
        name: field.name@,
        declared: field.declared_type.text@,
        element: kind.spec_element().text@,
        shape: kind.spec_shape(),
        custom: interpretation(field.raw_annotations@)@,
    }
}

/// What is wrong with the field at `index`, if anything.
pub open spec fn field_failure(field: &FieldDescriptor, index: int) -> Option<GenerationError> {
    match classification(&field.declared_type) {
        None => Some(GenerationError::UnsupportedContainer { field: index as usize }),
        Some(kind) => match interpretation(field.raw_annotations@) {
            Customization::Each(name) => if kind.spec_shape() != Shape::Repeated {
                Some(GenerationError::EachOnNonRepeated { field: index as usize })
            } else if !identifier(name@) {
                Some(GenerationError::InvalidAccessorName { field: index as usize })
            } else {
                None
            },
            _ => None,
        },
    }
}

/// What is wrong with the first field from `start` on that has anything
/// wrong with it.
pub open spec fn first_failure(fields: Seq<FieldDescriptor>, start: int) -> Option<
    GenerationError,
>
    decreases fields.len() - start,
{
    if start < 0 || start >= fields.len() {
        None
    } else {
        match field_failure(&fields[start], start) {
            Some(error) => Some(error),
            None => first_failure(fields, start + 1),
        }
    }
}

/// The plans of all fields.
pub open spec fn field_plans(fields: Seq<FieldDescriptor>) -> Seq<FieldPlan> {
    Seq::new(fields.len(), |i: int| field_plan(&fields[i]))
}

/// The analysis of a record called `target` with the field section `input`:
/// its plan, or the first reason why there is none.
pub open spec fn analysis(target: Seq<char>, input: &Fields) -> Result<
    BuilderPlan,
    GenerationError,
> {
    match *input {
        Fields::Unit => Err(GenerationError::FieldlessRecord),
        Fields::Unnamed => Err(GenerationError::PositionalFields),
        Fields::Named(fields) => if fields@.len() == 0 {
            Err(GenerationError::FieldlessRecord)
        } else {
            match first_failure(fields@, 0) {
                Some(error) => Err(error),
                None => Ok(
                    BuilderPlan {
                        target,
                        builder: builder_name(target),
                        fields: field_plans(fields@),
                    },
                ),
            }
        },
    }
}

impl GenerationError {
    pub open spec fn spec_message(self) -> Seq<char> {
        match self {
            GenerationError::NotAStruct => "can only derive a builder for structs"@,
            GenerationError::FieldlessRecord => "records without fields are not supported"@,
            GenerationError::PositionalFields => "records with positional fields are not supported"@,
            GenerationError::UnsupportedContainer { .. } =>
                "container types with other than one type parameter are unsupported"@,
            GenerationError::EachOnNonRepeated { .. } => "can only handle `each` on a `Vec<T>`"@,
            GenerationError::InvalidAccessorName { .. } =>
                "the name given to `each` is not an identifier"@,
        }
    }

    /// The text to abort generation with.
    pub fn message(&self) -> (r: String)
        ensures
            r@ == self.spec_message(),
    {
        match self {
            GenerationError::NotAStruct => String::from_str(
                "can only derive a builder for structs",
            ),
            GenerationError::FieldlessRecord => String::from_str(
                "records without fields are not supported",
            ),
            GenerationError::PositionalFields => String::from_str(
                "records with positional fields are not supported",
            ),
            GenerationError::UnsupportedContainer { .. } => String::from_str(
                "container types with other than one type parameter are unsupported",
            ),
            GenerationError::EachOnNonRepeated { .. } => String::from_str(
                "can only handle `each` on a `Vec<T>`",
            ),
            GenerationError::InvalidAccessorName { .. } => String::from_str(
                "the name given to `each` is not an identifier",
            ),
        }
    }
}

/// The named fields of a field section, or the reason why it has none to
/// generate from.
pub fn named_fields(input: &Fields) -> (r: Result<&Vec<FieldDescriptor>, GenerationError>)
    ensures
        match *input {
            Fields::Unit => r == Err::<&Vec<FieldDescriptor>, _>(GenerationError::FieldlessRecord),
            Fields::Unnamed => r == Err::<&Vec<FieldDescriptor>, _>(
                GenerationError::PositionalFields,
            ),
            Fields::Named(fields) => if fields@.len() == 0 {
                r == Err::<&Vec<FieldDescriptor>, _>(GenerationError::FieldlessRecord)
            } else {
                r == Ok::<_, GenerationError>(&fields)
            },
        },
{
    match input {
        Fields::Unit => Err(GenerationError::FieldlessRecord),
        Fields::Unnamed => Err(GenerationError::PositionalFields),
        Fields::Named(fields) => {
            if fields.len() == 0 {
                Err(GenerationError::FieldlessRecord)
            } else {
                Ok(fields)
            }
        },
    }
}

/// Classifies the field at `index` and interprets its annotations.
pub fn analyze_field(field: &FieldDescriptor, index: usize) -> (r: Result<
    FieldSpec<'_>,
    GenerationError,
>)
    ensures
        match field_failure(field, index as int) {
            Some(error) => r matches Err(e) && e == error,
            None => r matches Ok(spec) && spec.descriptor == field && spec@ == field_plan(field)
                && spec@.consistent(),
        },
{
    let kind = match classify(&field.declared_type) {
        Some(kind) => kind,
        None => {
            return Err(GenerationError::UnsupportedContainer { field: index });
        },
    };
    let customization = interpret(&field.raw_annotations);
    match customization {
        Customization::Each(name) => {
            match kind {
                ContainerKind::Repeated(_) => {},
                _ => {
                    return Err(GenerationError::EachOnNonRepeated { field: index });
                },
            }
            if !is_identifier(name.as_str()) {
                return Err(GenerationError::InvalidAccessorName { field: index });
            }
        },
        _ => {},
    }
    Ok(FieldSpec { descriptor: field, kind, customization })
}

/// Analyses a record called `name` with the field section `input`.
pub fn create_from_input<'a>(name: &'a str, input: &'a Fields) -> (r: Result<
    BuilderSpec<'a>,
    GenerationError,
>)
    ensures
        match analysis(name@, input) {
            Ok(plan) => r matches Ok(spec) && spec@ == plan,
            Err(error) => r matches Err(e) && e == error,
        },
{
    let fields = match named_fields(input) {
        Ok(fields) => fields,
        Err(error) => {
            return Err(error);
        },
    };
    let mut specs: Vec<FieldSpec<'a>> = Vec::new();
    let mut i: usize = 0;
    while i < fields.len()
        invariant
            i <= fields.len(),
            fields@.len() > 0,
            *input == Fields::Named(*fields),
            first_failure(fields@, 0) == first_failure(fields@, i as int),
            specs@.len() == i,
            forall|j: int| 0 <= j < i ==> (#[trigger] specs@[j])@ == field_plan(&fields@[j]),
        decreases fields.len() - i,
    {
        match analyze_field(&fields[i], i) {
            Ok(spec) => {
                specs.push(spec);
            },
            Err(error) => {
                return Err(error);
            },
        }
        i = i + 1;
    }
    let spec = BuilderSpec { target_name: name, builder_name: joined(name, "Builder"), fields: specs };
    proof {
        assert(spec@.fields =~= field_plans(fields@));
    }
    Ok(spec)
}

} // verus!
