//! The driver: from the definition a derive was put on to the generated unit.

use crate::descriptor::{describe_fields, FieldDescriptor, StructDescriptor, StructDescriptorView};
use crate::emit::unit_source;
use crate::syntax::{
    parse_definition, parsed_derive_input, Data, DataView, DeriveInput, DeriveInputView, Fields,
    FieldsView,
};
use crate::synthesizer::{generated_unit, synthesize, GeneratedUnit, GeneratedUnitView};
use vstd::prelude::*;

verus! {

/// Why nothing is generated for a definition.
#[derive(Clone, Copy, Debug, PartialEq, Eq, Structural)]
pub enum UnsupportedShape {
    /// The definition is an enum or a union.
    NotAStruct,
    /// The definition is a struct, but not one with named fields.
    NotNamedFields,
}

/// The text that goes with an [`UnsupportedShape`].
pub open spec fn unsupported_shape_message(error: UnsupportedShape) -> Seq<char> {
    match error {
        UnsupportedShape::NotAStruct => "Validate can only be derived on Structs."@,
        UnsupportedShape::NotNamedFields => "Validate can only be derived on struct named fields."@,
    }
}

impl UnsupportedShape {
    /// The failure in words.
    pub fn message(&self) -> (message: String)
        ensures
            message@ == unsupported_shape_message(*self),
    {
        match self {
            UnsupportedShape::NotAStruct => String::from_str(
                "Validate can only be derived on Structs.",
            ),
            UnsupportedShape::NotNamedFields => String::from_str(
                "Validate can only be derived on struct named fields.",
            ),
        }
    }
}

/// The classified form of `ast`: a struct with named fields gets a
/// descriptor, anything else is rejected.
pub open spec fn described(ast: DeriveInputView) -> Result<StructDescriptorView, UnsupportedShape> {
    match ast.data {
        DataView::Struct(FieldsView::Named(fields)) => Ok(
            StructDescriptorView { name: ast.ident, fields: describe_fields(fields) },
        ),
        DataView::Struct(_) => Err(UnsupportedShape::NotNamedFields),
        _ => Err(UnsupportedShape::NotAStruct),
    }
}

/// What is generated for `ast`.
pub open spec fn generated(ast: DeriveInputView) -> Result<GeneratedUnitView, UnsupportedShape> {
    match described(ast) {
        Ok(descriptor) => Ok(generated_unit(descriptor)),
        Err(error) => Err(error),
    }
}

/// What is generated for `ast`, as source text.
pub open spec fn generated_source(ast: DeriveInputView) -> Result<Seq<char>, UnsupportedShape> {
    match generated(ast) {
        Ok(unit) => Ok(unit_source(unit)),
        Err(error) => Err(error),
    }
}

/// Classifies every field of `ast`, in declaration order. Rejects what is not
/// a struct with named fields.
pub fn describe(ast: &DeriveInput) -> (result: Result<StructDescriptor, UnsupportedShape>)
    ensures
        match result {
            Ok(descriptor) => described(ast@) == Ok::<StructDescriptorView, UnsupportedShape>(
                descriptor@,
            ) && descriptor@.wf(),
            Err(error) => described(ast@) == Err::<StructDescriptorView, UnsupportedShape>(error),
        },
{
    match &ast.data {
        Data::Struct(Fields::Named(named)) => {
            let ghost all = named.deep_view();
            let mut fields: Vec<FieldDescriptor> = Vec::new();
            let mut i: usize = 0;
            while i < named.len()
                invariant
                    i <= named.len(),
                    all == named.deep_view(),
                    fields.deep_view() =~= describe_fields(all.take(i as int)),
                    forall|j: int| 0 <= j < i ==> (#[trigger] fields.deep_view()[j]).wf(),
                decreases named.len() - i,
            {
                let ghost before = fields.deep_view();
                let descriptor = FieldDescriptor::of_field(&named[i]);
                fields.push(descriptor);
                assert(fields.deep_view() =~= before.push(descriptor.deep_view()));
                i += 1;
            }
            assert(all.take(i as int) =~= all);
            Ok(StructDescriptor { name: ast.ident.clone(), fields })
        },
        Data::Struct(_) => Err(UnsupportedShape::NotNamedFields),
        _ => Err(UnsupportedShape::NotAStruct),
    }
}

/// Generates the unit for `ast`: the presence checks of the validation
/// method, the wrapper type and one accessor per field. Rejects what is not a
/// struct with named fields.
pub fn impl_validator(ast: &DeriveInput) -> (result: Result<GeneratedUnit, UnsupportedShape>)
    ensures
        match result {
            Ok(unit) => generated(ast@) == Ok::<GeneratedUnitView, UnsupportedShape>(unit@)
                && unit@.wf(),
            Err(error) => generated(ast@) == Err::<GeneratedUnitView, UnsupportedShape>(error),
        },
{
    match describe(ast) {
        Ok(descriptor) => Ok(synthesize(&descriptor)),
        Err(error) => Err(error),
    }
}

/// Why no source text comes out of [`validator`].
#[derive(Clone, Copy, Debug, PartialEq, Eq, Structural)]
pub enum ValidatorError {
    /// The text is not an item that a derive can be put on.
    NotAnItem,
    /// The item is not a struct with named fields.
    Unsupported(UnsupportedShape),
}

/// The text that goes with a [`ValidatorError`].
pub open spec fn validator_error_message(error: ValidatorError) -> Seq<char> {
    match error {
        ValidatorError::NotAnItem => "Validate can only be derived on an item."@,
        ValidatorError::Unsupported(shape) => unsupported_shape_message(shape),
    }
}

impl ValidatorError {
    /// The failure in words.
    pub fn message(&self) -> (message: String)
        ensures
            message@ == validator_error_message(*self),
    {
        match self {
            ValidatorError::NotAnItem => String::from_str(
                "Validate can only be derived on an item.",
            ),
            ValidatorError::Unsupported(shape) => shape.message(),
        }
    }
}

/// What [`validator`] makes of a definition that was read as `parsed`.
pub open spec fn validated_source(parsed: Option<DeriveInputView>) -> Result<
    Seq<char>,
    ValidatorError,
> {
    match parsed {
        Some(ast) => match generated_source(ast) {
            Ok(text) => Ok(text),
            Err(shape) => Err(ValidatorError::Unsupported(shape)),
        },
        None => Err(ValidatorError::NotAnItem),
    }
}

/// Generates the source text for the definition written as `input`: what a
/// derive of `Validate` on the definition expands to. Rejects text that is
/// no item, and items that are not structs with named fields.
pub fn validator(input: &str) -> (result: Result<String, ValidatorError>)
    ensures
        match result {
            Ok(text) => validated_source(parsed_derive_input(input@)) == Ok::<
                Seq<char>,
                ValidatorError,
            >(text@),
            Err(error) => validated_source(parsed_derive_input(input@)) == Err::<
                Seq<char>,
                ValidatorError,
            >(error),
        },
{
    match parse_definition(input) {
        Some(ast) => match impl_validator(&ast) {
            Ok(unit) => Ok(unit.to_source()),
            Err(shape) => Err(ValidatorError::Unsupported(shape)),
        },
        None => Err(ValidatorError::NotAnItem),
    }
}

} // verus!
