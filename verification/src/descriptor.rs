//! Field and struct descriptors: what the generator knows of a definition
//! once every field is classified.

use crate::analyzer::{analyze, shape_of, Shape, ShapeView};
use crate::scanner::{is_field_mandatory, is_mandatory};
use crate::syntax::{Field, FieldView};
use vstd::prelude::*;

verus! {

/// One classified field.
#[derive(Debug, PartialEq, Eq)]
pub struct FieldDescriptor {
    pub name: String,
    /// The declared type, as source text.
    pub declared_type: String,
    /// Whether the declared type is the optional wrapper.
    pub is_optional_wrapper: bool,
    /// The wrapped type, as source text, when the declared type is the
    /// optional wrapper.
    pub inner_type: Option<String>,
    /// Whether the field carries the mandatory marker.
    pub is_mandatory: bool,
}

/// Mathematical value of a [`FieldDescriptor`].
pub struct FieldDescriptorView {
    pub name: Seq<char>,
    pub declared_type: Seq<char>,
    pub is_optional_wrapper: bool,
    pub inner_type: Option<Seq<char>>,
    pub is_mandatory: bool,
}

impl FieldDescriptorView {
    /// The inner type is known exactly for optional wrappers.
    pub open spec fn wf(self) -> bool {
        self.is_optional_wrapper <==> self.inner_type is Some
    }

    /// Whether validation checks the field and its accessor unwraps it: the
    /// marker counts only on an optional wrapper.
    pub open spec fn is_checked(self) -> bool {
        self.is_mandatory && self.inner_type is Some
    }
}

impl DeepView for FieldDescriptor {
    type V = FieldDescriptorView;

    open spec fn deep_view(&self) -> FieldDescriptorView {
        FieldDescriptorView {
            name: self.name@,
            declared_type: self.declared_type@,
            is_optional_wrapper: self.is_optional_wrapper,
            inner_type: self.inner_type.deep_view(),
            is_mandatory: self.is_mandatory,
        }
    }
}

impl View for FieldDescriptor {
    type V = FieldDescriptorView;

    open spec fn view(&self) -> FieldDescriptorView {
        self.deep_view()
    }
}

/// The descriptor of a field named `name`, declared as `declared_type`, whose
/// type has the shape `shape` and which carries the marker iff `is_mandatory`.
pub open spec fn field_descriptor(
    name: Seq<char>,
    declared_type: Seq<char>,
    shape: ShapeView,
    is_mandatory: bool,
) -> FieldDescriptorView {
    FieldDescriptorView {
        name,
        declared_type,
        is_optional_wrapper: shape is OptionalWrapper,
        inner_type: match shape {
            ShapeView::OptionalWrapper(inner) => Some(inner),
            ShapeView::Opaque => None,
        },
        is_mandatory,
    }
}

/// The descriptor of `field`, from its declared type and its attributes.
pub open spec fn describe_field(field: FieldView) -> FieldDescriptorView {
    field_descriptor(field.ident, field.ty, shape_of(field.ty), is_mandatory(field.attrs))
}

/// The descriptors of `fields`, in the same order.
pub open spec fn describe_fields(fields: Seq<FieldView>) -> Seq<FieldDescriptorView> {
    fields.map_values(|field: FieldView| describe_field(field))
}

impl FieldDescriptor {
    /// Builds a descriptor from a field's name, its declared type, the shape
    /// of that type and whether the field is marked mandatory.
    pub fn new(name: &str, declared_type: &str, shape: Shape, is_mandatory: bool) -> (descriptor:
        FieldDescriptor)
        ensures
            descriptor@ == field_descriptor(name@, declared_type@, shape@, is_mandatory),
            descriptor@.wf(),
    {
        let (is_optional_wrapper, inner_type) = match shape {
            Shape::OptionalWrapper(inner) => (true, Some(inner)),
            Shape::Opaque => (false, None),
        };
        FieldDescriptor {
            name: String::from_str(name),
            declared_type: String::from_str(declared_type),
            is_optional_wrapper,
            inner_type,
            is_mandatory,
        }
    }

    /// Classifies `field`: analyzes its declared type and scans its
    /// attributes.
    pub fn of_field(field: &Field) -> (descriptor: FieldDescriptor)
        ensures
            descriptor@ == describe_field(field@),
            descriptor@.wf(),
    {
        let shape = analyze(field.ty.as_str());
        let mandatory = is_field_mandatory(&field.attrs);
        FieldDescriptor::new(field.ident.as_str(), field.ty.as_str(), shape, mandatory)
    }
}

/// A struct with named fields, every field classified. The order of `fields`
/// is the declaration order.
#[derive(Debug, PartialEq, Eq)]
pub struct StructDescriptor {
    pub name: String,
    pub fields: Vec<FieldDescriptor>,
}

/// Mathematical value of a [`StructDescriptor`].
pub struct StructDescriptorView {
    pub name: Seq<char>,
    pub fields: Seq<FieldDescriptorView>,
}

impl StructDescriptorView {
    /// Every field is well formed.
    pub open spec fn wf(self) -> bool {
        forall|i: int| 0 <= i < self.fields.len() ==> (#[trigger] self.fields[i]).wf()
    }
}

impl DeepView for StructDescriptor {
    type V = StructDescriptorView;

    open spec fn deep_view(&self) -> StructDescriptorView {
        StructDescriptorView { name: self.name@, fields: self.fields.deep_view() }
    }
}

impl View for StructDescriptor {
    type V = StructDescriptorView;

    open spec fn view(&self) -> StructDescriptorView {
        self.deep_view()
    }
}

} // verus!
