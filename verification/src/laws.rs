//! What holds of every struct and every instance: the generated validation
//! and accessors, seen from the struct's definition.

use crate::descriptor::StructDescriptorView;
use crate::driver::{described, generated, UnsupportedShape};
use crate::runtime::{
    lemma_complete_iff_none_missing, lemma_first_missing_is, lemma_some_first_missing,
    AccessedView, FieldValueView, InstanceView, MissingMandatoryFieldView,
};
use crate::settings::{settings_descriptor, settings_values, SettingsView};
use crate::syntax::{DataView, DeriveInputView, FieldsView};
use crate::analyzer::{shape_of, ShapeView};
use crate::scanner::is_mandatory;
use crate::synthesizer::{
    checks_of, generated_unit, getter_of, lemma_checks_of, lemma_generated_unit_wf, plain_getter,
    unwrapping_getter,
};
use vstd::prelude::*;

verus! {

/// An instance of the struct `descriptor` with the field values `values`.
pub open spec fn instance_of(
    descriptor: StructDescriptorView,
    values: Seq<FieldValueView>,
) -> InstanceView {
    InstanceView { unit: generated_unit(descriptor), values }
}

/// Whether field `i` of `descriptor` is an optional wrapper marked mandatory.
pub open spec fn is_mandatory_optional(descriptor: StructDescriptorView, i: int) -> bool {
    &&& 0 <= i < descriptor.fields.len()
    &&& descriptor.fields[i].is_optional_wrapper
    &&& descriptor.fields[i].is_mandatory
}

/// The failure that names field `i` of `descriptor`.
pub open spec fn failure_naming(
    descriptor: StructDescriptorView,
    i: int,
) -> MissingMandatoryFieldView {
    MissingMandatoryFieldView { field: descriptor.fields[i].name, struct_name: descriptor.name }
}

/// The descriptor of an accepted definition is well formed, and it keeps the
/// definition's name and its fields, in order.
pub proof fn law_description_keeps_the_definition(ast: DeriveInputView)
    ensures
        described(ast) matches Ok(descriptor) ==> {
            &&& descriptor.wf()
            &&& descriptor.name == ast.ident
            &&& generated(ast) == Ok::<_, UnsupportedShape>(generated_unit(descriptor))
            &&& generated_unit(descriptor).wf()
            &&& generated_unit(descriptor).getters.len() == descriptor.fields.len()
        },
{
    if let Ok(descriptor) = described(ast) {
        lemma_generated_unit_wf(descriptor);
    }
}

/// For a struct with named fields, the wrapper has one accessor per field,
/// named `get_` and the field's name. The accessor of a field whose type is
/// the optional wrapper and which is marked mandatory unwraps and returns the
/// wrapped type; the accessor of any other field returns the declared type.
pub proof fn law_accessors_follow_the_definition(ast: DeriveInputView, i: int)
    requires
        ast.data matches DataView::Struct(FieldsView::Named(fields)) && 0 <= i < fields.len(),
    ensures
        generated(ast) matches Ok(unit) && ast.data matches DataView::Struct(
            FieldsView::Named(fields),
        ) && {
            let field = fields[i];
            let accessor = unit.getters[i];
            &&& unit.struct_name == ast.ident
            &&& unit.wrapper_name == "Validated"@ + ast.ident
            &&& unit.getters.len() == fields.len()
            &&& accessor.method == "get_"@ + field.ident
            &&& accessor.field == field.ident
            &&& accessor.unwraps == (is_mandatory(field.attrs) && shape_of(
                field.ty,
            ) is OptionalWrapper)
            &&& accessor.return_type == match shape_of(field.ty) {
                ShapeView::OptionalWrapper(inner) if is_mandatory(field.attrs) => inner,
                _ => field.ty,
            }
        },
{
}

/// The wrapper checks and unwraps exactly the optional wrappers that are
/// marked mandatory.
pub proof fn lemma_unwraps_iff_mandatory_optional(descriptor: StructDescriptorView, i: int)
    requires
        descriptor.wf(),
        0 <= i < descriptor.fields.len(),
    ensures
        generated_unit(descriptor).getters[i] == getter_of(descriptor.fields[i]),
        generated_unit(descriptor).getters[i].unwraps == is_mandatory_optional(descriptor, i),
        generated_unit(descriptor).getters[i].field == descriptor.fields[i].name,
{
}

/// A struct without a mandatory optional field always validates, and every
/// accessor of its wrapper hands out the field's value unchanged.
pub proof fn law_nothing_mandatory_always_validates(
    descriptor: StructDescriptorView,
    values: Seq<FieldValueView>,
)
    requires
        descriptor.wf(),
        instance_of(descriptor, values).wf(),
        forall|i: int| !is_mandatory_optional(descriptor, i),
    ensures
        instance_of(descriptor, values).is_complete(),
        instance_of(descriptor, values).failure() is None,
        generated_unit(descriptor).checks.len() == 0,
        forall|i: int|
            0 <= i < values.len() ==> instance_of(descriptor, values).access(i)
                == AccessedView::Declared(#[trigger] values[i]),
{
    let instance = instance_of(descriptor, values);
    assert forall|i: int| !instance.is_missing(i) by {
        if 0 <= i < values.len() {
            lemma_unwraps_iff_mandatory_optional(descriptor, i);
        }
    }
    lemma_complete_iff_none_missing(instance);
    assert forall|i: int| 0 <= i < values.len() implies instance.access(i)
        == AccessedView::Declared(#[trigger] values[i]) by {
        lemma_unwraps_iff_mandatory_optional(descriptor, i);
    }
    lemma_checks_of(descriptor.fields);
    if generated_unit(descriptor).checks.len() > 0 {
        let check = checks_of(descriptor.fields)[0];
        assert(is_mandatory_optional(descriptor, check.index));
    }
}

/// Where a mandatory optional field holds no value, validation fails and no
/// wrapper is made.
pub proof fn law_absent_mandatory_field_fails_validation(
    descriptor: StructDescriptorView,
    values: Seq<FieldValueView>,
    field: int,
)
    requires
        descriptor.wf(),
        instance_of(descriptor, values).wf(),
        is_mandatory_optional(descriptor, field),
        values[field] == FieldValueView::Optional(None),
    ensures
        !instance_of(descriptor, values).is_complete(),
        instance_of(descriptor, values).failure() is Some,
{
    let instance = instance_of(descriptor, values);
    lemma_unwraps_iff_mandatory_optional(descriptor, field);
    assert(instance.is_missing(field));
    lemma_complete_iff_none_missing(instance);
}

/// Where a mandatory optional field holds no value and every mandatory
/// optional field declared before it holds one, validation fails naming
/// exactly that field and the struct.
pub proof fn law_absent_mandatory_field_is_named(
    descriptor: StructDescriptorView,
    values: Seq<FieldValueView>,
    field: int,
)
    requires
        descriptor.wf(),
        instance_of(descriptor, values).wf(),
        is_mandatory_optional(descriptor, field),
        values[field] == FieldValueView::Optional(None),
        forall|earlier: int|
            0 <= earlier < field && is_mandatory_optional(descriptor, earlier) ==> values[earlier]
                != FieldValueView::Optional(None),
    ensures
        instance_of(descriptor, values).first_missing() == Some(field),
        instance_of(descriptor, values).failure() == Some(failure_naming(descriptor, field)),
        !instance_of(descriptor, values).is_complete(),
{
    let instance = instance_of(descriptor, values);
    lemma_unwraps_iff_mandatory_optional(descriptor, field);
    assert forall|earlier: int| 0 <= earlier < field implies !instance.is_missing(earlier) by {
        lemma_unwraps_iff_mandatory_optional(descriptor, earlier);
    }
    lemma_first_missing_is(instance, field);
    lemma_complete_iff_none_missing(instance);
}

/// On an instance that validated, the accessor of a mandatory optional field
/// hands out the value inside the field, which is present.
pub proof fn law_mandatory_accessor_unwraps(
    descriptor: StructDescriptorView,
    values: Seq<FieldValueView>,
    field: int,
)
    requires
        descriptor.wf(),
        instance_of(descriptor, values).wf(),
        instance_of(descriptor, values).is_complete(),
        is_mandatory_optional(descriptor, field),
    ensures
        values[field] matches FieldValueView::Optional(Some(value)) && instance_of(
            descriptor,
            values,
        ).access(field) == AccessedView::Unwrapped(value),
        generated_unit(descriptor).getters[field] == unwrapping_getter(
            descriptor.fields[field].name,
            descriptor.fields[field].inner_type->0,
        ),
{
    let instance = instance_of(descriptor, values);
    lemma_unwraps_iff_mandatory_optional(descriptor, field);
    assert(!instance.is_missing(field));
}

/// The accessor of an optional field that is not marked mandatory hands out
/// the stored optional value as it is, present or absent, under the declared
/// type.
pub proof fn law_optional_accessor_keeps_value(
    descriptor: StructDescriptorView,
    values: Seq<FieldValueView>,
    field: int,
)
    requires
        descriptor.wf(),
        instance_of(descriptor, values).wf(),
        0 <= field < descriptor.fields.len(),
        descriptor.fields[field].is_optional_wrapper,
        !descriptor.fields[field].is_mandatory,
    ensures
        instance_of(descriptor, values).access(field) == AccessedView::Declared(values[field]),
        generated_unit(descriptor).getters[field] == plain_getter(
            descriptor.fields[field].name,
            descriptor.fields[field].declared_type,
        ),
{
    lemma_unwraps_iff_mandatory_optional(descriptor, field);
}

/// Where two mandatory optional fields hold no value, validation names a
/// field that holds none and that is declared no later than the earlier of
/// the two: the first such field in declaration order, whatever else is
/// absent. The failure is a function of the instance, so every run reports
/// the same one.
pub proof fn law_failure_names_first_absent_field(
    descriptor: StructDescriptorView,
    values: Seq<FieldValueView>,
    earlier: int,
    later: int,
)
    requires
        descriptor.wf(),
        instance_of(descriptor, values).wf(),
        earlier < later,
        is_mandatory_optional(descriptor, earlier),
        is_mandatory_optional(descriptor, later),
        values[earlier] == FieldValueView::Optional(None),
        values[later] == FieldValueView::Optional(None),
    ensures
        instance_of(descriptor, values).first_missing() matches Some(first) && {
            &&& first <= earlier
            &&& is_mandatory_optional(descriptor, first)
            &&& values[first] == FieldValueView::Optional(None)
            &&& forall|before: int|
                0 <= before < first && is_mandatory_optional(descriptor, before)
                    ==> #[trigger] values[before] != FieldValueView::Optional(None)
            &&& instance_of(descriptor, values).failure() == Some(
                failure_naming(descriptor, first),
            )
        },
{
    let instance = instance_of(descriptor, values);
    lemma_unwraps_iff_mandatory_optional(descriptor, earlier);
    lemma_some_first_missing(instance, earlier);
    let first = instance.first_missing()->0;
    lemma_unwraps_iff_mandatory_optional(descriptor, first);
    assert forall|before: int|
        0 <= before < first && is_mandatory_optional(
            descriptor,
            before,
        ) implies #[trigger] values[before] != FieldValueView::Optional(None) by {
        lemma_unwraps_iff_mandatory_optional(descriptor, before);
        assert(!instance.is_missing(before));
    }
}

/// A field whose type is not the optional wrapper gets a plain accessor under
/// its declared type and no presence check, marked mandatory or not.
pub proof fn law_opaque_field_is_never_checked(descriptor: StructDescriptorView, field: int)
    requires
        descriptor.wf(),
        0 <= field < descriptor.fields.len(),
        !descriptor.fields[field].is_optional_wrapper,
    ensures
        generated_unit(descriptor).getters[field] == plain_getter(
            descriptor.fields[field].name,
            descriptor.fields[field].declared_type,
        ),
        forall|k: int|
            0 <= k < generated_unit(descriptor).checks.len() ==> (
            #[trigger] generated_unit(descriptor).checks[k]).index != field,
{
    lemma_unwraps_iff_mandatory_optional(descriptor, field);
    lemma_checks_of(descriptor.fields);
}

/// The validation written out for `Settings` is the one generated for its
/// descriptor: on the same values both fail with the same failure or both
/// succeed, and the accessors hand out the same values.
pub proof fn law_settings_follow_their_descriptor(settings: SettingsView)
    ensures
        instance_of(settings_descriptor(), settings_values(settings)).wf(),
        instance_of(settings_descriptor(), settings_values(settings)).failure()
            == settings.failure(),
        instance_of(settings_descriptor(), settings_values(settings)).is_complete()
            == settings.is_complete(),
        settings.is_complete() ==> {
            let instance = instance_of(settings_descriptor(), settings_values(settings));
            &&& instance.access(0) == AccessedView::Unwrapped(settings.config_file->0)
            &&& instance.access(1) == AccessedView::Unwrapped(settings.log_config_file->0)
            &&& instance.access(2) == AccessedView::Declared(
                FieldValueView::Optional(settings.name),
            )
            &&& instance.access(3) == AccessedView::Declared(
                FieldValueView::Optional(settings.address),
            )
            &&& instance.access(4) == AccessedView::Unwrapped(settings.phone_number->0)
        },
{
    let descriptor = settings_descriptor();
    let values = settings_values(settings);
    let instance = instance_of(descriptor, values);
    lemma_generated_unit_wf(descriptor);
    lemma_unwraps_iff_mandatory_optional(descriptor, 0);
    lemma_unwraps_iff_mandatory_optional(descriptor, 1);
    lemma_unwraps_iff_mandatory_optional(descriptor, 2);
    lemma_unwraps_iff_mandatory_optional(descriptor, 3);
    lemma_unwraps_iff_mandatory_optional(descriptor, 4);
    lemma_complete_iff_none_missing(instance);
    if settings.config_file is None {
        lemma_first_missing_is(instance, 0);
    } else if settings.log_config_file is None {
        lemma_first_missing_is(instance, 1);
    } else if settings.phone_number is None {
        lemma_first_missing_is(instance, 4);
    }
}

} // verus!
