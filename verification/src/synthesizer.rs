//! Code synthesis: the presence checks of the validation method and the
//! accessors of the wrapper type.

use crate::descriptor::{FieldDescriptorView, StructDescriptor, StructDescriptorView};
use vstd::prelude::*;

verus! {

/// One accessor of the wrapper type.
#[derive(Debug, PartialEq, Eq)]
pub struct Getter {
    /// The accessor's name, `get_` and the field's name.
    pub method: String,
    /// The field that the accessor reads.
    pub field: String,
    /// The accessor's return type, as source text.
    pub return_type: String,
    /// Whether the accessor unwraps the stored optional value. Otherwise it
    /// hands out a copy of the stored value as declared.
    pub unwraps: bool,
}

/// Mathematical value of a [`Getter`].
pub struct GetterView {
    pub method: Seq<char>,
    pub field: Seq<char>,
    pub return_type: Seq<char>,
    pub unwraps: bool,
}

impl DeepView for Getter {
    type V = GetterView;

    open spec fn deep_view(&self) -> GetterView {
        GetterView {
            method: self.method@,
            field: self.field@,
            return_type: self.return_type@,
            unwraps: self.unwraps,
        }
    }
}

impl View for Getter {
    type V = GetterView;

    open spec fn view(&self) -> GetterView {
        self.deep_view()
    }
}

/// One presence check of the validation method: validation stops at the
/// first check whose field holds no value.
#[derive(Debug, PartialEq, Eq)]
pub struct PresenceCheck {
    /// The field that must hold a value.
    pub field: String,
    /// The field's position in the declaration.
    pub index: usize,
}

/// Mathematical value of a [`PresenceCheck`].
pub struct PresenceCheckView {
    pub field: Seq<char>,
    pub index: int,
}

impl DeepView for PresenceCheck {
    type V = PresenceCheckView;

    open spec fn deep_view(&self) -> PresenceCheckView {
        PresenceCheckView { field: self.field@, index: self.index as int }
    }
}

impl View for PresenceCheck {
    type V = PresenceCheckView;

    open spec fn view(&self) -> PresenceCheckView {
        self.deep_view()
    }
}

/// The name of the accessor of the field `field`.
pub open spec fn getter_name(field: Seq<char>) -> Seq<char> {
    "get_"@ + field
}

/// The name of the wrapper type of the struct `struct_name`.
pub open spec fn wrapper_name(struct_name: Seq<char>) -> Seq<char> {
    "Validated"@ + struct_name
}

/// The traits that the wrapper type derives.
pub open spec fn wrapper_derives() -> Seq<Seq<char>> {
    seq!["Clone"@, "Debug"@, "Serialize"@]
}

/// The accessor that copies the field `field`, declared as `declared_type`.
pub open spec fn plain_getter(field: Seq<char>, declared_type: Seq<char>) -> GetterView {
    GetterView { method: getter_name(field), field, return_type: declared_type, unwraps: false }
}

/// The accessor that unwraps the field `field`, an optional `inner_type`.
pub open spec fn unwrapping_getter(field: Seq<char>, inner_type: Seq<char>) -> GetterView {
    GetterView { method: getter_name(field), field, return_type: inner_type, unwraps: true }
}

/// The accessor of a field: unwrapping for a mandatory optional wrapper,
/// plain for every other field.
pub open spec fn getter_of(field: FieldDescriptorView) -> GetterView {
    if field.is_checked() {
        unwrapping_getter(field.name, field.inner_type->0)
    } else {
        plain_getter(field.name, field.declared_type)
    }
}

/// One accessor per field, in declaration order.
pub open spec fn getters_of(fields: Seq<FieldDescriptorView>) -> Seq<GetterView> {
    fields.map_values(|field: FieldDescriptorView| getter_of(field))
}

/// One presence check per mandatory optional wrapper, in declaration order.
pub open spec fn checks_of(fields: Seq<FieldDescriptorView>) -> Seq<PresenceCheckView>
    decreases fields.len(),
{
    if fields.len() == 0 {
        Seq::empty()
    } else if fields.last().is_checked() {
        checks_of(fields.drop_last()).push(
            PresenceCheckView { field: fields.last().name, index: fields.len() - 1 },
        )
    } else {
        checks_of(fields.drop_last())
    }
}

/// The checks of `fields` are exactly its mandatory optional wrappers, each
/// once, in declaration order.
pub proof fn lemma_checks_of(fields: Seq<FieldDescriptorView>)
    ensures
        forall|k: int|
            0 <= k < checks_of(fields).len() ==> {
                let check = #[trigger] checks_of(fields)[k];
                &&& 0 <= check.index < fields.len()
                &&& fields[check.index].is_checked()
                &&& check.field == fields[check.index].name
            },
        forall|k: int, l: int|
            0 <= k < l < checks_of(fields).len() ==> (#[trigger] checks_of(fields)[k]).index < (
            #[trigger] checks_of(fields)[l]).index,
        forall|i: int|
            0 <= i < fields.len() && (#[trigger] fields[i]).is_checked() ==> exists|k: int|
                0 <= k < checks_of(fields).len() && (#[trigger] checks_of(fields)[k]).index == i,
    decreases fields.len(),
{
    if fields.len() > 0 {
        let front = fields.drop_last();
        lemma_checks_of(front);
        let checks = checks_of(fields);
        assert forall|i: int|
            0 <= i < fields.len() && (#[trigger] fields[i]).is_checked() implies exists|k: int|
            0 <= k < checks.len() && (#[trigger] checks[k]).index == i by {
            if i < fields.len() - 1 {
                assert(front[i].is_checked());
                let k = choose|k: int|
                    0 <= k < checks_of(front).len() && (#[trigger] checks_of(front)[k]).index == i;
                assert(checks[k].index == i);
            } else {
                assert(checks[checks.len() - 1].index == i);
            }
        }
    }
}

/// Appends to `method_impl` the accessor that copies the field `field_name`
/// and returns it as declared, `field_type`.
pub fn generate_getter(field_name: &str, field_type: &str, method_impl: &mut Vec<Getter>)
    ensures
        final(method_impl).deep_view() == old(method_impl).deep_view().push(
            plain_getter(field_name@, field_type@),
        ),
{
    let mut method = String::from_str("get_");
    method.append(field_name);
    let getter = Getter {
        method,
        field: String::from_str(field_name),
        return_type: String::from_str(field_type),
        unwraps: false,
    };
    method_impl.push(getter);
}

/// Appends to `method_impl` the accessor that unwraps the field `field_name`
/// and returns the wrapped type, `inner_type`.
pub fn generate_unwrapping_getter(field_name: &str, inner_type: &str, method_impl: &mut Vec<Getter>)
    ensures
        final(method_impl).deep_view() == old(method_impl).deep_view().push(
            unwrapping_getter(field_name@, inner_type@),
        ),
{
    let mut method = String::from_str("get_");
    method.append(field_name);
    let getter = Getter {
        method,
        field: String::from_str(field_name),
        return_type: String::from_str(inner_type),
        unwraps: true,
    };
    method_impl.push(getter);
}

/// Everything generated for one struct: the presence checks of its
/// `validate_configuration` method, the wrapper type, and the accessors of
/// the wrapper type, one per field.
#[derive(Debug, PartialEq, Eq)]
pub struct GeneratedUnit {
    struct_name: String,
    wrapper_name: String,
    derives: Vec<String>,
    checks: Vec<PresenceCheck>,
    getters: Vec<Getter>,
}

/// Mathematical value of a [`GeneratedUnit`].
pub struct GeneratedUnitView {
    /// The struct that gets the validation method.
    pub struct_name: Seq<char>,
    /// The wrapper type that validation returns.
    pub wrapper_name: Seq<char>,
    /// The traits that the wrapper type derives.
    pub derives: Seq<Seq<char>>,
    /// The presence checks, in the order in which validation runs them.
    pub checks: Seq<PresenceCheckView>,
    /// The accessors, one per field, in declaration order.
    pub getters: Seq<GetterView>,
}

impl GeneratedUnitView {
    /// Every check guards an unwrapping accessor's field, the checks run in
    /// declaration order, and no unwrapping accessor goes unguarded.
    pub open spec fn wf(self) -> bool {
        &&& forall|k: int|
            0 <= k < self.checks.len() ==> {
                let check = #[trigger] self.checks[k];
                &&& 0 <= check.index < self.getters.len()
                &&& self.getters[check.index].unwraps
                &&& self.getters[check.index].field == check.field
            }
        &&& forall|k: int, l: int|
            0 <= k < l < self.checks.len() ==> (#[trigger] self.checks[k]).index < (
            #[trigger] self.checks[l]).index
        &&& forall|i: int|
            0 <= i < self.getters.len() && (#[trigger] self.getters[i]).unwraps ==> exists|k: int|
                0 <= k < self.checks.len() && (#[trigger] self.checks[k]).index == i
    }
}

/// What is generated for the struct `descriptor`.
pub open spec fn generated_unit(descriptor: StructDescriptorView) -> GeneratedUnitView {
    GeneratedUnitView {
        struct_name: descriptor.name,
        wrapper_name: wrapper_name(descriptor.name),
        derives: wrapper_derives(),
        checks: checks_of(descriptor.fields),
        getters: getters_of(descriptor.fields),
    }
}

/// What is generated for a struct is well formed.
pub proof fn lemma_generated_unit_wf(descriptor: StructDescriptorView)
    ensures
        generated_unit(descriptor).wf(),
{
    lemma_checks_of(descriptor.fields);
    let unit = generated_unit(descriptor);
    assert forall|i: int|
        0 <= i < unit.getters.len() && (#[trigger] unit.getters[i]).unwraps implies exists|k: int|
        0 <= k < unit.checks.len() && (#[trigger] unit.checks[k]).index == i by {
        let k = choose|k: int|
            0 <= k < checks_of(descriptor.fields).len() && (#[trigger] checks_of(
                descriptor.fields,
            )[k]).index == i;
        assert(unit.checks[k].index == i);
    }
    assert forall|k: int| 0 <= k < unit.checks.len() implies {
        let check = #[trigger] unit.checks[k];
        &&& 0 <= check.index < unit.getters.len()
        &&& unit.getters[check.index].unwraps
        &&& unit.getters[check.index].field == check.field
    } by {
        let check = checks_of(descriptor.fields)[k];
    }
}

impl View for GeneratedUnit {
    type V = GeneratedUnitView;

    closed spec fn view(&self) -> GeneratedUnitView {
        GeneratedUnitView {
            struct_name: self.struct_name@,
            wrapper_name: self.wrapper_name@,
            derives: self.derives.deep_view(),
            checks: self.checks.deep_view(),
            getters: self.getters.deep_view(),
        }
    }
}

impl GeneratedUnit {
    #[verifier::type_invariant]
    spec fn well_formed(&self) -> bool {
        self@.wf()
    }

    /// The struct that gets the validation method.
    pub fn struct_name(&self) -> (name: &str)
        ensures
            name@ == self@.struct_name,
    {
        self.struct_name.as_str()
    }

    /// The wrapper type that validation returns.
    pub fn wrapper_name(&self) -> (name: &str)
        ensures
            name@ == self@.wrapper_name,
    {
        self.wrapper_name.as_str()
    }

    /// The traits that the wrapper type derives.
    pub fn derives(&self) -> (derives: &Vec<String>)
        ensures
            derives.deep_view() == self@.derives,
    {
        &self.derives
    }

    /// The presence checks, in the order in which validation runs them.
    pub fn checks(&self) -> (checks: &Vec<PresenceCheck>)
        ensures
            checks.deep_view() == self@.checks,
            self@.wf(),
    {
        proof {
            use_type_invariant(self);
        }
        &self.checks
    }

    /// The accessors, one per field, in declaration order.
    pub fn getters(&self) -> (getters: &Vec<Getter>)
        ensures
            getters.deep_view() == self@.getters,
            self@.wf(),
    {
        proof {
            use_type_invariant(self);
        }
        &self.getters
    }
}

/// Generates the unit of a classified struct: for each mandatory optional
/// wrapper a presence check and an unwrapping accessor, for every other field
/// a plain accessor.
pub fn synthesize(descriptor: &StructDescriptor) -> (unit: GeneratedUnit)
    ensures
        unit@ == generated_unit(descriptor@),
        unit@.wf(),
{
    let ghost fields = descriptor.fields.deep_view();
    let mut checks: Vec<PresenceCheck> = Vec::new();
    let mut getters: Vec<Getter> = Vec::new();
    let mut i: usize = 0;
    while i < descriptor.fields.len()
        invariant
            i <= descriptor.fields.len(),
            fields == descriptor.fields.deep_view(),
            checks.deep_view() == checks_of(fields.take(i as int)),
            getters.deep_view() == getters_of(fields.take(i as int)),
        decreases descriptor.fields.len() - i,
    {
        let field = &descriptor.fields[i];
        proof {
            assert(fields.take(i + 1).drop_last() =~= fields.take(i as int));
        }
        if field.is_mandatory && field.inner_type.is_some() {
            let inner = field.inner_type.as_ref().unwrap();
            checks.push(PresenceCheck { field: field.name.clone(), index: i });
            generate_unwrapping_getter(field.name.as_str(), inner.as_str(), &mut getters);
        } else {
            generate_getter(field.name.as_str(), field.declared_type.as_str(), &mut getters);
        }
        i += 1;
    }
    assert(fields.take(i as int) =~= fields);
    let mut wrapper_name = String::from_str("Validated");
    wrapper_name.append(descriptor.name.as_str());
    let mut derives: Vec<String> = Vec::new();
    derives.push(String::from_str("Clone"));
    derives.push(String::from_str("Debug"));
    derives.push(String::from_str("Serialize"));
    assert(derives.deep_view() =~= wrapper_derives());
    proof {
        lemma_generated_unit_wf(descriptor@);
    }
    GeneratedUnit { struct_name: descriptor.name.clone(), wrapper_name, derives, checks, getters }
}

} // verus!
