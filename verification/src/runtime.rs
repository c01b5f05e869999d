//! What the generated code does when it runs: validation of an instance of
//! the struct, the validated wrapper, and its accessors.

use crate::emit::{missing_field_message, missing_field_message_text};
use crate::synthesizer::{GeneratedUnit, GeneratedUnitView};
use vstd::prelude::*;

verus! {

/// The value stored in one field of an instance.
#[derive(Debug, PartialEq, Eq)]
pub enum FieldValue {
    /// The value of a field whose type is the optional wrapper.
    Optional(Option<String>),
    /// The value of a field of any other type.
    Plain(String),
}

/// Mathematical value of a [`FieldValue`].
pub enum FieldValueView {
    Optional(Option<Seq<char>>),
    Plain(Seq<char>),
}

impl DeepView for FieldValue {
    type V = FieldValueView;

    open spec fn deep_view(&self) -> FieldValueView {
        match self {
            FieldValue::Optional(value) => FieldValueView::Optional(value.deep_view()),
            FieldValue::Plain(value) => FieldValueView::Plain(value@),
        }
    }
}

impl View for FieldValue {
    type V = FieldValueView;

    open spec fn view(&self) -> FieldValueView {
        self.deep_view()
    }
}

impl Clone for FieldValue {
    fn clone(&self) -> (copy: FieldValue)
        ensures
            copy == *self,
    {
        match self {
            FieldValue::Optional(Some(value)) => FieldValue::Optional(Some(value.clone())),
            FieldValue::Optional(None) => FieldValue::Optional(None),
            FieldValue::Plain(value) => FieldValue::Plain(value.clone()),
        }
    }
}

/// What an accessor of the wrapper hands out.
#[derive(Debug, PartialEq, Eq)]
pub enum Accessed {
    /// The value inside a mandatory optional field.
    Unwrapped(String),
    /// The value of any other field, as it is stored.
    Declared(FieldValue),
}

/// Mathematical value of an [`Accessed`].
pub enum AccessedView {
    Unwrapped(Seq<char>),
    Declared(FieldValueView),
}

impl DeepView for Accessed {
    type V = AccessedView;

    open spec fn deep_view(&self) -> AccessedView {
        match self {
            Accessed::Unwrapped(value) => AccessedView::Unwrapped(value@),
            Accessed::Declared(value) => AccessedView::Declared(value.deep_view()),
        }
    }
}

impl View for Accessed {
    type V = AccessedView;

    open spec fn view(&self) -> AccessedView {
        self.deep_view()
    }
}

/// The failure of a validation: a mandatory field holds no value.
#[derive(Debug, PartialEq, Eq)]
pub struct MissingMandatoryField {
    /// The field that holds no value.
    pub field: String,
    /// The struct that the field belongs to.
    pub struct_name: String,
}

/// Mathematical value of a [`MissingMandatoryField`].
pub struct MissingMandatoryFieldView {
    pub field: Seq<char>,
    pub struct_name: Seq<char>,
}

impl DeepView for MissingMandatoryField {
    type V = MissingMandatoryFieldView;

    open spec fn deep_view(&self) -> MissingMandatoryFieldView {
        MissingMandatoryFieldView { field: self.field@, struct_name: self.struct_name@ }
    }
}

impl View for MissingMandatoryField {
    type V = MissingMandatoryFieldView;

    open spec fn view(&self) -> MissingMandatoryFieldView {
        self.deep_view()
    }
}

impl MissingMandatoryField {
    /// The message that the generated validation method aborts with.
    pub fn message(&self) -> (message: String)
        ensures
            message@ == missing_field_message(self@.field, self@.struct_name),
    {
        missing_field_message_text(self.field.as_str(), self.struct_name.as_str())
    }
}

/// Mathematical value of an [`Instance`]: the unit generated for its struct
/// and the values of its fields, in declaration order.
pub struct InstanceView {
    pub unit: GeneratedUnitView,
    pub values: Seq<FieldValueView>,
}

impl InstanceView {
    /// The values fit the struct: one per field, and an optional one wherever
    /// the accessor unwraps.
    pub open spec fn wf(self) -> bool {
        &&& self.unit.wf()
        &&& self.values.len() == self.unit.getters.len()
        &&& forall|i: int|
            0 <= i < self.values.len() && self.unit.getters[i].unwraps ==> (
            #[trigger] self.values[i]) is Optional
    }

    /// Whether field `i` is mandatory and holds no value.
    pub open spec fn is_missing(self, i: int) -> bool {
        &&& 0 <= i < self.values.len()
        &&& self.unit.getters[i].unwraps
        &&& self.values[i] == FieldValueView::Optional(None)
    }

    /// Whether field `i` is mandatory and holds no value, and no field
    /// declared before it is.
    pub open spec fn is_first_missing(self, i: int) -> bool {
        &&& self.is_missing(i)
        &&& forall|j: int| 0 <= j < i ==> !self.is_missing(j)
    }

    /// The first field, in declaration order, that is mandatory and holds no
    /// value.
    pub open spec fn first_missing(self) -> Option<int> {
        if exists|i: int| self.is_first_missing(i) {
            Some(choose|i: int| self.is_first_missing(i))
        } else {
            None
        }
    }

    /// Whether every mandatory field holds a value.
    pub open spec fn is_complete(self) -> bool {
        forall|i: int| !self.is_missing(i)
    }

    /// The failure that validation reports: it names the first field, in
    /// declaration order, that is mandatory and holds no value. `None` when
    /// validation succeeds.
    pub open spec fn failure(self) -> Option<MissingMandatoryFieldView> {
        match self.first_missing() {
            Some(i) => Some(
                MissingMandatoryFieldView {
                    field: self.unit.getters[i].field,
                    struct_name: self.unit.struct_name,
                },
            ),
            None => None,
        }
    }

    /// What the accessor of field `i` hands out on a validated instance.
    pub open spec fn access(self, i: int) -> AccessedView {
        if self.unit.getters[i].unwraps {
            AccessedView::Unwrapped(self.values[i]->Optional_0->0)
        } else {
            AccessedView::Declared(self.values[i])
        }
    }

    /// Whether `i` is the first accessor named `method`.
    pub open spec fn is_first_named(self, method: Seq<char>, i: int) -> bool {
        &&& 0 <= i < self.unit.getters.len()
        &&& self.unit.getters[i].method == method
        &&& forall|j: int| 0 <= j < i ==> (#[trigger] self.unit.getters[j]).method != method
    }

    /// The position of the accessor named `method`.
    pub open spec fn position_of(self, method: Seq<char>) -> Option<int> {
        if exists|i: int| self.is_first_named(method, i) {
            Some(choose|i: int| self.is_first_named(method, i))
        } else {
            None
        }
    }

    /// What a call of the accessor named `method` hands out on a validated
    /// instance. `None` when the wrapper has no such accessor.
    pub open spec fn call(self, method: Seq<char>) -> Option<AccessedView> {
        match self.position_of(method) {
            Some(i) => Some(self.access(i)),
            None => None,
        }
    }
}

/// The first missing field is unique.
pub proof fn lemma_first_missing_is(instance: InstanceView, i: int)
    requires
        instance.is_first_missing(i),
    ensures
        instance.first_missing() == Some(i),
{
}

/// An instance is complete exactly when it has no first missing field.
pub proof fn lemma_complete_iff_none_missing(instance: InstanceView)
    ensures
        instance.is_complete() <==> instance.first_missing() is None,
        instance.is_complete() <==> instance.failure() is None,
{
    if !instance.is_complete() {
        let i = choose|i: int| instance.is_missing(i);
        lemma_some_first_missing(instance, i);
    }
}

/// Below a missing field there is a first missing field.
pub proof fn lemma_some_first_missing(instance: InstanceView, i: int)
    requires
        instance.is_missing(i),
    ensures
        instance.first_missing() is Some,
        instance.first_missing()->0 <= i,
    decreases i,
{
    if forall|j: int| 0 <= j < i ==> !instance.is_missing(j) {
        lemma_first_missing_is(instance, i);
    } else {
        let j = choose|j: int| 0 <= j < i && instance.is_missing(j);
        lemma_some_first_missing(instance, j);
    }
}

/// The first accessor of a name is unique.
pub proof fn lemma_position_is(instance: InstanceView, method: Seq<char>, i: int)
    requires
        instance.is_first_named(method, i),
    ensures
        instance.position_of(method) == Some(i),
{
}

/// An instance of the struct that a unit was generated for: one value per
/// field, in declaration order.
#[derive(Debug)]
pub struct Instance<'a> {
    unit: &'a GeneratedUnit,
    values: Vec<FieldValue>,
}

impl<'a> View for Instance<'a> {
    type V = InstanceView;

    closed spec fn view(&self) -> InstanceView {
        InstanceView { unit: self.unit@, values: self.values.deep_view() }
    }
}

fn clone_values(values: &Vec<FieldValue>) -> (copy: Vec<FieldValue>)
    ensures
        copy@ == values@,
{
    let mut copy: Vec<FieldValue> = Vec::new();
    let mut i: usize = 0;
    while i < values.len()
        invariant
            i <= values.len(),
            copy@ == values@.take(i as int),
        decreases values.len() - i,
    {
        copy.push(values[i].clone());
        i += 1;
    }
    copy
}

impl GeneratedUnit {
    /// An instance of the struct with the given field values, in declaration
    /// order. `None` when the values do not fit the struct: there is not one
    /// per field, or a field that the wrapper unwraps holds a value that is
    /// not optional.
    pub fn instance(&self, values: Vec<FieldValue>) -> (instance: Option<Instance<'_>>)
        ensures
            instance is Some <==> (InstanceView { unit: self@, values: values.deep_view() }).wf(),
            instance matches Some(made) ==> made@ == (InstanceView {
                unit: self@,
                values: values.deep_view(),
            }),
    {
        let getters = self.getters();
        if values.len() != getters.len() {
            return None;
        }
        let mut i: usize = 0;
        while i < values.len()
            invariant
                i <= values.len(),
                values.len() == getters.len(),
                getters.deep_view() == self@.getters,
                forall|j: int|
                    0 <= j < i && self@.getters[j].unwraps ==> (
                    #[trigger] values.deep_view()[j]) is Optional,
            decreases values.len() - i,
        {
            if getters[i].unwraps {
                match &values[i] {
                    FieldValue::Optional(_) => {},
                    FieldValue::Plain(_) => {
                        assert(!(values.deep_view()[i as int] is Optional));
                        return None;
                    },
                }
            }
            i += 1;
        }
        Some(Instance { unit: self, values })
    }
}

impl<'a> Instance<'a> {
    #[verifier::type_invariant]
    spec fn well_formed(&self) -> bool {
        self@.wf()
    }

    /// The unit generated for the instance's struct.
    pub fn unit(&self) -> (unit: &'a GeneratedUnit)
        ensures
            unit@ == self@.unit,
    {
        self.unit
    }

    /// The field values, in declaration order.
    pub fn values(&self) -> (values: &Vec<FieldValue>)
        ensures
            values.deep_view() == self@.values,
            self@.wf(),
    {
        proof {
            use_type_invariant(self);
        }
        &self.values
    }

    /// Runs the presence checks of the validation method in order. Hands out
    /// the failure of the first check that does not hold: it names the first
    /// mandatory field, in declaration order, that holds no value. `None`
    /// when every check holds.
    pub fn missing_mandatory_field(&self) -> (failure: Option<MissingMandatoryField>)
        ensures
            failure.deep_view() == self@.failure(),
            failure is None <==> self@.is_complete(),
    {
        proof {
            use_type_invariant(self);
            lemma_complete_iff_none_missing(self@);
        }
        let checks = self.unit.checks();
        let ghost me = self@;
        let mut k: usize = 0;
        while k < checks.len()
            invariant
                k <= checks.len(),
                me == self@,
                me.wf(),
                checks.deep_view() == me.unit.checks,
                forall|j: int|
                    0 <= j < k ==> me.values[(#[trigger] me.unit.checks[j]).index]
                        != FieldValueView::Optional(None),
            decreases checks.len() - k,
        {
            let check = &checks[k];
            assert(check.deep_view() == me.unit.checks[k as int]);
            let index = check.index;
            match &self.values[index] {
                FieldValue::Optional(None) => {
                    proof {
                        // A mandatory field declared earlier is guarded by a
                        // check that ran before this one, and that check held.
                        assert forall|i: int| 0 <= i < index implies !me.is_missing(i) by {
                            if me.is_missing(i) {
                                let earlier = choose|l: int|
                                    0 <= l < me.unit.checks.len() && (
                                    #[trigger] me.unit.checks[l]).index == i;
                                assert(earlier < k);
                            }
                        }
                        lemma_first_missing_is(me, index as int);
                    }
                    return Some(
                        MissingMandatoryField {
                            field: check.field.clone(),
                            struct_name: String::from_str(self.unit.struct_name()),
                        },
                    );
                },
                _ => {},
            }
            k += 1;
        }
        proof {
            // Every mandatory field is guarded by a check, and every check held.
            assert forall|i: int| !me.is_missing(i) by {
                if me.is_missing(i) {
                    let guard = choose|l: int|
                        0 <= l < me.unit.checks.len() && (#[trigger] me.unit.checks[l]).index == i;
                    assert(me.values[me.unit.checks[guard].index] != FieldValueView::Optional(
                        None,
                    ));
                }
            }
        }
        None
    }

    /// Wraps a copy of the instance whose every mandatory field holds a
    /// value.
    pub fn validate_configuration(&self) -> (validated: Validated<'a>)
        requires
            self@.is_complete(),
        ensures
            validated@ == self@,
    {
        proof {
            use_type_invariant(self);
        }
        let values = clone_values(&self.values);
        Validated { inner: Instance { unit: self.unit, values } }
    }

    /// Validates the instance: the wrapper around a copy of it when every
    /// mandatory field holds a value, else the failure that names the first
    /// mandatory field, in declaration order, that holds none.
    pub fn try_validate_configuration(&self) -> (result: Result<
        Validated<'a>,
        MissingMandatoryField,
    >)
        ensures
            match result {
                Ok(validated) => self@.failure() is None && validated@ == self@,
                Err(failure) => self@.failure() == Some(failure@),
            },
    {
        match self.missing_mandatory_field() {
            Some(failure) => Err(failure),
            None => Ok(self.validate_configuration()),
        }
    }
}

/// The wrapper that validation returns: an instance whose every mandatory
/// field holds a value. It owns the instance and gives it out only through
/// its accessors.
#[derive(Debug)]
pub struct Validated<'a> {
    inner: Instance<'a>,
}

impl<'a> View for Validated<'a> {
    type V = InstanceView;

    closed spec fn view(&self) -> InstanceView {
        self.inner@
    }
}

impl<'a> Validated<'a> {
    #[verifier::type_invariant]
    spec fn validated(&self) -> bool {
        self.inner@.wf() && self.inner@.is_complete()
    }

    /// The unit generated for the wrapped instance's struct.
    pub fn unit(&self) -> (unit: &'a GeneratedUnit)
        ensures
            unit@ == self@.unit,
            self@.wf(),
            self@.is_complete(),
    {
        proof {
            use_type_invariant(self);
        }
        self.inner.unit
    }

    /// What the accessor of field `index` hands out: the value inside a
    /// mandatory optional field, the stored value of any other field. `None`
    /// when the struct has no field `index`.
    pub fn get_at(&self, index: usize) -> (accessed: Option<Accessed>)
        ensures
            accessed is Some <==> index < self@.values.len(),
            accessed matches Some(value) ==> value@ == self@.access(index as int),
            accessed matches Some(value) ==> (value is Unwrapped
                <==> self@.unit.getters[index as int].unwraps),
    {
        proof {
            use_type_invariant(self);
            use_type_invariant(&self.inner);
        }
        let getters = self.inner.unit.getters();
        if index >= self.inner.values.len() {
            return None;
        }
        assert(!self@.is_missing(index as int));
        if getters[index].unwraps {
            if let FieldValue::Optional(Some(value)) = &self.inner.values[index] {
                return Some(Accessed::Unwrapped(value.clone()));
            }
        }
        Some(Accessed::Declared(self.inner.values[index].clone()))
    }

    /// What a call of the accessor named `method` hands out. `None` when the
    /// wrapper has no accessor of that name.
    pub fn get(&self, method: &str) -> (accessed: Option<Accessed>)
        ensures
            accessed.deep_view() == self@.call(method@),
    {
        proof {
            use_type_invariant(self);
            use_type_invariant(&self.inner);
        }
        let getters = self.inner.unit.getters();
        let wanted = String::from_str(method);
        let ghost me = self@;
        let mut i: usize = 0;
        while i < getters.len()
            invariant
                i <= getters.len(),
                me == self@,
                me.wf(),
                wanted@ == method@,
                getters.deep_view() == me.unit.getters,
                forall|j: int| 0 <= j < i ==> (#[trigger] me.unit.getters[j]).method != method@,
            decreases getters.len() - i,
        {
            if getters[i].method == wanted {
                proof {
                    lemma_position_is(me, method@, i as int);
                }
                return self.get_at(i);
            }
            i += 1;
        }
        None
    }
}

} // verus!
