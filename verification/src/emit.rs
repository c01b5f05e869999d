//! The generated unit as Rust source text.

use crate::synthesizer::{
    GeneratedUnit, GeneratedUnitView, Getter, GetterView, PresenceCheck, PresenceCheckView,
};
use vstd::prelude::*;

verus! {

/// The message with which validation fails when the mandatory field `field`
/// of the struct `struct_name` holds no value.
pub open spec fn missing_field_message(field: Seq<char>, struct_name: Seq<char>) -> Seq<char> {
    "[config-validator] mandatory field \""@ + field + "\" not provided for struct \""@
        + struct_name + "\""@
}

/// The source of one presence check inside `validate_configuration`.
pub open spec fn check_source(struct_name: Seq<char>, check: PresenceCheckView) -> Seq<char> {
    "        if self."@ + check.field
        + ".is_none() {\n            panic!(\"[config-validator] mandatory field \\\"{}\\\" not provided for struct \\\"{}\\\"\", stringify!("@
        + check.field + "), stringify!("@ + struct_name + "));\n        }\n"@
}

/// The source of `checks`, one after the other.
pub open spec fn checks_source(struct_name: Seq<char>, checks: Seq<PresenceCheckView>) -> Seq<char>
    decreases checks.len(),
{
    if checks.len() == 0 {
        Seq::empty()
    } else {
        checks_source(struct_name, checks.drop_last()) + check_source(struct_name, checks.last())
    }
}

/// The source of one accessor inside the wrapper's `impl` block.
pub open spec fn getter_source(getter: GetterView) -> Seq<char> {
    "    pub fn "@ + getter.method + "(&self) -> "@ + getter.return_type + " {\n        self.0."@
        + getter.field + if getter.unwraps {
        ".clone().unwrap()\n    }\n"@
    } else {
        ".clone()\n    }\n"@
    }
}

/// The source of `getters`, one after the other.
pub open spec fn getters_source(getters: Seq<GetterView>) -> Seq<char>
    decreases getters.len(),
{
    if getters.len() == 0 {
        Seq::empty()
    } else {
        getters_source(getters.drop_last()) + getter_source(getters.last())
    }
}

/// The names in `derives`, separated by a comma and a space.
pub open spec fn derives_source(derives: Seq<Seq<char>>) -> Seq<char>
    decreases derives.len(),
{
    if derives.len() == 0 {
        Seq::empty()
    } else if derives.len() == 1 {
        derives[0]
    } else {
        derives_source(derives.drop_last()) + ", "@ + derives.last()
    }
}

/// The source of a whole unit: the validation method on the struct, the
/// wrapper type, and the wrapper's accessors.
pub open spec fn unit_source(unit: GeneratedUnitView) -> Seq<char> {
    "impl "@ + unit.struct_name + " {\n    pub fn validate_configuration(&self) -> "@
        + unit.wrapper_name + " {\n"@ + checks_source(unit.struct_name, unit.checks) + "        "@
        + unit.wrapper_name + "(self.clone())\n    }\n}\n\n#[derive("@ + derives_source(
        unit.derives,
    ) + ")]\npub struct "@ + unit.wrapper_name + "("@ + unit.struct_name + ");\n\nimpl "@
        + unit.wrapper_name + " {\n"@ + getters_source(unit.getters) + "}\n"@
}

/// The message with which validation fails when the mandatory field `field`
/// of the struct `struct_name` holds no value.
pub fn missing_field_message_text(field: &str, struct_name: &str) -> (message: String)
    ensures
        message@ == missing_field_message(field@, struct_name@),
{
    let mut message = String::from_str("[config-validator] mandatory field \"");
    message.append(field);
    message.append("\" not provided for struct \"");
    message.append(struct_name);
    message.append("\"");
    message
}

fn check_text(struct_name: &str, check: &PresenceCheck) -> (text: String)
    ensures
        text@ == check_source(struct_name@, check@),
{
    let mut text = String::from_str("        if self.");
    text.append(check.field.as_str());
    text.append(
        ".is_none() {\n            panic!(\"[config-validator] mandatory field \\\"{}\\\" not provided for struct \\\"{}\\\"\", stringify!(",
    );
    text.append(check.field.as_str());
    text.append("), stringify!(");
    text.append(struct_name);
    text.append("));\n        }\n");
    text
}

fn getter_text(getter: &Getter) -> (text: String)
    ensures
        text@ == getter_source(getter@),
{
    let mut text = String::from_str("    pub fn ");
    text.append(getter.method.as_str());
    text.append("(&self) -> ");
    text.append(getter.return_type.as_str());
    text.append(" {\n        self.0.");
    text.append(getter.field.as_str());
    if getter.unwraps {
        text.append(".clone().unwrap()\n    }\n");
    } else {
        text.append(".clone()\n    }\n");
    }
    text
}

fn checks_text(struct_name: &str, checks: &Vec<PresenceCheck>) -> (text: String)
    ensures
        text@ == checks_source(struct_name@, checks.deep_view()),
{
    let ghost all = checks.deep_view();
    let mut text = String::new();
    let mut i: usize = 0;
    while i < checks.len()
        invariant
            i <= checks.len(),
            all == checks.deep_view(),
            text@ == checks_source(struct_name@, all.take(i as int)),
        decreases checks.len() - i,
    {
        let piece = check_text(struct_name, &checks[i]);
        proof {
            assert(all.take(i + 1).drop_last() =~= all.take(i as int));
        }
        text.append(piece.as_str());
        i += 1;
    }
    assert(all.take(i as int) =~= all);
    text
}

fn getters_text(getters: &Vec<Getter>) -> (text: String)
    ensures
        text@ == getters_source(getters.deep_view()),
{
    let ghost all = getters.deep_view();
    let mut text = String::new();
    let mut i: usize = 0;
    while i < getters.len()
        invariant
            i <= getters.len(),
            all == getters.deep_view(),
            text@ == getters_source(all.take(i as int)),
        decreases getters.len() - i,
    {
        let piece = getter_text(&getters[i]);
        proof {
            assert(all.take(i + 1).drop_last() =~= all.take(i as int));
        }
        text.append(piece.as_str());
        i += 1;
    }
    assert(all.take(i as int) =~= all);
    text
}

fn derives_text(derives: &Vec<String>) -> (text: String)
    ensures
        text@ == derives_source(derives.deep_view()),
{
    let ghost all = derives.deep_view();
    let mut text = String::new();
    let mut i: usize = 0;
    while i < derives.len()
        invariant
            i <= derives.len(),
            all == derives.deep_view(),
            text@ == derives_source(all.take(i as int)),
        decreases derives.len() - i,
    {
        proof {
            assert(all.take(i + 1).drop_last() =~= all.take(i as int));
        }
        if i > 0 {
            text.append(", ");
        }
        text.append(derives[i].as_str());
        i += 1;
    }
    assert(all.take(i as int) =~= all);
    text
}

impl GeneratedUnit {
    /// The unit as Rust source text.
    pub fn to_source(&self) -> (text: String)
        ensures
            text@ == unit_source(self@),
    {
        let checks = checks_text(self.struct_name(), self.checks());
        let derives = derives_text(self.derives());
        let getters = getters_text(self.getters());
        let mut text = String::from_str("impl ");
        text.append(self.struct_name());
        text.append(" {\n    pub fn validate_configuration(&self) -> ");
        text.append(self.wrapper_name());
        text.append(" {\n");
        text.append(checks.as_str());
        text.append("        ");
        text.append(self.wrapper_name());
        text.append("(self.clone())\n    }\n}\n\n#[derive(");
        text.append(derives.as_str());
        text.append(")]\npub struct ");
        text.append(self.wrapper_name());
        text.append("(");
        text.append(self.struct_name());
        text.append(");\n\nimpl ");
        text.append(self.wrapper_name());
        text.append(" {\n");
        text.append(getters.as_str());
        text.append("}\n");
        text
    }
}

} // verus!
