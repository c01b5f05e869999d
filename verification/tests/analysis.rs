use config_validator::analyzer::{analyze, classify, LeadingSegment, Shape};
use config_validator::scanner::{carries_token, is_field_mandatory, verify_attribute_token, ParsedAttribute};

fn inner_of(declared_type: &str) -> Option<String> {
    match analyze(declared_type) {
        Shape::OptionalWrapper(inner) => Some(inner),
        Shape::Opaque => None,
    }
}

fn attrs(list: &[&str]) -> Vec<String> {
    list.iter().map(|attr| attr.to_string()).collect()
}

#[test]
fn option_of_a_type_is_the_optional_wrapper() {
    assert_eq!(inner_of("Option<String>"), Some("String".to_string()));
    assert_eq!(inner_of("Option < u16 >"), Some("u16".to_string()));
}

#[test]
fn inner_type_is_printed_back_token_by_token() {
    assert_eq!(inner_of("Option<Vec<String>>"), Some("Vec < String >".to_string()));
    assert_eq!(inner_of("Option<[u8; 4]>"), Some("[u8 ; 4]".to_string()));
}

#[test]
fn plain_types_are_opaque() {
    assert_eq!(inner_of("String"), None);
    assert_eq!(inner_of("Vec<String>"), None);
    assert_eq!(inner_of("Option"), None);
}

#[test]
fn arrays_tuples_and_references_are_opaque() {
    assert_eq!(inner_of("[u8; 4]"), None);
    assert_eq!(inner_of("(Option<String>, u8)"), None);
    assert_eq!(inner_of("&Option<String>"), None);
    assert_eq!(inner_of("(Option<String>)"), None);
}

#[test]
fn only_a_single_type_argument_counts() {
    assert_eq!(inner_of("Option<String, u8>"), None);
    assert_eq!(inner_of("Option<>"), None);
    assert_eq!(inner_of("Option<'a>"), None);
    assert_eq!(inner_of("Option(String)"), None);
}

#[test]
fn only_the_leading_segment_counts() {
    assert_eq!(inner_of("std::option::Option<String>"), None);
    assert_eq!(inner_of("option::Option<String>"), None);
    assert_eq!(inner_of("Optional<String>"), None);
}

#[test]
fn text_that_is_no_type_is_opaque() {
    assert_eq!(inner_of(""), None);
    assert_eq!(inner_of("Option<"), None);
    assert_eq!(inner_of("Option<String> extra"), None);
}

#[test]
fn classify_reads_the_segment_alone() {
    let segment = |ident: &str, arguments: Option<Vec<Option<&str>>>| {
        Some(LeadingSegment {
            ident: ident.to_string(),
            arguments: arguments.map(|list| list.into_iter().map(|a| a.map(String::from)).collect()),
        })
    };
    assert!(matches!(classify(None), Shape::Opaque));
    assert!(matches!(classify(segment("Option", None)), Shape::Opaque));
    assert!(matches!(classify(segment("Option", Some(vec![]))), Shape::Opaque));
    assert!(matches!(classify(segment("Option", Some(vec![None]))), Shape::Opaque));
    assert!(matches!(classify(segment("Option", Some(vec![Some("A"), Some("B")]))), Shape::Opaque));
    assert!(matches!(classify(segment("Vec", Some(vec![Some("A")]))), Shape::Opaque));
    match classify(segment("Option", Some(vec![Some("A")]))) {
        Shape::OptionalWrapper(inner) => assert_eq!(inner, "A"),
        Shape::Opaque => panic!("Option<A> is the optional wrapper"),
    }
}

#[test]
fn validate_mandatory_marks_a_field() {
    assert!(is_field_mandatory(&attrs(&["validate(mandatory)"])));
    assert!(is_field_mandatory(&attrs(&["validate ( mandatory )"])));
    assert!(is_field_mandatory(&attrs(&["arg(short, long)", "validate(mandatory)"])));
    assert!(is_field_mandatory(&attrs(&["validate(mandatory)", "doc = \"the phone\""])));
}

#[test]
fn repeated_token_still_marks_a_field() {
    assert!(is_field_mandatory(&attrs(&["validate(mandatory, mandatory)"])));
    assert!(is_field_mandatory(&attrs(&["validate(mandatory,)"])));
    assert!(is_field_mandatory(&attrs(&["validate[mandatory]"])));
    assert!(is_field_mandatory(&attrs(&["validate{mandatory}"])));
}

#[test]
fn a_later_attribute_can_mark_a_field() {
    assert!(is_field_mandatory(&attrs(&["validate(optional)", "validate(mandatory)"])));
}

#[test]
fn fields_without_the_marker_are_not_mandatory() {
    assert!(!is_field_mandatory(&attrs(&[])));
    assert!(!is_field_mandatory(&attrs(&["arg(short, long)"])));
    assert!(!is_field_mandatory(&attrs(&["serde(mandatory)"])));
    assert!(!is_field_mandatory(&attrs(&["mandatory"])));
}

#[test]
fn unrecognized_tokens_do_not_mark_a_field() {
    assert!(!is_field_mandatory(&attrs(&["validate(optional)"])));
    assert!(!is_field_mandatory(&attrs(&["validate(mandatory, optional)"])));
    assert!(!is_field_mandatory(&attrs(&["validate(optional, mandatory)"])));
    assert!(!is_field_mandatory(&attrs(&["validate(Mandatory)"])));
    assert!(!is_field_mandatory(&attrs(&["validate(r#mandatory)"])));
    assert!(!is_field_mandatory(&attrs(&["validate(validate::mandatory)"])));
    assert!(!is_field_mandatory(&attrs(&["validate(::mandatory)"])));
}

#[test]
fn malformed_attributes_do_not_mark_a_field() {
    assert!(!is_field_mandatory(&attrs(&["validate"])));
    assert!(!is_field_mandatory(&attrs(&["validate()"])));
    assert!(!is_field_mandatory(&attrs(&["validate = \"mandatory\""])));
    assert!(!is_field_mandatory(&attrs(&["validate(mandatory = true)"])));
    assert!(!is_field_mandatory(&attrs(&["validate(mandatory(yes))"])));
    assert!(!is_field_mandatory(&attrs(&["validate(\"mandatory\")"])));
    assert!(!is_field_mandatory(&attrs(&["validate(mandatory"])));
    assert!(!is_field_mandatory(&attrs(&["#[validate(mandatory)]"])));
    assert!(!is_field_mandatory(&attrs(&[""])));
    assert!(!is_field_mandatory(&attrs(&["config::validate(mandatory)"])));
}

#[test]
fn any_key_and_token_can_be_scanned_for() {
    let list = attrs(&["repr(C)", "serde(skip)"]);
    assert!(verify_attribute_token(&list, "repr", "C"));
    assert!(verify_attribute_token(&list, "serde", "skip"));
    assert!(!verify_attribute_token(&list, "serde", "C"));
    assert!(!verify_attribute_token(&list, "repr", "skip"));
}

#[test]
fn carries_token_reads_the_parsed_attribute_alone() {
    let parsed = |key: Option<&str>, items: Option<Vec<Option<&str>>>| {
        Some(ParsedAttribute {
            key: key.map(String::from),
            items: items.map(|list| list.into_iter().map(|item| item.map(String::from)).collect()),
        })
    };
    assert!(carries_token(&parsed(Some("validate"), Some(vec![Some("mandatory")])), "validate", "mandatory"));
    assert!(!carries_token(&None, "validate", "mandatory"));
    assert!(!carries_token(&parsed(None, Some(vec![Some("mandatory")])), "validate", "mandatory"));
    assert!(!carries_token(&parsed(Some("validate"), None), "validate", "mandatory"));
    assert!(!carries_token(&parsed(Some("validate"), Some(vec![])), "validate", "mandatory"));
    assert!(!carries_token(&parsed(Some("validate"), Some(vec![None])), "validate", "mandatory"));
    assert!(!carries_token(
        &parsed(Some("validate"), Some(vec![Some("mandatory"), Some("other")])),
        "validate",
        "mandatory"
    ));
    assert!(!carries_token(&parsed(Some("other"), Some(vec![Some("mandatory")])), "validate", "mandatory"));
}
