use config_validator::driver::impl_validator;
use config_validator::runtime::{Accessed, FieldValue, MissingMandatoryField, Validated};
use config_validator::syntax::{parse_definition, Data, DeriveInput, Field, Fields};
use config_validator::synthesizer::GeneratedUnit;

fn field(ident: &str, ty: &str, attrs: &[&str]) -> Field {
    Field {
        ident: ident.to_string(),
        ty: ty.to_string(),
        attrs: attrs.iter().map(|attr| attr.to_string()).collect(),
    }
}

fn unit_of(ident: &str, fields: Vec<Field>) -> GeneratedUnit {
    let definition =
        DeriveInput { ident: ident.to_string(), data: Data::Struct(Fields::Named(fields)) };
    match impl_validator(&definition) {
        Ok(unit) => unit,
        Err(error) => panic!("{}", error.message()),
    }
}

/// configuration structure
const SETTINGS: &str = r#"
    #[derive(Serialize, Deserialize, Default, Debug, Clone, clap_derive::Args, Validate)]
    pub struct Settings {
        // optional field
        #[arg(short, long)]
        pub name: Option<String>,
        // optional field
        #[arg(short, long)]
        pub address: Option<String>,
        // mandatory field
        #[arg(short, long)]
        #[validate(mandatory)]
        pub phone_number: Option<String>,
    }
"#;

fn settings_unit() -> GeneratedUnit {
    match impl_validator(&parse_definition(SETTINGS).unwrap()) {
        Ok(unit) => unit,
        Err(error) => panic!("{}", error.message()),
    }
}

/// A struct whose first, third and fourth fields are mandatory.
fn server_unit() -> GeneratedUnit {
    unit_of(
        "Server",
        vec![
            field("host", "Option<String>", &["validate(mandatory)"]),
            field("motd", "Option<String>", &[]),
            field("workers", "Option<u16>", &["validate(mandatory)"]),
            field("key", "Option<String>", &["validate(mandatory)"]),
            field("mode", "Mode", &["validate(mandatory)"]),
        ],
    )
}

fn optional(value: Option<&str>) -> FieldValue {
    FieldValue::Optional(value.map(String::from))
}

fn plain(value: &str) -> FieldValue {
    FieldValue::Plain(value.to_string())
}

fn settings(name: Option<&str>, address: Option<&str>, phone_number: Option<&str>) -> Vec<FieldValue> {
    vec![optional(name), optional(address), optional(phone_number)]
}

fn server(host: Option<&str>, motd: Option<&str>, workers: Option<&str>, key: Option<&str>) -> Vec<FieldValue> {
    vec![optional(host), optional(motd), optional(workers), optional(key), plain("fast")]
}

fn missing(field: &str, struct_name: &str) -> MissingMandatoryField {
    MissingMandatoryField { field: field.to_string(), struct_name: struct_name.to_string() }
}

#[test]
#[should_panic(expected = r#"[config-validator] mandatory field "phone_number" not provided for struct "Settings""#)]
fn uninitialized_field_test() {
    let unit = settings_unit();
    let s = unit.instance(settings(None, None, None)).unwrap();
    if let Err(failure) = s.try_validate_configuration() {
        panic!("{}", failure.message());
    }
}

#[test]
fn field_getter_test() {
    let unit = settings_unit();
    let s = unit.instance(settings(None, None, Some("555-1234"))).unwrap();
    let s: Validated = match s.try_validate_configuration() {
        Ok(validated) => validated,
        Err(failure) => panic!("{}", failure.message()),
    };
    let phone_number: String = match s.get("get_phone_number") {
        Some(Accessed::Unwrapped(value)) => value,
        _ => panic!("get_phone_number does not unwrap"),
    };
    assert_eq!(phone_number, "555-1234");
}

#[test]
fn absent_mandatory_field_is_named_with_its_struct() {
    let unit = settings_unit();
    let s = unit.instance(settings(Some("Joe"), Some("123 Main St"), None)).unwrap();
    assert_eq!(s.missing_mandatory_field(), Some(missing("phone_number", "Settings")));
    let failure = s.try_validate_configuration().unwrap_err();
    assert_eq!(failure, missing("phone_number", "Settings"));
    assert_eq!(
        failure.message(),
        r#"[config-validator] mandatory field "phone_number" not provided for struct "Settings""#
    );
    assert!(failure.message().contains("\"phone_number\""));
    assert!(failure.message().contains("\"Settings\""));
}

#[test]
fn struct_without_mandatory_fields_always_validates() {
    let unit = unit_of(
        "Profile",
        vec![
            field("name", "Option<String>", &[]),
            field("age", "u8", &[]),
            field("tags", "Vec<String>", &["validate(mandatory)"]),
        ],
    );
    for name in [None, Some("Joe")] {
        let values = vec![optional(name), plain("42"), plain("[]")];
        let s = unit.instance(values).unwrap();
        assert_eq!(s.missing_mandatory_field(), None);
        let validated = s.try_validate_configuration().unwrap();
        assert_eq!(validated.get_at(0), Some(Accessed::Declared(optional(name))));
        assert_eq!(validated.get_at(1), Some(Accessed::Declared(plain("42"))));
        assert_eq!(validated.get_at(2), Some(Accessed::Declared(plain("[]"))));
    }
}

#[test]
fn mandatory_getter_hands_out_the_value_itself() {
    let unit = server_unit();
    let s = unit.instance(server(Some("localhost"), None, Some("8080"), Some("k"))).unwrap();
    let validated = s.validate_configuration();
    assert_eq!(validated.get("get_host"), Some(Accessed::Unwrapped("localhost".to_string())));
    assert_eq!(validated.get("get_workers"), Some(Accessed::Unwrapped("8080".to_string())));
    assert_eq!(validated.get("get_key"), Some(Accessed::Unwrapped("k".to_string())));
    assert_eq!(validated.get_at(0), Some(Accessed::Unwrapped("localhost".to_string())));
}

#[test]
fn optional_getter_hands_out_the_stored_option() {
    let unit = server_unit();
    let absent = unit.instance(server(Some("h"), None, Some("1"), Some("k"))).unwrap();
    let present = unit.instance(server(Some("h"), Some("hello"), Some("1"), Some("k"))).unwrap();
    assert_eq!(
        absent.validate_configuration().get("get_motd"),
        Some(Accessed::Declared(optional(None)))
    );
    assert_eq!(
        present.validate_configuration().get("get_motd"),
        Some(Accessed::Declared(optional(Some("hello"))))
    );
}

#[test]
fn marker_on_another_type_is_ignored_at_validation() {
    let unit = server_unit();
    let s = unit.instance(server(Some("h"), None, Some("1"), Some("k"))).unwrap();
    let validated = s.try_validate_configuration().unwrap();
    assert_eq!(validated.get("get_mode"), Some(Accessed::Declared(plain("fast"))));
}

#[test]
fn first_absent_field_in_declaration_order_is_named() {
    let unit = server_unit();
    let cases = [
        (server(None, None, None, None), "host"),
        (server(None, Some("m"), Some("1"), None), "host"),
        (server(Some("h"), None, None, None), "workers"),
        (server(Some("h"), None, None, Some("k")), "workers"),
        (server(Some("h"), None, Some("1"), None), "key"),
    ];
    for (values, field) in cases {
        let s = unit.instance(values).unwrap();
        assert_eq!(s.missing_mandatory_field(), Some(missing(field, "Server")));
        assert_eq!(s.try_validate_configuration().unwrap_err(), missing(field, "Server"));
    }
}

#[test]
fn repeated_validation_reports_the_same_failure() {
    let unit = server_unit();
    let s = unit.instance(server(Some("h"), None, None, None)).unwrap();
    let first = s.missing_mandatory_field();
    for _ in 0..10 {
        assert_eq!(s.missing_mandatory_field(), first);
    }
    let again = unit.instance(server(Some("h"), None, None, None)).unwrap();
    assert_eq!(again.missing_mandatory_field(), first);
}

#[test]
fn validation_wraps_a_copy_of_the_instance() {
    let unit = settings_unit();
    let s = unit.instance(settings(Some("Joe"), None, Some("555-1234"))).unwrap();
    let validated = s.validate_configuration();
    assert_eq!(s.values(), &settings(Some("Joe"), None, Some("555-1234")));
    assert_eq!(validated.get_at(0), Some(Accessed::Declared(optional(Some("Joe")))));
    assert_eq!(validated.get_at(1), Some(Accessed::Declared(optional(None))));
    assert_eq!(validated.get_at(2), Some(Accessed::Unwrapped("555-1234".to_string())));
    assert_eq!(validated.unit().wrapper_name(), "ValidatedSettings");
    assert_eq!(s.unit().struct_name(), "Settings");
}

#[test]
fn getters_that_do_not_exist_hand_out_nothing() {
    let unit = settings_unit();
    let validated = unit.instance(settings(None, None, Some("1"))).unwrap().validate_configuration();
    assert_eq!(validated.get("get_email"), None);
    assert_eq!(validated.get("phone_number"), None);
    assert_eq!(validated.get(""), None);
    assert_eq!(validated.get_at(3), None);
    assert_eq!(validated.get_at(usize::MAX), None);
}

#[test]
fn values_must_fit_the_struct() {
    let unit = settings_unit();
    assert!(unit.instance(vec![]).is_none());
    assert!(unit.instance(vec![optional(None), optional(None)]).is_none());
    assert!(unit.instance(vec![optional(None); 4]).is_none());
    assert!(unit.instance(vec![optional(None), optional(None), plain("555-1234")]).is_none());
    assert!(unit.instance(vec![plain("Joe"), optional(None), optional(None)]).is_some());
    assert!(unit_of("Nothing", vec![]).instance(vec![]).is_some());
}

#[test]
fn empty_struct_validates() {
    let unit = unit_of("Nothing", vec![]);
    let s = unit.instance(vec![]).unwrap();
    assert_eq!(s.missing_mandatory_field(), None);
    assert_eq!(s.try_validate_configuration().unwrap().get_at(0), None);
}
