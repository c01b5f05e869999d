use config_validator::driver::describe;
use config_validator::runtime::{Accessed, FieldValue, MissingMandatoryField};
use config_validator::settings::{my_function, report_line, CliCommands, Settings, VariantNotFound};
use config_validator::syntax::{Data, DeriveInput, Field, Fields};
use config_validator::synthesizer::synthesize;

fn some(value: &str) -> Option<String> {
    Some(value.to_string())
}

fn complete() -> Settings {
    Settings {
        config_file: some("files/app_config.yaml"),
        log_config_file: some("files/log_config.yaml"),
        name: some("Joe"),
        address: None,
        phone_number: some("555-1234"),
    }
}

fn missing(field: &str) -> MissingMandatoryField {
    MissingMandatoryField { field: field.to_string(), struct_name: "Settings".to_string() }
}

#[test]
fn default_settings_hold_nothing() {
    let settings = Settings::default();
    assert_eq!(
        settings,
        Settings { config_file: None, log_config_file: None, name: None, address: None, phone_number: None }
    );
}

#[test]
fn settings_are_checked_in_declaration_order() {
    let mut settings = Settings::default();
    assert_eq!(settings.missing_mandatory_field(), Some(missing("config_file")));
    settings.phone_number = some("555-1234");
    assert_eq!(settings.missing_mandatory_field(), Some(missing("config_file")));
    settings.config_file = some("app.yaml");
    assert_eq!(settings.missing_mandatory_field(), Some(missing("log_config_file")));
    settings.phone_number = None;
    assert_eq!(settings.missing_mandatory_field(), Some(missing("log_config_file")));
    settings.log_config_file = some("log.yaml");
    assert_eq!(settings.missing_mandatory_field(), Some(missing("phone_number")));
    settings.phone_number = some("555-1234");
    assert_eq!(settings.missing_mandatory_field(), None);
}

#[test]
fn incomplete_settings_are_not_wrapped() {
    let settings = Settings { phone_number: None, ..complete() };
    let failure = settings.try_validate_configuration().unwrap_err();
    assert_eq!(
        failure.message(),
        r#"[config-validator] mandatory field "phone_number" not provided for struct "Settings""#
    );
}

#[test]
fn validated_settings_hand_out_every_field() {
    let validated = complete().try_validate_configuration().unwrap();
    let config_file: String = validated.get_config_file();
    let log_config_file: String = validated.get_log_config_file();
    let name: Option<String> = validated.get_name();
    let address: Option<String> = validated.get_address();
    let phone_number: String = validated.get_phone_number();
    assert_eq!(config_file, "files/app_config.yaml");
    assert_eq!(log_config_file, "files/log_config.yaml");
    assert_eq!(name, some("Joe"));
    assert_eq!(address, None);
    assert_eq!(phone_number, "555-1234");
}

#[test]
fn validation_leaves_the_settings_as_they_are() {
    let settings = complete();
    let validated = settings.validate_configuration();
    assert_eq!(settings, complete());
    assert_eq!(settings.clone(), complete());
    assert_eq!(validated.get_phone_number(), "555-1234");
}

#[test]
fn report_has_one_line_per_setting() {
    let validated = complete().validate_configuration();
    assert_eq!(
        my_function(validated),
        vec![
            r#"config_file: "files/app_config.yaml""#,
            r#"log_config_file: "files/log_config.yaml""#,
            "address: None",
            r#"name: Some("Joe")"#,
            r#"phone_number: "555-1234""#,
        ]
    );
}

#[test]
fn report_escapes_what_it_quotes() {
    let settings = Settings {
        name: None,
        address: some("12 \"Main\" St\n"),
        phone_number: some("tab\there"),
        ..complete()
    };
    let lines = my_function(settings.validate_configuration());
    assert_eq!(lines[2], r#"address: Some("12 \"Main\" St\n")"#);
    assert_eq!(lines[3], "name: None");
    assert_eq!(lines[4], r#"phone_number: "tab\there""#);
}

#[test]
fn commands_are_found_by_name() {
    assert_eq!(CliCommands::from_str("start"), Ok(CliCommands::Start));
    assert_eq!(CliCommands::from_str("say-hello"), Ok(CliCommands::SayHello));
}

#[test]
fn other_names_are_no_commands() {
    assert_eq!(CliCommands::from_str("Start"), Err(VariantNotFound));
    assert_eq!(CliCommands::from_str("say_hello"), Err(VariantNotFound));
    assert_eq!(CliCommands::from_str("SayHello"), Err(VariantNotFound));
    assert_eq!(CliCommands::from_str("stop"), Err(VariantNotFound));
    assert_eq!(CliCommands::from_str(""), Err(VariantNotFound));
    assert_eq!(CliCommands::from_str(" start"), Err(VariantNotFound));
}

fn optional_string(ident: &str, attrs: &[&str]) -> Field {
    Field {
        ident: ident.to_string(),
        ty: "Option<String>".to_string(),
        attrs: attrs.iter().map(|attr| attr.to_string()).collect(),
    }
}

#[test]
fn descriptor_is_the_one_of_the_definition() {
    let definition = DeriveInput {
        ident: "Settings".to_string(),
        data: Data::Struct(Fields::Named(vec![
            optional_string("config_file", &["arg(short, long)", "validate(mandatory)"]),
            optional_string("log_config_file", &["arg(short, long)", "validate(mandatory)"]),
            optional_string("name", &["arg(short, long)"]),
            optional_string("address", &["arg(short, long)"]),
            optional_string("phone_number", &["arg(short, long)", "validate(mandatory)"]),
        ])),
    };
    assert_eq!(describe(&definition), Ok(Settings::descriptor()));
}

#[test]
fn settings_validate_as_their_descriptor_prescribes() {
    let unit = synthesize(&Settings::descriptor());
    let cases = [
        Settings::default(),
        complete(),
        Settings { config_file: None, ..complete() },
        Settings { log_config_file: None, phone_number: None, ..complete() },
        Settings { phone_number: None, ..complete() },
        Settings { name: None, address: some("123 Main St"), ..complete() },
    ];
    for settings in cases {
        let instance = unit.instance(settings.field_values()).unwrap();
        assert_eq!(instance.missing_mandatory_field(), settings.missing_mandatory_field());
        if let (Ok(generic), Ok(written)) =
            (instance.try_validate_configuration(), settings.try_validate_configuration())
        {
            assert_eq!(generic.get("get_config_file"), Some(Accessed::Unwrapped(written.get_config_file())));
            assert_eq!(
                generic.get("get_log_config_file"),
                Some(Accessed::Unwrapped(written.get_log_config_file()))
            );
            assert_eq!(
                generic.get("get_name"),
                Some(Accessed::Declared(FieldValue::Optional(written.get_name())))
            );
            assert_eq!(
                generic.get("get_address"),
                Some(Accessed::Declared(FieldValue::Optional(written.get_address())))
            );
            assert_eq!(
                generic.get("get_phone_number"),
                Some(Accessed::Unwrapped(written.get_phone_number()))
            );
        }
    }
}

#[test]
fn report_line_puts_the_value_behind_the_label() {
    assert_eq!(report_line("name: ", "None".to_string()), "name: None");
    assert_eq!(report_line("", String::new()), "");
}
