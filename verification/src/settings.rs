//! An application's settings with their validation written out: the mandatory
//! fields are `config_file`, `log_config_file` and `phone_number`.

use crate::descriptor::{
    FieldDescriptor, FieldDescriptorView, StructDescriptor, StructDescriptorView,
};
use crate::runtime::{FieldValue, FieldValueView, MissingMandatoryField, MissingMandatoryFieldView};
use vstd::prelude::*;

verus! {

/// The settings of the application, as they were gathered: any of them may
/// still be absent.
#[derive(Debug, PartialEq, Eq)]
pub struct Settings {
    /// Mandatory.
    pub config_file: Option<String>,
    /// Mandatory.
    pub log_config_file: Option<String>,
    pub name: Option<String>,
    pub address: Option<String>,
    /// Mandatory.
    pub phone_number: Option<String>,
}

/// Mathematical value of [`Settings`].
pub struct SettingsView {
    pub config_file: Option<Seq<char>>,
    pub log_config_file: Option<Seq<char>>,
    pub name: Option<Seq<char>>,
    pub address: Option<Seq<char>>,
    pub phone_number: Option<Seq<char>>,
}

impl SettingsView {
    /// Whether every mandatory field holds a value.
    pub open spec fn is_complete(self) -> bool {
        self.config_file is Some && self.log_config_file is Some && self.phone_number is Some
    }

    /// The first mandatory field, in declaration order, that holds no value.
    pub open spec fn first_missing(self) -> Option<Seq<char>> {
        if self.config_file is None {
            Some("config_file"@)
        } else if self.log_config_file is None {
            Some("log_config_file"@)
        } else if self.phone_number is None {
            Some("phone_number"@)
        } else {
            None
        }
    }

    /// The failure that validation reports. `None` when validation succeeds.
    pub open spec fn failure(self) -> Option<MissingMandatoryFieldView> {
        match self.first_missing() {
            Some(field) => Some(MissingMandatoryFieldView { field, struct_name: "Settings"@ }),
            None => None,
        }
    }
}

impl DeepView for Settings {
    type V = SettingsView;

    open spec fn deep_view(&self) -> SettingsView {
        SettingsView {
            config_file: self.config_file.deep_view(),
            log_config_file: self.log_config_file.deep_view(),
            name: self.name.deep_view(),
            address: self.address.deep_view(),
            phone_number: self.phone_number.deep_view(),
        }
    }
}

impl View for Settings {
    type V = SettingsView;

    open spec fn view(&self) -> SettingsView {
        self.deep_view()
    }
}

/// The descriptor of a field of [`Settings`]: an optional string named
/// `name`, mandatory or not.
pub open spec fn settings_field(name: Seq<char>, is_mandatory: bool) -> FieldDescriptorView {
    FieldDescriptorView {
        name,
        declared_type: "Option<String>"@,
        is_optional_wrapper: true,
        inner_type: Some("String"@),
        is_mandatory,
    }
}

/// The descriptor of [`Settings`].
pub open spec fn settings_descriptor() -> StructDescriptorView {
    StructDescriptorView {
        name: "Settings"@,
        fields: seq![
            settings_field("config_file"@, true),
            settings_field("log_config_file"@, true),
            settings_field("name"@, false),
            settings_field("address"@, false),
            settings_field("phone_number"@, true),
        ],
    }
}

/// The field values of `settings`, in declaration order.
pub open spec fn settings_values(settings: SettingsView) -> Seq<FieldValueView> {
    seq![
        FieldValueView::Optional(settings.config_file),
        FieldValueView::Optional(settings.log_config_file),
        FieldValueView::Optional(settings.name),
        FieldValueView::Optional(settings.address),
        FieldValueView::Optional(settings.phone_number),
    ]
}

fn clone_optional(value: &Option<String>) -> (copy: Option<String>)
    ensures
        copy == *value,
{
    match value {
        Some(text) => Some(text.clone()),
        None => None,
    }
}

impl Clone for Settings {
    fn clone(&self) -> (copy: Settings)
        ensures
            copy == *self,
    {
        Settings {
            config_file: clone_optional(&self.config_file),
            log_config_file: clone_optional(&self.log_config_file),
            name: clone_optional(&self.name),
            address: clone_optional(&self.address),
            phone_number: clone_optional(&self.phone_number),
        }
    }
}

impl Default for Settings {
    fn default() -> (settings: Settings)
        ensures
            settings@ == (SettingsView {
                config_file: None,
                log_config_file: None,
                name: None,
                address: None,
                phone_number: None,
            }),
    {
        Settings {
            config_file: None,
            log_config_file: None,
            name: None,
            address: None,
            phone_number: None,
        }
    }
}

fn missing(field: &str) -> (failure: MissingMandatoryField)
    ensures
        failure@ == (MissingMandatoryFieldView { field: field@, struct_name: "Settings"@ }),
{
    MissingMandatoryField {
        field: String::from_str(field),
        struct_name: String::from_str("Settings"),
    }
}

fn describe_setting(name: &str, is_mandatory: bool) -> (field: FieldDescriptor)
    ensures
        field@ == settings_field(name@, is_mandatory),
{
    FieldDescriptor {
        name: String::from_str(name),
        declared_type: String::from_str("Option<String>"),
        is_optional_wrapper: true,
        inner_type: Some(String::from_str("String")),
        is_mandatory,
    }
}

impl Settings {
    /// The descriptor of the struct: its fields in declaration order, each
    /// an optional string, with the mandatory ones marked.
    pub fn descriptor() -> (descriptor: StructDescriptor)
        ensures
            descriptor@ == settings_descriptor(),
            descriptor@.wf(),
    {
        let mut fields: Vec<FieldDescriptor> = Vec::new();
        fields.push(describe_setting("config_file", true));
        fields.push(describe_setting("log_config_file", true));
        fields.push(describe_setting("name", false));
        fields.push(describe_setting("address", false));
        fields.push(describe_setting("phone_number", true));
        assert(fields.deep_view() =~= settings_descriptor().fields);
        StructDescriptor { name: String::from_str("Settings"), fields }
    }

    /// The values of the fields, in declaration order.
    pub fn field_values(&self) -> (values: Vec<FieldValue>)
        ensures
            values.deep_view() == settings_values(self@),
    {
        let mut values: Vec<FieldValue> = Vec::new();
        values.push(FieldValue::Optional(clone_optional(&self.config_file)));
        values.push(FieldValue::Optional(clone_optional(&self.log_config_file)));
        values.push(FieldValue::Optional(clone_optional(&self.name)));
        values.push(FieldValue::Optional(clone_optional(&self.address)));
        values.push(FieldValue::Optional(clone_optional(&self.phone_number)));
        values
    }

    /// Runs the presence checks in declaration order and hands out the
    /// failure of the first that does not hold. `None` when every mandatory
    /// field holds a value.
    pub fn missing_mandatory_field(&self) -> (failure: Option<MissingMandatoryField>)
        ensures
            failure.deep_view() == self@.failure(),
            failure is None <==> self@.is_complete(),
    {
        if self.config_file.is_none() {
            Some(missing("config_file"))
        } else if self.log_config_file.is_none() {
            Some(missing("log_config_file"))
        } else if self.phone_number.is_none() {
            Some(missing("phone_number"))
        } else {
            None
        }
    }

    /// Wraps a copy of settings whose every mandatory field holds a value.
    pub fn validate_configuration(&self) -> (validated: ValidatedSettings)
        requires
            self@.is_complete(),
        ensures
            validated@ == self@,
    {
        ValidatedSettings(self.clone())
    }

    /// Validates the settings: the wrapper around a copy of them when every
    /// mandatory field holds a value, else the failure that names the first
    /// mandatory field, in declaration order, that holds none.
    pub fn try_validate_configuration(&self) -> (result: Result<
        ValidatedSettings,
        MissingMandatoryField,
    >)
        ensures
            match result {
                Ok(validated) => self@.failure() is None && validated@ == self@,
                Err(failure) => self@.failure() == Some(failure@),
            },
    {
        match self.missing_mandatory_field() {
            Some(failure) => Err(failure),
            None => Ok(self.validate_configuration()),
        }
    }
}

/// Settings that passed validation: every mandatory field holds a value.
#[derive(Debug)]
pub struct ValidatedSettings(Settings);

impl View for ValidatedSettings {
    type V = SettingsView;

    closed spec fn view(&self) -> SettingsView {
        self.0@
    }
}

impl ValidatedSettings {
    #[verifier::type_invariant]
    spec fn validated(&self) -> bool {
        self.0@.is_complete()
    }

    pub fn get_config_file(&self) -> (value: String)
        ensures
            self@.config_file == Some(value@),
    {
        proof {
            use_type_invariant(self);
        }
        self.0.config_file.as_ref().unwrap().clone()
    }

    pub fn get_log_config_file(&self) -> (value: String)
        ensures
            self@.log_config_file == Some(value@),
    {
        proof {
            use_type_invariant(self);
        }
        self.0.log_config_file.as_ref().unwrap().clone()
    }

    pub fn get_name(&self) -> (value: Option<String>)
        ensures
            value.deep_view() == self@.name,
    {
        clone_optional(&self.0.name)
    }

    pub fn get_address(&self) -> (value: Option<String>)
        ensures
            value.deep_view() == self@.address,
    {
        clone_optional(&self.0.address)
    }

    pub fn get_phone_number(&self) -> (value: String)
        ensures
            self@.phone_number == Some(value@),
    {
        proof {
            use_type_invariant(self);
        }
        self.0.phone_number.as_ref().unwrap().clone()
    }
}

/// The commands of the application's command line.
#[derive(Clone, Copy, Debug, PartialEq, Eq, Structural)]
pub enum CliCommands {
    /// `start`: starts the application.
    Start,
    /// `say-hello`: says hello back to the user.
    SayHello,
}

/// No command has the given name.
#[derive(Clone, Copy, Debug, PartialEq, Eq, Structural)]
pub struct VariantNotFound;

/// The command named `command`.
pub open spec fn command_named(command: Seq<char>) -> Option<CliCommands> {
    if command == "start"@ {
        Some(CliCommands::Start)
    } else if command == "say-hello"@ {
        Some(CliCommands::SayHello)
    } else {
        None
    }
}

impl CliCommands {
    /// The command named `command`: `start` or `say-hello`.
    pub fn from_str(command: &str) -> (result: Result<CliCommands, VariantNotFound>)
        ensures
            match result {
                Ok(found) => command_named(command@) == Some(found),
                Err(_) => command_named(command@) is None,
            },
    {
        let given = String::from_str(command);
        if given == String::from_str("start") {
            Ok(CliCommands::Start)
        } else if given == String::from_str("say-hello") {
            Ok(CliCommands::SayHello)
        } else {
            Err(VariantNotFound)
        }
    }
}

/// The text that `std` prints for a string under `{:?}`.
pub uninterp spec fn debug_text(value: Seq<char>) -> Seq<char>;

/// The text that `std` prints for an optional string under `{:?}`.
pub uninterp spec fn debug_optional_text(value: Option<Seq<char>>) -> Seq<char>;

/// Formats `value` with `std`'s `Debug` for `String`. Trusted: the result is
/// only named, as [`debug_text`] of the string.
#[verifier::external_body]
fn debug_string(value: &String) -> (text: String)
    ensures
        text@ == debug_text(value@),
{
    format!("{:?}", value)
}

/// Formats `value` with `std`'s `Debug` for `Option<String>`. Trusted: the
/// result is only named, as [`debug_optional_text`] of the value.
#[verifier::external_body]
fn debug_optional_string(value: &Option<String>) -> (text: String)
    ensures
        text@ == debug_optional_text(value.deep_view()),
{
    format!("{:?}", value)
}

/// The lines that [`my_function`] reports for validated settings.
pub open spec fn report_lines(settings: SettingsView) -> Seq<Seq<char>> {
    seq![
        "config_file: "@ + debug_text(settings.config_file->0),
        "log_config_file: "@ + debug_text(settings.log_config_file->0),
        "address: "@ + debug_optional_text(settings.address),
        "name: "@ + debug_optional_text(settings.name),
        "phone_number: "@ + debug_text(settings.phone_number->0),
    ]
}

/// One line of the report: the label and, behind it, the value as it was
/// formatted.
pub fn report_line(label: &str, value: String) -> (line: String)
    ensures
        line@ == label@ + value@,
{
    let mut line = String::from_str(label);
    line.append(value.as_str());
    line
}

/// Reports the validated settings, one line per setting, for the caller to
/// log.
pub fn my_function(settings: ValidatedSettings) -> (lines: Vec<String>)
    ensures
        lines.deep_view() == report_lines(settings@),
{
    let mut lines: Vec<String> = Vec::new();
    lines.push(report_line("config_file: ", debug_string(&settings.get_config_file())));
    lines.push(report_line("log_config_file: ", debug_string(&settings.get_log_config_file())));
    lines.push(report_line("address: ", debug_optional_string(&settings.get_address())));
    lines.push(report_line("name: ", debug_optional_string(&settings.get_name())));
    lines.push(report_line("phone_number: ", debug_string(&settings.get_phone_number())));
    lines
}

} // verus!
