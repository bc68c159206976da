//! A setting as a caller states it, and the rules it has to meet before it
//! is written.

use vstd::prelude::*;
use vstd::string::StringExecFns;
use crate::enums::SettingsValueType;
use crate::errors::{CustomError, CustomErrorView};
use crate::utils::text::byte_length;
use crate::utils::validate_settings_value::{check_value, invalid_value_error, value_is_valid};

verus! {

/// The greatest number of bytes that a key may take.
pub const MAX_KEY_LENGTH: usize = 1024;

/// The greatest number of bytes that a value may take: four mebibytes.
pub const MAX_VALUE_LENGTH: usize = 4194304;

/// A key takes between one byte and [`MAX_KEY_LENGTH`] bytes.
pub open spec fn key_length_is_valid(key: Seq<char>) -> bool {
    1 <= byte_length(key) <= MAX_KEY_LENGTH
}

/// A value takes between one byte and [`MAX_VALUE_LENGTH`] bytes.
pub open spec fn value_length_is_valid(value: Seq<char>) -> bool {
    1 <= byte_length(value) <= MAX_VALUE_LENGTH
}

/// The failure that rejects a key for its length, if its length is out of
/// bounds.
pub open spec fn key_rejection(key: Seq<char>) -> Option<CustomErrorView> {
    if byte_length(key) == 0 {
        Some(CustomErrorView::ValidationError("Key length should be at least 1 byte"@))
    } else if byte_length(key) > MAX_KEY_LENGTH {
        Some(CustomErrorView::ValidationError("Key length should be less than 1024 bytes"@))
    } else {
        None
    }
}

/// The failure that rejects a value for its length, if its length is out of
/// bounds.
pub open spec fn value_rejection(value: Seq<char>) -> Option<CustomErrorView> {
    if byte_length(value) == 0 {
        Some(CustomErrorView::ValidationError("Value length should be at least 1 byte"@))
    } else if byte_length(value) > MAX_VALUE_LENGTH {
        Some(CustomErrorView::ValidationError("Value length should be less than 4194304 bytes"@))
    } else {
        None
    }
}

/// The failure that rejects a key and a value for their lengths: that of
/// the key, else that of the value, else none.
pub open spec fn length_rejection(key: Seq<char>, value: Seq<char>) -> Option<CustomErrorView> {
    if key_rejection(key) is Some {
        key_rejection(key)
    } else {
        value_rejection(value)
    }
}

/// A setting may be written: the lengths of its key and of its value are
/// in bounds, and the value is written in the form of the type.
pub open spec fn settings_are_valid(
    key: Seq<char>,
    value: Seq<char>,
    value_type: SettingsValueType,
) -> bool {
    &&& key_length_is_valid(key)
    &&& value_length_is_valid(value)
    &&& value_is_valid(value, value_type)
}

/// The failure that rejects a setting: the first rule it breaks among the
/// length of the key, the length of the value and the form of the value.
pub open spec fn settings_rejection(
    key: Seq<char>,
    value: Seq<char>,
    value_type: SettingsValueType,
) -> Option<CustomErrorView> {
    if length_rejection(key, value) is Some {
        length_rejection(key, value)
    } else if !value_is_valid(value, value_type) {
        Some(invalid_value_error(value, value_type))
    } else {
        None
    }
}

/// A setting is rejected exactly when it may not be written, and always as
/// a failure of validation.
pub proof fn lemma_rejected_iff_invalid(
    key: Seq<char>,
    value: Seq<char>,
    value_type: SettingsValueType,
)
    ensures
        settings_rejection(key, value, value_type) is None <==> settings_are_valid(
            key,
            value,
            value_type,
        ),
        settings_rejection(key, value, value_type) matches Some(e) ==> e.status_code() == 422,
        length_rejection(key, value) is None <==> key_length_is_valid(key)
            && value_length_is_valid(value),
{
}

/// Checks the length of a key.
pub fn check_key_length(key: &str) -> (checked: Result<(), CustomError>)
    ensures
        match checked {
            Ok(_) => key_rejection(key@) is None,
            Err(e) => key_rejection(key@) == Some(e@),
        },
{
    let length: usize = key.as_bytes().len();
    if length == 0 {
        Err(CustomError::ValidationError(String::from_str("Key length should be at least 1 byte")))
    } else if length > MAX_KEY_LENGTH {
        Err(
            CustomError::ValidationError(
                String::from_str("Key length should be less than 1024 bytes"),
            ),
        )
    } else {
        Ok(())
    }
}

/// Checks the length of a value.
pub fn check_value_length(value: &str) -> (checked: Result<(), CustomError>)
    ensures
        match checked {
            Ok(_) => value_rejection(value@) is None,
            Err(e) => value_rejection(value@) == Some(e@),
        },
{
    let length: usize = value.as_bytes().len();
    if length == 0 {
        Err(
            CustomError::ValidationError(String::from_str("Value length should be at least 1 byte")),
        )
    } else if length > MAX_VALUE_LENGTH {
        Err(
            CustomError::ValidationError(
                String::from_str("Value length should be less than 4194304 bytes"),
            ),
        )
    } else {
        Ok(())
    }
}

/// Checks the lengths of a key and of a value, the key first.
pub fn check_lengths(key: &str, value: &str) -> (checked: Result<(), CustomError>)
    ensures
        match checked {
            Ok(_) => length_rejection(key@, value@) is None,
            Err(e) => length_rejection(key@, value@) == Some(e@),
        },
{
    match check_key_length(key) {
        Ok(_) => check_value_length(value),
        Err(e) => Err(e),
    }
}

/// Checks every rule that a setting has to meet before it is written: the
/// length of the key, the length of the value, the form of the value.
pub fn validate_settings(key: &str, value: &str, value_type: SettingsValueType) -> (checked:
    Result<(), CustomError>)
    ensures
        match checked {
            Ok(_) => settings_rejection(key@, value@, value_type) is None,
            Err(e) => settings_rejection(key@, value@, value_type) == Some(e@),
        },
        checked is Ok <==> settings_are_valid(key@, value@, value_type),
{
    match check_lengths(key, value) {
        Ok(_) => check_value(value, value_type),
        Err(e) => Err(e),
    }
}

/// A setting as a caller states it: a key, a raw value and the type that
/// the value is declared to have.
#[derive(Clone, Debug)]
pub struct Settings {
    pub key: String,
    pub value: String,
    pub value_type: SettingsValueType,
}

/// A [`Settings`] with its texts as sequences of characters.
pub ghost struct SettingsView {
    pub key: Seq<char>,
    pub value: Seq<char>,
    pub value_type: SettingsValueType,
}

impl View for Settings {
    type V = SettingsView;

    open spec fn view(&self) -> SettingsView {
        SettingsView { key: self.key@, value: self.value@, value_type: self.value_type }
    }
}

impl SettingsView {
    /// The setting may be written.
    pub open spec fn is_valid(self) -> bool {
        settings_are_valid(self.key, self.value, self.value_type)
    }

    /// The failure that rejects the setting, if it may not be written.
    pub open spec fn rejection(self) -> Option<CustomErrorView> {
        settings_rejection(self.key, self.value, self.value_type)
    }

    /// The setting on one line: key, value and the name of the type.
    pub open spec fn line(self) -> Seq<char> {
        self.key + " - "@ + self.value + ", "@ + self.value_type.name()
    }
}

impl Settings {
    /// Accepts the setting where it may be written, and rejects it with the
    /// first rule that it breaks where it may not.
    pub fn validate(&self) -> (checked: Result<(), CustomError>)
        ensures
            checked is Ok <==> self@.is_valid(),
            match checked {
                Ok(_) => self@.rejection() is None,
                Err(e) => self@.rejection() == Some(e@),
            },
    {
        validate_settings(self.key.as_str(), self.value.as_str(), self.value_type)
    }

    /// The setting on one line: key, value and the name of the type.
    pub fn to_string(&self) -> (line: String)
        ensures
            line@ == self@.line(),
    {
        let line = self.key.clone().concat(" - ").concat(self.value.as_str()).concat(", ").concat(
            self.value_type.as_str(),
        );
        line
    }
}

} // verus!
