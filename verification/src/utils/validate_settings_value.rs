//! The rule that a value must be written in the form of its declared type.

use vstd::prelude::*;
use vstd::string::StringExecFns;
use crate::enums::SettingsValueType;
use crate::errors::{CustomError, CustomErrorView};
use crate::utils::boolean::{is_bool_literal, parse_bool};
use crate::utils::float::{is_float_literal, parses_as_float};
use crate::utils::integer::{is_int_literal, parse_i64};
use crate::utils::json::{is_json_document, parses_as_json};

verus! {

/// `value` is written in the form that `value_type` asks for: any text for a
/// string, the literal of a 64-bit signed integer, of a floating-point
/// number or of a truth value, or a JSON document.
pub open spec fn value_is_valid(value: Seq<char>, value_type: SettingsValueType) -> bool {
    match value_type {
        SettingsValueType::Str => true,
        SettingsValueType::Int => is_int_literal(value),
        SettingsValueType::Float => is_float_literal(value),
        SettingsValueType::Bool => is_bool_literal(value),
        SettingsValueType::Json => is_json_document(value),
    }
}

/// What a value of the type is called in the message that rejects one.
pub open spec fn expected_form(value_type: SettingsValueType) -> Seq<char> {
    match value_type {
        SettingsValueType::Str => "string"@,
        SettingsValueType::Int => "integer"@,
        SettingsValueType::Float => "float"@,
        SettingsValueType::Bool => "boolean"@,
        SettingsValueType::Json => "JSON"@,
    }
}

/// The message that rejects `value` as a value of `value_type`.
pub open spec fn invalid_value_message(value: Seq<char>, value_type: SettingsValueType) -> Seq<
    char,
> {
    "Value '"@ + value + "' is not a valid "@ + expected_form(value_type)
}

/// The failure that rejects `value` as a value of `value_type`.
pub open spec fn invalid_value_error(
    value: Seq<char>,
    value_type: SettingsValueType,
) -> CustomErrorView {
    CustomErrorView::ValidationError(invalid_value_message(value, value_type))
}

/// What a value of the type is called in the message that rejects one.
fn expected_form_of(value_type: SettingsValueType) -> (form: &'static str)
    ensures
        form@ == expected_form(value_type),
{
    match value_type {
        SettingsValueType::Str => "string",
        SettingsValueType::Int => "integer",
        SettingsValueType::Float => "float",
        SettingsValueType::Bool => "boolean",
        SettingsValueType::Json => "JSON",
    }
}

/// Whether `value` is written in the form that `value_type` asks for.
pub fn is_valid_value(value: &str, value_type: SettingsValueType) -> (valid: bool)
    ensures
        valid == value_is_valid(value@, value_type),
{
    match value_type {
        SettingsValueType::Str => true,
        SettingsValueType::Int => parse_i64(value).is_some(),
        SettingsValueType::Float => parses_as_float(value),
        SettingsValueType::Bool => parse_bool(value).is_some(),
        SettingsValueType::Json => parses_as_json(value),
    }
}

/// Accepts `value` where it is written in the form of `value_type`, and
/// rejects it with a message that names the value and the form where it is
/// not.
pub fn check_value(value: &str, value_type: SettingsValueType) -> (checked: Result<
    (),
    CustomError,
>)
    ensures
        checked is Ok <==> value_is_valid(value@, value_type),
        checked matches Err(e) ==> e@ == invalid_value_error(value@, value_type),
{
    if is_valid_value(value, value_type) {
        Ok(())
    } else {
        let message = String::from_str("Value '").concat(value).concat("' is not a valid ").concat(
            expected_form_of(value_type),
        );
        Err(CustomError::ValidationError(message))
    }
}

/// Validates a raw value against the type it is declared to have.
pub fn validate_settings_value(value: String, value_type: SettingsValueType) -> (checked: Result<
    (),
    CustomError,
>)
    ensures
        checked is Ok <==> value_is_valid(value@, value_type),
        checked matches Err(e) ==> e@ == invalid_value_error(value@, value_type),
{
    check_value(value.as_str(), value_type)
}

} // verus!
