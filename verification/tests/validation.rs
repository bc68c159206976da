use dynamic_settings::enums::SettingsValueType;
use dynamic_settings::errors::CustomError;
use dynamic_settings::models::settings::{
    check_key_length, check_value_length, validate_settings, MAX_KEY_LENGTH, MAX_VALUE_LENGTH,
};
use dynamic_settings::models::{Settings, SettingsRequest, UpdateSettingsRequest};
use dynamic_settings::utils::boolean::parse_bool;
use dynamic_settings::utils::float::parses_as_float;
use dynamic_settings::utils::integer::parse_i64;
use dynamic_settings::utils::validate_settings_value;
use dynamic_settings::utils::validate_settings_value::{check_value, is_valid_value};

fn validation_message(result: Result<(), CustomError>) -> String {
    match result {
        Err(CustomError::ValidationError(message)) => message,
        Err(other) => panic!("not a failure of validation: {:?}", other),
        Ok(()) => panic!("accepted"),
    }
}

fn request(key: &str, value: &str, value_type: SettingsValueType) -> SettingsRequest {
    SettingsRequest { key: key.to_string(), value: value.to_string(), value_type }
}

/// Every text of at most `length` characters over `alphabet`.
fn texts_over(alphabet: &[char], length: usize) -> Vec<String> {
    let mut all = vec![String::new()];
    let mut last = vec![String::new()];
    for _ in 0..length {
        let mut next = Vec::new();
        for text in &last {
            for c in alphabet {
                let mut longer = text.clone();
                longer.push(*c);
                next.push(longer);
            }
        }
        all.extend(next.iter().cloned());
        last = next;
    }
    all
}

#[test]
fn integer_values_are_accepted() {
    for value in ["100", "0", "-1", "+7", "007", "-0", "9223372036854775807", "-9223372036854775808"] {
        assert!(validate_settings_value(value.to_string(), SettingsValueType::Int).is_ok(), "{}", value);
    }
}

#[test]
fn integer_literals_give_their_number() {
    assert_eq!(parse_i64("100"), Some(100));
    assert_eq!(parse_i64("-42"), Some(-42));
    assert_eq!(parse_i64("+42"), Some(42));
    assert_eq!(parse_i64("0000000000000000000000012"), Some(12));
    assert_eq!(parse_i64("9223372036854775807"), Some(i64::MAX));
    assert_eq!(parse_i64("-9223372036854775808"), Some(i64::MIN));
    assert_eq!(parse_i64("9223372036854775808"), None);
    assert_eq!(parse_i64("-9223372036854775809"), None);
    assert_eq!(parse_i64("99999999999999999999999"), None);
}

#[test]
fn texts_that_are_no_integer_are_rejected() {
    for value in ["", "+", "-", "abc", "1.5", " 1", "1 ", "1_000", "0x10", "--1", "+-1", "1e3", "١٢٣", "12a"] {
        assert_eq!(parse_i64(value), None, "{:?}", value);
        assert!(validate_settings_value(value.to_string(), SettingsValueType::Int).is_err());
    }
}

#[test]
fn integer_literals_are_those_of_the_standard_parser() {
    let alphabet = ['+', '-', '0', '1', '9', ' ', '.', 'a', '_', 'é'];
    for text in texts_over(&alphabet, 4) {
        assert_eq!(parse_i64(&text), text.parse::<i64>().ok(), "{:?}", text);
    }
    for digits in 17..22 {
        for lead in ["", "+", "-"] {
            for fill in ['0', '1', '8', '9'] {
                let text = format!("{}{}", lead, fill.to_string().repeat(digits));
                assert_eq!(parse_i64(&text), text.parse::<i64>().ok(), "{:?}", text);
            }
        }
    }
    for near in [-3i128, -2, -1, 0, 1, 2, 3] {
        for base in [i64::MAX as i128, i64::MIN as i128, 0] {
            let text = format!("{}", base + near);
            assert_eq!(parse_i64(&text), text.parse::<i64>().ok(), "{:?}", text);
        }
    }
}

#[test]
fn truth_values_are_the_two_lower_case_words() {
    assert_eq!(parse_bool("true"), Some(true));
    assert_eq!(parse_bool("false"), Some(false));
    for value in ["", "True", "FALSE", "1", "0", "yes", " true", "true ", "tru", "truee", "falsé"] {
        assert_eq!(parse_bool(value), None, "{:?}", value);
        assert_eq!(parse_bool(value), value.parse::<bool>().ok());
    }
    assert!(validate_settings_value("true".to_string(), SettingsValueType::Bool).is_ok());
    assert!(validate_settings_value("TRUE".to_string(), SettingsValueType::Bool).is_err());
}

#[test]
fn float_values_are_accepted() {
    for value in [
        "1.5", "100.5", "3.14", "-3.14", "2.5E10", "2.5e10", "2.5E-10", "5.", ".5", "0.5", "7", "007",
        "1e7", "inf", "-inf", "+infinity", "NaN", "nan", "INF", "Infinity", "-iNfInItY", "+.5e+3",
        "1.e5", "1e999", "0e0", "-0",
    ] {
        assert!(parses_as_float(value), "{:?}", value);
        assert!(value.parse::<f64>().is_ok(), "{:?}", value);
        assert!(validate_settings_value(value.to_string(), SettingsValueType::Float).is_ok());
    }
}

#[test]
fn texts_that_are_no_float_are_rejected() {
    for value in [
        "", "+", "-", ".", "+.", "e5", ".e5", "1e", "1e+", "1e-", "1e+-5", "1.5.3", "1..5", "abc",
        " 1.5", "1.5 ", "1_0.5", "0x1p3", "infinit", "infinityy", "in", "na", "nanx", "++1", "1f64",
        "1,5", "１", "1é",
    ] {
        assert!(!parses_as_float(value), "{:?}", value);
        assert!(value.parse::<f64>().is_err(), "{:?}", value);
        assert!(validate_settings_value(value.to_string(), SettingsValueType::Float).is_err());
    }
}

#[test]
fn float_literals_are_those_of_the_standard_parser() {
    let alphabet = ['+', '-', '.', 'e', 'E', '0', '7', 'i', 'n', 'f', 'a', 'N', ' '];
    for text in texts_over(&alphabet, 5) {
        assert_eq!(parses_as_float(&text), text.parse::<f64>().is_ok(), "{:?}", text);
    }
    for word in ["inf", "infinity", "nan", "infinit", "infinityy"] {
        for sign in ["", "+", "-", "+-"] {
            for mask in 0u32..(1 << word.len()) {
                let mixed: String = word
                    .chars()
                    .enumerate()
                    .map(|(i, c)| if mask & (1 << i) != 0 { c.to_ascii_uppercase() } else { c })
                    .collect();
                let text = format!("{}{}", sign, mixed);
                assert_eq!(parses_as_float(&text), text.parse::<f64>().is_ok(), "{:?}", text);
            }
        }
    }
}

#[test]
fn json_values_are_accepted() {
    for value in [
        "[1, 2, 3]", "[1,2,3]", "{\"key\": \"value\", \"key2\": [1, 2, 3]}", "null", "true", "12",
        "-1.5e3", "\"text\"", "{}", "[]", " { \"a\" : null } ",
    ] {
        assert!(is_valid_value(value, SettingsValueType::Json), "{:?}", value);
        assert!(validate_settings_value(value.to_string(), SettingsValueType::Json).is_ok());
    }
}

#[test]
fn texts_that_are_no_json_are_rejected() {
    for value in ["", "{", "[1, 2", "{key: 1}", "{'a': 1}", "[1,]", "tru", "1 2", "\"open", "abc"] {
        assert!(!is_valid_value(value, SettingsValueType::Json), "{:?}", value);
        assert_eq!(
            validation_message(validate_settings_value(value.to_string(), SettingsValueType::Json)),
            format!("Value '{}' is not a valid JSON", value)
        );
    }
}

#[test]
fn any_text_is_a_string_value() {
    for value in ["", "\"string\"", "abc", "100", "{", "ünïcödé", " "] {
        assert!(validate_settings_value(value.to_string(), SettingsValueType::Str).is_ok());
        assert!(check_value(value, SettingsValueType::Str).is_ok());
    }
}

#[test]
fn a_value_is_accepted_exactly_where_it_has_the_form_of_its_type() {
    let values = ["true", "1.5", "[1,2,3]", "100", "abc", "", "-7", "false", "nan", "{\"a\":1}", "\"s\""];
    for value in values {
        let expected = [
            (SettingsValueType::Str, true),
            (SettingsValueType::Int, value.parse::<i64>().is_ok()),
            (SettingsValueType::Float, value.parse::<f64>().is_ok()),
            (SettingsValueType::Bool, value.parse::<bool>().is_ok()),
            (SettingsValueType::Json, serde_json::from_str::<serde_json::Value>(value).is_ok()),
        ];
        for (value_type, valid) in expected {
            assert_eq!(is_valid_value(value, value_type), valid, "{:?} as {:?}", value, value_type);
            assert_eq!(check_value(value, value_type).is_ok(), valid);
            assert_eq!(validate_settings_value(value.to_string(), value_type).is_ok(), valid);
        }
    }
    assert!(is_valid_value("true", SettingsValueType::Bool));
    assert!(!is_valid_value("true", SettingsValueType::Int));
    assert!(is_valid_value("1.5", SettingsValueType::Float));
    assert!(!is_valid_value("1.5", SettingsValueType::Int));
    assert!(is_valid_value("[1,2,3]", SettingsValueType::Json));
    assert!(!is_valid_value("[1,2,3]", SettingsValueType::Float));
}

#[test]
fn rejected_values_are_named_with_the_expected_form() {
    assert_eq!(
        validation_message(validate_settings_value("invalid".to_string(), SettingsValueType::Int)),
        "Value 'invalid' is not a valid integer"
    );
    assert_eq!(
        validation_message(validate_settings_value("yes".to_string(), SettingsValueType::Bool)),
        "Value 'yes' is not a valid boolean"
    );
    assert_eq!(
        validation_message(validate_settings_value("1.5.3".to_string(), SettingsValueType::Float)),
        "Value '1.5.3' is not a valid float"
    );
    assert_eq!(
        validation_message(validate_settings_value("{".to_string(), SettingsValueType::Json)),
        "Value '{' is not a valid JSON"
    );
    assert_eq!(
        validation_message(validate_settings_value("Not int value".to_string(), SettingsValueType::Int)),
        "Value 'Not int value' is not a valid integer"
    );
}

#[test]
fn validation_fails_with_the_status_422() {
    let failure = validate_settings_value("x".to_string(), SettingsValueType::Int).unwrap_err();
    assert_eq!(failure.status_code(), 422);
}

#[test]
fn key_lengths_are_bounded() {
    assert_eq!(MAX_KEY_LENGTH, 1024);
    assert!(check_key_length("k").is_ok());
    assert!(check_key_length(&"a".repeat(1024)).is_ok());
    assert_eq!(
        validation_message(check_key_length(&"a".repeat(1025))),
        "Key length should be less than 1024 bytes"
    );
    assert_eq!(validation_message(check_key_length("")), "Key length should be at least 1 byte");
}

#[test]
fn key_lengths_are_counted_in_bytes() {
    let two_bytes_each = "é".repeat(512);
    assert_eq!(two_bytes_each.len(), 1024);
    assert!(check_key_length(&two_bytes_each).is_ok());
    let one_more = format!("{}a", two_bytes_each);
    assert!(check_key_length(&one_more).is_err());
    assert!(check_key_length(&"é".repeat(513)).is_err());
}

#[test]
fn value_lengths_are_bounded() {
    assert_eq!(MAX_VALUE_LENGTH, 4 * 1024 * 1024);
    assert!(check_value_length("v").is_ok());
    assert!(check_value_length(&"1".repeat(4194304)).is_ok());
    assert_eq!(
        validation_message(check_value_length(&"1".repeat(4194305))),
        "Value length should be less than 4194304 bytes"
    );
    assert_eq!(validation_message(check_value_length("")), "Value length should be at least 1 byte");
}

#[test]
fn the_first_broken_rule_rejects_a_setting() {
    let long_key = "a".repeat(10000);
    let long_value = "1".repeat(4194305);
    assert_eq!(
        validation_message(validate_settings(&long_key, &long_value, SettingsValueType::Int)),
        "Key length should be less than 1024 bytes"
    );
    assert_eq!(
        validation_message(validate_settings("k", &long_value, SettingsValueType::Int)),
        "Value length should be less than 4194304 bytes"
    );
    assert_eq!(
        validation_message(validate_settings("", "", SettingsValueType::Int)),
        "Key length should be at least 1 byte"
    );
    assert_eq!(
        validation_message(validate_settings("k", "", SettingsValueType::Str)),
        "Value length should be at least 1 byte"
    );
    assert_eq!(
        validation_message(validate_settings("k", "x", SettingsValueType::Int)),
        "Value 'x' is not a valid integer"
    );
    assert!(validate_settings("k", "1", SettingsValueType::Int).is_ok());
}

#[test]
fn a_long_integer_of_zeros_is_a_valid_value_up_to_the_bound() {
    let zeros = "0".repeat(4194304);
    assert!(validate_settings("k", &zeros, SettingsValueType::Int).is_ok());
    assert!(validate_settings("k", &zeros, SettingsValueType::Float).is_ok());
}

#[test]
fn requests_are_validated_like_settings() {
    assert!(request("k1", "100", SettingsValueType::Int).validate().is_ok());
    assert!(request("k1", "100.5", SettingsValueType::Float).validate().is_ok());
    assert!(request("k1", "true", SettingsValueType::Bool).validate().is_ok());
    assert!(request("k1", "\"string\"", SettingsValueType::Str).validate().is_ok());
    assert!(request("k1", "[1, 2, 3]", SettingsValueType::Json).validate().is_ok());
    assert_eq!(
        validation_message(request("k1", "invalid", SettingsValueType::Int).validate()),
        "Value 'invalid' is not a valid integer"
    );
    assert_eq!(
        validation_message(request(&"a".repeat(10000), "100", SettingsValueType::Int).validate()),
        "Key length should be less than 1024 bytes"
    );
    let settings = Settings {
        key: "k1".to_string(),
        value: "abc".to_string(),
        value_type: SettingsValueType::Float,
    };
    assert_eq!(validation_message(settings.validate()), "Value 'abc' is not a valid float");
    let settings = Settings {
        key: "k1".to_string(),
        value: "1e3".to_string(),
        value_type: SettingsValueType::Float,
    };
    assert!(settings.validate().is_ok());
    assert_eq!(settings.to_string(), "k1 - 1e3, float");
}

#[test]
fn update_requests_are_checked_for_their_lengths() {
    let update = |key: &str, value: &str| UpdateSettingsRequest {
        key: key.to_string(),
        value: value.to_string(),
    };
    assert!(update("k1", "anything").validate().is_ok());
    assert_eq!(
        validation_message(update("", "1").validate()),
        "Key length should be at least 1 byte"
    );
    assert_eq!(
        validation_message(update(&"k".repeat(1025), "1").validate()),
        "Key length should be less than 1024 bytes"
    );
    assert_eq!(
        validation_message(update("k1", "").validate()),
        "Value length should be at least 1 byte"
    );
}

#[test]
fn types_are_named_in_lower_case() {
    let named = [
        (SettingsValueType::Str, "str"),
        (SettingsValueType::Int, "int"),
        (SettingsValueType::Float, "float"),
        (SettingsValueType::Bool, "bool"),
        (SettingsValueType::Json, "json"),
    ];
    for (value_type, name) in named {
        assert_eq!(value_type.as_str(), name);
        assert_eq!(value_type.to_string(), name);
        assert_eq!(SettingsValueType::parse(name), Some(value_type));
        assert_eq!(SettingsValueType::from(name.to_string()), value_type);
    }
    for unknown in ["", "Int", "INT", "integer", "string", "int ", "jso"] {
        assert_eq!(SettingsValueType::parse(unknown), None);
        assert_eq!(SettingsValueType::from(unknown.to_string()), SettingsValueType::Str);
    }
}
