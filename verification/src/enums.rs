//! The closed set of value types.

pub mod settings_value_type;

pub use settings_value_type::SettingsValueType;
