//! Validation of a raw value against a declared type and the literal
//! grammars it rests on; and the few calls that the library makes to read
//! the clock, JSON, MessagePack and UTF-8.

pub mod ascii;
pub mod boolean;
pub mod clock;
pub mod float;
pub mod integer;
pub mod json;
pub mod msgpack;
pub mod text;
pub mod validate_settings_value;

pub use validate_settings_value::validate_settings_value;
