//! The values that requests carry, that responses return and that the store
//! holds.

pub mod db;
pub mod query;
pub mod request;
pub mod response;
pub mod settings;

pub use db::SettingsDBRow;
pub use query::GetSettingsQueryParams;
pub use request::{
    DeleteSettingsByKeysRequest, SettingsRequest, UpdateSettingsRequest, ValidateTokenRequest,
};
pub use response::MessageResponse;
pub use settings::Settings;
