//! The answers of the HTTP routes.
//!
//! A route validates its request, has the repository decide, and answers.
//! The steps that read and write the storage engine lie between these
//! functions and are taken by whoever serves the route.

pub mod auth;
pub mod settings;

pub use auth::validate_token;
pub use settings::{
    add_settings, create_settings, delete_settings, get_settings_by_key, update_settings,
};
