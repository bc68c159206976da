//! The decisions of the operations on the store.
//!
//! The storage engine is a durable, sorted map from keys to payloads that
//! is read and written elsewhere. An operation here takes what was read
//! from the engine and answers with what is to be written to it. Whoever
//! runs an operation reads, decides and writes inside one transaction of the
//! engine, and flushes to stable storage before reporting success.

pub mod laws;
pub mod settings;
pub mod store;

pub use settings::{
    db_create_settings, db_delete_settings_by_keys, db_get_settings, db_get_settings_by_key,
    db_update_settings_by_key,
};
