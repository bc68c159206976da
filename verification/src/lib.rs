//! A typed key-value registry of application settings: validation of values
//! against their declared type, the stored form of a record, and the
//! decisions of the create, read, list, update and delete operations.

pub mod config;
pub mod enums;
pub mod errors;
pub mod models;
pub mod repository;
pub mod routes;
pub mod startup;
pub mod utils;
