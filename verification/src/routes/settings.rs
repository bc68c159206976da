//! The routes of the settings: create, read, update and delete.

use vstd::prelude::*;
use vstd::string::StringExecFns;
use crate::errors::{CustomError, CustomErrorView};
use crate::models::db::{created_row, SettingsDBRow};
use crate::models::request::{SettingsRequest, UpdateSettingsRequest};
use crate::models::response::MessageResponse;

verus! {

/// The status of an answer that reports success.
pub const OK: u16 = 200;

/// The status of an answer that reports that a setting was created.
pub const CREATED: u16 = 201;

/// The status of an answer that reports that the key is taken.
pub const CONFLICT: u16 = 409;

/// The message that a setting with the key `key` was created.
pub open spec fn created_message(key: Seq<char>) -> Seq<char> {
    "Settings with key '"@ + key + "' created"@
}

/// The message that a setting with the key `key` is there already.
pub open spec fn already_exists_message(key: Seq<char>) -> Seq<char> {
    "Settings with key '"@ + key + "' already exist"@
}

/// The message that no setting has the key `key`.
pub open spec fn not_found_message(key: Seq<char>) -> Seq<char> {
    "Settings with key '"@ + key + "' not found"@
}

/// The failure that reports that no setting has the key `key`.
pub open spec fn not_found_error(key: Seq<char>) -> CustomErrorView {
    CustomErrorView::NotFoundError(not_found_message(key))
}

/// The failure that reports that a setting with the key `key` is there
/// already.
pub open spec fn conflict_error(key: Seq<char>) -> CustomErrorView {
    CustomErrorView::ConflictError(already_exists_message(key))
}

/// The message that a setting with the key `key` was created.
fn created(key: &str) -> (response: MessageResponse)
    ensures
        response@ == created_message(key@),
{
    MessageResponse { message: String::from_str("Settings with key '").concat(key).concat("' created") }
}

/// The message that a setting with the key `key` is there already.
fn already_exists(key: &str) -> (message: String)
    ensures
        message@ == already_exists_message(key@),
{
    String::from_str("Settings with key '").concat(key).concat("' already exist")
}

/// The failure that reports that no setting has the key `key`.
fn not_found(key: &str) -> (error: CustomError)
    ensures
        error@ == not_found_error(key@),
{
    CustomError::NotFoundError(
        String::from_str("Settings with key '").concat(key).concat("' not found"),
    )
}

/// The first step of a create: validates the request and makes the record
/// to store, created and updated now. An invalid request is rejected before
/// the storage engine is touched.
pub fn new_settings_row(payload: SettingsRequest) -> (row: Result<SettingsDBRow, CustomError>)
    ensures
        row is Ok <==> payload@.is_valid(),
        row matches Ok(r) ==> exists|now: i64| r@ == created_row(payload@, now),
        row matches Err(e) ==> payload@.rejection() == Some(e@),
{
    match payload.validate() {
        Ok(_) => Ok(SettingsDBRow::from_request(payload)),
        Err(e) => Err(e),
    }
}

/// The answer to a create. `inserted` tells whether the repository had the
/// record inserted; it had not where the key was taken.
///
/// A record inserted is answered with the status 201 and the message that
/// names the key; a key that was taken with the failure of a conflict.
pub fn create_settings(key: &str, inserted: bool) -> (answer: Result<
    (u16, MessageResponse),
    CustomError,
>)
    ensures
        answer is Ok <==> inserted,
        answer matches Ok(reply) ==> reply.0 == CREATED && reply.1@ == created_message(key@),
        answer matches Err(e) ==> e@ == conflict_error(key@),
{
    if inserted {
        Ok((CREATED, created(key)))
    } else {
        Err(CustomError::ConflictError(already_exists(key)))
    }
}

/// The answer to a create that reports a key that was taken as a plain
/// message with the status 409, not as a failure.
pub fn add_settings(key: &str, inserted: bool) -> (reply: (u16, MessageResponse))
    ensures
        inserted ==> reply.0 == CREATED && reply.1@ == created_message(key@),
        !inserted ==> reply.0 == CONFLICT && reply.1@ == already_exists_message(key@),
{
    if inserted {
        (CREATED, created(key))
    } else {
        (CONFLICT, MessageResponse { message: already_exists(key) })
    }
}

/// The answer to a point lookup of `key`: the record where one was found,
/// and the failure that none has the key where none was.
pub fn get_settings_by_key(key: &str, found: Option<SettingsDBRow>) -> (answer: Result<
    SettingsDBRow,
    CustomError,
>)
    ensures
        match found {
            Some(row) => answer == Ok::<SettingsDBRow, CustomError>(row),
            None => answer matches Err(e) && e@ == not_found_error(key@),
        },
{
    match found {
        Some(row) => Ok(row),
        None => Err(not_found(key)),
    }
}

/// The first step of an update: validates the lengths of the request.
pub fn check_update(payload: &UpdateSettingsRequest) -> (checked: Result<(), CustomError>)
    ensures
        checked is Ok <==> payload@.is_valid(),
        match checked {
            Ok(_) => payload@.rejection() is None,
            Err(e) => payload@.rejection() == Some(e@),
        },
{
    payload.validate()
}

/// The answer to an update of `key`. `updated` tells whether the repository
/// found a record under the key and had it written anew.
pub fn update_settings(key: &str, updated: bool) -> (answer: Result<
    (u16, MessageResponse),
    CustomError,
>)
    ensures
        answer is Ok <==> updated,
        answer matches Ok(reply) ==> reply.0 == OK && reply.1@ == "Settings updated"@,
        answer matches Err(e) ==> e@ == not_found_error(key@),
{
    if updated {
        Ok((OK, MessageResponse { message: String::from_str("Settings updated") }))
    } else {
        Err(not_found(key))
    }
}

/// The answer to a delete. Keys under which nothing was stored are passed
/// over in silence, so the answer is the same for every request.
pub fn delete_settings() -> (reply: (u16, MessageResponse))
    ensures
        reply.0 == OK,
        reply.1@ == "Settings deleted"@,
{
    (OK, MessageResponse { message: String::from_str("Settings deleted") })
}

} // verus!
