//! The record that the store holds for a setting, and its stored form.
//!
//! The store keeps a record under its key. The payload beside the key holds
//! the other fields: the value, the name of the type and the two times. The
//! key is never part of the payload; whoever reads a payload attaches the
//! key under which it was found.

use vstd::prelude::*;
use vstd::string::StringExecFns;
use vstd::utf8::{decode_utf8, encode_utf8_decode_utf8, valid_utf8};
use crate::enums::SettingsValueType;
use crate::errors::{internal_error, CustomError};
use crate::models::request::{SettingsRequest, SettingsRequestView};
use crate::models::settings::settings_are_valid;
use crate::utils::clock::utc_now;
use crate::utils::msgpack::{msgpack_fields, msgpack_payload, pack_fields, unpack_fields};
use crate::utils::text::{byte_length, text_of_bytes};

verus! {

/// The record of a setting. Times are microseconds since the Unix epoch.
#[derive(Clone, Debug)]
pub struct SettingsDBRow {
    pub key: String,
    pub value: String,
    pub value_type: SettingsValueType,
    pub created_at: i64,
    pub updated_at: i64,
}

/// A [`SettingsDBRow`] with its texts as sequences of characters.
pub ghost struct SettingsDBRowView {
    pub key: Seq<char>,
    pub value: Seq<char>,
    pub value_type: SettingsValueType,
    pub created_at: i64,
    pub updated_at: i64,
}

impl View for SettingsDBRow {
    type V = SettingsDBRowView;

    open spec fn view(&self) -> SettingsDBRowView {
        SettingsDBRowView {
            key: self.key@,
            value: self.value@,
            value_type: self.value_type,
            created_at: self.created_at,
            updated_at: self.updated_at,
        }
    }
}

impl SettingsDBRowView {
    /// The record is one that the operations write: its setting may be
    /// written, and it was not updated before it was created.
    pub open spec fn is_well_formed(self) -> bool {
        &&& settings_are_valid(self.key, self.value, self.value_type)
        &&& self.created_at <= self.updated_at
    }

    /// The fields that the payload holds: all but the key.
    pub open spec fn fields(self) -> (Seq<char>, Seq<char>, i64, i64) {
        (self.value, self.value_type.name(), self.created_at, self.updated_at)
    }

    /// The payload of the record: the stored form of its fields. The key has
    /// no part in it.
    pub open spec fn payload(self) -> Seq<u8> {
        msgpack_payload(self.value, self.value_type.name(), self.created_at, self.updated_at)
    }

    /// The record has a stored form: the length of its value can be stated
    /// in 32 bits.
    pub open spec fn has_payload(self) -> bool {
        byte_length(self.value) <= u32::MAX
    }

    /// The record with `key` in place of its key.
    pub open spec fn with_key(self, key: Seq<char>) -> SettingsDBRowView {
        SettingsDBRowView { key: key, ..self }
    }

    /// The record after an update at the moment `now`: the new value and the
    /// new time of update; key, type and time of creation as they were.
    pub open spec fn with_value(self, value: Seq<char>, now: i64) -> SettingsDBRowView {
        SettingsDBRowView { value: value, updated_at: now, ..self }
    }
}

/// The record that a request creates at the moment `now`.
pub open spec fn created_row(request: SettingsRequestView, now: i64) -> SettingsDBRowView {
    SettingsDBRowView {
        key: request.key,
        value: request.value,
        value_type: request.value_type,
        created_at: now,
        updated_at: now,
    }
}

/// The record that the fields of a payload make under `key`; `None` where
/// the payload names no type.
pub open spec fn row_of_fields(
    key: Seq<char>,
    fields: (Seq<char>, Seq<char>, i64, i64),
) -> Option<SettingsDBRowView> {
    match SettingsValueType::from_name(fields.1) {
        Some(value_type) => Some(
            SettingsDBRowView {
                key: key,
                value: fields.0,
                value_type: value_type,
                created_at: fields.2,
                updated_at: fields.3,
            },
        ),
        None => None,
    }
}

/// The record that `payload` holds under `key`; `None` where the payload is
/// not the stored form of a record.
pub open spec fn decoded_row(key: Seq<char>, payload: Seq<u8>) -> Option<SettingsDBRowView> {
    match msgpack_fields(payload) {
        Some(fields) => row_of_fields(key, fields),
        None => None,
    }
}

/// The record that the store holds as the pair of the bytes of a key and a
/// payload; `None` where the key is not a text or the payload is not the
/// stored form of a record.
pub open spec fn decoded_pair(key: Seq<u8>, payload: Seq<u8>) -> Option<SettingsDBRowView> {
    if valid_utf8(key) {
        decoded_row(decode_utf8(key), payload)
    } else {
        None
    }
}

/// Under its own key, the fields of a record make the record again.
pub proof fn lemma_fields_make_the_row(row: SettingsDBRowView)
    ensures
        row_of_fields(row.key, row.fields()) == Some(row),
{
    row.value_type.lemma_name_names_the_type();
}

/// Records that differ in their keys only have the same payload.
pub proof fn lemma_payload_holds_no_key(a: SettingsDBRowView, b: SettingsDBRowView)
    requires
        a.fields() == b.fields(),
    ensures
        a.payload() == b.payload(),
{
}

/// A well-formed record has a stored form.
pub proof fn lemma_well_formed_row_has_payload(row: SettingsDBRowView)
    requires
        row.is_well_formed(),
    ensures
        row.has_payload(),
{
}

/// A freshly created record is well formed where its request was valid.
pub proof fn lemma_created_row_is_well_formed(request: SettingsRequestView, now: i64)
    requires
        request.is_valid(),
    ensures
        created_row(request, now).is_well_formed(),
{
}

/// The bytes that the encoder gave, or the failure that stands for its
/// error.
pub fn payload_or_failure(packed: Result<Vec<u8>, rmp_serde::encode::Error>) -> (payload: Result<
    Vec<u8>,
    CustomError,
>)
    ensures
        match packed {
            Ok(bytes) => payload == Ok::<Vec<u8>, CustomError>(bytes),
            Err(_) => payload matches Err(e) && e@ == internal_error(),
        },
{
    match packed {
        Ok(bytes) => Ok(bytes),
        Err(_) => Err(CustomError::internal()),
    }
}

impl SettingsDBRow {
    /// The record that `request` creates at the moment `now`.
    pub fn new(request: SettingsRequest, now: i64) -> (row: SettingsDBRow)
        ensures
            row@ == created_row(request@, now),
    {
        SettingsDBRow {
            key: request.key,
            value: request.value,
            value_type: request.value_type,
            created_at: now,
            updated_at: now,
        }
    }

    /// The record that `request` creates now, by the clock.
    pub fn from_request(request: SettingsRequest) -> (row: SettingsDBRow)
        ensures
            exists|now: i64| row@ == created_row(request@, now),
    {
        let now: i64 = utc_now();
        let row = SettingsDBRow::new(request, now);
        row
    }

    /// The record after an update to `value` at the moment `now`.
    pub fn with_value(&self, value: &str, now: i64) -> (row: SettingsDBRow)
        ensures
            row@ == self@.with_value(value@, now),
    {
        SettingsDBRow {
            key: self.key.clone(),
            value: String::from_str(value),
            value_type: self.value_type,
            created_at: self.created_at,
            updated_at: now,
        }
    }

    /// The record that the fields of a payload make under `key`. Fields that
    /// name no type are a fault of the payload.
    pub fn from_fields(key: String, fields: (String, String, i64, i64)) -> (row: Result<
        SettingsDBRow,
        CustomError,
    >)
        ensures
            match row {
                Ok(r) => row_of_fields(key@, (fields.0@, fields.1@, fields.2, fields.3)) == Some(r@),
                Err(e) => row_of_fields(key@, (fields.0@, fields.1@, fields.2, fields.3)) is None
                    && e@ == internal_error(),
            },
    {
        let (value, type_label, created_at, updated_at) = fields;
        match SettingsValueType::parse(type_label.as_str()) {
            Some(value_type) => Ok(
                SettingsDBRow {
                    key: key,
                    value: value,
                    value_type: value_type,
                    created_at: created_at,
                    updated_at: updated_at,
                },
            ),
            None => Err(CustomError::internal()),
        }
    }

    /// Reads the record that `payload` holds and attaches `key` to it. A
    /// payload that is not the stored form of a record is an internal
    /// failure.
    pub fn decode_with_key(key: &str, payload: &[u8]) -> (row: Result<SettingsDBRow, CustomError>)
        ensures
            match row {
                Ok(r) => decoded_row(key@, payload@) == Some(r@),
                Err(e) => decoded_row(key@, payload@) is None && e@ == internal_error(),
            },
    {
        match unpack_fields(payload) {
            Ok(fields) => SettingsDBRow::from_fields(String::from_str(key), fields),
            Err(_) => Err(CustomError::internal()),
        }
    }

    /// Reads the record that the store holds as the pair of the bytes of a
    /// key and a payload. A key that is not a text, like a payload that is
    /// not the stored form of a record, is an internal failure.
    pub fn from_pair(key: &[u8], payload: &[u8]) -> (row: Result<SettingsDBRow, CustomError>)
        ensures
            match row {
                Ok(r) => decoded_pair(key@, payload@) == Some(r@),
                Err(e) => decoded_pair(key@, payload@) is None && e@ == internal_error(),
            },
    {
        match text_of_bytes(key) {
            Some(text) => {
                proof {
                    encode_utf8_decode_utf8(text@);
                }
                SettingsDBRow::decode_with_key(text, payload)
            },
            None => Err(CustomError::internal()),
        }
    }

    /// Writes the stored form of the record: the payload of its fields, from
    /// which [`SettingsDBRow::decode_with_key`] reads every field but the key
    /// back, and so the whole record under its own key. It is an internal
    /// failure where the value takes more bytes than a 32-bit length can
    /// state, and nowhere else.
    pub fn encode(&self) -> (payload: Result<Vec<u8>, CustomError>)
        ensures
            payload is Ok <==> self@.has_payload(),
            payload matches Ok(bytes) ==> bytes@ == self@.payload(),
            payload matches Ok(bytes) ==> decoded_row(self.key@, bytes@) == Some(self@),
            payload matches Ok(bytes) ==> forall|key: Seq<char>| #[trigger]
                decoded_row(key, bytes@) == Some(self@.with_key(key)),
            payload matches Err(e) ==> e@ == internal_error(),
    {
        if self.value.as_str().as_bytes().len() > 4294967295usize {
            return Err(CustomError::internal());
        }
        let type_label = self.value_type.as_str();
        proof {
            reveal_strlit("str");
            reveal_strlit("int");
            reveal_strlit("float");
            reveal_strlit("bool");
            reveal_strlit("json");
            vstd::utf8::is_ascii_chars_encode_utf8(type_label@);
            lemma_fields_make_the_row(self@);
        }
        payload_or_failure(
            pack_fields(self.value.as_str(), type_label, self.created_at, self.updated_at),
        )
    }
}

} // verus!
