//! The stored fields of a record in MessagePack, as the `rmp_serde` crate
//! writes and reads them.

use vstd::prelude::*;
use crate::utils::text::byte_length;

verus! {

/// The error of `rmp_serde::to_vec`. Nothing is known of what it holds.
#[verifier::external_type_specification]
#[verifier::external_body]
pub struct ExEncodeError(rmp_serde::encode::Error);

/// The error of `rmp_serde::from_slice`. Nothing is known of what it holds.
#[verifier::external_type_specification]
#[verifier::external_body]
pub struct ExDecodeError(rmp_serde::decode::Error);

/// What `rmp_serde::from_slice` reads from `payload` as a tuple of two texts
/// and two 64-bit signed integers; `None` where it reports an error.
pub uninterp spec fn msgpack_fields(payload: Seq<u8>) -> Option<(Seq<char>, Seq<char>, i64, i64)>;

/// The bytes that `rmp_serde::to_vec` writes for the tuple of two texts and
/// two 64-bit signed integers.
pub uninterp spec fn msgpack_payload(
    value: Seq<char>,
    type_label: Seq<char>,
    created_at: i64,
    updated_at: i64,
) -> Seq<u8>;

/// Calls `rmp_serde::to_vec` on the tuple of the four fields. The contract
/// claims three things of it. The call succeeds: texts and integers are
/// written without an error of their own, and the writer is a vector, which
/// fails only where no memory is left to reserve; that is left aside here as
/// it is for every allocation. The bytes are [`msgpack_payload`] of the four
/// fields. And `rmp_serde::from_slice` reads the same four fields back from
/// them. Lengths are written as 32-bit numbers, so both texts have to fit.
#[verifier::external_body]
pub(crate) fn pack_fields(value: &str, type_label: &str, created_at: i64, updated_at: i64) -> (packed:
    Result<Vec<u8>, rmp_serde::encode::Error>)
    requires
        byte_length(value@) <= u32::MAX,
        byte_length(type_label@) <= u32::MAX,
    ensures
        packed is Ok,
        packed matches Ok(payload) ==> payload@ == msgpack_payload(
            value@,
            type_label@,
            created_at,
            updated_at,
        ),
        packed matches Ok(payload) ==> msgpack_fields(payload@) == Some(
            (value@, type_label@, created_at, updated_at),
        ),
{
    rmp_serde::to_vec(&(value, type_label, created_at, updated_at))
}

/// Calls `rmp_serde::from_slice` to read a tuple of two texts and two 64-bit
/// signed integers. The contract only names what it gives: it is
/// [`msgpack_fields`] of the bytes.
#[verifier::external_body]
pub(crate) fn unpack_fields(payload: &[u8]) -> (unpacked: Result<
    (String, String, i64, i64),
    rmp_serde::decode::Error,
>)
    ensures
        match unpacked {
            Ok(fields) => msgpack_fields(payload@) == Some((fields.0@, fields.1@, fields.2, fields.3)),
            Err(_) => msgpack_fields(payload@) is None,
        },
{
    rmp_serde::from_slice::<(String, String, i64, i64)>(payload)
}

} // verus!
