//! Create, read, list, delete and update.

use vstd::prelude::*;
use vstd::string::StrSliceExecFns;
use crate::errors::{internal_error, CustomError, CustomErrorView};
use crate::models::db::{decoded_pair, decoded_row, SettingsDBRow, SettingsDBRowView};
use crate::repository::store::engine_key;
use crate::utils::clock::utc_now;
use crate::utils::text::starts_with;
use crate::utils::validate_settings_value::{check_value, invalid_value_error, value_is_valid};

verus! {

/// A create is decided rightly. `existing` tells whether the transaction
/// found a record under the key of `row`, and `write` is the answer.
///
/// - A record found: nothing to write, and no failure; the key is taken and
///   the record that is there stays as it is.
/// - None found, and a record that has a stored form: the payload of the
///   record to insert under the key, from which the record reads back.
/// - None found, and a record that has no stored form: an internal failure.
pub open spec fn create_is_decided(
    existing: bool,
    row: SettingsDBRowView,
    write: Result<Option<Seq<u8>>, CustomErrorView>,
) -> bool {
    if existing {
        write == Ok::<Option<Seq<u8>>, CustomErrorView>(None)
    } else if row.has_payload() {
        &&& write == Ok::<Option<Seq<u8>>, CustomErrorView>(Some(row.payload()))
        &&& decoded_row(row.key, row.payload()) == Some(row)
    } else {
        write == Err::<Option<Seq<u8>>, CustomErrorView>(internal_error())
    }
}

/// The answer of a write operation with its bytes and its failure as views.
pub open spec fn write_view(write: Result<Option<Vec<u8>>, CustomError>) -> Result<
    Option<Seq<u8>>,
    CustomErrorView,
> {
    match write {
        Ok(Some(payload)) => Ok(Some(payload@)),
        Ok(None) => Ok(None),
        Err(e) => Err(e@),
    }
}

/// What an answer asks the transaction to write under the key: the payload
/// of a success that has one, and nothing in every other case.
pub open spec fn written(write: Result<Option<Seq<u8>>, CustomErrorView>) -> Option<Seq<u8>> {
    match write {
        Ok(payload) => payload,
        Err(_) => None,
    }
}

/// Decides a create. `existing` tells whether the transaction found a
/// record under the key of `settings_row`.
pub fn db_create_settings(existing: bool, settings_row: &SettingsDBRow) -> (write: Result<
    Option<Vec<u8>>,
    CustomError,
>)
    ensures
        create_is_decided(existing, settings_row@, write_view(write)),
{
    if existing {
        return Ok(None);
    }
    match settings_row.encode() {
        Ok(payload) => Ok(Some(payload)),
        Err(e) => Err(e),
    }
}

/// What a point lookup of `key` answers, given what the engine holds under
/// the key: no record where it holds nothing, the record with the key
/// attached where it holds a payload, an internal failure where the payload
/// is not the stored form of a record.
pub open spec fn record_found(key: Seq<char>, stored: Option<Seq<u8>>) -> Result<
    Option<SettingsDBRowView>,
    CustomErrorView,
> {
    match stored {
        None => Ok(None),
        Some(payload) => match decoded_row(key, payload) {
            Some(row) => Ok(Some(row)),
            None => Err(internal_error()),
        },
    }
}

/// Decides a point lookup. `stored` is what the engine holds under `key`.
pub fn db_get_settings_by_key(key: &str, stored: Option<&[u8]>) -> (found: Result<
    Option<SettingsDBRow>,
    CustomError,
>)
    ensures
        match found {
            Ok(Some(row)) => record_found(key@, view_of(stored)) == Ok::<
                Option<SettingsDBRowView>,
                CustomErrorView,
            >(Some(row@)),
            Ok(None) => record_found(key@, view_of(stored)) == Ok::<
                Option<SettingsDBRowView>,
                CustomErrorView,
            >(None),
            Err(e) => record_found(key@, view_of(stored)) == Err::<
                Option<SettingsDBRowView>,
                CustomErrorView,
            >(e@),
        },
{
    match stored {
        None => Ok(None),
        Some(payload) => match SettingsDBRow::decode_with_key(key, payload) {
            Ok(row) => Ok(Some(row)),
            Err(e) => Err(e),
        },
    }
}

/// The bytes behind an optional slice.
pub open spec fn view_of(stored: Option<&[u8]>) -> Option<Seq<u8>> {
    match stored {
        Some(payload) => Some(payload@),
        None => None,
    }
}

/// The pairs of a listing as sequences of bytes.
pub open spec fn pair_views(pairs: Seq<(Vec<u8>, Vec<u8>)>) -> Seq<(Seq<u8>, Seq<u8>)> {
    pairs.map_values(|pair: (Vec<u8>, Vec<u8>)| (pair.0@, pair.1@))
}

/// The views of a sequence of records.
pub open spec fn row_views(rows: Seq<SettingsDBRow>) -> Seq<SettingsDBRowView> {
    rows.map_values(|row: SettingsDBRow| row@)
}

/// The listing under `prefix` of the entries `pairs`: the records of the
/// entries whose key starts with the prefix, in the order of the entries.
/// `None` where one of those entries is not the stored form of a record.
pub open spec fn listing(pairs: Seq<(Seq<u8>, Seq<u8>)>, prefix: Seq<u8>) -> Option<
    Seq<SettingsDBRowView>,
>
    decreases pairs.len(),
{
    if pairs.len() == 0 {
        Some(Seq::empty())
    } else {
        let last = pairs.last();
        let before = listing(pairs.drop_last(), prefix);
        if !prefix.is_prefix_of(last.0) {
            before
        } else {
            match (before, decoded_pair(last.0, last.1)) {
                (Some(rows), Some(row)) => Some(rows.push(row)),
                _ => None,
            }
        }
    }
}

/// Decides a listing. `pairs` are entries that the engine holds, as pairs
/// of key and payload, and `prefix` is the text that the wanted keys start
/// with; the empty prefix asks for every record.
///
/// The answer holds the record of each entry whose key starts with the
/// prefix, and of no other, in the order in which the entries came. An
/// entry with such a key that is not the stored form of a record makes the
/// listing an internal failure.
pub fn db_get_settings(pairs: &Vec<(Vec<u8>, Vec<u8>)>, prefix: &str) -> (rows: Result<
    Vec<SettingsDBRow>,
    CustomError,
>)
    ensures
        match rows {
            Ok(rows) => listing(pair_views(pairs@), engine_key(prefix@)) == Some(row_views(rows@)),
            Err(e) => listing(pair_views(pairs@), engine_key(prefix@)) is None && e@
                == internal_error(),
        },
{
    let prefix_bytes = prefix.as_bytes();
    let ghost entries = pair_views(pairs@);
    let ghost wanted = engine_key(prefix@);
    let mut rows: Vec<SettingsDBRow> = Vec::new();
    let mut i: usize = 0;
    while i < pairs.len()
        invariant
            i <= pairs.len(),
            entries == pair_views(pairs@),
            wanted == engine_key(prefix@),
            prefix_bytes@ == wanted,
            listing(entries.subrange(0, i as int), wanted) == Some(row_views(rows@)),
        decreases pairs.len() - i,
    {
        let ghost seen = entries.subrange(0, i + 1);
        assert(seen.drop_last() =~= entries.subrange(0, i as int));
        let key = pairs[i].0.as_slice();
        let payload = pairs[i].1.as_slice();
        if starts_with(key, prefix_bytes) {
            match SettingsDBRow::from_pair(key, payload) {
                Ok(row) => {
                    rows.push(row);
                },
                Err(e) => {
                    proof {
                        lemma_listing_fails_for_good(entries, wanted, i + 1);
                    }
                    return Err(e);
                },
            }
        }
        i = i + 1;
    }
    assert(entries.subrange(0, i as int) =~= entries);
    Ok(rows)
}

/// A listing that fails on the first entries fails on all of them.
proof fn lemma_listing_fails_for_good(pairs: Seq<(Seq<u8>, Seq<u8>)>, prefix: Seq<u8>, n: int)
    requires
        0 <= n <= pairs.len(),
        listing(pairs.subrange(0, n), prefix) is None,
    ensures
        listing(pairs, prefix) is None,
    decreases pairs.len() - n,
{
    if n < pairs.len() {
        let longer = pairs.subrange(0, n + 1);
        assert(longer.drop_last() =~= pairs.subrange(0, n));
        lemma_listing_fails_for_good(pairs, prefix, n + 1);
    } else {
        assert(pairs.subrange(0, n) =~= pairs);
    }
}

/// The texts behind a sequence of strings.
pub open spec fn texts(keys: Seq<String>) -> Seq<Seq<char>> {
    keys.map_values(|key: String| key@)
}

/// The keys of the partition that a delete of `keys` removes: the bytes of
/// each key, in order.
pub open spec fn engine_keys(keys: Seq<Seq<char>>) -> Seq<Seq<u8>> {
    keys.map_values(|key: Seq<char>| engine_key(key))
}

/// The byte strings behind a sequence of vectors.
pub open spec fn byte_views(keys: Seq<Vec<u8>>) -> Seq<Seq<u8>> {
    keys.map_values(|key: Vec<u8>| key@)
}

/// Decides a delete: the keys to remove from the partition, one for each
/// key of the request and in the same order. A key under which nothing is
/// stored is removed like any other, to no effect.
pub fn db_delete_settings_by_keys(keys: &Vec<String>) -> (removals: Vec<Vec<u8>>)
    ensures
        byte_views(removals@) == engine_keys(texts(keys@)),
{
    let mut removals: Vec<Vec<u8>> = Vec::new();
    let mut i: usize = 0;
    while i < keys.len()
        invariant
            i <= keys.len(),
            byte_views(removals@) == engine_keys(texts(keys@.subrange(0, i as int))),
        decreases keys.len() - i,
    {
        let key = keys[i].as_str().as_bytes_vec();
        removals.push(key);
        assert(engine_keys(texts(keys@.subrange(0, i + 1))) =~= engine_keys(
            texts(keys@.subrange(0, i as int)),
        ).push(engine_key(keys@[i as int]@)));
        i = i + 1;
    }
    removals
}

/// What the first step of an update finds: the record to update, where the
/// new value may be written to it.
///
/// - Nothing stored: no record, and no failure.
/// - A payload that is not the stored form of a record: an internal failure.
/// - A new value that is not written in the form of the record's type: the
///   failure of validation that names the value and the form.
/// - Else: the record that is stored.
pub open spec fn record_to_update(key: Seq<char>, value: Seq<char>, stored: Option<Seq<u8>>) -> Result<
    Option<SettingsDBRowView>,
    CustomErrorView,
> {
    match stored {
        None => Ok(None),
        Some(payload) => match decoded_row(key, payload) {
            None => Err(internal_error()),
            Some(current) => if value_is_valid(value, current.value_type) {
                Ok(Some(current))
            } else {
                Err(invalid_value_error(value, current.value_type))
            },
        },
    }
}

/// An update is decided rightly. `stored` is what the transaction read
/// under `key`, `now` the moment of the update, and `write` the answer.
///
/// - No record to update: nothing to write, and no failure; the key is
///   unknown.
/// - A failure of the first step: that failure, and nothing to write.
/// - Else: the payload of the record with the new value and `now` as its
///   time of update, and with its key, type and time of creation as they
///   were; the record reads back from it. Where the new value is too long
///   for a stored form, an internal failure.
pub open spec fn update_is_decided(
    key: Seq<char>,
    value: Seq<char>,
    stored: Option<Seq<u8>>,
    now: i64,
    write: Result<Option<Seq<u8>>, CustomErrorView>,
) -> bool {
    match record_to_update(key, value, stored) {
        Ok(None) => write == Ok::<Option<Seq<u8>>, CustomErrorView>(None),
        Err(e) => write == Err::<Option<Seq<u8>>, CustomErrorView>(e),
        Ok(Some(current)) => if current.with_value(value, now).has_payload() {
            &&& write == Ok::<Option<Seq<u8>>, CustomErrorView>(
                Some(current.with_value(value, now).payload()),
            )
            &&& decoded_row(key, current.with_value(value, now).payload()) == Some(
                current.with_value(value, now),
            )
        } else {
            write == Err::<Option<Seq<u8>>, CustomErrorView>(internal_error())
        },
    }
}

/// The first step of an update: reads the record that the transaction found
/// under `key` and validates the new value against its type.
pub fn find_record_to_update(key: &str, value: &str, stored: Option<&[u8]>) -> (found: Result<
    Option<SettingsDBRow>,
    CustomError,
>)
    ensures
        match found {
            Ok(Some(current)) => record_to_update(key@, value@, view_of(stored)) == Ok::<
                Option<SettingsDBRowView>,
                CustomErrorView,
            >(Some(current@)),
            Ok(None) => record_to_update(key@, value@, view_of(stored)) == Ok::<
                Option<SettingsDBRowView>,
                CustomErrorView,
            >(None),
            Err(e) => record_to_update(key@, value@, view_of(stored)) == Err::<
                Option<SettingsDBRowView>,
                CustomErrorView,
            >(e@),
        },
{
    let payload = match stored {
        None => {
            return Ok(None);
        },
        Some(payload) => payload,
    };
    let current = match SettingsDBRow::decode_with_key(key, payload) {
        Ok(row) => row,
        Err(e) => {
            return Err(e);
        },
    };
    match check_value(value, current.value_type) {
        Ok(_) => Ok(Some(current)),
        Err(e) => Err(e),
    }
}

/// The second step of an update: the payload of the record `current` with
/// the new value, updated at the moment `now`.
pub fn updated_payload(current: &SettingsDBRow, value: &str, now: i64) -> (payload: Result<
    Vec<u8>,
    CustomError,
>)
    ensures
        payload is Ok <==> current@.with_value(value@, now).has_payload(),
        payload matches Ok(bytes) ==> bytes@ == current@.with_value(value@, now).payload(),
        payload matches Ok(bytes) ==> decoded_row(current.key@, bytes@) == Some(
            current@.with_value(value@, now),
        ),
        payload matches Err(e) ==> e@ == internal_error(),
{
    current.with_value(value, now).encode()
}

/// Decides an update at the moment `now`. `stored` is what the transaction
/// read under `key`.
pub fn update_settings_at(key: &str, value: &str, stored: Option<&[u8]>, now: i64) -> (write:
    Result<Option<Vec<u8>>, CustomError>)
    ensures
        update_is_decided(key@, value@, view_of(stored), now, write_view(write)),
{
    match find_record_to_update(key, value, stored) {
        Ok(Some(current)) => match updated_payload(&current, value, now) {
            Ok(bytes) => Ok(Some(bytes)),
            Err(e) => Err(e),
        },
        Ok(None) => Ok(None),
        Err(e) => Err(e),
    }
}

/// Decides an update at the moment that the clock shows. `stored` is what
/// the transaction read under `key`. The clock is read once the record has
/// been found and the new value has been found valid for it.
pub fn db_update_settings_by_key(key: &str, value: &str, stored: Option<&[u8]>) -> (write: Result<
    Option<Vec<u8>>,
    CustomError,
>)
    ensures
        exists|now: i64| update_is_decided(key@, value@, view_of(stored), now, write_view(write)),
{
    match find_record_to_update(key, value, stored) {
        Ok(Some(current)) => {
            let now: i64 = utc_now();
            let write = match updated_payload(&current, value, now) {
                Ok(bytes) => Ok(Some(bytes)),
                Err(e) => Err(e),
            };
            assert(update_is_decided(key@, value@, view_of(stored), now, write_view(write)));
            write
        },
        Ok(None) => {
            assert(update_is_decided(key@, value@, view_of(stored), 0, write_view(Ok(None))));
            Ok(None)
        },
        Err(e) => {
            assert(update_is_decided(key@, value@, view_of(stored), 0, write_view(Err(e))));
            Err(e)
        },
    }
}

} // verus!
