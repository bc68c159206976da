//! What holds of the operations, one after another.
//!
//! Each law takes a content of the partition and the answers of operations,
//! of which it asks no more than that they were decided rightly, and states
//! what the partition holds once the answers have been committed.

use vstd::prelude::*;
use vstd::utf8::{decode_utf8_encode_utf8, encode_utf8_decode_utf8};
use crate::errors::CustomErrorView;
use crate::models::db::{decoded_pair, SettingsDBRowView};
use crate::repository::settings::{
    create_is_decided, engine_keys, listing, record_found, update_is_decided, written,
};
use crate::repository::store::{
    commit, engine_key, enumerates, lookup, record_at, remove_all, Partition,
};
use crate::utils::text::{lemma_prefix_of_text_and_of_bytes, lemma_same_bytes_same_text};
use crate::utils::validate_settings_value::{invalid_value_error, value_is_valid};

verus! {

/// Records with different keys are stored under different keys of the
/// partition.
pub proof fn lemma_engine_keys_differ(a: Seq<char>, b: Seq<char>)
    ensures
        engine_key(a) == engine_key(b) <==> a == b,
{
    if engine_key(a) == engine_key(b) {
        lemma_same_bytes_same_text(a, b);
    }
}

/// A first create that finds no record stores its record: a lookup of the
/// key then finds that record.
pub proof fn lemma_create_stores_the_record(
    store: Partition,
    row: SettingsDBRowView,
    write: Result<Option<Seq<u8>>, CustomErrorView>,
)
    requires
        lookup(store, row.key) is None,
        create_is_decided(false, row, write),
        write is Ok,
    ensures
        record_at(commit(store, row.key, written(write)), row.key) == Some(row),
        record_found(row.key, lookup(commit(store, row.key, written(write)), row.key)) == Ok::<
            Option<SettingsDBRowView>,
            CustomErrorView,
        >(Some(row)),
{
}

/// A create of a well-formed record on a key under which nothing is stored
/// succeeds: it asks for the payload of the record to be inserted, and once
/// that is committed the partition holds the record under its key, holds
/// one key more than before, and holds every other key as it was.
pub proof fn lemma_create_on_a_fresh_key_succeeds(
    store: Partition,
    row: SettingsDBRowView,
    write: Result<Option<Seq<u8>>, CustomErrorView>,
)
    requires
        lookup(store, row.key) is None,
        row.is_well_formed(),
        create_is_decided(false, row, write),
    ensures
        write == Ok::<Option<Seq<u8>>, CustomErrorView>(Some(row.payload())),
        record_at(commit(store, row.key, written(write)), row.key) == Some(row),
        commit(store, row.key, written(write)).dom() == store.dom().insert(engine_key(row.key)),
        !store.dom().contains(engine_key(row.key)),
        forall|other: Seq<char>|
            other != row.key ==> #[trigger] lookup(
                commit(store, row.key, written(write)),
                other,
            ) == lookup(store, other),
{
    assert forall|other: Seq<char>| other != row.key implies #[trigger] lookup(
        commit(store, row.key, written(write)),
        other,
    ) == lookup(store, other) by {
        lemma_engine_keys_differ(other, row.key);
    }
}

/// A create leaves every other key as it was.
pub proof fn lemma_create_touches_one_key(
    store: Partition,
    row: SettingsDBRowView,
    write: Result<Option<Seq<u8>>, CustomErrorView>,
    other: Seq<char>,
)
    requires
        other != row.key,
    ensures
        lookup(commit(store, row.key, written(write)), other) == lookup(store, other),
{
    lemma_engine_keys_differ(other, row.key);
}

/// Creating the same key twice: the second create finds the record of the
/// first, has nothing to write and no failure to report but that the key is
/// taken, and the partition still holds the record of the first.
pub proof fn lemma_second_create_conflicts(
    store: Partition,
    first: SettingsDBRowView,
    first_write: Result<Option<Seq<u8>>, CustomErrorView>,
    second: SettingsDBRowView,
    second_write: Result<Option<Seq<u8>>, CustomErrorView>,
)
    requires
        create_is_decided(lookup(store, first.key) is Some, first, first_write),
        first_write matches Ok(Some(_)),
        second.key == first.key,
        create_is_decided(
            lookup(commit(store, first.key, written(first_write)), second.key) is Some,
            second,
            second_write,
        ),
    ensures
        second_write == Ok::<Option<Seq<u8>>, CustomErrorView>(None),
        commit(
            commit(store, first.key, written(first_write)),
            second.key,
            written(second_write),
        ) == commit(store, first.key, written(first_write)),
        record_at(
            commit(
                commit(store, first.key, written(first_write)),
                second.key,
                written(second_write),
            ),
            first.key,
        ) == Some(first),
{
}

/// An update that succeeds on a stored record keeps the key, the type and
/// the time of creation, stores the new value, and sets the time of update
/// to the moment of the update.
pub proof fn lemma_update_keeps_creation(
    store: Partition,
    key: Seq<char>,
    value: Seq<char>,
    now: i64,
    write: Result<Option<Seq<u8>>, CustomErrorView>,
)
    requires
        record_at(store, key) is Some,
        update_is_decided(key, value, lookup(store, key), now, write),
        write is Ok,
    ensures
        value_is_valid(value, record_at(store, key)->0.value_type),
        record_at(commit(store, key, written(write)), key) == Some(
            record_at(store, key)->0.with_value(value, now),
        ),
        record_at(commit(store, key, written(write)), key)->0.key == record_at(store, key)->0.key,
        record_at(commit(store, key, written(write)), key)->0.value == value,
        record_at(commit(store, key, written(write)), key)->0.value_type == record_at(
            store,
            key,
        )->0.value_type,
        record_at(commit(store, key, written(write)), key)->0.created_at == record_at(
            store,
            key,
        )->0.created_at,
        record_at(commit(store, key, written(write)), key)->0.updated_at == now,
{
}

/// An update of a stored record with a value that is valid for its type and
/// of a valid length succeeds: it asks for the payload of the updated record
/// to be written, and once that is committed the partition holds the record
/// with the new value and the moment of the update, with its key, type and
/// time of creation as they were. No key is added or removed, and every
/// other key is held as it was.
pub proof fn lemma_valid_update_succeeds(
    store: Partition,
    key: Seq<char>,
    value: Seq<char>,
    now: i64,
    write: Result<Option<Seq<u8>>, CustomErrorView>,
)
    requires
        record_at(store, key) is Some,
        value_is_valid(value, record_at(store, key)->0.value_type),
        crate::models::settings::value_length_is_valid(value),
        update_is_decided(key, value, lookup(store, key), now, write),
    ensures
        write == Ok::<Option<Seq<u8>>, CustomErrorView>(
            Some(record_at(store, key)->0.with_value(value, now).payload()),
        ),
        record_at(commit(store, key, written(write)), key) == Some(
            record_at(store, key)->0.with_value(value, now),
        ),
        record_at(commit(store, key, written(write)), key)->0.key == key,
        record_at(commit(store, key, written(write)), key)->0.created_at == record_at(
            store,
            key,
        )->0.created_at,
        record_at(commit(store, key, written(write)), key)->0.value_type == record_at(
            store,
            key,
        )->0.value_type,
        commit(store, key, written(write)).dom() == store.dom(),
        forall|other: Seq<char>|
            other != key ==> #[trigger] lookup(commit(store, key, written(write)), other)
                == lookup(store, other),
{
    assert(commit(store, key, written(write)).dom() =~= store.dom());
    assert forall|other: Seq<char>| other != key implies #[trigger] lookup(
        commit(store, key, written(write)),
        other,
    ) == lookup(store, other) by {
        lemma_engine_keys_differ(other, key);
    }
}

/// An update of a stored record with a valid value, at a moment after the
/// record's last update, succeeds and strictly increases the time of
/// update. The moment is the one that the clock shows, so the law asks that
/// the clock has moved on since.
pub proof fn lemma_update_advances_the_time_of_update(
    store: Partition,
    key: Seq<char>,
    value: Seq<char>,
    now: i64,
    write: Result<Option<Seq<u8>>, CustomErrorView>,
)
    requires
        record_at(store, key) is Some,
        value_is_valid(value, record_at(store, key)->0.value_type),
        crate::models::settings::value_length_is_valid(value),
        update_is_decided(key, value, lookup(store, key), now, write),
        record_at(store, key)->0.updated_at < now,
    ensures
        write matches Ok(Some(_)),
        record_at(commit(store, key, written(write)), key) is Some,
        record_at(store, key)->0.updated_at < record_at(
            commit(store, key, written(write)),
            key,
        )->0.updated_at,
        record_at(store, key)->0.created_at == record_at(
            commit(store, key, written(write)),
            key,
        )->0.created_at,
{
    lemma_valid_update_succeeds(store, key, value, now, write);
}

/// An update keeps a record well formed where the length of the new value
/// is in bounds and the moment of the update is not before the creation.
pub proof fn lemma_update_keeps_well_formed(current: SettingsDBRowView, value: Seq<char>, now: i64)
    requires
        current.is_well_formed(),
        crate::models::settings::value_length_is_valid(value),
        value_is_valid(value, current.value_type),
        current.created_at <= now,
    ensures
        current.with_value(value, now).is_well_formed(),
{
}

/// An update with a value that is not written in the form of the stored
/// type is rejected as invalid, and the partition stays as it was.
pub proof fn lemma_invalid_update_changes_nothing(
    store: Partition,
    key: Seq<char>,
    value: Seq<char>,
    now: i64,
    write: Result<Option<Seq<u8>>, CustomErrorView>,
)
    requires
        record_at(store, key) is Some,
        !value_is_valid(value, record_at(store, key)->0.value_type),
        update_is_decided(key, value, lookup(store, key), now, write),
    ensures
        write == Err::<Option<Seq<u8>>, CustomErrorView>(
            invalid_value_error(value, record_at(store, key)->0.value_type),
        ),
        write->Err_0.status_code() == 422,
        commit(store, key, written(write)) == store,
{
}

/// An update of a key under which nothing is stored finds nothing, reports
/// no record, and creates nothing.
pub proof fn lemma_update_of_missing_key_creates_nothing(
    store: Partition,
    key: Seq<char>,
    value: Seq<char>,
    now: i64,
    write: Result<Option<Seq<u8>>, CustomErrorView>,
)
    requires
        lookup(store, key) is None,
        update_is_decided(key, value, lookup(store, key), now, write),
    ensures
        write == Ok::<Option<Seq<u8>>, CustomErrorView>(None),
        commit(store, key, written(write)) == store,
        lookup(commit(store, key, written(write)), key) is None,
{
}

/// An update leaves every other key as it was.
pub proof fn lemma_update_touches_one_key(
    store: Partition,
    key: Seq<char>,
    write: Result<Option<Seq<u8>>, CustomErrorView>,
    other: Seq<char>,
)
    requires
        other != key,
    ensures
        lookup(commit(store, key, written(write)), other) == lookup(store, other),
{
    lemma_engine_keys_differ(other, key);
}

/// The entry at position `i` of `pairs` has a key that starts with `prefix`,
/// and `row` is its record.
pub open spec fn is_record_of_entry(
    pairs: Seq<(Seq<u8>, Seq<u8>)>,
    prefix: Seq<u8>,
    i: int,
    row: SettingsDBRowView,
) -> bool {
    &&& 0 <= i < pairs.len()
    &&& prefix.is_prefix_of(pairs[i].0)
    &&& decoded_pair(pairs[i].0, pairs[i].1) == Some(row)
}

/// `row` is the record of an entry of `pairs` whose key starts with
/// `prefix`.
pub open spec fn is_record_of_some_entry(
    pairs: Seq<(Seq<u8>, Seq<u8>)>,
    prefix: Seq<u8>,
    row: SettingsDBRowView,
) -> bool {
    exists|i: int| #[trigger] is_record_of_entry(pairs, prefix, i, row)
}

/// A listing holds exactly the records of the entries whose key starts with
/// the prefix: each listed record is the record of such an entry, each such
/// entry has its record listed, and the key of each listed record starts
/// with the prefix.
pub proof fn lemma_listing_is_exact(
    pairs: Seq<(Seq<u8>, Seq<u8>)>,
    prefix: Seq<u8>,
    rows: Seq<SettingsDBRowView>,
)
    requires
        listing(pairs, prefix) == Some(rows),
    ensures
        forall|j: int|
            0 <= j < rows.len() ==> is_record_of_some_entry(pairs, prefix, #[trigger] rows[j]),
        forall|i: int|
            0 <= i < pairs.len() && prefix.is_prefix_of(#[trigger] pairs[i].0) ==> decoded_pair(
                pairs[i].0,
                pairs[i].1,
            ) is Some && rows.contains(decoded_pair(pairs[i].0, pairs[i].1)->0),
        forall|j: int|
            0 <= j < rows.len() ==> prefix.is_prefix_of(engine_key(#[trigger] rows[j].key)),
        rows.len() <= pairs.len(),
    decreases pairs.len(),
{
    if pairs.len() > 0 {
        let last = pairs.last();
        let before = pairs.drop_last();
        let listed = listing(before, prefix)->0;
        lemma_listing_is_exact(before, prefix, listed);
        assert forall|j: int| 0 <= j < rows.len() implies is_record_of_some_entry(
            pairs,
            prefix,
            #[trigger] rows[j],
        ) by {
            if j < listed.len() {
                let i = choose|i: int| #[trigger] is_record_of_entry(before, prefix, i, listed[j]);
                assert(is_record_of_entry(pairs, prefix, i, rows[j]));
            } else {
                assert(is_record_of_entry(pairs, prefix, pairs.len() - 1, rows[j]));
            }
        }
        assert forall|i: int|
            0 <= i < pairs.len() && prefix.is_prefix_of(#[trigger] pairs[i].0) implies decoded_pair(
            pairs[i].0,
            pairs[i].1,
        ) is Some && rows.contains(decoded_pair(pairs[i].0, pairs[i].1)->0) by {
            let row = decoded_pair(pairs[i].0, pairs[i].1)->0;
            if i < before.len() {
                assert(prefix.is_prefix_of(before[i].0));
                let j = choose|j: int| 0 <= j < listed.len() && listed[j] == row;
                assert(rows[j] == row);
            } else {
                assert(rows[rows.len() - 1] == row);
            }
        }
        assert forall|j: int| 0 <= j < rows.len() implies prefix.is_prefix_of(
            engine_key(#[trigger] rows[j].key),
        ) by {
            if j >= listed.len() {
                decode_utf8_encode_utf8(last.0);
            }
        }
    }
}

/// The number of the entries of `pairs` whose key starts with `prefix`.
pub open spec fn count_with_prefix(pairs: Seq<(Seq<u8>, Seq<u8>)>, prefix: Seq<u8>) -> nat
    decreases pairs.len(),
{
    if pairs.len() == 0 {
        0
    } else if prefix.is_prefix_of(pairs.last().0) {
        count_with_prefix(pairs.drop_last(), prefix) + 1
    } else {
        count_with_prefix(pairs.drop_last(), prefix)
    }
}

/// A listing holds as many records as there are entries whose key starts
/// with the prefix.
pub proof fn lemma_listing_counts_the_entries(
    pairs: Seq<(Seq<u8>, Seq<u8>)>,
    prefix: Seq<u8>,
    rows: Seq<SettingsDBRowView>,
)
    requires
        listing(pairs, prefix) == Some(rows),
    ensures
        rows.len() == count_with_prefix(pairs, prefix),
    decreases pairs.len(),
{
    if pairs.len() > 0 {
        lemma_listing_counts_the_entries(
            pairs.drop_last(),
            prefix,
            listing(pairs.drop_last(), prefix)->0,
        );
    }
}

/// A listing under a prefix with which no key starts is empty.
pub proof fn lemma_listing_without_match_is_empty(pairs: Seq<(Seq<u8>, Seq<u8>)>, prefix: Seq<u8>)
    requires
        forall|i: int| 0 <= i < pairs.len() ==> !prefix.is_prefix_of(#[trigger] pairs[i].0),
    ensures
        listing(pairs, prefix) == Some(Seq::<SettingsDBRowView>::empty()),
    decreases pairs.len(),
{
    if pairs.len() > 0 {
        let before = pairs.drop_last();
        assert forall|i: int| 0 <= i < before.len() implies !prefix.is_prefix_of(
            #[trigger] before[i].0,
        ) by {}
        lemma_listing_without_match_is_empty(before, prefix);
    }
}

/// The key of every record of a listing starts with the prefix of the
/// listing.
pub proof fn lemma_listed_keys_start_with_the_prefix(
    pairs: Seq<(Seq<u8>, Seq<u8>)>,
    prefix: Seq<char>,
    rows: Seq<SettingsDBRowView>,
)
    requires
        listing(pairs, engine_key(prefix)) == Some(rows),
    ensures
        forall|j: int| 0 <= j < rows.len() ==> prefix.is_prefix_of(#[trigger] rows[j].key),
{
    lemma_listing_is_exact(pairs, engine_key(prefix), rows);
    assert forall|j: int| 0 <= j < rows.len() implies prefix.is_prefix_of(
        #[trigger] rows[j].key,
    ) by {
        lemma_prefix_of_text_and_of_bytes(prefix, rows[j].key);
    }
}

/// A listing of the whole partition holds the record of every key of the
/// partition that starts with the prefix, and a lookup of the key of a
/// listed record finds that record.
pub proof fn lemma_listing_covers_the_partition(
    store: Partition,
    pairs: Seq<(Seq<u8>, Seq<u8>)>,
    prefix: Seq<char>,
    rows: Seq<SettingsDBRowView>,
)
    requires
        enumerates(pairs, store),
        listing(pairs, engine_key(prefix)) == Some(rows),
    ensures
        forall|key: Seq<char>|
            #[trigger] lookup(store, key) is Some && prefix.is_prefix_of(key) ==> record_at(
                store,
                key,
            ) is Some && rows.contains(record_at(store, key)->0),
        forall|j: int|
            0 <= j < rows.len() ==> record_at(store, #[trigger] rows[j].key) == Some(rows[j]),
{
    let wanted = engine_key(prefix);
    lemma_listing_is_exact(pairs, wanted, rows);
    assert forall|key: Seq<char>|
        #[trigger] lookup(store, key) is Some && prefix.is_prefix_of(key) implies record_at(
        store,
        key,
    ) is Some && rows.contains(record_at(store, key)->0) by {
        lemma_prefix_of_text_and_of_bytes(prefix, key);
        lemma_lookup_is_an_entry(store, pairs, key);
        let i = choose|i: int|
            0 <= i < pairs.len() && pairs[i].0 == engine_key(key) && pairs[i].1 == lookup(
                store,
                key,
            )->0 && #[trigger] decoded_pair(pairs[i].0, pairs[i].1) == record_at(store, key);
    }
    assert forall|j: int| 0 <= j < rows.len() implies record_at(store, #[trigger] rows[j].key)
        == Some(rows[j]) by {
        let i = choose|i: int| #[trigger] is_record_of_entry(pairs, wanted, i, rows[j]);
        lemma_entry_is_a_lookup(store, pairs, i);
    }
}

/// What a lookup finds in the partition is one of the entries that list it,
/// and the record of that entry is the record at the key.
proof fn lemma_lookup_is_an_entry(store: Partition, pairs: Seq<(Seq<u8>, Seq<u8>)>, key: Seq<char>)
    requires
        enumerates(pairs, store),
        lookup(store, key) is Some,
    ensures
        exists|i: int|
            0 <= i < pairs.len() && pairs[i].0 == engine_key(key) && pairs[i].1 == lookup(
                store,
                key,
            )->0 && #[trigger] decoded_pair(pairs[i].0, pairs[i].1) == record_at(store, key),
{
    let k = engine_key(key);
    let i = choose|i: int| 0 <= i < pairs.len() && #[trigger] pairs[i].0 == k;
    vstd::utf8::encode_utf8_valid_utf8(key);
    encode_utf8_decode_utf8(key);
    assert(decoded_pair(pairs[i].0, pairs[i].1) == record_at(store, key));
}

/// The record of an entry that lists the partition is the record that the
/// partition holds at the key of that record.
proof fn lemma_entry_is_a_lookup(store: Partition, pairs: Seq<(Seq<u8>, Seq<u8>)>, i: int)
    requires
        enumerates(pairs, store),
        0 <= i < pairs.len(),
        decoded_pair(pairs[i].0, pairs[i].1) is Some,
    ensures
        record_at(store, decoded_pair(pairs[i].0, pairs[i].1)->0.key) == decoded_pair(
            pairs[i].0,
            pairs[i].1,
        ),
{
    decode_utf8_encode_utf8(pairs[i].0);
}

/// A key is among `keys` where it is among all but the last of them or is
/// the last.
proof fn lemma_contains_last_or_before(keys: Seq<Seq<u8>>, key: Seq<u8>)
    requires
        keys.len() > 0,
    ensures
        keys.contains(key) <==> keys.drop_last().contains(key) || key == keys.last(),
{
    let before = keys.drop_last();
    if before.contains(key) {
        let i = choose|i: int| 0 <= i < before.len() && before[i] == key;
        assert(keys[i] == key);
    }
    if keys.contains(key) {
        let i = choose|i: int| 0 <= i < keys.len() && keys[i] == key;
        if i < before.len() {
            assert(before[i] == key);
        }
    }
}

/// A delete removes exactly the keys it names: a key is in the partition
/// afterwards where it was there before and is not one of them, and what is
/// left is stored as it was.
pub proof fn lemma_delete_removes_exactly(store: Partition, keys: Seq<Seq<u8>>)
    ensures
        forall|key: Seq<u8>| #[trigger]
            remove_all(store, keys).contains_key(key) <==> store.contains_key(key)
                && !keys.contains(key),
        forall|key: Seq<u8>| #[trigger]
            remove_all(store, keys).contains_key(key) ==> remove_all(store, keys)[key]
                == store[key],
    decreases keys.len(),
{
    if keys.len() > 0 {
        let before = keys.drop_last();
        lemma_delete_removes_exactly(store, before);
        assert forall|key: Seq<u8>| #[trigger]
            remove_all(store, keys).contains_key(key) <==> store.contains_key(key)
                && !keys.contains(key) by {
            lemma_contains_last_or_before(keys, key);
            assert(remove_all(store, before).contains_key(key) <==> store.contains_key(key)
                && !before.contains(key));
        }
        assert forall|key: Seq<u8>| #[trigger]
            remove_all(store, keys).contains_key(key) implies remove_all(store, keys)[key]
            == store[key] by {
            assert(remove_all(store, before).contains_key(key));
        }
    } else {
        assert forall|key: Seq<u8>| !keys.contains(key) by {}
    }
}

/// After a delete, a lookup of any deleted key finds no record, and a lookup
/// of any other key finds what it found before.
pub proof fn lemma_deleted_keys_are_absent(store: Partition, keys: Seq<Seq<char>>, key: Seq<char>)
    ensures
        keys.contains(key) ==> lookup(remove_all(store, engine_keys(keys)), key) is None,
        keys.contains(key) ==> record_found(
            key,
            lookup(remove_all(store, engine_keys(keys)), key),
        ) == Ok::<Option<SettingsDBRowView>, CustomErrorView>(None),
        !keys.contains(key) ==> lookup(remove_all(store, engine_keys(keys)), key) == lookup(
            store,
            key,
        ),
{
    lemma_delete_removes_exactly(store, engine_keys(keys));
    if keys.contains(key) {
        let i = choose|i: int| 0 <= i < keys.len() && keys[i] == key;
        assert(engine_keys(keys)[i] == engine_key(key));
    } else {
        if engine_keys(keys).contains(engine_key(key)) {
            let i = choose|i: int|
                0 <= i < engine_keys(keys).len() && engine_keys(keys)[i] == engine_key(key);
            lemma_engine_keys_differ(keys[i], key);
        }
    }
}

} // verus!
