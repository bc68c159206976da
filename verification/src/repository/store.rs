//! What the storage partition holds, as a map.

use vstd::prelude::*;
use vstd::utf8::encode_utf8;
use crate::models::db::{decoded_row, SettingsDBRowView};

verus! {

/// The content of the partition: the payload stored under each key. A key
/// of the partition is the UTF-8 bytes of the key of a record.
pub type Partition = Map<Seq<u8>, Seq<u8>>;

/// The key of the partition under which the record with the key `key` is
/// stored.
pub open spec fn engine_key(key: Seq<char>) -> Seq<u8> {
    encode_utf8(key)
}

/// What a point lookup of `key` reads from the partition.
pub open spec fn lookup(store: Partition, key: Seq<char>) -> Option<Seq<u8>> {
    if store.contains_key(engine_key(key)) {
        Some(store[engine_key(key)])
    } else {
        None
    }
}

/// The record that the partition holds under `key`, if it holds one there
/// in its stored form.
pub open spec fn record_at(store: Partition, key: Seq<char>) -> Option<SettingsDBRowView> {
    match lookup(store, key) {
        Some(payload) => decoded_row(key, payload),
        None => None,
    }
}

/// The partition after a transaction on `key` has committed `write`: the
/// payload is stored under the key where there is one to write, and nothing
/// changes where there is none.
pub open spec fn commit(store: Partition, key: Seq<char>, write: Option<Seq<u8>>) -> Partition {
    match write {
        Some(payload) => store.insert(engine_key(key), payload),
        None => store,
    }
}

/// The partition after each of `keys` has been removed from it.
pub open spec fn remove_all(store: Partition, keys: Seq<Seq<u8>>) -> Partition
    decreases keys.len(),
{
    if keys.len() == 0 {
        store
    } else {
        remove_all(store, keys.drop_last()).remove(keys.last())
    }
}

/// `pairs` lists the partition: every pair is an entry of it, and every
/// entry of it is one of the pairs.
pub open spec fn enumerates(pairs: Seq<(Seq<u8>, Seq<u8>)>, store: Partition) -> bool {
    &&& forall|i: int|
        0 <= i < pairs.len() ==> store.contains_key(#[trigger] pairs[i].0) && store[pairs[i].0]
            == pairs[i].1
    &&& forall|key: Seq<u8>| #[trigger]
        store.contains_key(key) ==> exists|i: int|
            0 <= i < pairs.len() && #[trigger] pairs[i].0 == key
}

} // verus!
