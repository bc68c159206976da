use std::collections::BTreeMap;

use dynamic_settings::enums::SettingsValueType;
use dynamic_settings::errors::CustomError;
use dynamic_settings::models::{SettingsDBRow, SettingsRequest, UpdateSettingsRequest};
use dynamic_settings::repository::settings::{
    find_record_to_update, update_settings_at, updated_payload,
};
use dynamic_settings::repository::{
    db_create_settings, db_delete_settings_by_keys, db_get_settings, db_get_settings_by_key,
    db_update_settings_by_key,
};
use dynamic_settings::routes::settings::{check_update, new_settings_row};
use dynamic_settings::routes::{
    create_settings, delete_settings, get_settings_by_key, update_settings,
};

/// A stand-in for the storage engine: a sorted map from keys to payloads.
struct Partition {
    entries: BTreeMap<Vec<u8>, Vec<u8>>,
}

impl Partition {
    fn new() -> Partition {
        Partition { entries: BTreeMap::new() }
    }

    fn get(&self, key: &str) -> Option<&[u8]> {
        self.entries.get(key.as_bytes()).map(|payload| payload.as_slice())
    }

    fn prefix(&self, prefix: &str) -> Vec<(Vec<u8>, Vec<u8>)> {
        self.entries
            .iter()
            .filter(|(key, _)| key.starts_with(prefix.as_bytes()))
            .map(|(key, payload)| (key.clone(), payload.clone()))
            .collect()
    }

    fn all(&self) -> Vec<(Vec<u8>, Vec<u8>)> {
        self.prefix("")
    }
}

fn request(key: &str, value: &str, value_type: SettingsValueType) -> SettingsRequest {
    SettingsRequest { key: key.to_string(), value: value.to_string(), value_type }
}

/// Serves a create as a route does: validate, read, decide, write, answer.
fn create(store: &mut Partition, payload: SettingsRequest) -> Result<(u16, String), CustomError> {
    let row = new_settings_row(payload)?;
    let existing = store.get(&row.key).is_some();
    let write = db_create_settings(existing, &row)?;
    let inserted = write.is_some();
    if let Some(bytes) = write {
        store.entries.insert(row.key.as_bytes().to_vec(), bytes);
    }
    create_settings(&row.key, inserted).map(|(status, response)| (status, response.message))
}

/// Serves an update as a route does.
fn update(store: &mut Partition, key: &str, value: &str) -> Result<(u16, String), CustomError> {
    let payload = UpdateSettingsRequest { key: key.to_string(), value: value.to_string() };
    check_update(&payload)?;
    let write = db_update_settings_by_key(key, value, store.get(key))?;
    let updated = write.is_some();
    if let Some(bytes) = write {
        store.entries.insert(key.as_bytes().to_vec(), bytes);
    }
    update_settings(key, updated).map(|(status, response)| (status, response.message))
}

/// Serves a point lookup as a route does.
fn get(store: &Partition, key: &str) -> Result<SettingsDBRow, CustomError> {
    let found = db_get_settings_by_key(key, store.get(key))?;
    get_settings_by_key(key, found)
}

/// Serves a listing as a route does.
fn list(store: &Partition, prefix: &str) -> Result<Vec<SettingsDBRow>, CustomError> {
    db_get_settings(&store.prefix(prefix), prefix)
}

/// Serves a delete as a route does.
fn delete(store: &mut Partition, keys: &[&str]) -> (u16, String) {
    let keys: Vec<String> = keys.iter().map(|key| key.to_string()).collect();
    for key in db_delete_settings_by_keys(&keys) {
        store.entries.remove(&key);
    }
    let (status, response) = delete_settings();
    (status, response.message)
}

/// Returns once the clock shows a moment after `moment`.
fn wait_for_the_clock_to_pass(moment: i64) {
    while chrono::Utc::now().timestamp_micros() <= moment {}
}

fn status_and_message(error: CustomError) -> (u16, String) {
    (error.status_code(), error.message().to_string())
}

#[test]
fn settings_live_from_create_to_delete() {
    let mut store = Partition::new();

    let created = create(&mut store, request("k1", "100", SettingsValueType::Int)).unwrap();
    assert_eq!(created, (201, "Settings with key 'k1' created".to_string()));

    let again = create(&mut store, request("k1", "100", SettingsValueType::Int)).unwrap_err();
    assert_eq!(status_and_message(again), (409, "Settings with key 'k1' already exist".to_string()));
    let first = get(&store, "k1").unwrap();
    assert_eq!(first.value, "100");

    let invalid = update(&mut store, "k1", "abc").unwrap_err();
    assert_eq!(status_and_message(invalid), (422, "Value 'abc' is not a valid integer".to_string()));
    let unchanged = get(&store, "k1").unwrap();
    assert_eq!(unchanged.value, "100");
    assert_eq!(unchanged.updated_at, first.updated_at);

    wait_for_the_clock_to_pass(first.updated_at);
    let updated = update(&mut store, "k1", "200").unwrap();
    assert_eq!(updated, (200, "Settings updated".to_string()));
    let second = get(&store, "k1").unwrap();
    assert_eq!(second.value, "200");
    assert_eq!(second.value_type, SettingsValueType::Int);
    assert_eq!(second.created_at, first.created_at);
    assert!(second.updated_at > first.updated_at);

    assert_eq!(delete(&mut store, &["k1"]), (200, "Settings deleted".to_string()));
    let gone = get(&store, "k1").unwrap_err();
    assert_eq!(status_and_message(gone), (404, "Settings with key 'k1' not found".to_string()));
    assert!(store.entries.is_empty());
}

#[test]
fn a_second_create_of_a_key_keeps_the_first_value() {
    let mut store = Partition::new();
    create(&mut store, request("k1", "first", SettingsValueType::Str)).unwrap();
    let stored = store.entries.clone();
    let second = create(&mut store, request("k1", "second", SettingsValueType::Str)).unwrap_err();
    assert!(matches!(second, CustomError::ConflictError(_)));
    assert_eq!(store.entries, stored);
    assert_eq!(get(&store, "k1").unwrap().value, "first");
    let other_type = create(&mut store, request("k1", "5", SettingsValueType::Int)).unwrap_err();
    assert!(matches!(other_type, CustomError::ConflictError(_)));
    assert_eq!(store.entries, stored);
}

#[test]
fn an_invalid_create_writes_nothing() {
    let mut store = Partition::new();
    let rejected = create(&mut store, request("k1", "abc", SettingsValueType::Int)).unwrap_err();
    assert_eq!(status_and_message(rejected), (422, "Value 'abc' is not a valid integer".to_string()));
    assert!(store.entries.is_empty());
    create(&mut store, request("k1", "1", SettingsValueType::Int)).unwrap();
    let stored = store.entries.clone();
    let rejected = create(&mut store, request("k1", "abc", SettingsValueType::Int)).unwrap_err();
    assert_eq!(rejected.status_code(), 422);
    assert_eq!(store.entries, stored);
}

#[test]
fn a_create_decides_by_what_the_transaction_found() {
    let row = SettingsDBRow::new(request("k1", "100", SettingsValueType::Int), 7);
    assert_eq!(db_create_settings(true, &row).unwrap(), None);
    let payload = db_create_settings(false, &row).unwrap().unwrap();
    let decoded = SettingsDBRow::decode_with_key("k1", &payload).unwrap();
    assert_eq!(decoded.value, "100");
    assert_eq!(decoded.value_type, SettingsValueType::Int);
    assert_eq!((decoded.created_at, decoded.updated_at), (7, 7));
}

#[test]
fn an_update_keeps_the_creation_and_moves_the_update() {
    let current = SettingsDBRow::new(request("k1", "100", SettingsValueType::Int), 1000);
    let stored = current.encode().unwrap();
    let written = update_settings_at("k1", "200", Some(&stored), 2000).unwrap().unwrap();
    let updated = SettingsDBRow::decode_with_key("k1", &written).unwrap();
    assert_eq!(updated.key, "k1");
    assert_eq!(updated.value, "200");
    assert_eq!(updated.value_type, SettingsValueType::Int);
    assert_eq!(updated.created_at, 1000);
    assert_eq!(updated.updated_at, 2000);
    assert!(updated.updated_at > current.updated_at);
    let once_more = update_settings_at("k1", "300", Some(&written), 2001).unwrap().unwrap();
    let updated = SettingsDBRow::decode_with_key("k1", &once_more).unwrap();
    assert_eq!((updated.value.as_str(), updated.created_at, updated.updated_at), ("300", 1000, 2001));
}

#[test]
fn an_update_takes_the_moment_it_is_given() {
    let current = SettingsDBRow::new(request("k1", "100", SettingsValueType::Int), 1000);
    let stored = current.encode().unwrap();
    let written = update_settings_at("k1", "200", Some(&stored), 500).unwrap().unwrap();
    let updated = SettingsDBRow::decode_with_key("k1", &written).unwrap();
    assert_eq!((updated.created_at, updated.updated_at), (1000, 500));
}

#[test]
fn an_update_is_valid_by_the_stored_type() {
    let cases = [
        (SettingsValueType::Int, "100", "200", "2.5"),
        (SettingsValueType::Float, "1.5", "2.5", "two"),
        (SettingsValueType::Bool, "true", "false", "0"),
        (SettingsValueType::Json, "[1]", "{\"a\": [1, 2]}", "{a}"),
    ];
    for (value_type, first, valid, invalid) in cases {
        let stored = SettingsDBRow::new(request("k", first, value_type), 1).encode().unwrap();
        let written = update_settings_at("k", valid, Some(&stored), 2).unwrap().unwrap();
        assert_eq!(SettingsDBRow::decode_with_key("k", &written).unwrap().value, valid);
        let rejected = update_settings_at("k", invalid, Some(&stored), 2).unwrap_err();
        assert!(matches!(rejected, CustomError::ValidationError(_)), "{:?}", value_type);
    }
    let stored = SettingsDBRow::new(request("k", "text", SettingsValueType::Str), 1).encode().unwrap();
    assert!(update_settings_at("k", "{a}", Some(&stored), 2).unwrap().is_some());
}

#[test]
fn an_invalid_update_leaves_the_record_as_it_was() {
    let mut store = Partition::new();
    create(&mut store, request("k1", "100", SettingsValueType::Int)).unwrap();
    let stored = store.entries.clone();
    let rejected = update(&mut store, "k1", "Not int value").unwrap_err();
    assert_eq!(
        status_and_message(rejected),
        (422, "Value 'Not int value' is not a valid integer".to_string())
    );
    assert_eq!(store.entries, stored);
}

#[test]
fn an_update_of_a_missing_key_creates_nothing() {
    let mut store = Partition::new();
    let missing = update(&mut store, "nowhere", "200").unwrap_err();
    assert_eq!(
        status_and_message(missing),
        (404, "Settings with key 'nowhere' not found".to_string())
    );
    assert!(store.entries.is_empty());
    assert_eq!(update_settings_at("nowhere", "200", None, 5).unwrap(), None);
    assert_eq!(db_update_settings_by_key("nowhere", "200", None).unwrap(), None);
}

#[test]
fn an_update_of_a_corrupt_record_is_an_internal_failure() {
    let mut store = Partition::new();
    store.entries.insert(b"k1".to_vec(), b"garbage".to_vec());
    let failed = update(&mut store, "k1", "200").unwrap_err();
    assert_eq!(status_and_message(failed), (500, "Internal Server Error".to_string()));
    assert_eq!(store.entries.get(b"k1".as_slice()).unwrap(), b"garbage");
    let failed = get(&store, "k1").unwrap_err();
    assert_eq!(status_and_message(failed), (500, "Internal Server Error".to_string()));
}

#[test]
fn a_lookup_finds_what_is_stored_under_the_key() {
    let mut store = Partition::new();
    create(&mut store, request("k1", "100", SettingsValueType::Int)).unwrap();
    create(&mut store, request("k2", "true", SettingsValueType::Bool)).unwrap();
    let found = db_get_settings_by_key("k1", store.get("k1")).unwrap().unwrap();
    assert_eq!((found.key.as_str(), found.value.as_str()), ("k1", "100"));
    let found = db_get_settings_by_key("k2", store.get("k2")).unwrap().unwrap();
    assert_eq!((found.key.as_str(), found.value.as_str()), ("k2", "true"));
    assert!(db_get_settings_by_key("k3", store.get("k3")).unwrap().is_none());
    assert!(db_get_settings_by_key("k3", None).unwrap().is_none());
}

#[test]
fn a_listing_holds_exactly_the_keys_with_the_prefix() {
    let mut store = Partition::new();
    for key in ["app.color", "app.size", "apple", "db.host", "db.port", "z"] {
        create(&mut store, request(key, "v", SettingsValueType::Str)).unwrap();
    }
    let keys = |rows: Vec<SettingsDBRow>| rows.into_iter().map(|row| row.key).collect::<Vec<_>>();
    assert_eq!(keys(list(&store, "app.").unwrap()), ["app.color", "app.size"]);
    assert_eq!(keys(list(&store, "app").unwrap()), ["app.color", "app.size", "apple"]);
    assert_eq!(keys(list(&store, "db.port").unwrap()), ["db.port"]);
    assert_eq!(
        keys(list(&store, "").unwrap()),
        ["app.color", "app.size", "apple", "db.host", "db.port", "z"]
    );
    assert!(list(&store, "nothing").unwrap().is_empty());
    assert!(list(&store, "db.ports").unwrap().is_empty());
    assert!(list(&store, "zz").unwrap().is_empty());
}

#[test]
fn a_listing_keeps_only_the_prefix_of_what_it_is_given() {
    let mut store = Partition::new();
    for key in ["b", "a.1", "c", "a.2"] {
        create(&mut store, request(key, key, SettingsValueType::Str)).unwrap();
    }
    let rows = db_get_settings(&store.all(), "a.").unwrap();
    let listed: Vec<(&str, &str)> =
        rows.iter().map(|row| (row.key.as_str(), row.value.as_str())).collect();
    assert_eq!(listed, [("a.1", "a.1"), ("a.2", "a.2")]);
    let unsorted = vec![
        (b"a.2".to_vec(), store.get("a.2").unwrap().to_vec()),
        (b"b".to_vec(), store.get("b").unwrap().to_vec()),
        (b"a.1".to_vec(), store.get("a.1").unwrap().to_vec()),
    ];
    let rows = db_get_settings(&unsorted, "a").unwrap();
    let listed: Vec<&str> = rows.iter().map(|row| row.key.as_str()).collect();
    assert_eq!(listed, ["a.2", "a.1"]);
    assert!(db_get_settings(&Vec::new(), "").unwrap().is_empty());
}

#[test]
fn a_listing_fails_on_a_corrupt_entry_with_the_prefix_only() {
    let mut store = Partition::new();
    create(&mut store, request("good", "1", SettingsValueType::Int)).unwrap();
    store.entries.insert(b"bad".to_vec(), b"garbage".to_vec());
    store.entries.insert(vec![b'x', 0xff], store.get("good").unwrap().to_vec());
    assert_eq!(list(&store, "g").unwrap().len(), 1);
    let failed = db_get_settings(&store.all(), "").unwrap_err();
    assert_eq!(status_and_message(failed), (500, "Internal Server Error".to_string()));
    let failed = db_get_settings(&store.all(), "b").unwrap_err();
    assert!(matches!(failed, CustomError::InternalError(_)));
    let failed = db_get_settings(&store.all(), "x").unwrap_err();
    assert!(matches!(failed, CustomError::InternalError(_)));
}

#[test]
fn a_delete_removes_the_named_keys_and_no_other() {
    let mut store = Partition::new();
    for key in ["k1", "k2", "k3", "k10"] {
        create(&mut store, request(key, "1", SettingsValueType::Int)).unwrap();
    }
    let kept = store.get("k3").unwrap().to_vec();
    delete(&mut store, &["k1", "missing", "k2", "k1"]);
    assert!(matches!(get(&store, "k1"), Err(CustomError::NotFoundError(_))));
    assert!(matches!(get(&store, "k2"), Err(CustomError::NotFoundError(_))));
    assert!(db_get_settings_by_key("k1", store.get("k1")).unwrap().is_none());
    assert_eq!(store.get("k3").unwrap(), kept.as_slice());
    assert_eq!(get(&store, "k10").unwrap().value, "1");
    assert_eq!(store.entries.len(), 2);
    delete(&mut store, &[]);
    assert_eq!(store.entries.len(), 2);
}

#[test]
fn a_delete_asks_for_the_bytes_of_each_key_in_order() {
    let keys = vec!["b".to_string(), "é".to_string(), "".to_string(), "b".to_string()];
    let removals = db_delete_settings_by_keys(&keys);
    assert_eq!(removals, vec![b"b".to_vec(), vec![0xc3, 0xa9], Vec::new(), b"b".to_vec()]);
    assert!(db_delete_settings_by_keys(&Vec::new()).is_empty());
}

#[test]
fn a_deleted_key_can_be_created_again() {
    let mut store = Partition::new();
    create(&mut store, request("k1", "1", SettingsValueType::Int)).unwrap();
    delete(&mut store, &["k1"]);
    let created = create(&mut store, request("k1", "true", SettingsValueType::Bool)).unwrap();
    assert_eq!(created.0, 201);
    let found = get(&store, "k1").unwrap();
    assert_eq!((found.value.as_str(), found.value_type), ("true", SettingsValueType::Bool));
}

#[test]
fn keys_of_every_valid_length_are_stored() {
    let mut store = Partition::new();
    let longest = "k".repeat(1024);
    assert_eq!(create(&mut store, request(&longest, "1", SettingsValueType::Int)).unwrap().0, 201);
    assert_eq!(get(&store, &longest).unwrap().key, longest);
    let too_long = "k".repeat(1025);
    let rejected = create(&mut store, request(&too_long, "1", SettingsValueType::Int)).unwrap_err();
    assert_eq!(rejected.status_code(), 422);
    let rejected = create(&mut store, request("", "1", SettingsValueType::Int)).unwrap_err();
    assert_eq!(rejected.status_code(), 422);
    assert_eq!(store.entries.len(), 1);
}

#[test]
fn the_first_step_of_an_update_finds_the_record_or_the_reason_not_to_write() {
    let stored = SettingsDBRow::new(request("k1", "100", SettingsValueType::Int), 7).encode().unwrap();
    let current = find_record_to_update("k1", "200", Some(&stored)).unwrap().unwrap();
    assert_eq!((current.key.as_str(), current.value.as_str()), ("k1", "100"));
    assert_eq!((current.created_at, current.updated_at), (7, 7));
    assert!(find_record_to_update("k1", "200", None).unwrap().is_none());
    assert!(find_record_to_update("k1", "not a number", None).unwrap().is_none());
    let invalid = find_record_to_update("k1", "2.0", Some(&stored)).unwrap_err();
    assert_eq!(status_and_message(invalid), (422, "Value '2.0' is not a valid integer".to_string()));
    let corrupt = find_record_to_update("k1", "200", Some(b"garbage")).unwrap_err();
    assert_eq!(status_and_message(corrupt), (500, "Internal Server Error".to_string()));
    let corrupt = find_record_to_update("k1", "not a number", Some(b"garbage")).unwrap_err();
    assert_eq!(corrupt.status_code(), 500);
}

#[test]
fn the_second_step_of_an_update_writes_the_new_value_and_moment() {
    let current = SettingsDBRow::new(request("k1", "100", SettingsValueType::Int), 7);
    let payload = updated_payload(&current, "200", 9).unwrap();
    let updated = SettingsDBRow::decode_with_key("k1", &payload).unwrap();
    assert_eq!((updated.value.as_str(), updated.created_at, updated.updated_at), ("200", 7, 9));
    assert_eq!(updated.value_type, SettingsValueType::Int);
}

#[test]
fn a_prefix_is_a_prefix_of_characters() {
    let mut store = Partition::new();
    for key in ["é", "é1", "e1", "éé", "ê", "e", "ée"] {
        create(&mut store, request(key, key, SettingsValueType::Str)).unwrap();
    }
    let keys = |rows: Vec<SettingsDBRow>| rows.into_iter().map(|row| row.key).collect::<Vec<_>>();
    let listed = keys(db_get_settings(&store.all(), "é").unwrap());
    let expected: Vec<String> = store
        .all()
        .iter()
        .map(|(key, _)| String::from_utf8(key.clone()).unwrap())
        .filter(|key| key.starts_with("é"))
        .collect();
    assert_eq!(listed, expected);
    assert_eq!(listed.len(), 4);
    assert_eq!(keys(db_get_settings(&store.all(), "e").unwrap()), ["e", "e1"]);
    assert_eq!(keys(db_get_settings(&store.all(), "éé").unwrap()), ["éé"]);
    assert!(db_get_settings(&store.all(), "è").unwrap().is_empty());
}

#[test]
fn a_create_on_a_fresh_key_writes_the_payload_of_the_record() {
    let row = SettingsDBRow::new(request("k1", "100", SettingsValueType::Int), 7);
    let write = db_create_settings(false, &row).unwrap();
    assert_eq!(write, Some(row.encode().unwrap()));
    let longest = SettingsDBRow::new(request("k", &"1".repeat(4194304), SettingsValueType::Str), 7);
    assert!(db_create_settings(false, &longest).unwrap().is_some());
}

#[test]
fn a_valid_update_writes_the_payload_of_the_updated_record() {
    let current = SettingsDBRow::new(request("k1", "100", SettingsValueType::Int), 7);
    let stored = current.encode().unwrap();
    let write = update_settings_at("k1", "200", Some(&stored), 9).unwrap();
    assert_eq!(write, Some(current.with_value("200", 9).encode().unwrap()));
    assert_eq!(updated_payload(&current, "200", 9).unwrap(), write.unwrap());
    assert!(db_update_settings_by_key("k1", "200", Some(&stored)).unwrap().is_some());
}
