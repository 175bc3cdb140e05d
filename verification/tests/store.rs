use smart_cache::engine::served_after;
use smart_cache::store::{found_or_absent, lookup, CACHE_TABLE};
use smart_cache::{
    call, get_cached, set_cached, Argument, FnArg, ParamPattern, ParamType, Registration, Served,
    Store, StoreTransactionError,
};

fn open_store(dir: &tempfile::TempDir) -> Store {
    Store::new(redb::Database::create(dir.path().join("cache.redb")).unwrap())
}

#[test]
fn table_is_named_cache() {
    assert_eq!(CACHE_TABLE, "cache");
}

#[test]
fn new_store_holds_nothing() {
    let dir = tempfile::tempdir().unwrap();
    let store = open_store(&dir);
    assert_eq!(get_cached(&store, b"key"), None);
    assert_eq!(lookup(&store, b"key"), Err(StoreTransactionError::Table));
}

#[test]
fn stored_value_is_found_under_its_key() {
    let dir = tempfile::tempdir().unwrap();
    let store = open_store(&dir);
    assert_eq!(set_cached(&store, b"key", b"value"), Ok(()));
    assert_eq!(get_cached(&store, b"key"), Some(b"value".to_vec()));
    assert_eq!(lookup(&store, b"key"), Ok(Some(b"value".to_vec())));
    assert_eq!(get_cached(&store, b"other"), None);
    assert_eq!(lookup(&store, b"other"), Ok(None));
}

#[test]
fn empty_key_and_empty_value_are_stored_like_any_other() {
    let dir = tempfile::tempdir().unwrap();
    let store = open_store(&dir);
    assert_eq!(set_cached(&store, b"", b""), Ok(()));
    assert_eq!(get_cached(&store, b""), Some(vec![]));
}

#[test]
fn second_write_under_a_key_replaces_the_first() {
    let dir = tempfile::tempdir().unwrap();
    let store = open_store(&dir);
    set_cached(&store, b"key", b"first").unwrap();
    set_cached(&store, b"key", b"second").unwrap();
    assert_eq!(get_cached(&store, b"key"), Some(b"second".to_vec()));
}

#[test]
fn stored_value_is_there_after_the_store_was_opened_again() {
    let dir = tempfile::tempdir().unwrap();
    {
        let store = open_store(&dir);
        set_cached(&store, b"key", b"value").unwrap();
    }
    let store = open_store(&dir);
    assert_eq!(get_cached(&store, b"key"), Some(b"value".to_vec()));
}

#[test]
fn store_in_memory_works_like_one_in_a_file() {
    let db = redb::Builder::new()
        .create_with_backend(redb::backends::InMemoryBackend::new())
        .unwrap();
    let store = Store::new(db);
    assert_eq!(get_cached(&store, b"key"), None);
    assert_eq!(set_cached(&store, b"key", b"value"), Ok(()));
    assert_eq!(get_cached(&store, b"key"), Some(b"value".to_vec()));
}

#[test]
fn entry_over_the_limits_is_refused() {
    let dir = tempfile::tempdir().unwrap();
    let store = open_store(&dir);
    let value = vec![0u8; 3 * 1024 * 1024 * 1024 + 1];
    assert_eq!(
        set_cached(&store, b"key", &value),
        Err(StoreTransactionError::Access)
    );
    assert_eq!(get_cached(&store, b"key"), None);
}

#[test]
fn failed_lookup_counts_as_absent() {
    assert_eq!(found_or_absent(Ok(Some(vec![1, 2]))), Some(vec![1, 2]));
    assert_eq!(found_or_absent(Ok(None)), None);
    assert_eq!(found_or_absent(Err(StoreTransactionError::Begin)), None);
    assert_eq!(found_or_absent(Err(StoreTransactionError::Table)), None);
    assert_eq!(found_or_absent(Err(StoreTransactionError::Access)), None);
}

#[test]
fn failed_write_is_swallowed() {
    assert_eq!(served_after(Ok(())), Served::Stored);
    assert_eq!(served_after(Err(StoreTransactionError::Begin)), Served::Unstored);
    assert_eq!(served_after(Err(StoreTransactionError::Table)), Served::Unstored);
    assert_eq!(served_after(Err(StoreTransactionError::Access)), Served::Unstored);
    assert_eq!(served_after(Err(StoreTransactionError::Commit)), Served::Unstored);
}

#[test]
fn call_returns_the_computed_value_where_the_store_takes_nothing() {
    let dir = tempfile::tempdir().unwrap();
    let path = dir.path().join("cache.redb");
    {
        let foreign: redb::TableDefinition<u64, u64> = redb::TableDefinition::new("cache");
        let db = redb::Database::create(&path).unwrap();
        let txn = db.begin_write().unwrap();
        {
            let mut table = txn.open_table(foreign).unwrap();
            table.insert(1, 1).unwrap();
        }
        txn.commit().unwrap();
    }
    let store = Store::new(redb::Database::create(&path).unwrap());
    assert_eq!(set_cached(&store, b"key", b"value"), Err(StoreTransactionError::Table));
    assert_eq!(lookup(&store, b"key"), Err(StoreTransactionError::Table));
    assert_eq!(get_cached(&store, b"key"), None);

    let registration = Registration::register(
        vec![FnArg::Typed {
            pat: ParamPattern::Ident("n".to_string()),
            ty: ParamType::Other("u64".to_string()),
        }],
        "fn inner (n : u64) -> u64 { n * 2 }",
    )
    .unwrap();
    let arguments = vec![Argument::new("n", smart_cache::codec::encode_u64(21))];
    for _ in 0..2 {
        let answer = call(
            &store,
            &registration,
            &arguments,
            |bytes: &Vec<u8>| smart_cache::codec::decode_u64(bytes),
            || 42u64,
            |value: &u64| smart_cache::codec::encode_u64(*value),
        )
        .unwrap();
        assert_eq!(answer.value, 42);
        assert_eq!(answer.served, Served::Unstored);
    }
}
