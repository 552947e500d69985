use atoll_core::{BackendError, DbState, Kv, Namespace, PROJECTS_DB, PUBLISHERS_DB};

fn fresh_dir(tag: &str) -> String {
    let nanos = match std::time::SystemTime::now().duration_since(std::time::UNIX_EPOCH) {
        Ok(elapsed) => elapsed.as_nanos(),
        Err(_) => 0,
    };
    format!("/tmp/atoll_core_tests/{}_{}", tag, nanos)
}

fn fresh_kv(tag: &str) -> Kv {
    let mut kv = Kv::new();
    assert_eq!(DbState::init(&mut kv, &fresh_dir(tag)), Ok(()));
    kv
}

fn is_engine_failure<T>(r: &Result<T, BackendError>) -> bool {
    matches!(r, Err(BackendError::Kv(_)))
}

#[test]
fn read_after_create_returns_value() {
    let mut kv = fresh_kv("read_after_create");
    assert_eq!(DbState::create(&mut kv, PROJECTS_DB, "atoll", b"first"), Ok(()));
    assert_eq!(DbState::read(&kv, PROJECTS_DB, "atoll"), Ok(b"first".to_vec()));
}

#[test]
fn read_missing_key_is_not_found() {
    let kv = fresh_kv("read_missing");
    assert_eq!(DbState::read(&kv, PROJECTS_DB, "nothing"), Err(BackendError::KvKeyNotFound));
    assert_eq!(DbState::read(&kv, PUBLISHERS_DB, "nothing"), Err(BackendError::KvKeyNotFound));
}

#[test]
fn second_create_fails_and_keeps_first_value() {
    let mut kv = fresh_kv("second_create");
    assert_eq!(DbState::create(&mut kv, PUBLISHERS_DB, "key", b"one"), Ok(()));
    assert_eq!(
        DbState::create(&mut kv, PUBLISHERS_DB, "key", b"two"),
        Err(BackendError::KvAlreadyExists)
    );
    assert_eq!(DbState::read(&kv, PUBLISHERS_DB, "key"), Ok(b"one".to_vec()));
}

#[test]
fn create_of_same_value_still_fails() {
    let mut kv = fresh_kv("create_same_value");
    assert_eq!(DbState::create(&mut kv, PROJECTS_DB, "key", b"same"), Ok(()));
    assert_eq!(
        DbState::create(&mut kv, PROJECTS_DB, "key", b"same"),
        Err(BackendError::KvAlreadyExists)
    );
}

#[test]
fn update_of_missing_key_fails_and_creates_nothing() {
    let mut kv = fresh_kv("update_missing");
    assert_eq!(
        DbState::update(&mut kv, PROJECTS_DB, "ghost", b"value"),
        Err(BackendError::KvKeyNotFound)
    );
    assert_eq!(DbState::read(&kv, PROJECTS_DB, "ghost"), Err(BackendError::KvKeyNotFound));
    assert_eq!(DbState::values(&kv, PROJECTS_DB), Ok(Vec::<Vec<u8>>::new()));
}

#[test]
fn remove_of_missing_key_fails_and_creates_nothing() {
    let mut kv = fresh_kv("remove_missing");
    assert_eq!(DbState::remove(&mut kv, PROJECTS_DB, "ghost"), Err(BackendError::KvKeyNotFound));
    assert_eq!(DbState::read(&kv, PROJECTS_DB, "ghost"), Err(BackendError::KvKeyNotFound));
    assert_eq!(DbState::values(&kv, PROJECTS_DB), Ok(Vec::<Vec<u8>>::new()));
}

#[test]
fn update_replaces_the_whole_value() {
    let mut kv = fresh_kv("update_replaces");
    assert_eq!(DbState::create(&mut kv, PROJECTS_DB, "key", b"a long first value"), Ok(()));
    assert_eq!(DbState::update(&mut kv, PROJECTS_DB, "key", b"short"), Ok(()));
    assert_eq!(DbState::read(&kv, PROJECTS_DB, "key"), Ok(b"short".to_vec()));
    assert_eq!(DbState::values(&kv, PROJECTS_DB), Ok(vec![b"short".to_vec()]));
}

#[test]
fn update_to_empty_value_keeps_the_key() {
    let mut kv = fresh_kv("update_empty");
    assert_eq!(DbState::create(&mut kv, PROJECTS_DB, "key", b"value"), Ok(()));
    assert_eq!(DbState::update(&mut kv, PROJECTS_DB, "key", b""), Ok(()));
    assert_eq!(DbState::read(&kv, PROJECTS_DB, "key"), Ok(Vec::new()));
    assert_eq!(
        DbState::create(&mut kv, PROJECTS_DB, "key", b"again"),
        Err(BackendError::KvAlreadyExists)
    );
}

#[test]
fn purge_of_missing_key_succeeds_and_touches_nothing() {
    let mut kv = fresh_kv("purge_missing");
    assert_eq!(DbState::create(&mut kv, PROJECTS_DB, "kept", b"value"), Ok(()));
    assert_eq!(DbState::purge(&mut kv, PROJECTS_DB, "never"), Ok(()));
    assert_eq!(DbState::read(&kv, PROJECTS_DB, "kept"), Ok(b"value".to_vec()));
    assert_eq!(DbState::read(&kv, PROJECTS_DB, "never"), Err(BackendError::KvKeyNotFound));
    assert_eq!(DbState::values(&kv, PROJECTS_DB), Ok(vec![b"value".to_vec()]));
}

#[test]
fn purge_is_idempotent() {
    let mut kv = fresh_kv("purge_twice");
    assert_eq!(DbState::create(&mut kv, PROJECTS_DB, "key", b"value"), Ok(()));
    assert_eq!(DbState::purge(&mut kv, PROJECTS_DB, "key"), Ok(()));
    assert_eq!(DbState::read(&kv, PROJECTS_DB, "key"), Err(BackendError::KvKeyNotFound));
    assert_eq!(DbState::purge(&mut kv, PROJECTS_DB, "key"), Ok(()));
    assert_eq!(DbState::read(&kv, PROJECTS_DB, "key"), Err(BackendError::KvKeyNotFound));
}

#[test]
fn remove_deletes_and_second_remove_fails() {
    let mut kv = fresh_kv("remove_twice");
    assert_eq!(DbState::create(&mut kv, PROJECTS_DB, "key", b"value"), Ok(()));
    assert_eq!(DbState::remove(&mut kv, PROJECTS_DB, "key"), Ok(()));
    assert_eq!(DbState::read(&kv, PROJECTS_DB, "key"), Err(BackendError::KvKeyNotFound));
    assert_eq!(DbState::remove(&mut kv, PROJECTS_DB, "key"), Err(BackendError::KvKeyNotFound));
}

#[test]
fn remove_leaves_other_keys() {
    let mut kv = fresh_kv("remove_others");
    assert_eq!(DbState::create(&mut kv, PROJECTS_DB, "a", b"1"), Ok(()));
    assert_eq!(DbState::create(&mut kv, PROJECTS_DB, "ab", b"2"), Ok(()));
    assert_eq!(DbState::create(&mut kv, PROJECTS_DB, "abc", b"3"), Ok(()));
    assert_eq!(DbState::remove(&mut kv, PROJECTS_DB, "ab"), Ok(()));
    assert_eq!(DbState::read(&kv, PROJECTS_DB, "a"), Ok(b"1".to_vec()));
    assert_eq!(DbState::read(&kv, PROJECTS_DB, "ab"), Err(BackendError::KvKeyNotFound));
    assert_eq!(DbState::read(&kv, PROJECTS_DB, "abc"), Ok(b"3".to_vec()));
}

#[test]
fn create_after_remove_succeeds() {
    let mut kv = fresh_kv("create_after_remove");
    assert_eq!(DbState::create(&mut kv, PROJECTS_DB, "key", b"one"), Ok(()));
    assert_eq!(DbState::remove(&mut kv, PROJECTS_DB, "key"), Ok(()));
    assert_eq!(DbState::create(&mut kv, PROJECTS_DB, "key", b"two"), Ok(()));
    assert_eq!(DbState::read(&kv, PROJECTS_DB, "key"), Ok(b"two".to_vec()));
}

#[test]
fn of_two_creates_exactly_one_succeeds_in_either_order() {
    let mut kv = fresh_kv("two_creates");
    let first = DbState::create(&mut kv, PROJECTS_DB, "left", b"A");
    let second = DbState::create(&mut kv, PROJECTS_DB, "left", b"B");
    assert_eq!(first, Ok(()));
    assert_eq!(second, Err(BackendError::KvAlreadyExists));
    assert_eq!(DbState::read(&kv, PROJECTS_DB, "left"), Ok(b"A".to_vec()));

    let first = DbState::create(&mut kv, PROJECTS_DB, "right", b"B");
    let second = DbState::create(&mut kv, PROJECTS_DB, "right", b"A");
    assert_eq!(first, Ok(()));
    assert_eq!(second, Err(BackendError::KvAlreadyExists));
    assert_eq!(DbState::read(&kv, PROJECTS_DB, "right"), Ok(b"B".to_vec()));
}

#[test]
fn values_holds_exactly_the_created_values() {
    let mut kv = fresh_kv("values_exact");
    assert_eq!(DbState::create(&mut kv, PROJECTS_DB, "k1", b"v1"), Ok(()));
    assert_eq!(DbState::create(&mut kv, PROJECTS_DB, "k2", b"v2"), Ok(()));
    assert_eq!(DbState::create(&mut kv, PUBLISHERS_DB, "other", b"elsewhere"), Ok(()));
    let mut values = DbState::values(&kv, PROJECTS_DB).unwrap();
    values.sort();
    assert_eq!(values, vec![b"v1".to_vec(), b"v2".to_vec()]);
    assert_eq!(DbState::values(&kv, PUBLISHERS_DB), Ok(vec![b"elsewhere".to_vec()]));
}

#[test]
fn values_of_empty_namespace_is_empty() {
    let kv = fresh_kv("values_empty");
    assert_eq!(DbState::values(&kv, PROJECTS_DB), Ok(Vec::<Vec<u8>>::new()));
    assert_eq!(DbState::values(&kv, PUBLISHERS_DB), Ok(Vec::<Vec<u8>>::new()));
}

#[test]
fn values_come_in_ascending_order_of_keys() {
    let mut kv = fresh_kv("values_order");
    for (key, value) in [
        ("b", "4"),
        ("abc", "3"),
        ("a", "1"),
        ("ab", "2"),
        ("ba", "5"),
        ("z", "7"),
        ("c\u{e9}", "6"),
        ("B", "0"),
    ] {
        assert_eq!(DbState::create(&mut kv, PROJECTS_DB, key, value.as_bytes()), Ok(()));
    }
    let expected: Vec<Vec<u8>> =
        ["0", "1", "2", "3", "4", "5", "6", "7"].iter().map(|v| v.as_bytes().to_vec()).collect();
    assert_eq!(DbState::values(&kv, PROJECTS_DB), Ok(expected));
}

#[test]
fn values_keeps_duplicated_payloads() {
    let mut kv = fresh_kv("values_duplicates");
    assert_eq!(DbState::create(&mut kv, PROJECTS_DB, "one", b"same"), Ok(()));
    assert_eq!(DbState::create(&mut kv, PROJECTS_DB, "two", b"same"), Ok(()));
    assert_eq!(
        DbState::values(&kv, PROJECTS_DB),
        Ok(vec![b"same".to_vec(), b"same".to_vec()])
    );
}

#[test]
fn values_after_remove_and_update() {
    let mut kv = fresh_kv("values_after_changes");
    assert_eq!(DbState::create(&mut kv, PROJECTS_DB, "a", b"1"), Ok(()));
    assert_eq!(DbState::create(&mut kv, PROJECTS_DB, "b", b"2"), Ok(()));
    assert_eq!(DbState::create(&mut kv, PROJECTS_DB, "c", b"3"), Ok(()));
    assert_eq!(DbState::remove(&mut kv, PROJECTS_DB, "b"), Ok(()));
    assert_eq!(DbState::update(&mut kv, PROJECTS_DB, "c", b"33"), Ok(()));
    assert_eq!(DbState::values(&kv, PROJECTS_DB), Ok(vec![b"1".to_vec(), b"33".to_vec()]));
}

#[test]
fn namespaces_are_independent() {
    let mut kv = fresh_kv("independent");
    assert_eq!(DbState::create(&mut kv, PUBLISHERS_DB, "key", b"publisher"), Ok(()));
    assert_eq!(DbState::read(&kv, PROJECTS_DB, "key"), Err(BackendError::KvKeyNotFound));
    assert_eq!(DbState::create(&mut kv, PROJECTS_DB, "key", b"project"), Ok(()));
    assert_eq!(DbState::read(&kv, PUBLISHERS_DB, "key"), Ok(b"publisher".to_vec()));
    assert_eq!(DbState::read(&kv, PROJECTS_DB, "key"), Ok(b"project".to_vec()));
    assert_eq!(DbState::remove(&mut kv, PUBLISHERS_DB, "key"), Ok(()));
    assert_eq!(DbState::read(&kv, PROJECTS_DB, "key"), Ok(b"project".to_vec()));
}

#[test]
fn unknown_name_addresses_the_projects() {
    let mut kv = fresh_kv("unknown_name");
    assert_eq!(DbState::create(&mut kv, "NOWHERE", "key", b"value"), Ok(()));
    assert_eq!(DbState::read(&kv, PROJECTS_DB, "key"), Ok(b"value".to_vec()));
    assert_eq!(DbState::read(&kv, "", "key"), Ok(b"value".to_vec()));
    assert_eq!(DbState::read(&kv, "publishers", "key"), Ok(b"value".to_vec()));
    assert_eq!(DbState::read(&kv, "PUBLISHERS ", "key"), Ok(b"value".to_vec()));
    assert_eq!(DbState::read(&kv, PUBLISHERS_DB, "key"), Err(BackendError::KvKeyNotFound));
}

#[test]
fn names_of_the_namespaces() {
    assert_eq!(PUBLISHERS_DB, "PUBLISHERS");
    assert_eq!(PROJECTS_DB, "PROJECTS");
    assert!(DbState::is_publishers("PUBLISHERS"));
    assert!(!DbState::is_publishers("PROJECTS"));
    assert!(!DbState::is_publishers("PUBLISHER"));
    assert!(!DbState::is_publishers("PUBLISHERSS"));
    assert!(!DbState::is_publishers("PUBLISHERs"));
    assert!(!DbState::is_publishers(""));
}

#[test]
fn second_init_fails_and_data_stays() {
    let base = fresh_dir("second_init");
    let mut kv = Kv::new();
    assert_eq!(DbState::init(&mut kv, &base), Ok(()));
    assert_eq!(DbState::create(&mut kv, PUBLISHERS_DB, "key", b"value"), Ok(()));
    assert_eq!(DbState::init(&mut kv, &base), Err(BackendError::KvAlreadyInitialized));
    assert_eq!(DbState::init(&mut kv, &fresh_dir("second_init_other")), Err(BackendError::KvAlreadyInitialized));
    assert_eq!(DbState::read(&kv, PUBLISHERS_DB, "key"), Ok(b"value".to_vec()));
    assert_eq!(DbState::create(&mut kv, PUBLISHERS_DB, "more", b"later"), Ok(()));
    assert_eq!(DbState::read(&kv, PUBLISHERS_DB, "more"), Ok(b"later".to_vec()));
}

#[test]
fn operations_before_init_are_refused() {
    let mut kv = Kv::new();
    assert!(matches!(DbState::get_store(&kv), Err(BackendError::KvUninitialized)));
    assert_eq!(DbState::read(&kv, PROJECTS_DB, "key"), Err(BackendError::KvUninitialized));
    assert_eq!(DbState::values(&kv, PROJECTS_DB), Err(BackendError::KvUninitialized));
    assert_eq!(
        DbState::create(&mut kv, PROJECTS_DB, "key", b"value"),
        Err(BackendError::KvUninitialized)
    );
    assert_eq!(
        DbState::update(&mut kv, PROJECTS_DB, "key", b"value"),
        Err(BackendError::KvUninitialized)
    );
    assert_eq!(DbState::remove(&mut kv, PROJECTS_DB, "key"), Err(BackendError::KvUninitialized));
    assert_eq!(DbState::purge(&mut kv, PROJECTS_DB, "key"), Err(BackendError::KvUninitialized));
}

#[test]
fn get_store_after_init_hands_out_the_namespaces() {
    let mut kv = fresh_kv("get_store");
    assert_eq!(DbState::create(&mut kv, PUBLISHERS_DB, "key", b"value"), Ok(()));
    let state = DbState::get_store(&kv).unwrap();
    assert_eq!(state.get_db(PUBLISHERS_DB).read("key"), Ok(b"value".to_vec()));
    assert_eq!(state.get_db(PROJECTS_DB).read("key"), Err(BackendError::KvKeyNotFound));
    assert_eq!(state.get_db("anything else").read("key"), Err(BackendError::KvKeyNotFound));
}

#[test]
fn init_that_cannot_open_leaves_the_slot_empty() {
    let mut kv = Kv::new();
    let r = DbState::init(&mut kv, "/dev/null/not_a_directory");
    assert!(is_engine_failure(&r));
    assert_eq!(DbState::read(&kv, PROJECTS_DB, "key"), Err(BackendError::KvUninitialized));
    assert_eq!(DbState::init(&mut kv, &fresh_dir("init_retry")), Ok(()));
    assert_eq!(DbState::read(&kv, PROJECTS_DB, "key"), Err(BackendError::KvKeyNotFound));
}

#[test]
fn empty_key_is_refused_by_the_engine() {
    let mut kv = fresh_kv("empty_key");
    assert!(is_engine_failure(&DbState::read(&kv, PROJECTS_DB, "")));
    assert!(is_engine_failure(&DbState::create(&mut kv, PROJECTS_DB, "", b"value")));
    assert!(is_engine_failure(&DbState::update(&mut kv, PROJECTS_DB, "", b"value")));
    assert!(is_engine_failure(&DbState::remove(&mut kv, PROJECTS_DB, "")));
    assert!(is_engine_failure(&DbState::purge(&mut kv, PROJECTS_DB, "")));
    assert_eq!(DbState::values(&kv, PROJECTS_DB), Ok(Vec::<Vec<u8>>::new()));
    assert_eq!(
        DbState::read(&kv, PROJECTS_DB, ""),
        Err(BackendError::Kv("Empty key".to_string()))
    );
}

#[test]
fn large_values_come_back_whole() {
    let mut kv = fresh_kv("large_values");
    let large: Vec<u8> = (0..100_000u32).map(|i| (i % 251) as u8).collect();
    let other: Vec<u8> = (0..5_000u32).map(|i| (i % 7) as u8).collect();
    assert_eq!(DbState::create(&mut kv, PROJECTS_DB, "large", &large), Ok(()));
    assert_eq!(DbState::create(&mut kv, PROJECTS_DB, "other", &other), Ok(()));
    assert_eq!(DbState::read(&kv, PROJECTS_DB, "large"), Ok(large.clone()));
    assert_eq!(DbState::values(&kv, PROJECTS_DB), Ok(vec![large, other.clone()]));
    assert_eq!(DbState::update(&mut kv, PROJECTS_DB, "large", b"small"), Ok(()));
    assert_eq!(DbState::values(&kv, PROJECTS_DB), Ok(vec![b"small".to_vec(), other]));
}

#[test]
fn keys_are_whole_strings() {
    let mut kv = fresh_kv("whole_keys");
    assert_eq!(DbState::create(&mut kv, PROJECTS_DB, "project", b"1"), Ok(()));
    assert_eq!(DbState::read(&kv, PROJECTS_DB, "proj"), Err(BackendError::KvKeyNotFound));
    assert_eq!(DbState::read(&kv, PROJECTS_DB, "project "), Err(BackendError::KvKeyNotFound));
    assert_eq!(DbState::read(&kv, PROJECTS_DB, "Project"), Err(BackendError::KvKeyNotFound));
    assert_eq!(DbState::create(&mut kv, PROJECTS_DB, "proj", b"2"), Ok(()));
    assert_eq!(DbState::read(&kv, PROJECTS_DB, "project"), Ok(b"1".to_vec()));
    assert_eq!(DbState::read(&kv, PROJECTS_DB, "proj"), Ok(b"2".to_vec()));
    assert_eq!(DbState::create(&mut kv, PROJECTS_DB, "\u{1F30A} atoll", b"3"), Ok(()));
    assert_eq!(DbState::read(&kv, PROJECTS_DB, "\u{1F30A} atoll"), Ok(b"3".to_vec()));
}

#[test]
fn records_outlive_the_handle() {
    let base = fresh_dir("reopen");
    {
        let mut kv = Kv::new();
        assert_eq!(DbState::init(&mut kv, &base), Ok(()));
        assert_eq!(DbState::create(&mut kv, PUBLISHERS_DB, "kept", b"value"), Ok(()));
        assert_eq!(DbState::create(&mut kv, PROJECTS_DB, "gone", b"value"), Ok(()));
        assert_eq!(DbState::remove(&mut kv, PROJECTS_DB, "gone"), Ok(()));
    }
    let mut kv = Kv::new();
    assert_eq!(DbState::init(&mut kv, &base), Ok(()));
    assert_eq!(DbState::read(&kv, PUBLISHERS_DB, "kept"), Ok(b"value".to_vec()));
    assert_eq!(DbState::read(&kv, PROJECTS_DB, "gone"), Err(BackendError::KvKeyNotFound));
    assert_eq!(
        DbState::create(&mut kv, PUBLISHERS_DB, "kept", b"again"),
        Err(BackendError::KvAlreadyExists)
    );
}

#[test]
fn namespaces_lie_below_the_base_directory() {
    let base = fresh_dir("layout");
    {
        let mut kv = Kv::new();
        assert_eq!(DbState::init(&mut kv, &base), Ok(()));
        assert_eq!(DbState::create(&mut kv, PUBLISHERS_DB, "p", b"publisher"), Ok(()));
        assert_eq!(DbState::create(&mut kv, PROJECTS_DB, "q", b"project"), Ok(()));
    }
    let publishers = Namespace::open(&format!("{}/DATABASE/PUBLISHERS", base)).unwrap();
    assert_eq!(publishers.values(), Ok(vec![b"publisher".to_vec()]));
    drop(publishers);
    let projects = DbState::store_ops(&base, PROJECTS_DB).unwrap();
    assert_eq!(projects.values(), Ok(vec![b"project".to_vec()]));
}

#[test]
fn a_namespace_alone_does_what_the_handle_does() {
    let mut namespace = Namespace::open(&fresh_dir("alone")).unwrap();
    assert_eq!(namespace.read("k"), Err(BackendError::KvKeyNotFound));
    assert_eq!(namespace.update("k", b"v"), Err(BackendError::KvKeyNotFound));
    assert_eq!(namespace.remove("k"), Err(BackendError::KvKeyNotFound));
    assert_eq!(namespace.purge("k"), Ok(()));
    assert_eq!(namespace.create("k", b"v"), Ok(()));
    assert_eq!(namespace.create("k", b"w"), Err(BackendError::KvAlreadyExists));
    assert_eq!(namespace.update("k", b"w"), Ok(()));
    assert_eq!(namespace.read("k"), Ok(b"w".to_vec()));
    assert_eq!(namespace.values(), Ok(vec![b"w".to_vec()]));
    assert_eq!(namespace.remove("k"), Ok(()));
    assert_eq!(namespace.values(), Ok(Vec::<Vec<u8>>::new()));
}

#[test]
fn many_records() {
    let mut kv = fresh_kv("many");
    for i in 0..300u32 {
        let key = format!("key{:04}", i);
        assert_eq!(DbState::create(&mut kv, PROJECTS_DB, &key, &i.to_be_bytes()), Ok(()));
    }
    for i in (0..300u32).step_by(3) {
        assert_eq!(DbState::remove(&mut kv, PROJECTS_DB, &format!("key{:04}", i)), Ok(()));
    }
    let expected: Vec<Vec<u8>> =
        (0..300u32).filter(|i| i % 3 != 0).map(|i| i.to_be_bytes().to_vec()).collect();
    assert_eq!(DbState::values(&kv, PROJECTS_DB), Ok(expected));
    assert_eq!(DbState::read(&kv, PROJECTS_DB, "key0003"), Err(BackendError::KvKeyNotFound));
    assert_eq!(DbState::read(&kv, PROJECTS_DB, "key0004"), Ok(4u32.to_be_bytes().to_vec()));
}
