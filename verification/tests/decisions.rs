use atoll_core::engine::Record;
use atoll_core::model::{found_or_missing, payloads, presence, vacancy};
use atoll_core::BackendError;

#[test]
fn found_value_is_returned() {
    assert_eq!(found_or_missing(Some(b"value".to_vec())), Ok(b"value".to_vec()));
    assert_eq!(found_or_missing(Some(Vec::new())), Ok(Vec::new()));
}

#[test]
fn nothing_found_is_key_not_found() {
    assert_eq!(found_or_missing(None), Err(BackendError::KvKeyNotFound));
}

#[test]
fn creation_goes_ahead_on_a_missing_key_only() {
    assert_eq!(vacancy(Err(BackendError::KvKeyNotFound)), Ok(()));
    assert_eq!(vacancy(Ok(b"held".to_vec())), Err(BackendError::KvAlreadyExists));
    assert_eq!(vacancy(Ok(Vec::new())), Err(BackendError::KvAlreadyExists));
    assert_eq!(
        vacancy(Err(BackendError::Kv("disk".to_string()))),
        Err(BackendError::Kv("disk".to_string()))
    );
    assert_eq!(vacancy(Err(BackendError::KvUninitialized)), Err(BackendError::KvUninitialized));
}

#[test]
fn update_and_removal_go_ahead_on_a_held_key_only() {
    assert_eq!(presence(Ok(b"held".to_vec())), Ok(()));
    assert_eq!(presence(Err(BackendError::KvKeyNotFound)), Err(BackendError::KvKeyNotFound));
    assert_eq!(
        presence(Err(BackendError::Kv("disk".to_string()))),
        Err(BackendError::Kv("disk".to_string()))
    );
}

#[test]
fn payloads_of_a_scan() {
    let items = vec![
        Some(Record { key: b"a".to_vec(), value: b"1".to_vec() }),
        None,
        Some(Record { key: b"c".to_vec(), value: Vec::new() }),
        Some(Record { key: b"d".to_vec(), value: b"4".to_vec() }),
    ];
    assert_eq!(
        payloads(items),
        vec![b"1".to_vec(), Vec::new(), Vec::new(), b"4".to_vec()]
    );
    assert_eq!(payloads(Vec::new()), Vec::<Vec<u8>>::new());
}
