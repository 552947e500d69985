use atoll_core::utils::{INTERNAL_ERROR, INTERNAL_SERVER_ERROR};
use atoll_core::{BackendError, BackendResult, JsonResponse, Outcome, REST_ENDPOINT};

#[test]
fn decoded_record_is_the_answer() {
    let decoded: Result<u32, String> = Ok(7);
    assert_eq!(Outcome::decoded(decoded), Outcome::Success(Some(7)));
}

#[test]
fn undecodable_payload_is_an_internal_error() {
    let decoded: Result<u32, String> = Err("truncated".to_string());
    assert_eq!(Outcome::decoded(decoded), Outcome::Failure("Internal Error".to_string()));
}

#[test]
fn missing_key_is_an_answer() {
    assert_eq!(Outcome::<u32>::unread(BackendError::KvKeyNotFound), Outcome::Success(None));
}

#[test]
fn other_failures_are_internal_server_errors() {
    for error in [
        BackendError::Kv("disk".to_string()),
        BackendError::KvUninitialized,
        BackendError::KvAlreadyInitialized,
        BackendError::KvAlreadyExists,
        BackendError::PermissionDenied,
        BackendError::JsonDeserialize,
        BackendError::BincodeError,
    ] {
        assert_eq!(
            Outcome::<u32>::unread(error),
            Outcome::Failure("Internal Server Error".to_string())
        );
    }
}

#[test]
fn listing_of_records() {
    let scanned: BackendResult<Vec<Option<u32>>> = Ok(vec![Some(3), Some(1), Some(2)]);
    assert_eq!(Outcome::listed(scanned), Outcome::Success(vec![3, 1, 2]));
    let empty: BackendResult<Vec<Option<u32>>> = Ok(Vec::new());
    assert_eq!(Outcome::listed(empty), Outcome::Success(Vec::<u32>::new()));
}

#[test]
fn listing_with_an_undecodable_payload_fails() {
    let scanned: BackendResult<Vec<Option<u32>>> = Ok(vec![Some(3), None, Some(2)]);
    assert_eq!(Outcome::listed(scanned), Outcome::Failure("Internal Server Error".to_string()));
    let last: BackendResult<Vec<Option<u32>>> = Ok(vec![Some(3), Some(2), None]);
    assert_eq!(Outcome::listed(last), Outcome::Failure("Internal Server Error".to_string()));
}

#[test]
fn listing_of_a_failed_scan_fails() {
    let scanned: BackendResult<Vec<Option<u32>>> = Err(BackendError::KvUninitialized);
    assert_eq!(Outcome::listed(scanned), Outcome::Failure("Internal Server Error".to_string()));
    let missing: BackendResult<Vec<Option<u32>>> = Err(BackendError::KvKeyNotFound);
    assert_eq!(Outcome::listed(missing), Outcome::Failure("Internal Server Error".to_string()));
}

#[test]
fn texts_of_the_answers() {
    assert_eq!(INTERNAL_ERROR, "Internal Error");
    assert_eq!(INTERNAL_SERVER_ERROR, "Internal Server Error");
    assert_eq!(REST_ENDPOINT, "http://localhost:8000");
}

#[test]
fn messages_of_the_failures() {
    assert_eq!(BackendError::Kv("Empty key".to_string()).message(), "KV: Empty key");
    assert_eq!(BackendError::Kv(String::new()).message(), "KV: ");
    assert_eq!(BackendError::KvUninitialized.message(), "The KV is yet to be initialized");
    assert_eq!(BackendError::KvAlreadyInitialized.message(), "The KV is already initialized");
    assert_eq!(BackendError::KvAlreadyExists.message(), "They key already exists in the KV");
    assert_eq!(BackendError::KvKeyNotFound.message(), "The key was not found in the KV");
    assert_eq!(
        BackendError::PermissionDenied.message(),
        "Permission denied on the resource requested"
    );
    assert_eq!(BackendError::JsonDeserialize.message(), "Unable to deserialize JSON");
    assert_eq!(
        BackendError::BincodeError.message(),
        "Unable to deserialize or deserialize bytes"
    );
}

#[test]
fn failures_compare_by_kind_and_text() {
    assert_eq!(BackendError::Kv("a".to_string()), BackendError::Kv("a".to_string()));
    assert_ne!(BackendError::Kv("a".to_string()), BackendError::Kv("b".to_string()));
    assert_ne!(BackendError::KvKeyNotFound, BackendError::KvAlreadyExists);
}

#[test]
fn json_response_holds_either() {
    let success: JsonResponse<u32, String> = JsonResponse::Success(1);
    let failure: JsonResponse<u32, String> = JsonResponse::Failure("no".to_string());
    assert!(matches!(success, JsonResponse::Success(1)));
    assert!(matches!(failure, JsonResponse::Failure(reason) if reason == "no"));
}

#[test]
fn json_failure_becomes_json_deserialize() {
    let error = serde_json::from_str::<u32>("not json").unwrap_err();
    assert_eq!(BackendError::from(error), BackendError::JsonDeserialize);
}

#[test]
fn bincode_failure_becomes_bincode_error() {
    let error = bincode::deserialize::<u32>(&[1u8]).unwrap_err();
    assert_eq!(BackendError::from(error), BackendError::BincodeError);
}

#[test]
fn engine_failure_becomes_kv_with_the_engines_text() {
    assert_eq!(
        BackendError::from(surrealkv::Error::EmptyKey),
        BackendError::Kv("Empty key".to_string())
    );
    assert_eq!(
        BackendError::from(surrealkv::Error::TransactionClosed).message(),
        "KV: This transaction has been closed"
    );
}
