//! The failures that the storage layer reports.

use vstd::prelude::*;
use vstd::std_specs::convert::FromSpecImpl;
use vstd::string::StringExecFns;

verus! {

/// What every operation of the storage layer returns.
pub type BackendResult<T> = Result<T, BackendError>;

/// A reply that is either the value asked for or a description of why it
/// could not be given.
#[derive(Debug)]
pub enum JsonResponse<T, U> {
    Success(T),
    Failure(U),
}

/// Why an operation of the storage layer, or of what is built on it, did
/// not succeed.
#[derive(Debug, PartialEq, Eq)]
pub enum BackendError {
    /// The storage engine failed; the text is the engine's own description.
    Kv(String),
    /// An operation was attempted before the handle was initialized.
    KvUninitialized,
    /// The handle was initialized a second time.
    KvAlreadyInitialized,
    /// A record was to be created under a key that already holds one.
    KvAlreadyExists,
    /// A record was asked for under a key that holds none.
    KvKeyNotFound,
    /// The caller may not have what was asked for.
    PermissionDenied,
    /// A payload could not be read as JSON.
    JsonDeserialize,
    /// A payload could not be read as a binary record.
    BincodeError,
}

impl BackendError {
    /// The text that describes this failure to a reader.
    pub open spec fn message_spec(self) -> Seq<char> {
        match self {
            BackendError::Kv(detail) => "KV: "@ + detail@,
            BackendError::KvUninitialized => "The KV is yet to be initialized"@,
            BackendError::KvAlreadyInitialized => "The KV is already initialized"@,
            BackendError::KvAlreadyExists => "They key already exists in the KV"@,
            BackendError::KvKeyNotFound => "The key was not found in the KV"@,
            BackendError::PermissionDenied => "Permission denied on the resource requested"@,
            BackendError::JsonDeserialize => "Unable to deserialize JSON"@,
            BackendError::BincodeError => "Unable to deserialize or deserialize bytes"@,
        }
    }

    /// The text that describes this failure to a reader.
    pub fn message(&self) -> (r: String)
        ensures
            r@ == self.message_spec(),
    {
        match self {
            BackendError::Kv(detail) => String::from_str("KV: ").concat(detail.as_str()),
            BackendError::KvUninitialized => String::from_str("The KV is yet to be initialized"),
            BackendError::KvAlreadyInitialized => String::from_str(
                "The KV is already initialized",
            ),
            BackendError::KvAlreadyExists => String::from_str("They key already exists in the KV"),
            BackendError::KvKeyNotFound => String::from_str("The key was not found in the KV"),
            BackendError::PermissionDenied => String::from_str(
                "Permission denied on the resource requested",
            ),
            BackendError::JsonDeserialize => String::from_str("Unable to deserialize JSON"),
            BackendError::BincodeError => String::from_str(
                "Unable to deserialize or deserialize bytes",
            ),
        }
    }
}

impl From<surrealkv::Error> for BackendError {
    /// Every failure of the engine is reported as `Kv`, with the engine's
    /// description of it.
    fn from(value: surrealkv::Error) -> (r: Self)
        ensures
            r matches BackendError::Kv(text)
                && vstd::string::to_string_from_display_ensures::<surrealkv::Error>(&value, text),
    {
        BackendError::Kv(value.to_string())
    }
}

/// `serde_json::Error`: why a text was no JSON of the kind asked for.
/// Nothing inside it is seen.
#[verifier::external_type_specification]
#[verifier::external_body]
pub struct ExJsonError(serde_json::Error);

/// `bincode::ErrorKind`, which `bincode::Error` boxes: why a payload was no
/// binary record. Nothing inside it is seen.
#[verifier::external_type_specification]
#[verifier::external_body]
pub struct ExBincodeErrorKind(bincode::ErrorKind);

impl From<serde_json::Error> for BackendError {
    /// Whatever kept a text from being read as JSON, the failure is
    /// `JsonDeserialize`.
    fn from(_value: serde_json::Error) -> (r: Self) {
        BackendError::JsonDeserialize
    }
}

impl FromSpecImpl<serde_json::Error> for BackendError {
    open spec fn obeys_from_spec() -> bool {
        true
    }

    open spec fn from_spec(_value: serde_json::Error) -> Self {
        BackendError::JsonDeserialize
    }
}

impl From<bincode::Error> for BackendError {
    /// Whatever kept a payload from being read as a binary record, the
    /// failure is `BincodeError`.
    fn from(_value: bincode::Error) -> (r: Self) {
        BackendError::BincodeError
    }
}

impl FromSpecImpl<bincode::Error> for BackendError {
    open spec fn obeys_from_spec() -> bool {
        true
    }

    open spec fn from_spec(_value: bincode::Error) -> Self {
        BackendError::BincodeError
    }
}

/// The description is the text that the engine's `Display` gives, which is
/// a relation and no function of the failure: the conversion is specified
/// by the `ensures` of `from` alone.
impl FromSpecImpl<surrealkv::Error> for BackendError {
    open spec fn obeys_from_spec() -> bool {
        false
    }

    open spec fn from_spec(value: surrealkv::Error) -> Self {
        arbitrary()
    }
}

} // verus!
