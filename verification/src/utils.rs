//! What an endpoint answers, and how the outcome of a storage operation
//! becomes that answer.

use vstd::prelude::*;
use vstd::string::StringExecFns;
use crate::errors::{BackendError, BackendResult};

verus! {

/// Where the service listens.
pub const REST_ENDPOINT: &'static str = "http://localhost:8000";

/// What is told where a stored payload cannot be read as a record.
pub const INTERNAL_ERROR: &'static str = "Internal Error";

/// What is told where the storage layer fails.
pub const INTERNAL_SERVER_ERROR: &'static str = "Internal Server Error";

/// The answer of an endpoint: the value asked for, or the reason why there
/// is none.
#[derive(Debug, PartialEq, Eq)]
pub enum Outcome<T> {
    Success(T),
    Failure(String),
}

/// Every payload of a scan was a record.
pub open spec fn all_records<T>(items: Seq<Option<T>>) -> bool {
    forall|i: int| 0 <= i < items.len() ==> (#[trigger] items[i]) is Some
}

impl<T> Outcome<T> {
    /// The answer to a lookup whose stored payload was read and then
    /// decoded with the result `decoded`: the record, or `INTERNAL_ERROR`
    /// where the payload was no record.
    pub fn decoded<E>(decoded: Result<T, E>) -> (r: Outcome<Option<T>>)
        ensures
            match decoded {
                Ok(record) => r == Outcome::Success(Some(record)),
                Err(_) => r matches Outcome::Failure(reason) && reason@ == INTERNAL_ERROR@,
            },
    {
        match decoded {
            Ok(record) => Outcome::Success(Some(record)),
            Err(_) => Outcome::Failure(String::from_str(INTERNAL_ERROR)),
        }
    }

    /// The answer to a lookup that failed with `error`: a missing key is no
    /// failure of the endpoint but the answer that there is no such record;
    /// every other failure is told as `INTERNAL_SERVER_ERROR`.
    pub fn unread(error: BackendError) -> (r: Outcome<Option<T>>)
        ensures
            match error {
                BackendError::KvKeyNotFound => r == Outcome::<Option<T>>::Success(None),
                _ => r matches Outcome::Failure(reason) && reason@ == INTERNAL_SERVER_ERROR@,
            },
    {
        match error {
            BackendError::KvKeyNotFound => Outcome::Success(None),
            _ => Outcome::Failure(String::from_str(INTERNAL_SERVER_ERROR)),
        }
    }

    /// The answer to a listing whose scan came out as `scanned`, each
    /// payload decoded to a record or, where it was none, to `None`: all
    /// records in the order of the scan if the scan succeeded and every
    /// payload was a record, else `INTERNAL_SERVER_ERROR`.
    pub fn listed(scanned: BackendResult<Vec<Option<T>>>) -> (r: Outcome<Vec<T>>)
        ensures
            match scanned {
                Ok(items) => if all_records(items@) {
                    r matches Outcome::Success(records) && records@.len() == items@.len()
                        && forall|i: int|
                        0 <= i < items@.len() ==> items@[i] == Some(#[trigger] records@[i])
                } else {
                    r matches Outcome::Failure(reason) && reason@ == INTERNAL_SERVER_ERROR@
                },
                Err(_) => r matches Outcome::Failure(reason) && reason@ == INTERNAL_SERVER_ERROR@,
            },
    {
        let items = match scanned {
            Ok(items) => items,
            Err(_) => {
                return Outcome::Failure(String::from_str(INTERNAL_SERVER_ERROR));
            },
        };
        let ghost all = items@;
        let mut records: Vec<T> = Vec::new();
        for item in it: items
            invariant
                scanned matches Ok(given) && given@ == all,
                it.seq() == all,
                records@.len() == it.index(),
                forall|i: int| 0 <= i < records@.len() ==> (#[trigger] all[i]) is Some,
                forall|i: int| 0 <= i < records@.len() ==> all[i] == Some(#[trigger] records@[i]),
        {
            match item {
                Some(record) => records.push(record),
                None => {
                    assert(all[it.index() as int] is None);
                    return Outcome::Failure(String::from_str(INTERNAL_SERVER_ERROR));
                },
            }
        }
        Outcome::Success(records)
    }
}

} // verus!
