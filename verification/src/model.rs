//! What each operation of the storage layer owes, stated over the records
//! of one namespace as a map from key bytes to value bytes.
//!
//! The engine may fail at any step. Such a failure comes out as
//! `BackendError::Kv` and leaves the records as they were; every other
//! outcome is decided by the records alone.

use vstd::prelude::*;
use crate::engine::Record;
use crate::errors::{BackendError, BackendResult};
use crate::order::lists_keys;

verus! {

/// The records of one namespace: each key that holds a value, with it.
pub type Records = Map<Seq<u8>, Seq<u8>>;

/// `r` answers a read of `key` in `records`: the value held, or
/// `KvKeyNotFound` where none is held. The engine refuses the empty key.
pub open spec fn read_result(records: Records, key: Seq<u8>, r: BackendResult<Vec<u8>>) -> bool {
    match r {
        Ok(value) => key.len() > 0 && records.contains_key(key) && records[key] == value@,
        Err(BackendError::KvKeyNotFound) => key.len() > 0 && !records.contains_key(key),
        Err(BackendError::Kv(_)) => true,
        Err(_) => false,
    }
}

/// `r` answers the creation of `key` with `value`: it succeeds only on a key
/// that held nothing, which then holds `value`; on a key that held a value
/// it is `KvAlreadyExists`; and unless it succeeds nothing changes.
pub open spec fn create_result(
    before: Records,
    key: Seq<u8>,
    value: Seq<u8>,
    after: Records,
    r: BackendResult<()>,
) -> bool {
    match r {
        Ok(_) => key.len() > 0 && !before.contains_key(key) && after == before.insert(key, value),
        Err(BackendError::KvAlreadyExists) => key.len() > 0 && before.contains_key(key) && after
            == before,
        Err(BackendError::Kv(_)) => after == before,
        Err(_) => false,
    }
}

/// `r` answers the update of `key` to `value`: it succeeds only on a key that
/// held a value, which `value` then replaces whole; on a key that held
/// nothing it is `KvKeyNotFound`; and unless it succeeds nothing changes.
pub open spec fn update_result(
    before: Records,
    key: Seq<u8>,
    value: Seq<u8>,
    after: Records,
    r: BackendResult<()>,
) -> bool {
    match r {
        Ok(_) => key.len() > 0 && before.contains_key(key) && after == before.insert(key, value),
        Err(BackendError::KvKeyNotFound) => key.len() > 0 && !before.contains_key(key) && after
            == before,
        Err(BackendError::Kv(_)) => after == before,
        Err(_) => false,
    }
}

/// `r` answers the removal of `key`: it succeeds only on a key that held a
/// value, which then holds none; on a key that held nothing it is
/// `KvKeyNotFound`; and unless it succeeds nothing changes.
pub open spec fn remove_result(
    before: Records,
    key: Seq<u8>,
    after: Records,
    r: BackendResult<()>,
) -> bool {
    match r {
        Ok(_) => key.len() > 0 && before.contains_key(key) && after == before.remove(key),
        Err(BackendError::KvKeyNotFound) => key.len() > 0 && !before.contains_key(key) && after
            == before,
        Err(BackendError::Kv(_)) => after == before,
        Err(_) => false,
    }
}

/// `r` answers the purge of `key`: on success the key holds nothing, whether
/// or not it held a value before; it fails only with the engine, and then
/// nothing changes.
pub open spec fn purge_result(
    before: Records,
    key: Seq<u8>,
    after: Records,
    r: BackendResult<()>,
) -> bool {
    match r {
        Ok(_) => key.len() > 0 && after == before.remove(key),
        Err(BackendError::Kv(_)) => after == before,
        Err(_) => false,
    }
}

/// `payload` stands for the record under `key`: it is the value under the
/// key or, where that value could not be fetched, empty.
pub open spec fn payload_of(records: Records, key: Seq<u8>, payload: Vec<u8>) -> bool {
    payload@ == records[key] || payload@.len() == 0
}

/// `values` lists `records` by `keys`: `keys` are the keys of `records` in
/// ascending order, and `values` holds the payload of each at its place.
pub open spec fn lists_values(records: Records, keys: Seq<Seq<u8>>, values: Seq<Vec<u8>>) -> bool {
    &&& lists_keys(records, keys)
    &&& keys.len() == values.len()
    &&& forall|i: int| 0 <= i < values.len() ==> payload_of(records, keys[i], #[trigger] values[i])
}

/// `r` answers a scan of `records`: the payloads of all records in
/// ascending order of their keys.
pub open spec fn values_result(records: Records, r: BackendResult<Vec<Vec<u8>>>) -> bool {
    match r {
        Ok(values) => exists|keys: Seq<Seq<u8>>| lists_values(records, keys, values@),
        Err(BackendError::Kv(_)) => true,
        Err(_) => false,
    }
}

/// What a lookup that found `found` under a key returns.
pub fn found_or_missing(found: Option<Vec<u8>>) -> (r: BackendResult<Vec<u8>>)
    ensures
        match found {
            Some(value) => r == Ok::<Vec<u8>, BackendError>(value),
            None => r == Err::<Vec<u8>, BackendError>(BackendError::KvKeyNotFound),
        },
{
    match found {
        Some(value) => Ok(value),
        None => Err(BackendError::KvKeyNotFound),
    }
}

/// What the lookup that precedes a creation decides: `Ok` where the key was
/// missing, so that the write goes ahead; `KvAlreadyExists` where a value
/// was found; any other failure of the lookup as it came.
pub fn vacancy(lookup: BackendResult<Vec<u8>>) -> (r: BackendResult<()>)
    ensures
        match lookup {
            Ok(_) => r == Err::<(), BackendError>(BackendError::KvAlreadyExists),
            Err(BackendError::KvKeyNotFound) => r == Ok::<(), BackendError>(()),
            Err(e) => r == Err::<(), BackendError>(e),
        },
{
    match lookup {
        Ok(_) => Err(BackendError::KvAlreadyExists),
        Err(BackendError::KvKeyNotFound) => Ok(()),
        Err(e) => Err(e),
    }
}

/// What the lookup that precedes an update or a removal decides: `Ok` where
/// a value was found, so that the write goes ahead; the lookup's failure,
/// `KvKeyNotFound` among them, as it came.
pub fn presence(lookup: BackendResult<Vec<u8>>) -> (r: BackendResult<()>)
    ensures
        match lookup {
            Ok(_) => r == Ok::<(), BackendError>(()),
            Err(e) => r == Err::<(), BackendError>(e),
        },
{
    match lookup {
        Ok(_) => Ok(()),
        Err(e) => Err(e),
    }
}

/// The payload of each item of a scan, in order; an item without a record
/// gives an empty payload.
pub fn payloads(items: Vec<Option<Record>>) -> (r: Vec<Vec<u8>>)
    ensures
        r@.len() == items@.len(),
        forall|i: int|
            0 <= i < items@.len() ==> (#[trigger] r@[i])@ == match items@[i] {
                Some(record) => record.value@,
                None => Seq::<u8>::empty(),
            },
{
    let mut values: Vec<Vec<u8>> = Vec::new();
    let ghost all = items@;
    for item in it: items
        invariant
            it.seq() == all,
            values@.len() == it.index(),
            forall|i: int|
                0 <= i < values@.len() ==> (#[trigger] values@[i])@ == match all[i] {
                    Some(record) => record.value@,
                    None => Seq::<u8>::empty(),
                },
    {
        match item {
            Some(record) => values.push(record.value),
            None => values.push(Vec::new()),
        }
    }
    values
}

} // verus!
