//! One namespace: an independent key space held by one engine instance,
//! with the operations whose outcome depends on whether a key holds a
//! record.
//!
//! A reader borrows the namespace shared, a writer exclusively: whoever
//! guards a namespace with a lock hands out the one or the other, and the
//! check and the write of one operation then happen under a single hold.

use vstd::prelude::*;
use vstd::string::StringSliceAdditionalSpecFns;
use surrealkv::Store;
use crate::engine::{commit, open_store, scan_all, store_contents, store_dir};
use crate::errors::{BackendError, BackendResult};
use crate::model::{
    create_result,
    found_or_missing,
    lists_values,
    payload_of,
    payloads,
    presence,
    purge_result,
    read_result,
    remove_result,
    update_result,
    vacancy,
    values_result,
    Records,
};
use crate::order::lists_keys;

verus! {

/// One namespace of the store, on an engine of its own.
pub struct Namespace {
    store: Store,
}

impl View for Namespace {
    type V = Records;

    /// The records that the namespace holds.
    closed spec fn view(&self) -> Records {
        store_contents(self.store)
    }
}

impl Namespace {
    /// The directory in which the namespace keeps its records.
    pub closed spec fn dir(&self) -> Seq<char> {
        store_dir(self.store)
    }

    /// Opens the namespace kept in `dir`, creating it where there is none.
    /// It holds whatever records the directory held.
    pub fn open(dir: &str) -> (r: BackendResult<Namespace>)
        ensures
            match r {
                Ok(namespace) => namespace.dir() == dir@,
                Err(e) => e is Kv,
            },
    {
        match open_store(dir) {
            Ok(store) => Ok(Namespace { store }),
            Err(e) => Err(BackendError::from(e)),
        }
    }

    /// Writes `value` under `key` in a transaction of its own, whether or
    /// not the key held a value.
    fn set_key_value(&mut self, key: &str, value: &[u8]) -> (r: BackendResult<()>)
        ensures
            final(self).dir() == old(self).dir(),
            match r {
                Ok(_) => key.spec_bytes().len() > 0 && final(self)@ == old(self)@.insert(
                    key.spec_bytes(),
                    value@,
                ),
                Err(e) => e is Kv && final(self)@ == old(self)@,
            },
    {
        let mut txn = match self.store.begin() {
            Ok(txn) => txn,
            Err(e) => {
                return Err(BackendError::from(e));
            },
        };
        match txn.set(key.as_bytes(), value) {
            Ok(_) => {},
            Err(e) => {
                return Err(BackendError::from(e));
            },
        }
        match commit(&mut self.store, txn) {
            Ok(_) => Ok(()),
            Err(e) => Err(BackendError::from(e)),
        }
    }

    /// Deletes `key` in a transaction of its own, whether or not the key
    /// held a value.
    fn delete_key(&mut self, key: &str) -> (r: BackendResult<()>)
        ensures
            final(self).dir() == old(self).dir(),
            match r {
                Ok(_) => key.spec_bytes().len() > 0 && final(self)@ == old(self)@.remove(
                    key.spec_bytes(),
                ),
                Err(e) => e is Kv && final(self)@ == old(self)@,
            },
    {
        let mut txn = match self.store.begin() {
            Ok(txn) => txn,
            Err(e) => {
                return Err(BackendError::from(e));
            },
        };
        match txn.delete(key.as_bytes()) {
            Ok(_) => {},
            Err(e) => {
                return Err(BackendError::from(e));
            },
        }
        match commit(&mut self.store, txn) {
            Ok(_) => Ok(()),
            Err(e) => Err(BackendError::from(e)),
        }
    }

    /// Creates the record `key` with `value`; a key that holds a record is
    /// left as it is.
    pub fn create(&mut self, key: &str, value: &[u8]) -> (r: BackendResult<()>)
        ensures
            final(self).dir() == old(self).dir(),
            create_result(old(self)@, key.spec_bytes(), value@, final(self)@, r),
    {
        match vacancy(self.read(key)) {
            Ok(_) => self.set_key_value(key, value),
            Err(e) => Err(e),
        }
    }

    /// Replaces the value of the record `key` by `value`.
    pub fn update(&mut self, key: &str, value: &[u8]) -> (r: BackendResult<()>)
        ensures
            final(self).dir() == old(self).dir(),
            update_result(old(self)@, key.spec_bytes(), value@, final(self)@, r),
    {
        match presence(self.read(key)) {
            Ok(_) => self.set_key_value(key, value),
            Err(e) => Err(e),
        }
    }

    /// Deletes `key` without asking whether it holds a record.
    pub fn purge(&mut self, key: &str) -> (r: BackendResult<()>)
        ensures
            final(self).dir() == old(self).dir(),
            purge_result(old(self)@, key.spec_bytes(), final(self)@, r),
    {
        self.delete_key(key)
    }

    /// Deletes the record `key`.
    pub fn remove(&mut self, key: &str) -> (r: BackendResult<()>)
        ensures
            final(self).dir() == old(self).dir(),
            remove_result(old(self)@, key.spec_bytes(), final(self)@, r),
    {
        match presence(self.read(key)) {
            Ok(_) => self.delete_key(key),
            Err(e) => Err(e),
        }
    }

    /// The value of the record `key`.
    pub fn read(&self, key: &str) -> (r: BackendResult<Vec<u8>>)
        ensures
            read_result(self@, key.spec_bytes(), r),
    {
        let mut txn = match self.store.begin() {
            Ok(txn) => txn,
            Err(e) => {
                return Err(BackendError::from(e));
            },
        };
        match txn.get(key.as_bytes()) {
            Ok(found) => found_or_missing(found),
            Err(e) => Err(BackendError::from(e)),
        }
    }

    /// The values of all records, in ascending order of their keys. A
    /// record whose value the engine cannot fetch does not end the scan: it
    /// is listed with an empty value.
    pub fn values(&self) -> (r: BackendResult<Vec<Vec<u8>>>)
        ensures
            values_result(self@, r),
    {
        let mut txn = match self.store.begin() {
            Ok(txn) => txn,
            Err(e) => {
                return Err(BackendError::from(e));
            },
        };
        let items = scan_all(&mut txn);
        let ghost scanned = items@;
        let values = payloads(items);
        proof {
            let keys = choose|keys: Seq<Seq<u8>>|
                {
                    &&& lists_keys(self@, keys)
                    &&& keys.len() == scanned.len()
                    &&& forall|i: int|
                        0 <= i < scanned.len() ==> (#[trigger] scanned[i] matches Some(record)
                            ==> record.key@ == keys[i] && record.value@ == self@[keys[i]])
                };
            assert forall|i: int| 0 <= i < values@.len() implies payload_of(
                self@,
                keys[i],
                #[trigger] values@[i],
            ) by {
                if scanned[i] is Some {
                    assert(values@[i]@ == self@[keys[i]]);
                } else {
                    assert(values@[i]@.len() == 0);
                }
            }
            assert(lists_values(self@, keys, values@));
        }
        let ghost listed = values@;
        let r: BackendResult<Vec<Vec<u8>>> = Ok(values);
        assert(r matches Ok(v) && v@ == listed);
        r
    }
}

} // verus!
