//! The storage handle: the two namespaces of the store together, the slot
//! that holds them once they are opened, and the operations that address a
//! namespace by its name.

use vstd::prelude::*;
use vstd::string::{StringExecFns, StringSliceAdditionalSpecFns};
use crate::errors::{BackendError, BackendResult};
use crate::model::{
    create_result,
    purge_result,
    read_result,
    remove_result,
    update_result,
    values_result,
    Records,
};
use crate::namespace::Namespace;

verus! {

/// The name under which the publishers' namespace is addressed.
pub const PUBLISHERS_DB: &'static str = "PUBLISHERS";

/// The name under which the projects' namespace is addressed.
pub const PROJECTS_DB: &'static str = "PROJECTS";

/// The directory below the base directory in which all namespaces lie.
pub const DATABASE_DIR: &'static str = "/DATABASE/";

/// Whether `db_name` addresses the publishers' namespace: it does if it is
/// exactly that namespace's name. Every other name addresses the projects'
/// namespace; no name is refused.
pub open spec fn names_publishers(db_name: Seq<char>) -> bool {
    db_name == PUBLISHERS_DB@
}

/// The directory of the namespace `db_name` below `base`.
pub open spec fn namespace_dir(base: Seq<char>, db_name: Seq<char>) -> Seq<char> {
    base + DATABASE_DIR@ + db_name
}

/// What the two namespaces hold and where they keep it.
#[verifier::ext_equal]
pub struct DbView {
    pub publishers: Records,
    pub projects: Records,
    pub publishers_dir: Seq<char>,
    pub projects_dir: Seq<char>,
}

impl DbView {
    /// The records of the namespace that `db_name` addresses.
    pub open spec fn records(self, db_name: Seq<char>) -> Records {
        if names_publishers(db_name) {
            self.publishers
        } else {
            self.projects
        }
    }

    /// This state with `records` in the namespace that `db_name` addresses
    /// and everything else as it is.
    pub open spec fn with_records(self, db_name: Seq<char>, records: Records) -> DbView {
        if names_publishers(db_name) {
            DbView { publishers: records, ..self }
        } else {
            DbView { projects: records, ..self }
        }
    }
}

/// The two namespaces of the store. The handle owns both engines; a caller
/// sees values and failures, never an engine.
pub struct DbState {
    publishers: Namespace,
    projects: Namespace,
}

impl View for DbState {
    type V = DbView;

    closed spec fn view(&self) -> DbView {
        DbView {
            publishers: self.publishers@,
            projects: self.projects@,
            publishers_dir: self.publishers.dir(),
            projects_dir: self.projects.dir(),
        }
    }
}

/// The slot for the one storage handle of a process: empty until the handle
/// is initialized, and filled once.
pub struct Kv {
    state: Option<DbState>,
}

impl View for Kv {
    type V = Option<DbView>;

    closed spec fn view(&self) -> Option<DbView> {
        match self.state {
            Some(db) => Some(db@),
            None => None,
        }
    }
}

impl Kv {
    /// An empty slot.
    pub fn new() -> (kv: Kv)
        ensures
            kv@ is None,
    {
        Kv { state: None }
    }
}

/// Whether the two byte strings are the same.
fn same_bytes(a: &[u8], b: &[u8]) -> (same: bool)
    ensures
        same == (a@ == b@),
{
    if a.len() != b.len() {
        return false;
    }
    let mut i: usize = 0;
    while i < a.len()
        invariant
            a@.len() == b@.len(),
            i <= a@.len(),
            forall|j: int| 0 <= j < i ==> a@[j] == b@[j],
        decreases a@.len() - i,
    {
        if a[i] != b[i] {
            return false;
        }
        i += 1;
    }
    assert(a@ =~= b@);
    true
}

impl DbState {
    /// Opens both namespaces below `base` and installs them in `kv` as the
    /// handle. A slot that holds a handle keeps it: the call fails with
    /// `KvAlreadyInitialized` and opens nothing. Where a namespace cannot
    /// be opened the slot stays empty.
    pub fn init(kv: &mut Kv, base: &str) -> (r: BackendResult<()>)
        ensures
            match old(kv)@ {
                Some(db) => r matches Err(BackendError::KvAlreadyInitialized) && final(kv)@
                    == Some(db),
                None => match r {
                    Ok(_) => final(kv)@ matches Some(db) && db.publishers_dir == namespace_dir(
                        base@,
                        PUBLISHERS_DB@,
                    ) && db.projects_dir == namespace_dir(base@, PROJECTS_DB@),
                    Err(e) => e is Kv && final(kv)@ is None,
                },
            },
    {
        if kv.state.is_some() {
            return Err(BackendError::KvAlreadyInitialized);
        }
        let publishers = match Self::store_ops(base, PUBLISHERS_DB) {
            Ok(namespace) => namespace,
            Err(e) => {
                return Err(e);
            },
        };
        let projects = match Self::store_ops(base, PROJECTS_DB) {
            Ok(namespace) => namespace,
            Err(e) => {
                return Err(e);
            },
        };
        kv.state = Some(DbState { publishers, projects });
        Ok(())
    }

    /// Opens the namespace `db_name` in its directory below `base`.
    pub fn store_ops(base: &str, db_name: &str) -> (r: BackendResult<Namespace>)
        ensures
            match r {
                Ok(namespace) => namespace.dir() == namespace_dir(base@, db_name@),
                Err(e) => e is Kv,
            },
    {
        let dir = String::from_str(base).concat(DATABASE_DIR).concat(db_name);
        Namespace::open(dir.as_str())
    }

    /// Whether `db_name` addresses the publishers' namespace.
    pub fn is_publishers(db_name: &str) -> (r: bool)
        ensures
            r == names_publishers(db_name@),
    {
        let same = same_bytes(db_name.as_bytes(), PUBLISHERS_DB.as_bytes());
        proof {
            vstd::utf8::encode_utf8_decode_utf8(db_name@);
            vstd::utf8::encode_utf8_decode_utf8(PUBLISHERS_DB@);
        }
        same
    }

    /// The namespace that `db_name` addresses.
    pub fn get_db(&self, db_name: &str) -> (namespace: &Namespace)
        ensures
            namespace@ == self@.records(db_name@),
            namespace.dir() == if names_publishers(db_name@) {
                self@.publishers_dir
            } else {
                self@.projects_dir
            },
    {
        if Self::is_publishers(db_name) {
            &self.publishers
        } else {
            &self.projects
        }
    }

    /// The handle in `kv`; `KvUninitialized` where there is none yet.
    pub fn get_store(kv: &Kv) -> (r: BackendResult<&DbState>)
        ensures
            match kv@ {
                Some(db) => r matches Ok(state) && state@ == db,
                None => r matches Err(BackendError::KvUninitialized),
            },
    {
        match &kv.state {
            Some(db) => Ok(db),
            None => Err(BackendError::KvUninitialized),
        }
    }

    /// This handle with `namespace` in the place that `db_name` addresses.
    spec fn with_namespace(self, db_name: Seq<char>, namespace: Namespace) -> DbState {
        if names_publishers(db_name) {
            DbState { publishers: namespace, ..self }
        } else {
            DbState { projects: namespace, ..self }
        }
    }

    /// The namespace that `db_name` addresses, for a writer.
    fn get_db_mut(&mut self, db_name: &str) -> (namespace: &mut Namespace)
        ensures
            *namespace == if names_publishers(db_name@) {
                old(self).publishers
            } else {
                old(self).projects
            },
            *final(self) == old(self).with_namespace(db_name@, *final(namespace)),
    {
        if Self::is_publishers(db_name) {
            &mut self.publishers
        } else {
            &mut self.projects
        }
    }

    /// Creates the record `key` with `value` in the namespace `db_name`; a
    /// key that holds a record is left as it is.
    pub fn create(kv: &mut Kv, db_name: &str, key: &str, value: &[u8]) -> (r: BackendResult<()>)
        ensures
            match old(kv)@ {
                Some(before) => final(kv)@ matches Some(after) && after == before.with_records(
                    db_name@,
                    after.records(db_name@),
                ) && create_result(
                    before.records(db_name@),
                    key.spec_bytes(),
                    value@,
                    after.records(db_name@),
                    r,
                ),
                None => r matches Err(BackendError::KvUninitialized) && final(kv)@ is None,
            },
    {
        match &mut kv.state {
            Some(db) => db.get_db_mut(db_name).create(key, value),
            None => Err(BackendError::KvUninitialized),
        }
    }

    /// Replaces the value of the record `key` of the namespace `db_name` by
    /// `value`.
    pub fn update(kv: &mut Kv, db_name: &str, key: &str, value: &[u8]) -> (r: BackendResult<()>)
        ensures
            match old(kv)@ {
                Some(before) => final(kv)@ matches Some(after) && after == before.with_records(
                    db_name@,
                    after.records(db_name@),
                ) && update_result(
                    before.records(db_name@),
                    key.spec_bytes(),
                    value@,
                    after.records(db_name@),
                    r,
                ),
                None => r matches Err(BackendError::KvUninitialized) && final(kv)@ is None,
            },
    {
        match &mut kv.state {
            Some(db) => db.get_db_mut(db_name).update(key, value),
            None => Err(BackendError::KvUninitialized),
        }
    }

    /// Deletes `key` in the namespace `db_name` without asking whether it
    /// holds a record.
    pub fn purge(kv: &mut Kv, db_name: &str, key: &str) -> (r: BackendResult<()>)
        ensures
            match old(kv)@ {
                Some(before) => final(kv)@ matches Some(after) && after == before.with_records(
                    db_name@,
                    after.records(db_name@),
                ) && purge_result(
                    before.records(db_name@),
                    key.spec_bytes(),
                    after.records(db_name@),
                    r,
                ),
                None => r matches Err(BackendError::KvUninitialized) && final(kv)@ is None,
            },
    {
        match &mut kv.state {
            Some(db) => db.get_db_mut(db_name).purge(key),
            None => Err(BackendError::KvUninitialized),
        }
    }

    /// Deletes the record `key` of the namespace `db_name`.
    pub fn remove(kv: &mut Kv, db_name: &str, key: &str) -> (r: BackendResult<()>)
        ensures
            match old(kv)@ {
                Some(before) => final(kv)@ matches Some(after) && after == before.with_records(
                    db_name@,
                    after.records(db_name@),
                ) && remove_result(
                    before.records(db_name@),
                    key.spec_bytes(),
                    after.records(db_name@),
                    r,
                ),
                None => r matches Err(BackendError::KvUninitialized) && final(kv)@ is None,
            },
    {
        match &mut kv.state {
            Some(db) => db.get_db_mut(db_name).remove(key),
            None => Err(BackendError::KvUninitialized),
        }
    }

    /// The value of the record `key` of the namespace `db_name`.
    pub fn read(kv: &Kv, db_name: &str, key: &str) -> (r: BackendResult<Vec<u8>>)
        ensures
            match kv@ {
                Some(db) => read_result(db.records(db_name@), key.spec_bytes(), r),
                None => r matches Err(BackendError::KvUninitialized),
            },
    {
        match Self::get_store(kv) {
            Ok(db) => db.get_db(db_name).read(key),
            Err(e) => Err(e),
        }
    }

    /// The values of all records of the namespace `db_name`.
    pub fn values(kv: &Kv, db_name: &str) -> (r: BackendResult<Vec<Vec<u8>>>)
        ensures
            match kv@ {
                Some(db) => values_result(db.records(db_name@), r),
                None => r matches Err(BackendError::KvUninitialized),
            },
    {
        match Self::get_store(kv) {
            Ok(db) => db.get_db(db_name).values(),
            Err(e) => Err(e),
        }
    }
}

} // verus!
