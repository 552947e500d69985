//! The boundary to the embedded storage engine.
//!
//! Everything in this module is believed, not proved: it states what the
//! engine's own source shows of the calls that the storage layer makes.
//!
//! The engine changes a store through shared handles. Here a store changes
//! only where it is held exclusively: `commit`, the one call that changes
//! what a store holds, takes the store by `&mut`. So a store that is merely
//! shared keeps its contents, as the contracts assume.

use vstd::prelude::*;
use surrealkv::{Error, Options, Store, Transaction};
use std::path::PathBuf;
use crate::order::lists_keys;

verus! {

/// `surrealkv::Store`: one engine on one directory. Nothing inside it is
/// seen; what it holds is named by `store_contents`.
#[verifier::external_type_specification]
#[verifier::external_body]
pub struct ExStore(Store);

/// `surrealkv::Transaction`: a snapshot of a store with the writes pending
/// on it. Nothing inside it is seen.
#[verifier::external_type_specification]
#[verifier::external_body]
pub struct ExTransaction(Transaction);

/// `surrealkv::Error`: a failure of the engine, carried through as it is.
#[verifier::external_type_specification]
#[verifier::external_body]
pub struct ExError(Error);

/// The records that a transaction begun on `store` now would observe:
/// every key that holds a value, with that value.
pub uninterp spec fn store_contents(store: Store) -> Map<Seq<u8>, Seq<u8>>;

/// The directory that `store` was opened on.
pub uninterp spec fn store_dir(store: Store) -> Seq<char>;

/// The records that reads through `txn` observe: the snapshot taken when it
/// began, overlaid with the writes it holds pending.
pub uninterp spec fn txn_contents(txn: Transaction) -> Map<Seq<u8>, Seq<u8>>;

/// The store on which `txn` was begun, as it stood then.
pub uninterp spec fn txn_store(txn: Transaction) -> Store;

/// Whether `txn` still holds the snapshot it began with: it was begun for
/// reading and writing, and no commit has been tried on it.
pub uninterp spec fn txn_live(txn: Transaction) -> bool;

/// One record as a scan hands it out.
pub struct Record {
    pub key: Vec<u8>,
    pub value: Vec<u8>,
}

/// `items` is a scan of `records`: one item for each key, in ascending order
/// of the keys; an item is either the record under its key or, where the
/// value could not be fetched, nothing.
pub open spec fn scan_of(records: Map<Seq<u8>, Seq<u8>>, items: Seq<Option<Record>>) -> bool {
    exists|keys: Seq<Seq<u8>>|
        {
            &&& lists_keys(records, keys)
            &&& keys.len() == items.len()
            &&& forall|i: int|
                0 <= i < items.len() ==> (#[trigger] items[i] matches Some(record)
                    ==> record.key@ == keys[i] && record.value@ == records[keys[i]])
        }
}

/// `Store::new` on default options with the directory set to `dir`, which
/// the engine creates where there is none. Claims only that the store
/// returned is bound to that directory; what it holds is whatever the
/// directory held.
#[verifier::external_body]
pub(crate) fn open_store(dir: &str) -> (r: Result<Store, Error>)
    ensures
        r matches Ok(store) ==> store_dir(store) == dir@,
{
    let mut opts = Options::new();
    opts.dir = PathBuf::from(dir);
    Store::new(opts)
}

/// `Store::begin`: a read-write transaction whose snapshot is the store's
/// contents at this moment and whose write set is empty.
pub assume_specification[ Store::begin ](store: &Store) -> (r: Result<Transaction, Error>)
    ensures
        r matches Ok(txn) ==> txn_live(txn) && txn_contents(txn) == store_contents(*store)
            && txn_store(txn) == *store,
;

/// `Transaction::get`: the pending write for the key if there is one, else
/// the snapshot's value. An empty key is refused. Reading changes nothing
/// that the transaction observes. The call unwraps the snapshot, which a
/// commit takes away: hence the `requires`.
pub assume_specification[ Transaction::get ](txn: &mut Transaction, key: &[u8]) -> (r: Result<
    Option<Vec<u8>>,
    Error,
>)
    requires
        txn_live(*old(txn)),
    ensures
        txn_live(*final(txn)),
        txn_contents(*final(txn)) == txn_contents(*old(txn)),
        txn_store(*final(txn)) == txn_store(*old(txn)),
        key@.len() == 0 ==> r is Err,
        r matches Ok(Some(value)) ==> txn_contents(*old(txn)).contains_key(key@) && txn_contents(
            *old(txn),
        )[key@] == value@,
        r matches Ok(None) ==> !txn_contents(*old(txn)).contains_key(key@),
;

/// `Transaction::set`: on success the value is pending under the key, so the
/// transaction observes it; on failure (an empty key, a closed transaction)
/// the write set is as it was.
pub assume_specification[ Transaction::set ](
    txn: &mut Transaction,
    key: &[u8],
    value: &[u8],
) -> (r: Result<(), Error>)
    ensures
        txn_live(*final(txn)) == txn_live(*old(txn)),
        txn_store(*final(txn)) == txn_store(*old(txn)),
        key@.len() == 0 ==> r is Err,
        r is Ok ==> txn_contents(*final(txn)) == txn_contents(*old(txn)).insert(key@, value@),
        r is Err ==> txn_contents(*final(txn)) == txn_contents(*old(txn)),
;

/// `Transaction::delete`: on success the key's removal is pending, so the
/// transaction observes no value under it, whether or not it held one; on
/// failure the write set is as it was.
pub assume_specification[ Transaction::delete ](txn: &mut Transaction, key: &[u8]) -> (r: Result<
    (),
    Error,
>)
    ensures
        txn_live(*final(txn)) == txn_live(*old(txn)),
        txn_store(*final(txn)) == txn_store(*old(txn)),
        key@.len() == 0 ==> r is Err,
        r is Ok ==> txn_contents(*final(txn)) == txn_contents(*old(txn)).remove(key@),
        r is Err ==> txn_contents(*final(txn)) == txn_contents(*old(txn)),
;

/// `Transaction::commit`, for a transaction begun on `store` while `store`
/// has not changed since. The transaction holds the engine's shared core, so
/// the call names no store; the exclusive borrow stands for the change that
/// the commit makes to it. On success the store holds what the transaction
/// observed. On failure the engine's index is the one it had, so that no
/// write of the transaction is visible through this store; what the log on
/// disk holds by then is not claimed.
#[verifier::external_body]
#[allow(unused_variables)]
pub(crate) fn commit(store: &mut Store, txn: Transaction) -> (r: Result<(), Error>)
    requires
        txn_store(txn) == *old(store),
    ensures
        store_dir(*final(store)) == store_dir(*old(store)),
        r is Ok ==> store_contents(*final(store)) == txn_contents(txn),
        r is Err ==> store_contents(*final(store)) == store_contents(*old(store)),
{
    let mut txn = txn;
    txn.commit()
}

/// `Transaction::scan` over the full range without a limit. The engine walks
/// the keys in ascending order and fetches each value; an item whose value
/// could not be fetched comes out as `None`. The call unwraps the snapshot,
/// which a commit takes away: hence the `requires`.
#[verifier::external_body]
pub(crate) fn scan_all(txn: &mut Transaction) -> (r: Vec<Option<Record>>)
    requires
        txn_live(*old(txn)),
    ensures
        txn_live(*final(txn)),
        txn_contents(*final(txn)) == txn_contents(*old(txn)),
        txn_store(*final(txn)) == txn_store(*old(txn)),
        scan_of(txn_contents(*old(txn)), r@),
{
    txn.scan(.., None)
        .map(
            |item|
                match item {
                    Ok((key, value, _)) => Some(Record { key: key.to_vec(), value }),
                    Err(_) => None,
                },
        )
        .collect()
}

} // verus!
