//! What follows from the contracts of the operations when they are called
//! one after another on one namespace.
//!
//! Each law takes the outcomes of the calls as its inputs: the records
//! before and after, and what was returned. The engine may fail any call;
//! where a law says what a call returns, it says so for the calls that the
//! engine did not fail.

use vstd::prelude::*;
use crate::db::{names_publishers, DbView};
use crate::errors::{BackendError, BackendResult};
use crate::model::{
    create_result,
    lists_values,
    payload_of,
    purge_result,
    read_result,
    remove_result,
    update_result,
    Records,
};
use crate::order::{
    bytes_lt,
    listing_counts_the_keys,
    listing_is_unique,
    lt_is_asymmetric,
    lt_is_total,
};

verus! {

/// `r` comes from the engine's failure, not from the records.
pub open spec fn engine_failed<T>(r: BackendResult<T>) -> bool {
    r matches Err(BackendError::Kv(_))
}

/// `read` returned `value`.
pub open spec fn gives(read: BackendResult<Vec<u8>>, value: Seq<u8>) -> bool {
    match read {
        Ok(found) => found@ == value,
        Err(_) => false,
    }
}

/// A read right after a successful creation returns the value created.
pub proof fn read_follows_create(
    before: Records,
    key: Seq<u8>,
    value: Seq<u8>,
    after: Records,
    created: BackendResult<()>,
    read: BackendResult<Vec<u8>>,
)
    requires
        create_result(before, key, value, after, created),
        created is Ok,
        read_result(after, key, read),
    ensures
        !engine_failed(read) ==> gives(read, value),
{
}

/// A second creation under a key fails with `KvAlreadyExists`, and a read
/// still returns the value of the first.
pub proof fn second_create_is_refused(
    before: Records,
    key: Seq<u8>,
    first_value: Seq<u8>,
    between: Records,
    first: BackendResult<()>,
    second_value: Seq<u8>,
    after: Records,
    second: BackendResult<()>,
    read: BackendResult<Vec<u8>>,
)
    requires
        create_result(before, key, first_value, between, first),
        first is Ok,
        create_result(between, key, second_value, after, second),
        read_result(after, key, read),
    ensures
        second is Err,
        !engine_failed(second) ==> second matches Err(BackendError::KvAlreadyExists),
        after == between,
        !engine_failed(read) ==> gives(read, first_value),
{
}

/// An update of a key that holds no record fails with `KvKeyNotFound` and
/// creates none.
pub proof fn update_needs_a_record(
    before: Records,
    key: Seq<u8>,
    value: Seq<u8>,
    after: Records,
    updated: BackendResult<()>,
)
    requires
        !before.contains_key(key),
        update_result(before, key, value, after, updated),
    ensures
        updated is Err,
        !engine_failed(updated) ==> updated matches Err(BackendError::KvKeyNotFound),
        after == before,
        !after.contains_key(key),
{
}

/// A removal of a key that holds no record fails with `KvKeyNotFound` and
/// changes nothing.
pub proof fn remove_needs_a_record(
    before: Records,
    key: Seq<u8>,
    after: Records,
    removed: BackendResult<()>,
)
    requires
        !before.contains_key(key),
        remove_result(before, key, after, removed),
    ensures
        removed is Err,
        !engine_failed(removed) ==> removed matches Err(BackendError::KvKeyNotFound),
        after == before,
        !after.contains_key(key),
{
}

/// After a creation and an update, a read returns the updated value whole:
/// nothing of the first value is left.
pub proof fn read_follows_update(
    before: Records,
    key: Seq<u8>,
    first_value: Seq<u8>,
    between: Records,
    created: BackendResult<()>,
    second_value: Seq<u8>,
    after: Records,
    updated: BackendResult<()>,
    read: BackendResult<Vec<u8>>,
)
    requires
        create_result(before, key, first_value, between, created),
        created is Ok,
        update_result(between, key, second_value, after, updated),
        read_result(after, key, read),
    ensures
        !engine_failed(updated) ==> updated is Ok,
        updated is Ok && !engine_failed(read) ==> gives(read, second_value),
        updated is Err && !engine_failed(read) ==> gives(read, first_value),
{
}

/// A purge of a key that holds no record does not fail on that account,
/// and leaves every record as it was.
pub proof fn purge_of_nothing_is_no_change(
    before: Records,
    key: Seq<u8>,
    after: Records,
    purged: BackendResult<()>,
)
    requires
        !before.contains_key(key),
        purge_result(before, key, after, purged),
    ensures
        !engine_failed(purged) ==> purged is Ok,
        after == before,
{
    assert(before.remove(key) =~= before);
}

/// A purge, of whatever key and with whatever outcome, leaves all other
/// keys as they were.
pub proof fn purge_keeps_other_keys(
    before: Records,
    key: Seq<u8>,
    after: Records,
    purged: BackendResult<()>,
    other: Seq<u8>,
)
    requires
        other != key,
        purge_result(before, key, after, purged),
    ensures
        after.contains_key(other) == before.contains_key(other),
        before.contains_key(other) ==> after[other] == before[other],
{
}

/// A purge may be repeated: the second changes nothing and does not fail
/// on account of the first.
pub proof fn purge_twice_is_purge_once(
    before: Records,
    key: Seq<u8>,
    between: Records,
    first: BackendResult<()>,
    after: Records,
    second: BackendResult<()>,
)
    requires
        purge_result(before, key, between, first),
        first is Ok,
        purge_result(between, key, after, second),
    ensures
        !engine_failed(second) ==> second is Ok,
        after == between,
{
    assert(between.remove(key) =~= between);
}

/// A removal may not be repeated: after a successful one, the second fails
/// with `KvKeyNotFound`.
pub proof fn second_remove_is_refused(
    before: Records,
    key: Seq<u8>,
    between: Records,
    first: BackendResult<()>,
    after: Records,
    second: BackendResult<()>,
)
    requires
        remove_result(before, key, between, first),
        first is Ok,
        remove_result(between, key, after, second),
    ensures
        second is Err,
        !engine_failed(second) ==> second matches Err(BackendError::KvKeyNotFound),
        after == between,
{
}

/// Of two creations under one key, whichever comes first, at most one
/// succeeds; where the engine fails neither, exactly the first succeeds
/// and the other is refused with `KvAlreadyExists`. The key then holds the
/// value of the one that succeeded, whole.
pub proof fn one_of_two_creates_wins(
    before: Records,
    key: Seq<u8>,
    first_value: Seq<u8>,
    between: Records,
    first: BackendResult<()>,
    second_value: Seq<u8>,
    after: Records,
    second: BackendResult<()>,
)
    requires
        !before.contains_key(key),
        create_result(before, key, first_value, between, first),
        create_result(between, key, second_value, after, second),
    ensures
        !(first is Ok && second is Ok),
        !engine_failed(first) && !engine_failed(second) ==> first is Ok && second matches Err(
            BackendError::KvAlreadyExists,
        ),
        first is Ok ==> after.contains_key(key) && after[key] == first_value,
        second is Ok ==> after.contains_key(key) && after[key] == second_value,
        !(first is Ok) && !(second is Ok) ==> after == before,
{
}

/// A creation, an update, a removal or a purge of one key leaves all other
/// keys as they were.
pub proof fn writes_keep_other_keys(
    before: Records,
    key: Seq<u8>,
    value: Seq<u8>,
    after: Records,
    r: BackendResult<()>,
    other: Seq<u8>,
)
    requires
        other != key,
        create_result(before, key, value, after, r) || update_result(before, key, value, after, r)
            || remove_result(before, key, after, r) || purge_result(before, key, after, r),
    ensures
        after.contains_key(other) == before.contains_key(other),
        before.contains_key(other) ==> after[other] == before[other],
{
}

/// A scan lists every record of the namespace once and nothing else: it has
/// as many payloads as the namespace has keys, each belongs to a key that
/// holds a record, and each record's key has its place in it.
pub proof fn values_cover_the_records(
    records: Records,
    keys: Seq<Seq<u8>>,
    values: Seq<Vec<u8>>,
)
    requires
        lists_values(records, keys, values),
    ensures
        records.dom().finite(),
        values.len() == records.dom().len(),
        forall|i: int| 0 <= i < values.len() ==> records.contains_key(#[trigger] keys[i]),
        forall|k: Seq<u8>| #[trigger]
            records.contains_key(k) ==> exists|i: int|
                0 <= i < values.len() && keys[i] == k && payload_of(records, k, #[trigger] values[i]),
{
    listing_counts_the_keys(records, keys);
    assert forall|i: int| 0 <= i < values.len() implies records.contains_key(
        #[trigger] keys[i],
    ) by {
        assert(keys.contains(keys[i]));
    }
    assert forall|k: Seq<u8>| #[trigger] records.contains_key(k) implies exists|i: int|
        0 <= i < values.len() && keys[i] == k && payload_of(records, k, #[trigger] values[i]) by {
        assert(keys.contains(k));
        let i = choose|i: int| 0 <= i < keys.len() && keys[i] == k;
        assert(payload_of(records, k, values[i]));
    }
}

/// Two scans of the same records list the same keys in the same order:
/// they differ at most where one of them could not fetch a value.
pub proof fn scans_agree(
    records: Records,
    keys: Seq<Seq<u8>>,
    values: Seq<Vec<u8>>,
    other_keys: Seq<Seq<u8>>,
    other_values: Seq<Vec<u8>>,
)
    requires
        lists_values(records, keys, values),
        lists_values(records, other_keys, other_values),
    ensures
        keys == other_keys,
        values.len() == other_values.len(),
        forall|i: int|
            0 <= i < values.len() ==> (#[trigger] values[i])@ == other_values[i]@ || values[i]@.len()
                == 0 || other_values[i]@.len() == 0,
{
    listing_is_unique(records, keys, other_keys);
    assert forall|i: int| 0 <= i < values.len() implies (#[trigger] values[i])@
        == other_values[i]@ || values[i]@.len() == 0 || other_values[i]@.len() == 0 by {
        assert(payload_of(records, keys[i], values[i]));
        assert(payload_of(records, keys[i], other_values[i]));
    }
}

/// A scan of a namespace that holds exactly two records lists exactly
/// their two values, that of the lesser key first.
pub proof fn values_of_two_records(
    first_key: Seq<u8>,
    first_value: Seq<u8>,
    second_key: Seq<u8>,
    second_value: Seq<u8>,
    keys: Seq<Seq<u8>>,
    values: Seq<Vec<u8>>,
)
    requires
        first_key != second_key,
        lists_values(
            Map::<Seq<u8>, Seq<u8>>::empty().insert(first_key, first_value).insert(
                second_key,
                second_value,
            ),
            keys,
            values,
        ),
    ensures
        values.len() == 2,
        bytes_lt(first_key, second_key) != bytes_lt(second_key, first_key),
        bytes_lt(first_key, second_key) ==> keys == seq![first_key, second_key] && (values[0]@
            == first_value || values[0]@.len() == 0) && (values[1]@ == second_value
            || values[1]@.len() == 0),
        bytes_lt(second_key, first_key) ==> keys == seq![second_key, first_key] && (values[0]@
            == second_value || values[0]@.len() == 0) && (values[1]@ == first_value
            || values[1]@.len() == 0),
{
    let records = Map::<Seq<u8>, Seq<u8>>::empty().insert(first_key, first_value).insert(
        second_key,
        second_value,
    );
    lt_is_total(first_key, second_key);
    lt_is_asymmetric(first_key, second_key);
    let sorted = if bytes_lt(first_key, second_key) {
        seq![first_key, second_key]
    } else {
        seq![second_key, first_key]
    };
    assert(crate::order::ascending(sorted));
    assert forall|k: Seq<u8>| records.contains_key(k) <==> sorted.contains(k) by {
        if records.contains_key(k) {
            if k == first_key {
                assert(sorted[0] == k || sorted[1] == k);
            } else {
                assert(k == second_key);
                assert(sorted[0] == k || sorted[1] == k);
            }
        }
    }
    listing_is_unique(records, keys, sorted);
    assert(payload_of(records, keys[0], values[0]));
    assert(payload_of(records, keys[1], values[1]));
}

/// The two namespaces are independent: new records in the namespace that
/// one name addresses leave the records of the other namespace, and the
/// directories of both, as they were.
pub proof fn namespaces_are_independent(
    before: DbView,
    written: Seq<char>,
    records: Records,
    read: Seq<char>,
)
    requires
        names_publishers(written) != names_publishers(read),
    ensures
        before.with_records(written, records).records(read) == before.records(read),
        before.with_records(written, records).records(written) == records,
        before.with_records(written, records).publishers_dir == before.publishers_dir,
        before.with_records(written, records).projects_dir == before.projects_dir,
{
}

} // verus!
