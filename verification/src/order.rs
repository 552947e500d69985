//! The order in which the engine keeps its keys: byte strings compared
//! lexicographically.

use vstd::prelude::*;

verus! {

/// `a` comes strictly before `b`: at the first place where they differ `a`
/// has the smaller byte, or `a` ends there and `b` goes on.
pub open spec fn bytes_lt(a: Seq<u8>, b: Seq<u8>) -> bool
    decreases a.len(),
{
    if b.len() == 0 {
        false
    } else if a.len() == 0 {
        true
    } else if a[0] != b[0] {
        a[0] < b[0]
    } else {
        bytes_lt(a.drop_first(), b.drop_first())
    }
}

/// Every key of `keys` comes strictly before all that follow it.
pub open spec fn ascending(keys: Seq<Seq<u8>>) -> bool {
    forall|i: int, j: int|
        0 <= i < j < keys.len() ==> bytes_lt(#[trigger] keys[i], #[trigger] keys[j])
}

/// `keys` lists the keys of `records`, each once, in ascending order.
pub open spec fn lists_keys(records: Map<Seq<u8>, Seq<u8>>, keys: Seq<Seq<u8>>) -> bool {
    &&& ascending(keys)
    &&& forall|k: Seq<u8>| records.contains_key(k) <==> keys.contains(k)
}

/// No key comes before itself.
pub proof fn lt_is_irreflexive(a: Seq<u8>)
    ensures
        !bytes_lt(a, a),
    decreases a.len(),
{
    if a.len() > 0 {
        lt_is_irreflexive(a.drop_first());
    }
}

/// Of two keys at most one comes before the other.
pub proof fn lt_is_asymmetric(a: Seq<u8>, b: Seq<u8>)
    ensures
        !(bytes_lt(a, b) && bytes_lt(b, a)),
    decreases a.len(),
{
    if a.len() > 0 && b.len() > 0 && a[0] == b[0] {
        lt_is_asymmetric(a.drop_first(), b.drop_first());
    }
}

/// A key that comes before a second, which comes before a third, comes
/// before the third.
pub proof fn lt_is_transitive(a: Seq<u8>, b: Seq<u8>, c: Seq<u8>)
    requires
        bytes_lt(a, b),
        bytes_lt(b, c),
    ensures
        bytes_lt(a, c),
    decreases a.len(),
{
    if a.len() > 0 && b.len() > 0 && c.len() > 0 && a[0] == b[0] && b[0] == c[0] {
        lt_is_transitive(a.drop_first(), b.drop_first(), c.drop_first());
    }
}

/// Of two different keys one comes before the other.
pub proof fn lt_is_total(a: Seq<u8>, b: Seq<u8>)
    ensures
        a == b || bytes_lt(a, b) || bytes_lt(b, a),
    decreases a.len(),
{
    if a.len() == 0 || b.len() == 0 {
        if a.len() == 0 && b.len() == 0 {
            assert(a =~= b);
        }
    } else if a[0] == b[0] {
        lt_is_total(a.drop_first(), b.drop_first());
        if a.drop_first() == b.drop_first() {
            assert(a =~= seq![a[0]] + a.drop_first());
            assert(b =~= seq![b[0]] + b.drop_first());
        }
    }
}

/// An ascending list holds no key twice.
pub proof fn ascending_has_no_duplicates(keys: Seq<Seq<u8>>)
    requires
        ascending(keys),
    ensures
        keys.no_duplicates(),
{
    assert forall|i: int, j: int| 0 <= i < keys.len() && 0 <= j < keys.len() && i != j implies keys[i]
        != keys[j] by {
        lt_is_irreflexive(keys[i]);
        if i < j {
            assert(bytes_lt(keys[i], keys[j]));
        } else {
            assert(bytes_lt(keys[j], keys[i]));
        }
    }
}

/// A list of the keys of `records` has as many entries as `records` has
/// keys.
pub proof fn listing_counts_the_keys(records: Map<Seq<u8>, Seq<u8>>, keys: Seq<Seq<u8>>)
    requires
        lists_keys(records, keys),
    ensures
        records.dom().finite(),
        keys.len() == records.dom().len(),
{
    ascending_has_no_duplicates(keys);
    keys.unique_seq_to_set();
    vstd::seq_lib::seq_to_set_is_finite(keys);
    assert(keys.to_set() =~= records.dom());
}

/// What is left of an ascending list of the keys of `records` after its
/// first key lists the keys of `records` without that key.
proof fn rest_lists_the_rest(records: Map<Seq<u8>, Seq<u8>>, keys: Seq<Seq<u8>>)
    requires
        lists_keys(records, keys),
        keys.len() > 0,
    ensures
        lists_keys(records.remove(keys[0]), keys.drop_first()),
{
    let rest = keys.drop_first();
    let left = records.remove(keys[0]);
    assert forall|i: int, j: int| 0 <= i < j < rest.len() implies bytes_lt(
        #[trigger] rest[i],
        #[trigger] rest[j],
    ) by {
        assert(rest[i] == keys[i + 1]);
        assert(rest[j] == keys[j + 1]);
    }
    assert forall|k: Seq<u8>| left.contains_key(k) <==> rest.contains(k) by {
        if left.contains_key(k) {
            assert(keys.contains(k));
            let i = choose|i: int| 0 <= i < keys.len() && keys[i] == k;
            assert(i != 0);
            assert(rest[i - 1] == k);
        }
        if rest.contains(k) {
            let i = choose|i: int| 0 <= i < rest.len() && rest[i] == k;
            assert(keys[i + 1] == k);
            assert(keys.contains(k));
            lt_is_irreflexive(k);
            assert(bytes_lt(keys[0], keys[i + 1]));
        }
    }
}

/// The keys of `records` can be listed in ascending order in one way only:
/// what a scan hands out is fixed by what the namespace holds.
pub proof fn listing_is_unique(
    records: Map<Seq<u8>, Seq<u8>>,
    keys: Seq<Seq<u8>>,
    other: Seq<Seq<u8>>,
)
    requires
        lists_keys(records, keys),
        lists_keys(records, other),
    ensures
        keys == other,
    decreases keys.len(),
{
    listing_counts_the_keys(records, keys);
    listing_counts_the_keys(records, other);
    if keys.len() == 0 {
        assert(keys =~= other);
    } else {
        let a = keys[0];
        let b = other[0];
        assert(keys.contains(a));
        assert(other.contains(b));
        assert(other.contains(a));
        assert(keys.contains(b));
        let i = choose|i: int| 0 <= i < other.len() && other[i] == a;
        let j = choose|j: int| 0 <= j < keys.len() && keys[j] == b;
        if a != b {
            assert(bytes_lt(other[0], other[i]));
            assert(bytes_lt(keys[0], keys[j]));
            lt_is_asymmetric(a, b);
        }
        rest_lists_the_rest(records, keys);
        rest_lists_the_rest(records, other);
        listing_is_unique(records.remove(a), keys.drop_first(), other.drop_first());
        assert(keys =~= seq![a] + keys.drop_first());
        assert(other =~= seq![b] + other.drop_first());
    }
}

} // verus!
