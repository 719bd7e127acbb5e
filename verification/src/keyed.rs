//! Keyed entry lists: a `Vec` of entries, each carrying its own key, read as a
//! map in which a later entry takes precedence over an earlier one with the
//! same key. The contract storages of this crate are kept this way.
use vstd::prelude::*;

verus! {

/// The map denoted by a sequence of keyed entries; later entries win.
pub open spec fn entries_map<E, K, V>(s: Seq<E>, key: spec_fn(E) -> K, val: spec_fn(E) -> V) -> Map<
    K,
    V,
>
    decreases s.len(),
{
    if s.len() == 0 {
        Map::empty()
    } else {
        entries_map(s.drop_last(), key, val).insert(key(s.last()), val(s.last()))
    }
}

/// `i` is the last position of `s` whose entry has key `k`.
pub open spec fn last_with_key<E, K>(s: Seq<E>, key: spec_fn(E) -> K, k: K, i: int) -> bool {
    &&& 0 <= i < s.len()
    &&& key(s[i]) == k
    &&& forall|j: int| i < j < s.len() ==> key(#[trigger] s[j]) != k
}

/// No entry of `s` has key `k`.
pub open spec fn no_key<E, K>(s: Seq<E>, key: spec_fn(E) -> K, k: K) -> bool {
    forall|j: int| 0 <= j < s.len() ==> key(#[trigger] s[j]) != k
}

/// Appending an entry inserts it into the denoted map.
pub proof fn lemma_entries_map_push<E, K, V>(
    s: Seq<E>,
    key: spec_fn(E) -> K,
    val: spec_fn(E) -> V,
    e: E,
)
    ensures
        entries_map(s.push(e), key, val) == entries_map(s, key, val).insert(key(e), val(e)),
{
    assert(s.push(e).drop_last() =~= s);
}

/// A key that no entry carries is absent from the denoted map.
pub proof fn lemma_entries_map_absent<E, K, V>(
    s: Seq<E>,
    key: spec_fn(E) -> K,
    val: spec_fn(E) -> V,
    k: K,
)
    requires
        no_key(s, key, k),
    ensures
        !entries_map(s, key, val).contains_key(k),
    decreases s.len(),
{
    if s.len() > 0 {
        let t = s.drop_last();
        assert forall|j: int| 0 <= j < t.len() implies key(#[trigger] t[j]) != k by {
            assert(t[j] == s[j]);
        }
        lemma_entries_map_absent(t, key, val, k);
        assert(key(s[s.len() - 1]) != k);
    }
}

/// The value of a key in the denoted map is that of its last entry.
pub proof fn lemma_entries_map_present<E, K, V>(
    s: Seq<E>,
    key: spec_fn(E) -> K,
    val: spec_fn(E) -> V,
    k: K,
    i: int,
)
    requires
        last_with_key(s, key, k, i),
    ensures
        entries_map(s, key, val).contains_key(k),
        entries_map(s, key, val)[k] == val(s[i]),
    decreases s.len(),
{
    if i < s.len() - 1 {
        let t = s.drop_last();
        assert(t[i] == s[i]);
        assert forall|j: int| i < j < t.len() implies key(#[trigger] t[j]) != k by {
            assert(t[j] == s[j]);
        }
        lemma_entries_map_present(t, key, val, k, i);
        assert(key(s[s.len() - 1]) != k);
    }
}

/// Overwriting the last entry of a key replaces that key's value.
pub proof fn lemma_entries_map_update<E, K, V>(
    s: Seq<E>,
    key: spec_fn(E) -> K,
    val: spec_fn(E) -> V,
    i: int,
    e: E,
)
    requires
        last_with_key(s, key, key(e), i),
    ensures
        entries_map(s.update(i, e), key, val) == entries_map(s, key, val).insert(key(e), val(e)),
    decreases s.len(),
{
    let u = s.update(i, e);
    let t = s.drop_last();
    if i == s.len() - 1 {
        assert(u.drop_last() =~= t);
        assert(entries_map(u, key, val) =~= entries_map(s, key, val).insert(key(e), val(e)));
    } else {
        assert(u.drop_last() =~= t.update(i, e));
        assert(t[i] == s[i]);
        assert forall|j: int| i < j < t.len() implies key(#[trigger] t[j]) != key(e) by {
            assert(t[j] == s[j]);
        }
        lemma_entries_map_update(t, key, val, i, e);
        assert(u.last() == s.last());
        assert(key(s[s.len() - 1]) != key(e));
        assert(entries_map(u, key, val) =~= entries_map(s, key, val).insert(key(e), val(e)));
    }
}

/// When every entry's value names the entry's key, every value of the
/// denoted map names the key it is stored under.
pub proof fn lemma_entries_map_values_name_keys<E, K, V>(
    s: Seq<E>,
    key: spec_fn(E) -> K,
    val: spec_fn(E) -> V,
    name: spec_fn(V) -> K,
)
    requires
        forall|e: E| #[trigger] name(val(e)) == key(e),
    ensures
        forall|k: K| #[trigger]
            entries_map(s, key, val).contains_key(k) ==> name(entries_map(s, key, val)[k]) == k,
    decreases s.len(),
{
    if s.len() > 0 {
        let m = entries_map(s.drop_last(), key, val);
        lemma_entries_map_values_name_keys(s.drop_last(), key, val, name);
        assert(name(val(s.last())) == key(s.last()));
        assert(entries_map(s, key, val) == m.insert(key(s.last()), val(s.last())));
        assert forall|k: K| #[trigger] entries_map(s, key, val).contains_key(k) implies name(
            entries_map(s, key, val)[k],
        ) == k by {
            if k != key(s.last()) {
                assert(m.contains_key(k));
            }
        }
    }
}

} // verus!
