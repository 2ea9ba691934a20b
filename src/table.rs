use vstd::prelude::*;

verus! {

/// The map that a sequence of entries stands for: each key maps to the value
/// of the entry that carries it.
pub open spec fn table_view<E, K, V>(
    s: Seq<E>,
    key: spec_fn(E) -> K,
    val: spec_fn(E) -> V,
) -> Map<K, V> {
    Map::new(
        |k: K| exists|i: int| 0 <= i < s.len() && key(s[i]) == k,
        |k: K| val(s[choose|i: int| 0 <= i < s.len() && key(s[i]) == k]),
    )
}

/// The value under `k`, if the map holds one.
pub open spec fn map_get<K, V>(m: Map<K, V>, k: K) -> Option<V> {
    if m.contains_key(k) {
        Some(m[k])
    } else {
        None
    }
}

/// No two entries carry the same key.
pub open spec fn keys_unique<E, K>(s: Seq<E>, key: spec_fn(E) -> K) -> bool {
    forall|i: int, j: int|
        0 <= i < s.len() && 0 <= j < s.len() && key(s[i]) == key(s[j]) ==> i == j
}

/// The entry at `i` is what the table holds under its key.
pub proof fn lemma_table_get<E, K, V>(
    s: Seq<E>,
    key: spec_fn(E) -> K,
    val: spec_fn(E) -> V,
    i: int,
)
    requires
        keys_unique(s, key),
        0 <= i < s.len(),
    ensures
        table_view(s, key, val).contains_key(key(s[i])),
        table_view(s, key, val)[key(s[i])] == val(s[i]),
{
    let k = key(s[i]);
    assert(exists|j: int| 0 <= j < s.len() && key(s[j]) == k);
    let j = choose|j: int| 0 <= j < s.len() && key(s[j]) == k;
    assert(j == i);
}

/// A key that no entry carries is not in the table.
pub proof fn lemma_table_absent<E, K, V>(
    s: Seq<E>,
    key: spec_fn(E) -> K,
    val: spec_fn(E) -> V,
    k: K,
)
    requires
        forall|i: int| 0 <= i < s.len() ==> key(s[i]) != k,
    ensures
        !table_view(s, key, val).contains_key(k),
{
}

/// Replacing the entry at `i` by one with the same key sets that key's value.
pub proof fn lemma_table_update<E, K, V>(
    s: Seq<E>,
    key: spec_fn(E) -> K,
    val: spec_fn(E) -> V,
    i: int,
    e: E,
)
    requires
        keys_unique(s, key),
        0 <= i < s.len(),
        key(e) == key(s[i]),
    ensures
        keys_unique(s.update(i, e), key),
        table_view(s.update(i, e), key, val) == table_view(s, key, val).insert(key(e), val(e)),
{
    let t = s.update(i, e);
    let a = table_view(t, key, val);
    let b = table_view(s, key, val).insert(key(e), val(e));
    assert forall|k: K| #[trigger] a.contains_key(k) <==> b.contains_key(k) by {
        if a.contains_key(k) {
            let j = choose|j: int| 0 <= j < t.len() && key(t[j]) == k;
            if j != i {
                assert(key(s[j]) == k);
            }
        }
        if b.contains_key(k) && k != key(e) {
            let j = choose|j: int| 0 <= j < s.len() && key(s[j]) == k;
            assert(key(t[j]) == k);
        }
        if k == key(e) {
            assert(key(t[i]) == k);
        }
    }
    assert forall|k: K| #[trigger] a.contains_key(k) implies a[k] == b[k] by {
        let j = choose|j: int| 0 <= j < t.len() && key(t[j]) == k;
        if j == i {
            assert(k == key(e));
        } else {
            assert(key(s[j]) == k);
            lemma_table_get(s, key, val, j);
        }
    }
    assert(a =~= b);
}

/// Appending an entry whose key is new adds that key.
pub proof fn lemma_table_push<E, K, V>(s: Seq<E>, key: spec_fn(E) -> K, val: spec_fn(E) -> V, e: E)
    requires
        keys_unique(s, key),
        !table_view(s, key, val).contains_key(key(e)),
    ensures
        keys_unique(s.push(e), key),
        table_view(s.push(e), key, val) == table_view(s, key, val).insert(key(e), val(e)),
{
    let t = s.push(e);
    let n = s.len() as int;
    assert forall|i: int| 0 <= i < s.len() implies key(s[i]) != key(e) by {
        if key(s[i]) == key(e) {
            assert(table_view(s, key, val).contains_key(key(s[i])));
        }
    }
    assert(keys_unique(t, key));
    let a = table_view(t, key, val);
    let b = table_view(s, key, val).insert(key(e), val(e));
    assert forall|k: K| #[trigger] a.contains_key(k) <==> b.contains_key(k) by {
        if a.contains_key(k) {
            let j = choose|j: int| 0 <= j < t.len() && key(t[j]) == k;
            if j < n {
                assert(key(s[j]) == k);
            }
        }
        if b.contains_key(k) && k != key(e) {
            let j = choose|j: int| 0 <= j < s.len() && key(s[j]) == k;
            assert(key(t[j]) == k);
        }
        if k == key(e) {
            assert(key(t[n]) == k);
        }
    }
    assert forall|k: K| #[trigger] a.contains_key(k) implies a[k] == b[k] by {
        let j = choose|j: int| 0 <= j < t.len() && key(t[j]) == k;
        if j < n {
            assert(key(s[j]) == k);
            lemma_table_get(s, key, val, j);
        } else {
            assert(k == key(e));
        }
    }
    assert(a =~= b);
}

/// Removing the entry at `i` removes its key.
pub proof fn lemma_table_remove<E, K, V>(
    s: Seq<E>,
    key: spec_fn(E) -> K,
    val: spec_fn(E) -> V,
    i: int,
)
    requires
        keys_unique(s, key),
        0 <= i < s.len(),
    ensures
        keys_unique(s.remove(i), key),
        table_view(s.remove(i), key, val) == table_view(s, key, val).remove(key(s[i])),
{
    let t = s.remove(i);
    assert forall|p: int, q: int|
        0 <= p < t.len() && 0 <= q < t.len() && key(t[p]) == key(t[q]) implies p == q by {
        let pp = if p < i { p } else { p + 1 };
        let qq = if q < i { q } else { q + 1 };
        assert(key(s[pp]) == key(s[qq]));
    }
    let a = table_view(t, key, val);
    let b = table_view(s, key, val).remove(key(s[i]));
    assert forall|k: K| #[trigger] a.contains_key(k) <==> b.contains_key(k) by {
        if a.contains_key(k) {
            let j = choose|j: int| 0 <= j < t.len() && key(t[j]) == k;
            let jj = if j < i { j } else { j + 1 };
            assert(key(s[jj]) == k);
            assert(jj != i);
        }
        if b.contains_key(k) {
            let j = choose|j: int| 0 <= j < s.len() && key(s[j]) == k;
            assert(j != i);
            let jj = if j < i { j } else { j - 1 };
            assert(key(t[jj]) == k);
        }
    }
    assert forall|k: K| #[trigger] a.contains_key(k) implies a[k] == b[k] by {
        let j = choose|j: int| 0 <= j < t.len() && key(t[j]) == k;
        let jj = if j < i { j } else { j + 1 };
        assert(t[j] == s[jj]);
        lemma_table_get(s, key, val, jj);
    }
    assert(a =~= b);
}

} // verus!
