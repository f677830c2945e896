//! A list of entries with distinct keys, read as a map from key to entry,
//! and what replacing, appending and removing an entry do to that map; and
//! append-only indexes from a key to the ids listed under it.

use vstd::prelude::*;

verus! {

/// No two entries of `s` share a key.
pub open spec fn distinct_keys<T, K>(s: Seq<T>, key: spec_fn(T) -> K) -> bool {
    forall|i: int, j: int| #![trigger s[i], s[j]] 0 <= i < j < s.len() ==> key(s[i]) != key(s[j])
}

/// Some entry of `s` has key `k`.
pub open spec fn holds_key<T, K>(s: Seq<T>, key: spec_fn(T) -> K, k: K) -> bool {
    exists|i: int| #![trigger s[i]] 0 <= i < s.len() && key(s[i]) == k
}

/// The entry of `s` with key `k`.
pub open spec fn entry_with<T, K>(s: Seq<T>, key: spec_fn(T) -> K, k: K) -> T {
    s[choose|i: int| #![trigger s[i]] 0 <= i < s.len() && key(s[i]) == k]
}

/// The entries of `s` by key, each seen through `img`.
pub open spec fn keyed<T, K>(s: Seq<T>, key: spec_fn(T) -> K, img: spec_fn(T) -> T) -> Map<K, T> {
    Map::new(|k: K| holds_key(s, key, k), |k: K| img(entry_with(s, key, k)))
}

/// The entry at `i` is the one its key finds.
pub proof fn lemma_entry<T, K>(s: Seq<T>, key: spec_fn(T) -> K, i: int)
    requires
        distinct_keys(s, key),
        0 <= i < s.len(),
    ensures
        holds_key(s, key, key(s[i])),
        entry_with(s, key, key(s[i])) == s[i],
{
    let k = key(s[i]);
    assert(holds_key(s, key, k)) by {
        assert(0 <= i < s.len() && key(s[i]) == k);
    }
    let j = choose|j: int| #![trigger s[j]] 0 <= j < s.len() && key(s[j]) == k;
    if j != i {
        if j < i {
            assert(key(s[j]) != key(s[i]));
        } else {
            assert(key(s[i]) != key(s[j]));
        }
    }
}

/// Replacing an entry by one with the same key replaces it in the map.
pub proof fn lemma_replace<T, K>(s: Seq<T>, key: spec_fn(T) -> K, img: spec_fn(T) -> T, i: int, e: T)
    requires
        distinct_keys(s, key),
        0 <= i < s.len(),
        key(s[i]) == key(e),
    ensures
        distinct_keys(s.update(i, e), key),
        keyed(s.update(i, e), key, img) == keyed(s, key, img).insert(key(e), img(e)),
{
    let t = s.update(i, e);
    assert forall|a: int, b: int| 0 <= a < b < t.len() implies key(t[a]) != key(t[b]) by {
        assert(key(s[a]) != key(s[b]));
    }
    lemma_entry(t, key, i);
    let after = keyed(t, key, img);
    let wanted = keyed(s, key, img).insert(key(e), img(e));
    assert forall|k: K| #[trigger] after.contains_key(k) == wanted.contains_key(k) by {
        if holds_key(t, key, k) {
            let j = choose|j: int| #![trigger t[j]] 0 <= j < t.len() && key(t[j]) == k;
            if j != i {
                assert(key(s[j]) == k);
            }
        }
        if holds_key(s, key, k) {
            let j = choose|j: int| #![trigger s[j]] 0 <= j < s.len() && key(s[j]) == k;
            if j != i {
                assert(key(t[j]) == k);
            }
        }
    }
    assert forall|k: K| #[trigger] after.contains_key(k) implies after[k] == wanted[k] by {
        if k != key(e) {
            let j = choose|j: int| #![trigger t[j]] 0 <= j < t.len() && key(t[j]) == k;
            assert(j != i);
            lemma_entry(t, key, j);
            assert(s[j] == t[j]);
            lemma_entry(s, key, j);
        }
    }
    assert(after =~= wanted);
}

/// Appending an entry with a new key adds it to the map.
pub proof fn lemma_append<T, K>(s: Seq<T>, key: spec_fn(T) -> K, img: spec_fn(T) -> T, e: T)
    requires
        distinct_keys(s, key),
        !holds_key(s, key, key(e)),
    ensures
        distinct_keys(s.push(e), key),
        keyed(s.push(e), key, img) == keyed(s, key, img).insert(key(e), img(e)),
{
    let t = s.push(e);
    assert forall|a: int, b: int| 0 <= a < b < t.len() implies key(t[a]) != key(t[b]) by {
        if b == s.len() {
            assert(s[a] == t[a]);
        } else {
            assert(key(s[a]) != key(s[b]));
        }
    }
    lemma_entry(t, key, s.len() as int);
    let after = keyed(t, key, img);
    let wanted = keyed(s, key, img).insert(key(e), img(e));
    assert forall|k: K| #[trigger] after.contains_key(k) == wanted.contains_key(k) by {
        if holds_key(t, key, k) {
            let j = choose|j: int| #![trigger t[j]] 0 <= j < t.len() && key(t[j]) == k;
            if j < s.len() {
                assert(key(s[j]) == k);
            }
        }
        if holds_key(s, key, k) {
            let j = choose|j: int| #![trigger s[j]] 0 <= j < s.len() && key(s[j]) == k;
            assert(key(t[j]) == k);
        }
    }
    assert forall|k: K| #[trigger] after.contains_key(k) implies after[k] == wanted[k] by {
        if k != key(e) {
            let j = choose|j: int| #![trigger t[j]] 0 <= j < t.len() && key(t[j]) == k;
            assert(j < s.len());
            lemma_entry(t, key, j);
            lemma_entry(s, key, j);
        }
    }
    assert(after =~= wanted);
}

/// Removing the entry at `i` removes its key from the map.
pub proof fn lemma_take_out<T, K>(s: Seq<T>, key: spec_fn(T) -> K, img: spec_fn(T) -> T, i: int)
    requires
        distinct_keys(s, key),
        0 <= i < s.len(),
    ensures
        distinct_keys(s.remove(i), key),
        keyed(s.remove(i), key, img) == keyed(s, key, img).remove(key(s[i])),
{
    let t = s.remove(i);
    let gone = key(s[i]);
    assert forall|a: int, b: int| 0 <= a < b < t.len() implies key(t[a]) != key(t[b]) by {
        let sa = if a < i { a } else { a + 1 };
        let sb = if b < i { b } else { b + 1 };
        assert(t[a] == s[sa] && t[b] == s[sb]);
        assert(key(s[sa]) != key(s[sb]));
    }
    let after = keyed(t, key, img);
    let wanted = keyed(s, key, img).remove(gone);
    assert forall|k: K| #[trigger] after.contains_key(k) == wanted.contains_key(k) by {
        if holds_key(t, key, k) {
            let j = choose|j: int| #![trigger t[j]] 0 <= j < t.len() && key(t[j]) == k;
            let sj = if j < i { j } else { j + 1 };
            assert(t[j] == s[sj]);
            assert(key(s[sj]) != key(s[i])) by {
                if sj < i {
                    assert(key(s[sj]) != key(s[i]));
                } else {
                    assert(key(s[i]) != key(s[sj]));
                }
            }
        }
        if holds_key(s, key, k) && k != gone {
            let j = choose|j: int| #![trigger s[j]] 0 <= j < s.len() && key(s[j]) == k;
            assert(j != i);
            let tj = if j < i { j } else { j - 1 };
            assert(t[tj] == s[j]);
        }
    }
    assert forall|k: K| #[trigger] after.contains_key(k) implies after[k] == wanted[k] by {
        let j = choose|j: int| #![trigger t[j]] 0 <= j < t.len() && key(t[j]) == k;
        let sj = if j < i { j } else { j + 1 };
        assert(t[j] == s[sj]);
        lemma_entry(t, key, j);
        lemma_entry(s, key, sj);
    }
    assert(after =~= wanted);
}

/// The ids that `index` lists under `k`, in the order they were listed.
pub open spec fn listed_under<T, K>(index: Seq<T>, key: spec_fn(T) -> K, id: spec_fn(T) -> u128, k: K) -> Seq<
    u128,
> {
    index.filter(|p: T| key(p) == k).map_values(|p: T| id(p))
}

/// The entities of `m` that `ids` name, in order, skipping ids not in `m`.
pub open spec fn present<V>(ids: Seq<u128>, m: Map<u128, V>) -> Seq<V> {
    ids.filter(|i: u128| m.contains_key(i)).map_values(|i: u128| m[i])
}

/// Listing one more entry lists its id under its key.
pub proof fn lemma_listed_push<T, K>(index: Seq<T>, key: spec_fn(T) -> K, id: spec_fn(T) -> u128, p: T, k: K)
    ensures
        listed_under(index.push(p), key, id, k) == if key(p) == k {
            listed_under(index, key, id, k).push(id(p))
        } else {
            listed_under(index, key, id, k)
        },
{
    let keep = |q: T| key(q) == k;
    index.lemma_filter_push(p, keep);
    assert(index.filter(keep).push(p).map_values(|q: T| id(q)) =~= index.filter(keep).map_values(
        |q: T| id(q),
    ).push(id(p)));
}

/// One more id adds its entity, if `m` holds it.
pub proof fn lemma_present_push<V>(ids: Seq<u128>, i: u128, m: Map<u128, V>)
    ensures
        present(ids.push(i), m) == if m.contains_key(i) {
            present(ids, m).push(m[i])
        } else {
            present(ids, m)
        },
{
    let keep = |j: u128| m.contains_key(j);
    ids.lemma_filter_push(i, keep);
    assert(ids.filter(keep).push(i).map_values(|j: u128| m[j]) =~= ids.filter(keep).map_values(|j: u128| m[j]).push(
        m[i],
    ));
}

} // verus!
