//! Small maps keyed by strings, kept as vectors of (key, value) pairs with
//! distinct keys. The abstract value of such a vector is a `Map` from the
//! key text to the value.
use vstd::prelude::*;
use crate::text::str_eq;

verus! {

/// Whether no two pairs of `s` share a key.
pub open spec fn keys_distinct<V>(s: Seq<(String, V)>) -> bool {
    forall|i: int, j: int|
        0 <= i < s.len() && 0 <= j < s.len() && i != j ==> #[trigger] s[i].0@ != #[trigger] s[j].0@
}

/// Whether some pair of `s` has the key `k`.
pub open spec fn has_key<V>(s: Seq<(String, V)>, k: Seq<char>) -> bool {
    exists|i: int| 0 <= i < s.len() && #[trigger] s[i].0@ == k
}

/// The position of a pair of `s` with key `k`.
pub open spec fn key_index<V>(s: Seq<(String, V)>, k: Seq<char>) -> int {
    choose|i: int| 0 <= i < s.len() && #[trigger] s[i].0@ == k
}

/// The map that the pairs of `s` denote.
pub open spec fn pairs_map<V>(s: Seq<(String, V)>) -> Map<Seq<char>, V> {
    Map::new(|k: Seq<char>| has_key(s, k), |k: Seq<char>| s[key_index(s, k)].1)
}

/// With distinct keys, the value of a key is that of the pair which holds it.
pub proof fn lemma_pairs_map_at<V>(s: Seq<(String, V)>, i: int)
    requires
        keys_distinct(s),
        0 <= i < s.len(),
    ensures
        pairs_map(s).contains_key(s[i].0@),
        pairs_map(s)[s[i].0@] == s[i].1,
{
    let k = s[i].0@;
    assert(has_key(s, k));
    let j = key_index(s, k);
    assert(s[j].0@ == k);
    assert(i == j);
}

/// Replacing the value of the pair at `i` replaces the value of its key.
pub proof fn lemma_pairs_map_update<V>(s: Seq<(String, V)>, i: int, key: String, v: V)
    requires
        keys_distinct(s),
        0 <= i < s.len(),
        key@ == s[i].0@,
    ensures
        keys_distinct(s.update(i, (key, v))),
        pairs_map(s.update(i, (key, v))) == pairs_map(s).insert(key@, v),
{
    let t = s.update(i, (key, v));
    assert forall|a: int, b: int|
        0 <= a < t.len() && 0 <= b < t.len() && a != b implies #[trigger] t[a].0@ != #[trigger] t[b].0@ by {
        assert(t[a].0@ == s[a].0@);
        assert(t[b].0@ == s[b].0@);
    }
    assert forall|k: Seq<char>| #[trigger] has_key(t, k) == has_key(s, k) by {
        if has_key(s, k) {
            let j = choose|j: int| 0 <= j < s.len() && #[trigger] s[j].0@ == k;
            assert(t[j].0@ == k);
        }
        if has_key(t, k) {
            let j = choose|j: int| 0 <= j < t.len() && #[trigger] t[j].0@ == k;
            assert(s[j].0@ == k);
        }
    }
    assert forall|k: Seq<char>| #[trigger] pairs_map(t).contains_key(k) implies pairs_map(t)[k]
        == pairs_map(s).insert(key@, v)[k] by {
        let j = key_index(t, k);
        assert(t[j].0@ == k);
        if k == key@ {
            assert(j == i);
        } else {
            let j2 = key_index(s, k);
            assert(s[j2].0@ == k);
            assert(t[j2].0@ == k);
            assert(j == j2);
        }
    }
    assert(pairs_map(t) =~= pairs_map(s).insert(key@, v));
}

/// Appending a pair with a new key adds that key.
pub proof fn lemma_pairs_map_push<V>(s: Seq<(String, V)>, key: String, v: V)
    requires
        keys_distinct(s),
        !has_key(s, key@),
    ensures
        keys_distinct(s.push((key, v))),
        pairs_map(s.push((key, v))) == pairs_map(s).insert(key@, v),
{
    let t = s.push((key, v));
    let n = s.len() as int;
    assert forall|a: int, b: int|
        0 <= a < t.len() && 0 <= b < t.len() && a != b implies #[trigger] t[a].0@ != #[trigger] t[b].0@ by {
        if a < n && b < n {
            assert(t[a].0@ == s[a].0@);
            assert(t[b].0@ == s[b].0@);
        } else if a == n {
            assert(t[b].0@ == s[b].0@);
        } else {
            assert(t[a].0@ == s[a].0@);
        }
    }
    assert forall|k: Seq<char>| #[trigger] has_key(t, k) == (has_key(s, k) || k == key@) by {
        if has_key(s, k) {
            let j = choose|j: int| 0 <= j < s.len() && #[trigger] s[j].0@ == k;
            assert(t[j].0@ == k);
        }
        if k == key@ {
            assert(t[n].0@ == k);
        }
        if has_key(t, k) {
            let j = choose|j: int| 0 <= j < t.len() && #[trigger] t[j].0@ == k;
            if j < n {
                assert(s[j].0@ == k);
            }
        }
    }
    assert forall|k: Seq<char>| #[trigger] pairs_map(t).contains_key(k) implies pairs_map(t)[k]
        == pairs_map(s).insert(key@, v)[k] by {
        let j = key_index(t, k);
        assert(t[j].0@ == k);
        if k == key@ {
            assert(t[n].0@ == k);
            assert(j == n);
        } else {
            let j2 = key_index(s, k);
            assert(s[j2].0@ == k);
            assert(t[j2].0@ == k);
            assert(j == j2);
        }
    }
    assert(pairs_map(t) =~= pairs_map(s).insert(key@, v));
}

/// The position of the pair with key `key`, if there is one.
pub fn find_key<V>(v: &Vec<(String, V)>, key: &str) -> (r: Option<usize>)
    ensures
        match r {
            Some(i) => i < v@.len() && v@[i as int].0@ == key@,
            None => !has_key(v@, key@),
        },
{
    let n = v.len();
    let mut i: usize = 0;
    while i < n
        invariant
            n == v@.len(),
            i <= n,
            forall|j: int| 0 <= j < i ==> v@[j].0@ != key@,
        decreases n - i,
    {
        if str_eq(v[i].0.as_str(), key) {
            return Some(i);
        }
        i = i + 1;
    }
    None
}

} // verus!
