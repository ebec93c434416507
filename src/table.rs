//! Per-address tables: vectors of `(address, value)` pairs, one pair per
//! address, kept in the order in which the addresses were first seen.
use vstd::prelude::*;

verus! {

/// No address appears twice.
pub open spec fn keys_unique<V>(s: Seq<(u32, V)>) -> bool {
    forall|i: int, j: int|
        0 <= i < s.len() && 0 <= j < s.len() && #[trigger] s[i].0 == #[trigger] s[j].0 ==> i == j
}

/// The table has an entry for `k`.
pub open spec fn has_key<V>(s: Seq<(u32, V)>, k: u32) -> bool {
    exists|i: int| 0 <= i < s.len() && #[trigger] s[i].0 == k
}

/// Position of the entry for `k`, when there is one.
pub open spec fn index_of<V>(s: Seq<(u32, V)>, k: u32) -> int {
    choose|i: int| 0 <= i < s.len() && #[trigger] s[i].0 == k
}

/// In a table with unique keys, the entry found at `i` is the entry of its key.
pub proof fn lemma_index_of<V>(s: Seq<(u32, V)>, i: int)
    requires
        keys_unique(s),
        0 <= i < s.len(),
    ensures
        has_key(s, s[i].0),
        index_of(s, s[i].0) == i,
{
    assert(has_key(s, s[i].0));
    let j = index_of(s, s[i].0);
    assert(s[j].0 == s[i].0);
}

/// Writing a value at the entry of its own key keeps the keys unique and
/// leaves the other entries where they were.
pub proof fn lemma_update_entry<V>(s: Seq<(u32, V)>, i: int, v: V)
    requires
        keys_unique(s),
        0 <= i < s.len(),
    ensures
        keys_unique(s.update(i, (s[i].0, v))),
        forall|k: u32| has_key(s.update(i, (s[i].0, v)), k) == has_key(s, k),
        forall|k: u32|
            has_key(s, k) && k != s[i].0 ==> index_of(s.update(i, (s[i].0, v)), k) == index_of(
                s,
                k,
            ),
        index_of(s.update(i, (s[i].0, v)), s[i].0) == i,
{
    let t = s.update(i, (s[i].0, v));
    assert forall|k: u32| has_key(t, k) == has_key(s, k) by {
        if has_key(s, k) {
            let j = index_of(s, k);
            assert(t[j].0 == k);
        }
        if has_key(t, k) {
            let j = index_of(t, k);
            assert(s[j].0 == k);
        }
    }
    assert forall|k: u32| has_key(s, k) && k != s[i].0 implies index_of(t, k) == index_of(s, k) by {
        let j = index_of(s, k);
        assert(t[j].0 == k);
        lemma_index_of(t, j);
    }
    lemma_index_of(t, i);
}

/// Appending an entry for a new key keeps the keys unique and leaves the
/// other entries where they were.
pub proof fn lemma_push_entry<V>(s: Seq<(u32, V)>, k: u32, v: V)
    requires
        keys_unique(s),
        !has_key(s, k),
    ensures
        keys_unique(s.push((k, v))),
        forall|x: u32| has_key(s.push((k, v)), x) == (has_key(s, x) || x == k),
        forall|x: u32| has_key(s, x) ==> index_of(s.push((k, v)), x) == index_of(s, x),
        index_of(s.push((k, v)), k) == s.len(),
{
    let t = s.push((k, v));
    assert forall|a: int, b: int|
        0 <= a < t.len() && 0 <= b < t.len() && #[trigger] t[a].0 == #[trigger] t[b].0 implies a
        == b by {
        if a < s.len() && b < s.len() {
            assert(s[a].0 == s[b].0);
        } else if a < s.len() {
            assert(s[a].0 == k);
        } else if b < s.len() {
            assert(s[b].0 == k);
        }
    }
    assert forall|x: u32| has_key(t, x) == (has_key(s, x) || x == k) by {
        if has_key(s, x) {
            let j = index_of(s, x);
            assert(t[j].0 == x);
        }
        if x == k {
            assert(t[s.len() as int].0 == x);
        }
        if has_key(t, x) && x != k {
            let j = index_of(t, x);
            assert(j < s.len());
            assert(s[j].0 == x);
        }
    }
    assert forall|x: u32| has_key(s, x) implies index_of(t, x) == index_of(s, x) by {
        let j = index_of(s, x);
        assert(t[j].0 == x);
        lemma_index_of(t, j);
    }
    assert(t[s.len() as int].0 == k);
    lemma_index_of(t, s.len() as int);
}

/// Position of the entry for `k`.
pub fn find_index<V>(s: &Vec<(u32, V)>, k: u32) -> (r: Option<usize>)
    ensures
        r matches Some(i) ==> i < s@.len() && s@[i as int].0 == k,
        r is None <==> !has_key(s@, k),
        keys_unique(s@) && r is Some ==> r->Some_0 == index_of(s@, k),
{
    let mut i: usize = 0;
    while i < s.len()
        invariant
            i <= s@.len(),
            forall|j: int| 0 <= j < i ==> #[trigger] s@[j].0 != k,
        decreases s@.len() - i,
    {
        if s[i].0 == k {
            proof {
                if keys_unique(s@) {
                    lemma_index_of(s@, i as int);
                }
            }
            return Some(i);
        }
        i = i + 1;
    }
    None
}

} // verus!
