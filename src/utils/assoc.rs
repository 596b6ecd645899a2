//! Association lists keyed by text: `Vec<(String, T)>` read as a map in which a
//! later entry shadows an earlier one with the same key.
use crate::utils::text::text_eq;
use vstd::prelude::*;

verus! {

/// The value stored under `key`: the last entry with that key, if any.
pub open spec fn assoc_get<T>(s: Seq<(String, T)>, key: Seq<char>) -> Option<T>
    decreases s.len(),
{
    if s.len() == 0 {
        None
    } else if s.last().0@ == key {
        Some(s.last().1)
    } else {
        assoc_get(s.drop_last(), key)
    }
}

/// No two entries share a key.
pub open spec fn keys_unique<T>(s: Seq<(String, T)>) -> bool {
    forall|i: int, j: int|
        0 <= i < s.len() && 0 <= j < s.len() && i != j ==> #[trigger] s[i].0@ != #[trigger] s[j].0@
}

/// Whether some entry has the key.
pub open spec fn has_key<T>(s: Seq<(String, T)>, key: Seq<char>) -> bool {
    exists|i: int| 0 <= i < s.len() && #[trigger] s[i].0@ == key
}

/// An entry that no later entry shadows gives the value.
pub proof fn lemma_get_at<T>(s: Seq<(String, T)>, key: Seq<char>, i: int)
    requires
        0 <= i < s.len(),
        s[i].0@ == key,
        forall|j: int| i < j < s.len() ==> #[trigger] s[j].0@ != key,
    ensures
        assoc_get(s, key) == Some(s[i].1),
    decreases s.len(),
{
    if i != s.len() - 1 {
        assert(s.last().0@ != key);
        let t = s.drop_last();
        assert forall|j: int| i < j < t.len() implies #[trigger] t[j].0@ != key by {
            assert(t[j] == s[j]);
        }
        lemma_get_at(t, key, i);
    }
}

/// A key on no entry has no value.
pub proof fn lemma_get_absent<T>(s: Seq<(String, T)>, key: Seq<char>)
    requires
        forall|j: int| 0 <= j < s.len() ==> #[trigger] s[j].0@ != key,
    ensures
        assoc_get(s, key) is None,
    decreases s.len(),
{
    if s.len() > 0 {
        let t = s.drop_last();
        assert(s.last().0@ != key);
        assert forall|j: int| 0 <= j < t.len() implies #[trigger] t[j].0@ != key by {
            assert(t[j] == s[j]);
        }
        lemma_get_absent(t, key);
    }
}

/// With unique keys, an entry gives the value of its key.
pub proof fn lemma_get_unique<T>(s: Seq<(String, T)>, i: int)
    requires
        keys_unique(s),
        0 <= i < s.len(),
    ensures
        assoc_get(s, s[i].0@) == Some(s[i].1),
{
    let key = s[i].0@;
    assert forall|j: int| i < j < s.len() implies #[trigger] s[j].0@ != key by {}
    lemma_get_at(s, key, i);
}

/// A value is found exactly when some entry carries the key.
pub proof fn lemma_get_some<T>(s: Seq<(String, T)>, key: Seq<char>)
    ensures
        assoc_get(s, key) is Some <==> has_key(s, key),
    decreases s.len(),
{
    if s.len() > 0 {
        let t = s.drop_last();
        lemma_get_some(t, key);
        if has_key(t, key) {
            let j = choose|j: int| 0 <= j < t.len() && #[trigger] t[j].0@ == key;
            assert(s[j].0@ == key);
        }
        if has_key(s, key) && s.last().0@ != key {
            let j = choose|j: int| 0 <= j < s.len() && #[trigger] s[j].0@ == key;
            assert(t[j].0@ == key);
        }
    }
}

/// The index of the last entry whose key is `key`.
pub fn find_key<T>(s: &Vec<(String, T)>, key: &str) -> (r: Option<usize>)
    ensures
        match r {
            Some(i) => {
                &&& i < s@.len()
                &&& s@[i as int].0@ == key@
                &&& assoc_get(s@, key@) == Some(s@[i as int].1)
                &&& forall|j: int| i < j < s@.len() ==> #[trigger] s@[j].0@ != key@
            },
            None => {
                &&& assoc_get(s@, key@) is None
                &&& forall|j: int| 0 <= j < s@.len() ==> #[trigger] s@[j].0@ != key@
            },
        },
{
    let mut i: usize = s.len();
    while i > 0
        invariant
            i <= s@.len(),
            forall|j: int| i <= j < s@.len() ==> #[trigger] s@[j].0@ != key@,
        decreases i,
    {
        let k = &s[i - 1].0;
        if text_eq(k.as_str(), key) {
            proof {
                lemma_get_at(s@, key@, (i - 1) as int);
            }
            return Some(i - 1);
        }
        i = i - 1;
    }
    proof {
        lemma_get_absent(s@, key@);
    }
    None
}

/// The list read as a map.
pub open spec fn assoc_map<T>(s: Seq<(String, T)>) -> Map<Seq<char>, T> {
    Map::new(|k: Seq<char>| assoc_get(s, k) is Some, |k: Seq<char>| assoc_get(s, k)->0)
}

/// Takes the entry of `key` out of the list.
pub fn assoc_remove<T>(s: &mut Vec<(String, T)>, key: &str) -> (r: Option<T>)
    requires
        keys_unique(old(s)@),
    ensures
        keys_unique(final(s)@),
        r == assoc_get(old(s)@, key@),
        assoc_get(final(s)@, key@) is None,
        forall|k: Seq<char>| k != key@ ==> #[trigger] assoc_get(final(s)@, k) == assoc_get(old(s)@, k),
{
    match find_key(s, key) {
        Some(i) => {
            let ghost before = s@;
            let (_, v) = s.remove(i);
            let ghost after = s@;
            proof {
            assert(after =~= before.remove(i as int));
            assert forall|a: int, b: int|
                0 <= a < after.len() && 0 <= b < after.len() && a != b implies #[trigger] after[a].0@
                != #[trigger] after[b].0@ by {
                let a0 = if a < i { a } else { a + 1 };
                let b0 = if b < i { b } else { b + 1 };
                assert(after[a] == before[a0]);
                assert(after[b] == before[b0]);
            }
            assert forall|j: int| 0 <= j < after.len() implies #[trigger] after[j].0@ != key@ by {
                let j0 = if j < i { j } else { j + 1 };
                assert(after[j] == before[j0]);
            }
            lemma_get_absent(after, key@);
            assert forall|k: Seq<char>| k != key@ implies #[trigger] assoc_get(after, k)
                == assoc_get(before, k) by {
                lemma_get_some(before, k);
                lemma_get_some(after, k);
                if has_key(before, k) {
                    let j0 = choose|j: int| 0 <= j < before.len() && #[trigger] before[j].0@ == k;
                    lemma_get_unique(before, j0);
                    let j = if j0 < i { j0 } else { j0 - 1 };
                    assert(j0 != i);
                    assert(after[j] == before[j0]);
                    lemma_get_unique(after, j);
                } else if has_key(after, k) {
                    let j = choose|j: int| 0 <= j < after.len() && #[trigger] after[j].0@ == k;
                    let j0 = if j < i { j } else { j + 1 };
                    assert(after[j] == before[j0]);
                }
            }
            }
            Some(v)
        },
        None => None,
    }
}

/// Stores `v` under `key`, in place of any earlier value.
pub fn assoc_insert<T>(s: &mut Vec<(String, T)>, key: String, v: T)
    requires
        keys_unique(old(s)@),
    ensures
        keys_unique(final(s)@),
        assoc_get(final(s)@, key@) == Some(v),
        forall|k: Seq<char>| k != key@ ==> #[trigger] assoc_get(final(s)@, k) == assoc_get(old(s)@, k),
{
    let _ = assoc_remove(s, key.as_str());
    let ghost mid = s@;
    proof {
        lemma_get_some(mid, key@);
    }
    s.push((key, v));
    let ghost after = s@;
    assert(after.drop_last() =~= mid);
    assert forall|k: Seq<char>| k != key@ implies #[trigger] assoc_get(after, k) == assoc_get(mid, k) by {
        assert(after.last().0@ == key@);
    }
    assert forall|a: int, b: int|
        0 <= a < after.len() && 0 <= b < after.len() && a != b implies #[trigger] after[a].0@
        != #[trigger] after[b].0@ by {
        if a < mid.len() && b < mid.len() {
            assert(after[a] == mid[a]);
            assert(after[b] == mid[b]);
        } else if a < mid.len() {
            assert(after[a] == mid[a]);
        } else {
            assert(after[b] == mid[b]);
        }
    }
}

} // verus!
