//! The ordered-set store: a strictly increasing `Vec<u64>` offering a
//! membership test, insert-if-absent and remove-if-present, each locating
//! its key by binary search. Every registry of the ledger is one of these.

use vstd::prelude::*;

verus! {

/// A strictly increasing sequence: no duplicates, sorted ascending.
pub open spec fn sorted(s: Seq<u64>) -> bool {
    forall|i: int, j: int| 0 <= i < j < s.len() ==> s[i] < s[j]
}

/// The key was already a member, so nothing was inserted.
#[derive(Clone, Copy, PartialEq, Eq, Debug)]
pub struct AlreadyPresent;

/// The key was not a member, so nothing was removed.
#[derive(Clone, Copy, PartialEq, Eq, Debug)]
pub struct NotPresent;

/// Binary search: `Ok(i)` when `set[i] == key`; otherwise `Err(i)` with the
/// sorted insertion point for `key`.
pub fn find(set: &Vec<u64>, key: u64) -> (r: Result<usize, usize>)
    requires
        sorted(set@),
    ensures
        match r {
            Ok(i) => i < set@.len() && set@[i as int] == key,
            Err(i) => {
                &&& i <= set@.len()
                &&& !set@.contains(key)
                &&& forall|j: int| 0 <= j < i ==> set@[j] < key
                &&& forall|j: int| i <= j < set@.len() ==> key < set@[j]
            },
        },
{
    let mut lo: usize = 0;
    let mut hi: usize = set.len();
    while lo < hi
        invariant
            lo <= hi <= set@.len(),
            sorted(set@),
            forall|j: int| 0 <= j < lo ==> set@[j] < key,
            forall|j: int| hi <= j < set@.len() ==> key < set@[j],
        decreases hi - lo,
    {
        let mid = lo + (hi - lo) / 2;
        if set[mid] < key {
            lo = mid + 1;
        } else if key < set[mid] {
            hi = mid;
        } else {
            return Ok(mid);
        }
    }
    Err(lo)
}

/// Membership test on a sorted set.
pub fn contains(set: &Vec<u64>, key: u64) -> (r: bool)
    requires
        sorted(set@),
    ensures
        r == set@.contains(key),
{
    match find(set, key) {
        Ok(i) => {
            proof {
                assert(set@[i as int] == key);
            }
            true
        },
        Err(_) => false,
    }
}

/// Inserts `key` at its sorted position; fails, changing nothing, when the
/// key is already a member.
pub fn insert_unique(set: &mut Vec<u64>, key: u64) -> (r: Result<(), AlreadyPresent>)
    requires
        sorted(old(set)@),
    ensures
        sorted(final(set)@),
        r is Ok <==> !old(set)@.contains(key),
        r is Err ==> final(set)@ == old(set)@,
        r is Ok ==> final(set)@.len() == old(set)@.len() + 1,
        r is Ok ==> forall|x: u64|
            final(set)@.contains(x) <==> old(set)@.contains(x) || x == key,
{
    match find(set, key) {
        Ok(i) => {
            proof {
                assert(set@[i as int] == key);
            }
            Err(AlreadyPresent)
        },
        Err(i) => {
            set.insert(i, key);
            proof {
                lemma_sorted_insert(old(set)@, i as int, key);
            }
            Ok(())
        },
    }
}

/// Removes `key` from its sorted position; fails, changing nothing, when the
/// key is absent.
pub fn remove_if_present(set: &mut Vec<u64>, key: u64) -> (r: Result<(), NotPresent>)
    requires
        sorted(old(set)@),
    ensures
        sorted(final(set)@),
        r is Ok <==> old(set)@.contains(key),
        r is Err ==> final(set)@ == old(set)@,
        r is Ok ==> final(set)@.len() == old(set)@.len() - 1,
        forall|x: u64| final(set)@.contains(x) <==> old(set)@.contains(x) && x != key,
{
    match find(set, key) {
        Ok(i) => {
            proof {
                assert(set@[i as int] == key);
                lemma_sorted_remove(set@, i as int);
            }
            set.remove(i);
            Ok(())
        },
        Err(_) => Err(NotPresent),
    }
}

/// Inserting at the insertion point that `find` reports keeps the sequence
/// strictly sorted and adds exactly the new key to the members.
proof fn lemma_sorted_insert(s: Seq<u64>, i: int, key: u64)
    requires
        sorted(s),
        0 <= i <= s.len(),
        forall|j: int| 0 <= j < i ==> s[j] < key,
        forall|j: int| i <= j < s.len() ==> key < s[j],
    ensures
        sorted(s.insert(i, key)),
        forall|x: u64| s.insert(i, key).contains(x) <==> s.contains(x) || x == key,
{
    let t = s.insert(i, key);
    s.insert_ensures(i, key);
    assert forall|a: int, b: int| 0 <= a < b < t.len() implies t[a] < t[b] by {
        if a < i && b < i {
        } else if a < i && b == i {
        } else if a < i && b > i {
            assert(t[b] == s[b - 1]);
        } else if a == i {
            assert(t[b] == s[b - 1]);
        } else {
            assert(t[a] == s[a - 1]);
            assert(t[b] == s[b - 1]);
        }
    }
    assert forall|x: u64| t.contains(x) implies s.contains(x) || x == key by {
        let idx = choose|idx: int| 0 <= idx < t.len() && t[idx] == x;
        if idx < i {
            assert(s[idx] == x);
        } else if idx == i {
        } else {
            assert(s[idx - 1] == x);
        }
    }
    assert forall|x: u64| s.contains(x) || x == key implies t.contains(x) by {
        if x == key {
            assert(t[i] == x);
        } else {
            let idx = choose|idx: int| 0 <= idx < s.len() && s[idx] == x;
            if idx < i {
                assert(t[idx] == x);
            } else {
                assert(t[idx + 1] == x);
            }
        }
    }
}

/// Removing one position from a strictly sorted sequence keeps it sorted and
/// removes exactly that key from the members.
proof fn lemma_sorted_remove(s: Seq<u64>, i: int)
    requires
        sorted(s),
        0 <= i < s.len(),
    ensures
        sorted(s.remove(i)),
        forall|x: u64| s.remove(i).contains(x) <==> s.contains(x) && x != s[i],
{
    let t = s.remove(i);
    s.remove_ensures(i);
    assert forall|a: int, b: int| 0 <= a < b < t.len() implies t[a] < t[b] by {
        if a < i && b < i {
        } else if a < i {
            assert(t[b] == s[b + 1]);
        } else {
            assert(t[a] == s[a + 1]);
            assert(t[b] == s[b + 1]);
        }
    }
    assert forall|x: u64| t.contains(x) implies s.contains(x) && x != s[i] by {
        let idx = choose|idx: int| 0 <= idx < t.len() && t[idx] == x;
        if idx < i {
            assert(s[idx] == x);
        } else {
            assert(s[idx + 1] == x);
        }
    }
    assert forall|x: u64| s.contains(x) && x != s[i] implies t.contains(x) by {
        let idx = choose|idx: int| 0 <= idx < s.len() && s[idx] == x;
        if idx < i {
            assert(t[idx] == x);
        } else {
            assert(t[idx - 1] == x);
        }
    }
}

} // verus!
