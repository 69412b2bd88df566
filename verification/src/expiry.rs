//! The expiry index: a multimap from a future clock tick to the product
//! hashes whose return window closes at that tick, kept as a `Vec` of
//! `(tick, hash)` pairs in strictly increasing lexicographic order.

use vstd::prelude::*;

verus! {

/// Strict lexicographic order on `(tick, hash)` pairs.
pub open spec fn pair_lt(a: (u64, u64), b: (u64, u64)) -> bool {
    a.0 < b.0 || (a.0 == b.0 && a.1 < b.1)
}

/// A strictly increasing sequence of pairs: no duplicates, sorted by tick
/// and then by hash.
pub open spec fn pair_sorted(s: Seq<(u64, u64)>) -> bool {
    forall|i: int, j: int| 0 <= i < j < s.len() ==> pair_lt(s[i], s[j])
}

/// Schedules `hash` to expire at `tick`. Scheduling an entry that is already
/// present leaves the index unchanged.
pub fn schedule(e: &mut Vec<(u64, u64)>, tick: u64, hash: u64)
    requires
        pair_sorted(old(e)@),
    ensures
        pair_sorted(final(e)@),
        forall|p: (u64, u64)| final(e)@.contains(p) <==> old(e)@.contains(p) || p == (tick, hash),
{
    let mut i: usize = 0;
    while i < e.len() && (e[i].0 < tick || (e[i].0 == tick && e[i].1 < hash))
        invariant
            i <= e@.len(),
            pair_sorted(e@),
            e@ == old(e)@,
            forall|j: int| 0 <= j < i ==> pair_lt(e@[j], (tick, hash)),
        decreases e@.len() - i,
    {
        i = i + 1;
    }
    if i < e.len() && e[i].0 == tick && e[i].1 == hash {
        proof {
            assert(e@[i as int] == (tick, hash));
            assert(e@.contains((tick, hash)));
        }
    } else {
        proof {
            assert forall|j: int| i <= j < e@.len() implies pair_lt((tick, hash), e@[j]) by {
                assert(!pair_lt(e@[i as int], (tick, hash)));
                assert(e@[i as int] != (tick, hash));
                if j > i {
                    assert(pair_lt(e@[i as int], e@[j]));
                }
            }
        }
        e.insert(i, (tick, hash));
        proof {
            lemma_pair_sorted_insert(old(e)@, i as int, (tick, hash));
            assert forall|p: (u64, u64)|
                e@.contains(p) <==> old(e)@.contains(p) || p == (tick, hash) by {
                assert(old(e)@.insert(i as int, (tick, hash)).contains(p) <==> old(e)@.contains(p)
                    || p == (tick, hash));
            }
        }
    }
}

/// Drops every entry scheduled for `hash`, at whatever tick. Used when a
/// refund ends the return window early, so that the sweep never revisits a
/// hash that already left the partially-sold set.
pub fn unschedule_hash(e: &mut Vec<(u64, u64)>, hash: u64)
    requires
        pair_sorted(old(e)@),
    ensures
        pair_sorted(final(e)@),
        forall|p: (u64, u64)| final(e)@.contains(p) <==> old(e)@.contains(p) && p.1 != hash,
{
    loop
        invariant
            pair_sorted(e@),
            forall|p: (u64, u64)| e@.contains(p) ==> old(e)@.contains(p),
            forall|p: (u64, u64)| old(e)@.contains(p) && p.1 != hash ==> e@.contains(p),
            forall|p: (u64, u64)| old(e)@.contains(p) && !e@.contains(p) ==> p.1 == hash,
        ensures
            pair_sorted(e@),
            forall|p: (u64, u64)| e@.contains(p) <==> old(e)@.contains(p) && p.1 != hash,
        decreases e@.len(),
    {
        match find_hash(e, hash) {
            Some(i) => {
                proof {
                    lemma_pair_sorted_remove(e@, i as int);
                }
                e.remove(i);
            },
            None => {
                proof {
                    assert forall|p: (u64, u64)|
                        e@.contains(p) implies old(e)@.contains(p) && p.1 != hash by {
                        let idx = choose|idx: int| 0 <= idx < e@.len() && e@[idx] == p;
                        assert(e@[idx].1 != hash);
                    }
                }
                break ;
            },
        }
    }
}

/// Removes every entry due at exactly `n` and returns their hashes. Entries
/// scheduled for other ticks are untouched.
pub fn take_due(e: &mut Vec<(u64, u64)>, n: u64) -> (due: Vec<u64>)
    requires
        pair_sorted(old(e)@),
    ensures
        pair_sorted(final(e)@),
        forall|p: (u64, u64)| final(e)@.contains(p) <==> old(e)@.contains(p) && p.0 != n,
        forall|h: u64| due@.contains(h) <==> old(e)@.contains((n, h)),
{
    let mut due: Vec<u64> = Vec::new();
    loop
        invariant
            pair_sorted(e@),
            forall|p: (u64, u64)| e@.contains(p) ==> old(e)@.contains(p),
            forall|p: (u64, u64)| old(e)@.contains(p) && p.0 != n ==> e@.contains(p),
            forall|h: u64| due@.contains(h) <==> old(e)@.contains((n, h)) && !e@.contains((n, h)),
        ensures
            pair_sorted(e@),
            forall|p: (u64, u64)| e@.contains(p) <==> old(e)@.contains(p) && p.0 != n,
            forall|h: u64| due@.contains(h) <==> old(e)@.contains((n, h)) && !e@.contains((n, h)),
            forall|j: int| 0 <= j < e@.len() ==> e@[j].0 != n,
        decreases e@.len(),
    {
        match find_tick(e, n) {
            Some(i) => {
                let ghost prev = e@;
                let ghost prev_due = due@;
                let entry = e[i];
                proof {
                    lemma_pair_sorted_remove(e@, i as int);
                }
                e.remove(i);
                due.push(entry.1);
                proof {
                    assert(prev.contains(entry));
                    assert forall|h: u64|
                        due@.contains(h) implies old(e)@.contains(
                        (n, h),
                    ) && !e@.contains((n, h)) by {
                        let idx = choose|idx: int| 0 <= idx < due@.len() && due@[idx] == h;
                        if idx < prev_due.len() {
                            assert(prev_due[idx] == h);
                            assert(prev_due.contains(h));
                        } else {
                            assert(h == entry.1);
                        }
                    }
                    assert forall|h: u64|
                        old(e)@.contains((n, h)) && !e@.contains((n, h)) implies due@.contains(
                        h,
                    ) by {
                        if (n, h) == entry {
                            assert(due@[due@.len() - 1] == h);
                        } else {
                            if prev.contains((n, h)) {
                            } else {
                                assert(prev_due.contains(h));
                            }
                            assert(prev_due.contains(h));
                            let idx = choose|idx: int|
                                0 <= idx < prev_due.len() && prev_due[idx] == h;
                            assert(due@[idx] == h);
                        }
                    }
                }
            },
            None => {
                proof {
                    assert forall|p: (u64, u64)| e@.contains(p) implies p.0 != n by {
                        let idx = choose|idx: int| 0 <= idx < e@.len() && e@[idx] == p;
                        assert(e@[idx].0 != n);
                    }
                }
                break ;
            },
        }
    }
    due
}

/// Linear scan for any entry whose hash is `hash`.
fn find_hash(e: &Vec<(u64, u64)>, hash: u64) -> (r: Option<usize>)
    ensures
        match r {
            Some(i) => i < e@.len() && e@[i as int].1 == hash,
            None => forall|j: int| 0 <= j < e@.len() ==> e@[j].1 != hash,
        },
{
    let mut i: usize = 0;
    while i < e.len()
        invariant
            i <= e@.len(),
            forall|j: int| 0 <= j < i ==> e@[j].1 != hash,
        decreases e@.len() - i,
    {
        if e[i].1 == hash {
            return Some(i);
        }
        i = i + 1;
    }
    None
}

/// Linear scan for any entry whose tick is `n`.
fn find_tick(e: &Vec<(u64, u64)>, n: u64) -> (r: Option<usize>)
    ensures
        match r {
            Some(i) => i < e@.len() && e@[i as int].0 == n,
            None => forall|j: int| 0 <= j < e@.len() ==> e@[j].0 != n,
        },
{
    let mut i: usize = 0;
    while i < e.len()
        invariant
            i <= e@.len(),
            forall|j: int| 0 <= j < i ==> e@[j].0 != n,
        decreases e@.len() - i,
    {
        if e[i].0 == n {
            return Some(i);
        }
        i = i + 1;
    }
    None
}

/// Inserting a pair above everything before the insertion point and below
/// everything after it keeps the index sorted and adds exactly that pair.
proof fn lemma_pair_sorted_insert(s: Seq<(u64, u64)>, i: int, p: (u64, u64))
    requires
        pair_sorted(s),
        0 <= i <= s.len(),
        forall|j: int| 0 <= j < i ==> pair_lt(s[j], p),
        forall|j: int| i <= j < s.len() ==> pair_lt(p, s[j]),
    ensures
        pair_sorted(s.insert(i, p)),
        forall|x: (u64, u64)| s.insert(i, p).contains(x) <==> s.contains(x) || x == p,
{
    let t = s.insert(i, p);
    s.insert_ensures(i, p);
    assert forall|a: int, b: int| 0 <= a < b < t.len() implies pair_lt(t[a], t[b]) by {
        if a < i && b < i {
        } else if a < i && b == i {
        } else if a < i && b > i {
            assert(t[b] == s[b - 1]);
        } else if a == i {
            assert(t[b] == s[b - 1]);
        } else {
            assert(t[a] == s[a - 1]);
            assert(t[b] == s[b - 1]);
        }
    }
    assert forall|x: (u64, u64)| t.contains(x) implies s.contains(x) || x == p by {
        let idx = choose|idx: int| 0 <= idx < t.len() && t[idx] == x;
        if idx < i {
            assert(s[idx] == x);
        } else if idx == i {
        } else {
            assert(s[idx - 1] == x);
        }
    }
    assert forall|x: (u64, u64)| s.contains(x) || x == p implies t.contains(x) by {
        if x == p {
            assert(t[i] == x);
        } else {
            let idx = choose|idx: int| 0 <= idx < s.len() && s[idx] == x;
            if idx < i {
                assert(t[idx] == x);
            } else {
                assert(t[idx + 1] == x);
            }
        }
    }
}

/// Removing one position from a strictly sorted index keeps it sorted and
/// removes exactly that pair.
proof fn lemma_pair_sorted_remove(s: Seq<(u64, u64)>, i: int)
    requires
        pair_sorted(s),
        0 <= i < s.len(),
    ensures
        pair_sorted(s.remove(i)),
        forall|x: (u64, u64)| s.remove(i).contains(x) <==> s.contains(x) && x != s[i],
{
    let t = s.remove(i);
    s.remove_ensures(i);
    assert forall|a: int, b: int| 0 <= a < b < t.len() implies pair_lt(t[a], t[b]) by {
        if a < i && b < i {
        } else if a < i {
            assert(t[b] == s[b + 1]);
        } else {
            assert(t[a] == s[a + 1]);
            assert(t[b] == s[b + 1]);
        }
    }
    assert forall|x: (u64, u64)| t.contains(x) implies s.contains(x) && x != s[i] by {
        let idx = choose|idx: int| 0 <= idx < t.len() && t[idx] == x;
        if idx < i {
            assert(s[idx] == x);
            assert(pair_lt(s[idx], s[i]));
        } else {
            assert(s[idx + 1] == x);
            assert(pair_lt(s[i], s[idx + 1]));
        }
    }
    assert forall|x: (u64, u64)| s.contains(x) && x != s[i] implies t.contains(x) by {
        let idx = choose|idx: int| 0 <= idx < s.len() && s[idx] == x;
        if idx < i {
            assert(t[idx] == x);
        } else {
            assert(t[idx - 1] == x);
        }
    }
}

} // verus!
