//! The ordered-set store and the expiry index, exercised directly.

use product_ledger::expiry;
use product_ledger::ordered_set;
use product_ledger::ordered_set::AlreadyPresent;
use product_ledger::ordered_set::NotPresent;

#[test]
fn insert_unique_keeps_order_and_rejects_duplicates() {
    let mut s: Vec<u64> = Vec::new();
    assert_eq!(ordered_set::insert_unique(&mut s, 20), Ok(()));
    assert_eq!(ordered_set::insert_unique(&mut s, 10), Ok(()));
    assert_eq!(ordered_set::insert_unique(&mut s, 30), Ok(()));
    assert_eq!(s, vec![10, 20, 30]);
    assert_eq!(ordered_set::insert_unique(&mut s, 20), Err(AlreadyPresent));
    assert_eq!(s, vec![10, 20, 30]);
}

#[test]
fn contains_finds_members_only() {
    let mut s: Vec<u64> = Vec::new();
    assert!(!ordered_set::contains(&s, 10));
    assert_eq!(ordered_set::insert_unique(&mut s, 10), Ok(()));
    assert_eq!(ordered_set::insert_unique(&mut s, 30), Ok(()));
    assert!(ordered_set::contains(&s, 10));
    assert!(ordered_set::contains(&s, 30));
    assert!(!ordered_set::contains(&s, 20));
}

#[test]
fn remove_if_present_removes_members_only() {
    let mut s: Vec<u64> = Vec::new();
    assert_eq!(ordered_set::insert_unique(&mut s, 10), Ok(()));
    assert_eq!(ordered_set::insert_unique(&mut s, 20), Ok(()));
    assert_eq!(ordered_set::remove_if_present(&mut s, 10), Ok(()));
    assert_eq!(s, vec![20]);
    assert_eq!(ordered_set::remove_if_present(&mut s, 10), Err(NotPresent));
    assert_eq!(s, vec![20]);
}

#[test]
fn schedule_orders_by_tick_then_hash() {
    let mut e: Vec<(u64, u64)> = Vec::new();
    expiry::schedule(&mut e, 9, 2);
    expiry::schedule(&mut e, 5, 7);
    expiry::schedule(&mut e, 9, 1);
    assert_eq!(e, vec![(5, 7), (9, 1), (9, 2)]);
    expiry::schedule(&mut e, 9, 1);
    assert_eq!(e, vec![(5, 7), (9, 1), (9, 2)]);
}

#[test]
fn unschedule_hash_drops_every_entry_for_that_hash() {
    let mut e: Vec<(u64, u64)> = Vec::new();
    expiry::schedule(&mut e, 5, 7);
    expiry::schedule(&mut e, 6, 7);
    expiry::schedule(&mut e, 6, 8);
    expiry::unschedule_hash(&mut e, 7);
    assert_eq!(e, vec![(6, 8)]);
    expiry::unschedule_hash(&mut e, 9);
    assert_eq!(e, vec![(6, 8)]);
}

#[test]
fn take_due_returns_exactly_the_due_hashes() {
    let mut e: Vec<(u64, u64)> = Vec::new();
    expiry::schedule(&mut e, 5, 7);
    expiry::schedule(&mut e, 6, 3);
    expiry::schedule(&mut e, 6, 9);
    expiry::schedule(&mut e, 8, 4);
    let mut due = expiry::take_due(&mut e, 6);
    due.sort();
    assert_eq!(due, vec![3, 9]);
    assert_eq!(e, vec![(5, 7), (8, 4)]);
    let due_again = expiry::take_due(&mut e, 6);
    assert_eq!(due_again, vec![]);
}
