use std::collections::hash_map::DefaultHasher;
use std::hash::{Hash, Hasher};

use btor_facade::handles::{RefLedger, TermHandle};

fn hash_of(t: &TermHandle) -> u64 {
    let mut h = DefaultHasher::new();
    t.hash(&mut h);
    h.finish()
}

#[test]
fn a_fresh_term_holds_one_reference_unit() {
    let mut ledger = RefLedger::new();
    let t = ledger.create_term();
    assert_eq!(ledger.count_of(&t), 1);
    assert!(ledger.is_live(&t));
}

#[test]
fn clone_and_drop_keep_the_count_at_the_live_handles() {
    let mut ledger = RefLedger::new();
    let t = ledger.create_term();
    let c1 = ledger.clone_term(&t);
    let c2 = ledger.clone_term(&t);
    assert_eq!(ledger.count_of(&t), 3);
    assert!(!ledger.drop_term(c1));
    assert_eq!(ledger.count_of(&t), 2);
    assert!(!ledger.drop_term(c2));
    assert_eq!(ledger.count_of(&t), 1);
    assert!(ledger.drop_term(t));
}

#[test]
fn the_final_release_is_reported_exactly_once() {
    let mut ledger = RefLedger::new();
    let t = ledger.create_term();
    let c = ledger.clone_term(&t);
    let freed_first = ledger.drop_term(t);
    assert!(!freed_first);
    assert!(ledger.drop_term(c));
}

#[test]
fn a_clone_equals_and_hashes_like_its_original() {
    let mut ledger = RefLedger::new();
    let t = ledger.create_term();
    let c = ledger.clone_term(&t);
    assert_eq!(c, t);
    assert_eq!(hash_of(&c), hash_of(&t));
}

#[test]
fn independent_allocations_are_never_equal() {
    let mut ledger = RefLedger::new();
    let x = ledger.create_term();
    let y = ledger.create_term();
    assert_ne!(x, y);
}

#[test]
fn dropping_one_operand_leaves_its_sibling_live() {
    let mut ledger = RefLedger::new();
    let x = ledger.create_term();
    let y = ledger.create_term();
    let built = ledger.create_term();
    assert!(ledger.drop_term(x));
    assert!(ledger.is_live(&y));
    assert!(ledger.is_live(&built));
    assert_eq!(ledger.count_of(&built), 1);
}
