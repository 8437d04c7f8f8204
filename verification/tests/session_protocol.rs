use btor_facade::fault::Fault;
use btor_facade::protocol::{decode_status, Protocol, SatResult};
use btor_facade::sorts::{classify_foreign_sort, classify_width, Sort};

#[test]
fn documented_status_codes_decode() {
    assert_eq!(decode_status(10), Ok(SatResult::Sat));
    assert_eq!(decode_status(20), Ok(SatResult::Unsat));
}

#[test]
fn undocumented_status_codes_are_internal_consistency_faults() {
    for code in [0u32, 1, 11, 19, 21, 30, u32::MAX] {
        assert_eq!(decode_status(code), Err(Fault::InternalConsistency));
    }
}

#[test]
fn fresh_session_answers_no_queries() {
    let p = Protocol::new();
    assert!(!p.may_extract_value());
    assert!(!p.may_query_failed());
}

#[test]
fn satisfiable_solve_opens_value_extraction() {
    let mut p = Protocol::new();
    p.note_solve(SatResult::Sat, 0);
    assert!(p.may_extract_value());
    assert!(!p.may_query_failed());
}

#[test]
fn unsatisfiable_solve_under_assumptions_opens_failed_queries() {
    let mut p = Protocol::new();
    p.note_solve(SatResult::Unsat, 2);
    assert!(!p.may_extract_value());
    assert!(p.may_query_failed());
}

#[test]
fn unsatisfiable_solve_without_assumptions_opens_nothing() {
    let mut p = Protocol::new();
    p.note_solve(SatResult::Unsat, 0);
    assert!(!p.may_extract_value());
    assert!(!p.may_query_failed());
}

#[test]
fn assertion_drops_the_standing_result() {
    let mut p = Protocol::new();
    p.note_solve(SatResult::Sat, 1);
    assert!(p.may_extract_value());
    p.note_assert();
    assert!(!p.may_extract_value());
    assert!(!p.may_query_failed());
}

#[test]
fn solve_outcome_is_independent_of_history() {
    // Two sessions with different histories agree after one final call.
    let mut p1 = Protocol::new();
    let mut p2 = Protocol::new();
    p1.note_solve(SatResult::Unsat, 5);
    p1.note_assert();
    p1.note_solve(SatResult::Sat, 0);
    p2.note_solve(SatResult::Sat, 3);
    p1.note_solve(SatResult::Unsat, 1);
    p2.note_solve(SatResult::Unsat, 1);
    assert_eq!(p1, p2);
    assert!(p1.may_query_failed());
}

#[test]
fn width_one_classifies_as_boolean() {
    assert_eq!(classify_width(1), Sort::Bool);
    assert_eq!(classify_width(2), Sort::Bitvec { width: 2 });
    assert_eq!(classify_width(8), Sort::Bitvec { width: 8 });
}

#[test]
fn sort_widths_at_the_foreign_boundary() {
    assert_eq!(Sort::Bool.width(), 1);
    assert_eq!(Sort::Bitvec { width: 5 }.width(), 5);
}

#[test]
fn foreign_bitvec_sorts_classify_and_others_fault() {
    assert_eq!(classify_foreign_sort(true, 1), Ok(Sort::Bool));
    assert_eq!(classify_foreign_sort(true, 8), Ok(Sort::Bitvec { width: 8 }));
    assert_eq!(classify_foreign_sort(false, 0), Err(Fault::UnhandledSort));
}
