//! A typed term-algebra facade over an external bit-vector satisfiability
//! engine that is reached through an opaque, reference-counted foreign handle
//! interface.
//!
//! The verified core is the decision logic of that facade: the closed operator
//! vocabulary and its dispatch table onto foreign primitives, the sort
//! classification and result-sort rules, the bit-ordering codec for constants
//! and satisfying assignments, the solve-status decoding, the solve-protocol
//! state machine, and a reference-count ledger modelling handle lifetime. The
//! foreign engine itself stays outside this crate: a thin unverified layer
//! makes the actual calls and consults these functions for every decision.

pub mod codec;
pub mod fault;
pub mod handles;
pub mod ops;
pub mod protocol;
pub mod sorts;
