use vstd::prelude::*;

use crate::fault::Fault;

verus! {

/// The two documented outcomes of a foreign solve call.
#[derive(Clone, Copy, Debug, PartialEq, Eq, Structural)]
pub enum SatResult {
    Sat,
    Unsat,
}

/// The foreign status code reporting satisfiability.
pub const STATUS_SAT: u32 = 10;

/// The foreign status code reporting unsatisfiability.
pub const STATUS_UNSAT: u32 = 20;

/// The reading of a foreign solve status code: the two documented codes and,
/// for anything else, the internal-consistency fault.
pub open spec fn spec_decode_status(code: u32) -> Result<SatResult, Fault> {
    if code == STATUS_SAT {
        Ok(SatResult::Sat)
    } else if code == STATUS_UNSAT {
        Ok(SatResult::Unsat)
    } else {
        Err(Fault::InternalConsistency)
    }
}

/// Decodes the status code a foreign solve call returned. A code outside the
/// two documented outcomes means the decision procedure broke its contract;
/// no safe recovery is defined, so the fault is handed up as fatal.
pub fn decode_status(code: u32) -> (r: Result<SatResult, Fault>)
    ensures
        r == spec_decode_status(code),
{
    if code == STATUS_SAT {
        Ok(SatResult::Sat)
    } else if code == STATUS_UNSAT {
        Ok(SatResult::Unsat)
    } else {
        Err(Fault::InternalConsistency)
    }
}

/// What a session may be asked after its most recent solve call.
#[derive(Clone, Copy, Debug, PartialEq, Eq, Structural)]
pub enum Phase {
    /// No solve result is standing: the session was just configured, or an
    /// assertion was added after the last solve.
    Configured,
    /// The last solve reported satisfiable and nothing was asserted since:
    /// satisfying values may be extracted.
    ModelReady,
    /// The last solve reported unsatisfiable under `assumed` assumptions and
    /// nothing was asserted since: failed-assumption membership may be
    /// queried when at least one assumption was supplied.
    CoreReady { assumed: usize },
}

/// The phase a session enters when a solve call over `assumed` assumptions
/// comes back with `result`: the new phase depends on that call alone, never
/// on what an earlier call assumed or returned.
pub open spec fn spec_after_solve(result: SatResult, assumed: usize) -> Phase {
    match result {
        SatResult::Sat => Phase::ModelReady,
        SatResult::Unsat => Phase::CoreReady { assumed },
    }
}

/// The solve-protocol state machine of one session.
///
/// The session is created configured, assertions are permanent and never
/// retracted, and assumptions live for exactly one solve call. This tracker
/// decides which queries the foreign boundary may be asked at each point; the
/// unverified layer consults it before every value or failed-assumption call.
#[derive(Clone, Copy, Debug, PartialEq, Eq, Structural)]
pub struct Protocol {
    pub phase: Phase,
}

impl Protocol {
    /// The standing phase.
    pub open spec fn spec_phase(self) -> Phase {
        self.phase
    }

    /// A fresh session: options are fixed at construction and no result is
    /// standing yet.
    pub fn new() -> (p: Protocol)
        ensures
            p.spec_phase() == Phase::Configured,
    {
        Protocol { phase: Phase::Configured }
    }

    /// Records a permanent assertion. Any standing solve result is dropped:
    /// values and failed assumptions speak only of the most recent solve over
    /// the current assertion set.
    pub fn note_assert(&mut self)
        ensures
            final(self).spec_phase() == Phase::Configured,
    {
        self.phase = Phase::Configured;
    }

    /// Records the outcome of a solve call over `assumed` assumptions. The
    /// resulting phase is a function of this call alone.
    pub fn note_solve(&mut self, result: SatResult, assumed: usize)
        ensures
            final(self).spec_phase() == spec_after_solve(result, assumed),
    {
        self.phase = match result {
            SatResult::Sat => Phase::ModelReady,
            SatResult::Unsat => Phase::CoreReady { assumed },
        };
    }

    /// Whether a satisfying value may be extracted now: exactly when the last
    /// solve reported satisfiable and nothing was asserted since.
    pub fn may_extract_value(&self) -> (b: bool)
        ensures
            b == (self.spec_phase() is ModelReady),
    {
        matches!(self.phase, Phase::ModelReady)
    }

    /// Whether failed-assumption membership may be queried now: exactly when
    /// the last solve reported unsatisfiable under at least one assumption
    /// and nothing was asserted since.
    pub fn may_query_failed(&self) -> (b: bool)
        ensures
            b == (self.spec_phase() matches Phase::CoreReady { assumed } && assumed >= 1),
    {
        match self.phase {
            Phase::CoreReady { assumed } => assumed >= 1,
            _ => false,
        }
    }
}

/// The phase a session stands in after a whole history of solve calls, each
/// recorded by `note_solve`: the outcome and assumption count of one call per
/// element, oldest first.
pub open spec fn spec_fold_solves(initial: Phase, calls: Seq<(SatResult, usize)>) -> Phase
    decreases calls.len(),
{
    if calls.len() == 0 {
        initial
    } else {
        let before_last = spec_fold_solves(initial, calls.drop_last());
        spec_step_solve(before_last, calls.last())
    }
}

/// One step of the solve-protocol transition, as `note_solve` makes it: the
/// phase the session held before the call is among the arguments, and the
/// transition discards it.
pub open spec fn spec_step_solve(before: Phase, call: (SatResult, usize)) -> Phase {
    spec_after_solve(call.0, call.1)
}

/// Solve calls are independent: once any solve call has been recorded, the
/// standing phase is a function of the most recent call alone. Two sessions
/// with arbitrary, different histories end in one phase after the same final
/// call, so an earlier assumption set plays no role in what may be asked
/// later.
pub proof fn lemma_solve_independent(
    initial1: Phase,
    history1: Seq<(SatResult, usize)>,
    initial2: Phase,
    history2: Seq<(SatResult, usize)>,
    last_call: (SatResult, usize),
)
    ensures
        spec_fold_solves(initial1, history1.push(last_call)) == spec_fold_solves(
            initial2,
            history2.push(last_call),
        ),
        spec_fold_solves(initial1, history1.push(last_call)) == spec_after_solve(
            last_call.0,
            last_call.1,
        ),
{
}

} // verus!
