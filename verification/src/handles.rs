use vstd::prelude::*;

use vstd::multiset::Multiset;

verus! {

broadcast use vstd::multiset::group_multiset_axioms;

/// An owned handle to one node of the foreign formula DAG.
///
/// Equality and hashing go by the underlying node identity, never by where
/// the owning value happens to sit: two handles on one node compare and hash
/// equal. The handle carries no reference-duplicating `Clone` of its own;
/// `RefLedger::clone_term` is the one sanctioned way to make a second,
/// independently owned handle on the same node.
#[derive(Debug, PartialEq, Eq, Hash, Structural)]
pub struct TermHandle {
    pub node: usize,
}

impl TermHandle {
    /// Whether this handle points into the ledger's node space.
    pub open spec fn in_ledger(self, l: RefLedger) -> bool {
        self.node < l.counts@.len()
    }
}

/// The reference-count ledger of one session: the mirror of the foreign
/// side's per-node reference counts.
///
/// `counts[n]` is the foreign reference count of node `n`, and the ghost
/// multiset `live` holds one occurrence of `n` for every live handle unit on
/// node `n`. The well-formedness invariant ties the two together: the count
/// of a node always equals the number of live handle units on it, so a
/// release is owed exactly once per unit and the final release of a node is
/// unmistakable.
pub struct RefLedger {
    pub counts: Vec<u64>,
    pub live: Ghost<Multiset<int>>,
}

impl RefLedger {
    /// The per-node counts as the history model reads them.
    pub open spec fn spec_counts(self) -> Seq<nat> {
        self.counts@.map_values(|c: u64| c as nat)
    }

    /// The ledger invariant: every node's count equals the number of live
    /// handle units on it, and no unit lives outside the node space.
    pub open spec fn wf(self) -> bool {
        &&& forall|n: int|
            0 <= n < self.counts@.len() ==> self.counts@[n] as nat == self.live@.count(n)
        &&& forall|n: int| !(0 <= n < self.counts@.len()) ==> self.live@.count(n) == 0
    }

    /// A fresh ledger with no nodes and no live handles.
    pub fn new() -> (l: RefLedger)
        ensures
            l.wf(),
            l.counts@.len() == 0,
            l.live@ == Multiset::<int>::empty(),
    {
        RefLedger { counts: Vec::new(), live: Ghost(Multiset::empty()) }
    }

    /// Models a foreign allocation: a fresh node enters the ledger holding
    /// exactly one reference unit, owned by the returned handle. The handle
    /// differs from every handle already in the ledger, however its sort or
    /// diagnostic symbol may read.
    pub fn create_term(&mut self) -> (t: TermHandle)
        requires
            old(self).wf(),
            old(self).counts@.len() < usize::MAX,
        ensures
            final(self).wf(),
            t.node == old(self).counts@.len(),
            t.in_ledger(*final(self)),
            final(self).counts@ == old(self).counts@.push(1u64),
            final(self).live@ == old(self).live@.insert(t.node as int),
            forall|h: TermHandle| h.in_ledger(*old(self)) ==> h != t,
            final(self).spec_counts() == spec_apply_event(
                old(self).spec_counts(),
                LedgerEvent::Create,
            ),
            final(self).live@ == spec_live_event(
                old(self).spec_counts(),
                old(self).live@,
                LedgerEvent::Create,
            ),
    {
        let node = self.counts.len();
        self.counts.push(1);
        self.live = Ghost(self.live@.insert(node as int));
        proof {
            assert(self.spec_counts() =~= old(self).spec_counts().push(1nat));
        }
        TermHandle { node }
    }

    /// Models a foreign reference-count increment: the one legitimate way to
    /// produce two independent owning handles on one node. The new handle
    /// equals the old one, so equality and hashing survive cloning, while
    /// the node gains exactly one reference unit.
    pub fn clone_term(&mut self, t: &TermHandle) -> (c: TermHandle)
        requires
            old(self).wf(),
            t.in_ledger(*old(self)),
            old(self).counts@[t.node as int] >= 1,
            old(self).counts@[t.node as int] < u64::MAX,
        ensures
            final(self).wf(),
            c == *t,
            final(self).counts@ == old(self).counts@.update(
                t.node as int,
                (old(self).counts@[t.node as int] + 1) as u64,
            ),
            final(self).live@ == old(self).live@.insert(t.node as int),
            final(self).spec_counts() == spec_apply_event(
                old(self).spec_counts(),
                LedgerEvent::Retain { node: t.node as int },
            ),
    {
        let n = self.counts[t.node];
        self.counts.set(t.node, n + 1);
        self.live = Ghost(self.live@.insert(t.node as int));
        proof {
            assert(self.spec_counts() =~= old(self).spec_counts().update(
                t.node as int,
                (old(self).spec_counts()[t.node as int] + 1) as nat,
            ));
        }
        TermHandle { node: t.node }
    }

    /// Models the scope exit of one owning handle: the node loses exactly one
    /// reference unit, and the result says whether that was the last one, in
    /// which case the foreign release frees the node and no further unit
    /// remains to release it again.
    pub fn drop_term(&mut self, t: TermHandle) -> (freed: bool)
        requires
            old(self).wf(),
            t.in_ledger(*old(self)),
            old(self).counts@[t.node as int] >= 1,
        ensures
            final(self).wf(),
            final(self).counts@ == old(self).counts@.update(
                t.node as int,
                (old(self).counts@[t.node as int] - 1) as u64,
            ),
            final(self).live@ == old(self).live@.remove(t.node as int),
            freed <==> old(self).counts@[t.node as int] == 1,
            final(self).spec_counts() == spec_apply_event(
                old(self).spec_counts(),
                LedgerEvent::Release { node: t.node as int },
            ),
    {
        let n = self.counts[t.node];
        self.counts.set(t.node, n - 1);
        self.live = Ghost(self.live@.remove(t.node as int));
        proof {
            assert(self.spec_counts() =~= old(self).spec_counts().update(
                t.node as int,
                (old(self).spec_counts()[t.node as int] - 1) as nat,
            ));
        }
        n == 1
    }

    /// The tracked foreign reference count of the node under a handle.
    pub fn count_of(&self, t: &TermHandle) -> (n: u64)
        requires
            t.in_ledger(*self),
        ensures
            n == self.counts@[t.node as int],
    {
        self.counts[t.node]
    }

    /// Whether at least one handle unit is live on the node under `t`.
    pub fn is_live(&self, t: &TermHandle) -> (b: bool)
        requires
            t.in_ledger(*self),
        ensures
            b == (self.counts@[t.node as int] >= 1),
    {
        self.counts[t.node] >= 1
    }
}

/// Lifetime safety, read off the standing state: in a well-formed ledger the
/// foreign reference count of every node equals the number of live handle
/// units on that node.
pub proof fn lemma_count_equals_live_handles(l: RefLedger, t: TermHandle)
    requires
        l.wf(),
        t.in_ledger(l),
    ensures
        l.counts@[t.node as int] as nat == l.live@.count(t.node as int),
{
}

/// One operation of a handle lifetime history, as the ledger records it:
/// `Create` is a foreign allocation entering with one unit, `Retain` is a
/// handle clone on `node`, and `Release` is a handle drop on `node`.
pub enum LedgerEvent {
    Create,
    Retain { node: int },
    Release { node: int },
}

/// Whether one event is legal on the given per-node counts: a clone or drop
/// needs a node that is in the ledger and still live.
pub open spec fn spec_event_ok(counts: Seq<nat>, e: LedgerEvent) -> bool {
    match e {
        LedgerEvent::Create => true,
        LedgerEvent::Retain { node } => 0 <= node < counts.len() && counts[node] >= 1,
        LedgerEvent::Release { node } => 0 <= node < counts.len() && counts[node] >= 1,
    }
}

/// The per-node counts after one event, exactly as `create_term`,
/// `clone_term` and `drop_term` change them.
pub open spec fn spec_apply_event(counts: Seq<nat>, e: LedgerEvent) -> Seq<nat> {
    match e {
        LedgerEvent::Create => counts.push(1),
        LedgerEvent::Retain { node } => counts.update(node, (counts[node] + 1) as nat),
        LedgerEvent::Release { node } => counts.update(node, (counts[node] - 1) as nat),
    }
}

/// The per-node counts after a whole history, oldest event first.
pub open spec fn spec_apply_history(counts: Seq<nat>, es: Seq<LedgerEvent>) -> Seq<nat>
    decreases es.len(),
{
    if es.len() == 0 {
        counts
    } else {
        spec_apply_event(spec_apply_history(counts, es.drop_last()), es.last())
    }
}

/// Whether every event of a history is legal at its point.
pub open spec fn spec_history_ok(counts: Seq<nat>, es: Seq<LedgerEvent>) -> bool
    decreases es.len(),
{
    if es.len() == 0 {
        true
    } else {
        spec_history_ok(counts, es.drop_last()) && spec_event_ok(
            spec_apply_history(counts, es.drop_last()),
            es.last(),
        )
    }
}

/// The live handle units after one event: a creation brings the one handle
/// of the fresh node, a clone brings one more unit of its node, and a drop
/// takes one unit of its node away.
pub open spec fn spec_live_event(counts: Seq<nat>, live: Multiset<int>, e: LedgerEvent) -> Multiset<
    int,
> {
    match e {
        LedgerEvent::Create => live.insert(counts.len() as int),
        LedgerEvent::Retain { node } => live.insert(node),
        LedgerEvent::Release { node } => live.remove(node),
    }
}

/// The live handle units after a whole history, oldest event first.
pub open spec fn spec_live_history(counts: Seq<nat>, live: Multiset<int>, es: Seq<LedgerEvent>) -> Multiset<
    int,
>
    decreases es.len(),
{
    if es.len() == 0 {
        live
    } else {
        spec_live_event(
            spec_apply_history(counts, es.drop_last()),
            spec_live_history(counts, live, es.drop_last()),
            es.last(),
        )
    }
}

/// Whether per-node counts and live handle units agree: every node in the
/// ledger counts exactly its live units, and no unit lives outside the
/// ledger.
pub open spec fn spec_counts_match(counts: Seq<nat>, live: Multiset<int>) -> bool {
    &&& forall|n: int| 0 <= n < counts.len() ==> counts[n] == live.count(n)
    &&& forall|n: int| !(0 <= n < counts.len()) ==> live.count(n) == 0
}

/// Lifetime safety over histories: for every sequence of create, clone and
/// drop operations that is legal step by step, the foreign reference count
/// of every node after the sequence equals the number of live handle units
/// on that node — provided the two agreed at the start, as they do in a
/// fresh ledger, where both are empty.
pub proof fn lemma_lifetime_safety(counts: Seq<nat>, live: Multiset<int>, es: Seq<LedgerEvent>)
    requires
        spec_counts_match(counts, live),
        spec_history_ok(counts, es),
    ensures
        spec_counts_match(spec_apply_history(counts, es), spec_live_history(counts, live, es)),
    decreases es.len(),
{
    if es.len() > 0 {
        let prev_counts = spec_apply_history(counts, es.drop_last());
        let prev_live = spec_live_history(counts, live, es.drop_last());
        lemma_lifetime_safety(counts, live, es.drop_last());
        let next_counts = spec_apply_event(prev_counts, es.last());
        let next_live = spec_live_event(prev_counts, prev_live, es.last());
        match es.last() {
            LedgerEvent::Create => {
                assert forall|n: int| 0 <= n < next_counts.len() implies next_counts[n]
                    == next_live.count(n) by {
                    if n < prev_counts.len() {
                        assert(next_live.count(n) == prev_live.count(n));
                    } else {
                        assert(prev_live.count(n) == 0);
                    }
                }
            },
            LedgerEvent::Retain { node } => {
                assert forall|n: int| 0 <= n < next_counts.len() implies next_counts[n]
                    == next_live.count(n) by {
                    if n != node {
                        assert(next_live.count(n) == prev_live.count(n));
                    }
                }
            },
            LedgerEvent::Release { node } => {
                assert forall|n: int| 0 <= n < next_counts.len() implies next_counts[n]
                    == next_live.count(n) by {
                    if n != node {
                        assert(next_live.count(n) == prev_live.count(n));
                    }
                }
            },
        }
    }
}

} // verus!
