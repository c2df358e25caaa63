//! The background-task supervisor's result channels, modelled as one-shot
//! buffering slots: the spawned task deposits exactly one terminal outcome,
//! and the orchestrator takes it exactly once, later and in its own order.
use vstd::prelude::*;

verus! {

/// A single-producer, single-consumer result slot. The producer side is
/// moved into the spawned task; the consumer side stays with the
/// orchestrator and is resolved at most once.
#[derive(Debug)]
pub struct ResultSlot<T> {
    pub slot: Option<T>,
    pub taken: bool,
}

impl<T> ResultSlot<T> {
    /// The paired task has not completed yet.
    pub open spec fn pending(self) -> bool {
        self.slot is None && !self.taken
    }

    /// The paired task has completed and its outcome is buffered.
    pub open spec fn completed(self) -> bool {
        self.slot is Some && !self.taken
    }

    /// The state after the paired task deposits its outcome.
    pub open spec fn spec_complete(self, v: T) -> ResultSlot<T> {
        ResultSlot { slot: Some(v), taken: self.taken }
    }

    pub fn new() -> (r: ResultSlot<T>)
        ensures
            r.pending(),
    {
        ResultSlot { slot: None, taken: false }
    }

    /// The spawned task's side: deposit the terminal outcome, success or
    /// failure. The value is buffered even when nothing is waiting for it.
    pub fn complete(&mut self, v: T)
        requires
            old(self).pending(),
        ensures
            *final(self) == old(self).spec_complete(v),
            final(self).completed(),
            final(self).slot == Some(v),
    {
        self.slot = Some(v);
    }

    /// The orchestrator's side: resolve the channel. A completed slot
    /// resolves immediately with the deposited outcome; nothing is awaited
    /// and nothing else is touched, so this step can never block.
    pub fn resolve(&mut self) -> (v: T)
        requires
            old(self).completed(),
        ensures
            final(self).taken,
            old(self).slot == Some(v),
    {
        self.taken = true;
        let v = self.slot.take();
        match v {
            Some(x) => x,
            None => unreached(),
        }
    }
}

/// Resolves the two background channels in the finalizer's fixed order:
/// the connection-driving task's first, the proving task's second.
pub fn resolve_both_in_order<C, P>(conn: &mut ResultSlot<C>, prov: &mut ResultSlot<P>) -> (r: (
    C,
    P,
))
    requires
        old(conn).completed(),
        old(prov).completed(),
    ensures
        old(conn).slot == Some(r.0),
        old(prov).slot == Some(r.1),
        final(conn).taken,
        final(prov).taken,
{
    let c = conn.resolve();
    let p = prov.resolve();
    (c, p)
}

/// The supervisor's state: the connection-driving task's slot and the
/// proving task's slot, after the connection task deposits `c`.
pub open spec fn deposit_conn<C, P>(s: (ResultSlot<C>, ResultSlot<P>), c: C) -> (
    ResultSlot<C>,
    ResultSlot<P>,
) {
    (s.0.spec_complete(c), s.1)
}

/// The supervisor's state after the proving task deposits `p`.
pub open spec fn deposit_prov<C, P>(s: (ResultSlot<C>, ResultSlot<P>), p: P) -> (
    ResultSlot<C>,
    ResultSlot<P>,
) {
    (s.0, s.1.spec_complete(p))
}

/// Law: the channels buffer one completed value each, so the finalizer's
/// fixed resolution order cannot deadlock even when the proving task
/// finishes first: from two pending slots, depositing the two outcomes in
/// either order reaches the same state, in which both slots are completed
/// and resolving the connection slot first and the proving slot second
/// returns exactly the deposited outcomes.
pub proof fn lemma_resolution_order_never_deadlocks<C, P>(
    s: (ResultSlot<C>, ResultSlot<P>),
    c: C,
    p: P,
)
    requires
        s.0.pending(),
        s.1.pending(),
    ensures
        deposit_prov(deposit_conn(s, c), p) == deposit_conn(deposit_prov(s, p), c),
        deposit_prov(deposit_conn(s, c), p).0.completed(),
        deposit_prov(deposit_conn(s, c), p).1.completed(),
        deposit_prov(deposit_conn(s, c), p).0.slot == Some(c),
        deposit_prov(deposit_conn(s, c), p).1.slot == Some(p),
{
}

} // verus!
