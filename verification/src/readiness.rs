use vstd::prelude::*;

verus! {

/// Shared readiness flag for the supervised backend. The flag is monotonic:
/// it starts not ready, can be moved to ready, and never moves back -- no
/// method of this type clears it.
pub struct ReadinessState {
    ready: bool,
}

impl ReadinessState {
    /// True when the flag has been set.
    pub closed spec fn spec_ready(self) -> bool {
        self.ready
    }

    /// A fresh flag: not ready.
    pub fn new() -> (r: ReadinessState)
        ensures
            !r.spec_ready(),
    {
        ReadinessState { ready: false }
    }

    /// Read the flag.
    pub fn is_ready(&self) -> (r: bool)
        ensures
            r == self.spec_ready(),
    {
        self.ready
    }

    /// Set the flag. Idempotent: setting an already-ready flag keeps it ready.
    pub fn mark_ready(&mut self)
        ensures
            final(self).spec_ready(),
    {
        self.ready = true;
    }
}

/// The readiness value after a sequence of observer events, where entry `i`
/// is true when event `i` sets the flag and false when it leaves the flag
/// alone. This is the only way the concurrent observers (output monitor and
/// health prober) ever touch the flag.
pub open spec fn ready_after(init: bool, sets: Seq<bool>) -> bool
    decreases sets.len(),
{
    if sets.len() == 0 {
        init
    } else {
        ready_after(init || sets[0], sets.drop_first())
    }
}

/// The flag ends up set exactly when it started set or some event set it.
pub proof fn lemma_ready_after_closed_form(init: bool, sets: Seq<bool>)
    ensures
        ready_after(init, sets) == (init || exists|k: int| 0 <= k < sets.len() && sets[k]),
    decreases sets.len(),
{
    if sets.len() == 0 {
    } else {
        lemma_ready_after_closed_form(init || sets[0], sets.drop_first());
        if exists|k: int| 0 <= k < sets.drop_first().len() && sets.drop_first()[k] {
            let k = choose|k: int| 0 <= k < sets.drop_first().len() && sets.drop_first()[k];
            assert(sets[k + 1]);
        }
        if exists|k: int| 0 <= k < sets.len() && sets[k] {
            let k = choose|k: int| 0 <= k < sets.len() && sets[k];
            if k > 0 {
                assert(sets.drop_first()[k - 1]);
            }
        }
    }
}

/// Readiness is monotonic: whatever readiness-setting events the observers
/// contribute and in whatever order, once the flag is ready after some prefix
/// of the events it stays ready after every longer prefix -- it only ever
/// moves from not ready to ready, never back.
pub proof fn lemma_readiness_monotone(init: bool, sets: Seq<bool>, i: int, j: int)
    requires
        0 <= i <= j <= sets.len(),
        ready_after(init, sets.take(i)),
    ensures
        ready_after(init, sets.take(j)),
{
    lemma_ready_after_closed_form(init, sets.take(i));
    lemma_ready_after_closed_form(init, sets.take(j));
    if !init {
        let k = choose|k: int| 0 <= k < sets.take(i).len() && sets.take(i)[k];
        assert(sets.take(j)[k]);
    }
}

} // verus!
