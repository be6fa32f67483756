//! The readiness gate: a one-shot flag that lets exactly one ready
//! notification win the right to spawn the background poller.

use vstd::prelude::*;

verus! {

/// A one-shot start flag, initially unset. `try_start` reads and sets it in
/// one step, so of any number of callers exactly the first wins. The caller
/// that shares a gate between concurrent tasks serialises access to it (for
/// instance behind a mutex); each serialised call is then one `try_start`
/// step, and the single-start law below covers every interleaving.
pub struct ReadinessGate {
    started: bool,
}

impl ReadinessGate {
    /// Whether the poller has already been started through this gate.
    pub closed spec fn spec_started(&self) -> bool {
        self.started
    }

    /// A fresh gate: no poller started yet.
    pub fn new() -> (gate: ReadinessGate)
        ensures
            !gate.spec_started(),
    {
        ReadinessGate { started: false }
    }

    /// Read-and-set: reports a win exactly when the flag was still unset,
    /// and leaves the flag set in every case. The winner must spawn the
    /// poller; every other caller must do nothing.
    pub fn try_start(&mut self) -> (won: bool)
        ensures
            won == !old(self).spec_started(),
            final(self).spec_started(),
    {
        let was_started = self.started;
        self.started = true;
        !was_started
    }
}

/// `states` and `results` record a run of `try_start` calls on one gate:
/// `states[i]` is the flag before call `i`, `results[i]` what call `i`
/// returned, and the flag starts unset. Each step follows `try_start`'s
/// contract: it returns the negation of the flag and leaves the flag set.
pub open spec fn is_gate_history(states: Seq<bool>, results: Seq<bool>) -> bool {
    &&& states.len() == results.len() + 1
    &&& !states[0]
    &&& forall|i: int|
        #![trigger results[i]]
        0 <= i < results.len() ==> results[i] == !states[i] && states[i + 1]
}

/// Single-start law: in any run of one or more `try_start` calls on a fresh
/// gate, the first call wins and every later call loses — exactly one caller
/// is ever told to spawn the poller, whatever the interleaving that produced
/// the run.
pub proof fn lemma_single_start(states: Seq<bool>, results: Seq<bool>)
    requires
        is_gate_history(states, results),
        results.len() >= 1,
    ensures
        results[0],
        forall|i: int| 1 <= i < results.len() ==> !(#[trigger] results[i]),
{
    assert forall|i: int| 1 <= i < results.len() implies !(#[trigger] results[i]) by {
        let prev = results[i - 1];
        assert(prev == !states[i - 1] && states[i - 1 + 1]);
        assert(states[i]);
    }
}

} // verus!
