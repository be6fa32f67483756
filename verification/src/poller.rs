//! One cycle of the background status poller: classify the latest
//! health-check outcome and decide what to publish, or stop when cancelled.

use vstd::prelude::*;
use crate::health::FetchOutcome;
use crate::health::classify;
use crate::health::presence_text;
use crate::health::spec_classify;
use crate::health::spec_presence_text;

verus! {

/// Seconds the poller suspends between two cycles.
pub const POLL_INTERVAL_SECS: u64 = 10;

/// What the poller loop does after one cycle: publish a presence text and
/// sleep one interval, or stop because cancellation was observed.
pub enum PollDirective {
    Publish(String),
    Stop,
}

/// One poller cycle, given the outcome of this cycle's health check and
/// whether cancellation has been requested. The loop driving this function
/// performs the fetch, the publish and the sleep; every decision is made
/// here. A failed check is an ordinary outcome: it publishes the `Down` text
/// and the loop goes on — only cancellation ever ends it.
pub fn poller_step(cancelled: bool, outcome: FetchOutcome) -> (directive: PollDirective)
    ensures
        cancelled ==> directive is Stop,
        !cancelled ==> (directive matches PollDirective::Publish(text) && text@
            == spec_presence_text(spec_classify(outcome))),
{
    if cancelled {
        PollDirective::Stop
    } else {
        PollDirective::Publish(presence_text(classify(outcome)))
    }
}

} // verus!
