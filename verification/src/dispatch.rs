//! Decisions of the event dispatcher: whether a ready notification spawns
//! the background poller, and what a message is answered with.

use vstd::prelude::*;
use crate::gate::ReadinessGate;

verus! {

/// The dispatcher's shared state: a readiness gate that makes starting the
/// poller a one-shot decision. The caller serialises concurrent
/// notifications onto this state; each notification is then one `on_ready`
/// step.
pub struct Dispatcher {
    gate: ReadinessGate,
}

impl Dispatcher {
    /// Whether a ready notification has already started the poller.
    pub closed spec fn spec_poller_started(&self) -> bool {
        self.gate.spec_started()
    }

    /// A fresh dispatcher: no poller started yet.
    pub fn new() -> (dispatcher: Dispatcher)
        ensures
            !dispatcher.spec_poller_started(),
    {
        Dispatcher { gate: ReadinessGate::new() }
    }

    /// Decide a ready notification, which the gateway may deliver any number
    /// of times. Returns true exactly on the first call — that caller must
    /// spawn the poller; every later notification is a no-op.
    pub fn on_ready(&mut self) -> (spawn: bool)
        ensures
            spawn == !old(self).spec_poller_started(),
            final(self).spec_poller_started(),
    {
        self.gate.try_start()
    }
}

/// The reply sent for a recognised ping.
pub fn ping_reply() -> (reply: String)
    ensures
        reply@ == "Pong!"@,
{
    String::from_str("Pong!")
}

/// Decide a message notification's inline fast path: the literal command
/// `!ping` is answered with `Pong!`; every other message gets no reply here
/// (the command router handles it). Independent of the dispatcher's state.
pub fn on_message(content: &String) -> (reply: Option<String>)
    ensures
        content@ == "!ping"@ ==> (reply matches Some(text) && text@ == "Pong!"@),
        content@ != "!ping"@ ==> reply is None,
{
    let command = String::from_str("!ping");
    if *content == command {
        Some(ping_reply())
    } else {
        None
    }
}

} // verus!
