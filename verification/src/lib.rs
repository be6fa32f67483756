//! Core logic of a presence-polling chat bot: classifying health-check
//! outcomes, deriving the presence text, gating the single background poller,
//! and deciding how each gateway event is handled.

pub mod dispatch;
pub mod gate;
pub mod health;
pub mod poller;
