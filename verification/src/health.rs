//! Classification of a health-check outcome into a binary status, and the
//! presence text that each status maps to.

use vstd::prelude::*;

verus! {

/// The binary health status of the watched service. Any outcome other than a
/// clean success response counts as `Down`; transient network trouble is
/// deliberately not distinguished from a genuine outage.
#[derive(Clone, Copy, Debug, PartialEq, Eq, Structural)]
pub enum HealthStatus {
    Up,
    Down,
}

/// The outcome of one health-check request: either an HTTP response with its
/// status code, or a transport-level failure (timeout, DNS, connection, TLS)
/// that produced no response at all.
#[derive(Clone, Copy, Debug, PartialEq, Eq, Structural)]
pub enum FetchOutcome {
    Status(u16),
    TransportFailure,
}

/// The HTTP status code that counts as the service being up.
pub const SUCCESS_CODE: u16 = 200;

/// A response with status code 200 means `Up`; every other code, and every
/// transport failure, means `Down`.
pub open spec fn spec_classify(outcome: FetchOutcome) -> HealthStatus {
    match outcome {
        FetchOutcome::Status(code) => if code == SUCCESS_CODE {
            HealthStatus::Up
        } else {
            HealthStatus::Down
        },
        FetchOutcome::TransportFailure => HealthStatus::Down,
    }
}

/// Classify one health-check outcome. Total: every outcome, including a
/// transport failure, yields a status; nothing is propagated to the caller.
pub fn classify(outcome: FetchOutcome) -> (status: HealthStatus)
    ensures
        status == spec_classify(outcome),
{
    match outcome {
        FetchOutcome::Status(code) => if code == SUCCESS_CODE {
            HealthStatus::Up
        } else {
            HealthStatus::Down
        },
        FetchOutcome::TransportFailure => HealthStatus::Down,
    }
}

/// The presence text shown for each status.
pub open spec fn spec_presence_text(status: HealthStatus) -> Seq<char> {
    match status {
        HealthStatus::Up => "Blue Protocol is Up!"@,
        HealthStatus::Down => "Blue Protocol is Down!"@,
    }
}

/// Map a status to the activity string the gateway displays. A pure function
/// of the status: no other input influences the text.
pub fn presence_text(status: HealthStatus) -> (text: String)
    ensures
        text@ == spec_presence_text(status),
{
    match status {
        HealthStatus::Up => String::from_str("Blue Protocol is Up!"),
        HealthStatus::Down => String::from_str("Blue Protocol is Down!"),
    }
}

/// Classification is total: every outcome is mapped to exactly one of the two
/// statuses.
pub proof fn lemma_classification_total(outcome: FetchOutcome)
    ensures
        spec_classify(outcome) == HealthStatus::Up || spec_classify(outcome)
            == HealthStatus::Down,
{
}

/// Classification is correct: status code 200 yields `Up`, and every other
/// code as well as a transport failure yields `Down`.
pub proof fn lemma_classification_correct(outcome: FetchOutcome)
    ensures
        outcome == FetchOutcome::Status(SUCCESS_CODE) ==> spec_classify(outcome)
            == HealthStatus::Up,
        outcome != FetchOutcome::Status(SUCCESS_CODE) ==> spec_classify(outcome)
            == HealthStatus::Down,
{
}

} // verus!
