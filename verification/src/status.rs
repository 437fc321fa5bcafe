//! The closed set of statuses a long-running operation reports, their
//! terminal/non-terminal classification, and the decision a poll loop takes
//! after each observation.

use vstd::prelude::*;

verus! {

/// A status reported for a long-running operation.  `Unknown` carries the
/// provider's text when it lies outside the known vocabulary; it is treated
/// as terminal so that an unrecognized response cannot keep a poll loop
/// running forever.
#[derive(Debug, Clone)]
pub enum OperationStatus {
    Succeeded,
    Failed,
    InProgress,
    Canceled,
    Invalid,
    Unknown(String),
}

impl OperationStatus {
    /// Every status but `InProgress` ends polling.
    pub open spec fn spec_terminal(&self) -> bool {
        !(self is InProgress)
    }

    /// Only `Succeeded` counts as a success.
    pub open spec fn spec_succeeded(&self) -> bool {
        self is Succeeded
    }

    /// Whether this status ends polling.
    pub fn is_terminal(&self) -> (r: bool)
        ensures
            r == self.spec_terminal(),
    {
        match self {
            OperationStatus::InProgress => false,
            _ => true,
        }
    }

    /// Whether this status counts as a success.
    pub fn is_succeeded(&self) -> (r: bool)
        ensures
            r == self.spec_succeeded(),
    {
        match self {
            OperationStatus::Succeeded => true,
            _ => false,
        }
    }
}

/// What a poll loop does after one observation: wait the handle's interval
/// and query again, or stop with the terminal status.
pub enum PollStep {
    Retry,
    Complete(OperationStatus),
}

/// The decision taken after one status query: retry exactly when the
/// response carried no status or `InProgress`; anything else ends the loop at
/// once, carrying the observed status out unchanged.  A poll loop driven by
/// this function never stops before a terminal status is observed.
pub fn next_poll_step(observed: Option<OperationStatus>) -> (r: PollStep)
    ensures
        r is Retry <==> (observed is None || (observed matches Some(s) && s is InProgress)),
        r matches PollStep::Complete(t) ==> observed == Some(t) && t.spec_terminal(),
{
    match observed {
        None => PollStep::Retry,
        Some(OperationStatus::InProgress) => PollStep::Retry,
        Some(s) => PollStep::Complete(s),
    }
}

/// The binary wait of the vault-refresh workflow: done exactly on status
/// code 204, No Content; any other code means not yet.
pub fn refresh_complete(status_code: u16) -> (r: bool)
    ensures
        r == (status_code == 204),
{
    status_code == 204
}

} // verus!
