//! Polling as a completion signal: the provider exposes no job status, so a
//! workflow re-reads a resource until it shows the wanted state. One
//! decision rule serves every such loop, with an optional cap on failed reads.

use vstd::prelude::*;

verus! {

/// How a polling loop is run: the pause before each read, and how many
/// failed reads it tolerates (`None`: failed reads are simply retried).
#[derive(Clone, Copy)]
pub struct PollPolicy {
    pub interval_secs: u64,
    pub retry_cap: Option<u32>,
}

/// What one read showed.
#[derive(Clone, Copy)]
pub enum PollObservation {
    /// The read itself failed.
    Failed,
    /// The resource was read but is not in the wanted state yet.
    Pending,
    /// The resource is in the wanted state.
    Ready,
}

/// What the loop does next.
#[derive(Clone, Copy)]
pub enum PollDecision {
    /// Read again after the interval; `failures` failed reads so far.
    Retry { failures: u32 },
    /// Too many failed reads: stop without a result.
    GiveUp,
    /// Stop with the result of the last read.
    Complete,
}

pub open spec fn poll_decision(cap: Option<u32>, failures: u32, obs: PollObservation) -> PollDecision {
    match obs {
        PollObservation::Ready => PollDecision::Complete,
        PollObservation::Pending => PollDecision::Retry { failures },
        PollObservation::Failed => match cap {
            None => PollDecision::Retry { failures },
            Some(c) => if failures < c {
                PollDecision::Retry { failures: (failures + 1) as u32 }
            } else {
                PollDecision::GiveUp
            },
        },
    }
}

/// Decides the next move of a polling loop after a read. Only failed reads
/// count against the cap; a read that shows "not yet" costs nothing.
pub fn poll_next(policy: &PollPolicy, failures: u32, obs: PollObservation) -> (r: PollDecision)
    ensures
        r == poll_decision(policy.retry_cap, failures, obs),
{
    match obs {
        PollObservation::Ready => PollDecision::Complete,
        PollObservation::Pending => PollDecision::Retry { failures },
        PollObservation::Failed => match policy.retry_cap {
            None => PollDecision::Retry { failures },
            Some(c) => if failures < c {
                PollDecision::Retry { failures: failures + 1 }
            } else {
                PollDecision::GiveUp
            },
        },
    }
}

} // verus!
