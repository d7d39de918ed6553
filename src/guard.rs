//! At most one workflow at a time: a request that arrives while one runs is
//! turned away at once instead of interleaving with it. The guard also
//! carries the request to cancel the running workflow's polling wait.

use vstd::prelude::*;
use crate::actions::{ActionResponse, Outcome};

verus! {

pub struct WorkflowGuard {
    in_flight: bool,
    cancel_requested: bool,
}

impl View for WorkflowGuard {
    /// Whether a workflow is running, and whether it was asked to stop.
    type V = (bool, bool);

    closed spec fn view(&self) -> (bool, bool) {
        (self.in_flight, self.cancel_requested)
    }
}

pub open spec fn msg_busy() -> Seq<char> {
    "Another operation is already running!"@
}

pub open spec fn msg_cancelling() -> Seq<char> {
    "cancelling"@
}

pub open spec fn msg_nothing_to_cancel() -> Seq<char> {
    "nothing to cancel"@
}

impl WorkflowGuard {
    /// A guard with no workflow running.
    pub fn new() -> (r: WorkflowGuard)
        ensures
            r@ == (false, false),
    {
        WorkflowGuard { in_flight: false, cancel_requested: false }
    }

    pub fn is_busy(&self) -> (r: bool)
        ensures
            r == self@.0,
    {
        self.in_flight
    }

    /// Claims the guard for a new workflow. Succeeds exactly when none is
    /// running, and then starts with no cancellation pending; otherwise the
    /// guard is unchanged.
    pub fn try_begin(&mut self) -> (r: bool)
        ensures
            r == !old(self)@.0,
            r ==> final(self)@ == (true, false),
            !r ==> final(self)@ == old(self)@,
    {
        if self.in_flight {
            false
        } else {
            self.in_flight = true;
            self.cancel_requested = false;
            true
        }
    }

    /// Asks the running workflow to stop at its next polling pause.
    /// Accepted exactly when a workflow is running.
    pub fn request_cancel(&mut self) -> (r: bool)
        ensures
            r == old(self)@.0,
            final(self)@ == (old(self)@.0, old(self)@.1 || old(self)@.0),
    {
        if self.in_flight {
            self.cancel_requested = true;
        }
        self.in_flight
    }

    pub fn cancel_requested(&self) -> (r: bool)
        ensures
            r == self@.1,
    {
        self.cancel_requested
    }

    /// Releases the guard when a workflow has given its outcome.
    pub fn finish(&mut self)
        ensures
            final(self)@ == (false, false),
    {
        self.in_flight = false;
        self.cancel_requested = false;
    }
}

/// The outcome given to a request that the guard turns away.
pub fn busy_response() -> (r: ActionResponse)
    ensures
        r@ == Outcome::Failure(msg_busy()),
{
    ActionResponse::FAIL(String::from_str("Another operation is already running!"))
}

/// The answer to a cancellation request, by whether it was accepted.
pub fn cancel_response(accepted: bool) -> (r: ActionResponse)
    ensures
        r@ == (if accepted {
            Outcome::Success(msg_cancelling())
        } else {
            Outcome::Failure(msg_nothing_to_cancel())
        }),
{
    if accepted {
        ActionResponse::SUCCESS(String::from_str("cancelling"))
    } else {
        ActionResponse::FAIL(String::from_str("nothing to cancel"))
    }
}

} // verus!
