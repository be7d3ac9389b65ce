//! The pending-call state machine: one in-flight outgoing request.
//!
//! A call moves `Created -> WaitingForAvailability -> Sent -> Completed`
//! or short-circuits to `Failed` from either waiting state on any
//! transport-level error. Terminal phases are final: a pending call is never
//! reused, and no transition leaves `Completed` or `Failed`.

use vstd::prelude::*;

use crate::message::{Request, Response};

verus! {

/// Where one outgoing call stands.
#[derive(Clone, Copy, Debug, PartialEq, Eq, Structural)]
pub enum CallPhase {
    /// The call exists but has not asked the transport anything yet.
    Created,
    /// The call is waiting for the remote service to become reachable. No
    /// timeout is imposed here: a call may wait in this phase forever.
    WaitingForAvailability,
    /// The request was handed to the transport; the response is pending.
    Sent,
    /// The response arrived. Terminal.
    Completed,
    /// A transport-level error ended the call. Terminal.
    Failed,
}

/// How the caller consumes the result of a call.
#[derive(Clone, Copy, Debug, PartialEq, Eq, Structural)]
pub enum CallMode {
    /// Fire-and-forget: a continuation callback runs when the response
    /// arrives; failures are logged and swallowed.
    Continuation,
    /// The caller collects the outcome itself; failures are handed back as an
    /// error value, not logged.
    Awaitable,
}

/// One in-flight outgoing request, tracked from creation to its terminal
/// phase.
#[derive(Debug)]
pub struct PendingCall {
    /// The client endpoint (registry index) this call belongs to.
    pub endpoint: usize,
    /// How the result is consumed.
    pub mode: CallMode,
    /// Where the call stands.
    pub phase: CallPhase,
    /// The request payload handed to `call`.
    pub request: Request,
    /// The response value; present exactly when the phase is `Completed`.
    pub response: Option<Response>,
    /// The transport error that ended the call; present exactly when the
    /// phase is `Failed`.
    pub error: Option<String>,
}

/// The mathematical value of a [`PendingCall`].
pub struct CallModel {
    pub endpoint: int,
    pub mode: CallMode,
    pub phase: CallPhase,
    pub request: Request,
    pub response: Option<Response>,
    pub error: Option<Seq<char>>,
}

impl View for PendingCall {
    type V = CallModel;

    open spec fn view(&self) -> CallModel {
        CallModel {
            endpoint: self.endpoint as int,
            mode: self.mode,
            phase: self.phase,
            request: self.request,
            response: match self.response {
                Some(r) => Some(r),
                None => None,
            },
            error: match &self.error {
                Some(e) => Some(e@),
                None => None,
            },
        }
    }
}

impl CallPhase {
    /// Terminal phases are final: nothing transitions out of them.
    pub open spec fn is_terminal(self) -> bool {
        self == CallPhase::Completed || self == CallPhase::Failed
    }

    /// How far along the state machine this phase lies. Every legal
    /// transition strictly increases the rank, which is why a pending call
    /// can never be reused.
    pub open spec fn rank(self) -> int {
        match self {
            CallPhase::Created => 0,
            CallPhase::WaitingForAvailability => 1,
            CallPhase::Sent => 2,
            CallPhase::Completed => 3,
            CallPhase::Failed => 3,
        }
    }
}

impl CallModel {
    /// A pending call is well formed when its payload fields agree with its
    /// phase: a response exists exactly once completed, an error exactly once
    /// failed.
    pub open spec fn wf(self) -> bool {
        &&& self.response is Some <==> self.phase == CallPhase::Completed
        &&& self.error is Some <==> self.phase == CallPhase::Failed
    }
}

impl PendingCall {
    /// A new call for client endpoint `endpoint`, not yet submitted.
    pub fn new(endpoint: usize, mode: CallMode, request: Request) -> (r: Self)
        ensures
            r@ == (CallModel {
                endpoint: endpoint as int,
                mode,
                phase: CallPhase::Created,
                request,
                response: None,
                error: None,
            }),
            r@.wf(),
    {
        PendingCall { endpoint, mode, phase: CallPhase::Created, request, response: None, error: None }
    }

    /// `Created -> WaitingForAvailability`: the call has been handed to the
    /// dispatch core, which will ask the transport whether the remote service
    /// is reachable. This check may suspend indefinitely.
    pub fn submit(&mut self)
        requires
            old(self).phase == CallPhase::Created,
        ensures
            final(self)@ == (CallModel { phase: CallPhase::WaitingForAvailability, ..old(self)@ }),
    {
        self.phase = CallPhase::WaitingForAvailability;
    }

    /// `WaitingForAvailability -> Sent`: the service became reachable and the
    /// request payload was handed to the transport.
    pub fn mark_sent(&mut self)
        requires
            old(self).phase == CallPhase::WaitingForAvailability,
        ensures
            final(self)@ == (CallModel { phase: CallPhase::Sent, ..old(self)@ }),
    {
        self.phase = CallPhase::Sent;
    }

    /// `Sent -> Completed`: the response future resolved with a value.
    /// Terminal.
    pub fn complete(&mut self, response: Response)
        requires
            old(self).phase == CallPhase::Sent,
        ensures
            final(self)@ == (CallModel {
                phase: CallPhase::Completed,
                response: Some(response),
                ..old(self)@
            }),
    {
        self.phase = CallPhase::Completed;
        self.response = Some(response);
    }

    /// `WaitingForAvailability|Sent -> Failed`: a transport-level error ended
    /// the call. Terminal.
    pub fn fail(&mut self, error: String)
        requires
            old(self).phase == CallPhase::WaitingForAvailability || old(self).phase
                == CallPhase::Sent,
        ensures
            final(self)@ == (CallModel {
                phase: CallPhase::Failed,
                error: Some(error@),
                ..old(self)@
            }),
    {
        self.phase = CallPhase::Failed;
        self.error = Some(error);
    }
}

/// Every transition of the pending-call machine strictly increases the phase
/// rank; in particular no transition leaves a terminal phase, so a pending
/// call is never reused.
pub proof fn lemma_transitions_increase_rank(before: CallPhase, after: CallPhase)
    requires
        (before == CallPhase::Created && after == CallPhase::WaitingForAvailability) || (before
            == CallPhase::WaitingForAvailability && after == CallPhase::Sent) || (before
            == CallPhase::Sent && after == CallPhase::Completed) || ((before
            == CallPhase::WaitingForAvailability || before == CallPhase::Sent) && after
            == CallPhase::Failed),
    ensures
        before.rank() < after.rank(),
        !before.is_terminal(),
{
}

} // verus!
