//! Transport events: everything the messaging middleware can hand to the
//! dispatch core, reduced to plain values.
//!
//! A host program pumps the transport and translates what arrives into these
//! events; the verified core consumes them one at a time. Events that name an
//! endpoint carry its registry index; events that belong to an outgoing
//! request carry the pending-call index.

use vstd::prelude::*;

use crate::message::{Request, Response};

verus! {

/// One transport-originated event.
#[derive(Debug)]
pub enum Event {
    /// A wall timer fired.
    TimerTick { endpoint: usize },
    /// The tick source of a wall timer failed (for example a clock error).
    /// The failure is logged and the timer keeps running; it is never
    /// auto-cancelled.
    TimerFault { endpoint: usize, detail: String },
    /// An inbound message arrived on a subscription's topic.
    Message { endpoint: usize, payload: i64 },
    /// The transport closed a subscription's stream. The driving loop stops;
    /// this is a normal shutdown, not a failure.
    EndOfStream { endpoint: usize },
    /// A request arrived for a service endpoint.
    ServiceRequest { endpoint: usize, request: Request },
    /// The availability check of a pending outgoing call resolved: the remote
    /// service is reachable and the request was handed to the transport.
    CallAvailable { call: usize },
    /// The response future of a pending outgoing call resolved with a value.
    CallResponse { call: usize, response: Response },
    /// A transport-level error ended a pending outgoing call: the
    /// availability check, the send, or the response future failed.
    CallFault { call: usize, detail: String },
}

} // verus!
