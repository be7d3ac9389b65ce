//! The result of one user-callback invocation, and the log entry the
//! dispatcher writes when a callback or the transport reports a failure.
//!
//! A callback outcome is never silently dropped: every failure is turned into
//! a log entry that names the owning endpoint and its kind, and the driving
//! loop goes on to the next event.

use vstd::prelude::*;

use crate::endpoint::EndpointKind;

verus! {

/// What one callback invocation reported back to the dispatcher.
///
/// Service callbacks do not use this type: they return
/// `Result<Response, String>`, success carrying the reply payload.
#[derive(Debug)]
pub enum CallbackOutcome {
    /// The callback ran to completion.
    Success,
    /// The callback failed; the payload describes why.
    Failure(String),
}

/// The mathematical value of a [`CallbackOutcome`]: the failure text as a
/// sequence of characters.
pub enum OutcomeModel {
    Success,
    Failure(Seq<char>),
}

impl View for CallbackOutcome {
    type V = OutcomeModel;

    open spec fn view(&self) -> OutcomeModel {
        match self {
            CallbackOutcome::Success => OutcomeModel::Success,
            CallbackOutcome::Failure(s) => OutcomeModel::Failure(s@),
        }
    }
}

/// One dispatcher report: a failure captured while driving the named
/// endpoint, formatted with the endpoint's identity so that a reader of the
/// log can tell misbehaving handlers apart.
#[derive(Debug)]
pub struct LogEntry {
    /// The name the endpoint was registered under (topic, service name, or
    /// timer label).
    pub endpoint_name: String,
    /// The kind of the owning endpoint.
    pub kind: EndpointKind,
    /// The failure description.
    pub detail: String,
}

/// The mathematical value of a [`LogEntry`].
pub struct LogModel {
    pub endpoint_name: Seq<char>,
    pub kind: EndpointKind,
    pub detail: Seq<char>,
}

impl View for LogEntry {
    type V = LogModel;

    open spec fn view(&self) -> LogModel {
        LogModel { endpoint_name: self.endpoint_name@, kind: self.kind, detail: self.detail@ }
    }
}

} // verus!
