//! Registered endpoints: one unit of reactive behaviour bound to a callback.
//!
//! An endpoint owns a transport-side resource and a driving loop; both are
//! created together by registration and live until process shutdown. The only
//! state an endpoint keeps here is whether its driving loop is still running:
//! a subscription loop stops when the transport signals end of stream, which
//! is a normal shutdown, not a failure.

use vstd::prelude::*;

verus! {

/// The four kinds of endpoint the registry knows.
#[derive(Clone, Copy, Debug, PartialEq, Eq, Structural)]
pub enum EndpointKind {
    /// Fires a callback every period.
    WallTimer,
    /// Consumes inbound messages from a topic.
    Subscription,
    /// Accepts requests and sends one response per successful callback.
    Service,
    /// Issues outgoing requests and receives responses.
    Client,
}

/// One registered endpoint, as the registry records it.
#[derive(Debug)]
pub struct Endpoint {
    /// The name the endpoint was registered under: a topic for subscriptions,
    /// a service name for services and clients, a label for timers.
    pub name: String,
    /// The endpoint's kind.
    pub kind: EndpointKind,
    /// The timer period in milliseconds; `None` for every other kind.
    pub period_ms: Option<u64>,
    /// Whether the driving loop is still running. Only a subscription's
    /// end-of-stream clears this; callback failures never do.
    pub active: bool,
}

/// The mathematical value of an [`Endpoint`].
pub struct EndpointModel {
    pub name: Seq<char>,
    pub kind: EndpointKind,
    pub period_ms: Option<u64>,
    pub active: bool,
}

impl View for Endpoint {
    type V = EndpointModel;

    open spec fn view(&self) -> EndpointModel {
        EndpointModel {
            name: self.name@,
            kind: self.kind,
            period_ms: self.period_ms,
            active: self.active,
        }
    }
}

} // verus!
