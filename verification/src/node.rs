//! The node: the façade that owns the shared state, the endpoint registry,
//! and the run loop, and dispatches every transport event through the
//! matching user callback.
//!
//! Every method's contract is stated against the model in [`crate::model`]:
//! registration and call submission append to the model, and
//! [`Node::handle_event`] performs exactly one [`crate::model::step`]. The
//! run loop [`Node::spin`] folds a bounded batch of events through `step`, so
//! a host can drive the node strategy by strategy — one cooperative drain per
//! pump, worker threads handing over batches, or an async runtime's channel —
//! without changing what a batch of events does to the node.

use vstd::prelude::*;

use crate::data::{Data, DataModel};
use crate::endpoint::{Endpoint, EndpointKind};
use crate::event::Event;
use crate::message::{Request, Response};
use crate::model::{
    call_in_phase, init_model, is_client, lemma_step_preserves_wf, name_taken, register_model,
    run_model, step, submit_call_model, Invocation, NodeModel,
};
use crate::outcome::{CallbackOutcome, LogEntry};
use crate::pending::{CallMode, CallPhase, PendingCall};
use crate::publisher::Publisher;
use crate::state::{MutexInterface, SharedState};

verus! {

/// Why a registration was refused. Registration is atomic: a refused
/// registration leaves no partial endpoint state behind.
#[derive(Clone, Copy, Debug, PartialEq, Eq, Structural)]
pub enum RegistrationError {
    /// An endpoint of the same kind already carries this name.
    NameTaken,
}

/// Why a call submission was refused.
#[derive(Clone, Copy, Debug, PartialEq, Eq, Structural)]
pub enum CallError {
    /// The given endpoint index does not name a registered client.
    UnknownClient,
}

/// One response sent over a request's reply channel, recorded against the
/// service endpoint that produced it.
#[derive(Clone, Copy, Debug)]
pub struct SentResponse {
    /// The service endpoint (registry index).
    pub endpoint: usize,
    /// The response payload.
    pub response: Response,
}

impl View for SentResponse {
    type V = (int, Response);

    open spec fn view(&self) -> (int, Response) {
        (self.endpoint as int, self.response)
    }
}

/// The façade composing the dispatch core: it owns the shared state
/// container and the endpoint registry, accepts registrations and outgoing
/// calls, and runs the event loop.
pub struct Node<T: Data> where T::V: DataModel {
    name: String,
    namespace: String,
    state: SharedState<T>,
    endpoints: Vec<Endpoint>,
    calls: Vec<PendingCall>,
    log: Vec<LogEntry>,
    responses: Vec<SentResponse>,
    trace: Ghost<Seq<Invocation>>,
}

impl<T: Data> View for Node<T> where T::V: DataModel {
    type V = NodeModel<T::V>;

    closed spec fn view(&self) -> NodeModel<T::V> {
        NodeModel {
            name: self.name@,
            namespace: self.namespace@,
            data: self.state.value()@,
            locked: self.state.locked(),
            endpoints: self.endpoints@.map_values(|e: Endpoint| e@),
            calls: self.calls@.map_values(|c: PendingCall| c@),
            log: self.log@.map_values(|l: LogEntry| l@),
            responses: self.responses@.map_values(|r: SentResponse| r@),
            trace: self.trace@,
        }
    }
}

impl<T: Data> Node<T> where T::V: DataModel {
    /// Node-wide well-formedness; established by [`Node::create`] and
    /// preserved by every method.
    pub open spec fn wf(self) -> bool {
        self@.wf()
    }

    /// Creates a node owning `data` as its shared state. Fresh: no
    /// endpoints, no calls, nothing emitted.
    pub fn create(name: &str, namespace: &str, data: T) -> (node: Self)
        ensures
            node@ == init_model(name@, namespace@, data@),
            node.wf(),
    {
        let node = Node {
            name: name.to_owned(),
            namespace: namespace.to_owned(),
            state: SharedState::create(data),
            endpoints: Vec::new(),
            calls: Vec::new(),
            log: Vec::new(),
            responses: Vec::new(),
            trace: Ghost(Seq::empty()),
        };
        proof {
            assert(node@ =~= init_model(name@, namespace@, data@));
        }
        node
    }

    /// The node's name.
    pub fn name(&self) -> (r: &String)
        ensures
            r@ == self@.name,
    {
        &self.name
    }

    /// The node's namespace.
    pub fn namespace(&self) -> (r: &String)
        ensures
            r@ == self@.namespace,
    {
        &self.namespace
    }

    /// Whether an endpoint of this kind already carries this name.
    fn name_in_use(&self, kind: EndpointKind, name: &String) -> (taken: bool)
        ensures
            taken == name_taken(self@, kind, name@),
    {
        let mut i: usize = 0;
        while i < self.endpoints.len()
            invariant
                i <= self.endpoints@.len(),
                forall|j: int|
                    0 <= j < i ==> !((#[trigger] self@.endpoints[j]).kind == kind
                        && self@.endpoints[j].name == name@),
            decreases self.endpoints@.len() - i,
        {
            let e = &self.endpoints[i];
            if e.kind == kind && e.name == *name {
                proof {
                    assert(self@.endpoints[i as int].kind == kind && self@.endpoints[i as int].name
                        == name@);
                }
                return true;
            }
            i = i + 1;
        }
        false
    }

    /// Registers one endpoint: appends it to the registry with its driving
    /// loop live, or refuses atomically when the name is taken.
    fn register_endpoint(&mut self, kind: EndpointKind, name: String, period_ms: Option<u64>) -> (r:
        Result<usize, RegistrationError>)
        requires
            old(self).wf(),
            period_ms is Some <==> kind == EndpointKind::WallTimer,
        ensures
            final(self).wf(),
            match r {
                Ok(id) => !name_taken(old(self)@, kind, name@) && id == old(
                    self,
                )@.endpoints.len() && final(self)@ == register_model(
                    old(self)@,
                    kind,
                    name@,
                    period_ms,
                ),
                Err(e) => e == RegistrationError::NameTaken && name_taken(old(self)@, kind, name@)
                    && final(self)@ == old(self)@,
            },
    {
        let ghost name_view = name@;
        if self.name_in_use(kind, &name) {
            return Err(RegistrationError::NameTaken);
        }
        let id = self.endpoints.len();
        self.endpoints.push(Endpoint { name, kind, period_ms, active: true });
        proof {
            assert(self@ =~= register_model(old(self)@, kind, name_view, period_ms));
        }
        Ok(id)
    }

    /// Registers a wall timer firing every `period_ms` milliseconds; returns
    /// its registry index. Refused exactly when a timer of this name already
    /// exists; a refused registration changes nothing.
    pub fn register_wall_timer(&mut self, name: &str, period_ms: u64) -> (r: Result<
        usize,
        RegistrationError,
    >)
        requires
            old(self).wf(),
        ensures
            final(self).wf(),
            match r {
                Ok(id) => !name_taken(old(self)@, EndpointKind::WallTimer, name@) && id == old(
                    self,
                )@.endpoints.len() && final(self)@ == register_model(
                    old(self)@,
                    EndpointKind::WallTimer,
                    name@,
                    Some(period_ms),
                ),
                Err(e) => e == RegistrationError::NameTaken && name_taken(
                    old(self)@,
                    EndpointKind::WallTimer,
                    name@,
                ) && final(self)@ == old(self)@,
            },
    {
        self.register_endpoint(EndpointKind::WallTimer, name.to_owned(), Some(period_ms))
    }

    /// Registers a subscription on `topic`; returns its registry index. Its
    /// driving loop consumes every message delivered for the topic until the
    /// transport signals end of stream.
    pub fn register_subscription(&mut self, topic: &str) -> (r: Result<usize, RegistrationError>)
        requires
            old(self).wf(),
        ensures
            final(self).wf(),
            match r {
                Ok(id) => !name_taken(old(self)@, EndpointKind::Subscription, topic@) && id == old(
                    self,
                )@.endpoints.len() && final(self)@ == register_model(
                    old(self)@,
                    EndpointKind::Subscription,
                    topic@,
                    None,
                ),
                Err(e) => e == RegistrationError::NameTaken && name_taken(
                    old(self)@,
                    EndpointKind::Subscription,
                    topic@,
                ) && final(self)@ == old(self)@,
            },
    {
        self.register_endpoint(EndpointKind::Subscription, topic.to_owned(), None)
    }

    /// Registers a service acceptor under `name`; returns its registry
    /// index. Each request runs the service callback; a successful callback
    /// sends exactly one response, a failed one sends nothing and is logged.
    pub fn register_service(&mut self, name: &str) -> (r: Result<usize, RegistrationError>)
        requires
            old(self).wf(),
        ensures
            final(self).wf(),
            match r {
                Ok(id) => !name_taken(old(self)@, EndpointKind::Service, name@) && id == old(
                    self,
                )@.endpoints.len() && final(self)@ == register_model(
                    old(self)@,
                    EndpointKind::Service,
                    name@,
                    None,
                ),
                Err(e) => e == RegistrationError::NameTaken && name_taken(
                    old(self)@,
                    EndpointKind::Service,
                    name@,
                ) && final(self)@ == old(self)@,
            },
    {
        self.register_endpoint(EndpointKind::Service, name.to_owned(), None)
    }

    /// Registers an outgoing-call handle against the service `name`; returns
    /// its registry index. Calls are submitted with [`Node::call`].
    pub fn register_client(&mut self, name: &str) -> (r: Result<usize, RegistrationError>)
        requires
            old(self).wf(),
        ensures
            final(self).wf(),
            match r {
                Ok(id) => !name_taken(old(self)@, EndpointKind::Client, name@) && id == old(
                    self,
                )@.endpoints.len() && final(self)@ == register_model(
                    old(self)@,
                    EndpointKind::Client,
                    name@,
                    None,
                ),
                Err(e) => e == RegistrationError::NameTaken && name_taken(
                    old(self)@,
                    EndpointKind::Client,
                    name@,
                ) && final(self)@ == old(self)@,
            },
    {
        self.register_endpoint(EndpointKind::Client, name.to_owned(), None)
    }

    /// Creates a publisher for `topic`. Publishers own no callback and no
    /// driving loop, so nothing in the node changes.
    pub fn register_publisher(&self, topic: &str) -> (r: Publisher)
        ensures
            r@.topic == topic@,
            r@.sent == Seq::<i64>::empty(),
    {
        Publisher::new(topic.to_owned())
    }

    /// Submits one outgoing request on client endpoint `endpoint`. Succeeds
    /// exactly when the index names a registered client, returning the new
    /// pending call's index; the call is already waiting for the remote
    /// service's availability, which may take forever — no timeout is imposed
    /// here.
    pub fn call(&mut self, endpoint: usize, request: Request, mode: CallMode) -> (r: Result<
        usize,
        CallError,
    >)
        requires
            old(self).wf(),
        ensures
            final(self).wf(),
            match r {
                Ok(c) => is_client(old(self)@, endpoint as int) && c == old(self)@.calls.len()
                    && final(self)@ == submit_call_model(
                    old(self)@,
                    endpoint as int,
                    mode,
                    request,
                ),
                Err(e) => e == CallError::UnknownClient && !is_client(old(self)@, endpoint as int)
                    && final(self)@ == old(self)@,
            },
    {
        if endpoint >= self.endpoints.len() {
            return Err(CallError::UnknownClient);
        }
        if !(self.endpoints[endpoint].kind == EndpointKind::Client) {
            return Err(CallError::UnknownClient);
        }
        let id = self.calls.len();
        let mut pending = PendingCall::new(endpoint, mode, request);
        pending.submit();
        self.calls.push(pending);
        proof {
            assert(self@ =~= submit_call_model(old(self)@, endpoint as int, mode, request));
        }
        Ok(id)
    }

    /// The outcome of a pending call, for awaitable-style callers: `None`
    /// while the call is still in flight, the response once completed, the
    /// transport error once failed.
    pub fn call_outcome(&self, call: usize) -> (r: Option<Result<Response, String>>)
        requires
            self.wf(),
        ensures
            match r {
                None => !call_in_phase(self@, call as int, CallPhase::Completed) && !call_in_phase(
                    self@,
                    call as int,
                    CallPhase::Failed,
                ),
                Some(out) => match out {
                    Ok(resp) => call_in_phase(self@, call as int, CallPhase::Completed)
                        && self@.calls[call as int].response == Some(resp),
                    Err(e) => call_in_phase(self@, call as int, CallPhase::Failed)
                        && self@.calls[call as int].error == Some(e@),
                },
            },
    {
        if call >= self.calls.len() {
            return None;
        }
        let pending = &self.calls[call];
        match pending.phase {
            CallPhase::Completed => match &pending.response {
                Some(resp) => Some(Ok(*resp)),
                None => None,
            },
            CallPhase::Failed => match &pending.error {
                Some(e) => Some(Err(e.clone())),
                None => None,
            },
            _ => None,
        }
    }

    /// The endpoint registry, in registration order.
    pub fn endpoints(&self) -> (r: &Vec<Endpoint>)
        ensures
            r@.len() == self@.endpoints.len(),
            forall|i: int| 0 <= i < r@.len() ==> (#[trigger] r@[i])@ == self@.endpoints[i],
    {
        &self.endpoints
    }

    /// Where pending call `call` stands, or `None` for an index never
    /// returned by [`Node::call`].
    pub fn call_phase(&self, call: usize) -> (r: Option<CallPhase>)
        ensures
            match r {
                Some(phase) => call < self@.calls.len() && phase == self@.calls[call as int].phase,
                None => call >= self@.calls.len(),
            },
    {
        if call < self.calls.len() {
            Some(self.calls[call].phase)
        } else {
            None
        }
    }

    /// The dispatcher's failure log, oldest entry first.
    pub fn log(&self) -> (r: &Vec<LogEntry>)
        ensures
            r@.len() == self@.log.len(),
            forall|i: int| 0 <= i < r@.len() ==> (#[trigger] r@[i])@ == self@.log[i],
    {
        &self.log
    }

    /// Every response sent so far, oldest first.
    pub fn responses(&self) -> (r: &Vec<SentResponse>)
        ensures
            r@.len() == self@.responses.len(),
            forall|i: int| 0 <= i < r@.len() ==> (#[trigger] r@[i])@ == self@.responses[i],
    {
        &self.responses
    }

    /// Shared read access to the application state, between events.
    pub fn data(&self) -> (r: &T)
        requires
            self.wf(),
        ensures
            r@ == self@.data,
    {
        self.state.get()
    }

    /// Processes one transport event: exactly one [`step`] of the model. The
    /// shared-state lock is taken only around the single callback the event
    /// owns and is released on every exit path, so it is free again when this
    /// returns.
    #[verifier::rlimit(50)]
    pub fn handle_event(&mut self, ev: &Event)
        requires
            old(self).wf(),
        ensures
            final(self).wf(),
            final(self)@ == step(old(self)@, *ev),
    {
        let ghost m0 = self@;
        match ev {
            Event::TimerTick { endpoint } => {
                let ep = *endpoint;
                if ep < self.endpoints.len() && self.endpoints[ep].active && (self.endpoints[ep].kind
                    == EndpointKind::WallTimer) {
                    self.state.acquire();
                    let data = self.state.get_mut();
                    let outcome = data.on_timer(ep);
                    self.state.release();
                    self.trace = Ghost(self.trace@.push(Invocation::Timer { endpoint: ep as int }));
                    match outcome {
                        CallbackOutcome::Success => {},
                        CallbackOutcome::Failure(detail) => {
                            let entry = LogEntry {
                                endpoint_name: self.endpoints[ep].name.clone(),
                                kind: self.endpoints[ep].kind,
                                detail,
                            };
                            self.log.push(entry);
                        },
                    }
                }
            },
            Event::TimerFault { endpoint, detail } => {
                let ep = *endpoint;
                if ep < self.endpoints.len() && self.endpoints[ep].active && (self.endpoints[ep].kind
                    == EndpointKind::WallTimer) {
                    let entry = LogEntry {
                        endpoint_name: self.endpoints[ep].name.clone(),
                        kind: self.endpoints[ep].kind,
                        detail: detail.clone(),
                    };
                    self.log.push(entry);
                }
            },
            Event::Message { endpoint, payload } => {
                let ep = *endpoint;
                if ep < self.endpoints.len() && self.endpoints[ep].active && (self.endpoints[ep].kind
                    == EndpointKind::Subscription) {
                    self.state.acquire();
                    let data = self.state.get_mut();
                    let outcome = data.on_message(ep, *payload);
                    self.state.release();
                    self.trace = Ghost(
                        self.trace@.push(
                            Invocation::Message { endpoint: ep as int, payload: *payload },
                        ),
                    );
                    match outcome {
                        CallbackOutcome::Success => {},
                        CallbackOutcome::Failure(detail) => {
                            let entry = LogEntry {
                                endpoint_name: self.endpoints[ep].name.clone(),
                                kind: self.endpoints[ep].kind,
                                detail,
                            };
                            self.log.push(entry);
                        },
                    }
                }
            },
            Event::EndOfStream { endpoint } => {
                let ep = *endpoint;
                if ep < self.endpoints.len() && self.endpoints[ep].active && (self.endpoints[ep].kind
                    == EndpointKind::Subscription) {
                    let e = &mut self.endpoints[ep];
                    e.active = false;
                }
            },
            Event::ServiceRequest { endpoint, request } => {
                let ep = *endpoint;
                if ep < self.endpoints.len() && self.endpoints[ep].active && (self.endpoints[ep].kind
                    == EndpointKind::Service) {
                    self.state.acquire();
                    let data = self.state.get_mut();
                    let reply = data.on_request(ep, *request);
                    self.state.release();
                    self.trace = Ghost(
                        self.trace@.push(
                            Invocation::Request { endpoint: ep as int, request: *request },
                        ),
                    );
                    match reply {
                        Ok(response) => {
                            self.responses.push(SentResponse { endpoint: ep, response });
                        },
                        Err(detail) => {
                            let entry = LogEntry {
                                endpoint_name: self.endpoints[ep].name.clone(),
                                kind: self.endpoints[ep].kind,
                                detail,
                            };
                            self.log.push(entry);
                        },
                    }
                }
            },
            Event::CallAvailable { call } => {
                let c = *call;
                if c < self.calls.len() && (self.calls[c].phase
                    == CallPhase::WaitingForAvailability) {
                    let pending = &mut self.calls[c];
                    pending.mark_sent();
                }
            },
            Event::CallResponse { call, response } => {
                let c = *call;
                if c < self.calls.len() && (self.calls[c].phase == CallPhase::Sent) {
                    let ep = self.calls[c].endpoint;
                    let mode = self.calls[c].mode;
                    let pending = &mut self.calls[c];
                    pending.complete(*response);
                    if mode == CallMode::Continuation {
                        self.state.acquire();
                        let data = self.state.get_mut();
                        let outcome = data.on_response(ep, *response);
                        self.state.release();
                        self.trace = Ghost(
                            self.trace@.push(
                                Invocation::Response {
                                    endpoint: ep as int,
                                    call: c as int,
                                    response: *response,
                                },
                            ),
                        );
                        match outcome {
                            CallbackOutcome::Success => {},
                            CallbackOutcome::Failure(detail) => {
                                let entry = LogEntry {
                                    endpoint_name: self.endpoints[ep].name.clone(),
                                    kind: self.endpoints[ep].kind,
                                    detail,
                                };
                                self.log.push(entry);
                            },
                        }
                    }
                }
            },
            Event::CallFault { call, detail } => {
                let c = *call;
                if c < self.calls.len() && ((self.calls[c].phase
                    == CallPhase::WaitingForAvailability) || (self.calls[c].phase
                    == CallPhase::Sent)) {
                    let ep = self.calls[c].endpoint;
                    let mode = self.calls[c].mode;
                    let pending = &mut self.calls[c];
                    pending.fail(detail.clone());
                    if mode == CallMode::Continuation {
                        let entry = LogEntry {
                            endpoint_name: self.endpoints[ep].name.clone(),
                            kind: self.endpoints[ep].kind,
                            detail: detail.clone(),
                        };
                        self.log.push(entry);
                    }
                }
            },
        }
        proof {
            lemma_step_preserves_wf(m0, *ev);
            assert(self@ =~= step(m0, *ev));
        }
    }

    /// The run loop: processes one bounded batch of transport events in
    /// order. The host owns the unbounded outer loop — pump the transport,
    /// hand the batch over, repeat — and stopping between batches is the
    /// shutdown point, so in-flight callbacks always finish.
    pub fn spin(&mut self, events: &Vec<Event>)
        requires
            old(self).wf(),
        ensures
            final(self).wf(),
            final(self)@ == run_model(old(self)@, events@),
    {
        let ghost m0 = self@;
        let mut i: usize = 0;
        while i < events.len()
            invariant
                i <= events@.len(),
                self.wf(),
                self@ == run_model(m0, events@.take(i as int)),
            decreases events@.len() - i,
        {
            proof {
                crate::model::lemma_run_model_snoc(m0, events@.take(i as int), events@[i as int]);
                assert(events@.take(i as int + 1) =~= events@.take(i as int).push(
                    events@[i as int],
                ));
            }
            self.handle_event(&events[i]);
            i = i + 1;
        }
        proof {
            assert(events@.take(events@.len() as int) =~= events@);
        }
    }
}

} // verus!
