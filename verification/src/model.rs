//! The mathematical model of the dispatch core.
//!
//! A [`NodeModel`] is the value of a whole node: the shared application
//! state, the lock bit of its container, the registered endpoints, the
//! pending outgoing calls, and everything the node has emitted (log entries,
//! service responses, published messages) together with the trace of callback
//! invocations so far. [`step`] says what processing one transport event does
//! to this value; [`run_model`] folds a batch of events through `step`. Every
//! contract of the executable node is stated against these two functions.

use vstd::prelude::*;

use crate::data::DataModel;
use crate::endpoint::{EndpointKind, EndpointModel};
use crate::event::Event;
use crate::message::{Request, Response};
use crate::outcome::{LogModel, OutcomeModel};
use crate::pending::{CallMode, CallModel, CallPhase};

verus! {

/// One recorded callback invocation: which endpoint's callback ran, and with
/// which payload. The trace of these is the node's observable dispatch
/// history; per-endpoint projections of it state the ordering guarantees.
pub enum Invocation {
    /// A wall-timer callback ran.
    Timer { endpoint: int },
    /// A subscription callback ran on one inbound message.
    Message { endpoint: int, payload: i64 },
    /// A service callback ran on one request.
    Request { endpoint: int, request: Request },
    /// A client continuation ran on the response of one pending call.
    Response { endpoint: int, call: int, response: Response },
}

/// The value of a whole node.
#[verifier::ext_equal]
pub struct NodeModel<T> {
    /// The node's name.
    pub name: Seq<char>,
    /// The node's namespace.
    pub namespace: Seq<char>,
    /// The shared application state.
    pub data: T,
    /// Whether a callback currently holds the shared-state lock. Free
    /// between steps: no driving loop retains it across events.
    pub locked: bool,
    /// The registered endpoints, in registration order.
    pub endpoints: Seq<EndpointModel>,
    /// Every outgoing call ever made, in submission order; calls are never
    /// removed or reused.
    pub calls: Seq<CallModel>,
    /// The dispatcher's failure log.
    pub log: Seq<LogModel>,
    /// Every service response sent, as (service endpoint, response).
    pub responses: Seq<(int, Response)>,
    /// The callback invocations dispatched so far, in order.
    pub trace: Seq<Invocation>,
}

impl<T> NodeModel<T> {
    /// Node-wide well-formedness: the lock is free between events, and every
    /// pending call belongs to a registered client endpoint and carries its
    /// payload fields in agreement with its phase. Timers and only timers
    /// carry a period.
    pub open spec fn wf(self) -> bool {
        &&& !self.locked
        &&& forall|c: int|
            0 <= c < self.calls.len() ==> {
                &&& (#[trigger] self.calls[c]).wf()
                &&& 0 <= self.calls[c].endpoint < self.endpoints.len()
                &&& self.endpoints[self.calls[c].endpoint].kind == EndpointKind::Client
            }
        &&& forall|i: int|
            0 <= i < self.endpoints.len() ==> ((#[trigger] self.endpoints[i]).period_ms is Some
                <==> self.endpoints[i].kind == EndpointKind::WallTimer)
    }
}

/// Whether endpoint `ep` is registered with kind `kind` and its driving loop
/// is still running.
pub open spec fn live<T>(m: NodeModel<T>, ep: int, kind: EndpointKind) -> bool {
    &&& 0 <= ep < m.endpoints.len()
    &&& m.endpoints[ep].kind == kind
    &&& m.endpoints[ep].active
}

/// Whether a pending call `c` exists and stands in phase `phase`.
pub open spec fn call_in_phase<T>(m: NodeModel<T>, c: int, phase: CallPhase) -> bool {
    0 <= c < m.calls.len() && m.calls[c].phase == phase
}

/// Whether endpoint `ep` is a registered client.
pub open spec fn is_client<T>(m: NodeModel<T>, ep: int) -> bool {
    0 <= ep < m.endpoints.len() && m.endpoints[ep].kind == EndpointKind::Client
}

/// The log entry the dispatcher writes for a failure at endpoint `ep`.
pub open spec fn log_entry<T>(m: NodeModel<T>, ep: int, detail: Seq<char>) -> LogModel {
    LogModel { endpoint_name: m.endpoints[ep].name, kind: m.endpoints[ep].kind, detail }
}

/// Applies what one finished callback leaves behind: the new state and the
/// recorded invocation, plus a log entry naming endpoint `ep` if the
/// callback failed. Failure never deactivates anything.
pub open spec fn finish_callback<T>(
    m: NodeModel<T>,
    ep: int,
    data: T,
    outcome: OutcomeModel,
    inv: Invocation,
) -> NodeModel<T> {
    let stepped = NodeModel { data, trace: m.trace.push(inv), ..m };
    match outcome {
        OutcomeModel::Success => stepped,
        OutcomeModel::Failure(detail) => NodeModel {
            log: stepped.log.push(log_entry(m, ep, detail)),
            ..stepped
        },
    }
}

/// One timer tick: run the timer callback; log on failure; keep ticking.
pub open spec fn step_timer_tick<T: DataModel>(m: NodeModel<T>, ep: int) -> NodeModel<T> {
    if live(m, ep, EndpointKind::WallTimer) {
        let (data, outcome) = m.data.timer_spec(ep);
        finish_callback(m, ep, data, outcome, Invocation::Timer { endpoint: ep })
    } else {
        m
    }
}

/// A tick-source failure: logged, and the timer keeps running — it is never
/// auto-cancelled, and no callback is invoked for the lost tick.
pub open spec fn step_timer_fault<T>(m: NodeModel<T>, ep: int, detail: Seq<char>) -> NodeModel<T> {
    if live(m, ep, EndpointKind::WallTimer) {
        NodeModel { log: m.log.push(log_entry(m, ep, detail)), ..m }
    } else {
        m
    }
}

/// One inbound message: run the subscription callback; log on failure; the
/// loop continues either way.
pub open spec fn step_message<T: DataModel>(m: NodeModel<T>, ep: int, payload: i64) -> NodeModel<T> {
    if live(m, ep, EndpointKind::Subscription) {
        let (data, outcome) = m.data.message_spec(ep, payload);
        finish_callback(m, ep, data, outcome, Invocation::Message { endpoint: ep, payload })
    } else {
        m
    }
}

/// End of stream on a subscription: the driving loop stops. Normal shutdown;
/// nothing is logged and no callback runs.
pub open spec fn step_end_of_stream<T>(m: NodeModel<T>, ep: int) -> NodeModel<T> {
    if live(m, ep, EndpointKind::Subscription) {
        NodeModel {
            endpoints: m.endpoints.update(
                ep,
                EndpointModel { active: false, ..m.endpoints[ep] },
            ),
            ..m
        }
    } else {
        m
    }
}

/// One service request: run the service callback; on success send exactly
/// one response over the request's reply channel; on failure send nothing
/// and log the failure — the caller observes a timeout, not an error
/// payload.
pub open spec fn step_request<T: DataModel>(m: NodeModel<T>, ep: int, request: Request) -> NodeModel<T> {
    if live(m, ep, EndpointKind::Service) {
        let (data, reply) = m.data.request_spec(ep, request);
        let stepped = NodeModel {
            data,
            trace: m.trace.push(Invocation::Request { endpoint: ep, request }),
            ..m
        };
        match reply {
            Ok(response) => NodeModel {
                responses: stepped.responses.push((ep, response)),
                ..stepped
            },
            Err(detail) => NodeModel { log: stepped.log.push(log_entry(m, ep, detail)), ..stepped },
        }
    } else {
        m
    }
}

/// The availability check of call `c` resolved and the request was handed to
/// the transport: `WaitingForAvailability -> Sent`.
pub open spec fn step_call_available<T>(m: NodeModel<T>, c: int) -> NodeModel<T> {
    if call_in_phase(m, c, CallPhase::WaitingForAvailability) {
        NodeModel {
            calls: m.calls.update(c, CallModel { phase: CallPhase::Sent, ..m.calls[c] }),
            ..m
        }
    } else {
        m
    }
}

/// The response of call `c` arrived: `Sent -> Completed`. A
/// continuation-style call runs its callback on the response; an awaitable
/// call only records the value for its caller to collect.
pub open spec fn step_call_response<T: DataModel>(
    m: NodeModel<T>,
    c: int,
    response: Response,
) -> NodeModel<T> {
    if call_in_phase(m, c, CallPhase::Sent) {
        let call = m.calls[c];
        let completed = NodeModel {
            calls: m.calls.update(
                c,
                CallModel { phase: CallPhase::Completed, response: Some(response), ..call },
            ),
            ..m
        };
        if call.mode == CallMode::Continuation {
            let (data, outcome) = m.data.response_spec(call.endpoint, response);
            finish_callback(
                completed,
                call.endpoint,
                data,
                outcome,
                Invocation::Response { endpoint: call.endpoint, call: c, response },
            )
        } else {
            completed
        }
    } else {
        m
    }
}

/// A transport-level error ended call `c` from either waiting phase:
/// `WaitingForAvailability|Sent -> Failed`. A continuation-style failure is
/// logged and swallowed; an awaitable failure is kept for the caller and not
/// logged. Only this one call ends; no other endpoint is touched.
pub open spec fn step_call_fault<T>(m: NodeModel<T>, c: int, detail: Seq<char>) -> NodeModel<T> {
    if call_in_phase(m, c, CallPhase::WaitingForAvailability) || call_in_phase(
        m,
        c,
        CallPhase::Sent,
    ) {
        let call = m.calls[c];
        let failed = NodeModel {
            calls: m.calls.update(
                c,
                CallModel { phase: CallPhase::Failed, error: Some(detail), ..call },
            ),
            ..m
        };
        if call.mode == CallMode::Continuation {
            NodeModel { log: failed.log.push(log_entry(m, call.endpoint, detail)), ..failed }
        } else {
            failed
        }
    } else {
        m
    }
}

/// What processing one transport event does to a node. Events that name an
/// endpoint of the wrong kind, a stopped driving loop, or a call outside the
/// phase the event belongs to leave the node unchanged: a well-behaved
/// transport never produces them.
pub open spec fn step<T: DataModel>(m: NodeModel<T>, ev: Event) -> NodeModel<T> {
    match ev {
        Event::TimerTick { endpoint } => step_timer_tick(m, endpoint as int),
        Event::TimerFault { endpoint, detail } => step_timer_fault(m, endpoint as int, detail@),
        Event::Message { endpoint, payload } => step_message(m, endpoint as int, payload),
        Event::EndOfStream { endpoint } => step_end_of_stream(m, endpoint as int),
        Event::ServiceRequest { endpoint, request } => step_request(m, endpoint as int, request),
        Event::CallAvailable { call } => step_call_available(m, call as int),
        Event::CallResponse { call, response } => step_call_response(m, call as int, response),
        Event::CallFault { call, detail } => step_call_fault(m, call as int, detail@),
    }
}

/// Folds a batch of events through [`step`], first event first.
pub open spec fn run_model<T: DataModel>(m: NodeModel<T>, events: Seq<Event>) -> NodeModel<T>
    decreases events.len(),
{
    if events.len() == 0 {
        m
    } else {
        run_model(step(m, events[0]), events.skip(1))
    }
}

/// A freshly created node: no endpoints, no calls, nothing emitted, lock
/// free.
pub open spec fn init_model<T>(name: Seq<char>, namespace: Seq<char>, data: T) -> NodeModel<T> {
    NodeModel {
        name,
        namespace,
        data,
        locked: false,
        endpoints: Seq::empty(),
        calls: Seq::empty(),
        log: Seq::empty(),
        responses: Seq::empty(),
        trace: Seq::empty(),
    }
}

/// Whether some endpoint of this kind already carries this name.
pub open spec fn name_taken<T>(m: NodeModel<T>, kind: EndpointKind, name: Seq<char>) -> bool {
    exists|i: int|
        0 <= i < m.endpoints.len() && (#[trigger] m.endpoints[i]).kind == kind
            && m.endpoints[i].name == name
}

/// Registration appends one live endpoint and touches nothing else:
/// registration is atomic.
pub open spec fn register_model<T>(
    m: NodeModel<T>,
    kind: EndpointKind,
    name: Seq<char>,
    period_ms: Option<u64>,
) -> NodeModel<T> {
    NodeModel {
        endpoints: m.endpoints.push(EndpointModel { name, kind, period_ms, active: true }),
        ..m
    }
}

/// Folding a batch that ends in `ev` is one `step` after folding the rest:
/// the run loop processes events strictly in order, one at a time.
pub proof fn lemma_run_model_snoc<T: DataModel>(m: NodeModel<T>, events: Seq<Event>, ev: Event)
    ensures
        run_model(m, events.push(ev)) == step(run_model(m, events), ev),
    decreases events.len(),
{
    if events.len() == 0 {
        assert(events.push(ev)[0] == ev);
        assert(events.push(ev).skip(1) =~= Seq::<Event>::empty());
        assert(run_model(m, events.push(ev)) == run_model(
            step(m, ev),
            Seq::<Event>::empty(),
        ));
        assert(run_model(step(m, ev), Seq::<Event>::empty()) == step(m, ev));
        assert(run_model(m, events) == m);
    } else {
        assert(events.push(ev)[0] == events[0]);
        assert(events.push(ev).skip(1) =~= events.skip(1).push(ev));
        lemma_run_model_snoc(step(m, events[0]), events.skip(1), ev);
        assert(run_model(m, events.push(ev)) == run_model(
            step(m, events[0]),
            events.skip(1).push(ev),
        ));
        assert(run_model(m, events) == run_model(step(m, events[0]), events.skip(1)));
    }
}

/// Processing an event preserves node-wide well-formedness: the lock is
/// free again after every step, and every pending call still belongs to its
/// client endpoint with payload fields matching its phase.
pub proof fn lemma_step_preserves_wf<T: DataModel>(m: NodeModel<T>, ev: Event)
    requires
        m.wf(),
    ensures
        step(m, ev).wf(),
{
    let m1 = step(m, ev);
    assert forall|c: int| 0 <= c < m1.calls.len() implies {
        &&& (#[trigger] m1.calls[c]).wf()
        &&& 0 <= m1.calls[c].endpoint < m1.endpoints.len()
        &&& m1.endpoints[m1.calls[c].endpoint].kind == EndpointKind::Client
    } by {
        assert(m.calls[c].wf());
    }
    assert forall|i: int|
        0 <= i < m1.endpoints.len() implies ((#[trigger] m1.endpoints[i]).period_ms is Some
        <==> m1.endpoints[i].kind == EndpointKind::WallTimer) by {
        assert(m.endpoints[i].period_ms is Some <==> m.endpoints[i].kind
            == EndpointKind::WallTimer);
    }
}

/// Submitting an outgoing call appends one pending call that has already
/// moved `Created -> WaitingForAvailability`.
pub open spec fn submit_call_model<T>(
    m: NodeModel<T>,
    ep: int,
    mode: CallMode,
    request: Request,
) -> NodeModel<T> {
    NodeModel {
        calls: m.calls.push(
            CallModel {
                endpoint: ep,
                mode,
                phase: CallPhase::WaitingForAvailability,
                request,
                response: None,
                error: None,
            },
        ),
        ..m
    }
}

} // verus!
