//! The laws of the dispatch core, proved once and for all over the model.
//!
//! Each public proof function here states one guarantee of the runtime —
//! delivery order, failure isolation, state atomicity, pending-call safety,
//! response discipline — for every application state type, every batch of
//! transport events, and every interleaving a scheduling strategy may
//! produce.

use vstd::prelude::*;

use crate::data::DataModel;
use crate::endpoint::EndpointKind;
use crate::event::Event;
use crate::message::{Request, Response};
use crate::model::{
    call_in_phase, live, run_model, step, step_request, log_entry, Invocation, NodeModel,
};
use crate::pending::{CallMode, CallPhase};

verus! {

/// Whether this event closes the stream of subscription `ep`.
pub open spec fn closes_stream(ev: Event, ep: int) -> bool {
    ev matches Event::EndOfStream { endpoint } && endpoint as int == ep
}

/// One step never registers, removes, or re-registers anything: the endpoint
/// registry keeps its length, and every endpoint keeps its name, kind and
/// period; the pending-call list keeps its length and every call keeps its
/// owner, mode and request. Only `active`, call phases and call payload
/// fields ever change.
pub proof fn lemma_step_registry_stable<T: DataModel>(m: NodeModel<T>, ev: Event)
    ensures
        step(m, ev).endpoints.len() == m.endpoints.len(),
        forall|i: int|
            0 <= i < m.endpoints.len() ==> {
                &&& (#[trigger] step(m, ev).endpoints[i]).kind == m.endpoints[i].kind
                &&& step(m, ev).endpoints[i].name == m.endpoints[i].name
                &&& step(m, ev).endpoints[i].period_ms == m.endpoints[i].period_ms
            },
        step(m, ev).calls.len() == m.calls.len(),
        forall|c: int|
            0 <= c < m.calls.len() ==> {
                &&& (#[trigger] step(m, ev).calls[c]).endpoint == m.calls[c].endpoint
                &&& step(m, ev).calls[c].mode == m.calls[c].mode
                &&& step(m, ev).calls[c].request == m.calls[c].request
            },
        step(m, ev).locked == m.locked,
{
}

/// A callback failure never stops the owning driving loop: after any event
/// that is not this subscription's end of stream, the endpoint is exactly as
/// alive as before, so the next event will be dispatched. Only the
/// transport's end-of-stream signal — a normal shutdown — stops a loop.
pub proof fn lemma_failure_never_stops_loop<T: DataModel>(m: NodeModel<T>, ev: Event, ep: int)
    requires
        0 <= ep < m.endpoints.len(),
        !closes_stream(ev, ep),
    ensures
        step(m, ev).endpoints[ep].active == m.endpoints[ep].active,
{
}

/// Run-loop version of [`lemma_failure_never_stops_loop`]: over a whole
/// batch without an end-of-stream for `ep`, the loop stays alive however
/// many callbacks fail.
pub proof fn lemma_loop_survives_batch<T: DataModel>(m: NodeModel<T>, events: Seq<Event>, ep: int)
    requires
        0 <= ep < m.endpoints.len(),
        forall|k: int| 0 <= k < events.len() ==> !closes_stream(#[trigger] events[k], ep),
    ensures
        run_model(m, events).endpoints.len() == m.endpoints.len(),
        run_model(m, events).endpoints[ep].active == m.endpoints[ep].active,
        run_model(m, events).endpoints[ep].kind == m.endpoints[ep].kind,
    decreases events.len(),
{
    if events.len() == 0 {
    } else {
        let m1 = step(m, events[0]);
        lemma_step_registry_stable(m, events[0]);
        lemma_failure_never_stops_loop(m, events[0], ep);
        assert(forall|k: int|
            0 <= k < events.skip(1).len() ==> !closes_stream(
                #[trigger] events.skip(1)[k],
                ep,
            ));
        lemma_loop_survives_batch(m1, events.skip(1), ep);
    }
}

/// The payloads a batch of events delivers to subscription `ep`, in
/// transport-delivery order.
pub open spec fn delivered_payloads(events: Seq<Event>, ep: int) -> Seq<i64>
    decreases events.len(),
{
    if events.len() == 0 {
        Seq::empty()
    } else {
        let rest = delivered_payloads(events.skip(1), ep);
        match events[0] {
            Event::Message { endpoint, payload } => if endpoint as int == ep {
                seq![payload] + rest
            } else {
                rest
            },
            _ => rest,
        }
    }
}

/// The payloads subscription `ep`'s callback has observed, in dispatch
/// order, as the trace records them.
pub open spec fn observed_payloads(trace: Seq<Invocation>, ep: int) -> Seq<i64>
    decreases trace.len(),
{
    if trace.len() == 0 {
        Seq::empty()
    } else {
        let rest = observed_payloads(trace.skip(1), ep);
        match trace[0] {
            Invocation::Message { endpoint, payload } => if endpoint == ep {
                seq![payload] + rest
            } else {
                rest
            },
            _ => rest,
        }
    }
}

/// What one recorded invocation contributes to subscription `ep`'s
/// observations.
pub open spec fn one_observation(inv: Invocation, ep: int) -> Seq<i64> {
    match inv {
        Invocation::Message { endpoint, payload } => if endpoint == ep {
            seq![payload]
        } else {
            Seq::empty()
        },
        _ => Seq::empty(),
    }
}

/// Appending one invocation to the trace appends its contribution to the
/// observations.
pub proof fn lemma_observed_push(trace: Seq<Invocation>, inv: Invocation, ep: int)
    ensures
        observed_payloads(trace.push(inv), ep) == observed_payloads(trace, ep) + one_observation(
            inv,
            ep,
        ),
    decreases trace.len(),
{
    if trace.len() == 0 {
        assert(trace.push(inv)[0] == inv);
        assert(trace.push(inv).skip(1) =~= Seq::<Invocation>::empty());
        assert(observed_payloads(Seq::<Invocation>::empty(), ep) == Seq::<i64>::empty());
        assert(observed_payloads(trace, ep) + one_observation(inv, ep) =~= one_observation(
            inv,
            ep,
        ));
        assert(observed_payloads(trace.push(inv), ep) =~= one_observation(inv, ep));
    } else {
        assert(trace.push(inv)[0] == trace[0]);
        assert(trace.push(inv).skip(1) =~= trace.skip(1).push(inv));
        lemma_observed_push(trace.skip(1), inv, ep);
        assert(observed_payloads(trace.push(inv), ep) =~= observed_payloads(trace, ep)
            + one_observation(inv, ep));
    }
}

/// What one event delivers to subscription `ep`.
pub open spec fn one_delivery(ev: Event, ep: int) -> Seq<i64> {
    match ev {
        Event::Message { endpoint, payload } => if endpoint as int == ep {
            seq![payload]
        } else {
            Seq::empty()
        },
        _ => Seq::empty(),
    }
}

/// One step's effect on subscription `ep`'s observations: a message for a
/// live `ep` is observed exactly once, everything else contributes nothing.
pub proof fn lemma_step_observed<T: DataModel>(m: NodeModel<T>, ev: Event, ep: int)
    requires
        live(m, ep, EndpointKind::Subscription),
    ensures
        observed_payloads(step(m, ev).trace, ep) == observed_payloads(m.trace, ep) + one_delivery(
            ev,
            ep,
        ),
{
    let m1 = step(m, ev);
    let before = observed_payloads(m.trace, ep);
    match ev {
        Event::TimerTick { endpoint } => {
            if live(m, endpoint as int, EndpointKind::WallTimer) {
                lemma_observed_push(m.trace, Invocation::Timer { endpoint: endpoint as int }, ep);
            }
            assert(observed_payloads(m1.trace, ep) =~= before + one_delivery(ev, ep));
        },
        Event::Message { endpoint, payload } => {
            if live(m, endpoint as int, EndpointKind::Subscription) {
                lemma_observed_push(
                    m.trace,
                    Invocation::Message { endpoint: endpoint as int, payload },
                    ep,
                );
            } else {
                assert(endpoint as int != ep);
            }
            assert(observed_payloads(m1.trace, ep) =~= before + one_delivery(ev, ep));
        },
        Event::ServiceRequest { endpoint, request } => {
            if live(m, endpoint as int, EndpointKind::Service) {
                lemma_observed_push(
                    m.trace,
                    Invocation::Request { endpoint: endpoint as int, request },
                    ep,
                );
            }
            assert(observed_payloads(m1.trace, ep) =~= before + one_delivery(ev, ep));
        },
        Event::CallResponse { call, response } => {
            if call_in_phase(m, call as int, CallPhase::Sent) && m.calls[call as int].mode
                == CallMode::Continuation {
                lemma_observed_push(
                    m.trace,
                    Invocation::Response {
                        endpoint: m.calls[call as int].endpoint,
                        call: call as int,
                        response,
                    },
                    ep,
                );
            }
            assert(observed_payloads(m1.trace, ep) =~= before + one_delivery(ev, ep));
        },
        _ => {
            assert(m1.trace == m.trace);
            assert(observed_payloads(m1.trace, ep) =~= before + one_delivery(ev, ep));
        },
    }
}

/// Per-endpoint FIFO delivery: for any batch of events, the callback of a
/// live subscription observes exactly the messages the transport delivered
/// for it, in delivery order, each exactly once — whatever other endpoints'
/// events are interleaved and however many callbacks fail along the way.
pub proof fn lemma_subscription_fifo<T: DataModel>(m: NodeModel<T>, events: Seq<Event>, ep: int)
    requires
        live(m, ep, EndpointKind::Subscription),
        forall|k: int| 0 <= k < events.len() ==> !closes_stream(#[trigger] events[k], ep),
    ensures
        observed_payloads(run_model(m, events).trace, ep) == observed_payloads(m.trace, ep)
            + delivered_payloads(events, ep),
    decreases events.len(),
{
    if events.len() == 0 {
        assert(observed_payloads(m.trace, ep) + delivered_payloads(events, ep)
            =~= observed_payloads(m.trace, ep));
    } else {
        let ev = events[0];
        let m1 = step(m, ev);
        lemma_step_observed(m, ev, ep);
        lemma_step_registry_stable(m, ev);
        lemma_failure_never_stops_loop(m, ev, ep);
        assert(forall|k: int|
            0 <= k < events.skip(1).len() ==> !closes_stream(
                #[trigger] events.skip(1)[k],
                ep,
            ));
        lemma_subscription_fifo(m1, events.skip(1), ep);
        assert(delivered_payloads(events, ep) =~= one_delivery(ev, ep) + delivered_payloads(
            events.skip(1),
            ep,
        ));
        assert(observed_payloads(run_model(m, events).trace, ep) =~= observed_payloads(
            m.trace,
            ep,
        ) + delivered_payloads(events, ep));
    }
}

/// Scheduling strategies are interchangeable: two batches that deliver the
/// same messages for a subscription — however differently events of other
/// endpoints are interleaved around them, as a cooperative drain, a worker
/// pool, or an async runtime would — make its callback observe exactly the
/// same payloads in the same order.
pub proof fn lemma_schedule_independence<T: DataModel>(
    m: NodeModel<T>,
    events_a: Seq<Event>,
    events_b: Seq<Event>,
    ep: int,
)
    requires
        live(m, ep, EndpointKind::Subscription),
        forall|k: int| 0 <= k < events_a.len() ==> !closes_stream(#[trigger] events_a[k], ep),
        forall|k: int| 0 <= k < events_b.len() ==> !closes_stream(#[trigger] events_b[k], ep),
        delivered_payloads(events_a, ep) == delivered_payloads(events_b, ep),
    ensures
        observed_payloads(run_model(m, events_a).trace, ep) == observed_payloads(
            run_model(m, events_b).trace,
            ep,
        ),
{
    lemma_subscription_fifo(m, events_a, ep);
    lemma_subscription_fifo(m, events_b, ep);
}

/// What one whole callback invocation does to the shared state, as the
/// implementor's specification functions describe it.
pub open spec fn apply_invocation<T: DataModel>(data: T, inv: Invocation) -> T {
    match inv {
        Invocation::Timer { endpoint } => data.timer_spec(endpoint).0,
        Invocation::Message { endpoint, payload } => data.message_spec(endpoint, payload).0,
        Invocation::Request { endpoint, request } => data.request_spec(endpoint, request).0,
        Invocation::Response { endpoint, call: _, response } => data.response_spec(
            endpoint,
            response,
        ).0,
    }
}

/// Folds a trace of whole callback invocations over an initial state.
pub open spec fn apply_trace<T: DataModel>(data: T, trace: Seq<Invocation>) -> T
    decreases trace.len(),
{
    if trace.len() == 0 {
        data
    } else {
        apply_trace(apply_invocation(data, trace[0]), trace.skip(1))
    }
}

/// Folding a trace that ends in `inv` applies `inv` last.
pub proof fn lemma_apply_trace_snoc<T: DataModel>(data: T, trace: Seq<Invocation>, inv: Invocation)
    ensures
        apply_trace(data, trace.push(inv)) == apply_invocation(apply_trace(data, trace), inv),
    decreases trace.len(),
{
    if trace.len() == 0 {
        assert(trace.push(inv)[0] == inv);
        assert(trace.push(inv).skip(1) =~= Seq::<Invocation>::empty());
        assert(apply_trace(apply_invocation(data, inv), Seq::<Invocation>::empty())
            == apply_invocation(data, inv));
        assert(apply_trace(data, trace) == data);
    } else {
        assert(trace.push(inv)[0] == trace[0]);
        assert(trace.push(inv).skip(1) =~= trace.skip(1).push(inv));
        lemma_apply_trace_snoc(apply_invocation(data, trace[0]), trace.skip(1), inv);
    }
}

/// One step changes the shared state by at most one whole callback: either
/// nothing ran and the state is untouched, or exactly one invocation was
/// appended to the trace and the state is that callback's result.
pub proof fn lemma_step_atomic_state<T: DataModel>(m: NodeModel<T>, ev: Event)
    ensures
        (step(m, ev).trace == m.trace && step(m, ev).data == m.data) || (step(m, ev).trace
            == m.trace.push(step(m, ev).trace.last()) && step(m, ev).data == apply_invocation(
            m.data,
            step(m, ev).trace.last(),
        )),
{
}

/// Between any two events the shared state is consistent: it equals the
/// initial state folded through the complete callback invocations recorded
/// so far. No endpoint ever observes a partially mutated value, and the lock
/// taken around each callback is free again after every event.
pub proof fn lemma_state_is_fold_of_callbacks<T: DataModel>(d0: T, m: NodeModel<T>, events: Seq<Event>)
    requires
        m.data == apply_trace(d0, m.trace),
    ensures
        run_model(m, events).data == apply_trace(d0, run_model(m, events).trace),
        run_model(m, events).locked == m.locked,
    decreases events.len(),
{
    if events.len() == 0 {
    } else {
        let m1 = step(m, events[0]);
        lemma_step_atomic_state(m, events[0]);
        lemma_step_registry_stable(m, events[0]);
        if m1.trace == m.trace {
        } else {
            lemma_apply_trace_snoc(d0, m.trace, m1.trace.last());
        }
        lemma_state_is_fold_of_callbacks(d0, m1, events.skip(1));
    }
}

/// Whether the continuation of pending call `c` has run.
pub open spec fn continuation_ran(trace: Seq<Invocation>, c: int) -> bool {
    exists|k: int|
        0 <= k < trace.len() && ((#[trigger] trace[k]) matches Invocation::Response { call, .. }
            && call == c)
}

/// Whether this event resolves the availability check of pending call `c`.
pub open spec fn grants_availability(ev: Event, c: int) -> bool {
    ev matches Event::CallAvailable { call } && call as int == c
}

/// A pushed invocation that is not `c`'s continuation cannot make `c`'s
/// continuation have run.
pub proof fn lemma_no_continuation_after_push(trace: Seq<Invocation>, inv: Invocation, c: int)
    requires
        !continuation_ran(trace, c),
        !(inv matches Invocation::Response { call, .. } && call == c),
    ensures
        !continuation_ran(trace.push(inv), c),
{
    assert forall|k: int| 0 <= k < trace.push(inv).len() implies !((#[trigger] trace.push(
        inv,
    )[k]) matches Invocation::Response { call, .. } && call == c) by {
        if k < trace.len() {
            assert(trace.push(inv)[k] == trace[k]);
            assert(!((trace[k]) matches Invocation::Response { call, .. } && call == c));
        } else {
            assert(trace.push(inv)[k] == inv);
        }
    }
}

/// One step against a call still waiting for availability (or already
/// failed): without an availability grant the call can only stay waiting or
/// fail, and its continuation does not run.
pub proof fn lemma_step_stalled_call<T: DataModel>(m: NodeModel<T>, ev: Event, c: int)
    requires
        0 <= c < m.calls.len(),
        m.calls[c].phase == CallPhase::WaitingForAvailability || m.calls[c].phase
            == CallPhase::Failed,
        !grants_availability(ev, c),
        !continuation_ran(m.trace, c),
    ensures
        step(m, ev).calls.len() == m.calls.len(),
        step(m, ev).calls[c].phase == CallPhase::WaitingForAvailability || step(m, ev).calls[c].phase
            == CallPhase::Failed,
        !continuation_ran(step(m, ev).trace, c),
{
    let m1 = step(m, ev);
    if m1.trace == m.trace {
    } else {
        match ev {
            Event::TimerTick { endpoint } => {
                lemma_no_continuation_after_push(
                    m.trace,
                    Invocation::Timer { endpoint: endpoint as int },
                    c,
                );
            },
            Event::Message { endpoint, payload } => {
                lemma_no_continuation_after_push(
                    m.trace,
                    Invocation::Message { endpoint: endpoint as int, payload },
                    c,
                );
            },
            Event::ServiceRequest { endpoint, request } => {
                lemma_no_continuation_after_push(
                    m.trace,
                    Invocation::Request { endpoint: endpoint as int, request },
                    c,
                );
            },
            Event::CallResponse { call, response } => {
                assert(call as int != c);
                lemma_no_continuation_after_push(
                    m.trace,
                    Invocation::Response {
                        endpoint: m.calls[call as int].endpoint,
                        call: call as int,
                        response,
                    },
                    c,
                );
            },
            _ => {},
        }
    }
}

/// A continuation-style call that never finds its service available never
/// invokes its continuation: over any batch without an availability grant
/// for call `c`, the call stays waiting (or fails on a transport error) and
/// no continuation invocation for it is ever dispatched. Sibling endpoints
/// are not blocked: every other event in the batch is still dispatched as
/// [`lemma_subscription_fifo`] and its kin state.
pub proof fn lemma_unavailable_never_invokes_continuation<T: DataModel>(
    m: NodeModel<T>,
    events: Seq<Event>,
    c: int,
)
    requires
        0 <= c < m.calls.len(),
        m.calls[c].phase == CallPhase::WaitingForAvailability || m.calls[c].phase
            == CallPhase::Failed,
        !continuation_ran(m.trace, c),
        forall|k: int| 0 <= k < events.len() ==> !grants_availability(#[trigger] events[k], c),
    ensures
        run_model(m, events).calls.len() == m.calls.len(),
        run_model(m, events).calls[c].phase == CallPhase::WaitingForAvailability || run_model(
            m,
            events,
        ).calls[c].phase == CallPhase::Failed,
        !continuation_ran(run_model(m, events).trace, c),
    decreases events.len(),
{
    if events.len() == 0 {
    } else {
        let m1 = step(m, events[0]);
        lemma_step_stalled_call(m, events[0], c);
        assert(forall|k: int|
            0 <= k < events.skip(1).len() ==> !grants_availability(
                #[trigger] events.skip(1)[k],
                c,
            ));
        lemma_unavailable_never_invokes_continuation(m1, events.skip(1), c);
    }
}

/// The responses a service endpoint has sent, in sending order.
pub open spec fn responses_for(responses: Seq<(int, Response)>, ep: int) -> Seq<Response>
    decreases responses.len(),
{
    if responses.len() == 0 {
        Seq::empty()
    } else {
        let rest = responses_for(responses.skip(1), ep);
        if responses[0].0 == ep {
            seq![responses[0].1] + rest
        } else {
            rest
        }
    }
}

/// Appending one sent response appends its payload to its endpoint's
/// projection.
pub proof fn lemma_responses_for_push(responses: Seq<(int, Response)>, x: (int, Response), ep: int)
    ensures
        responses_for(responses.push(x), ep) == responses_for(responses, ep) + (if x.0 == ep {
            seq![x.1]
        } else {
            Seq::empty()
        }),
    decreases responses.len(),
{
    if responses.len() == 0 {
        assert(responses.push(x)[0] == x);
        assert(responses.push(x).skip(1) =~= Seq::<(int, Response)>::empty());
        assert(responses_for(Seq::<(int, Response)>::empty(), ep) == Seq::<Response>::empty());
        assert(responses_for(responses.push(x), ep) =~= responses_for(responses, ep) + (if x.0
            == ep {
            seq![x.1]
        } else {
            Seq::<Response>::empty()
        }));
    } else {
        assert(responses.push(x)[0] == responses[0]);
        assert(responses.push(x).skip(1) =~= responses.skip(1).push(x));
        lemma_responses_for_push(responses.skip(1), x, ep);
        assert(responses_for(responses.push(x), ep) =~= responses_for(responses, ep) + (if x.0
            == ep {
            seq![x.1]
        } else {
            Seq::<Response>::empty()
        }));
    }
}

/// The replies that the successful service callbacks of endpoint `ep` earn
/// over a batch, with the shared state threaded through every step: a
/// request contributes exactly its reply when the callback succeeds and
/// nothing when it fails.
pub open spec fn ok_request_replies<T: DataModel>(m: NodeModel<T>, events: Seq<Event>, ep: int) -> Seq<
    Response,
>
    decreases events.len(),
{
    if events.len() == 0 {
        Seq::empty()
    } else {
        let rest = ok_request_replies(step(m, events[0]), events.skip(1), ep);
        match events[0] {
            Event::ServiceRequest { endpoint, request } => {
                if endpoint as int == ep && live(m, ep, EndpointKind::Service) {
                    match m.data.request_spec(ep, request).1 {
                        Ok(response) => seq![response] + rest,
                        Err(_) => rest,
                    }
                } else {
                    rest
                }
            },
            _ => rest,
        }
    }
}

/// A service callback that returns successfully causes exactly one response
/// to be sent per request, and a failing one causes none: over any batch,
/// endpoint `ep`'s sent responses grow by exactly the replies of its
/// successful callbacks, in request order.
pub proof fn lemma_one_response_per_successful_request<T: DataModel>(
    m: NodeModel<T>,
    events: Seq<Event>,
    ep: int,
)
    ensures
        responses_for(run_model(m, events).responses, ep) == responses_for(m.responses, ep)
            + ok_request_replies(m, events, ep),
    decreases events.len(),
{
    if events.len() == 0 {
        assert(responses_for(m.responses, ep) + ok_request_replies(m, events, ep)
            =~= responses_for(m.responses, ep));
    } else {
        let ev = events[0];
        let m1 = step(m, ev);
        match ev {
            Event::ServiceRequest { endpoint, request } => {
                if endpoint as int == ep && live(m, ep, EndpointKind::Service) {
                    match m.data.request_spec(ep, request).1 {
                        Ok(response) => {
                            lemma_responses_for_push(m.responses, (ep, response), ep);
                        },
                        Err(_) => {},
                    }
                } else {
                    if live(m, endpoint as int, EndpointKind::Service) {
                        match m.data.request_spec(endpoint as int, request).1 {
                            Ok(response) => {
                                lemma_responses_for_push(
                                    m.responses,
                                    (endpoint as int, response),
                                    ep,
                                );
                            },
                            Err(_) => {},
                        }
                    }
                }
            },
            _ => {
                assert(m1.responses == m.responses);
            },
        }
        lemma_one_response_per_successful_request(m1, events.skip(1), ep);
        assert(responses_for(run_model(m, events).responses, ep) =~= responses_for(m.responses, ep)
            + ok_request_replies(m, events, ep));
    }
}

/// The per-request shape behind [`lemma_one_response_per_successful_request`]:
/// a successful service callback sends exactly one response and logs
/// nothing; a failing one sends nothing and logs exactly one entry naming
/// the service.
pub proof fn lemma_service_response_discipline<T: DataModel>(m: NodeModel<T>, ep: int, request: Request)
    requires
        live(m, ep, EndpointKind::Service),
    ensures
        ({
            let m1 = step_request(m, ep, request);
            match m.data.request_spec(ep, request).1 {
                Ok(response) => m1.responses == m.responses.push((ep, response)) && m1.log == m.log,
                Err(detail) => m1.responses == m.responses && m1.log == m.log.push(
                    log_entry(m, ep, detail),
                ),
            }
        }),
{
}

/// Pending calls only move forward: no step decreases a call's phase rank,
/// and a call that has reached a terminal phase is never touched again — a
/// pending call is never reused.
pub proof fn lemma_call_phase_monotone<T: DataModel>(m: NodeModel<T>, ev: Event, c: int)
    requires
        0 <= c < m.calls.len(),
    ensures
        step(m, ev).calls.len() == m.calls.len(),
        m.calls[c].phase.rank() <= step(m, ev).calls[c].phase.rank(),
        m.calls[c].phase.is_terminal() ==> step(m, ev).calls[c] == m.calls[c],
{
}

/// Run-loop version of [`lemma_call_phase_monotone`]: once a call is
/// completed or failed, no batch of events changes it in any way.
pub proof fn lemma_terminal_calls_are_final<T: DataModel>(
    m: NodeModel<T>,
    events: Seq<Event>,
    c: int,
)
    requires
        0 <= c < m.calls.len(),
        m.calls[c].phase.is_terminal(),
    ensures
        run_model(m, events).calls.len() == m.calls.len(),
        run_model(m, events).calls[c] == m.calls[c],
    decreases events.len(),
{
    if events.len() == 0 {
    } else {
        lemma_call_phase_monotone(m, events[0], c);
        lemma_terminal_calls_are_final(step(m, events[0]), events.skip(1), c);
    }
}

} // verus!
