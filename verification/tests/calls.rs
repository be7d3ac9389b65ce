//! The pending-call state machine and the two call styles under transport
//! errors and absent services.

use rutile::adder::AdderData;
use rutile::endpoint::EndpointKind;
use rutile::event::Event;
use rutile::message::{Request, Response};
use rutile::node::{CallError, Node};
use rutile::pending::{CallMode, CallPhase};

#[test]
fn call_on_a_non_client_is_refused() {
    let mut node = Node::create("demo", "", AdderData::new(None, None));
    let sub = node.register_subscription("T").unwrap();

    let err = node
        .call(sub, Request { a: 1, b: 2 }, CallMode::Awaitable)
        .unwrap_err();
    assert_eq!(err, CallError::UnknownClient);

    let err = node
        .call(99, Request { a: 1, b: 2 }, CallMode::Awaitable)
        .unwrap_err();
    assert_eq!(err, CallError::UnknownClient);
}

#[test]
fn call_walks_the_phases_in_order() {
    let mut node = Node::create("demo", "", AdderData::new(None, None));
    let client = node.register_client("add").unwrap();
    let call = node
        .call(client, Request { a: 4, b: 5 }, CallMode::Awaitable)
        .unwrap();

    assert_eq!(node.call_phase(call), Some(CallPhase::WaitingForAvailability));
    node.handle_event(&Event::CallAvailable { call });
    assert_eq!(node.call_phase(call), Some(CallPhase::Sent));
    node.handle_event(&Event::CallResponse { call, response: Response { sum: 9 } });
    assert_eq!(node.call_phase(call), Some(CallPhase::Completed));

    // Terminal phases are final: further events change nothing.
    node.handle_event(&Event::CallAvailable { call });
    node.handle_event(&Event::CallFault { call, detail: "late".to_string() });
    assert_eq!(node.call_phase(call), Some(CallPhase::Completed));
    assert_eq!(node.call_outcome(call).unwrap().unwrap(), Response { sum: 9 });
}

#[test]
fn continuation_fault_is_logged_and_swallowed() {
    let mut node = Node::create("demo", "", AdderData::new(None, None));
    let client = node.register_client("add").unwrap();
    let call = node
        .call(client, Request { a: 4, b: 5 }, CallMode::Continuation)
        .unwrap();

    node.spin(&vec![Event::CallFault { call, detail: "send failed".to_string() }]);

    assert_eq!(node.call_phase(call), Some(CallPhase::Failed));
    // The continuation never ran, and the failure was logged against the
    // owning client endpoint.
    assert!(node.data().replies.is_empty());
    assert_eq!(node.log().len(), 1);
    assert_eq!(node.log()[0].endpoint_name, "add");
    assert_eq!(node.log()[0].kind, EndpointKind::Client);
    assert_eq!(node.log()[0].detail, "send failed");
}

#[test]
fn awaitable_fault_propagates_and_is_not_logged() {
    let mut node = Node::create("demo", "", AdderData::new(None, None));
    let client = node.register_client("add").unwrap();
    let call = node
        .call(client, Request { a: 4, b: 5 }, CallMode::Awaitable)
        .unwrap();

    node.spin(&vec![
        Event::CallAvailable { call },
        Event::CallFault { call, detail: "response future error".to_string() },
    ]);

    assert_eq!(node.call_phase(call), Some(CallPhase::Failed));
    let err = node.call_outcome(call).unwrap().unwrap_err();
    assert_eq!(err, "response future error");
    assert_eq!(node.log().len(), 0);
}

#[test]
fn unavailable_service_never_invokes_the_continuation() {
    let mut node = Node::create("demo", "", AdderData::new(None, None));
    let client = node.register_client("absent").unwrap();
    let sub = node.register_subscription("T").unwrap();
    let call = node
        .call(client, Request { a: 2, b: 3 }, CallMode::Continuation)
        .unwrap();

    // The availability check never resolves; sibling endpoints keep running.
    node.spin(&vec![
        Event::Message { endpoint: sub, payload: 1 },
        Event::Message { endpoint: sub, payload: 2 },
    ]);

    assert_eq!(node.call_phase(call), Some(CallPhase::WaitingForAvailability));
    assert!(node.data().replies.is_empty());
    assert_eq!(node.data().received, vec![1, 2]);
    assert!(node.call_outcome(call).is_none());
}

#[test]
fn each_call_is_tracked_separately() {
    let mut node = Node::create("demo", "", AdderData::new(None, None));
    let client = node.register_client("add").unwrap();
    let first = node
        .call(client, Request { a: 1, b: 2 }, CallMode::Awaitable)
        .unwrap();
    let second = node
        .call(client, Request { a: 3, b: 4 }, CallMode::Awaitable)
        .unwrap();
    assert_ne!(first, second);

    node.spin(&vec![
        Event::CallAvailable { call: second },
        Event::CallResponse { call: second, response: Response { sum: 7 } },
    ]);

    assert_eq!(node.call_phase(first), Some(CallPhase::WaitingForAvailability));
    assert_eq!(node.call_phase(second), Some(CallPhase::Completed));
    assert_eq!(node.call_outcome(second).unwrap().unwrap(), Response { sum: 7 });
}
