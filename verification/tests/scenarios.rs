//! End-to-end scenarios: a timer beside a subscription, a client/service
//! round trip in both call styles, and a refused service request.

use rutile::adder::AdderData;
use rutile::event::Event;
use rutile::message::{Request, Response};
use rutile::node::Node;
use rutile::pending::{CallMode, CallPhase};

#[test]
fn timer_and_subscription_in_publish_order() {
    let mut node = Node::create("demo", "", AdderData::new(None, None));
    let timer = node.register_wall_timer("tick", 100).unwrap();
    let sub = node.register_subscription("T").unwrap();

    let mut publisher = node.register_publisher("T");
    publisher.publish(10);
    publisher.publish(20);
    publisher.publish(30);

    // The transport delivers the first tick, then the three published
    // messages (well within the timer period), then the second tick.
    let mut events = vec![Event::TimerTick { endpoint: timer }];
    for payload in publisher.sent() {
        events.push(Event::Message {
            endpoint: sub,
            payload: *payload,
        });
    }
    events.push(Event::TimerTick { endpoint: timer });

    node.spin(&events);

    // The subscription callback fired exactly three times before the second
    // tick, with the payloads in publish order.
    assert_eq!(node.data().received, vec![10, 20, 30]);
    assert_eq!(node.data().ticks, 2);
    assert_eq!(node.log().len(), 0);
}

#[test]
fn awaitable_call_yields_sum() {
    // Service side: a node that computes the sum.
    let mut service_node = Node::create("server", "", AdderData::new(None, None));
    let srv = service_node.register_service("add").unwrap();
    service_node.spin(&vec![Event::ServiceRequest {
        endpoint: srv,
        request: Request { a: 2, b: 3 },
    }]);
    assert_eq!(service_node.responses().len(), 1);
    let served = service_node.responses()[0].response;
    assert_eq!(served, Response { sum: 5 });

    // Client side, awaitable style: the caller collects the outcome itself.
    let mut client_node = Node::create("client", "", AdderData::new(None, None));
    let client = client_node.register_client("add").unwrap();
    let call = client_node
        .call(client, Request { a: 2, b: 3 }, CallMode::Awaitable)
        .unwrap();
    assert!(client_node.call_outcome(call).is_none());

    client_node.spin(&vec![
        Event::CallAvailable { call },
        Event::CallResponse {
            call,
            response: served,
        },
    ]);

    let outcome = client_node.call_outcome(call).unwrap();
    assert_eq!(outcome.unwrap(), Response { sum: 5 });
    // No continuation was registered, so none ran.
    assert!(client_node.data().replies.is_empty());
}

#[test]
fn continuation_call_yields_sum() {
    let mut node = Node::create("client", "", AdderData::new(None, None));
    let client = node.register_client("add").unwrap();
    let call = node
        .call(client, Request { a: 2, b: 3 }, CallMode::Continuation)
        .unwrap();

    node.spin(&vec![
        Event::CallAvailable { call },
        Event::CallResponse {
            call,
            response: Response { sum: 5 },
        },
    ]);

    // The continuation observed exactly the response.
    assert_eq!(node.data().replies, vec![Response { sum: 5 }]);
    assert_eq!(node.call_phase(call), Some(CallPhase::Completed));
    assert_eq!(node.log().len(), 0);
}

#[test]
fn refused_request_sends_nothing_and_logs_once() {
    let refused = Request { a: 1, b: 1 };
    let mut node = Node::create("server", "", AdderData::new(Some(refused), None));
    let srv = node.register_service("add").unwrap();

    node.spin(&vec![Event::ServiceRequest {
        endpoint: srv,
        request: refused,
    }]);

    // No reply was sent; one log entry identifies the service by name.
    assert_eq!(node.responses().len(), 0);
    assert_eq!(node.log().len(), 1);
    assert_eq!(node.log()[0].endpoint_name, "add");
    assert_eq!(node.log()[0].detail, "request refused");
}
