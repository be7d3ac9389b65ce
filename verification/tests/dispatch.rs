//! Dispatcher behaviour: failure isolation, end of stream, tick-source
//! faults, and events a well-behaved transport would never produce.

use rutile::adder::AdderData;
use rutile::endpoint::EndpointKind;
use rutile::event::Event;
use rutile::node::Node;

#[test]
fn callback_failure_never_stops_the_loop() {
    // The callback fails on payload 20; the loop must survive and process 30.
    let mut node = Node::create("demo", "", AdderData::new(None, Some(20)));
    let sub = node.register_subscription("T").unwrap();

    node.spin(&vec![
        Event::Message { endpoint: sub, payload: 10 },
        Event::Message { endpoint: sub, payload: 20 },
        Event::Message { endpoint: sub, payload: 30 },
    ]);

    assert_eq!(node.data().received, vec![10, 30]);
    assert_eq!(node.log().len(), 1);
    assert_eq!(node.log()[0].endpoint_name, "T");
    assert_eq!(node.log()[0].kind, EndpointKind::Subscription);
    assert_eq!(node.log()[0].detail, "message refused");
    assert!(node.endpoints()[sub].active);
}

#[test]
fn end_of_stream_stops_the_loop_quietly() {
    let mut node = Node::create("demo", "", AdderData::new(None, None));
    let sub = node.register_subscription("T").unwrap();

    node.spin(&vec![
        Event::Message { endpoint: sub, payload: 1 },
        Event::EndOfStream { endpoint: sub },
        Event::Message { endpoint: sub, payload: 2 },
    ]);

    // The message after end of stream is not dispatched, and the shutdown is
    // normal: nothing is logged.
    assert_eq!(node.data().received, vec![1]);
    assert!(!node.endpoints()[sub].active);
    assert_eq!(node.log().len(), 0);
}

#[test]
fn tick_fault_is_logged_and_the_timer_keeps_running() {
    let mut node = Node::create("demo", "", AdderData::new(None, None));
    let timer = node.register_wall_timer("tick", 100).unwrap();

    node.spin(&vec![
        Event::TimerTick { endpoint: timer },
        Event::TimerFault { endpoint: timer, detail: "clock error".to_string() },
        Event::TimerTick { endpoint: timer },
    ]);

    // The fault is logged, no callback ran for it, and the timer was not
    // auto-cancelled: the next tick was dispatched.
    assert_eq!(node.data().ticks, 2);
    assert_eq!(node.log().len(), 1);
    assert_eq!(node.log()[0].endpoint_name, "tick");
    assert_eq!(node.log()[0].kind, EndpointKind::WallTimer);
    assert_eq!(node.log()[0].detail, "clock error");
    assert!(node.endpoints()[timer].active);
}

#[test]
fn events_for_the_wrong_endpoint_kind_are_ignored() {
    let mut node = Node::create("demo", "", AdderData::new(None, None));
    let timer = node.register_wall_timer("tick", 100).unwrap();
    let sub = node.register_subscription("T").unwrap();

    node.spin(&vec![
        // A message addressed to the timer and a tick addressed to the
        // subscription: a well-behaved transport never produces these, and
        // the dispatcher lets them change nothing.
        Event::Message { endpoint: timer, payload: 7 },
        Event::TimerTick { endpoint: sub },
        Event::EndOfStream { endpoint: timer },
        Event::Message { endpoint: 99, payload: 8 },
    ]);

    assert_eq!(node.data().received, Vec::<i64>::new());
    assert_eq!(node.data().ticks, 0);
    assert_eq!(node.log().len(), 0);
    assert!(node.endpoints()[timer].active);
    assert!(node.endpoints()[sub].active);
}

#[test]
fn state_reflects_whole_callbacks_in_dispatch_order() {
    // Interleaved endpoints mutate one shared state; after the batch it is
    // exactly the fold of the completed callbacks, never a partial value.
    let mut node = Node::create("demo", "", AdderData::new(None, None));
    let timer = node.register_wall_timer("tick", 100).unwrap();
    let sub = node.register_subscription("T").unwrap();

    node.spin(&vec![
        Event::Message { endpoint: sub, payload: 1 },
        Event::TimerTick { endpoint: timer },
        Event::Message { endpoint: sub, payload: 2 },
        Event::TimerTick { endpoint: timer },
        Event::Message { endpoint: sub, payload: 3 },
    ]);

    assert_eq!(node.data().received, vec![1, 2, 3]);
    assert_eq!(node.data().ticks, 2);
}

#[test]
fn two_subscriptions_each_keep_their_own_order() {
    let mut node = Node::create("demo", "", AdderData::new(None, None));
    let first = node.register_subscription("A").unwrap();
    let second = node.register_subscription("B").unwrap();

    node.spin(&vec![
        Event::Message { endpoint: first, payload: 1 },
        Event::Message { endpoint: second, payload: 100 },
        Event::Message { endpoint: first, payload: 2 },
        Event::Message { endpoint: second, payload: 200 },
    ]);

    // One recorder serves both subscriptions, so the combined record shows
    // the dispatch interleaving; each topic's own payloads stay in delivery
    // order within it.
    assert_eq!(node.data().received, vec![1, 100, 2, 200]);
}
