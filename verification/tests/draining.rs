//! The executor's drain: poll orders merge ready queues without reordering
//! any single queue.

use rutile::adder::AdderData;
use rutile::event::Event;
use rutile::executor::drain;
use rutile::node::Node;

#[test]
fn drain_keeps_each_queue_in_order() {
    let mut node = Node::create("demo", "", AdderData::new(None, None));
    let timer = node.register_wall_timer("tick", 100).unwrap();
    let sub = node.register_subscription("T").unwrap();

    // One ready queue per endpoint, merged by an alternating poll order.
    let queues = vec![
        vec![
            Event::Message { endpoint: sub, payload: 1 },
            Event::Message { endpoint: sub, payload: 2 },
            Event::Message { endpoint: sub, payload: 3 },
        ],
        vec![Event::TimerTick { endpoint: timer }, Event::TimerTick { endpoint: timer }],
    ];
    let schedule = vec![0, 1, 0, 1, 0];
    let batch = drain(queues, &schedule);
    assert_eq!(batch.len(), 5);

    node.spin(&batch);
    // The subscription's payloads arrive in queue order however the polls
    // interleaved them with the timer's ticks.
    assert_eq!(node.data().received, vec![1, 2, 3]);
    assert_eq!(node.data().ticks, 2);
}

#[test]
fn polls_of_empty_or_unknown_queues_take_nothing() {
    let mut node = Node::create("demo", "", AdderData::new(None, None));
    let sub = node.register_subscription("T").unwrap();

    let queues = vec![vec![Event::Message { endpoint: sub, payload: 7 }]];
    // Polls beyond the queue's length and polls of unknown queues are no-ops.
    let schedule = vec![9, 0, 0, 0];
    let batch = drain(queues, &schedule);
    assert_eq!(batch.len(), 1);

    node.spin(&batch);
    assert_eq!(node.data().received, vec![7]);
}

#[test]
fn a_partial_poll_order_drains_a_prefix() {
    let mut node = Node::create("demo", "", AdderData::new(None, None));
    let sub = node.register_subscription("T").unwrap();

    let queues = vec![vec![
        Event::Message { endpoint: sub, payload: 1 },
        Event::Message { endpoint: sub, payload: 2 },
    ]];
    let schedule = vec![0];
    let batch = drain(queues, &schedule);

    node.spin(&batch);
    assert_eq!(node.data().received, vec![1]);
}
