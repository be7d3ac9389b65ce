//! Registration: atomic success or refusal, per-kind name spaces, and
//! publishers.

use rutile::adder::AdderData;
use rutile::endpoint::EndpointKind;
use rutile::message::Request;
use rutile::node::{Node, RegistrationError};

#[test]
fn node_keeps_its_identity() {
    let node: Node<AdderData> = Node::create("demo", "ns", AdderData::new(None, None));
    assert_eq!(node.name(), "demo");
    assert_eq!(node.namespace(), "ns");
}

#[test]
fn registration_is_atomic_and_refuses_taken_names() {
    let mut node = Node::create("demo", "", AdderData::new(None, None));
    let first = node.register_subscription("T").unwrap();
    assert_eq!(first, 0);
    assert_eq!(node.endpoints().len(), 1);

    // A second subscription on the same topic is refused and leaves no
    // partial endpoint state behind.
    let err = node.register_subscription("T").unwrap_err();
    assert_eq!(err, RegistrationError::NameTaken);
    assert_eq!(node.endpoints().len(), 1);

    // The next successful registration takes the next index.
    let second = node.register_subscription("U").unwrap();
    assert_eq!(second, 1);
    assert_eq!(node.endpoints().len(), 2);
}

#[test]
fn kinds_have_separate_name_spaces() {
    let mut node = Node::create("demo", "", AdderData::new(None, None));
    node.register_subscription("add").unwrap();
    node.register_service("add").unwrap();
    node.register_client("add").unwrap();
    node.register_wall_timer("add", 50).unwrap();
    assert_eq!(node.endpoints().len(), 4);

    assert_eq!(node.register_service("add").unwrap_err(), RegistrationError::NameTaken);
    assert_eq!(node.register_client("add").unwrap_err(), RegistrationError::NameTaken);
}

#[test]
fn registry_records_what_was_registered() {
    let mut node = Node::create("demo", "", AdderData::new(None, None));
    let timer = node.register_wall_timer("tick", 100).unwrap();
    let srv = node.register_service("add").unwrap();

    let eps = node.endpoints();
    assert_eq!(eps[timer].name, "tick");
    assert_eq!(eps[timer].kind, EndpointKind::WallTimer);
    assert_eq!(eps[timer].period_ms, Some(100));
    assert!(eps[timer].active);
    assert_eq!(eps[srv].name, "add");
    assert_eq!(eps[srv].kind, EndpointKind::Service);
    assert_eq!(eps[srv].period_ms, None);
}

#[test]
fn publisher_records_payloads_in_publish_order() {
    let node = Node::create("demo", "", AdderData::new(None, None));
    let mut publisher = node.register_publisher("T");
    assert_eq!(publisher.topic(), "T");
    assert!(publisher.sent().is_empty());

    publisher.publish(5);
    publisher.publish(-3);
    publisher.publish(5);
    assert_eq!(publisher.sent(), &vec![5, -3, 5]);
}

#[test]
fn overflowing_sum_is_a_callback_failure() {
    let mut node = Node::create("server", "", AdderData::new(None, None));
    let srv = node.register_service("add").unwrap();

    node.spin(&vec![rutile::event::Event::ServiceRequest {
        endpoint: srv,
        request: Request { a: i64::MAX, b: 1 },
    }]);

    assert_eq!(node.responses().len(), 0);
    assert_eq!(node.log().len(), 1);
    assert_eq!(node.log()[0].detail, "sum out of range");
}
