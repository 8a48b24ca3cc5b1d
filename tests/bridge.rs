use fluxduct::bridge::{Bridge, BridgeAction, BridgeEvent, BridgeState, StartupError};
use fluxduct::dict::PropertyDict;
use fluxduct::envelope::{Envelope, EventKind};
use fluxduct::gate::ReadinessGate;
use fluxduct::record::{IdPayload, ObjectKind, Payload, RawObject};

fn raw(id: u32, kind: ObjectKind, entries: &[(&str, &str)]) -> RawObject {
    let mut props = PropertyDict::new();
    for (k, v) in entries {
        props.insert(k.to_string(), v.to_string());
    }
    RawObject { id, kind, props }
}

fn node(id: u32) -> BridgeEvent {
    BridgeEvent::Added(raw(id, ObjectKind::Node, &[("object.serial", "1")]))
}

fn port(id: u32) -> BridgeEvent {
    BridgeEvent::Added(raw(id, ObjectKind::Port, &[("object.serial", "2"), ("node.id", "3"), ("port.id", "0")]))
}

fn link(id: u32) -> BridgeEvent {
    BridgeEvent::Added(raw(
        id,
        ObjectKind::Link,
        &[
            ("object.serial", "3"),
            ("link.input.port", "4"),
            ("link.output.port", "5"),
            ("link.input.node", "6"),
            ("link.output.node", "7"),
        ],
    ))
}

fn describe(e: &Envelope) -> (String, u32) {
    let id = match &e.payload {
        Payload::Node(p) => p.id,
        Payload::Port(p) => p.id,
        Payload::Link(p) => p.id,
        Payload::Id(p) => p.id,
    };
    (e.event_name(), id)
}

fn subscribed_bridge() -> Bridge {
    let mut b = Bridge::new();
    assert!(matches!(b.step(BridgeEvent::Connected), BridgeAction::Subscribe));
    assert!(matches!(b.step(BridgeEvent::Subscribed), BridgeAction::AwaitReady));
    assert_eq!(b.state(), BridgeState::AwaitingReadiness);
    b
}

fn running_bridge() -> Bridge {
    let mut b = subscribed_bridge();
    match b.step(BridgeEvent::Ready) {
        BridgeAction::RunLoop(held) => assert!(held.is_empty()),
        _ => panic!("expected the loop to start"),
    }
    b
}

fn emitted(a: BridgeAction) -> Vec<(String, u32)> {
    match a {
        BridgeAction::RunLoop(v) => v.iter().map(describe).collect(),
        BridgeAction::Deliver(e) => vec![describe(&e)],
        _ => vec![],
    }
}

#[test]
fn event_names() {
    assert_eq!(Envelope::remove(7).event_name(), "remove_id");
    let a = Envelope::add(Payload::Id(IdPayload { id: 3 }));
    assert_eq!(a.event_name(), "add_id");
    assert_eq!(a.kind, EventKind::Add);
    let mut b = running_bridge();
    assert_eq!(emitted(b.step(node(1))), vec![("add_node".to_string(), 1)]);
    assert_eq!(emitted(b.step(port(2))), vec![("add_port".to_string(), 2)]);
    assert_eq!(emitted(b.step(link(3))), vec![("add_link".to_string(), 3)]);
}

#[test]
fn event_payload_copies_record() {
    let mut b = running_bridge();
    let ev = BridgeEvent::Added(raw(9, ObjectKind::Node, &[("object.serial", "4"), ("node.nick", "mic")]));
    match b.step(ev) {
        BridgeAction::Deliver(e) => match e.event_payload() {
            Payload::Node(n) => {
                assert_eq!((n.id, n.serial), (9, 4));
                assert_eq!(n.nick.as_deref(), Some("mic"));
                assert_eq!(n.name, None);
            }
            _ => panic!("expected a node"),
        },
        _ => panic!("expected a delivery"),
    }
}

#[test]
fn startup_happy_path() {
    let mut b = Bridge::new();
    assert_eq!(b.state(), BridgeState::Created);
    assert!(!b.is_ready());
    assert!(matches!(b.step(BridgeEvent::Connected), BridgeAction::Subscribe));
    assert_eq!(b.state(), BridgeState::Connecting);
    assert!(matches!(b.step(BridgeEvent::Subscribed), BridgeAction::AwaitReady));
    assert!(matches!(b.step(BridgeEvent::Ready), BridgeAction::RunLoop(_)));
    assert_eq!(b.state(), BridgeState::Running);
    assert!(b.is_ready());
}

#[test]
fn startup_failures_are_fatal() {
    let mut b = Bridge::new();
    assert!(matches!(b.step(BridgeEvent::ConnectFailed), BridgeAction::Fail(StartupError::Connection)));
    assert_eq!(b.state(), BridgeState::Stopped);

    let mut b = Bridge::new();
    b.step(BridgeEvent::Connected);
    assert!(matches!(b.step(BridgeEvent::RegistryFailed), BridgeAction::Fail(StartupError::Registry)));
    assert_eq!(b.state(), BridgeState::Stopped);

    let mut b = Bridge::new();
    b.step(BridgeEvent::Connected);
    assert!(matches!(b.step(BridgeEvent::ListenerFailed), BridgeAction::Fail(StartupError::Listener)));
    assert_eq!(b.state(), BridgeState::Stopped);
    assert!(matches!(b.step(BridgeEvent::Subscribed), BridgeAction::Nothing));
}

#[test]
fn nothing_reaches_ui_before_ready() {
    let n = 5u32;
    let m = 3u32;
    let mut b = subscribed_bridge();
    for i in 0..n {
        let a = if i % 2 == 0 { b.step(node(i)) } else { b.step(BridgeEvent::Removed(i)) };
        assert!(matches!(a, BridgeAction::Hold));
    }
    assert_eq!(b.pending_len(), n as usize);
    let released = emitted(b.step(BridgeEvent::Ready));
    let expected: Vec<(String, u32)> = (0..n)
        .map(|i| if i % 2 == 0 { ("add_node".to_string(), i) } else { ("remove_id".to_string(), i) })
        .collect();
    assert_eq!(released, expected);
    assert_eq!(b.pending_len(), 0);
    for i in 0..m {
        assert_eq!(emitted(b.step(link(100 + i))), vec![("add_link".to_string(), 100 + i)]);
    }
}

#[test]
fn ready_before_subscription_releases_at_once() {
    let mut b = Bridge::new();
    assert!(matches!(b.step(BridgeEvent::Ready), BridgeAction::Nothing));
    b.step(BridgeEvent::Connected);
    assert!(matches!(b.step(BridgeEvent::Subscribed), BridgeAction::RunLoop(_)));
    assert_eq!(b.state(), BridgeState::Running);
}

#[test]
fn order_is_preserved() {
    let mut b = running_bridge();
    let mut seen = Vec::new();
    seen.extend(emitted(b.step(node(1))));
    seen.extend(emitted(b.step(BridgeEvent::Removed(2))));
    seen.extend(emitted(b.step(node(3))));
    assert_eq!(
        seen,
        vec![("add_node".to_string(), 1), ("remove_id".to_string(), 2), ("add_node".to_string(), 3)]
    );
}

#[test]
fn removal_ignores_kind() {
    for added in [node(7), port(7), link(7)] {
        let mut b = running_bridge();
        b.step(added);
        assert_eq!(emitted(b.step(BridgeEvent::Removed(7))), vec![("remove_id".to_string(), 7)]);
    }
    let mut b = running_bridge();
    assert_eq!(emitted(b.step(BridgeEvent::Removed(7))), vec![("remove_id".to_string(), 7)]);
}

#[test]
fn malformed_notification_is_dropped() {
    let mut b = running_bridge();
    let bad = BridgeEvent::Added(raw(8, ObjectKind::Link, &[("object.serial", "3"), ("link.input.port", "4")]));
    assert!(matches!(b.step(bad), BridgeAction::Discard(_)));
    assert_eq!(b.state(), BridgeState::Running);
    assert_eq!(emitted(b.step(node(9))), vec![("add_node".to_string(), 9)]);

    let mut b = subscribed_bridge();
    let bad = BridgeEvent::Added(raw(8, ObjectKind::Node, &[]));
    assert!(matches!(b.step(bad), BridgeAction::Discard(_)));
    assert_eq!(b.pending_len(), 0);
}

#[test]
fn other_kinds_produce_nothing() {
    let mut b = running_bridge();
    assert!(matches!(b.step(BridgeEvent::Added(raw(3, ObjectKind::Other, &[]))), BridgeAction::Nothing));
}

#[test]
fn ready_twice_is_ready_once() {
    let mut b = subscribed_bridge();
    b.step(node(1));
    assert_eq!(emitted(b.step(BridgeEvent::Ready)), vec![("add_node".to_string(), 1)]);
    assert!(matches!(b.step(BridgeEvent::Ready), BridgeAction::Nothing));
    assert_eq!(b.state(), BridgeState::Running);
    assert!(b.is_ready());
}

#[test]
fn gate_fires_once() {
    let mut g = ReadinessGate::new();
    assert!(!g.wait());
    g.signal_ready();
    assert!(g.wait());
    g.signal_ready();
    assert!(g.wait());
    assert!(g.wait());
}

#[test]
fn emit_failure_shuts_down() {
    let mut b = running_bridge();
    assert!(matches!(b.step(BridgeEvent::EmitFailed), BridgeAction::Shutdown));
    assert_eq!(b.state(), BridgeState::Stopped);
    assert!(matches!(b.step(node(1)), BridgeAction::Nothing));
    assert!(matches!(b.step(BridgeEvent::LoopEnded), BridgeAction::Nothing));

    let mut b = subscribed_bridge();
    b.step(node(1));
    assert!(matches!(b.step(BridgeEvent::LoopEnded), BridgeAction::Shutdown));
    assert_eq!(b.pending_len(), 0);
}
