//! Tests that drive the trusted boundary with real bus messages and
//! transport errors, without a bus: messages are built in memory.

use a11y_listener::bus::read_message;
use a11y_listener::events::{DecodedEvent, Inspection, MessageKind, StreamItem};
use a11y_listener::pipeline::process_item;

#[test]
fn add_accessible_signal_decodes_to_add() {
    let node = atspi::CacheItem::default();
    let message = zbus::message::Message::signal(
        "/org/a11y/atspi/cache",
        "org.a11y.atspi.Cache",
        "AddAccessible",
    )
    .unwrap()
    .sender(":0.1")
    .unwrap()
    .build(&node)
    .unwrap();
    let raw = read_message(&message);
    assert!(matches!(raw.kind, MessageKind::Signal));
    assert_eq!(raw.signature, "((so)(so)(so)iiassusau)");
    match raw.decoded {
        DecodedEvent::Add(app) => {
            assert_eq!(app.bus_name.as_deref(), Some(":0.0"));
            assert_eq!(app.object_path, "/org/a11y/atspi/accessible/application");
        }
        _ => panic!("expected the message to decode to an Add event"),
    }
}

#[test]
fn unrelated_signal_is_unrecognized() {
    let message = zbus::message::Message::signal("/org/example", "org.example.Irrelevant", "Ping")
        .unwrap()
        .sender(":0.1")
        .unwrap()
        .build(&())
        .unwrap();
    let raw = read_message(&message);
    assert!(matches!(raw.kind, MessageKind::Signal));
    assert!(matches!(raw.decoded, DecodedEvent::Unrecognized));
}

#[test]
fn method_call_is_not_a_signal_and_never_decoded() {
    let message = zbus::message::Message::method_call("/org/example", "Ping")
        .unwrap()
        .destination("org.example.Peer")
        .unwrap()
        .build(&())
        .unwrap();
    let raw = read_message(&message);
    assert!(matches!(raw.kind, MessageKind::MethodCall));
    assert!(matches!(raw.decoded, DecodedEvent::Unrecognized));
}

#[test]
fn transport_error_line_carries_the_error_text() {
    let failure = StreamItem::ReadError(format!("{:?}", zbus::Error::InterfaceNotFound));
    let no_probes = Inspection { toolkit: None, accessible: None };
    let lines = process_item(&failure, &no_probes);
    assert_eq!(lines, vec!["Error: InterfaceNotFound".to_string()]);
}
