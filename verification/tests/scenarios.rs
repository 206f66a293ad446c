//! End-to-end scenarios: finite stream prefixes run through the whole
//! pipeline, with the remote probe outcomes given per item.

use a11y_listener::events::{
    AccessibleProbe, ApplicationRef, DecodedEvent, Fetch, Inspection, MessageKind, RawMessage,
    Role, RoleFetch, StreamItem,
};
use a11y_listener::pipeline::{process_item, process_stream};

fn add_item() -> StreamItem {
    StreamItem::Received(RawMessage {
        kind: MessageKind::Signal,
        signature: "((so)(so)(so)iiassusau)".to_string(),
        decoded: DecodedEvent::Add(ApplicationRef {
            bus_name: Some("org.example.App".to_string()),
            object_path: "/org/example/App/Root".to_string(),
        }),
    })
}

fn remove_item() -> StreamItem {
    StreamItem::Received(RawMessage {
        kind: MessageKind::Signal,
        signature: "(so)".to_string(),
        decoded: DecodedEvent::Remove,
    })
}

fn reachable_probes() -> Inspection {
    Inspection {
        toolkit: Some(Fetch::Value("Gtk".to_string())),
        accessible: Some(AccessibleProbe {
            name: Fetch::Value("MainWindow".to_string()),
            description: Fetch::Value("".to_string()),
            role: RoleFetch::Value(Role::Named("Frame".to_string())),
        }),
    }
}

fn no_probes() -> Inspection {
    Inspection { toolkit: None, accessible: None }
}

fn add_lines() -> Vec<String> {
    vec![
        "AddAccessible DBus body signature: ((so)(so)(so)iiassusau)".to_string(),
        "Root object of Cache event bus_name: org.example.App, obj_path: /org/example/App/Root"
            .to_string(),
        "toolkit: Gtk".to_string(),
        "name: MainWindow".to_string(),
        "description: ".to_string(),
        "role: Frame".to_string(),
    ]
}

#[test]
fn add_event_with_reachable_handles_reports_everything() {
    let lines = process_item(&add_item(), &reachable_probes());
    assert_eq!(lines, add_lines());
}

#[test]
fn add_event_with_failed_accessible_handle_keeps_toolkit_line() {
    let probes = Inspection {
        toolkit: Some(Fetch::Value("Gtk".to_string())),
        accessible: None,
    };
    let lines = process_item(&add_item(), &probes);
    assert_eq!(
        lines,
        vec![
            "AddAccessible DBus body signature: ((so)(so)(so)iiassusau)".to_string(),
            "Root object of Cache event bus_name: org.example.App, obj_path: /org/example/App/Root"
                .to_string(),
            "toolkit: Gtk".to_string(),
        ]
    );
}

#[test]
fn remove_event_emits_exactly_the_signature_line() {
    let lines = process_item(&remove_item(), &no_probes());
    assert_eq!(lines, vec!["RemoveAccessible: DBus body signature: (so)".to_string()]);
}

#[test]
fn read_failure_is_reported_and_the_next_signal_still_processed() {
    let items = vec![StreamItem::ReadError("connection reset".to_string()), add_item()];
    let probes = vec![no_probes(), reachable_probes()];
    let lines = process_stream(&items, &probes);
    let mut expected = vec!["Error: connection reset".to_string()];
    expected.extend(add_lines());
    assert_eq!(lines, expected);
}

#[test]
fn undecoded_signal_between_events_emits_nothing() {
    let noise = StreamItem::Received(RawMessage {
        kind: MessageKind::Signal,
        signature: "sv".to_string(),
        decoded: DecodedEvent::Unrecognized,
    });
    let items = vec![remove_item(), noise, add_item()];
    let probes = vec![no_probes(), no_probes(), reachable_probes()];
    let lines = process_stream(&items, &probes);
    let mut expected = vec!["RemoveAccessible: DBus body signature: (so)".to_string()];
    expected.extend(add_lines());
    assert_eq!(lines, expected);
}

#[test]
fn processing_the_same_add_event_twice_gives_identical_output() {
    let first = process_item(&add_item(), &reachable_probes());
    let second = process_item(&add_item(), &reachable_probes());
    assert_eq!(first, second);
    let items = vec![add_item(), add_item()];
    let probes = vec![reachable_probes(), reachable_probes()];
    let lines = process_stream(&items, &probes);
    let mut expected = add_lines();
    expected.extend(add_lines());
    assert_eq!(lines, expected);
}
