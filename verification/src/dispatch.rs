//! Per-event-kind dispatch: which lines a decoded event produces and
//! whether it asks for the remote object probes.

use crate::events::{ApplicationRef, DecodedEvent};
use crate::lines::{
    add_signature_line, legacy_add_signature_line, line_with, remove_signature_line,
    root_object_line, root_object_line_value,
};
use vstd::prelude::*;

verus! {

/// The bus-name text used in the root-object line: the carried name, or
/// nothing where the event carried none.
pub open spec fn bus_text(bus_name: Option<String>) -> Seq<char> {
    match bus_name {
        Option::Some(name) => name@,
        Option::None => Seq::empty(),
    }
}

/// The lines a decoded event produces before any remote probe runs.
/// An `Add` event announces its body signature and the owning
/// application; `Remove` and `LegacyAdd` announce their body signature
/// only; everything else is silently ignored.
pub open spec fn dispatch_lines(event: DecodedEvent, sig: Seq<char>) -> Seq<Seq<char>> {
    match event {
        DecodedEvent::Add(app) => seq![
            add_signature_line(sig),
            root_object_line(bus_text(app.bus_name), app.object_path@),
        ],
        DecodedEvent::Remove => seq![remove_signature_line(sig)],
        DecodedEvent::LegacyAdd => seq![legacy_add_signature_line(sig)],
        DecodedEvent::Other => Seq::empty(),
        DecodedEvent::Unrecognized => Seq::empty(),
    }
}

/// Which events ask for the remote object probes: exactly the `Add`
/// events, which hand over their application reference.
pub open spec fn probe_request(event: DecodedEvent) -> Option<ApplicationRef> {
    match event {
        DecodedEvent::Add(app) => Option::Some(app),
        _ => Option::None,
    }
}

/// Emits the dispatch lines of one decoded event.
pub fn dispatch_report(event: &DecodedEvent, signature: &str) -> (r: Vec<String>)
    ensures
        r.deep_view() == dispatch_lines(*event, signature@),
{
    let mut r: Vec<String> = Vec::new();
    match event {
        DecodedEvent::Add(app) => {
            r.push(line_with("AddAccessible DBus body signature: ", signature));
            let bus: &str = match &app.bus_name {
                Option::Some(name) => name.as_str(),
                Option::None => "",
            };
            proof {
                reveal_strlit("");
                assert(bus@ =~= bus_text(app.bus_name));
            }
            r.push(root_object_line_value(bus, app.object_path.as_str()));
        },
        DecodedEvent::Remove => {
            r.push(line_with("RemoveAccessible: DBus body signature: ", signature));
        },
        DecodedEvent::LegacyAdd => {
            r.push(line_with("LegacyAddAccessible: DBus body signature: ", signature));
        },
        DecodedEvent::Other => {},
        DecodedEvent::Unrecognized => {},
    }
    proof {
        assert(r.deep_view() =~~= dispatch_lines(*event, signature@));
    }
    r
}

/// Dispatches one decoded event: its lines, and the probe request an
/// `Add` event makes.
pub fn dispatch(event: DecodedEvent, signature: &str) -> (r: (Vec<String>, Option<ApplicationRef>))
    ensures
        r.0.deep_view() == dispatch_lines(event, signature@),
        r.1 == probe_request(event),
{
    let lines = dispatch_report(&event, signature);
    let request = match event {
        DecodedEvent::Add(app) => Option::Some(app),
        _ => Option::None,
    };
    (lines, request)
}

} // verus!
