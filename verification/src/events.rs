//! Data model of the listener: message kinds, decoded lifecycle events,
//! and the outcomes of the remote property probes made for an `Add` event.

use vstd::prelude::*;

verus! {

/// The kind tag carried by every message read from the bus.
#[derive(Clone, Copy)]
pub enum MessageKind {
    Signal,
    MethodCall,
    MethodReturn,
    Error,
}

/// Addresses the application that owns a newly announced accessible
/// object: a bus name (absent when the event did not carry one) and an
/// object path.  Purely an addressing pair — the remote object it points
/// at may vanish at any time.
pub struct ApplicationRef {
    pub bus_name: Option<String>,
    pub object_path: String,
}

/// The result of trying to decode one signal message.  `Add`, `Remove`
/// and `LegacyAdd` are the lifecycle notifications the listener reacts
/// to; `Other` is a recognized event outside that set; `Unrecognized`
/// is a signal that decodes to no known event at all.
pub enum DecodedEvent {
    Add(ApplicationRef),
    Remove,
    LegacyAdd,
    Other,
    Unrecognized,
}

/// One inbound bus message, reduced to the parts the listener reads:
/// its kind tag, its body type-signature string, and what it decodes to.
pub struct RawMessage {
    pub kind: MessageKind,
    pub signature: String,
    pub decoded: DecodedEvent,
}

/// One item of the transport stream: either a message that was read
/// successfully, or a read failure carrying its diagnostic text.
pub enum StreamItem {
    Received(RawMessage),
    ReadError(String),
}

/// Outcome of fetching one string-valued remote property.
pub enum Fetch {
    Value(String),
    Failed,
}

/// Classification of an accessible object as reported by the remote
/// side, with the sentinel used whenever the value cannot be obtained.
pub enum Role {
    Named(String),
    Unknown,
}

/// Outcome of fetching the role of an accessible object.
pub enum RoleFetch {
    Value(Role),
    Failed,
}

/// Outcomes of the three property fetches made through an accessible
/// handle that was built successfully.
pub struct AccessibleProbe {
    pub name: Fetch,
    pub description: Fetch,
    pub role: RoleFetch,
}

/// Outcomes of the two independent probe sequences run for one `Add`
/// event.  `None` records that building the corresponding remote handle
/// failed, which skips that sequence's fetches entirely.
pub struct Inspection {
    pub toolkit: Option<Fetch>,
    pub accessible: Option<AccessibleProbe>,
}

} // verus!
