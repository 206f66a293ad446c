//! The trusted boundary to the bus: the declaration of the transport's
//! message type, and the wrappers through which a received message is
//! reduced to the model the verified pipeline reads.

use crate::events::{ApplicationRef, DecodedEvent, MessageKind, RawMessage};
use atspi::CacheEvents;
use vstd::prelude::*;

verus! {

#[verifier::external_type_specification]
#[verifier::external_body]
pub struct ExMessage(zbus::Message);

/// Relies on zbus's `Message::message_type` for the kind tag of a bus
/// message; the four tags are carried over one for one.
#[verifier::external_body]
fn message_kind(message: &zbus::Message) -> MessageKind {
    match message.message_type() {
        zbus::message::Type::Signal => MessageKind::Signal,
        zbus::message::Type::MethodCall => MessageKind::MethodCall,
        zbus::message::Type::MethodReturn => MessageKind::MethodReturn,
        zbus::message::Type::Error => MessageKind::Error,
    }
}

/// Relies on zbus's `Body::signature`, reached through `Message::body`,
/// for the body type-signature string of a bus message.
#[verifier::external_body]
fn body_signature_text(message: &zbus::Message) -> String {
    message.body().signature().to_string()
}

/// Relies on atspi's `Event::try_from` on a bus message to decode it,
/// keeping of the result only the variants the listener reacts to and,
/// for an addition, the owning application's bus name and object path.
#[verifier::external_body]
fn classify_message(message: &zbus::Message) -> DecodedEvent {
    match atspi::Event::try_from(message) {
        Ok(atspi::Event::Cache(CacheEvents::Add(event))) => DecodedEvent::Add(ApplicationRef {
            bus_name: match event.node_added.app.name_as_str() {
                Some(name) => Some(name.to_owned()),
                None => None,
            },
            object_path: event.node_added.app.path_as_str().to_owned(),
        }),
        Ok(atspi::Event::Cache(CacheEvents::Remove(_))) => DecodedEvent::Remove,
        Ok(atspi::Event::Cache(CacheEvents::LegacyAdd(_))) => DecodedEvent::LegacyAdd,
        Ok(_) => DecodedEvent::Other,
        Err(_) => DecodedEvent::Unrecognized,
    }
}

/// Reduces one received bus message to the model the pipeline reads:
/// its kind tag, its body signature, and — for a signal — what it
/// decodes to.  A non-signal is never handed to the decoder, matching a
/// filter that runs before decoding.
pub fn read_message(message: &zbus::Message) -> (r: RawMessage)
    ensures
        !(r.kind is Signal) ==> r.decoded is Unrecognized,
{
    let kind = message_kind(message);
    let signature = body_signature_text(message);
    let decoded = match kind {
        MessageKind::Signal => classify_message(message),
        _ => DecodedEvent::Unrecognized,
    };
    RawMessage { kind, signature, decoded }
}

} // verus!
