//! The exact text of every line the listener can emit, as spec-level
//! sequences of characters, together with the verified builders that
//! produce them.

use vstd::prelude::*;
use vstd::string::StringExecFns;

verus! {

/// Text of the signature line emitted for an `Add` event.
pub open spec fn add_signature_line(sig: Seq<char>) -> Seq<char> {
    "AddAccessible DBus body signature: "@ + sig
}

/// Text of the signature line emitted for a `Remove` event.
pub open spec fn remove_signature_line(sig: Seq<char>) -> Seq<char> {
    "RemoveAccessible: DBus body signature: "@ + sig
}

/// Text of the signature line emitted for a `LegacyAdd` event.
pub open spec fn legacy_add_signature_line(sig: Seq<char>) -> Seq<char> {
    "LegacyAddAccessible: DBus body signature: "@ + sig
}

/// Text of the line naming the application that owns the added object.
pub open spec fn root_object_line(bus: Seq<char>, path: Seq<char>) -> Seq<char> {
    "Root object of Cache event bus_name: "@ + bus + ", obj_path: "@ + path
}

/// Text of the toolkit line of the application probe sequence.
pub open spec fn toolkit_line(text: Seq<char>) -> Seq<char> {
    "toolkit: "@ + text
}

/// Text of the name line of the accessible probe sequence.
pub open spec fn name_line(text: Seq<char>) -> Seq<char> {
    "name: "@ + text
}

/// Text of the description line of the accessible probe sequence.
pub open spec fn description_line(text: Seq<char>) -> Seq<char> {
    "description: "@ + text
}

/// Text of the role line of the accessible probe sequence.
pub open spec fn role_line(text: Seq<char>) -> Seq<char> {
    "role: "@ + text
}

/// Text of the diagnostic line emitted for a transport read failure.
pub open spec fn transport_error_line(text: Seq<char>) -> Seq<char> {
    "Error: "@ + text
}

/// Joins a fixed prefix and a value into one output line.
pub fn line_with(prefix: &str, text: &str) -> (r: String)
    ensures
        r@ == prefix@ + text@,
{
    let owned: String = prefix.to_owned();
    owned.concat(text)
}

/// Builds the line naming the owning application from its two
/// addressing components.
pub fn root_object_line_value(bus: &str, path: &str) -> (r: String)
    ensures
        r@ == root_object_line(bus@, path@),
{
    let start: String = "Root object of Cache event bus_name: ".to_owned();
    let with_bus = start.concat(bus);
    let with_sep = with_bus.concat(", obj_path: ");
    with_sep.concat(path)
}

} // verus!
