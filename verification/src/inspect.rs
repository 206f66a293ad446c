//! Reporting for the remote object probes of an `Add` event: the two
//! probe sequences, their fixed fallback texts, and the lines they emit.

use crate::events::{AccessibleProbe, Fetch, Inspection, Role, RoleFetch};
use crate::lines::{description_line, line_with, name_line, role_line, toolkit_line};
use vstd::prelude::*;

verus! {

/// Well-known name of the remote application interface the application
/// handle is bound to.
pub fn application_interface_name() -> (r: &'static str)
    ensures
        r@ == "org.a11y.atspi.Application"@,
{
    "org.a11y.atspi.Application"
}

/// Well-known name of the remote accessible interface the accessible
/// handle is bound to.
pub fn accessible_interface_name() -> (r: &'static str)
    ensures
        r@ == "org.a11y.atspi.Accessible"@,
{
    "org.a11y.atspi.Accessible"
}

/// Fallback text for a failed toolkit fetch.
pub open spec fn toolkit_placeholder() -> Seq<char> {
    "Could not read toolkit property"@
}

/// Fallback text for a failed name fetch.
pub open spec fn name_placeholder() -> Seq<char> {
    "Could not read name property"@
}

/// Fallback text for a failed description fetch.
pub open spec fn description_placeholder() -> Seq<char> {
    "Could not obtain a description."@
}

/// The printed form of a role: its reported name, or the sentinel.
pub open spec fn role_text(role: Role) -> Seq<char> {
    match role {
        Role::Named(name) => name@,
        Role::Unknown => "Unknown"@,
    }
}

/// A failed role fetch falls back to the `Unknown` sentinel.
pub open spec fn resolved_role(fetch: RoleFetch) -> Role {
    match fetch {
        RoleFetch::Value(role) => role,
        RoleFetch::Failed => Role::Unknown,
    }
}

/// The text a property fetch contributes: the fetched value, or the
/// fixed placeholder of that property.
pub open spec fn fetched_text(fetch: Fetch, placeholder: Seq<char>) -> Seq<char> {
    match fetch {
        Fetch::Value(value) => value@,
        Fetch::Failed => placeholder,
    }
}

/// Lines of the application probe sequence: one toolkit line when the
/// application handle was built, nothing when building it failed.
pub open spec fn application_lines(toolkit: Option<Fetch>) -> Seq<Seq<char>> {
    match toolkit {
        Option::Some(fetch) => seq![toolkit_line(fetched_text(fetch, toolkit_placeholder()))],
        Option::None => Seq::empty(),
    }
}

/// Lines of the accessible probe sequence: name, description and role,
/// each falling back to its fixed placeholder independently; nothing
/// when building the accessible handle failed.
pub open spec fn accessible_lines(probe: Option<AccessibleProbe>) -> Seq<Seq<char>> {
    match probe {
        Option::Some(p) => seq![
            name_line(fetched_text(p.name, name_placeholder())),
            description_line(fetched_text(p.description, description_placeholder())),
            role_line(role_text(resolved_role(p.role))),
        ],
        Option::None => Seq::empty(),
    }
}

/// All lines an inspection emits: the application sequence first, then
/// the accessible sequence.  Each sequence depends on its own outcomes
/// alone.
pub open spec fn inspection_lines(inspection: Inspection) -> Seq<Seq<char>> {
    application_lines(inspection.toolkit) + accessible_lines(inspection.accessible)
}

/// The printed form of a role value.
pub fn role_display(role: &Role) -> (r: String)
    ensures
        r@ == role_text(*role),
{
    match role {
        Role::Named(name) => name.clone(),
        Role::Unknown => "Unknown".to_owned(),
    }
}

/// The value text of one property fetch, substituting the given
/// placeholder on failure.
fn fetch_display(fetch: &Fetch, placeholder: &str) -> (r: String)
    ensures
        r@ == fetched_text(*fetch, placeholder@),
{
    match fetch {
        Fetch::Value(value) => value.clone(),
        Fetch::Failed => placeholder.to_owned(),
    }
}

/// Emits the report lines of one inspection.
pub fn inspect_report(inspection: &Inspection) -> (r: Vec<String>)
    ensures
        r.deep_view() == inspection_lines(*inspection),
{
    let mut r: Vec<String> = Vec::new();
    match &inspection.toolkit {
        Option::Some(fetch) => {
            let text = fetch_display(fetch, "Could not read toolkit property");
            r.push(line_with("toolkit: ", text.as_str()));
        },
        Option::None => {},
    }
    match &inspection.accessible {
        Option::Some(probe) => {
            let name = fetch_display(&probe.name, "Could not read name property");
            r.push(line_with("name: ", name.as_str()));
            let description = fetch_display(&probe.description, "Could not obtain a description.");
            r.push(line_with("description: ", description.as_str()));
            let role = match &probe.role {
                RoleFetch::Value(role) => role_display(role),
                RoleFetch::Failed => role_display(&Role::Unknown),
            };
            r.push(line_with("role: ", role.as_str()));
        },
        Option::None => {},
    }
    proof {
        assert(r.deep_view() =~~= inspection_lines(*inspection));
    }
    r
}

/// The two probe sequences are independent: the application lines are a
/// function of the application outcomes alone, and the accessible lines
/// of the accessible outcomes alone.  Forcing one sequence to fail
/// leaves the other's lines unchanged.
pub proof fn lemma_probe_sequences_independent(a: Inspection, b: Inspection)
    ensures
        a.toolkit == b.toolkit ==> application_lines(a.toolkit) == application_lines(b.toolkit),
        a.accessible == b.accessible ==> accessible_lines(a.accessible) == accessible_lines(
            b.accessible,
        ),
        inspection_lines(a) == application_lines(a.toolkit) + accessible_lines(a.accessible),
{
}

/// A failed fetch never yields an empty or omitted line: the accessible
/// sequence with every fetch failed still emits its three lines, each
/// carrying the documented placeholder, the role line carrying the
/// `Unknown` sentinel.
pub proof fn lemma_failed_fetches_emit_placeholders(probe: AccessibleProbe)
    requires
        probe.name is Failed,
        probe.description is Failed,
        probe.role is Failed,
    ensures
        accessible_lines(Option::Some(probe)) == seq![
            name_line(name_placeholder()),
            description_line(description_placeholder()),
            role_line(role_text(Role::Unknown)),
        ],
{
}

} // verus!
