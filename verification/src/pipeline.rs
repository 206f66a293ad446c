//! The consume loop, as a function of what arrived: which lines a
//! finite prefix of the transport stream produces, given the outcomes
//! of the remote probes run for its `Add` events.

use crate::dispatch::{dispatch_lines, dispatch_report};
use crate::events::{DecodedEvent, Inspection, StreamItem};
use crate::inspect::{inspect_report, inspection_lines};
use crate::lines::{line_with, transport_error_line};
use vstd::prelude::*;

verus! {

/// The lines one stream item produces.  A read failure produces its
/// diagnostic line; a non-signal message is dropped by the filter and
/// produces nothing; a signal produces its dispatch lines, followed by
/// the probe report when the event was an `Add`.
pub open spec fn item_lines(item: StreamItem, probes: Inspection) -> Seq<Seq<char>> {
    match item {
        StreamItem::ReadError(text) => seq![transport_error_line(text@)],
        StreamItem::Received(message) => if !(message.kind is Signal) {
            Seq::empty()
        } else {
            dispatch_lines(message.decoded, message.signature@) + (if message.decoded is Add {
                inspection_lines(probes)
            } else {
                Seq::empty()
            })
        },
    }
}

/// The lines a finite stream prefix produces, item by item, in stream
/// order.  The probe outcomes are given per item; an item that runs no
/// probes ignores its entry.
pub open spec fn stream_lines(items: Seq<StreamItem>, probes: Seq<Inspection>) -> Seq<Seq<char>>
    decreases items.len(),
{
    if items.len() == 0 {
        Seq::empty()
    } else {
        item_lines(items[0], probes[0]) + stream_lines(items.drop_first(), probes.drop_first())
    }
}

/// Emits the lines of one stream item.
pub fn process_item(item: &StreamItem, probes: &Inspection) -> (r: Vec<String>)
    ensures
        r.deep_view() == item_lines(*item, *probes),
{
    let mut r: Vec<String> = Vec::new();
    match item {
        StreamItem::ReadError(text) => {
            r.push(line_with("Error: ", text.as_str()));
        },
        StreamItem::Received(message) => {
            if crate::filter::passes_filter(item) {
                let mut lines = dispatch_report(&message.decoded, message.signature.as_str());
                r.append(&mut lines);
                match &message.decoded {
                    DecodedEvent::Add(_) => {
                        let mut probe_lines = inspect_report(probes);
                        r.append(&mut probe_lines);
                    },
                    _ => {},
                }
            }
        },
    }
    proof {
        assert(r.deep_view() =~~= item_lines(*item, *probes));
    }
    r
}

/// Emits the lines of a finite stream prefix.
pub fn process_stream(items: &Vec<StreamItem>, probes: &Vec<Inspection>) -> (r: Vec<String>)
    requires
        items@.len() == probes@.len(),
    ensures
        r.deep_view() == stream_lines(items@, probes@),
{
    let mut r: Vec<String> = Vec::new();
    let mut i: usize = 0;
    proof {
        assert(items@.skip(0) =~= items@);
        assert(probes@.skip(0) =~= probes@);
        assert(r.deep_view() + stream_lines(items@, probes@) =~~= stream_lines(items@, probes@));
    }
    while i < items.len()
        invariant
            items@.len() == probes@.len(),
            0 <= i <= items@.len(),
            stream_lines(items@, probes@) == r.deep_view() + stream_lines(
                items@.skip(i as int),
                probes@.skip(i as int),
            ),
        decreases items@.len() - i,
    {
        let ghost r_before = r.deep_view();
        let ghost item_suffix = items@.skip(i as int);
        let ghost probe_suffix = probes@.skip(i as int);
        let mut lines = process_item(&items[i], &probes[i]);
        r.append(&mut lines);
        proof {
            assert(item_suffix[0] == items@[i as int]);
            assert(probe_suffix[0] == probes@[i as int]);
            assert(item_suffix.drop_first() =~= items@.skip(i as int + 1));
            assert(probe_suffix.drop_first() =~= probes@.skip(i as int + 1));
            assert(r.deep_view() =~~= r_before + item_lines(items@[i as int], probes@[i as int]));
            assert(r_before + stream_lines(item_suffix, probe_suffix) =~~= r.deep_view()
                + stream_lines(items@.skip(i as int + 1), probes@.skip(i as int + 1)));
        }
        i = i + 1;
    }
    proof {
        assert(items@.skip(items@.len() as int).len() == 0);
        assert(r.deep_view() + stream_lines(
            items@.skip(i as int),
            probes@.skip(i as int),
        ) =~~= r.deep_view());
    }
    r
}

/// A message the filter drops produces no line: of received messages,
/// only those whose kind tag is `Signal` ever reach the dispatcher.
pub proof fn lemma_dropped_message_is_silent(item: StreamItem, probes: Inspection)
    requires
        !crate::filter::keeps(item),
    ensures
        item_lines(item, probes) == Seq::<Seq<char>>::empty(),
{
    assert(item_lines(item, probes) =~= Seq::<Seq<char>>::empty());
}

/// A message that decodes to no known event variant produces no line
/// and requests no probe: its handling is a silent drop.
pub proof fn lemma_undecoded_is_silent(item: StreamItem, probes: Inspection)
    requires
        item matches StreamItem::Received(message) && (message.decoded is Unrecognized
            || message.decoded is Other),
    ensures
        item_lines(item, probes) == Seq::<Seq<char>>::empty(),
{
    assert(item_lines(item, probes) =~= Seq::<Seq<char>>::empty());
}

/// Processing holds no state across items: a prefix followed by one
/// more item produces the prefix's lines followed by the item's lines.
pub proof fn lemma_stream_extends(
    items: Seq<StreamItem>,
    probes: Seq<Inspection>,
    item: StreamItem,
    probe: Inspection,
)
    requires
        items.len() == probes.len(),
    ensures
        stream_lines(items.push(item), probes.push(probe)) == stream_lines(items, probes)
            + item_lines(item, probe),
    decreases items.len(),
{
    if items.len() == 0 {
        assert(items.push(item)[0] == item);
        assert(probes.push(probe)[0] == probe);
        assert(items.push(item).drop_first() =~= Seq::<StreamItem>::empty());
        assert(probes.push(probe).drop_first() =~= Seq::<Inspection>::empty());
        assert(stream_lines(Seq::<StreamItem>::empty(), Seq::<Inspection>::empty())
            =~~= Seq::<Seq<char>>::empty());
        assert(stream_lines(items.push(item).drop_first(), probes.push(probe).drop_first())
            == Seq::<Seq<char>>::empty());
        assert(stream_lines(items.push(item), probes.push(probe)) =~~= stream_lines(items, probes)
            + item_lines(item, probe));
    } else {
        lemma_stream_extends(items.drop_first(), probes.drop_first(), item, probe);
        assert(items.push(item).drop_first() =~= items.drop_first().push(item));
        assert(probes.push(probe).drop_first() =~= probes.drop_first().push(probe));
        assert(stream_lines(items.push(item), probes.push(probe)) =~~= stream_lines(items, probes)
            + item_lines(item, probe));
    }
}

/// Handling an event is idempotent across invocations: the same item
/// arriving twice, with the remote outcomes unchanged, produces the
/// same lines twice — nothing is memoized between events.
pub proof fn lemma_repeated_item_repeats_lines(item: StreamItem, probes: Inspection)
    ensures
        stream_lines(seq![item, item], seq![probes, probes]) == item_lines(item, probes)
            + item_lines(item, probes),
{
    lemma_stream_extends(seq![item], seq![probes], item, probes);
    lemma_stream_extends(Seq::empty(), Seq::empty(), item, probes);
    assert(seq![item, item] =~= seq![item].push(item));
    assert(seq![probes, probes] =~= seq![probes].push(probes));
    assert(Seq::<StreamItem>::empty().push(item) =~= seq![item]);
    assert(Seq::<Inspection>::empty().push(probes) =~= seq![probes]);
    assert(stream_lines(Seq::empty(), Seq::empty()) + item_lines(item, probes) =~~= item_lines(
        item,
        probes,
    ));
}

} // verus!
