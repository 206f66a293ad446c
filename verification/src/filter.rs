//! The signal filter: of the items a transport stream yields, which
//! reach the rest of the pipeline.

use crate::events::{MessageKind, StreamItem};
use vstd::prelude::*;

verus! {

/// Whether one stream item passes the filter: a message passes exactly
/// when its kind tag is `Signal`; a read failure passes so that the
/// dispatcher can report it.
pub open spec fn keeps(item: StreamItem) -> bool {
    match item {
        StreamItem::Received(message) => message.kind is Signal,
        StreamItem::ReadError(_) => true,
    }
}

/// The subsequence of a stream that passes the filter, in stream order.
pub open spec fn filtered(items: Seq<StreamItem>) -> Seq<StreamItem>
    decreases items.len(),
{
    if items.len() == 0 {
        Seq::empty()
    } else {
        (if keeps(items[0]) {
            seq![items[0]]
        } else {
            Seq::empty()
        }) + filtered(items.drop_first())
    }
}

/// Whether one stream item passes the filter.
pub fn passes_filter(item: &StreamItem) -> (r: bool)
    ensures
        r == keeps(*item),
{
    match item {
        StreamItem::Received(message) => match message.kind {
            MessageKind::Signal => true,
            _ => false,
        },
        StreamItem::ReadError(_) => true,
    }
}

/// Filters a finite stream prefix down to the items that pass.
pub fn filter_stream(items: Vec<StreamItem>) -> (r: Vec<StreamItem>)
    ensures
        r@ == filtered(items@),
{
    let ghost all = items@;
    let mut rest = items;
    let mut out: Vec<StreamItem> = Vec::new();
    while rest.len() > 0
        invariant
            filtered(all) == out@ + filtered(rest@),
        decreases rest.len(),
    {
        let ghost rest_before = rest@;
        let item = rest.remove(0);
        proof {
            assert(rest_before.remove(0) =~= rest_before.drop_first());
            assert(filtered(rest_before) == (if keeps(item) {
                seq![item]
            } else {
                Seq::<StreamItem>::empty()
            }) + filtered(rest@));
        }
        if passes_filter(&item) {
            let ghost out_before = out@;
            out.push(item);
            proof {
                assert(out@ + filtered(rest@) =~= out_before + (seq![item] + filtered(rest@)));
            }
        } else {
            proof {
                assert(Seq::<StreamItem>::empty() + filtered(rest@) =~= filtered(rest@));
            }
        }
    }
    proof {
        assert(filtered(rest@) =~= Seq::<StreamItem>::empty());
        assert(out@ + filtered(rest@) =~= out@);
    }
    out
}

/// The filter lets nothing through but read failures and messages whose
/// kind tag is `Signal`, and every item it yields was in its input: the
/// output is a subsequence of the signals (and carried-over failures)
/// of the input.
pub proof fn lemma_filter_keeps_only_signals(items: Seq<StreamItem>)
    ensures
        forall|j: int|
            0 <= j < filtered(items).len() ==> keeps(#[trigger] filtered(items)[j])
                && items.contains(filtered(items)[j]),
    decreases items.len(),
{
    if items.len() == 0 {
    } else {
        lemma_filter_keeps_only_signals(items.drop_first());
        let head = if keeps(items[0]) {
            seq![items[0]]
        } else {
            Seq::<StreamItem>::empty()
        };
        assert forall|j: int|
            0 <= j < filtered(items).len() implies keeps(#[trigger] filtered(items)[j])
            && items.contains(filtered(items)[j]) by {
            assert(filtered(items) == head + filtered(items.drop_first()));
            if j < head.len() {
                assert(filtered(items)[j] == items[0]);
                assert(items.contains(filtered(items)[j])) by {
                    assert(items[0] == filtered(items)[j]);
                }
            } else {
                let k = j - head.len();
                assert(filtered(items)[j] == filtered(items.drop_first())[k]);
                assert(items.drop_first().contains(filtered(items)[j]));
                let witness = choose|i: int|
                    0 <= i < items.drop_first().len() && items.drop_first()[i] == filtered(
                        items,
                    )[j];
                assert(items[witness + 1] == filtered(items)[j]);
            }
        }
    }
}

} // verus!
