//! Construction of the outbound stream items: one wrapped response per
//! reducer message, and the single end-of-window marker that terminates a
//! successful call.

use vstd::prelude::*;

use crate::message::{Message, MessageView};
use crate::window::IntervalWindow;
use crate::wire::{emitted_window, WireResponse, WireResponseView, WireResult, WireResultView};

verus! {

/// The outbound item for one reducer message: the message's fields (keys
/// and tags defaulting to empty) wrapped with the call's window, never
/// marked end-of-window.
pub open spec fn response_for_message_spec(m: MessageView, w: IntervalWindow) -> WireResponseView {
    WireResponseView {
        result: Some(
            WireResultView {
                keys: match m.keys {
                    Some(k) => k,
                    None => Seq::empty(),
                },
                value: m.value,
                tags: match m.tags {
                    Some(t) => t,
                    None => Seq::empty(),
                },
            },
        ),
        window: Some(emitted_window(w)),
        eof: false,
    }
}

/// The end-of-window marker: no result, the call's window, end-of-window
/// set.
pub open spec fn eof_response_spec(w: IntervalWindow) -> WireResponseView {
    WireResponseView { result: None, window: Some(emitted_window(w)), eof: true }
}

/// Builds the outbound item for one reducer message.
pub fn response_for_message(message: Message, window: &IntervalWindow) -> (r: WireResponse)
    ensures
        r@ == response_for_message_spec(message@, *window),
{
    let keys = match message.keys {
        Some(k) => k,
        None => Vec::new(),
    };
    let tags = match message.tags {
        Some(t) => t,
        None => Vec::new(),
    };
    let r = WireResponse {
        result: Some(WireResult { keys, value: message.value, tags }),
        window: Some(
            crate::wire::WireWindow {
                start: Some(window.start_time),
                end: Some(window.end_time),
                slot: "slot-0".to_owned(),
            },
        ),
        eof: false,
    };
    proof {
        assert(r@.result.unwrap().keys =~= response_for_message_spec(message@, *window)
            .result
            .unwrap()
            .keys);
        assert(r@.result.unwrap().tags =~= response_for_message_spec(message@, *window)
            .result
            .unwrap()
            .tags);
    }
    r
}

/// Builds the end-of-window marker for the call's window.
pub fn eof_response(window: &IntervalWindow) -> (r: WireResponse)
    ensures
        r@ == eof_response_spec(*window),
{
    WireResponse {
        result: None,
        window: Some(
            crate::wire::WireWindow {
                start: Some(window.start_time),
                end: Some(window.end_time),
                slot: "slot-0".to_owned(),
            },
        ),
        eof: true,
    }
}

/// The outbound stream of a successful call whose reducers emitted the
/// given messages, in the order the transport sends the items: every
/// message wrapped with the call's window, then the marker.
pub open spec fn call_stream(msgs: Seq<MessageView>, w: IntervalWindow) -> Seq<WireResponseView> {
    msgs.map(|i: int, m: MessageView| response_for_message_spec(m, w)).push(eof_response_spec(w))
}

/// Single-marker law: the outbound stream of a successful call contains
/// exactly one end-of-window item, and it is the last one.
pub proof fn lemma_single_marker(msgs: Seq<MessageView>, w: IntervalWindow)
    ensures
        call_stream(msgs, w).len() == msgs.len() + 1,
        call_stream(msgs, w).last().eof,
        forall|i: int|
            0 <= i < call_stream(msgs, w).len() - 1 ==> !(#[trigger] call_stream(msgs, w)[i]).eof,
{
}

/// Window-echo law: every item of the outbound stream of a successful
/// call, results and marker alike, carries the call's window in the fixed
/// slot.
pub proof fn lemma_window_echo(msgs: Seq<MessageView>, w: IntervalWindow)
    ensures
        forall|i: int|
            0 <= i < call_stream(msgs, w).len() ==> (#[trigger] call_stream(msgs, w)[i]).window
                == Some(emitted_window(w)),
{
}

} // verus!
