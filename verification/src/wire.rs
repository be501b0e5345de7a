//! Models of the messages exchanged with the host over the streaming call:
//! the inbound request frames and the outbound response items.
//!
//! The transport adapter owns the encoded form; the core works on these
//! plain-value shapes.  Each executable type has a spec-level view used by
//! the contracts.

use vstd::prelude::*;

use crate::window::{IntervalWindow, TimePoint};

verus! {

/// The slot name the core stamps on every emitted window.
pub open spec fn slot_name() -> Seq<char> {
    "slot-0"@
}

/// The payload of an inbound frame: the record proper.
pub struct Payload {
    /// Set of keys in the (key, value) terminology of map/reduce.
    pub keys: Vec<String>,
    /// The value in the (key, value) terminology of map/reduce.
    pub value: Vec<u8>,
    /// Watermark: a guarantee that no element older than this time will
    /// be seen.  Absent when the host did not set one.
    pub watermark: Option<TimePoint>,
    /// Time of the element as seen at source, or aligned after a reduce.
    pub event_time: Option<TimePoint>,
}

pub struct PayloadView {
    pub keys: Seq<Seq<char>>,
    pub value: Seq<u8>,
    pub watermark: Option<TimePoint>,
    pub event_time: Option<TimePoint>,
}

impl View for Payload {
    type V = PayloadView;

    open spec fn view(&self) -> PayloadView {
        PayloadView {
            keys: self.keys.deep_view(),
            value: self.value@,
            watermark: self.watermark,
            event_time: self.event_time,
        }
    }
}

impl DeepView for Payload {
    type V = PayloadView;

    open spec fn deep_view(&self) -> PayloadView {
        self.view()
    }
}

/// A window as it stands on the wire: both boundaries optional, plus the
/// slot the window is assigned to.
pub struct WireWindow {
    pub start: Option<TimePoint>,
    pub end: Option<TimePoint>,
    pub slot: String,
}

pub struct WireWindowView {
    pub start: Option<TimePoint>,
    pub end: Option<TimePoint>,
    pub slot: Seq<char>,
}

impl View for WireWindow {
    type V = WireWindowView;

    open spec fn view(&self) -> WireWindowView {
        WireWindowView { start: self.start, end: self.end, slot: self.slot@ }
    }
}

impl DeepView for WireWindow {
    type V = WireWindowView;

    open spec fn deep_view(&self) -> WireWindowView {
        self.view()
    }
}

/// The operation descriptor of an inbound frame.  The event kind is not
/// read by the core; the windows list must hold exactly one window.
pub struct WireOperation {
    pub event: i32,
    pub windows: Vec<WireWindow>,
}

pub struct WireOperationView {
    pub event: i32,
    pub windows: Seq<WireWindowView>,
}

impl View for WireOperation {
    type V = WireOperationView;

    open spec fn view(&self) -> WireOperationView {
        WireOperationView { event: self.event, windows: self.windows.deep_view() }
    }
}

impl DeepView for WireOperation {
    type V = WireOperationView;

    open spec fn deep_view(&self) -> WireOperationView {
        self.view()
    }
}

/// One inbound frame of the streaming call.
pub struct WireRequest {
    pub payload: Option<Payload>,
    pub operation: Option<WireOperation>,
}

pub struct WireRequestView {
    pub payload: Option<PayloadView>,
    pub operation: Option<WireOperationView>,
}

impl View for WireRequest {
    type V = WireRequestView;

    open spec fn view(&self) -> WireRequestView {
        WireRequestView { payload: self.payload.deep_view(), operation: self.operation.deep_view() }
    }
}

impl DeepView for WireRequest {
    type V = WireRequestView;

    open spec fn deep_view(&self) -> WireRequestView {
        self.view()
    }
}

/// A validated inbound record as handed to a reducer.
pub struct ReduceRequest {
    /// Set of keys in the (key, value) terminology of map/reduce.
    pub keys: Vec<String>,
    /// The value in the (key, value) terminology of map/reduce.
    pub value: Vec<u8>,
    /// Watermark: a guarantee that no element older than this time will
    /// be seen.
    pub watermark: TimePoint,
    /// Time of the element as seen at source, or aligned after a reduce.
    pub eventtime: TimePoint,
}

pub struct ReduceRequestView {
    pub keys: Seq<Seq<char>>,
    pub value: Seq<u8>,
    pub watermark: TimePoint,
    pub eventtime: TimePoint,
}

impl View for ReduceRequest {
    type V = ReduceRequestView;

    open spec fn view(&self) -> ReduceRequestView {
        ReduceRequestView {
            keys: self.keys.deep_view(),
            value: self.value@,
            watermark: self.watermark,
            eventtime: self.eventtime,
        }
    }
}

impl DeepView for ReduceRequest {
    type V = ReduceRequestView;

    open spec fn deep_view(&self) -> ReduceRequestView {
        self.view()
    }
}

/// The result part of an outbound item, absent on the terminal marker.
pub struct WireResult {
    pub keys: Vec<String>,
    pub value: Vec<u8>,
    pub tags: Vec<String>,
}

pub struct WireResultView {
    pub keys: Seq<Seq<char>>,
    pub value: Seq<u8>,
    pub tags: Seq<Seq<char>>,
}

impl View for WireResult {
    type V = WireResultView;

    open spec fn view(&self) -> WireResultView {
        WireResultView {
            keys: self.keys.deep_view(),
            value: self.value@,
            tags: self.tags.deep_view(),
        }
    }
}

impl DeepView for WireResult {
    type V = WireResultView;

    open spec fn deep_view(&self) -> WireResultView {
        self.view()
    }
}

/// One item of the outbound stream: either a reducer message wrapped with
/// the call's window, or the end-of-window marker.
pub struct WireResponse {
    pub result: Option<WireResult>,
    pub window: Option<WireWindow>,
    pub eof: bool,
}

pub struct WireResponseView {
    pub result: Option<WireResultView>,
    pub window: Option<WireWindowView>,
    pub eof: bool,
}

impl View for WireResponse {
    type V = WireResponseView;

    open spec fn view(&self) -> WireResponseView {
        WireResponseView {
            result: self.result.deep_view(),
            window: self.window.deep_view(),
            eof: self.eof,
        }
    }
}

impl DeepView for WireResponse {
    type V = WireResponseView;

    open spec fn deep_view(&self) -> WireResponseView {
        self.view()
    }
}

/// The answer of the liveness probe.
pub struct ReadyResponse {
    pub ready: bool,
}

/// The liveness probe: once the server accepts calls it is ready,
/// unconditionally.
pub fn ready_response() -> (r: ReadyResponse)
    ensures
        r.ready,
{
    ReadyResponse { ready: true }
}

/// The window stamped on an emitted item: both boundaries of the call's
/// window, in the fixed slot.
pub open spec fn emitted_window(w: IntervalWindow) -> WireWindowView {
    WireWindowView { start: Some(w.start_time), end: Some(w.end_time), slot: slot_name() }
}

} // verus!
