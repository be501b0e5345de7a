//! The per-call keyed dispatch engine.
//!
//! One instance of [`TaskSet`] drives one streaming call: it validates
//! every inbound frame, pins the call's window on the first valid record,
//! and routes each record to the reducer task owning its key tuple,
//! creating that task on first sight of the key.  The asynchronous runtime
//! around the library executes the returned actions: it spawns reducer
//! tasks, delivers records on their input channels, and reports rejected
//! frames on the error channel.

use vstd::prelude::*;
use vstd::string::StringExecFns;

use crate::errors::{ErrorKind, ErrorKindView};
use crate::outbound::{eof_response, eof_response_spec};
use crate::window::{IntervalWindow, TimePoint};
use crate::wire::{
    PayloadView, ReduceRequest, ReduceRequestView, WireRequest, WireRequestView, WireResponse,
    WireWindowView,
};

verus! {

/// Capacity of each reducer task's input channel.  Bounded at one record
/// so that a slow reducer suspends the inbound dispatch loop instead of
/// buffering records.
pub const TASK_CHANNEL_CAPACITY: usize = 1;

/// Capacity of the outbound response channel.  Bounded at one item so
/// that a slow consumer of the response stream suspends the reducers
/// instead of dropping or buffering messages.
pub const RESPONSE_CHANNEL_CAPACITY: usize = 1;

/// Capacity of the per-call error channel.  Only the first error is
/// surfaced, so one slot suffices.
pub const ERROR_CHANNEL_CAPACITY: usize = 1;

/// Message of the error reported for a frame missing its payload or its
/// operation descriptor.
pub open spec fn invalid_request_text() -> Seq<char> {
    "Invalid ReduceRequest"@
}

/// Message of the error reported for an operation that does not carry
/// exactly one window.
pub open spec fn exactly_one_window_text() -> Seq<char> {
    "Exactly one window is required"@
}

/// The delimiter joining the members of a key tuple into its canonical
/// identity.
pub open spec fn key_join_delimiter() -> Seq<char> {
    ":"@
}

/// The canonical identity of a key tuple: its members joined with the
/// reserved delimiter.
pub open spec fn canonical_key_spec(keys: Seq<Seq<char>>) -> Seq<char>
    decreases keys.len(),
{
    if keys.len() == 0 {
        Seq::empty()
    } else if keys.len() == 1 {
        keys[0]
    } else {
        canonical_key_spec(keys.drop_last()) + key_join_delimiter() + keys.last()
    }
}

/// Joins a key tuple into its canonical identity string.
pub fn canonical_key(keys: &Vec<String>) -> (r: String)
    ensures
        r@ == canonical_key_spec(keys.deep_view()),
{
    let mut r = String::new();
    let mut i: usize = 0;
    while i < keys.len()
        invariant
            i <= keys.len(),
            r@ == canonical_key_spec(keys.deep_view().take(i as int)),
        decreases keys.len() - i,
    {
        if i > 0 {
            r.append(":");
        }
        r.append(keys[i].as_str());
        proof {
            let kv = keys.deep_view();
            assert(kv.take(i + 1).drop_last() =~= kv.take(i as int));
            assert(kv.take(i + 1).last() == kv[i as int]);
            assert(":"@ == key_join_delimiter());
            if i == 0 {
                assert(r@ =~= kv.take(1)[0]);
            }
        }
        i = i + 1;
    }
    proof {
        assert(keys.deep_view().take(keys.len() as int) =~= keys.deep_view());
    }
    r
}

/// A frame is valid when it carries both a payload and an operation, and
/// the operation carries exactly one window.
pub open spec fn frame_valid(f: WireRequestView) -> bool {
    &&& f.payload is Some
    &&& f.operation is Some
    &&& f.operation.unwrap().windows.len() == 1
}

/// The payload of a frame known to carry one.
pub open spec fn frame_payload(f: WireRequestView) -> PayloadView
    recommends
        f.payload is Some,
{
    f.payload.unwrap()
}

/// The error an invalid frame is rejected with: a missing payload or
/// operation is an invalid request; a present operation with any number
/// of windows other than one violates the one-window contract.
pub open spec fn frame_error(f: WireRequestView) -> ErrorKindView
    recommends
        !frame_valid(f),
{
    if f.payload is None || f.operation is None {
        ErrorKindView::InternalError(invalid_request_text())
    } else {
        ErrorKindView::InternalError(exactly_one_window_text())
    }
}

/// An instant from the wire, where the host may have omitted it: absent
/// instants are read as the Unix epoch.
pub open spec fn time_or_epoch_spec(t: Option<TimePoint>) -> TimePoint {
    match t {
        Some(t) => t,
        None => TimePoint { seconds: 0, nanos: 0 },
    }
}

/// The window a valid frame carries, with omitted boundaries read as the
/// epoch.
pub open spec fn frame_window(f: WireRequestView) -> IntervalWindow
    recommends
        frame_valid(f),
{
    let w: WireWindowView = f.operation.unwrap().windows[0];
    IntervalWindow {
        start_time: time_or_epoch_spec(w.start),
        end_time: time_or_epoch_spec(w.end),
    }
}

/// The record a valid frame hands to its reducer.
pub open spec fn frame_record(f: WireRequestView) -> ReduceRequestView
    recommends
        f.payload is Some,
{
    let p = frame_payload(f);
    ReduceRequestView {
        keys: p.keys,
        value: p.value,
        watermark: time_or_epoch_spec(p.watermark),
        eventtime: time_or_epoch_spec(p.event_time),
    }
}

/// The canonical identity of the key tuple a valid frame addresses.
pub open spec fn frame_key(f: WireRequestView) -> Seq<char>
    recommends
        f.payload is Some,
{
    canonical_key_spec(frame_payload(f).keys)
}

fn time_or_epoch(t: Option<TimePoint>) -> (r: TimePoint)
    ensures
        r == time_or_epoch_spec(t),
{
    match t {
        Some(t) => t,
        None => TimePoint { seconds: 0, nanos: 0 },
    }
}

fn invalid_request_error() -> (e: ErrorKind)
    ensures
        e@ == ErrorKindView::InternalError(invalid_request_text()),
{
    ErrorKind::InternalError("Invalid ReduceRequest".to_owned())
}

fn exactly_one_window_error() -> (e: ErrorKind)
    ensures
        e@ == ErrorKindView::InternalError(exactly_one_window_text()),
{
    ErrorKind::InternalError("Exactly one window is required".to_owned())
}

/// The lifecycle of one reducer task as the call observes it: the task's
/// input channel, and whether the reducer has completed.
#[derive(Clone, Copy, Debug, PartialEq, Eq, Structural)]
pub struct TaskLifecycle {
    /// Whether the task's input channel still accepts records.
    pub input_open: bool,
    /// Whether the reducer has terminated and signalled completion.
    pub completed: bool,
}

/// The state of a task after it has been closed: its input sequence is
/// terminated and its reducer has completed, whatever the state before.
pub open spec fn task_closed(t: TaskLifecycle) -> TaskLifecycle {
    TaskLifecycle { input_open: false, completed: true }
}

impl TaskLifecycle {
    /// A freshly spawned task: accepting input, not yet completed.
    pub fn new() -> (r: TaskLifecycle)
        ensures
            r == (TaskLifecycle { input_open: true, completed: false }),
    {
        TaskLifecycle { input_open: true, completed: false }
    }

    /// Closes the task: terminates its input sequence and awaits
    /// completion.  Closing a task that has already completed changes
    /// nothing.
    pub fn close(&mut self)
        ensures
            *final(self) == task_closed(*old(self)),
            old(self).completed && !old(self).input_open ==> *final(self) == *old(self),
    {
        self.input_open = false;
        self.completed = true;
    }
}

/// Idempotent-close law: closing an already-closed task is a no-op.
pub proof fn lemma_task_close_idempotent(t: TaskLifecycle)
    ensures
        task_closed(task_closed(t)) == task_closed(t),
{
}

/// What the runtime must do with one inbound frame.
pub enum RouteAction {
    /// Deliver the validated record to the task at the given registry
    /// index, spawning that task first when `created` holds.
    Deliver { task: usize, created: bool, record: ReduceRequest },
    /// Report the error on the call's error channel and drop the frame.
    Reject { error: ErrorKind },
}

/// The spec-level state of a [`TaskSet`].
pub struct TaskSetView {
    pub tasks: Seq<Seq<char>>,
    pub window: IntervalWindow,
    pub window_pinned: bool,
    pub closed: bool,
}

impl TaskSetView {
    /// Well-formedness: live tasks have pairwise distinct canonical keys,
    /// the window is the default until one is pinned, and a closed set
    /// has no live task left.
    pub open spec fn wf(self) -> bool {
        &&& forall|i: int, j: int|
            0 <= i < j < self.tasks.len() ==> self.tasks[i] != self.tasks[j]
        &&& !self.window_pinned ==> self.window == (IntervalWindow {
            start_time: TimePoint { seconds: 0, nanos: 0 },
            end_time: TimePoint { seconds: 0, nanos: 0 },
        })
        &&& self.closed ==> self.tasks.len() == 0
    }
}

/// The per-call task registry: one entry per distinct key tuple, in order
/// of first sight, together with the call's pinned window.  It decides,
/// for every inbound frame, whether a task is created, which task the
/// record goes to, or which error the frame is rejected with; and it
/// drives the deterministic end-of-window closure.
pub struct TaskSet {
    /// Canonical keys of the live tasks, in creation order.
    pub tasks: Vec<String>,
    /// The call's window: pinned by the first valid record.
    pub window: IntervalWindow,
    /// Whether a first valid record has pinned the window.
    pub window_pinned: bool,
    /// Whether end-of-window closure has run.
    pub closed: bool,
}

impl View for TaskSet {
    type V = TaskSetView;

    open spec fn view(&self) -> TaskSetView {
        TaskSetView {
            tasks: self.tasks.deep_view(),
            window: self.window,
            window_pinned: self.window_pinned,
            closed: self.closed,
        }
    }
}

impl TaskSet {
    /// A fresh registry for one call: no tasks, no pinned window.
    pub fn new() -> (r: TaskSet)
        ensures
            r@.tasks == Seq::<Seq<char>>::empty(),
            !r@.window_pinned,
            !r@.closed,
            r@.wf(),
    {
        let r = TaskSet {
            tasks: Vec::new(),
            window: IntervalWindow {
                start_time: TimePoint { seconds: 0, nanos: 0 },
                end_time: TimePoint { seconds: 0, nanos: 0 },
            },
            window_pinned: false,
            closed: false,
        };
        proof {
            assert(r@.tasks =~= Seq::<Seq<char>>::empty());
        }
        r
    }

    /// Validates one inbound frame and extracts the record and the window
    /// it carries.  The frame must carry a payload and an operation, and
    /// the operation exactly one window; otherwise the frame is rejected
    /// with the matching internal error.
    pub fn validate_and_extract(rr: WireRequest) -> (r: Result<
        (ReduceRequest, IntervalWindow),
        ErrorKind,
    >)
        ensures
            frame_valid(rr@) ==> (r matches Ok((record, window)) && record@ == frame_record(rr@)
                && window == frame_window(rr@)),
            !frame_valid(rr@) ==> (r matches Err(e) && e@ == frame_error(rr@)),
    {
        let (payload, operation) = match (rr.payload, rr.operation) {
            (Some(payload), Some(operation)) => (payload, operation),
            _ => {
                return Err(invalid_request_error());
            },
        };
        if operation.windows.len() != 1 {
            return Err(exactly_one_window_error());
        }
        let window = &operation.windows[0];
        let interval_window = IntervalWindow {
            start_time: time_or_epoch(window.start),
            end_time: time_or_epoch(window.end),
        };
        let record = ReduceRequest {
            keys: payload.keys,
            value: payload.value,
            watermark: time_or_epoch(payload.watermark),
            eventtime: time_or_epoch(payload.event_time),
        };
        Ok((record, interval_window))
    }

    /// The registry index of the task owning the canonical key, if one is
    /// live.
    fn find_task(&self, key: &String) -> (r: Option<usize>)
        ensures
            match r {
                Some(i) => i < self@.tasks.len() && self@.tasks[i as int] == key@,
                None => forall|j: int| 0 <= j < self@.tasks.len() ==> self@.tasks[j] != key@,
            },
    {
        let mut i: usize = 0;
        while i < self.tasks.len()
            invariant
                i <= self@.tasks.len(),
                self@.tasks.len() == self.tasks.len(),
                forall|j: int| 0 <= j < i ==> self@.tasks[j] != key@,
            decreases self.tasks.len() - i,
        {
            if key.eq(&self.tasks[i]) {
                return Some(i);
            }
            i = i + 1;
        }
        None
    }

    /// Routes one inbound frame while the call is open.
    ///
    /// An invalid frame leaves the registry unchanged and is rejected
    /// with its error.  A valid frame pins the call's window if none is
    /// pinned yet, and its record is delivered to the task owning the
    /// frame's canonical key — the task already live for that key, or
    /// else a task created now and registered at the end of the registry.
    pub fn handle_record(&mut self, frame: WireRequest) -> (act: RouteAction)
        requires
            old(self)@.wf(),
            !old(self)@.closed,
        ensures
            final(self)@.wf(),
            !final(self)@.closed,
            !frame_valid(frame@) ==> ({
                &&& final(self)@ == old(self)@
                &&& act matches RouteAction::Reject { error } && error@ == frame_error(frame@)
            }),
            frame_valid(frame@) ==> {
                &&& final(self)@.window_pinned
                &&& final(self)@.window == if old(self)@.window_pinned {
                    old(self)@.window
                } else {
                    frame_window(frame@)
                }
                &&& act matches RouteAction::Deliver { task, created, record } && {
                    &&& record@ == frame_record(frame@)
                    &&& created == !old(self)@.tasks.contains(frame_key(frame@))
                    &&& if created {
                        &&& final(self)@.tasks == old(self)@.tasks.push(frame_key(frame@))
                        &&& task == old(self)@.tasks.len()
                    } else {
                        &&& final(self)@.tasks == old(self)@.tasks
                        &&& task < old(self)@.tasks.len()
                        &&& old(self)@.tasks[task as int] == frame_key(frame@)
                    }
                }
            },
    {
        let (record, window) = match TaskSet::validate_and_extract(frame) {
            Ok(v) => v,
            Err(error) => {
                return RouteAction::Reject { error };
            },
        };
        if !self.window_pinned {
            self.window = window;
            self.window_pinned = true;
        }
        let key = canonical_key(&record.keys);
        proof {
            assert(key@ == frame_key(frame@));
        }
        match self.find_task(&key) {
            Some(task) => {
                proof {
                    assert(old(self)@.tasks.contains(frame_key(frame@)));
                }
                RouteAction::Deliver { task, created: false, record }
            },
            None => {
                let task = self.tasks.len();
                proof {
                    assert(!old(self)@.tasks.contains(frame_key(frame@)));
                }
                self.tasks.push(key);
                proof {
                    assert(self@.tasks =~= old(self)@.tasks.push(frame_key(frame@)));
                    assert(forall|i: int, j: int|
                        0 <= i < j < self@.tasks.len() ==> self@.tasks[i] != self@.tasks[j]);
                }
                RouteAction::Deliver { task, created: true, record }
            },
        }
    }

    /// End-of-window closure: every live task's input channel is closed
    /// and the registry drained; on the transition the single
    /// end-of-window marker carrying the call's window is produced for
    /// the outbound stream.  Closing an already-closed set is a no-op and
    /// yields no second marker.
    pub fn close(&mut self) -> (marker: Option<WireResponse>)
        requires
            old(self)@.wf(),
        ensures
            final(self)@.wf(),
            final(self)@.tasks == Seq::<Seq<char>>::empty(),
            final(self)@.closed,
            final(self)@.window == old(self)@.window,
            final(self)@.window_pinned == old(self)@.window_pinned,
            old(self)@.closed ==> final(self)@ == old(self)@ && marker is None,
            !old(self)@.closed ==> (marker matches Some(m) && m@ == eof_response_spec(
                old(self)@.window,
            )),
    {
        if self.closed {
            proof {
                assert(self@.tasks =~= Seq::<Seq<char>>::empty());
            }
            return None;
        }
        self.tasks.clear();
        self.closed = true;
        proof {
            assert(self@.tasks =~= Seq::<Seq<char>>::empty());
        }
        Some(eof_response(&self.window))
    }

    /// Shutdown teardown: every live task is aborted and the registry
    /// drained.  No end-of-window marker is produced.
    pub fn abort(&mut self)
        ensures
            final(self)@.tasks == Seq::<Seq<char>>::empty(),
            final(self)@.closed,
            final(self)@.window == old(self)@.window,
            final(self)@.window_pinned == old(self)@.window_pinned,
    {
        self.tasks.clear();
        self.closed = true;
        proof {
            assert(self@.tasks =~= Seq::<Seq<char>>::empty());
        }
    }
}

/// Multi-window rejection law: a frame whose operation carries any
/// number of windows other than one is invalid, and is rejected with an
/// internal error whose message is exactly the one-window requirement.
pub proof fn lemma_multi_window_rejected(f: WireRequestView)
    requires
        f.payload is Some,
        f.operation is Some,
        f.operation.unwrap().windows.len() != 1,
    ensures
        !frame_valid(f),
        frame_error(f) == ErrorKindView::InternalError(exactly_one_window_text()),
{
}

} // verus!
