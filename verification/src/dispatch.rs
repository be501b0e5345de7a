//! The inbound dispatch loop over a whole call, as a sequential function:
//! which records reach which reducer, in which order, which frames are
//! rejected, and which window the call pins.
//!
//! The runtime delivers records over channels as they arrive; this module
//! states and verifies the demultiplexing itself — per-key grouping,
//! per-key arrival order, rejection of invalid frames, and window
//! pinning — independent of the interleaving of the reducer tasks.

use vstd::prelude::*;
use vstd::seq_lib::*;

use crate::engine::{
    canonical_key, frame_error, frame_key, frame_record, frame_valid, frame_window, RouteAction,
    TaskSet,
};
use crate::errors::{ErrorKind, ErrorKindView};
use crate::message::MessageView;
use crate::outbound::{call_stream, lemma_window_echo};
use crate::window::IntervalWindow;
use crate::wire::{emitted_window, ReduceRequest, ReduceRequestView, WireRequest, WireRequestView};

verus! {

/// The records of the frames whose key tuple canonicalises to `key`, in
/// arrival order: exactly the input sequence one reducer receives.
pub open spec fn valid_records_for_key(frames: Seq<WireRequestView>, key: Seq<char>) -> Seq<
    ReduceRequestView,
>
    decreases frames.len(),
{
    if frames.len() == 0 {
        Seq::empty()
    } else {
        let prefix = valid_records_for_key(frames.drop_last(), key);
        let f = frames.last();
        if frame_valid(f) && frame_key(f) == key {
            prefix.push(frame_record(f))
        } else {
            prefix
        }
    }
}

/// The distinct canonical keys of the valid frames, in order of first
/// sight: the reducer tasks of the call, in creation order.
pub open spec fn keys_in_arrival_order(frames: Seq<WireRequestView>) -> Seq<Seq<char>>
    decreases frames.len(),
{
    if frames.len() == 0 {
        Seq::empty()
    } else {
        let prefix = keys_in_arrival_order(frames.drop_last());
        let f = frames.last();
        if frame_valid(f) && !prefix.contains(frame_key(f)) {
            prefix.push(frame_key(f))
        } else {
            prefix
        }
    }
}

/// The errors of the invalid frames, in arrival order.
pub open spec fn rejected_errors(frames: Seq<WireRequestView>) -> Seq<ErrorKindView>
    decreases frames.len(),
{
    if frames.len() == 0 {
        Seq::empty()
    } else {
        let prefix = rejected_errors(frames.drop_last());
        let f = frames.last();
        if !frame_valid(f) {
            prefix.push(frame_error(f))
        } else {
            prefix
        }
    }
}

/// The window of the first valid frame, if any frame is valid.
pub open spec fn pinned_window(frames: Seq<WireRequestView>) -> Option<IntervalWindow>
    decreases frames.len(),
{
    if frames.len() == 0 {
        None
    } else {
        let prefix = pinned_window(frames.drop_last());
        let f = frames.last();
        if prefix is Some {
            prefix
        } else if frame_valid(f) {
            Some(frame_window(f))
        } else {
            None
        }
    }
}

/// One reducer task's share of a call: its canonical key and the records
/// it receives, in arrival order.
pub struct KeyGroup {
    pub key: String,
    pub records: Vec<ReduceRequest>,
}

pub struct KeyGroupView {
    pub key: Seq<char>,
    pub records: Seq<ReduceRequestView>,
}

impl View for KeyGroup {
    type V = KeyGroupView;

    open spec fn view(&self) -> KeyGroupView {
        KeyGroupView { key: self.key@, records: self.records.deep_view() }
    }
}

impl DeepView for KeyGroup {
    type V = KeyGroupView;

    open spec fn deep_view(&self) -> KeyGroupView {
        self.view()
    }
}

/// What one call's inbound stream amounts to once it has ended: one group
/// per reducer task, the rejected frames' errors, and the pinned window.
pub struct DispatchOutcome {
    /// One group per distinct key, in order of first sight.
    pub groups: Vec<KeyGroup>,
    /// The errors of the rejected frames, in arrival order.
    pub errors: Vec<ErrorKind>,
    /// The window observed on the first valid record, if any.
    pub window: Option<IntervalWindow>,
}

/// Runs the per-call dispatch over an already-ended inbound stream.
///
/// Per-key grouping and per-key arrival order are stated by the first
/// two clauses: the task of key K receives exactly the records of the
/// valid frames whose key tuple canonicalises to K, in arrival order.
pub fn dispatch_records(frames: Vec<WireRequest>) -> (out: DispatchOutcome)
    ensures
        out.groups.deep_view().map_values(|g: KeyGroupView| g.key) == keys_in_arrival_order(
            frames.deep_view(),
        ),
        forall|i: int|
            0 <= i < out.groups@.len() ==> (#[trigger] out.groups@[i]).records.deep_view()
                == valid_records_for_key(frames.deep_view(), out.groups@[i].key@),
        out.errors.deep_view() == rejected_errors(frames.deep_view()),
        out.window == pinned_window(frames.deep_view()),
{
    let ghost fv = frames.deep_view();
    let mut frames = frames;
    let mut task_set = TaskSet::new();
    let mut groups: Vec<KeyGroup> = Vec::new();
    let mut errors: Vec<ErrorKind> = Vec::new();
    let ghost mut k: int = 0;
    proof {
        assert(frames.deep_view() =~= fv.skip(0));
        assert(fv.take(0) =~= Seq::<WireRequestView>::empty());
        assert(groups.deep_view().map_values(|g: KeyGroupView| g.key) =~= keys_in_arrival_order(
            fv.take(0),
        ));
        assert(errors.deep_view() =~= rejected_errors(fv.take(0)));
    }
    while frames.len() > 0
        invariant
            0 <= k <= fv.len(),
            k + frames.len() == fv.len(),
            frames.deep_view() == fv.skip(k),
            task_set@.wf(),
            !task_set@.closed,
            task_set@.tasks == keys_in_arrival_order(fv.take(k)),
            groups.deep_view().map_values(|g: KeyGroupView| g.key) == task_set@.tasks,
            forall|i: int|
                0 <= i < groups@.len() ==> (#[trigger] groups@[i]).records.deep_view()
                    == valid_records_for_key(fv.take(k), groups@[i].key@),
            errors.deep_view() == rejected_errors(fv.take(k)),
            (if task_set@.window_pinned {
                Some(task_set@.window)
            } else {
                None
            }) == pinned_window(fv.take(k)),
        decreases frames.len(),
    {
        let ghost prefix = fv.take(k);
        let ghost ts0 = task_set@;
        let ghost gs0 = groups.deep_view();
        let ghost gs0e = groups@;
        let ghost fs0 = frames@;
        let ghost fdv0 = frames.deep_view();
        let f = frames.remove(0);
        let ghost fdv = f.deep_view();
        proof {
            assert(fdv == fv.skip(k)[0]);
            assert(fv.skip(k)[0] == fv[k]);
            fs0.remove_ensures(0);
            assert forall|j: int| 0 <= j < frames@.len() implies frames.deep_view()[j] == fv.skip(
                k + 1,
            )[j] by {
                assert(frames@[j] == fs0[j + 1]);
                assert(fdv0[j + 1] == fs0[j + 1].deep_view());
                assert(fdv0[j + 1] == fv.skip(k)[j + 1]);
            }
            assert(frames.deep_view() =~= fv.skip(k + 1));
            assert(fv.take(k + 1) =~= prefix.push(fv[k]));
            lemma_dispatch_step(prefix, fdv);
        }
        let act = task_set.handle_record(f);
        match act {
            RouteAction::Reject { error } => {
                errors.push(error);
                proof {
                    assert(errors.deep_view() =~= rejected_errors(fv.take(k + 1)));
                }
            },
            RouteAction::Deliver { task, created, record } => {
                let ghost rv = record.deep_view();
                proof {
                    assert(rv == frame_record(fdv));
                }
                if created {
                    let key = canonical_key(&record.keys);
                    proof {
                        assert(record.keys.deep_view() == frame_record(fdv).keys);
                        assert(key@ == frame_key(fdv));
                        lemma_absent_key_no_records(prefix, frame_key(fdv));
                    }
                    let mut records: Vec<ReduceRequest> = Vec::new();
                    records.push(record);
                    proof {
                        assert(records.deep_view() =~= seq![rv]);
                    }
                    groups.push(KeyGroup { key, records });
                    proof {
                        let newg = KeyGroupView { key: frame_key(fdv), records: seq![rv] };
                        assert(groups@[groups@.len() - 1].deep_view() == newg);
                        assert forall|j: int| 0 <= j < groups@.len() implies groups.deep_view()[j]
                            == gs0.push(newg)[j] by {
                            if j < groups@.len() - 1 {
                                assert(groups@[j] == gs0e[j]);
                                assert(gs0[j] == gs0e[j].deep_view());
                            }
                        }
                        assert(groups.deep_view() =~= gs0.push(newg));
                        assert(groups.deep_view().map_values(|g: KeyGroupView| g.key)
                            =~= task_set@.tasks);
                        assert(valid_records_for_key(fv.take(k + 1), frame_key(fdv))
                            =~= seq![rv]);
                        assert forall|i: int|
                            0 <= i < groups@.len() implies (#[trigger] groups@[i])
                            .records.deep_view() == valid_records_for_key(
                            fv.take(k + 1),
                            groups@[i].key@,
                        ) by {
                            assert(groups@[i].deep_view() == groups.deep_view()[i]);
                            if i < groups@.len() - 1 {
                                assert(groups.deep_view()[i] == gs0[i]);
                                assert(gs0.map_values(|g: KeyGroupView| g.key)[i] == gs0[i].key);
                                assert(gs0[i].key == ts0.tasks[i]);
                                if groups@[i].key@ == frame_key(fdv) {
                                    assert(ts0.tasks.contains(frame_key(fdv)));
                                }
                                assert(groups@[i].key@ != frame_key(fdv));
                            }
                        }
                    }
                } else {
                    proof {
                        assert(ts0.tasks[task as int] == frame_key(fdv));
                        assert(gs0.map_values(|g: KeyGroupView| g.key)[task as int]
                            == gs0[task as int].key);
                        assert(gs0[task as int].key == frame_key(fdv));
                    }
                    let mut group = groups.remove(task);
                    group.records.push(record);
                    groups.insert(task, group);
                    proof {
                        let newg = KeyGroupView {
                            key: frame_key(fdv),
                            records: gs0[task as int].records.push(rv),
                        };
                        assert(group.records.deep_view() =~= gs0[task as int].records.push(rv));
                        assert(group.deep_view() == newg);
                        gs0e.remove_ensures(task as int);
                        gs0e.remove(task as int).insert_ensures(task as int, group);
                        assert forall|j: int| 0 <= j < groups@.len() implies groups.deep_view()[j]
                            == gs0.update(task as int, newg)[j] by {
                            if j < task as int {
                                assert(groups@[j] == gs0e[j]);
                            } else if j == task as int {
                                assert(groups@[j] == group);
                            } else {
                                assert(groups@[j] == gs0e.remove(task as int)[j - 1]);
                                assert(gs0e.remove(task as int)[j - 1] == gs0e[j]);
                            }
                        }
                        assert(groups.deep_view() =~= gs0.update(task as int, newg));
                        assert(groups.deep_view().map_values(|g: KeyGroupView| g.key)
                            =~= task_set@.tasks);
                        assert forall|i: int|
                            0 <= i < groups@.len() implies (#[trigger] groups@[i])
                            .records.deep_view() == valid_records_for_key(
                            fv.take(k + 1),
                            groups@[i].key@,
                        ) by {
                            assert(groups@[i].deep_view() == groups.deep_view()[i]);
                            if i != task as int {
                                assert(groups.deep_view()[i] == gs0[i]);
                                assert(gs0.map_values(|g: KeyGroupView| g.key)[i] == gs0[i].key);
                                assert(groups@[i].key@ != frame_key(fdv));
                            }
                        }
                    }
                }
            },
        }
        proof {
            k = k + 1;
        }
    }
    proof {
        assert(fv.take(k) =~= fv);
    }
    let window = if task_set.window_pinned {
        Some(task_set.window)
    } else {
        None
    };
    DispatchOutcome { groups, errors, window }
}

/// How one more frame extends the dispatch of a prefix of the inbound
/// stream: a valid frame appends its record to its key's group and
/// registers the key on first sight; an invalid frame appends its error;
/// the first valid frame pins the window.
pub proof fn lemma_dispatch_step(prefix: Seq<WireRequestView>, f: WireRequestView)
    ensures
        keys_in_arrival_order(prefix.push(f)) == (if frame_valid(f) && !keys_in_arrival_order(
            prefix,
        ).contains(frame_key(f)) {
            keys_in_arrival_order(prefix).push(frame_key(f))
        } else {
            keys_in_arrival_order(prefix)
        }),
        forall|key: Seq<char>|
            #[trigger] valid_records_for_key(prefix.push(f), key) == (if frame_valid(f)
                && frame_key(f) == key {
                valid_records_for_key(prefix, key).push(frame_record(f))
            } else {
                valid_records_for_key(prefix, key)
            }),
        rejected_errors(prefix.push(f)) == (if !frame_valid(f) {
            rejected_errors(prefix).push(frame_error(f))
        } else {
            rejected_errors(prefix)
        }),
        pinned_window(prefix.push(f)) == (if pinned_window(prefix) is Some {
            pinned_window(prefix)
        } else if frame_valid(f) {
            Some(frame_window(f))
        } else {
            None
        }),
{
    assert(prefix.push(f).drop_last() =~= prefix);
    assert(prefix.push(f).last() == f);
}

/// A key that no valid frame of the stream carries has no records: the
/// reducer of a key is only ever created by a record for that key.
pub proof fn lemma_absent_key_no_records(frames: Seq<WireRequestView>, key: Seq<char>)
    requires
        !keys_in_arrival_order(frames).contains(key),
    ensures
        valid_records_for_key(frames, key) == Seq::<ReduceRequestView>::empty(),
    decreases frames.len(),
{
    if frames.len() == 0 {
        assert(valid_records_for_key(frames, key) =~= Seq::<ReduceRequestView>::empty());
    } else {
        let p = frames.drop_last();
        let f = frames.last();
        if keys_in_arrival_order(p).contains(key) {
            let i = choose|i: int|
                0 <= i < keys_in_arrival_order(p).len() && keys_in_arrival_order(p)[i] == key;
            assert(keys_in_arrival_order(frames)[i] == key);
            assert(false);
        }
        if frame_valid(f) && frame_key(f) == key {
            assert(keys_in_arrival_order(frames).last() == key);
            assert(false);
        }
        lemma_absent_key_no_records(p, key);
    }
}

/// One-task-per-key law: the call creates at most one reducer task per
/// canonical key, so every record of a key is consumed by the same
/// reducer instance.
pub proof fn lemma_one_task_per_key(frames: Seq<WireRequestView>)
    ensures
        forall|i: int, j: int|
            0 <= i < j < keys_in_arrival_order(frames).len() ==> keys_in_arrival_order(frames)[i]
                != keys_in_arrival_order(frames)[j],
    decreases frames.len(),
{
    if frames.len() > 0 {
        let p = frames.drop_last();
        let f = frames.last();
        lemma_one_task_per_key(p);
        let kp = keys_in_arrival_order(p);
        let kf = keys_in_arrival_order(frames);
        if frame_valid(f) && !kp.contains(frame_key(f)) {
            assert forall|i: int, j: int| 0 <= i < j < kf.len() implies kf[i] != kf[j] by {
                if j == kf.len() - 1 {
                    if kf[i] == kf[j] {
                        assert(kp[i] == frame_key(f));
                        assert(kp.contains(frame_key(f)));
                    }
                } else {
                    assert(kf[i] == kp[i] && kf[j] == kp[j]);
                }
            }
        }
    }
}

/// Per-key FIFO law: the input sequence of the reducer of key K is the
/// inbound stream filtered to the valid frames whose key tuple
/// canonicalises to K — an order-preserving selection, so the reducer
/// receives its records in inbound arrival order.
pub proof fn lemma_fifo_per_key(frames: Seq<WireRequestView>, key: Seq<char>)
    ensures
        valid_records_for_key(frames, key) == frames.filter(
            |f: WireRequestView| frame_valid(f) && frame_key(f) == key,
        ).map_values(|f: WireRequestView| frame_record(f)),
    decreases frames.len(),
{
    reveal(Seq::filter);
    let pred = |f: WireRequestView| frame_valid(f) && frame_key(f) == key;
    let g = |f: WireRequestView| frame_record(f);
    if frames.len() == 0 {
        assert(frames.filter(pred).map_values(g) =~= Seq::<ReduceRequestView>::empty());
        assert(valid_records_for_key(frames, key) =~= Seq::<ReduceRequestView>::empty());
    } else {
        let p = frames.drop_last();
        let f = frames.last();
        lemma_fifo_per_key(p, key);
        if pred(f) {
            assert(frames.filter(pred) == p.filter(pred).push(f));
            assert(p.filter(pred).push(f).map_values(g) =~= p.filter(pred).map_values(g).push(
                g(f),
            ));
        } else {
            assert(frames.filter(pred) == p.filter(pred));
        }
    }
}

/// Window-echo law over a whole call: when the inbound stream pins a
/// window — the one observed on its first valid record — every item of
/// the outbound stream, results and marker alike, carries that window.
pub proof fn lemma_call_window_echo(
    frames: Seq<WireRequestView>,
    msgs: Seq<MessageView>,
    w: IntervalWindow,
)
    requires
        pinned_window(frames) == Some(w),
    ensures
        forall|i: int|
            0 <= i < call_stream(msgs, w).len() ==> (#[trigger] call_stream(msgs, w)[i]).window
                == Some(emitted_window(w)),
{
    lemma_window_echo(msgs, w);
}

} // verus!
