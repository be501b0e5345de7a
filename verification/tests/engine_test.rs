use numaflow_reduce::dispatch::dispatch_records;
use numaflow_reduce::engine::{
    canonical_key, RouteAction, TaskLifecycle, TaskSet, ERROR_CHANNEL_CAPACITY, RESPONSE_CHANNEL_CAPACITY,
    TASK_CHANNEL_CAPACITY,
};
use numaflow_reduce::errors::{user_error_from_panic, ErrorDrain, ErrorKind, GRPC_CODE_UNKNOWN};
use numaflow_reduce::message::Message;
use numaflow_reduce::outbound::{eof_response, response_for_message};
use numaflow_reduce::window::{IntervalWindow, TimePoint};
use numaflow_reduce::wire::{Payload, WireOperation, WireRequest, WireWindow};

fn window_frame(seconds_start: i64, seconds_end: i64) -> WireWindow {
    WireWindow {
        start: Some(TimePoint {
            seconds: seconds_start,
            nanos: 0,
        }),
        end: Some(TimePoint {
            seconds: seconds_end,
            nanos: 0,
        }),
        slot: "slot-0".to_string(),
    }
}

fn frame(keys: Vec<&str>, value: &str, windows: Vec<WireWindow>) -> WireRequest {
    WireRequest {
        payload: Some(Payload {
            keys: keys.into_iter().map(|k| k.to_string()).collect(),
            value: value.as_bytes().to_vec(),
            watermark: None,
            event_time: None,
        }),
        operation: Some(WireOperation { event: 0, windows }),
    }
}

#[test]
fn two_key_sum() {
    // Ten records for key1 and nine for key2, all in one window.
    let mut frames = Vec::new();
    for i in 1..=10 {
        frames.push(frame(
            vec!["key1"],
            &i.to_string(),
            vec![window_frame(60000, 120000)],
        ));
    }
    for i in 1..=9 {
        frames.push(frame(
            vec!["key2"],
            &i.to_string(),
            vec![window_frame(60000, 120000)],
        ));
    }
    let out = dispatch_records(frames);

    assert!(out.errors.is_empty());
    assert_eq!(out.groups.len(), 2);
    assert_eq!(out.groups[0].key, "key1");
    assert_eq!(out.groups[1].key, "key2");
    assert_eq!(out.groups[0].records.len(), 10);
    assert_eq!(out.groups[1].records.len(), 9);
    let window = out.window.expect("a valid record pins the window");
    assert_eq!(window.start_time.seconds, 60000);
    assert_eq!(window.end_time.seconds, 120000);

    // A summing reducer over each group, then the outbound stream.
    let mut responses = Vec::new();
    for group in out.groups {
        let mut sum: i32 = 0;
        for record in &group.records {
            sum += std::str::from_utf8(&record.value).unwrap().parse::<i32>().unwrap();
        }
        let message =
            Message::new(sum.to_string().into_bytes()).keys(vec![group.key.clone()]);
        responses.push(response_for_message(message, &window));
    }
    responses.push(eof_response(&window));

    assert_eq!(responses.len(), 3);
    let first = responses[0].result.as_ref().unwrap();
    assert_eq!(first.keys, vec!["key1".to_string()]);
    assert_eq!(first.value, b"55".to_vec());
    let second = responses[1].result.as_ref().unwrap();
    assert_eq!(second.keys, vec!["key2".to_string()]);
    assert_eq!(second.value, b"45".to_vec());
    for (i, response) in responses.iter().enumerate() {
        let w = response.window.as_ref().unwrap();
        assert_eq!(w.start.unwrap().seconds, 60000);
        assert_eq!(w.end.unwrap().seconds, 120000);
        assert_eq!(w.slot, "slot-0");
        if i == responses.len() - 1 {
            assert!(response.eof);
            assert!(response.result.is_none());
        } else {
            assert!(!response.eof);
        }
    }
}

#[test]
fn multi_window_rejected() {
    let frames = vec![frame(
        vec!["key1"],
        "",
        vec![window_frame(60000, 120000), window_frame(60000, 120000)],
    )];
    let out = dispatch_records(frames);
    assert!(out.groups.is_empty());
    assert!(out.window.is_none());
    assert_eq!(out.errors.len(), 1);
    match &out.errors[0] {
        ErrorKind::InternalError(m) => {
            assert!(m.contains("Exactly one window is required"));
        }
        other => panic!("unexpected error kind: {:?}", other),
    }
}

#[test]
fn missing_payload_rejected() {
    let frames = vec![WireRequest {
        payload: None,
        operation: Some(WireOperation {
            event: 0,
            windows: vec![window_frame(60000, 120000)],
        }),
    }];
    let out = dispatch_records(frames);
    assert!(out.groups.is_empty());
    assert_eq!(out.errors.len(), 1);
    match &out.errors[0] {
        ErrorKind::InternalError(m) => assert_eq!(m, "Invalid ReduceRequest"),
        other => panic!("unexpected error kind: {:?}", other),
    }
}

#[test]
fn missing_operation_rejected() {
    let frames = vec![WireRequest {
        payload: Some(Payload {
            keys: vec!["key1".to_string()],
            value: vec![],
            watermark: None,
            event_time: None,
        }),
        operation: None,
    }];
    let out = dispatch_records(frames);
    assert!(out.groups.is_empty());
    assert_eq!(out.errors.len(), 1);
    match &out.errors[0] {
        ErrorKind::InternalError(m) => assert_eq!(m, "Invalid ReduceRequest"),
        other => panic!("unexpected error kind: {:?}", other),
    }
}

#[test]
fn empty_reducer_output_emits_only_marker() {
    // One record; the reducer returns no message: the outbound stream is
    // just the end-of-window marker with the observed window.
    let frames = vec![frame(vec!["key1"], "x", vec![window_frame(60000, 120000)])];
    let out = dispatch_records(frames);
    assert_eq!(out.groups.len(), 1);
    let window = out.window.unwrap();
    let reducer_messages: Vec<Message> = Vec::new();
    let mut responses = Vec::new();
    for m in reducer_messages {
        responses.push(response_for_message(m, &window));
    }
    responses.push(eof_response(&window));
    assert_eq!(responses.len(), 1);
    assert!(responses[0].eof);
    assert!(responses[0].result.is_none());
    let w = responses[0].window.as_ref().unwrap();
    assert_eq!(w.start.unwrap().seconds, 60000);
    assert_eq!(w.end.unwrap().seconds, 120000);
}

#[test]
fn window_pinned_on_first_valid_record() {
    let frames = vec![
        WireRequest {
            payload: None,
            operation: None,
        },
        frame(vec!["k"], "1", vec![window_frame(5, 10)]),
        frame(vec!["k"], "2", vec![window_frame(7, 12)]),
    ];
    let out = dispatch_records(frames);
    let window = out.window.unwrap();
    assert_eq!(window.start_time.seconds, 5);
    assert_eq!(window.end_time.seconds, 10);
}

#[test]
fn fifo_and_grouping_interleaved() {
    let w = || vec![window_frame(0, 1)];
    let frames = vec![
        frame(vec!["a"], "1", w()),
        frame(vec!["b"], "2", w()),
        frame(vec!["a"], "3", w()),
        frame(vec!["b"], "4", w()),
        frame(vec!["a"], "5", w()),
    ];
    let out = dispatch_records(frames);
    assert_eq!(out.groups.len(), 2);
    assert_eq!(out.groups[0].key, "a");
    assert_eq!(out.groups[1].key, "b");
    let a_values: Vec<Vec<u8>> =
        out.groups[0].records.iter().map(|r| r.value.clone()).collect();
    let b_values: Vec<Vec<u8>> =
        out.groups[1].records.iter().map(|r| r.value.clone()).collect();
    assert_eq!(a_values, vec![b"1".to_vec(), b"3".to_vec(), b"5".to_vec()]);
    assert_eq!(b_values, vec![b"2".to_vec(), b"4".to_vec()]);
}

#[test]
fn canonical_key_joins_with_delimiter() {
    let w = || vec![window_frame(0, 1)];
    let frames = vec![frame(vec!["k1", "k2"], "1", w())];
    let out = dispatch_records(frames);
    assert_eq!(out.groups.len(), 1);
    assert_eq!(out.groups[0].key, "k1:k2");
}

#[test]
fn handle_record_routes_and_creates() {
    let mut ts = TaskSet::new();
    match ts.handle_record(frame(vec!["a"], "1", vec![window_frame(0, 1)])) {
        RouteAction::Deliver {
            task,
            created,
            record,
        } => {
            assert_eq!(task, 0);
            assert!(created);
            assert_eq!(record.value, b"1".to_vec());
            assert_eq!(record.keys, vec!["a".to_string()]);
        }
        RouteAction::Reject { error } => panic!("rejected: {:?}", error),
    }
    match ts.handle_record(frame(vec!["b"], "2", vec![window_frame(0, 1)])) {
        RouteAction::Deliver { task, created, .. } => {
            assert_eq!(task, 1);
            assert!(created);
        }
        RouteAction::Reject { error } => panic!("rejected: {:?}", error),
    }
    match ts.handle_record(frame(vec!["a"], "3", vec![window_frame(0, 1)])) {
        RouteAction::Deliver { task, created, .. } => {
            assert_eq!(task, 0);
            assert!(!created);
        }
        RouteAction::Reject { error } => panic!("rejected: {:?}", error),
    }
    match ts.handle_record(WireRequest {
        payload: None,
        operation: None,
    }) {
        RouteAction::Reject { error } => match error {
            ErrorKind::InternalError(m) => assert_eq!(m, "Invalid ReduceRequest"),
            other => panic!("unexpected error kind: {:?}", other),
        },
        RouteAction::Deliver { .. } => panic!("an invalid frame must be rejected"),
    }
}

#[test]
fn task_set_close_emits_single_marker() {
    let mut ts = TaskSet::new();
    ts.handle_record(frame(vec!["a"], "1", vec![window_frame(3, 9)]));
    let marker = ts.close().expect("first close emits the marker");
    assert!(marker.eof);
    assert!(marker.result.is_none());
    let w = marker.window.as_ref().unwrap();
    assert_eq!(w.start.unwrap().seconds, 3);
    assert_eq!(w.end.unwrap().seconds, 9);
    assert_eq!(w.slot, "slot-0");
    assert!(ts.close().is_none(), "closing again emits no second marker");
}

#[test]
fn task_close_is_idempotent() {
    let mut task = TaskLifecycle::new();
    assert!(task.input_open);
    assert!(!task.completed);
    task.close();
    let after_first = task;
    task.close();
    assert_eq!(task, after_first);
    assert!(!task.input_open);
    assert!(task.completed);
}

#[test]
fn abort_emits_no_marker() {
    let mut ts = TaskSet::new();
    ts.handle_record(frame(vec!["a"], "1", vec![window_frame(3, 9)]));
    ts.abort();
    assert!(ts.close().is_none(), "an aborted call emits no marker");
}

#[test]
fn error_drain_surfaces_only_first_error() {
    let mut drain = ErrorDrain::new();
    let first = ErrorKind::UserDefinedError("panic in reduce".to_string());
    let second = ErrorKind::InternalError("late".to_string());
    assert!(drain.report(first));
    assert!(!drain.report(second));
    match drain.first.as_ref().unwrap() {
        ErrorKind::UserDefinedError(m) => assert_eq!(m, "panic in reduce"),
        other => panic!("unexpected error kind: {:?}", other),
    }
}

#[test]
fn reducer_panic_becomes_user_defined_error_with_unknown_code() {
    let e = user_error_from_panic("task panicked".to_string());
    match &e {
        ErrorKind::UserDefinedError(m) => assert_eq!(m, "task panicked"),
        other => panic!("unexpected error kind: {:?}", other),
    }
    assert_eq!(e.grpc_code(), GRPC_CODE_UNKNOWN);
    assert_eq!(
        ErrorKind::InternalError("x".to_string()).grpc_code(),
        GRPC_CODE_UNKNOWN
    );
}

#[test]
fn channel_capacities_are_one() {
    assert_eq!(TASK_CHANNEL_CAPACITY, 1);
    assert_eq!(RESPONSE_CHANNEL_CAPACITY, 1);
    assert_eq!(ERROR_CHANNEL_CAPACITY, 1);
}

#[test]
fn omitted_instants_are_read_as_epoch() {
    let frames = vec![frame(
        vec!["k"],
        "1",
        vec![WireWindow {
            start: None,
            end: None,
            slot: "slot-0".to_string(),
        }],
    )];
    let out = dispatch_records(frames);
    let window = out.window.unwrap();
    assert_eq!(window, IntervalWindow::default());
    assert_eq!(out.groups[0].records[0].watermark, TimePoint::default());
    assert_eq!(out.groups[0].records[0].eventtime, TimePoint::default());
}

#[test]
fn response_defaults_keys_and_tags_to_empty() {
    let window = IntervalWindow {
        start_time: TimePoint {
            seconds: 60000,
            nanos: 0,
        },
        end_time: TimePoint {
            seconds: 120000,
            nanos: 0,
        },
    };
    let response = response_for_message(Message::new(b"v".to_vec()), &window);
    let result = response.result.as_ref().unwrap();
    assert!(result.keys.is_empty());
    assert!(result.tags.is_empty());
    assert_eq!(result.value, b"v".to_vec());
    assert!(!response.eof);
}

#[test]
fn drop_tag_is_forwarded_verbatim() {
    let window = IntervalWindow::default();
    let response = response_for_message(Message::message_to_drop(), &window);
    let result = response.result.as_ref().unwrap();
    assert_eq!(result.tags, vec!["U+005C__DROP__".to_string()]);
    assert!(result.value.is_empty());
    assert!(!response.eof);
}

#[test]
fn canonical_key_examples() {
    let empty: Vec<String> = Vec::new();
    assert_eq!(canonical_key(&empty), "");
    assert_eq!(canonical_key(&vec!["a".to_string()]), "a");
    assert_eq!(
        canonical_key(&vec!["a".to_string(), "b".to_string(), "c".to_string()]),
        "a:b:c"
    );
}
