use lianli_daemon::event::DaemonEvent;
use lianli_daemon::streaming::{
    FrameOutcome, PreparationError, RemovalReason, SourceRequest, SourceResult, StreamAnswer,
    StreamEffect, StreamQuery, StreamTurn, StreamWorker,
};

/// A worker that has been asked to begin.
fn started() -> StreamWorker {
    let mut worker = StreamWorker::new();
    let turn = worker.step(StreamAnswer::Begin);
    assert_eq!(turn.effects, Vec::new());
    assert_eq!(turn.query, StreamQuery::StopRequested);
    worker
}

fn go_on(worker: &mut StreamWorker) -> StreamTurn {
    worker.step(StreamAnswer::Flag(false))
}

/// Starts a pass in which no source has been prepared, up to the first target.
fn visit(worker: &mut StreamWorker, slots: Vec<usize>) -> StreamTurn {
    assert_eq!(go_on(worker).query, StreamQuery::PollPrepared);
    let turn = worker.step(StreamAnswer::Prepared(None));
    assert_eq!(turn.effects, vec![StreamEffect::LockTargets]);
    assert_eq!(turn.query, StreamQuery::TargetSlots);
    nothing_to_retire(worker, slots);
    go_on(worker)
}

/// Names the targets, none of which has a source to be retired; up to the question whether to stop.
fn nothing_to_retire(worker: &mut StreamWorker, slots: Vec<usize>) {
    let mut turn = worker.step(StreamAnswer::Slots(slots.clone()));
    for index in slots {
        assert_eq!(turn.effects, Vec::new());
        assert_eq!(turn.query, StreamQuery::TakeRetirement { index });
        turn = worker.step(StreamAnswer::Retirement(None));
    }
    assert_eq!(turn.effects, Vec::new());
    assert_eq!(turn.query, StreamQuery::StopRequested);
}

/// Sends a frame to the target that is next, while a source is being prepared elsewhere.
fn frame(
    worker: &mut StreamWorker,
    index: usize,
    outcome: FrameOutcome,
    errors: u32,
) -> StreamTurn {
    assert_eq!(go_on(worker).query, StreamQuery::Preparing);
    assert_eq!(worker.step(StreamAnswer::Flag(true)).query, StreamQuery::SendFrame { index });
    worker.step(StreamAnswer::Frame { outcome, consecutive_errors: errors })
}

/// Ends a pass in which no source was asked for.
fn rest(worker: &mut StreamWorker, initialized: Vec<bool>) -> Vec<StreamEffect> {
    let turn = worker.step(StreamAnswer::Initialized(initialized));
    assert_eq!(turn.effects, vec![StreamEffect::UnlockTargets]);
    let turn = go_on(worker);
    assert_eq!(turn.query, StreamQuery::StopRequested);
    turn.effects
}

fn usb(error: &str) -> FrameOutcome {
    FrameOutcome::Usb { error: error.to_string() }
}

fn source(index: usize) -> SourceResult {
    SourceResult { index, selection: 40, result: Ok(50) }
}

#[test]
fn worker_without_targets_rests_longer() {
    let mut worker = started();
    assert_eq!(visit(&mut worker, Vec::new()).query, StreamQuery::Initialized);
    assert_eq!(rest(&mut worker, Vec::new()), vec![StreamEffect::Park { millis: 100 }]);
    assert_eq!(visit(&mut worker, Vec::new()).query, StreamQuery::Initialized);
    assert_eq!(rest(&mut worker, vec![false, false]), vec![StreamEffect::Park { millis: 100 }]);
    assert_eq!(visit(&mut worker, Vec::new()).query, StreamQuery::Initialized);
    assert_eq!(rest(&mut worker, vec![false, true]), vec![StreamEffect::Park { millis: 1 }]);
}

#[test]
fn worker_stops_before_a_pass() {
    let mut worker = started();
    let turn = worker.step(StreamAnswer::Flag(true));
    assert_eq!(turn.effects, Vec::new());
    assert_eq!(turn.query, StreamQuery::Finished);
}

#[test]
fn every_target_gets_a_frame() {
    let mut worker = started();
    assert_eq!(visit(&mut worker, vec![7, 3]).query, StreamQuery::StopRequested);
    let turn = frame(&mut worker, 7, FrameOutcome::Sent, 2);
    assert_eq!(turn.effects, vec![StreamEffect::SetConsecutiveErrors { index: 7, errors: 0 }]);
    assert_eq!(turn.query, StreamQuery::StopRequested);
    let turn = frame(&mut worker, 3, FrameOutcome::NotDue, 2);
    assert_eq!(turn.effects, Vec::new());
    assert_eq!(turn.query, StreamQuery::Initialized);
    assert_eq!(rest(&mut worker, vec![true]), vec![StreamEffect::Park { millis: 1 }]);
}

#[test]
fn third_usb_error_in_a_row_removes_the_target() {
    let mut worker = started();
    let mut errors = 0;
    for expected in [1, 2] {
        visit(&mut worker, vec![4]);
        let turn = frame(&mut worker, 4, usb("stall"), errors);
        assert_eq!(
            turn.effects,
            vec![StreamEffect::SetConsecutiveErrors { index: 4, errors: expected }]
        );
        assert_eq!(turn.query, StreamQuery::Initialized);
        errors = expected;
        rest(&mut worker, vec![true]);
    }
    visit(&mut worker, vec![4]);
    let turn = frame(&mut worker, 4, usb("stall"), errors);
    assert_eq!(turn.effects, vec![StreamEffect::SetConsecutiveErrors { index: 4, errors: 3 }]);
    let reason = RemovalReason::Usb { error: "stall".to_string() };
    assert_eq!(reason.message(), "USB transfer failed after three attempts: stall");
    assert_eq!(turn.query, StreamQuery::RemovalEvent { index: 4, reason });
    let event = || DaemonEvent::RemoveFailedLcd {
        target_index: 4,
        removal: 1,
        key: "k".to_string(),
        error: "e".to_string(),
    };
    let turn = worker.step(StreamAnswer::Removal(Some(event())));
    assert_eq!(turn.query, StreamQuery::Initialized);
    assert_eq!(
        rest(&mut worker, vec![true]),
        vec![StreamEffect::Send { event: event() }, StreamEffect::Park { millis: 1 }]
    );
}

#[test]
fn frame_that_gets_through_forgives_the_errors() {
    let mut worker = started();
    visit(&mut worker, vec![4, 4, 4]);
    let turn = frame(&mut worker, 4, usb("stall"), 1);
    assert_eq!(turn.effects, vec![StreamEffect::SetConsecutiveErrors { index: 4, errors: 2 }]);
    let turn = frame(&mut worker, 4, FrameOutcome::Sent, 2);
    assert_eq!(turn.effects, vec![StreamEffect::SetConsecutiveErrors { index: 4, errors: 0 }]);
    let turn = frame(&mut worker, 4, usb("stall"), 0);
    assert_eq!(turn.effects, vec![StreamEffect::SetConsecutiveErrors { index: 4, errors: 1 }]);
    assert_eq!(turn.query, StreamQuery::Initialized);
}

#[test]
fn playback_error_removes_the_target_at_once() {
    let mut worker = started();
    visit(&mut worker, vec![4]);
    let turn = frame(&mut worker, 4, FrameOutcome::Other { error: "decoder".to_string() }, 0);
    assert_eq!(turn.effects, Vec::new());
    let reason = RemovalReason::Playback { error: "decoder".to_string() };
    assert_eq!(reason.message(), "Media playback failed: decoder");
    assert_eq!(turn.query, StreamQuery::RemovalEvent { index: 4, reason });
    // Its removal is under way already.
    let turn = worker.step(StreamAnswer::Removal(None));
    assert_eq!(turn.query, StreamQuery::Initialized);
    assert_eq!(rest(&mut worker, vec![true]), vec![StreamEffect::Park { millis: 1 }]);
}

#[test]
fn stopped_playbacks_are_reported_before_removals() {
    let mut worker = started();
    visit(&mut worker, vec![1, 2, 3]);
    frame(&mut worker, 1, FrameOutcome::Other { error: "e1".to_string() }, 0);
    worker.step(StreamAnswer::Removal(Some(DaemonEvent::RetryMedia)));
    let turn = frame(&mut worker, 2, FrameOutcome::Stopped { error: "e2".to_string() }, 0);
    assert_eq!(turn.query, StreamQuery::FailureKey { index: 2 });
    worker.step(StreamAnswer::Key(Some("key".to_string())));
    frame(&mut worker, 3, FrameOutcome::Stopped { error: "e3".to_string() }, 0);
    // The failure of this one is recorded already.
    worker.step(StreamAnswer::Key(None));
    assert_eq!(
        rest(&mut worker, vec![true]),
        vec![
            StreamEffect::Send {
                event: DaemonEvent::MediaPlaybackStopped {
                    target_index: 2,
                    key: "key".to_string(),
                    error: "e2".to_string(),
                },
            },
            StreamEffect::Send { event: DaemonEvent::RetryMedia },
            StreamEffect::Park { millis: 1 },
        ]
    );
    // The next pass starts afresh.
    visit(&mut worker, Vec::new());
    assert_eq!(rest(&mut worker, Vec::new()), vec![StreamEffect::Park { millis: 100 }]);
}

#[test]
fn prepared_source_is_handed_to_its_target() {
    let mut worker = started();
    go_on(&mut worker);
    worker.step(StreamAnswer::Prepared(Some(source(6))));
    nothing_to_retire(&mut worker, vec![6]);
    let turn = go_on(&mut worker);
    assert_eq!(turn.query, StreamQuery::AcceptsSource { index: 6, selection: 40 });
    let turn = worker.step(StreamAnswer::Match(Some(true)));
    assert_eq!(turn.effects, vec![StreamEffect::InstallSource { source: source(6) }]);
    assert_eq!(turn.query, StreamQuery::StopRequested);
    assert_eq!(frame(&mut worker, 6, FrameOutcome::NotDue, 0).query, StreamQuery::Initialized);
    assert_eq!(rest(&mut worker, Vec::new()), vec![StreamEffect::Park { millis: 100 }]);
}

#[test]
fn unwanted_source_is_dropped() {
    for accepts in [Some(false), None] {
        let mut worker = started();
        go_on(&mut worker);
        worker.step(StreamAnswer::Prepared(Some(source(6))));
        nothing_to_retire(&mut worker, Vec::new());
        go_on(&mut worker);
        let turn = worker.step(StreamAnswer::Match(accepts));
        assert_eq!(turn.effects, Vec::new());
        let turn = worker.step(StreamAnswer::Initialized(Vec::new()));
        assert_eq!(
            turn.effects,
            vec![
                StreamEffect::UnlockTargets,
                StreamEffect::DropSource { source: source(6) },
            ]
        );
    }
}

#[test]
fn first_target_that_asks_gets_its_source() {
    let mut worker = started();
    visit(&mut worker, vec![1, 2, 3]);
    // The first target wants nothing.
    assert_eq!(go_on(&mut worker).query, StreamQuery::Preparing);
    assert_eq!(go_on(&mut worker).query, StreamQuery::SourceRequest { index: 1 });
    assert_eq!(worker.step(StreamAnswer::Request(None)).query, StreamQuery::SendFrame { index: 1 });
    worker.step(StreamAnswer::Frame { outcome: FrameOutcome::NotDue, consecutive_errors: 0 });
    // The second one does.
    assert_eq!(go_on(&mut worker).query, StreamQuery::Preparing);
    assert_eq!(go_on(&mut worker).query, StreamQuery::SourceRequest { index: 2 });
    let request = SourceRequest { index: 2, selection: 41 };
    worker.step(StreamAnswer::Request(Some(request)));
    worker.step(StreamAnswer::Frame { outcome: FrameOutcome::NotDue, consecutive_errors: 0 });
    // The third one is not asked.
    assert_eq!(go_on(&mut worker).query, StreamQuery::SendFrame { index: 3 });
    worker.step(StreamAnswer::Frame { outcome: FrameOutcome::NotDue, consecutive_errors: 0 });
    worker.step(StreamAnswer::Initialized(vec![true]));
    assert_eq!(go_on(&mut worker).query, StreamQuery::StartPreparation { request });
    let turn = worker.step(StreamAnswer::Outcome(Ok(())));
    assert_eq!(turn.effects, vec![StreamEffect::Park { millis: 1 }]);
}

#[test]
fn preparation_that_does_not_start_is_offered_as_an_error() {
    let mut worker = started();
    visit(&mut worker, vec![2]);
    go_on(&mut worker);
    go_on(&mut worker);
    let request = SourceRequest { index: 2, selection: 41 };
    worker.step(StreamAnswer::Request(Some(request)));
    worker.step(StreamAnswer::Frame { outcome: FrameOutcome::NotDue, consecutive_errors: 0 });
    worker.step(StreamAnswer::Initialized(vec![true]));
    go_on(&mut worker);
    worker.step(StreamAnswer::Outcome(Err("no thread".to_string())));

    go_on(&mut worker);
    worker.step(StreamAnswer::Prepared(None));
    nothing_to_retire(&mut worker, vec![2]);
    let turn = go_on(&mut worker);
    assert_eq!(turn.query, StreamQuery::AcceptsSource { index: 2, selection: 41 });
    let turn = worker.step(StreamAnswer::Match(Some(true)));
    let error = PreparationError::NotStarted { error: "no thread".to_string() };
    assert_eq!(error.message(), "Cannot start media preparation: no thread");
    let source = SourceResult { index: 2, selection: 41, result: Err(error) };
    assert_eq!(turn.effects, vec![StreamEffect::InstallSource { source }]);
}

#[test]
fn finished_preparation_comes_before_a_failed_start() {
    let mut worker = started();
    visit(&mut worker, vec![2]);
    go_on(&mut worker);
    go_on(&mut worker);
    worker.step(StreamAnswer::Request(Some(SourceRequest { index: 2, selection: 41 })));
    worker.step(StreamAnswer::Frame { outcome: FrameOutcome::NotDue, consecutive_errors: 0 });
    worker.step(StreamAnswer::Initialized(vec![true]));
    go_on(&mut worker);
    worker.step(StreamAnswer::Outcome(Err("no thread".to_string())));

    go_on(&mut worker);
    worker.step(StreamAnswer::Prepared(Some(source(6))));
    nothing_to_retire(&mut worker, Vec::new());
    let turn = go_on(&mut worker);
    assert_eq!(turn.query, StreamQuery::AcceptsSource { index: 6, selection: 40 });
    worker.step(StreamAnswer::Match(None));
    worker.step(StreamAnswer::Initialized(Vec::new()));
    go_on(&mut worker);
    // The failed start has its turn in the next pass.
    go_on(&mut worker);
    worker.step(StreamAnswer::Prepared(None));
    nothing_to_retire(&mut worker, vec![2]);
    let turn = go_on(&mut worker);
    assert_eq!(turn.query, StreamQuery::AcceptsSource { index: 2, selection: 41 });
}

#[test]
fn stop_is_heeded_within_a_pass() {
    // Before the source is offered: it is dropped.
    let mut worker = started();
    go_on(&mut worker);
    worker.step(StreamAnswer::Prepared(Some(source(6))));
    nothing_to_retire(&mut worker, vec![6]);
    let turn = worker.step(StreamAnswer::Flag(true));
    assert_eq!(turn.query, StreamQuery::StopRequested);
    // Before a target is visited: no frame is sent.
    assert_eq!(worker.step(StreamAnswer::Flag(true)).query, StreamQuery::Initialized);
    let turn = worker.step(StreamAnswer::Initialized(vec![true]));
    assert_eq!(
        turn.effects,
        vec![StreamEffect::UnlockTargets, StreamEffect::DropSource { source: source(6) }]
    );
    let turn = worker.step(StreamAnswer::Flag(true));
    assert_eq!(turn.effects, vec![StreamEffect::Park { millis: 1 }]);
    assert_eq!(worker.step(StreamAnswer::Flag(true)).query, StreamQuery::Finished);
}

#[test]
fn stop_keeps_a_preparation_from_starting() {
    let mut worker = started();
    visit(&mut worker, vec![2]);
    go_on(&mut worker);
    go_on(&mut worker);
    worker.step(StreamAnswer::Request(Some(SourceRequest { index: 2, selection: 41 })));
    worker.step(StreamAnswer::Frame { outcome: FrameOutcome::NotDue, consecutive_errors: 0 });
    worker.step(StreamAnswer::Initialized(vec![true]));
    let turn = worker.step(StreamAnswer::Flag(true));
    assert_eq!(turn.effects, vec![StreamEffect::Park { millis: 1 }]);
    assert_eq!(turn.query, StreamQuery::StopRequested);
}

#[test]
fn preparation_error_has_its_message() {
    let failed = PreparationError::Failed { message: "not a video".to_string() };
    assert_eq!(failed.message(), "not a video");
}

#[test]
fn targets_are_touched_under_their_lock() {
    let mut worker = StreamWorker::new();
    let mut turn = worker.step(StreamAnswer::Begin);
    let mut locked = false;
    let mut locks = 0;
    let mut frames = 0;
    for _ in 0..80 {
        for effect in &turn.effects {
            match effect {
                StreamEffect::LockTargets => {
                    assert!(!locked);
                    locked = true;
                    locks += 1;
                }
                StreamEffect::UnlockTargets => {
                    assert!(locked);
                    locked = false;
                }
                StreamEffect::Park { .. } | StreamEffect::Send { .. } => assert!(!locked),
                StreamEffect::DropSource { .. } => {}
                StreamEffect::ReturnRetirement { .. }
                | StreamEffect::InstallSource { .. }
                | StreamEffect::SetConsecutiveErrors { .. } => assert!(locked),
            }
        }
        let answer = match turn.query {
            StreamQuery::StopRequested | StreamQuery::Preparing => StreamAnswer::Flag(false),
            StreamQuery::PollPrepared => StreamAnswer::Prepared(Some(source(1))),
            StreamQuery::AcceptsSource { .. } => StreamAnswer::Match(Some(locked)),
            StreamQuery::TargetSlots => StreamAnswer::Slots(vec![1, 2]),
            StreamQuery::TakeRetirement { index } => {
                assert!(locked);
                StreamAnswer::Retirement(Some(index as u64))
            }
            StreamQuery::TryRetire { .. } => StreamAnswer::Flag(false),
            StreamQuery::SourceRequest { index } => {
                assert!(locked);
                StreamAnswer::Request(Some(SourceRequest { index, selection: 9 }))
            }
            StreamQuery::SendFrame { .. } => {
                assert!(locked);
                frames += 1;
                StreamAnswer::Frame { outcome: usb("stall"), consecutive_errors: 2 }
            }
            StreamQuery::FailureKey { .. } => StreamAnswer::Key(None),
            StreamQuery::RemovalEvent { .. } => {
                assert!(locked);
                StreamAnswer::Removal(Some(DaemonEvent::FrameFinished))
            }
            StreamQuery::Initialized => StreamAnswer::Initialized(vec![true, true]),
            StreamQuery::StartPreparation { request } => {
                assert!(!locked);
                assert_eq!(request.index, 1);
                StreamAnswer::Outcome(Ok(()))
            }
            StreamQuery::Finished => unreachable!(),
        };
        turn = worker.step(answer);
    }
    assert!(locks >= 3);
    assert!(frames >= 6);
}

#[test]
fn finished_sources_are_retired_or_handed_back() {
    let mut worker = started();
    go_on(&mut worker);
    worker.step(StreamAnswer::Prepared(None));
    let turn = worker.step(StreamAnswer::Slots(vec![5, 8, 2]));
    assert_eq!(turn.query, StreamQuery::TakeRetirement { index: 5 });
    // The first source is taken.
    let turn = worker.step(StreamAnswer::Retirement(Some(50)));
    assert_eq!(turn.query, StreamQuery::TryRetire { source: 50 });
    let turn = worker.step(StreamAnswer::Flag(true));
    assert_eq!(turn.effects, Vec::new());
    assert_eq!(turn.query, StreamQuery::TakeRetirement { index: 8 });
    // The second one is refused.
    let turn = worker.step(StreamAnswer::Retirement(Some(80)));
    assert_eq!(turn.query, StreamQuery::TryRetire { source: 80 });
    let turn = worker.step(StreamAnswer::Flag(false));
    assert_eq!(turn.effects, vec![StreamEffect::ReturnRetirement { index: 8, source: 80 }]);
    assert_eq!(turn.query, StreamQuery::TakeRetirement { index: 2 });
    // The third target has none.
    let turn = worker.step(StreamAnswer::Retirement(None));
    assert_eq!(turn.effects, Vec::new());
    assert_eq!(turn.query, StreamQuery::StopRequested);
}
