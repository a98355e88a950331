//! What the streaming worker does for the targets, turn by turn and over a whole pass, in terms of
//! what it is told and what it then asks for.

use crate::event::{DaemonEvent, Handle};
use crate::streaming::{
    initial_stream, stream_step, FrameOutcome, PreparationError, RemovalReason, SourceRequest,
    SourceResult, Stream, StreamAnswer, StreamEffect, StreamNext, StreamQuery, StreamStage,
};
use vstd::prelude::*;

verus! {

/// Whether a turn has these effects, then asks that, and leaves the worker as `stream`.
pub open spec fn streams_on(
    next: StreamNext,
    stream: Stream,
    effects: Seq<StreamEffect>,
    query: StreamQuery,
) -> bool {
    &&& next.stream =~= stream
    &&& next.effects =~= effects
    &&& next.query == query
}

/// Whether a turn, with these effects, turns to the target at `at`, or, where there is none, is
/// done with all targets.
pub open spec fn turns_to(
    next: StreamNext,
    stream: Stream,
    at: int,
    effects: Seq<StreamEffect>,
) -> bool {
    if at < stream.slots.len() {
        streams_on(
            next,
            Stream { stage: StreamStage::Visiting { next: at as usize }, ..stream },
            effects,
            StreamQuery::StopRequested,
        )
    } else {
        streams_on(
            next,
            Stream { stage: StreamStage::Resting, ..stream },
            effects,
            StreamQuery::Initialized,
        )
    }
}

/// A worker that has not run yet holds nothing and has collected nothing.
pub proof fn law_fresh_worker_holds_nothing()
    ensures
        ({
            let stream = initial_stream();
            &&& stream.source_start_error is None
            &&& stream.prepared is None
            &&& stream.request is None
            &&& stream.slots.len() == 0
            &&& stream.stopped.len() == 0
            &&& stream.removals.len() == 0
            &&& stream.stage is Stopped
        }),
{
}

/// The worker asks before each pass whether to stop, and is done where it is to. A pass begins with
/// the preparation that has finished, or else with one that could not be started, which is thereby
/// used up; the targets are locked, and named.
pub proof fn law_pass_begins_with_what_was_prepared(
    stream: Stream,
    finished: Option<SourceResult>,
)
    requires
        stream.wf(),
        stream.stage is Looping,
    ensures
        ({
            let first = stream_step(stream, StreamAnswer::Flag(false));
            let second = stream_step(first.stream, StreamAnswer::Prepared(finished));
            &&& streams_on(
                stream_step(stream, StreamAnswer::Flag(true)),
                Stream { stage: StreamStage::Stopped, ..stream },
                Seq::empty(),
                StreamQuery::Finished,
            )
            &&& streams_on(
                first,
                Stream { stage: StreamStage::Polling, ..stream },
                Seq::empty(),
                StreamQuery::PollPrepared,
            )
            &&& streams_on(
                second,
                Stream {
                    prepared: if finished is Some {
                        finished
                    } else {
                        stream.source_start_error
                    },
                    source_start_error: if finished is Some {
                        stream.source_start_error
                    } else {
                        None
                    },
                    stage: StreamStage::Slots,
                    ..stream
                },
                seq![StreamEffect::LockTargets],
                StreamQuery::TargetSlots,
            )
        }),
{
}

/// A worker that is started asks first whether to stop.
pub proof fn law_worker_starts_by_asking_whether_to_stop(stream: Stream)
    requires
        stream.wf(),
        stream.stage is Stopped,
    ensures
        streams_on(
            stream_step(stream, StreamAnswer::Begin),
            Stream { stage: StreamStage::Looping, ..stream },
            Seq::empty(),
            StreamQuery::StopRequested,
        ),
{
}

/// The targets that were named are asked for finished sources, from the first one on.
pub proof fn law_every_target_may_retire_a_source(stream: Stream, slots: Vec<usize>)
    requires
        stream.wf(),
        stream.stage is Slots,
    ensures
        ({
            let next = stream_step(stream, StreamAnswer::Slots(slots));
            &&& slots@.len() > 0 ==> streams_on(
                next,
                Stream {
                    slots: slots@,
                    stage: StreamStage::Retiring { next: 0 },
                    ..stream
                },
                Seq::empty(),
                StreamQuery::TakeRetirement { index: slots@[0] },
            )
            &&& slots@.len() == 0 ==> streams_on(
                next,
                Stream { slots: slots@, stage: StreamStage::Offering, ..stream },
                Seq::empty(),
                StreamQuery::StopRequested,
            )
        }),
{
}

/// While sources are being retired, the target that is asked is always the one whose turn it is;
/// after the last one the worker asks whether to stop.
pub proof fn law_retirement_asks_the_target_in_turn(
    stream: Stream,
    at: usize,
    source: Handle,
    taken: bool,
)
    requires
        stream.wf(),
        stream.stage == (StreamStage::Retiring { next: at }),
    ensures
        ({
            let query = if at + 1 < stream.slots.len() {
                StreamQuery::TakeRetirement { index: stream.slots[at + 1] }
            } else {
                StreamQuery::StopRequested
            };
            let asked = stream_step(stream, StreamAnswer::Retirement(Some(source)));
            &&& stream_step(stream, StreamAnswer::Retirement(None)).query == query
            &&& stream_step(asked.stream, StreamAnswer::Flag(taken)).query == query
        }),
{
}

/// A prepared source is offered to the target that it was prepared for, unless the worker is to
/// stop, and is handed over, as it is, exactly where that target accepts it. Then the targets are
/// visited, from the first one on.
pub proof fn law_prepared_source_goes_to_its_target(
    stream: Stream,
    source: SourceResult,
    accepts: Option<bool>,
)
    requires
        stream.wf(),
        stream.stage is Offering,
    ensures
        turns_to(stream_step(stream, StreamAnswer::Flag(true)), stream, 0, Seq::empty()),
        stream.prepared is None ==> turns_to(
            stream_step(stream, StreamAnswer::Flag(false)),
            stream,
            0,
            Seq::empty(),
        ),
        stream.prepared == Some(source) ==> {
            let offered = stream_step(stream, StreamAnswer::Flag(false));
            let next = stream_step(offered.stream, StreamAnswer::Match(accepts));
            &&& streams_on(
                offered,
                Stream { stage: StreamStage::Accepting, ..stream },
                Seq::empty(),
                StreamQuery::AcceptsSource { index: source.index, selection: source.selection },
            )
            &&& accepts == Some(true) ==> turns_to(
                next,
                Stream { prepared: None, ..stream },
                0,
                seq![StreamEffect::InstallSource { source }],
            )
            &&& accepts != Some(true) ==> turns_to(next, stream, 0, Seq::empty())
        },
{
}

/// Each target that is visited gets a frame, unless the worker is to stop. Before that it may ask
/// for a source, where none is being prepared and none has been asked for in this pass.
pub proof fn law_visited_target_gets_a_frame(
    stream: Stream,
    at: usize,
    wanted: Option<SourceRequest>,
)
    requires
        stream.wf(),
        stream.stage == (StreamStage::Visiting { next: at }),
    ensures
        ({
            let index = stream.slots[at as int];
            let sending = Stream { stage: StreamStage::Sending { next: at }, ..stream };
            let frame = StreamQuery::SendFrame { index };
            let asked = stream_step(stream, StreamAnswer::Flag(false));
            let free = stream_step(asked.stream, StreamAnswer::Flag(false));
            &&& streams_on(
                stream_step(stream, StreamAnswer::Flag(true)),
                Stream { stage: StreamStage::Resting, ..stream },
                Seq::empty(),
                StreamQuery::Initialized,
            )
            &&& stream.request is Some ==> streams_on(asked, sending, Seq::empty(), frame)
            &&& stream.request is None ==> {
                &&& asked.effects.len() == 0
                &&& asked.query is Preparing
                &&& streams_on(
                    stream_step(asked.stream, StreamAnswer::Flag(true)),
                    sending,
                    Seq::empty(),
                    frame,
                )
                &&& free.effects.len() == 0
                &&& free.query == (StreamQuery::SourceRequest { index })
                &&& streams_on(
                    stream_step(free.stream, StreamAnswer::Request(wanted)),
                    Stream { request: wanted, ..sending },
                    Seq::empty(),
                    frame,
                )
            }
        }),
{
}

/// What a frame leads to. One that got through clears the target's count of USB errors; one that
/// was not due changes nothing; a stopped playback has the target asked for its key; a USB error is
/// counted, and the third in a row, like any other error at once, has the target asked for its
/// removal, with the reason. Where nothing is asked, the next target has its turn.
pub proof fn law_frame_is_followed_up(
    stream: Stream,
    at: usize,
    error: String,
    before: u32,
)
    requires
        stream.wf(),
        stream.stage == (StreamStage::Sending { next: at }),
    ensures
        ({
            let index = stream.slots[at as int];
            let step = |outcome: FrameOutcome|
                stream_step(stream, StreamAnswer::Frame { outcome, consecutive_errors: before });
            let counted = seq![
                StreamEffect::SetConsecutiveErrors { index, errors: (before + 1) as u32 },
            ];
            let removing = Stream { stage: StreamStage::Removing { next: at }, ..stream };
            &&& turns_to(
                step(FrameOutcome::Sent),
                stream,
                at + 1,
                seq![StreamEffect::SetConsecutiveErrors { index, errors: 0 }],
            )
            &&& turns_to(step(FrameOutcome::NotDue), stream, at + 1, Seq::empty())
            &&& streams_on(
                step(FrameOutcome::Stopped { error }),
                Stream { stage: StreamStage::FailureKey { next: at, error }, ..stream },
                Seq::empty(),
                StreamQuery::FailureKey { index },
            )
            &&& before < 2 ==> turns_to(
                step(FrameOutcome::Usb { error }),
                stream,
                at + 1,
                counted,
            )
            &&& 2 <= before < u32::MAX ==> streams_on(
                step(FrameOutcome::Usb { error }),
                removing,
                counted,
                StreamQuery::RemovalEvent { index, reason: RemovalReason::Usb { error } },
            )
            &&& streams_on(
                step(FrameOutcome::Other { error }),
                removing,
                Seq::empty(),
                StreamQuery::RemovalEvent { index, reason: RemovalReason::Playback { error } },
            )
        }),
{
}

/// After a target was asked for its key or its removal, the next one has its turn; what was
/// collected before, and all else, stays as it is.
pub proof fn law_report_of_a_target_is_added(
    stream: Stream,
    at: usize,
    error: String,
    key: Option<String>,
    event: Option<DaemonEvent>,
)
    requires
        stream.wf(),
    ensures
        stream.stage == (StreamStage::FailureKey { next: at, error }) ==> {
            let next = stream_step(stream, StreamAnswer::Key(key));
            &&& turns_to(
                next,
                Stream { stopped: next.stream.stopped, ..stream },
                at + 1,
                Seq::empty(),
            )
            &&& key is None ==> next.stream.stopped == stream.stopped
            &&& key is Some ==> {
                &&& next.stream.stopped.len() == stream.stopped.len() + 1
                &&& next.stream.stopped.drop_last() =~= stream.stopped
                &&& next.stream.stopped.last().target_index == stream.slots[at as int]
                &&& next.stream.stopped.last().key == key->0
                &&& next.stream.stopped.last().error == error
            }
        },
        stream.stage == (StreamStage::Removing { next: at }) ==> {
            let next = stream_step(stream, StreamAnswer::Removal(event));
            &&& turns_to(
                next,
                Stream { removals: next.stream.removals, ..stream },
                at + 1,
                Seq::empty(),
            )
            &&& event is None ==> next.stream.removals == stream.removals
            &&& event is Some ==> {
                &&& next.stream.removals.len() == stream.removals.len() + 1
                &&& next.stream.removals.drop_last() =~= stream.removals
                &&& next.stream.removals.last() == event->0
            }
        },
{
}

/// When all targets have been visited the lock is let go, and then a source that no target has
/// taken. The worker will rest for one millisecond where any target is initialized, and for a
/// hundred where none is.
pub proof fn law_targets_are_let_go_after_the_visits(stream: Stream, initialized: Vec<bool>)
    requires
        stream.wf(),
        stream.stage is Resting,
    ensures
        ({
            let next = stream_step(stream, StreamAnswer::Initialized(initialized));
            let millis = if initialized@.contains(true) {
                1u64
            } else {
                100u64
            };
            streams_on(
                next,
                Stream {
                    prepared: None,
                    stage: StreamStage::Starting { park_millis: millis },
                    ..stream
                },
                if stream.prepared is Some {
                    seq![
                        StreamEffect::UnlockTargets,
                        StreamEffect::DropSource { source: stream.prepared->0 },
                    ]
                } else {
                    seq![StreamEffect::UnlockTargets]
                },
                StreamQuery::StopRequested,
            )
        }),
{
    if initialized@.contains(true) {
        let i = choose|i: int| 0 <= i < initialized@.len() && initialized@[i] == true;
        assert(initialized@[i]);
    } else {
        assert forall|i: int| 0 <= i < initialized@.len() implies !(#[trigger] initialized@[i]) by {
            if initialized@[i] {
                assert(initialized@.contains(initialized@[i]));
            }
        }
    }
}

/// Whether a turn ends the pass: nothing of it is left, and the next pass may begin.
pub open spec fn pass_is_over(next: StreamNext, stream: Stream) -> bool {
    &&& next.stream =~= (Stream {
        request: None,
        slots: Seq::empty(),
        stopped: Seq::empty(),
        removals: Seq::empty(),
        stage: StreamStage::Looping,
        ..stream
    })
    &&& next.query is StopRequested
}

/// The source that was asked for in the pass is prepared, unless the worker is to stop. Where that
/// cannot be started, the target will be told so in a later pass; that, and nothing else, replaces
/// an error that was left from before.
pub proof fn law_requested_source_is_prepared(
    stream: Stream,
    park_millis: u64,
    request: SourceRequest,
    outcome: Result<(), String>,
)
    requires
        stream.wf(),
        stream.stage == (StreamStage::Starting { park_millis }),
    ensures
        pass_is_over(stream_step(stream, StreamAnswer::Flag(true)), stream),
        stream.request is None ==> pass_is_over(
            stream_step(stream, StreamAnswer::Flag(false)),
            stream,
        ),
        stream.request == Some(request) ==> {
            let started = stream_step(stream, StreamAnswer::Flag(false));
            let next = stream_step(started.stream, StreamAnswer::Outcome(outcome));
            &&& streams_on(
                started,
                Stream { stage: StreamStage::Started { request, park_millis }, ..stream },
                Seq::empty(),
                StreamQuery::StartPreparation { request },
            )
            &&& pass_is_over(
                next,
                match outcome {
                    Ok(()) => stream,
                    Err(error) => Stream {
                        source_start_error: Some(
                            SourceResult {
                                index: request.index,
                                selection: request.selection,
                                result: Err(PreparationError::NotStarted { error }),
                            },
                        ),
                        ..stream
                    },
                },
            )
        },
{
}

/// The messages under which failures are recorded: the reason, followed by the very error.
pub proof fn law_failures_are_recorded_with_their_error(error: String)
    ensures
        (RemovalReason::Usb { error }).text() == "USB transfer failed after three attempts: "@
            + error@,
        (RemovalReason::Playback { error }).text() == "Media playback failed: "@ + error@,
        (PreparationError::NotStarted { error }).text() == "Cannot start media preparation: "@
            + error@,
        (PreparationError::Failed { message: error }).text() == error@,
{
}

/// The state of the worker after a run of answers.
pub open spec fn worker_after(stream: Stream, answers: Seq<StreamAnswer>) -> Stream
    decreases answers.len(),
{
    if answers.len() == 0 {
        stream
    } else {
        stream_step(worker_after(stream, answers.drop_last()), answers.last()).stream
    }
}

/// The turn that the last of the answers leads to.
pub open spec fn turn_after(stream: Stream, answers: Seq<StreamAnswer>) -> StreamNext {
    stream_step(worker_after(stream, answers.drop_last()), answers.last())
}

/// Whether the answers make up one pass, over or still under way.
pub open spec fn single_pass(stream: Stream, answers: Seq<StreamAnswer>) -> bool {
    &&& stream.wf()
    &&& stream.stage is Looping
    &&& stream.stopped.len() == 0
    &&& stream.removals.len() == 0
    &&& answers.len() > 0
    &&& answers[0] == StreamAnswer::Flag(false)
    &&& forall|i: int|
        0 <= i < answers.len() ==> worker_after(stream, answers.take(i)).accepts(
            #[trigger] answers[i],
        )
    &&& forall|i: int|
        0 < i < answers.len() ==> !((#[trigger] worker_after(stream, answers.take(i))).stage
            is Looping)
}

/// The events that were given as answers to the question for a removal, in order.
pub open spec fn removals_given(answers: Seq<StreamAnswer>) -> Seq<DaemonEvent>
    decreases answers.len(),
{
    if answers.len() == 0 {
        Seq::empty()
    } else {
        let front = removals_given(answers.drop_last());
        match answers.last() {
            StreamAnswer::Removal(Some(event)) => front.push(event),
            _ => front,
        }
    }
}

/// What the keys that were given as answers call for, in order: each is reported with the slot that
/// was asked about and with the error that the frame before had led to.
pub open spec fn failures_given(stream: Stream, answers: Seq<StreamAnswer>) -> Seq<DaemonEvent>
    decreases answers.len(),
{
    if answers.len() == 0 {
        Seq::empty()
    } else {
        let before = answers.drop_last();
        let front = failures_given(stream, before);
        match answers.last() {
            StreamAnswer::Key(Some(key)) => front.push(
                DaemonEvent::MediaPlaybackStopped {
                    target_index: turn_after(stream, before).query->FailureKey_index,
                    key,
                    error: before.last()->Frame_outcome->Stopped_error,
                },
            ),
            _ => front,
        }
    }
}

/// How long the worker is to rest after what it was told about the targets.
pub open spec fn rest_given(answers: Seq<StreamAnswer>) -> u64
    decreases answers.len(),
{
    if answers.len() == 0 {
        100
    } else {
        match answers.last() {
            StreamAnswer::Initialized(initialized) => if initialized@.contains(true) {
                1
            } else {
                100
            },
            _ => rest_given(answers.drop_last()),
        }
    }
}

/// The events are sent, in order.
pub open spec fn sends(events: Seq<DaemonEvent>) -> Seq<StreamEffect> {
    Seq::new(events.len(), |i: int| StreamEffect::Send { event: events[i] })
}

/// Whether the worker neither sends an event nor rests.
pub open spec fn keeps_quiet(effects: Seq<StreamEffect>) -> bool {
    forall|i: int|
        0 <= i < effects.len() ==> !((#[trigger] effects[i]) is Send || effects[i] is Park)
}

/// Whether the worker has collected exactly that in the pass so far.
spec fn has_collected(
    stream: Stream,
    failures: Seq<DaemonEvent>,
    removals: Seq<DaemonEvent>,
    millis: u64,
) -> bool {
    &&& stream.removals =~= removals
    &&& stream.stopped.len() == failures.len()
    &&& forall|i: int|
        0 <= i < failures.len() ==> #[trigger] failures[i] == (DaemonEvent::MediaPlaybackStopped {
            target_index: stream.stopped[i].target_index,
            key: stream.stopped[i].key,
            error: stream.stopped[i].error,
        })
    &&& match stream.stage {
        StreamStage::Starting { park_millis } => park_millis == millis,
        StreamStage::Started { park_millis, .. } => park_millis == millis,
        _ => true,
    }
}

proof fn lemma_collecting_step(
    stream: Stream,
    answer: StreamAnswer,
    failures: Seq<DaemonEvent>,
    removals: Seq<DaemonEvent>,
    millis: u64,
)
    requires
        stream.wf(),
        stream.accepts(answer),
        !(stream.stage is Looping) && !(stream.stage is Stopped),
        has_collected(stream, failures, removals, millis),
    ensures
        ({
            let next = stream_step(stream, answer);
            let failures_now = match (stream.stage, answer) {
                (StreamStage::FailureKey { next, error }, StreamAnswer::Key(Some(key))) => {
                    failures.push(
                        DaemonEvent::MediaPlaybackStopped {
                            target_index: stream.slots[next as int],
                            key,
                            error,
                        },
                    )
                },
                _ => failures,
            };
            let removals_now = match answer {
                StreamAnswer::Removal(Some(event)) => removals.push(event),
                _ => removals,
            };
            let millis_now = match answer {
                StreamAnswer::Initialized(initialized) => if initialized@.contains(true) {
                    1
                } else {
                    100
                },
                _ => millis,
            };
            &&& next.stream.wf()
            &&& !(next.stream.stage is Stopped)
            &&& next.stream.stage is Looping ==> next.effects =~= sends(failures) + sends(removals)
                + seq![StreamEffect::Park { millis }]
            &&& !(next.stream.stage is Looping) ==> {
                &&& keeps_quiet(next.effects)
                &&& has_collected(next.stream, failures_now, removals_now, millis_now)
            }
        }),
{
    match answer {
        StreamAnswer::Initialized(initialized) => {
            law_targets_are_let_go_after_the_visits(stream, initialized);
        },
        StreamAnswer::Slots(slots) => {
            assert(slots@.len() == slots.len());
        },
        _ => {},
    }
}

/// A target is asked for the key of a failure only right after the frame that stopped.
proof fn lemma_key_follows_its_frame(stream: Stream, answer: StreamAnswer)
    requires
        stream.wf(),
        stream.accepts(answer),
    ensures
        ({
            let next = stream_step(stream, answer);
            next.stream.stage matches StreamStage::FailureKey { next: at, error } ==> {
                &&& next.query == (StreamQuery::FailureKey { index: next.stream.slots[at as int] })
                &&& answer matches StreamAnswer::Frame { outcome, .. }
                &&& outcome == (FrameOutcome::Stopped { error })
            }
        }),
{
}

proof fn lemma_shorter_pass(stream: Stream, answers: Seq<StreamAnswer>)
    requires
        single_pass(stream, answers),
        answers.len() > 1,
    ensures
        single_pass(stream, answers.drop_last()),
        !(worker_after(stream, answers.drop_last()).stage is Looping),
        worker_after(stream, answers.drop_last()).accepts(answers.last()),
{
    let front = answers.drop_last();
    assert(front[0] == answers[0]);
    assert forall|i: int| 0 <= i < front.len() implies worker_after(stream, front.take(i)).accepts(
        #[trigger] front[i],
    ) by {
        assert(front[i] == answers[i]);
        assert(front.take(i) =~= answers.take(i));
    }
    assert forall|i: int| 0 < i < front.len() implies !((#[trigger] worker_after(
        stream,
        front.take(i),
    )).stage is Looping) by {
        assert(front.take(i) =~= answers.take(i));
    }
    let last = answers.len() - 1;
    assert(answers.take(last) =~= front);
    assert(answers[last] == answers.last());
    assert(!(worker_after(stream, answers.take(last)).stage is Looping));
}

proof fn lemma_pass_collects(stream: Stream, answers: Seq<StreamAnswer>)
    requires
        single_pass(stream, answers),
    ensures
        ({
            let now = worker_after(stream, answers);
            let failures = failures_given(stream, answers);
            let removals = removals_given(answers);
            let effects = turn_after(stream, answers).effects;
            &&& now.wf()
            &&& !(now.stage is Stopped)
            &&& now.stage is Looping ==> effects =~= sends(failures) + sends(removals) + seq![
                StreamEffect::Park { millis: rest_given(answers) },
            ]
            &&& !(now.stage is Looping) ==> {
                &&& keeps_quiet(effects)
                &&& has_collected(now, failures, removals, rest_given(answers))
            }
        }),
    decreases answers.len(),
{
    let front = answers.drop_last();
    let answer = answers.last();
    if answers.len() == 1 {
        assert(front =~= Seq::empty());
        assert(answers[0] == answer);
        assert(worker_after(stream, front) == stream);
        assert(failures_given(stream, front) =~= Seq::empty());
        assert(removals_given(front) =~= Seq::empty());
        assert(stream.removals =~= Seq::empty());
    } else {
        lemma_shorter_pass(stream, answers);
        lemma_pass_collects(stream, front);
        let mid = worker_after(stream, front);
        lemma_collecting_step(
            mid,
            answer,
            failures_given(stream, front),
            removals_given(front),
            rest_given(front),
        );
        let before = worker_after(stream, front.drop_last());
        if front.len() > 1 {
            lemma_shorter_pass(stream, front);
            lemma_pass_collects(stream, front.drop_last());
        } else {
            assert(front.drop_last() =~= Seq::empty());
            assert(front.take(0) =~= Seq::empty());
            assert(worker_after(stream, front.take(0)).accepts(front[0]));
        }
        lemma_key_follows_its_frame(before, front.last());
    }
}

/// Over a whole pass everything that failed is reported, once and in order, when the targets have
/// been let go: first one event for each key that a target gave for a playback that had stopped,
/// with the slot of that target and the error of its frame; then one for each removal that a target
/// gave, as it is; however many there are of either. Then the worker rests, for as long as the
/// targets call for. Before that it sends nothing and does not rest, and the next pass starts with
/// nothing collected.
pub proof fn law_a_pass_reports_all_that_failed(stream: Stream, answers: Seq<StreamAnswer>)
    requires
        single_pass(stream, answers),
    ensures
        ({
            let now = worker_after(stream, answers);
            let effects = turn_after(stream, answers).effects;
            &&& now.stage is Looping ==> {
                &&& effects =~= sends(failures_given(stream, answers)) + sends(
                    removals_given(answers),
                ) + seq![StreamEffect::Park { millis: rest_given(answers) }]
                &&& now.stopped.len() == 0
                &&& now.removals.len() == 0
            }
            &&& !(now.stage is Looping) ==> keeps_quiet(effects)
        }),
{
    lemma_pass_collects(stream, answers);
    if worker_after(stream, answers).stage is Looping {
        let mid = worker_after(stream, answers.drop_last());
        lemma_end_leaves_nothing(mid, answers.last());
    }
}

proof fn lemma_end_leaves_nothing(stream: Stream, answer: StreamAnswer)
    requires
        stream_step(stream, answer).stream.stage is Looping,
        stream.accepts(answer),
        !(stream.stage is Stopped),
    ensures
        stream_step(stream, answer).stream.stopped.len() == 0,
        stream_step(stream, answer).stream.removals.len() == 0,
{
}

} // verus!
