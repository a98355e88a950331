//! The streaming worker: in pass after pass it sends a frame to each LCD, has media prepared for
//! the LCDs that need a source, and reports the LCDs that fail.

use crate::event::{DaemonEvent, Handle};
use vstd::prelude::*;
use vstd::string::*;

verus! {

/// How many USB errors in a row an LCD is allowed before it is given up.
pub const MAX_USB_ERRORS: u32 = 3;

/// How long the worker rests between two passes while no LCD is initialized, in milliseconds.
pub const IDLE_PARK_MILLIS: u64 = 100;

/// How long it rests otherwise, in milliseconds.
pub const BUSY_PARK_MILLIS: u64 = 1;

/// A source that a target asks to have prepared.
#[derive(Debug, PartialEq, Eq, Structural, Clone, Copy)]
pub struct SourceRequest {
    pub index: usize,
    pub selection: Handle,
}

/// Why there is no source for a target.
#[allow(inconsistent_fields)]
#[derive(Debug, PartialEq, Eq)]
pub enum PreparationError {
    /// The preparation could not be started.
    NotStarted { error: String },
    /// What the preparation said.
    Failed { message: String },
}

impl PreparationError {
    pub open spec fn text(self) -> Seq<char> {
        match self {
            PreparationError::NotStarted { error } => "Cannot start media preparation: "@ + error@,
            PreparationError::Failed { message } => message@,
        }
    }

    /// The message for the target.
    pub fn message(&self) -> (message: String)
        ensures
            message@ == self.text(),
    {
        match self {
            PreparationError::NotStarted { error } => {
                let start = "Cannot start media preparation: ".to_string();
                start.concat(error.as_str())
            },
            PreparationError::Failed { message } => message.clone(),
        }
    }
}

/// A source that was prepared for a target, or why there is none.
#[derive(Debug, PartialEq, Eq)]
pub struct SourceResult {
    pub index: usize,
    pub selection: Handle,
    pub result: Result<Handle, PreparationError>,
}

/// What came of sending a frame to a target.
#[allow(inconsistent_fields)]
#[derive(Debug, PartialEq, Eq)]
pub enum FrameOutcome {
    Sent,
    /// No frame was due.
    NotDue,
    /// Playback has stopped.
    Stopped { error: String },
    /// The USB transfer failed.
    Usb { error: String },
    Other { error: String },
}

/// Why a target is given up.
#[allow(inconsistent_fields)]
#[derive(Debug, PartialEq, Eq)]
pub enum RemovalReason {
    /// USB transfers failed too many times in a row, the last one with this error.
    Usb { error: String },
    /// Playback failed.
    Playback { error: String },
}

impl RemovalReason {
    pub open spec fn text(self) -> Seq<char> {
        match self {
            RemovalReason::Usb { error } => "USB transfer failed after three attempts: "@ + error@,
            RemovalReason::Playback { error } => "Media playback failed: "@ + error@,
        }
    }

    /// The error under which the failure is recorded.
    pub fn message(&self) -> (message: String)
        ensures
            message@ == self.text(),
    {
        match self {
            RemovalReason::Usb { error } => {
                let start = "USB transfer failed after three attempts: ".to_string();
                start.concat(error.as_str())
            },
            RemovalReason::Playback { error } => {
                let start = "Media playback failed: ".to_string();
                start.concat(error.as_str())
            },
        }
    }
}

/// A playback that has stopped.
#[derive(Debug, PartialEq, Eq)]
pub struct StoppedPlayback {
    pub target_index: usize,
    pub key: String,
    pub error: String,
}

/// What a playback that has stopped is reported as.
pub open spec fn stopped_event(stopped: StoppedPlayback) -> DaemonEvent {
    DaemonEvent::MediaPlaybackStopped {
        target_index: stopped.target_index,
        key: stopped.key,
        error: stopped.error,
    }
}

/// The USB errors in a row after a frame.
pub open spec fn errors_with(errors: int, outcome: FrameOutcome) -> int {
    match outcome {
        FrameOutcome::Sent => 0,
        FrameOutcome::Usb { .. } => errors + 1,
        _ => errors,
    }
}

/// Something for the thread of the worker to do.
#[allow(inconsistent_fields)]
#[derive(Debug, PartialEq, Eq)]
pub enum StreamEffect {
    /// Lock the targets until `UnlockTargets`.
    LockTargets,
    /// Hand a source that could not be retired back to its target.
    ReturnRetirement { index: usize, source: Handle },
    UnlockTargets,
    /// Hand the prepared source to its target.
    InstallSource { source: SourceResult },
    /// Drop a source that no target accepted.
    DropSource { source: SourceResult },
    SetConsecutiveErrors { index: usize, errors: u32 },
    /// Send an event to the service loop; whether it arrives is of no interest.
    Send { event: DaemonEvent },
    /// Rest for that long, or until woken.
    Park { millis: u64 },
}

/// What the worker asks at the end of a turn.
#[allow(inconsistent_fields)]
#[derive(Debug, PartialEq, Eq)]
pub enum StreamQuery {
    /// Is the worker to stop?
    StopRequested,
    /// The preparation that has just finished, if any.
    PollPrepared,
    /// The source that the target is done with, if any; the target gives it away.
    TakeRetirement { index: usize },
    /// Have that source retired: was it taken?
    TryRetire { source: Handle },
    /// Does the target in that slot accept the prepared source, if there is one?
    AcceptsSource { index: usize, selection: Handle },
    /// The slots of all targets, in the order in which they are to be visited.
    TargetSlots,
    /// Is a source being prepared?
    Preparing,
    /// The source that the target wants prepared, if any.
    SourceRequest { index: usize },
    /// Send a frame to the target.
    SendFrame { index: usize },
    /// The key under which the target's playback failure is recorded, unless that has been done.
    FailureKey { index: usize },
    /// The event that removes the target, unless its removal is under way.
    RemovalEvent { index: usize, reason: RemovalReason },
    /// For each target, whether it is initialized.
    Initialized,
    /// Start to prepare a source.
    StartPreparation { request: SourceRequest },
    /// The worker has stopped.
    Finished,
}

/// The answer to such a query.
#[derive(Debug, PartialEq, Eq)]
pub enum StreamAnswer {
    /// Starts the worker.
    Begin,
    Flag(bool),
    Prepared(Option<SourceResult>),
    /// `None` where there is no such target.
    Match(Option<bool>),
    Slots(Vec<usize>),
    Retirement(Option<Handle>),
    Request(Option<SourceRequest>),
    /// What came of the frame, and the USB errors in a row that the target had before.
    Frame { outcome: FrameOutcome, consecutive_errors: u32 },
    Key(Option<String>),
    Removal(Option<DaemonEvent>),
    Initialized(Vec<bool>),
    Outcome(Result<(), String>),
}

/// How far the worker has come: which answer it waits for.
#[derive(Debug)]
pub enum StreamStage {
    /// It does not run.
    Stopped,
    /// Is there to be another pass?
    Looping,
    Polling,
    /// The targets are locked; which are there?
    Slots,
    /// Has the target at `next` a source to be retired?
    Retiring { next: usize },
    /// Was the source of the target at `next` taken?
    Retired { next: usize, source: Handle },
    /// Is the prepared source to be offered?
    Offering,
    Accepting,
    /// Is the target at `next` to be visited?
    Visiting { next: usize },
    Preparing { next: usize },
    Requesting { next: usize },
    Sending { next: usize },
    FailureKey { next: usize, error: String },
    Removing { next: usize },
    Resting,
    /// The targets are unlocked; is the source that was asked for to be prepared?
    Starting { park_millis: u64 },
    Started { request: SourceRequest, park_millis: u64 },
}

/// The worker that streams frames to the LCDs.
#[derive(Debug)]
pub struct StreamWorker {
    /// A preparation that could not be started, which a later pass hands to its target.
    pub source_start_error: Option<SourceResult>,
    /// The source to hand to its target in this pass.
    pub prepared: Option<SourceResult>,
    /// The source that this pass has prepared.
    pub request: Option<SourceRequest>,
    /// The slots of the targets that this pass visits.
    pub slots: Vec<usize>,
    /// The playbacks that this pass found stopped.
    pub stopped: Vec<StoppedPlayback>,
    /// The events that remove the targets which failed in this pass.
    pub removals: Vec<DaemonEvent>,
    pub stage: StreamStage,
}

/// The same as a mathematical value.
#[verifier::ext_equal]
pub struct Stream {
    pub source_start_error: Option<SourceResult>,
    pub prepared: Option<SourceResult>,
    pub request: Option<SourceRequest>,
    pub slots: Seq<usize>,
    pub stopped: Seq<StoppedPlayback>,
    pub removals: Seq<DaemonEvent>,
    pub stage: StreamStage,
}

impl View for StreamWorker {
    type V = Stream;

    open spec fn view(&self) -> Stream {
        Stream {
            source_start_error: self.source_start_error,
            prepared: self.prepared,
            request: self.request,
            slots: self.slots@,
            stopped: self.stopped@,
            removals: self.removals@,
            stage: self.stage,
        }
    }
}

impl Stream {
    /// A visit is to one of the slots, and a source is asked for only where none has been.
    pub open spec fn wf(self) -> bool {
        &&& self.slots.len() <= usize::MAX
        &&& match self.stage {
            StreamStage::Retiring { next } => next < self.slots.len(),
            StreamStage::Retired { next, .. } => next < self.slots.len(),
            StreamStage::Visiting { next } => next < self.slots.len(),
            StreamStage::Preparing { next } => next < self.slots.len() && self.request is None,
            StreamStage::Requesting { next } => next < self.slots.len() && self.request is None,
            StreamStage::Sending { next } => next < self.slots.len(),
            StreamStage::FailureKey { next, .. } => next < self.slots.len(),
            StreamStage::Removing { next } => next < self.slots.len(),
            StreamStage::Accepting => self.prepared is Some,
            _ => true,
        }
    }

    /// Whether the worker waits for such an answer. A count of USB errors that cannot be
    /// incremented is none that it can deal with.
    pub open spec fn accepts(self, answer: StreamAnswer) -> bool {
        match (self.stage, answer) {
            (StreamStage::Stopped, StreamAnswer::Begin) => true,
            (StreamStage::Looping, StreamAnswer::Flag(_)) => true,
            (StreamStage::Polling, StreamAnswer::Prepared(_)) => true,
            (StreamStage::Slots, StreamAnswer::Slots(_)) => true,
            (StreamStage::Retiring { .. }, StreamAnswer::Retirement(_)) => true,
            (StreamStage::Retired { .. }, StreamAnswer::Flag(_)) => true,
            (StreamStage::Offering, StreamAnswer::Flag(_)) => true,
            (StreamStage::Accepting, StreamAnswer::Match(_)) => true,
            (StreamStage::Visiting { .. }, StreamAnswer::Flag(_)) => true,
            (StreamStage::Preparing { .. }, StreamAnswer::Flag(_)) => true,
            (StreamStage::Requesting { .. }, StreamAnswer::Request(_)) => true,
            (
                StreamStage::Sending { .. },
                StreamAnswer::Frame { outcome, consecutive_errors },
            ) => outcome is Usb ==> consecutive_errors < u32::MAX,
            (StreamStage::FailureKey { .. }, StreamAnswer::Key(_)) => true,
            (StreamStage::Removing { .. }, StreamAnswer::Removal(_)) => true,
            (StreamStage::Resting, StreamAnswer::Initialized(_)) => true,
            (StreamStage::Starting { .. }, StreamAnswer::Flag(_)) => true,
            (StreamStage::Started { .. }, StreamAnswer::Outcome(_)) => true,
            _ => false,
        }
    }
}

/// Whether an answer fits a query.
pub open spec fn answers(query: StreamQuery, answer: StreamAnswer) -> bool {
    match query {
        StreamQuery::StopRequested | StreamQuery::TryRetire { .. } | StreamQuery::Preparing => {
            answer is Flag
        },
        StreamQuery::TakeRetirement { .. } => answer is Retirement,
        StreamQuery::PollPrepared => answer is Prepared,
        StreamQuery::AcceptsSource { .. } => answer is Match,
        StreamQuery::TargetSlots => answer is Slots,
        StreamQuery::SourceRequest { .. } => answer is Request,
        StreamQuery::SendFrame { .. } => {
            &&& answer matches StreamAnswer::Frame { outcome, consecutive_errors }
            &&& outcome is Usb ==> consecutive_errors < u32::MAX
        },
        StreamQuery::FailureKey { .. } => answer is Key,
        StreamQuery::RemovalEvent { .. } => answer is Removal,
        StreamQuery::Initialized => answer is Initialized,
        StreamQuery::StartPreparation { .. } => answer is Outcome,
        StreamQuery::Finished => answer is Begin,
    }
}

/// What the thread of the worker does next: perform the effects in order, then answer the query.
#[derive(Debug)]
pub struct StreamTurn {
    pub effects: Vec<StreamEffect>,
    pub query: StreamQuery,
}

/// The worker and the turn that an answer leads to, as far as it is fixed.
#[verifier::ext_equal]
pub struct StreamNext {
    pub stream: Stream,
    pub effects: Seq<StreamEffect>,
    pub query: StreamQuery,
}

pub open spec fn stream_go(
    stream: Stream,
    effects: Seq<StreamEffect>,
    query: StreamQuery,
) -> StreamNext {
    StreamNext { stream, effects, query }
}

/// The target at `next` is asked for a source to be retired, or all of them have been.
pub open spec fn retire(stream: Stream, next: int, effects: Seq<StreamEffect>) -> StreamNext {
    if next < stream.slots.len() {
        stream_go(
            Stream { stage: StreamStage::Retiring { next: next as usize }, ..stream },
            effects,
            StreamQuery::TakeRetirement { index: stream.slots[next] },
        )
    } else {
        stream_go(
            Stream { stage: StreamStage::Offering, ..stream },
            effects,
            StreamQuery::StopRequested,
        )
    }
}

/// The target at `next` is visited, or the walk over the targets is over.
pub open spec fn visit(stream: Stream, next: int, effects: Seq<StreamEffect>) -> StreamNext {
    if next < stream.slots.len() {
        stream_go(
            Stream { stage: StreamStage::Visiting { next: next as usize }, ..stream },
            effects,
            StreamQuery::StopRequested,
        )
    } else {
        stream_go(
            Stream { stage: StreamStage::Resting, ..stream },
            effects,
            StreamQuery::Initialized,
        )
    }
}

/// A frame is sent to the target at `next`.
pub open spec fn send_frame(stream: Stream, next: usize) -> StreamNext {
    stream_go(
        Stream { stage: StreamStage::Sending { next }, ..stream },
        Seq::empty(),
        StreamQuery::SendFrame { index: stream.slots[next as int] },
    )
}

/// What a pass reports to the service loop: first the playbacks that have stopped, then the
/// removals, each in the order in which they came up.
pub open spec fn sent(stopped: Seq<StoppedPlayback>, removals: Seq<DaemonEvent>) -> Seq<
    StreamEffect,
> {
    stopped.map_values(
        |stopped: StoppedPlayback| StreamEffect::Send { event: stopped_event(stopped) },
    ) + removals.map_values(|event: DaemonEvent| StreamEffect::Send { event })
}

/// The pass is over.
pub open spec fn end_pass(stream: Stream, millis: u64) -> StreamNext {
    stream_go(
        Stream {
            request: None,
            slots: Seq::empty(),
            stopped: Seq::empty(),
            removals: Seq::empty(),
            stage: StreamStage::Looping,
            ..stream
        },
        sent(stream.stopped, stream.removals).push(StreamEffect::Park { millis }),
        StreamQuery::StopRequested,
    )
}

/// The count of USB errors in a row is noted with the target where it changes.
pub open spec fn note_errors(index: usize, outcome: FrameOutcome, before: u32) -> Seq<
    StreamEffect,
> {
    match outcome {
        FrameOutcome::Sent | FrameOutcome::Usb { .. } => seq![
            StreamEffect::SetConsecutiveErrors {
                index,
                errors: errors_with(before as int, outcome) as u32,
            },
        ],
        _ => Seq::empty(),
    }
}

/// What follows a frame to the target at `next`, which had so many USB errors in a row before.
pub open spec fn frame_step(
    stream: Stream,
    next: usize,
    outcome: FrameOutcome,
    before: u32,
) -> StreamNext {
    let index = stream.slots[next as int];
    let noted = note_errors(index, outcome, before);
    match outcome {
        FrameOutcome::Sent | FrameOutcome::NotDue => visit(stream, next + 1, noted),
        FrameOutcome::Stopped { error } => stream_go(
            Stream { stage: StreamStage::FailureKey { next, error }, ..stream },
            noted,
            StreamQuery::FailureKey { index },
        ),
        FrameOutcome::Usb { error } => if errors_with(before as int, outcome) >= MAX_USB_ERRORS {
            stream_go(
                Stream { stage: StreamStage::Removing { next }, ..stream },
                noted,
                StreamQuery::RemovalEvent { index, reason: RemovalReason::Usb { error } },
            )
        } else {
            visit(stream, next + 1, noted)
        },
        FrameOutcome::Other { error } => stream_go(
            Stream { stage: StreamStage::Removing { next }, ..stream },
            noted,
            StreamQuery::RemovalEvent { index, reason: RemovalReason::Playback { error } },
        ),
    }
}

/// How long the worker rests after a pass, given which targets are initialized, in milliseconds.
pub open spec fn rest(initialized: Seq<bool>) -> u64 {
    if exists|i: int| 0 <= i < initialized.len() && #[trigger] initialized[i] {
        BUSY_PARK_MILLIS
    } else {
        IDLE_PARK_MILLIS
    }
}

/// One step of the worker.
pub open spec fn stream_step(stream: Stream, answer: StreamAnswer) -> StreamNext {
    match (stream.stage, answer) {
        (StreamStage::Stopped, StreamAnswer::Begin) => stream_go(
            Stream { stage: StreamStage::Looping, ..stream },
            Seq::empty(),
            StreamQuery::StopRequested,
        ),
        (StreamStage::Looping, StreamAnswer::Flag(stop)) => if stop {
            stream_go(
                Stream { stage: StreamStage::Stopped, ..stream },
                Seq::empty(),
                StreamQuery::Finished,
            )
        } else {
            stream_go(
                Stream { stage: StreamStage::Polling, ..stream },
                Seq::empty(),
                StreamQuery::PollPrepared,
            )
        },
        (StreamStage::Polling, StreamAnswer::Prepared(finished)) => stream_go(
            if finished is Some {
                Stream { prepared: finished, stage: StreamStage::Slots, ..stream }
            } else {
                Stream {
                    prepared: stream.source_start_error,
                    source_start_error: None,
                    stage: StreamStage::Slots,
                    ..stream
                }
            },
            seq![StreamEffect::LockTargets],
            StreamQuery::TargetSlots,
        ),
        (StreamStage::Slots, StreamAnswer::Slots(slots)) => retire(
            Stream { slots: slots@, ..stream },
            0,
            Seq::empty(),
        ),
        (StreamStage::Retiring { next }, StreamAnswer::Retirement(finished)) => match finished {
            Some(source) => stream_go(
                Stream { stage: StreamStage::Retired { next, source }, ..stream },
                Seq::empty(),
                StreamQuery::TryRetire { source },
            ),
            None => retire(stream, next + 1, Seq::empty()),
        },
        (StreamStage::Retired { next, source }, StreamAnswer::Flag(taken)) => retire(
            stream,
            next + 1,
            if taken {
                Seq::empty()
            } else {
                seq![
                    StreamEffect::ReturnRetirement { index: stream.slots[next as int], source },
                ]
            },
        ),
        (StreamStage::Offering, StreamAnswer::Flag(stop)) => match stream.prepared {
            Some(source) if !stop => stream_go(
                Stream { stage: StreamStage::Accepting, ..stream },
                Seq::empty(),
                StreamQuery::AcceptsSource { index: source.index, selection: source.selection },
            ),
            _ => visit(stream, 0, Seq::empty()),
        },
        (StreamStage::Accepting, StreamAnswer::Match(accepts)) => if accepts == Some(true) {
            visit(
                Stream { prepared: None, ..stream },
                0,
                seq![StreamEffect::InstallSource { source: stream.prepared->0 }],
            )
        } else {
            visit(stream, 0, Seq::empty())
        },
        (StreamStage::Visiting { next }, StreamAnswer::Flag(stop)) => if stop {
            stream_go(
                Stream { stage: StreamStage::Resting, ..stream },
                Seq::empty(),
                StreamQuery::Initialized,
            )
        } else if stream.request is Some {
            send_frame(stream, next)
        } else {
            stream_go(
                Stream { stage: StreamStage::Preparing { next }, ..stream },
                Seq::empty(),
                StreamQuery::Preparing,
            )
        },
        (StreamStage::Preparing { next }, StreamAnswer::Flag(busy)) => if busy {
            send_frame(stream, next)
        } else {
            stream_go(
                Stream { stage: StreamStage::Requesting { next }, ..stream },
                Seq::empty(),
                StreamQuery::SourceRequest { index: stream.slots[next as int] },
            )
        },
        (StreamStage::Requesting { next }, StreamAnswer::Request(request)) => send_frame(
            Stream { request, ..stream },
            next,
        ),
        (
            StreamStage::Sending { next },
            StreamAnswer::Frame { outcome, consecutive_errors },
        ) => frame_step(stream, next, outcome, consecutive_errors),
        (StreamStage::FailureKey { next, error }, StreamAnswer::Key(key)) => visit(
            match key {
                Some(key) => Stream {
                    stopped: stream.stopped.push(
                        StoppedPlayback { target_index: stream.slots[next as int], key, error },
                    ),
                    ..stream
                },
                None => stream,
            },
            next + 1,
            Seq::empty(),
        ),
        (StreamStage::Removing { next }, StreamAnswer::Removal(event)) => visit(
            match event {
                Some(event) => Stream { removals: stream.removals.push(event), ..stream },
                None => stream,
            },
            next + 1,
            Seq::empty(),
        ),
        (StreamStage::Resting, StreamAnswer::Initialized(initialized)) => stream_go(
            Stream {
                prepared: None,
                stage: StreamStage::Starting { park_millis: rest(initialized@) },
                ..stream
            },
            match stream.prepared {
                Some(source) => seq![
                    StreamEffect::UnlockTargets,
                    StreamEffect::DropSource { source },
                ],
                None => seq![StreamEffect::UnlockTargets],
            },
            StreamQuery::StopRequested,
        ),
        (StreamStage::Starting { park_millis }, StreamAnswer::Flag(stop)) => match stream.request {
            Some(request) if !stop => stream_go(
                Stream { stage: StreamStage::Started { request, park_millis }, ..stream },
                Seq::empty(),
                StreamQuery::StartPreparation { request },
            ),
            _ => end_pass(stream, park_millis),
        },
        (StreamStage::Started { request, park_millis }, StreamAnswer::Outcome(outcome)) => end_pass(
            match outcome {
                Ok(()) => stream,
                Err(error) => Stream {
                    source_start_error: Some(
                        SourceResult {
                            index: request.index,
                            selection: request.selection,
                            result: Err(PreparationError::NotStarted { error }),
                        },
                    ),
                    ..stream
                },
            },
            park_millis,
        ),
        _ => arbitrary(),
    }
}

fn rest_millis(initialized: &Vec<bool>) -> (millis: u64)
    ensures
        millis == rest(initialized@),
{
    let mut i: usize = 0;
    while i < initialized.len()
        invariant
            i <= initialized@.len(),
            forall|j: int| 0 <= j < i ==> !(#[trigger] initialized@[j]),
        decreases initialized.len() - i,
    {
        if initialized[i] {
            assert(initialized@[i as int]);
            return BUSY_PARK_MILLIS;
        }
        i = i + 1;
    }
    IDLE_PARK_MILLIS
}

fn report(stopped: Vec<StoppedPlayback>, removals: Vec<DaemonEvent>) -> (effects: Vec<
    StreamEffect,
>)
    ensures
        effects@ == sent(stopped@, removals@),
{
    let mut effects: Vec<StreamEffect> = Vec::new();
    for playback in it: stopped
        invariant
            it.seq() == stopped@,
            effects@ =~= sent(stopped@.take(it.index() as int), Seq::empty()),
    {
        effects.push(
            StreamEffect::Send {
                event: DaemonEvent::MediaPlaybackStopped {
                    target_index: playback.target_index,
                    key: playback.key,
                    error: playback.error,
                },
            },
        );
    }
    assert(stopped@.take(stopped@.len() as int) =~= stopped@);
    for event in it: removals
        invariant
            it.seq() == removals@,
            effects@ =~= sent(stopped@, removals@.take(it.index() as int)),
    {
        effects.push(StreamEffect::Send { event });
    }
    assert(removals@.take(removals@.len() as int) =~= removals@);
    effects
}

/// A worker that does not run yet.
pub open spec fn initial_stream() -> Stream {
    Stream {
        source_start_error: None,
        prepared: None,
        request: None,
        slots: Seq::empty(),
        stopped: Seq::empty(),
        removals: Seq::empty(),
        stage: StreamStage::Stopped,
    }
}

fn no_stream_effects() -> (effects: Vec<StreamEffect>)
    ensures
        effects@ == Seq::<StreamEffect>::empty(),
{
    Vec::new()
}

impl StreamWorker {
    pub fn new() -> (worker: Self)
        ensures
            worker@ == initial_stream(),
            worker@.wf(),
    {
        StreamWorker {
            source_start_error: None,
            prepared: None,
            request: None,
            slots: Vec::new(),
            stopped: Vec::new(),
            removals: Vec::new(),
            stage: StreamStage::Stopped,
        }
    }

    fn retire(&mut self, next: usize, effects: Vec<StreamEffect>) -> (turn: StreamTurn)
        ensures
            final(self)@ == retire(old(self)@, next as int, effects@).stream,
            turn.effects@ == retire(old(self)@, next as int, effects@).effects,
            turn.query == retire(old(self)@, next as int, effects@).query,
    {
        if next < self.slots.len() {
            let index: usize = self.slots[next];
            self.stage = StreamStage::Retiring { next };
            StreamTurn { effects, query: StreamQuery::TakeRetirement { index } }
        } else {
            self.stage = StreamStage::Offering;
            StreamTurn { effects, query: StreamQuery::StopRequested }
        }
    }

    fn visit(&mut self, next: usize, effects: Vec<StreamEffect>) -> (turn: StreamTurn)
        ensures
            final(self)@ == visit(old(self)@, next as int, effects@).stream,
            turn.effects@ == visit(old(self)@, next as int, effects@).effects,
            turn.query == visit(old(self)@, next as int, effects@).query,
    {
        if next < self.slots.len() {
            self.stage = StreamStage::Visiting { next };
            StreamTurn { effects, query: StreamQuery::StopRequested }
        } else {
            self.stage = StreamStage::Resting;
            StreamTurn { effects, query: StreamQuery::Initialized }
        }
    }

    fn send_frame(&mut self, next: usize) -> (turn: StreamTurn)
        requires
            next < old(self).slots@.len(),
        ensures
            final(self)@ == send_frame(old(self)@, next).stream,
            turn.effects@ == send_frame(old(self)@, next).effects,
            turn.query == send_frame(old(self)@, next).query,
    {
        self.stage = StreamStage::Sending { next };
        let index: usize = self.slots[next];
        StreamTurn { effects: no_stream_effects(), query: StreamQuery::SendFrame { index } }
    }

    fn frame_done(&mut self, next: usize, outcome: FrameOutcome, before: u32) -> (turn: StreamTurn)
        requires
            next < old(self).slots.len(),
            outcome is Usb ==> before < u32::MAX,
        ensures
            final(self)@ == frame_step(old(self)@, next, outcome, before).stream,
            turn.effects@ == frame_step(old(self)@, next, outcome, before).effects,
            turn.query == frame_step(old(self)@, next, outcome, before).query,
    {
        let index: usize = self.slots[next];
        let mut effects = no_stream_effects();
        match outcome {
            FrameOutcome::Sent => {
                effects.push(StreamEffect::SetConsecutiveErrors { index, errors: 0 });
                self.visit(next + 1, effects)
            },
            FrameOutcome::NotDue => self.visit(next + 1, effects),
            FrameOutcome::Stopped { error } => {
                self.stage = StreamStage::FailureKey { next, error };
                StreamTurn { effects, query: StreamQuery::FailureKey { index } }
            },
            FrameOutcome::Usb { error } => {
                let errors: u32 = before + 1;
                effects.push(StreamEffect::SetConsecutiveErrors { index, errors });
                if errors >= MAX_USB_ERRORS {
                    self.stage = StreamStage::Removing { next };
                    let reason = RemovalReason::Usb { error };
                    StreamTurn { effects, query: StreamQuery::RemovalEvent { index, reason } }
                } else {
                    self.visit(next + 1, effects)
                }
            },
            FrameOutcome::Other { error } => {
                self.stage = StreamStage::Removing { next };
                let reason = RemovalReason::Playback { error };
                StreamTurn { effects, query: StreamQuery::RemovalEvent { index, reason } }
            },
        }
    }

    fn end_pass(&mut self, millis: u64) -> (turn: StreamTurn)
        ensures
            final(self)@ == end_pass(old(self)@, millis).stream,
            turn.effects@ == end_pass(old(self)@, millis).effects,
            turn.query == end_pass(old(self)@, millis).query,
    {
        let mut stopped: Vec<StoppedPlayback> = Vec::new();
        std::mem::swap(&mut self.stopped, &mut stopped);
        let mut removals: Vec<DaemonEvent> = Vec::new();
        std::mem::swap(&mut self.removals, &mut removals);
        let mut effects = report(stopped, removals);
        effects.push(StreamEffect::Park { millis });
        self.request = None;
        self.slots = Vec::new();
        self.stage = StreamStage::Looping;
        StreamTurn { effects, query: StreamQuery::StopRequested }
    }

    /// One turn of the worker. It starts with `StreamAnswer::Begin` and is over with
    /// `StreamQuery::Finished`.
    pub fn step(&mut self, answer: StreamAnswer) -> (turn: StreamTurn)
        requires
            old(self)@.wf(),
            old(self)@.accepts(answer),
        ensures
            final(self)@ == stream_step(old(self)@, answer).stream,
            turn.effects@ == stream_step(old(self)@, answer).effects,
            turn.query == stream_step(old(self)@, answer).query,
            final(self)@.wf(),
            forall|next: StreamAnswer| #[trigger]
                answers(turn.query, next) ==> final(self)@.accepts(next),
    {
        let mut stage = StreamStage::Stopped;
        std::mem::swap(&mut self.stage, &mut stage);
        match (stage, answer) {
            (StreamStage::Stopped, StreamAnswer::Begin) => {
                self.stage = StreamStage::Looping;
                StreamTurn { effects: no_stream_effects(), query: StreamQuery::StopRequested }
            },
            (StreamStage::Looping, StreamAnswer::Flag(stop)) => {
                if stop {
                    StreamTurn { effects: no_stream_effects(), query: StreamQuery::Finished }
                } else {
                    self.stage = StreamStage::Polling;
                    StreamTurn { effects: no_stream_effects(), query: StreamQuery::PollPrepared }
                }
            },
            (StreamStage::Polling, StreamAnswer::Prepared(finished)) => {
                self.stage = StreamStage::Slots;
                if finished.is_some() {
                    self.prepared = finished;
                } else {
                    let mut failed: Option<SourceResult> = None;
                    std::mem::swap(&mut self.source_start_error, &mut failed);
                    self.prepared = failed;
                }
                let mut effects = no_stream_effects();
                effects.push(StreamEffect::LockTargets);
                StreamTurn { effects, query: StreamQuery::TargetSlots }
            },
            (StreamStage::Slots, StreamAnswer::Slots(slots)) => {
                assert(slots@.len() == slots.len());
                self.slots = slots;
                self.retire(0, no_stream_effects())
            },
            (StreamStage::Retiring { next }, StreamAnswer::Retirement(finished)) => {
                match finished {
                    Some(source) => {
                        self.stage = StreamStage::Retired { next, source };
                        StreamTurn {
                            effects: no_stream_effects(),
                            query: StreamQuery::TryRetire { source },
                        }
                    },
                    None => self.retire(next + 1, no_stream_effects()),
                }
            },
            (StreamStage::Retired { next, source }, StreamAnswer::Flag(taken)) => {
                let mut effects = no_stream_effects();
                if !taken {
                    let index: usize = self.slots[next];
                    effects.push(StreamEffect::ReturnRetirement { index, source });
                }
                self.retire(next + 1, effects)
            },
            (StreamStage::Offering, StreamAnswer::Flag(stop)) => {
                let offer: Option<StreamQuery> = match &self.prepared {
                    Some(source) => if stop {
                        None
                    } else {
                        Some(
                            StreamQuery::AcceptsSource {
                                index: source.index,
                                selection: source.selection,
                            },
                        )
                    },
                    None => None,
                };
                match offer {
                    Some(query) => {
                        self.stage = StreamStage::Accepting;
                        StreamTurn { effects: no_stream_effects(), query }
                    },
                    None => self.visit(0, no_stream_effects()),
                }
            },
            (StreamStage::Accepting, StreamAnswer::Match(accepts)) => {
                let mut effects = no_stream_effects();
                match accepts {
                    Some(true) => {
                        let mut accepted: Option<SourceResult> = None;
                        std::mem::swap(&mut self.prepared, &mut accepted);
                        match accepted {
                            Some(source) => {
                                effects.push(StreamEffect::InstallSource { source });
                            },
                            None => {},
                        }
                    },
                    _ => {},
                }
                self.visit(0, effects)
            },
            (StreamStage::Visiting { next }, StreamAnswer::Flag(stop)) => {
                if stop {
                    self.stage = StreamStage::Resting;
                    StreamTurn { effects: no_stream_effects(), query: StreamQuery::Initialized }
                } else if self.request.is_some() {
                    self.send_frame(next)
                } else {
                    self.stage = StreamStage::Preparing { next };
                    StreamTurn { effects: no_stream_effects(), query: StreamQuery::Preparing }
                }
            },
            (StreamStage::Preparing { next }, StreamAnswer::Flag(busy)) => {
                if busy {
                    self.send_frame(next)
                } else {
                    let index: usize = self.slots[next];
                    self.stage = StreamStage::Requesting { next };
                    StreamTurn {
                        effects: no_stream_effects(),
                        query: StreamQuery::SourceRequest { index },
                    }
                }
            },
            (StreamStage::Requesting { next }, StreamAnswer::Request(request)) => {
                self.request = request;
                self.send_frame(next)
            },
            (
                StreamStage::Sending { next },
                StreamAnswer::Frame { outcome, consecutive_errors },
            ) => self.frame_done(next, outcome, consecutive_errors),
            (StreamStage::FailureKey { next, error }, StreamAnswer::Key(key)) => {
                let target_index: usize = self.slots[next];
                match key {
                    Some(key) => {
                        self.stopped.push(StoppedPlayback { target_index, key, error });
                    },
                    None => {},
                }
                self.visit(next + 1, no_stream_effects())
            },
            (StreamStage::Removing { next }, StreamAnswer::Removal(event)) => {
                match event {
                    Some(event) => {
                        self.removals.push(event);
                    },
                    None => {},
                }
                self.visit(next + 1, no_stream_effects())
            },
            (StreamStage::Resting, StreamAnswer::Initialized(initialized)) => {
                let mut effects = no_stream_effects();
                effects.push(StreamEffect::UnlockTargets);
                let mut unclaimed: Option<SourceResult> = None;
                std::mem::swap(&mut self.prepared, &mut unclaimed);
                match unclaimed {
                    Some(source) => {
                        effects.push(StreamEffect::DropSource { source });
                    },
                    None => {},
                }
                self.stage = StreamStage::Starting { park_millis: rest_millis(&initialized) };
                StreamTurn { effects, query: StreamQuery::StopRequested }
            },
            (StreamStage::Starting { park_millis }, StreamAnswer::Flag(stop)) => {
                match self.request {
                    Some(request) => if stop {
                        self.end_pass(park_millis)
                    } else {
                        self.stage = StreamStage::Started { request, park_millis };
                        StreamTurn {
                            effects: no_stream_effects(),
                            query: StreamQuery::StartPreparation { request },
                        }
                    },
                    None => self.end_pass(park_millis),
                }
            },
            (StreamStage::Started { request, park_millis }, StreamAnswer::Outcome(outcome)) => {
                match outcome {
                    Ok(()) => {},
                    Err(error) => {
                        self.source_start_error = Some(
                            SourceResult {
                                index: request.index,
                                selection: request.selection,
                                result: Err(PreparationError::NotStarted { error }),
                            },
                        );
                    },
                }
                self.end_pass(park_millis)
            },
            _ => vstd::pervasive::unreached(),
        }
    }
}

/// Whether the worker holds the lock of the targets at that stage.
pub open spec fn holds_targets(stage: StreamStage) -> bool {
    match stage {
        StreamStage::Stopped | StreamStage::Looping | StreamStage::Polling | StreamStage::Starting {
            ..
        } | StreamStage::Started { .. } => false,
        _ => true,
    }
}

/// The worker takes the lock of the targets exactly when it does not hold it and lets go of it
/// exactly when it does; it neither rests nor sends an event nor starts a preparation while it
/// holds the lock, and it touches a target only then.
pub proof fn law_targets_are_touched_under_their_lock(stream: Stream, answer: StreamAnswer)
    requires
        stream.wf(),
        stream.accepts(answer),
    ensures
        ({
            let next = stream_step(stream, answer);
            let before = holds_targets(stream.stage);
            let after = holds_targets(next.stream.stage);
            &&& next.effects.contains(StreamEffect::LockTargets) <==> !before && after
            &&& next.effects.contains(StreamEffect::UnlockTargets) <==> before && !after
            &&& forall|effect: StreamEffect| #[trigger]
                next.effects.contains(effect) && (effect is Park || effect is Send) ==> !before
                    && !after
            &&& next.query is StartPreparation ==> !after
            &&& next.query is TakeRetirement || next.query is TryRetire || next.query
                is AcceptsSource || next.query is SourceRequest || next.query is SendFrame
                || next.query is FailureKey || next.query is RemovalEvent ==> after
            &&& forall|effect: StreamEffect| #[trigger]
                next.effects.contains(effect) && (effect is ReturnRetirement || effect
                    is InstallSource || effect is SetConsecutiveErrors) ==> before && after
        }),
{
    let next = stream_step(stream, answer);
    if !holds_targets(stream.stage) && holds_targets(next.stream.stage) {
        assert(next.effects[0] is LockTargets);
    }
    if holds_targets(stream.stage) && !holds_targets(next.stream.stage) {
        assert(next.effects[0] is UnlockTargets);
    }
}

/// A source that a target is done with is retired, or else goes back to the target that it came
/// from. Either way the next target is asked, and after the last one the prepared source may be
/// offered.
pub proof fn law_refused_sources_go_back(
    stream: Stream,
    next: usize,
    source: Handle,
    taken: bool,
)
    requires
        stream.wf(),
        stream.stage == (StreamStage::Retiring { next }),
    ensures
        ({
            let index = stream.slots[next as int];
            let asked = stream_step(stream, StreamAnswer::Retirement(Some(source)));
            let tried = stream_step(asked.stream, StreamAnswer::Flag(taken));
            let passed = stream_step(stream, StreamAnswer::Retirement(None));
            let after = if next + 1 < stream.slots.len() {
                Stream { stage: StreamStage::Retiring { next: (next + 1) as usize }, ..stream }
            } else {
                Stream { stage: StreamStage::Offering, ..stream }
            };
            &&& asked.effects.len() == 0
            &&& asked.query == (StreamQuery::TryRetire { source })
            &&& tried.effects == if taken {
                Seq::empty()
            } else {
                seq![StreamEffect::ReturnRetirement { index, source }]
            }
            &&& tried.stream == after
            &&& passed.effects.len() == 0
            &&& passed.stream == after
        }),
{
}

/// No source goes back to a target but one that came from it and was refused.
pub proof fn law_only_refused_sources_go_back(
    stream: Stream,
    answer: StreamAnswer,
    index: usize,
    source: Handle,
)
    requires
        stream.wf(),
        stream.accepts(answer),
        stream_step(stream, answer).effects.contains(
            StreamEffect::ReturnRetirement { index, source },
        ),
    ensures
        answer == StreamAnswer::Flag(false),
        stream.stage matches StreamStage::Retired { next, source: refused } && refused == source
            && stream.slots[next as int] == index,
{
}

/// A worker that is told to stop does nothing more for a target: it hands it no source, sends it
/// no frame, and has no media prepared for it. Told so before a pass, it is done.
pub proof fn law_stop_is_heeded(stream: Stream)
    requires
        stream.wf(),
        stream.stage is Looping || stream.stage is Offering || stream.stage is Visiting
            || stream.stage is Starting,
    ensures
        ({
            let next = stream_step(stream, StreamAnswer::Flag(true));
            &&& !(next.query is AcceptsSource || next.query is SourceRequest || next.query
                is SendFrame || next.query is StartPreparation)
            &&& stream.stage is Looping <==> next.query is Finished
        }),
{
}

/// At most one source is asked for in a pass, and it is that of the first target which wants one:
/// what was asked for stays until the pass is over, and no other target is asked.
pub proof fn law_first_request_is_kept(stream: Stream, answer: StreamAnswer)
    requires
        stream.wf(),
        stream.accepts(answer),
        stream.request is Some,
        holds_targets(stream.stage),
    ensures
        stream_step(stream, answer).stream.request == stream.request,
        !(stream_step(stream, answer).query is SourceRequest),
{
}

/// The USB errors in a row after a run of frames that starts with none.
pub open spec fn errors_after(outcomes: Seq<FrameOutcome>) -> int
    decreases outcomes.len(),
{
    if outcomes.len() == 0 {
        0
    } else {
        errors_with(errors_after(outcomes.drop_last()), outcomes.last())
    }
}

/// How many of the outcomes are USB errors.
pub open spec fn usb_errors(outcomes: Seq<FrameOutcome>) -> int
    decreases outcomes.len(),
{
    if outcomes.len() == 0 {
        0
    } else {
        usb_errors(outcomes.drop_last()) + if outcomes.last() is Usb {
            1int
        } else {
            0int
        }
    }
}

/// A target is given up for USB errors only when three of them have come since the last frame that
/// got through: the errors in a row are exactly the USB errors since then, whatever else came in
/// between.
pub proof fn law_errors_count_from_the_last_frame_sent(outcomes: Seq<FrameOutcome>, start: int)
    requires
        0 <= start <= outcomes.len(),
        start == 0 || outcomes[start - 1] is Sent,
        forall|i: int| start <= i < outcomes.len() ==> !((#[trigger] outcomes[i]) is Sent),
    ensures
        errors_after(outcomes) == usb_errors(outcomes.skip(start)),
    decreases outcomes.len(),
{
    if start == outcomes.len() {
        assert(outcomes.skip(start) =~= Seq::empty());
        if outcomes.len() > 0 {
            assert(outcomes.last() == outcomes[start - 1]);
        }
    } else {
        let front = outcomes.drop_last();
        assert(forall|i: int| 0 <= i < front.len() ==> front[i] == outcomes[i]);
        law_errors_count_from_the_last_frame_sent(front, start);
        assert(outcomes.skip(start).drop_last() =~= front.skip(start));
        assert(outcomes.skip(start).last() == outcomes.last());
        assert(!(outcomes[outcomes.len() - 1] is Sent));
    }
}

} // verus!
