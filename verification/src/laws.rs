//! What holds of the service loop as a whole, over its turns and over whole runs.

pub mod devices;
pub mod events;
pub mod mailbox;
pub mod poll;
pub mod startup;
pub mod streaming;

use crate::event::{inner_event, label_of, permit_of, DaemonEvent, Handle};
use crate::lcd::LcdTarget;
use crate::poll::{poll_step, service_effects};
use crate::run::{
    bindings, clean_step, close, config_step, event_step, handle, law_every_answer_is_expected,
    lcd_ready, lcd_step, lemma_poll_step_keeps_wf, listen_step, polling_step, release, run_step,
    startup_step, unbindings,
};
use crate::state::{poll_awaits, Next, Phase, PollStage, State};
use crate::turn::{Answer, Effect, Query};
use vstd::prelude::*;

verus! {

/// What has been opened and not yet closed again, and what else is to be accounted for.
#[verifier::ext_equal]
pub struct Ledger {
    /// Whether something was done out of order.
    pub fault: bool,
    /// Whether the operation monitor watches an operation.
    pub watching: bool,
    /// Whether the event queue is open.
    pub queue: bool,
    /// Whether the streaming worker runs.
    pub streaming: bool,
    /// The permits that were released.
    pub released: Seq<Handle>,
    pub shutdowns: nat,
    /// How often the poll gate was opened.
    pub dequeued: nat,
}

/// What an effect makes of the ledger. Operations are not nested; nothing is sent to a queue that
/// is not open, and no device poll is, because those go through the poll gate; the streaming worker
/// runs only while the queue is open or has just been closed, and is stopped before the shutdown.
pub open spec fn noted(ledger: Ledger, effect: Effect) -> Ledger {
    match effect {
        Effect::Enter { .. } => Ledger {
            fault: ledger.fault || ledger.watching,
            watching: true,
            ..ledger
        },
        Effect::Leave => Ledger {
            fault: ledger.fault || !ledger.watching,
            watching: false,
            ..ledger
        },
        Effect::OpenQueue => Ledger { fault: ledger.fault || ledger.queue, queue: true, ..ledger },
        Effect::CloseQueue => Ledger {
            fault: ledger.fault || !ledger.queue,
            queue: false,
            ..ledger
        },
        Effect::Send { event } => Ledger {
            fault: ledger.fault || !ledger.queue || inner_event(event) is DevicePoll,
            ..ledger
        },
        Effect::SpawnStreaming => Ledger {
            fault: ledger.fault || ledger.streaming || !ledger.queue,
            streaming: true,
            ..ledger
        },
        Effect::WakeStreaming => Ledger { fault: ledger.fault || !ledger.streaming, ..ledger },
        Effect::StopStreaming => Ledger {
            fault: ledger.fault || !ledger.streaming,
            streaming: false,
            ..ledger
        },
        Effect::ReleasePermit { permit } => Ledger {
            released: ledger.released.push(permit),
            ..ledger
        },
        Effect::Shutdown => Ledger {
            fault: ledger.fault || ledger.streaming,
            shutdowns: ledger.shutdowns + 1,
            ..ledger
        },
        Effect::DequeuePoll => Ledger { dequeued: ledger.dequeued + 1, ..ledger },
        _ => ledger,
    }
}

/// What a run of effects makes of the ledger.
pub open spec fn tally(ledger: Ledger, effects: Seq<Effect>) -> Ledger
    decreases effects.len(),
{
    if effects.len() == 0 {
        ledger
    } else {
        noted(tally(ledger, effects.drop_last()), effects.last())
    }
}

broadcast proof fn lemma_tally_push(ledger: Ledger, effects: Seq<Effect>, effect: Effect)
    ensures
        #[trigger] tally(ledger, effects.push(effect)) == noted(tally(ledger, effects), effect),
{
    assert(effects.push(effect).drop_last() =~= effects);
}

broadcast proof fn lemma_tally_add(ledger: Ledger, first: Seq<Effect>, second: Seq<Effect>)
    ensures
        #[trigger] tally(ledger, first + second) == tally(tally(ledger, first), second),
    decreases second.len(),
{
    if second.len() == 0 {
        assert(first + second =~= first);
    } else {
        assert((first + second).drop_last() =~= first + second.drop_last());
        lemma_tally_add(ledger, first, second.drop_last());
    }
}

broadcast proof fn lemma_tally_empty(ledger: Ledger)
    ensures
        #[trigger] tally(ledger, Seq::empty()) == ledger,
{
}

/// Whether the ledger does not account for the effect.
pub open spec fn unaccounted(effect: Effect) -> bool {
    match effect {
        Effect::Enter { .. } | Effect::Leave | Effect::OpenQueue | Effect::CloseQueue
        | Effect::Send { .. } | Effect::SpawnStreaming | Effect::WakeStreaming
        | Effect::StopStreaming | Effect::ReleasePermit { .. } | Effect::Shutdown
        | Effect::DequeuePoll => false,
        _ => true,
    }
}

proof fn lemma_tally_unaccounted(ledger: Ledger, effects: Seq<Effect>)
    requires
        forall|i: int| 0 <= i < effects.len() ==> unaccounted(#[trigger] effects[i]),
    ensures
        tally(ledger, effects) == ledger,
    decreases effects.len(),
{
    if effects.len() > 0 {
        let front = effects.drop_last();
        assert(forall|i: int| 0 <= i < front.len() ==> front[i] == effects[i]);
        lemma_tally_unaccounted(ledger, front);
        assert(unaccounted(effects[effects.len() - 1]));
    }
}

broadcast proof fn lemma_tally_service(ledger: Ledger, targets: Seq<LcdTarget>)
    ensures
        #[trigger] tally(ledger, service_effects(targets)) == ledger,
    decreases targets.len(),
{
    if targets.len() > 0 {
        let target_index = targets.last().index;
        let front = service_effects(targets.drop_last());
        let recovery = Effect::StartRecovery { target_index, wait_millis: 0 };
        let brightness = Effect::FlushPendingBrightness { target_index };
        lemma_tally_service(ledger, targets.drop_last());
        lemma_tally_push(ledger, front, recovery);
        lemma_tally_push(ledger, front.push(recovery), brightness);
    }
}

broadcast proof fn lemma_tally_bind(ledger: Ledger, macs: Seq<[u8; 6]>)
    ensures
        #[trigger] tally(ledger, bindings(macs)) == ledger,
{
    lemma_tally_unaccounted(ledger, bindings(macs));
}

broadcast proof fn lemma_tally_unbind(ledger: Ledger, macs: Seq<[u8; 6]>)
    ensures
        #[trigger] tally(ledger, unbindings(macs)) == ledger,
{
    lemma_tally_unaccounted(ledger, unbindings(macs));
}

broadcast group group_tally {
    lemma_tally_push,
    lemma_tally_add,
    lemma_tally_empty,
    lemma_tally_service,
    lemma_tally_bind,
    lemma_tally_unbind,
}

/// What is open while the loop waits in that phase, with nothing else accounted for yet.
pub open spec fn books(phase: Phase) -> Ledger {
    Ledger {
        fault: false,
        watching: match phase {
            Phase::Stopped | Phase::Monitor | Phase::Initialized | Phase::Listening => false,
            _ => true,
        },
        queue: match phase {
            Phase::Stopped | Phase::Monitor | Phase::Config | Phase::Stopping => false,
            _ => true,
        },
        streaming: match phase {
            Phase::Stopped | Phase::Monitor | Phase::Config | Phase::StartupQueued
            | Phase::Initialized | Phase::Stopping => false,
            _ => true,
        },
        released: Seq::empty(),
        shutdowns: 0,
        dequeued: 0,
    }
}

/// Whether a step starts to handle a device poll.
pub open spec fn takes_up_poll(state: State, answer: Answer) -> bool {
    &&& state.phase is Listening
    &&& answer matches Answer::Event { event: Some(event), shutdown_requested }
    &&& !shutdown_requested
    &&& inner_event(event) is DevicePoll
}

/// The permit that the loop holds while it takes a step: that of the event that it is handling, or
/// of the one that it has just received.
pub open spec fn permit_at(state: State, answer: Answer) -> Option<Handle> {
    match (state.phase, answer) {
        (Phase::Listening, Answer::Event { event: Some(event), .. }) => permit_of(event),
        _ => state.permit,
    }
}

/// The permit that a query hands over for good.
pub open spec fn handed_over(query: Query) -> Option<Handle> {
    match query {
        Query::StartStartupImage { permit, .. } => permit,
        _ => None,
    }
}

/// Whether a step leaves everything as it is to be: what it opens and closes is what is open in the
/// next phase, a permit that was held is kept, or released once, or handed over, the shutdown is
/// performed where the loop ends and nowhere else, and the poll gate is opened where a device poll
/// is taken up and nowhere else.
pub open spec fn orderly(
    before: Ledger,
    held: Option<Handle>,
    next: Next,
    ends: bool,
    polls: bool,
) -> bool {
    let after = tally(before, next.plan.effects);
    let kept = next.state.permit;
    let gone = handed_over(next.plan.query);
    &&& after == (Ledger {
        released: after.released,
        shutdowns: if next.state.phase is Stopping || ends {
            1
        } else {
            0
        },
        dequeued: if polls {
            1
        } else {
            0
        },
        ..books(next.state.phase)
    })
    &&& match held {
        Some(permit) => {
            ||| kept == Some(permit) && after.released.len() == 0 && gone is None
            ||| kept is None && after.released == seq![permit] && gone is None
            ||| kept is None && after.released.len() == 0 && gone == Some(permit)
        },
        None => kept is None && after.released.len() == 0 && gone is None,
    }
}

/// What the end of the loop makes of the ledger.
proof fn lemma_tally_close(ledger: Ledger, state: State, effects: Seq<Effect>)
    ensures
        ({
            let before = tally(ledger, effects);
            tally(ledger, close(state, effects).plan.effects) == Ledger {
                fault: before.fault || before.watching || !before.queue || !before.streaming,
                watching: true,
                queue: false,
                streaming: false,
                shutdowns: before.shutdowns + 1,
                ..before
            }
        }),
{
    reveal_with_fuel(tally, 5);
    lemma_tally_add(
        ledger,
        effects,
        seq![
            Effect::CloseQueue,
            Effect::Enter { label: "shutdown" },
            Effect::StopStreaming,
            Effect::Shutdown,
        ],
    );
}

#[verifier::rlimit(40)]
proof fn lemma_handle_is_orderly(state: State, event: DaemonEvent, entered: Seq<Effect>)
    requires
        state.poll is Idle,
        entered.len() == 1,
        entered[0] is Enter,
    ensures
        orderly(
            books(Phase::Listening),
            state.permit,
            handle(state, event, entered),
            false,
            event is DevicePoll,
        ),
{
    broadcast use group_tally;

    let before = books(Phase::Listening);
    assert(entered =~= Seq::empty().push(entered[0]));
    lemma_tally_close(before, state, entered.push(Effect::Leave) + release(state.permit));
    let chores = seq![
        Effect::PollStartupImage,
        Effect::RefreshAfterModeSwitch,
        Effect::CheckPixelCleanSessions,
    ];
    assert(seq![
        Effect::DequeuePoll,
        Effect::PollStartupImage,
        Effect::RefreshAfterModeSwitch,
        Effect::CheckPixelCleanSessions,
    ] =~= seq![Effect::DequeuePoll] + chores);
    lemma_tally_unaccounted(tally(before, entered.push(Effect::DequeuePoll)), chores);
}

proof fn lemma_startup_is_orderly(state: State, answer: Answer)
    requires
        state.wf(),
        state.phase is Stopped || state.phase is Monitor || state.phase is Config
            || state.phase is StartupQueued || state.phase is Initialized,
        answer.kind() == state.awaits(),
    ensures
        ({
            let next = startup_step(state, answer);
            orderly(books(state.phase), None, next, next.plan.query is Finished, false)
        }),
{
    reveal_with_fuel(tally, 5);
    broadcast use group_tally;

}

proof fn lemma_config_is_orderly(state: State, answer: Answer)
    requires
        state.wf(),
        state.phase is OldBackend || state.phase is LoadingConfig || state.phase is NewBackend
            || state.phase is FanMatch || state.phase is AioReady || state.phase is ThermalReady,
        answer.kind() == state.awaits(),
    ensures
        orderly(books(state.phase), state.permit, config_step(state, answer), false, false),
{
    broadcast use group_tally;

    let before = books(state.phase);
    lemma_tally_close(before, state, Seq::empty().push(Effect::Leave) + release(state.permit));
    let next = config_step(state, answer);
    if state.phase is AioReady {
        lemma_tally_unaccounted(before, next.plan.effects);
    }
    lemma_tally_unaccounted(before, seq![Effect::UpdateThermalSettings, Effect::SyncIpcState]);
}

proof fn lemma_lcd_is_orderly(state: State, answer: Answer)
    requires
        state.wf(),
        state.phase is Removal || state.phase is RecreateIdentity || state.phase is RecreateAsset
            || state.phase is RecreateTarget || state.phase is LcdReady
            || state.phase is Brightness,
        answer.kind() == state.awaits(),
    ensures
        orderly(books(state.phase), state.permit, lcd_step(state, answer), false, false),
{
    broadcast use group_tally;

    let before = books(state.phase);
    match (state.phase, answer) {
        (Phase::Removal { target_index, key, error }, _) => {
            lemma_tally_unaccounted(
                before,
                seq![
                    Effect::RemoveTarget { target_index },
                    Effect::RecordPlaybackFailure { target_index, key, error },
                    Effect::DropRemovedTarget,
                ],
            );
        },
        (Phase::LcdReady { device_id, error }, Answer::Targets(targets)) => {
            let effects = lcd_ready(targets@, device_id, error);
            if effects.len() > 0 {
                assert(effects.last() is WakeStreaming);
                lemma_tally_unaccounted(before, effects.drop_last());
            }
        },
        _ => {},
    }
}

proof fn lemma_clean_is_orderly(state: State, answer: Answer)
    requires
        state.wf(),
        state.phase is CleanDeadline || state.phase is CleanSession || state.phase is CleanReplied
            || state.phase is CleanStopped,
        answer.kind() == state.awaits(),
    ensures
        orderly(books(state.phase), state.permit, clean_step(state, answer), false, false),
{
    broadcast use group_tally;

}

proof fn lemma_event_is_orderly(state: State, answer: Answer)
    requires
        state.wf(),
        state.phase is UsbConnected || state.phase is StartupImage
            || state.phase is WirelessOperation || state.phase is FanQuantity
            || state.phase is OpenRgb || state.phase is Resync || state.phase is BindAll
            || state.phase is UnbindAll || state.phase is ResumedRgb,
        answer.kind() == state.awaits(),
    ensures
        orderly(books(state.phase), state.permit, event_step(state, answer), false, false),
{
    broadcast use group_tally;

    let before = books(state.phase);
    lemma_tally_unaccounted(
        before,
        seq![Effect::StartOpenRgbServer, Effect::ClearOpenRgbRetry],
    );
    let resumed = seq![
        Effect::RebuildRgbController,
        Effect::RestartFanControl,
        Effect::StartAioControl,
        Effect::SyncIpcState,
    ];
    lemma_tally_unaccounted(before, resumed);
}

proof fn lemma_listen_is_orderly(state: State, answer: Answer)
    requires
        state.wf(),
        state.phase is Listening || state.phase is Stopping,
        answer.kind() == state.awaits(),
    ensures
        orderly(
            books(state.phase),
            permit_at(state, answer),
            listen_step(state, answer),
            false,
            takes_up_poll(state, answer),
        ),
{
    broadcast use group_tally;

    let before = books(state.phase);
    match answer {
        Answer::Event { event: Some(event), .. } => {
            let inner = inner_event(event);
            lemma_handle_is_orderly(
                State { permit: permit_of(event), ..state },
                inner,
                seq![Effect::Enter { label: label_of(inner) }],
            );
            lemma_tally_close(
                before,
                state,
                release(permit_of(event)).push(Effect::Discard { event: inner }),
            );
        },
        _ => {
            lemma_tally_close(before, state, Seq::empty());
        },
    }
}

proof fn lemma_poll_is_orderly(ledger: Ledger, state: State, answer: Answer)
    requires
        state.poll_wf(),
        answer.kind() == poll_awaits(state.poll),
        ledger.queue,
    ensures
        tally(ledger, poll_step(state, answer).plan.effects) == ledger,
        handed_over(poll_step(state, answer).plan.query) is None,
{
    broadcast use group_tally;

    let effects = poll_step(state, answer).plan.effects;
    match state.poll {
        PollStage::Prepared | PollStage::Resume | PollStage::Servicing => {},
        _ => {
            lemma_tally_unaccounted(ledger, effects);
        },
    }
}

proof fn lemma_polling_is_orderly(state: State, answer: Answer, may_exit: bool)
    requires
        state.wf(),
        state.phase == (Phase::Polling { may_exit }),
        answer.kind() == state.awaits(),
    ensures
        orderly(
            books(state.phase),
            state.permit,
            polling_step(state, answer, may_exit),
            false,
            false,
        ),
{
    broadcast use group_tally;

    let before = books(state.phase);
    let next = poll_step(state, answer);
    lemma_poll_is_orderly(before, state, answer);
    lemma_poll_step_keeps_wf(state, answer);
    lemma_tally_close(
        before,
        next.state,
        next.plan.effects.push(Effect::Leave) + release(next.state.permit),
    );
}

/// The turns of the service loop keep everything in order, whatever they are answered: operations
/// are entered and left in turn and never nested; a queue that was opened is closed again before
/// the loop is over, and nothing is sent but to an open queue, and no device poll; the streaming
/// worker is stopped before the shutdown; the shutdown is performed where the loop ends and nowhere
/// else; the poll gate is opened once for each device poll that is taken up, and never otherwise;
/// and the permit that an event came with is held while the event is handled, and is then released
/// once, unless it was handed over with a startup image.
pub proof fn law_every_turn_is_orderly(state: State, answer: Answer)
    requires
        state.wf(),
        answer.kind() == state.awaits(),
    ensures
        orderly(
            books(state.phase),
            permit_at(state, answer),
            run_step(state, answer),
            state.phase is Initialized && run_step(state, answer).plan.query is Finished,
            takes_up_poll(state, answer),
        ),
{
    match state.phase {
        Phase::Stopped | Phase::Monitor | Phase::Config | Phase::StartupQueued
        | Phase::Initialized => lemma_startup_is_orderly(state, answer),
        Phase::Listening | Phase::Stopping => lemma_listen_is_orderly(state, answer),
        Phase::Polling { may_exit } => lemma_polling_is_orderly(state, answer, may_exit),
        Phase::OldBackend | Phase::LoadingConfig { .. } | Phase::NewBackend { .. } | Phase::FanMatch
        | Phase::AioReady | Phase::ThermalReady => lemma_config_is_orderly(state, answer),
        Phase::Removal { .. } | Phase::RecreateIdentity { .. } | Phase::RecreateAsset { .. }
        | Phase::RecreateTarget { .. } | Phase::LcdReady { .. } | Phase::Brightness {
            ..
        } => lemma_lcd_is_orderly(state, answer),
        Phase::CleanDeadline { .. } | Phase::CleanSession { .. } | Phase::CleanReplied { .. }
        | Phase::CleanStopped { .. } => lemma_clean_is_orderly(state, answer),
        _ => lemma_event_is_orderly(state, answer),
    }
}

/// What other parts of the daemon may change between two turns.
pub struct Flags {
    pub restart_requested: bool,
    pub startup_image_job: bool,
    pub startup_config_pending: bool,
    pub cleaner_reload_pending: bool,
}

pub open spec fn with_flags(state: State, flags: Flags) -> State {
    State {
        restart_requested: flags.restart_requested,
        startup_image_job: flags.startup_image_job,
        startup_config_pending: flags.startup_config_pending,
        cleaner_reload_pending: flags.cleaner_reload_pending,
        ..state
    }
}

/// What the loop finds when it takes a turn.
pub struct Input {
    pub flags: Flags,
    pub answer: Answer,
}

/// The state that a conversation leads to.
pub open spec fn reached(state: State, inputs: Seq<Input>) -> State
    decreases inputs.len(),
{
    if inputs.len() == 0 {
        state
    } else {
        let input = inputs.last();
        run_step(with_flags(reached(state, inputs.drop_last()), input.flags), input.answer).state
    }
}

/// The last turn of a conversation.
pub open spec fn last_turn(state: State, inputs: Seq<Input>) -> Next {
    let input = inputs.last();
    run_step(with_flags(reached(state, inputs.drop_last()), input.flags), input.answer)
}

/// All effects of a conversation, in order.
pub open spec fn performed(state: State, inputs: Seq<Input>) -> Seq<Effect>
    decreases inputs.len(),
{
    if inputs.len() == 0 {
        Seq::empty()
    } else {
        performed(state, inputs.drop_last()) + last_turn(state, inputs).plan.effects
    }
}

/// Whether each answer is one that the loop waits for.
pub open spec fn converses(state: State, inputs: Seq<Input>) -> bool
    decreases inputs.len(),
{
    inputs.len() > 0 ==> {
        &&& converses(state, inputs.drop_last())
        &&& inputs.last().answer.kind() == reached(state, inputs.drop_last()).awaits()
    }
}

/// Whether the loop is over after that turn.
pub open spec fn is_over(query: Query) -> bool {
    query is Finished || query is Failed
}

/// Whether the conversation is a single run of the loop, over or still under way.
pub open spec fn single_run(state: State, inputs: Seq<Input>) -> bool {
    &&& state.wf()
    &&& state.phase is Stopped
    &&& converses(state, inputs)
    &&& forall|i: int|
        0 < i < inputs.len() ==> !is_over((#[trigger] last_turn(state, inputs.take(i))).plan.query)
}

proof fn lemma_tally_from(ledger: Ledger, effects: Seq<Effect>)
    ensures
        ({
            let fresh = tally(
                Ledger { released: Seq::empty(), shutdowns: 0, dequeued: 0, ..ledger },
                effects,
            );
            tally(ledger, effects) == Ledger {
                released: ledger.released + fresh.released,
                shutdowns: ledger.shutdowns + fresh.shutdowns,
                dequeued: ledger.dequeued + fresh.dequeued,
                ..fresh
            }
        }),
    decreases effects.len(),
{
    if effects.len() == 0 {
        assert(ledger.released + Seq::<Handle>::empty() =~= ledger.released);
    } else {
        lemma_tally_from(ledger, effects.drop_last());
        let fresh = tally(
            Ledger { released: Seq::empty(), shutdowns: 0, dequeued: 0, ..ledger },
            effects.drop_last(),
        );
        if let Effect::ReleasePermit { permit } = effects.last() {
            assert((ledger.released + fresh.released).push(permit) =~= ledger.released
                + fresh.released.push(permit));
        }
    }
}

/// Over a whole run of the loop nothing is done out of order and everything that was opened is
/// closed again; a run that finishes has performed the shutdown exactly once, one that could not
/// start has not, and one that is still under way has not unless it is about to finish.
pub proof fn law_a_run_shuts_down_once(state: State, inputs: Seq<Input>)
    requires
        single_run(state, inputs),
        inputs.len() > 0,
    ensures
        ({
            let total = tally(books(Phase::Stopped), performed(state, inputs));
            let now = reached(state, inputs);
            let query = last_turn(state, inputs).plan.query;
            &&& now.wf()
            &&& total == (Ledger {
                released: total.released,
                dequeued: total.dequeued,
                shutdowns: if now.phase is Stopping || query is Finished {
                    1
                } else {
                    0
                },
                ..books(now.phase)
            })
            &&& is_over(query) <==> now.phase is Stopped
        }),
    decreases inputs.len(),
{
    let front = inputs.drop_last();
    let input = inputs.last();
    let before = with_flags(reached(state, front), input.flags);
    let next = last_turn(state, inputs);
    let ledger = books(Phase::Stopped);
    lemma_tally_add(ledger, performed(state, front), next.plan.effects);
    if front.len() > 0 {
        assert forall|i: int| 0 < i < front.len() implies !is_over(
            (#[trigger] last_turn(state, front.take(i))).plan.query,
        ) by {
            assert(front.take(i) =~= inputs.take(i));
        }
        assert(inputs.take(inputs.len() - 1) =~= front);
        assert(!is_over(last_turn(state, inputs.take(inputs.len() - 1)).plan.query));
        law_a_run_shuts_down_once(state, front);
    }
    law_every_answer_is_expected(before, input.answer);
    law_every_turn_is_orderly(before, input.answer);
    lemma_tally_from(tally(ledger, performed(state, front)), next.plan.effects);
    lemma_over_is_stopped(before, input.answer);
}

proof fn lemma_over_is_stopped(state: State, answer: Answer)
    requires
        state.wf(),
        answer.kind() == state.awaits(),
    ensures
        ({
            let next = run_step(state, answer);
            &&& is_over(next.plan.query) <==> next.state.phase is Stopped
            &&& next.plan.query is Finished ==> state.phase is Initialized || state.phase
                is Stopping
            &&& state.phase is Stopping ==> next.plan.query is Finished
        }),
{
    match (state.phase, answer) {
        (Phase::Polling { .. }, _) => lemma_poll_step_keeps_wf(state, answer),
        (Phase::Listening, Answer::Event { event: Some(event), .. }) => {
            let inner = inner_event(event);
            lemma_handling_is_not_over(
                State { permit: permit_of(event), ..state },
                inner,
                seq![Effect::Enter { label: label_of(inner) }],
            );
        },
        _ => {},
    }
}

proof fn lemma_handling_is_not_over(state: State, event: DaemonEvent, entered: Seq<Effect>)
    requires
        state.poll is Idle,
    ensures
        !is_over(handle(state, event, entered).plan.query),
        !(handle(state, event, entered).state.phase is Stopped),
{
}

/// The daemon starts again only where that was asked for and no signal told it to stop; and where
/// both is so when the loop has ended, it does start again.
pub proof fn law_restart_is_what_was_asked_for(state: State, answer: Answer)
    requires
        state.wf(),
        answer.kind() == state.awaits(),
    ensures
        run_step(state, answer).plan.query == (Query::Finished { restart: true }) <==> {
            &&& state.phase is Stopping
            &&& state.restart_requested
            &&& answer == Answer::Flag(false)
        },
{
    lemma_over_is_stopped(state, answer);
}

} // verus!
