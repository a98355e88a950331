//! What holds of a device poll as a whole, and that the handling of every event comes to an end.

use crate::event::Nanos;
use crate::laws::{with_flags, Flags, Input};
use crate::lcd::LcdTarget;
use crate::poll::{poll_step, service_effects};
use crate::run::{lemma_poll_step_keeps_wf, run_step};
use crate::state::{poll_awaits, Phase, PollStage, State};
use crate::turn::{Answer, Effect, Query};
use crate::wireless::{channel_next, count_poll, rebind_next, ChannelStreak, CountVerdict};
use vstd::prelude::*;

verus! {

/// The LCD that a poll keeps from streaming while it waits for an answer.
pub open spec fn lcd_held(poll: PollStage) -> Option<usize> {
    match poll {
        PollStage::FirmwareLock { target_index, .. } | PollStage::FirmwareRead {
            target_index,
            ..
        } => Some(target_index),
        _ => None,
    }
}

/// An LCD that was found idle for its firmware to be read is let go again when the poll is done
/// with it, and not before; no other LCD is.
pub proof fn law_idle_lcds_are_released(state: State, answer: Answer)
    requires
        state.poll_wf(),
        answer.kind() == poll_awaits(state.poll),
    ensures
        ({
            let next = poll_step(state, answer);
            let effects = next.plan.effects;
            match lcd_held(state.poll) {
                Some(target_index) if lcd_held(next.state.poll) is None => {
                    &&& effects.len() > 0
                    &&& effects.last() == (Effect::ReleaseLcd { target_index })
                    &&& forall|i: int|
                        0 <= i < effects.len() - 1 ==> !((#[trigger] effects[i]) is ReleaseLcd)
                },
                Some(target_index) => {
                    &&& lcd_held(next.state.poll) == Some(target_index)
                    &&& effects.len() == 0
                },
                None => {
                    &&& forall|i: int|
                        0 <= i < effects.len() ==> !((#[trigger] effects[i]) is ReleaseLcd)
                    &&& lcd_held(next.state.poll) matches Some(target_index) ==> state.poll
                        is FirmwareIdle && answer == Answer::Flag(true) && target_index
                        == state.poll->FirmwareIdle_target_index
                },
            }
        }),
{
    if state.poll is Servicing {
        if let Answer::Targets(targets) = answer {
            lemma_service_releases_nothing(targets@);
        }
    }
}

/// Firmware is read only from an LCD that was found idle, because a read would interrupt playback,
/// and that has been locked since.
pub proof fn law_firmware_reads_interrupt_no_stream(state: State, answer: Answer)
    requires
        state.poll_wf(),
        answer.kind() == poll_awaits(state.poll),
    ensures
        poll_step(state, answer).plan.query matches Query::ReadFirmware { target_index } ==> {
            &&& state.poll is FirmwareLock
            &&& lcd_held(state.poll) == Some(target_index)
            &&& answer == Answer::Flag(true)
        },
{
}

proof fn lemma_service_releases_nothing(targets: Seq<LcdTarget>)
    ensures
        forall|i: int|
            0 <= i < service_effects(targets).len() ==> !((
            #[trigger] service_effects(targets)[i]) is ReleaseLcd),
    decreases targets.len(),
{
    if targets.len() > 0 {
        lemma_service_releases_nothing(targets.drop_last());
    }
}

/// The device whose firmware read an effect brings to an end, for now or for good.
pub open spec fn settled_read(effect: Effect) -> Option<String> {
    match effect {
        Effect::ScheduleFirmwareRead { device_id, .. } => Some(device_id),
        Effect::RecordFirmware { device_id, .. } => Some(device_id),
        Effect::MarkFirmwareFailed { device_id } => Some(device_id),
        _ => None,
    }
}

/// Which of the devices whose firmware is due the poll is dealing with.
pub open spec fn read_at(poll: PollStage) -> Option<(Vec<(String, bool)>, usize)> {
    match poll {
        PollStage::FirmwareTargets { due, next } => Some((due, next)),
        PollStage::FirmwareIdle { due, next, .. } => Some((due, next)),
        PollStage::FirmwareLock { due, next, .. } => Some((due, next)),
        PollStage::FirmwareRead { due, next, .. } => Some((due, next)),
        _ => None,
    }
}

/// The devices whose firmware is due are dealt with one after the other, each of them once: before
/// the poll turns to the next device, or goes on after the last one, the read of this one has been
/// put off, recorded or given up, and that of no other device. Only a device that is not there, or
/// that is not an initialized HID target, may be passed over.
pub proof fn law_due_firmware_is_settled_once(state: State, answer: Answer)
    requires
        state.poll_wf(),
        answer.kind() == poll_awaits(state.poll),
        read_at(state.poll) is Some,
    ensures
        ({
            let (due, at) = read_at(state.poll)->0;
            let next = poll_step(state, answer);
            let effects = next.plan.effects;
            let same = read_at(next.state.poll) == Some((due, at));
            let moved = if at + 1 < due.len() {
                next.state.poll == (PollStage::FirmwareTargets { due, next: (at + 1) as usize })
            } else {
                next.state.poll is Thermal
            };
            &&& same || moved
            &&& same ==> effects.len() == 0
            &&& forall|i: int|
                0 <= i < effects.len() ==> (settled_read(#[trigger] effects[i]) matches Some(
                    device_id,
                ) ==> device_id == due@[at as int].0)
            &&& forall|i: int, j: int|
                0 <= i < effects.len() && 0 <= j < effects.len() && settled_read(
                    #[trigger] effects[i],
                ) is Some && settled_read(#[trigger] effects[j]) is Some ==> i == j
            &&& moved && !(state.poll is FirmwareTargets) ==> exists|i: int|
                0 <= i < effects.len() && settled_read(#[trigger] effects[i]) is Some
        }),
{
    let (due, at) = read_at(state.poll)->0;
    let effects = poll_step(state, answer).plan.effects;
    if effects.len() > 0 && settled_read(effects[0]) is None {
        assert(settled_read(effects[1]) is Some);
    }
}

/// What a device poll was told about the wireless devices.
#[verifier::ext_equal]
pub struct Sighting {
    /// How many devices there are.
    pub count: Option<usize>,
    /// The candidates for being bound again, the ids that the configuration names, and the time.
    pub rebind: Option<(Seq<[u8; 6]>, Seq<String>, Nanos)>,
    /// What the channel arbitration asks for.
    pub channel: Option<Option<u8>>,
}

/// What an answer adds.
pub open spec fn sighting_with(seen: Sighting, answer: Answer) -> Sighting {
    match answer {
        Answer::Count(count) => Sighting { count: Some(count), ..seen },
        Answer::Rebind { configured, now, candidates } => Sighting {
            rebind: Some((candidates@, configured@, now)),
            ..seen
        },
        Answer::Channel(target) => Sighting { channel: Some(target), ..seen },
        _ => seen,
    }
}

/// What a poll was told by all of its answers.
pub open spec fn sighted(inputs: Seq<Input>) -> Sighting
    decreases inputs.len(),
{
    if inputs.len() == 0 {
        Sighting { count: None, rebind: None, channel: None }
    } else {
        sighting_with(sighted(inputs.drop_last()), inputs.last().answer)
    }
}

/// The state that a run of turns of a device poll leads to.
pub open spec fn poll_reached(state: State, inputs: Seq<Input>) -> State
    decreases inputs.len(),
{
    if inputs.len() == 0 {
        state
    } else {
        let input = inputs.last();
        let before = with_flags(poll_reached(state, inputs.drop_last()), input.flags);
        poll_step(before, input.answer).state
    }
}

/// Whether the inputs make up one device poll, over or still under way.
pub open spec fn single_poll(state: State, inputs: Seq<Input>) -> bool {
    &&& state.poll_wf()
    &&& state.poll is Idle
    &&& forall|i: int|
        0 <= i < inputs.len() ==> (#[trigger] inputs[i]).answer.kind() == poll_awaits(
            poll_reached(state, inputs.take(i)).poll,
        )
    &&& forall|i: int|
        0 < i < inputs.len() ==> !((#[trigger] poll_reached(state, inputs.take(i))).poll is Idle)
}

/// What becomes of the log of rebinds, given what a poll was told.
pub open spec fn log_after(log: Map<[u8; 6], Nanos>, seen: Sighting) -> Map<[u8; 6], Nanos> {
    match seen.rebind {
        Some((candidates, configured, now)) => rebind_next(candidates, configured, log, now),
        None => log,
    }
}

/// What becomes of the channel streak, given what a poll was told.
pub open spec fn streak_after(streak: ChannelStreak, seen: Sighting) -> ChannelStreak {
    match seen.channel {
        Some(target) => channel_next(streak, target),
        None => streak,
    }
}

/// What a poll that has come that far remembers.
spec fn remembers(before: State, now: State, seen: Sighting) -> bool {
    let start = before.wireless_count;
    let counted = seen.count is Some && now.wireless_count == count_poll(start, seen.count->0);
    &&& now.poll_wf()
    &&& now.wireless_rebind_last == log_after(before.wireless_rebind_last, seen)
    &&& now.wireless_channel_streak == streak_after(before.wireless_channel_streak, seen)
    &&& match now.poll {
        PollStage::Prepared | PollStage::Resume | PollStage::Devices => {
            &&& seen == (Sighting { count: None, rebind: None, channel: None })
            &&& now.wireless_count == start
        },
        PollStage::Rebuilt { count } => {
            &&& seen == (Sighting { count: Some(count), rebind: None, channel: None })
            &&& start.verdict(count) == CountVerdict::Rebuild
        },
        PollStage::Topology | PollStage::RebindBusy | PollStage::RebindCandidates => {
            &&& counted
            &&& seen.rebind is None
            &&& seen.channel is None
        },
        PollStage::ChannelBusy | PollStage::ChannelTarget => counted && seen.channel is None,
        _ => counted,
    }
}

proof fn lemma_poll_goes_on_remembering(
    before: State,
    now: State,
    seen: Sighting,
    flags: Flags,
    answer: Answer,
)
    requires
        remembers(before, now, seen),
        !(now.poll is Idle),
        answer.kind() == poll_awaits(now.poll),
    ensures
        remembers(
            before,
            poll_step(with_flags(now, flags), answer).state,
            sighting_with(seen, answer),
        ),
{
    lemma_poll_step_keeps_wf(with_flags(now, flags), answer);
}

proof fn lemma_poll_remembers(state: State, inputs: Seq<Input>)
    requires
        single_poll(state, inputs),
        inputs.len() > 0,
    ensures
        remembers(state, poll_reached(state, inputs), sighted(inputs)),
    decreases inputs.len(),
{
    let front = inputs.drop_last();
    let input = inputs.last();
    let last = inputs.len() - 1;
    assert(inputs.take(last) =~= front);
    assert(inputs[last] == input);
    if front.len() > 0 {
        assert forall|i: int| 0 <= i < front.len() implies (
        #[trigger] front[i]).answer.kind() == poll_awaits(
            poll_reached(state, front.take(i)).poll,
        ) by {
            assert(front[i] == inputs[i]);
            assert(front.take(i) =~= inputs.take(i));
        }
        assert forall|i: int| 0 < i < front.len() implies !((
        #[trigger] poll_reached(state, front.take(i))).poll is Idle) by {
            assert(front.take(i) =~= inputs.take(i));
        }
        lemma_poll_remembers(state, front);
        assert(!(poll_reached(state, inputs.take(last)).poll is Idle));
        lemma_poll_goes_on_remembering(
            state,
            poll_reached(state, front),
            sighted(front),
            input.flags,
            input.answer,
        );
    }
}

/// A device poll takes in exactly once how many wireless devices there are, and at most once which
/// of them could be bound again and which channel is asked for; when it is over, the loop remembers
/// what follows from that, and nothing else about the wireless devices has changed.
pub proof fn law_a_poll_takes_in_what_it_sees(state: State, inputs: Seq<Input>)
    requires
        single_poll(state, inputs),
        inputs.len() > 0,
        poll_reached(state, inputs).poll is Idle,
    ensures
        ({
            let now = poll_reached(state, inputs);
            let seen = sighted(inputs);
            &&& seen.count is Some
            &&& now.wireless_count == count_poll(state.wireless_count, seen.count->0)
            &&& now.wireless_rebind_last == log_after(state.wireless_rebind_last, seen)
            &&& now.wireless_channel_streak == streak_after(state.wireless_channel_streak, seen)
            &&& now.poll_wf()
        }),
{
    lemma_poll_remembers(state, inputs);
}

/// How much of a device poll is still to come: first what comes before the devices whose firmware
/// is due are known, then the rest.
pub open spec fn poll_left(poll: PollStage) -> (nat, nat) {
    match poll {
        PollStage::Idle => (1, 11),
        PollStage::Prepared => (1, 10),
        PollStage::Resume => (1, 9),
        PollStage::Devices => (1, 8),
        PollStage::Rebuilt { .. } | PollStage::Topology => (1, 7),
        PollStage::RebindBusy => (1, 6),
        PollStage::RebindCandidates => (1, 5),
        PollStage::ChannelBusy => (1, 4),
        PollStage::ChannelTarget => (1, 3),
        PollStage::Servicing => (1, 2),
        PollStage::FirmwareDue => (1, 1),
        PollStage::FirmwareTargets { due, next } => (0, firmware_left(due, next, 3)),
        PollStage::FirmwareIdle { due, next, .. } => (0, firmware_left(due, next, 2)),
        PollStage::FirmwareLock { due, next, .. } => (0, firmware_left(due, next, 1)),
        PollStage::FirmwareRead { due, next, .. } => (0, firmware_left(due, next, 0)),
        PollStage::Thermal => (0, 1),
        PollStage::Finishing => (0, 0),
    }
}

pub open spec fn firmware_left(due: Vec<(String, bool)>, next: usize, turns: nat) -> nat {
    (4 * (due.len() - next) + turns) as nat
}

/// How much of the handling of an event is still to come before a device poll, if there is one, or
/// else before the next event.
pub open spec fn phase_left(phase: Phase) -> nat {
    match phase {
        Phase::OldBackend => 6,
        Phase::LoadingConfig { .. } => 5,
        Phase::NewBackend { .. } => 4,
        Phase::FanMatch => 3,
        Phase::AioReady => 2,
        Phase::RecreateIdentity { .. } | Phase::CleanDeadline { .. } => 3,
        Phase::RecreateAsset { .. } | Phase::CleanSession { .. } => 2,
        _ => 1,
    }
}

/// Whether an event is being handled.
pub open spec fn handling(phase: Phase) -> bool {
    match phase {
        Phase::Stopped | Phase::Monitor | Phase::Config | Phase::StartupQueued | Phase::Initialized
        | Phase::Listening | Phase::Stopping => false,
        _ => true,
    }
}

/// How much of the handling of an event is still to come. The parts are to be compared one after
/// the other, the first that differs counting.
pub open spec fn work_left(state: State) -> (nat, nat, nat) {
    if state.phase is Polling {
        (0, poll_left(state.poll).0, poll_left(state.poll).1)
    } else {
        (phase_left(state.phase), 0, 0)
    }
}

/// Whether there is less work left.
pub open spec fn less_work(after: (nat, nat, nat), before: (nat, nat, nat)) -> bool {
    ||| after.0 < before.0
    ||| after.0 == before.0 && after.1 < before.1
    ||| after.0 == before.0 && after.1 == before.1 && after.2 < before.2
}

proof fn lemma_poll_goes_on(state: State, answer: Answer)
    requires
        state.poll_wf(),
        answer.kind() == poll_awaits(state.poll),
    ensures
        ({
            let next = poll_step(state, answer).state.poll;
            let after = poll_left(next);
            let before = poll_left(state.poll);
            next is Idle || less_work((0, after.0, after.1), (0, before.0, before.1))
        }),
{
}

/// The handling of every event comes to an end, whatever is answered: each turn either ends it, so
/// that the loop waits for the next event or ends itself, or leaves less of it to come.
pub proof fn law_every_event_is_finished(state: State, answer: Answer)
    requires
        state.wf(),
        answer.kind() == state.awaits(),
        handling(state.phase),
    ensures
        ({
            let next = run_step(state, answer).state;
            ||| next.phase is Listening
            ||| next.phase is Stopping
            ||| handling(next.phase) && less_work(work_left(next), work_left(state))
        }),
{
    if state.phase is Polling {
        lemma_poll_goes_on(state, answer);
        lemma_poll_step_keeps_wf(state, answer);
    }
}

} // verus!
