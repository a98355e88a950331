//! The device poll: what the service loop does about its devices, about once a second.

use crate::event::DaemonEvent;
use crate::lcd::{find_target, target_by_identity, LcdTarget};
use crate::state::{go, poll_awaits, Next, PollStage, ServiceState, State};
use crate::turn::{no_effects, one_effect, Answer, Effect, FirmwareReading, Query, Turn};
use crate::wireless::{
    channel_next, channel_switch, rebind_choice, rebind_next, run_wireless_channel_supervisor,
    run_wireless_rebind_supervisor, CountVerdict, WirelessCount,
};
use vstd::prelude::*;

verus! {

/// Seconds after which a firmware read that could not be made is tried again.
pub const FIRMWARE_RETRY_SECS: u64 = 10;

/// How long to wait for the lock of an LCD whose firmware is to be read, in milliseconds.
pub const FIRMWARE_LOCK_MILLIS: u64 = 500;

/// What is done for each target: its recovery thread is started if that was put off, without
/// waiting for a busy LCD, and a brightness that could not be set yet is.
pub open spec fn service_effects(targets: Seq<LcdTarget>) -> Seq<Effect>
    decreases targets.len(),
{
    if targets.len() == 0 {
        Seq::empty()
    } else {
        let target_index = targets.last().index;
        service_effects(targets.drop_last()).push(
            Effect::StartRecovery { target_index, wait_millis: 0 },
        ).push(Effect::FlushPendingBrightness { target_index })
    }
}

/// What is done about a thermal alert.
pub open spec fn thermal_effects(rgb_present: bool) -> Seq<Effect> {
    if rgb_present {
        seq![Effect::CheckThermalOverride]
    } else {
        Seq::empty()
    }
}

/// The wired devices are looked after, once the wireless ones have been.
pub open spec fn wired(state: State, effects: Seq<Effect>) -> Next {
    go(
        State { poll: PollStage::Servicing, ..state },
        effects + seq![
            Effect::CheckWiredHotplug,
            Effect::ReconcileWiredWirelessBinding,
            Effect::RefreshTargets,
        ],
        Query::Targets { attachment: None },
    )
}

/// The firmware read for a device is put off.
pub open spec fn put_off(device: (String, bool)) -> Effect {
    Effect::ScheduleFirmwareRead {
        device_id: device.0,
        delay_secs: FIRMWARE_RETRY_SECS,
        enable_512: device.1,
    }
}

/// The next device whose firmware is due is looked for, or the poll goes on.
pub open spec fn firmware_from(
    state: State,
    due: Vec<(String, bool)>,
    next: usize,
    effects: Seq<Effect>,
) -> Next {
    if next < due.len() {
        go(
            State { poll: PollStage::FirmwareTargets { due, next }, ..state },
            effects,
            Query::Targets { attachment: None },
        )
    } else {
        go(State { poll: PollStage::Thermal, ..state }, effects, Query::RgbPresent)
    }
}

/// What is done with a device whose firmware is due, given the targets there are.
pub open spec fn firmware_with_targets(
    state: State,
    due: Vec<(String, bool)>,
    next: usize,
    targets: Seq<LcdTarget>,
) -> Next {
    let after = (next + 1) as usize;
    match target_by_identity(targets, due@[next as int].0@) {
        Some(target) if target.initialized && target.hid => go(
            State {
                poll: PollStage::FirmwareIdle { due, next, target_index: target.index },
                ..state
            },
            Seq::empty(),
            Query::LcdIdle { target_index: target.index },
        ),
        Some(target) if target.initializing => firmware_from(
            state,
            due,
            after,
            seq![put_off(due@[next as int])],
        ),
        _ => firmware_from(state, due, after, Seq::empty()),
    }
}

/// What comes of a firmware read that was made.
pub open spec fn firmware_outcome(
    device: (String, bool),
    target_index: usize,
    reading: Option<FirmwareReading>,
) -> Seq<Effect> {
    match reading {
        Some(FirmwareReading { version, supports_c_command }) => seq![
            Effect::SetUseCCommand { target_index, enabled: device.1 },
            Effect::RecordFirmware { device_id: device.0, version, supports_c_command },
            Effect::ReleaseLcd { target_index },
        ],
        None => seq![
            Effect::MarkFirmwareFailed { device_id: device.0 },
            Effect::ReleaseLcd { target_index },
        ],
    }
}

/// Whether the poll is reading firmware, which `firmware_step` describes.
pub open spec fn reading_firmware(poll: PollStage) -> bool {
    match poll {
        PollStage::FirmwareDue | PollStage::FirmwareTargets { .. } | PollStage::FirmwareIdle {
            ..
        } | PollStage::FirmwareLock { .. } | PollStage::FirmwareRead { .. } => true,
        _ => false,
    }
}

/// One step of reading the firmware of AIO LCDs.
pub open spec fn firmware_step(state: State, answer: Answer) -> Next {
    match (state.poll, answer) {
        (PollStage::FirmwareDue, Answer::Due(due)) => firmware_from(state, due, 0, Seq::empty()),
        (PollStage::FirmwareTargets { due, next }, Answer::Targets(targets)) => {
            firmware_with_targets(state, due, next, targets@)
        },
        // The read is put off while a stream runs, because it would interrupt playback.
        (PollStage::FirmwareIdle { due, next, target_index }, Answer::Flag(idle)) => if idle {
            go(
                State { poll: PollStage::FirmwareLock { due, next, target_index }, ..state },
                Seq::empty(),
                Query::LockLcd { target_index, wait_millis: FIRMWARE_LOCK_MILLIS },
            )
        } else {
            firmware_from(state, due, (next + 1) as usize, seq![put_off(due@[next as int])])
        },
        (PollStage::FirmwareLock { due, next, target_index }, Answer::Flag(locked)) => if locked {
            go(
                State { poll: PollStage::FirmwareRead { due, next, target_index }, ..state },
                Seq::empty(),
                Query::ReadFirmware { target_index },
            )
        } else {
            firmware_from(
                state,
                due,
                (next + 1) as usize,
                seq![put_off(due@[next as int]), Effect::ReleaseLcd { target_index }],
            )
        },
        (PollStage::FirmwareRead { due, next, target_index }, Answer::Reading(reading)) => {
            firmware_from(
                state,
                due,
                (next + 1) as usize,
                firmware_outcome(due@[next as int], target_index, reading),
            )
        },
        _ => arbitrary(),
    }
}

/// What a poll does about the number of wireless devices that it sees.
pub open spec fn count_step(state: State, count: usize) -> Next {
    let counted = State { wireless_count: state.wireless_count.observed(count), ..state };
    match state.wireless_count.verdict(count) {
        // The fan controller caches its wireless handle when it starts: without a restart it
        // never sees devices that are discovered late.
        CountVerdict::Rebuild => go(
            State { poll: PollStage::Rebuilt { count }, ..counted },
            seq![
                Effect::RebuildRgbController,
                Effect::EnsureAioDefaults,
                Effect::StartAioControl,
                Effect::RestartFanControl,
            ],
            Query::Proceed,
        ),
        CountVerdict::Settling | CountVerdict::Recovered => go(
            State { poll: PollStage::RebindBusy, ..counted },
            Seq::empty(),
            Query::RebindInFlight,
        ),
        CountVerdict::Steady => go(
            State { poll: PollStage::Topology, ..counted },
            Seq::empty(),
            Query::TopologyMatches,
        ),
    }
}

/// One step of a device poll.
pub open spec fn poll_step(state: State, answer: Answer) -> Next {
    match (state.poll, answer) {
        (PollStage::Idle, Answer::Begin) => go(
            State { poll: PollStage::Prepared, ..state },
            seq![Effect::PollPreparedMedia],
            Query::Proceed,
        ),
        (PollStage::Prepared, Answer::Done) => if state.cleaner_reload_pending && state.tx {
            go(
                State { cleaner_reload_pending: false, poll: PollStage::Resume, ..state },
                seq![Effect::Send { event: DaemonEvent::IpcUpdate }],
                Query::PollResume,
            )
        } else {
            go(State { poll: PollStage::Resume, ..state }, Seq::empty(), Query::PollResume)
        },
        (PollStage::Resume, Answer::Flag(resumed)) => go(
            State { poll: PollStage::Devices, ..state },
            if resumed && state.tx {
                seq![Effect::Send { event: DaemonEvent::SystemResumed }]
            } else {
                Seq::empty()
            },
            Query::WirelessDeviceCount,
        ),
        (PollStage::Devices, Answer::Count(count)) => count_step(state, count),
        (PollStage::Rebuilt { count }, Answer::Done) => go(
            State {
                wireless_count: WirelessCount::settled(count),
                poll: PollStage::RebindBusy,
                ..state
            },
            Seq::empty(),
            Query::RebindInFlight,
        ),
        (PollStage::Topology, Answer::Match(matches)) => go(
            State { poll: PollStage::RebindBusy, ..state },
            if matches == Some(false) {
                seq![Effect::RebuildRgbController]
            } else {
                Seq::empty()
            },
            Query::RebindInFlight,
        ),
        (PollStage::RebindBusy, Answer::Flag(in_flight)) => if in_flight {
            go(
                State { poll: PollStage::ChannelBusy, ..state },
                Seq::empty(),
                Query::ChannelInFlight,
            )
        } else {
            go(
                State { poll: PollStage::RebindCandidates, ..state },
                Seq::empty(),
                Query::RebindCandidates,
            )
        },
        (PollStage::RebindCandidates, Answer::Rebind { configured, now, candidates }) => {
            let log = state.wireless_rebind_last;
            go(
                State {
                    wireless_rebind_last: rebind_next(candidates@, configured@, log, now),
                    poll: PollStage::ChannelBusy,
                    ..state
                },
                match rebind_choice(candidates@, configured@, log, now) {
                    Some(mac) => seq![Effect::StartRebind { mac }],
                    None => Seq::empty(),
                },
                Query::ChannelInFlight,
            )
        },
        (PollStage::ChannelBusy, Answer::Flag(in_flight)) => if in_flight {
            wired(state, Seq::empty())
        } else {
            go(
                State { poll: PollStage::ChannelTarget, ..state },
                Seq::empty(),
                Query::ChannelTarget,
            )
        },
        (PollStage::ChannelTarget, Answer::Channel(target)) => wired(
            State {
                wireless_channel_streak: channel_next(state.wireless_channel_streak, target),
                ..state
            },
            match channel_switch(state.wireless_channel_streak, target) {
                Some(channel) => seq![Effect::StartChannelSwitch { channel }],
                None => Seq::empty(),
            },
        ),
        (PollStage::Servicing, Answer::Targets(targets)) => go(
            State { poll: PollStage::FirmwareDue, ..state },
            service_effects(targets@),
            Query::DrainDueFirmware,
        ),
        (PollStage::Thermal, Answer::Flag(rgb_present)) => go(
            State { poll: PollStage::Finishing, ..state },
            thermal_effects(rgb_present).push(Effect::SyncIpcTelemetry),
            Query::Proceed,
        ),
        (PollStage::Finishing, Answer::Done) => go(
            State { poll: PollStage::Idle, ..state },
            Seq::empty(),
            Query::PollFinished,
        ),
        _ => if reading_firmware(state.poll) {
            firmware_step(state, answer)
        } else {
            arbitrary()
        },
    }
}

fn service_targets(targets: &Vec<LcdTarget>) -> (effects: Vec<Effect>)
    ensures
        effects@ == service_effects(targets@),
{
    let mut effects: Vec<Effect> = Vec::new();
    let mut i: usize = 0;
    assert(targets@.take(0) =~= Seq::empty());
    while i < targets.len()
        invariant
            i <= targets@.len(),
            effects@ == service_effects(targets@.take(i as int)),
        decreases targets.len() - i,
    {
        let target_index: usize = targets[i].index;
        assert(targets@.take(i + 1).drop_last() =~= targets@.take(i as int));
        assert(targets@.take(i + 1).last() == targets@[i as int]);
        effects.push(Effect::StartRecovery { target_index, wait_millis: 0 });
        effects.push(Effect::FlushPendingBrightness { target_index });
        i = i + 1;
    }
    assert(targets@.take(targets@.len() as int) =~= targets@);
    effects
}

/// Checks for a thermal alert, which overrides the colors, where there is an RGB controller.
fn check_thermal_alert(rgb_present: bool) -> (effects: Vec<Effect>)
    ensures
        effects@ == thermal_effects(rgb_present),
{
    if rgb_present {
        one_effect(Effect::CheckThermalOverride)
    } else {
        no_effects()
    }
}

fn put_off_read(device: &(String, bool)) -> (effect: Effect)
    ensures
        effect == put_off(*device),
{
    Effect::ScheduleFirmwareRead {
        device_id: device.0.clone(),
        delay_secs: FIRMWARE_RETRY_SECS,
        enable_512: device.1,
    }
}

impl ServiceState {
    fn poll_wired(&mut self, effects: Vec<Effect>) -> (turn: Turn)
        ensures
            final(self)@ == wired(old(self)@, effects@).state,
            turn@ == wired(old(self)@, effects@).plan,
    {
        let mut effects = effects;
        effects.push(Effect::CheckWiredHotplug);
        effects.push(Effect::ReconcileWiredWirelessBinding);
        effects.push(Effect::RefreshTargets);
        self.poll = PollStage::Servicing;
        Turn { effects, query: Query::Targets { attachment: None } }
    }

    fn firmware_from(
        &mut self,
        due: Vec<(String, bool)>,
        next: usize,
        effects: Vec<Effect>,
    ) -> (turn: Turn)
        ensures
            final(self)@ == firmware_from(old(self)@, due, next, effects@).state,
            turn@ == firmware_from(old(self)@, due, next, effects@).plan,
    {
        if next < due.len() {
            self.poll = PollStage::FirmwareTargets { due, next };
            Turn { effects, query: Query::Targets { attachment: None } }
        } else {
            self.poll = PollStage::Thermal;
            Turn { effects, query: Query::RgbPresent }
        }
    }

    fn firmware_with_targets(
        &mut self,
        due: Vec<(String, bool)>,
        next: usize,
        targets: Vec<LcdTarget>,
    ) -> (turn: Turn)
        requires
            next < due.len(),
        ensures
            final(self)@ == firmware_with_targets(old(self)@, due, next, targets@).state,
            turn@ == firmware_with_targets(old(self)@, due, next, targets@).plan,
    {
        match find_target(&targets, &due[next].0) {
            Some(i) => {
                let target_index: usize = targets[i].index;
                if targets[i].initialized && targets[i].hid {
                    self.poll = PollStage::FirmwareIdle { due, next, target_index };
                    Turn { effects: no_effects(), query: Query::LcdIdle { target_index } }
                } else if targets[i].initializing {
                    let effects = one_effect(put_off_read(&due[next]));
                    self.firmware_from(due, next + 1, effects)
                } else {
                    self.firmware_from(due, next + 1, no_effects())
                }
            },
            None => self.firmware_from(due, next + 1, no_effects()),
        }
    }

    /// Processes deferred firmware reads for AIO LCD devices, one answer at a time.
    fn process_pending_lcd_firmware(&mut self, answer: Answer) -> (turn: Turn)
        requires
            old(self)@.poll_wf(),
            reading_firmware(old(self)@.poll),
            answer.kind() == poll_awaits(old(self)@.poll),
        ensures
            final(self)@ == firmware_step(old(self)@, answer).state,
            turn@ == firmware_step(old(self)@, answer).plan,
    {
        let mut stage = PollStage::Idle;
        std::mem::swap(&mut self.poll, &mut stage);
        match (stage, answer) {
            (PollStage::FirmwareDue, Answer::Due(due)) => self.firmware_from(due, 0, no_effects()),
            (PollStage::FirmwareTargets { due, next }, Answer::Targets(targets)) => {
                self.firmware_with_targets(due, next, targets)
            },
            (PollStage::FirmwareIdle { due, next, target_index }, Answer::Flag(idle)) => {
                if idle {
                    self.poll = PollStage::FirmwareLock { due, next, target_index };
                    Turn {
                        effects: no_effects(),
                        query: Query::LockLcd { target_index, wait_millis: FIRMWARE_LOCK_MILLIS },
                    }
                } else {
                    let effects = one_effect(put_off_read(&due[next]));
                    self.firmware_from(due, next + 1, effects)
                }
            },
            (PollStage::FirmwareLock { due, next, target_index }, Answer::Flag(locked)) => {
                if locked {
                    self.poll = PollStage::FirmwareRead { due, next, target_index };
                    Turn { effects: no_effects(), query: Query::ReadFirmware { target_index } }
                } else {
                    let mut effects = one_effect(put_off_read(&due[next]));
                    effects.push(Effect::ReleaseLcd { target_index });
                    self.firmware_from(due, next + 1, effects)
                }
            },
            (PollStage::FirmwareRead { due, next, target_index }, Answer::Reading(reading)) => {
                let mut effects = no_effects();
                match reading {
                    Some(FirmwareReading { version, supports_c_command }) => {
                        effects.push(
                            Effect::SetUseCCommand { target_index, enabled: due[next].1 },
                        );
                        effects.push(
                            Effect::RecordFirmware {
                                device_id: due[next].0.clone(),
                                version,
                                supports_c_command,
                            },
                        );
                    },
                    None => {
                        effects.push(
                            Effect::MarkFirmwareFailed { device_id: due[next].0.clone() },
                        );
                    },
                }
                effects.push(Effect::ReleaseLcd { target_index });
                self.firmware_from(due, next + 1, effects)
            },
            _ => vstd::pervasive::unreached(),
        }
    }

    /// What a poll does about the number of wireless devices that it sees: what depends on them is
    /// rebuilt only after the number holds stable for three consecutive polls.
    fn poll_count(&mut self, count: usize) -> (turn: Turn)
        requires
            old(self)@.wireless_count.wf(),
        ensures
            final(self)@ == count_step(old(self)@, count).state,
            turn@ == count_step(old(self)@, count).plan,
    {
        match self.wireless_count.observe(count) {
            CountVerdict::Rebuild => {
                let mut effects = one_effect(Effect::RebuildRgbController);
                effects.push(Effect::EnsureAioDefaults);
                effects.push(Effect::StartAioControl);
                effects.push(Effect::RestartFanControl);
                self.poll = PollStage::Rebuilt { count };
                Turn { effects, query: Query::Proceed }
            },
            CountVerdict::Settling | CountVerdict::Recovered => {
                self.poll = PollStage::RebindBusy;
                Turn { effects: no_effects(), query: Query::RebindInFlight }
            },
            CountVerdict::Steady => {
                self.poll = PollStage::Topology;
                Turn { effects: no_effects(), query: Query::TopologyMatches }
            },
        }
    }

    /// One turn of a device poll.
    pub fn poll_turn(&mut self, answer: Answer) -> (turn: Turn)
        requires
            old(self)@.poll_wf(),
            answer.kind() == poll_awaits(old(self)@.poll),
        ensures
            final(self)@ == poll_step(old(self)@, answer).state,
            turn@ == poll_step(old(self)@, answer).plan,
            final(self)@.poll_wf(),
            turn.query.answer_kind() == poll_awaits(final(self)@.poll),
    {
        let firmware = matches!(
            self.poll,
            PollStage::FirmwareDue | PollStage::FirmwareTargets { .. } | PollStage::FirmwareIdle {
                ..
            } | PollStage::FirmwareLock { .. } | PollStage::FirmwareRead { .. }
        );
        if firmware {
            return self.process_pending_lcd_firmware(answer);
        }
        let mut stage = PollStage::Idle;
        std::mem::swap(&mut self.poll, &mut stage);
        match (stage, answer) {
            (PollStage::Idle, Answer::Begin) => {
                self.poll = PollStage::Prepared;
                Turn { effects: one_effect(Effect::PollPreparedMedia), query: Query::Proceed }
            },
            (PollStage::Prepared, Answer::Done) => {
                self.poll = PollStage::Resume;
                if self.cleaner_reload_pending && self.tx {
                    self.cleaner_reload_pending = false;
                    Turn {
                        effects: one_effect(Effect::Send { event: DaemonEvent::IpcUpdate }),
                        query: Query::PollResume,
                    }
                } else {
                    Turn { effects: no_effects(), query: Query::PollResume }
                }
            },
            (PollStage::Resume, Answer::Flag(resumed)) => {
                self.poll = PollStage::Devices;
                let effects = if resumed && self.tx {
                    one_effect(Effect::Send { event: DaemonEvent::SystemResumed })
                } else {
                    no_effects()
                };
                Turn { effects, query: Query::WirelessDeviceCount }
            },
            (PollStage::Devices, Answer::Count(count)) => self.poll_count(count),
            (PollStage::Rebuilt { count }, Answer::Done) => {
                self.wireless_count.settle(count);
                self.poll = PollStage::RebindBusy;
                Turn { effects: no_effects(), query: Query::RebindInFlight }
            },
            (PollStage::Topology, Answer::Match(matches)) => {
                self.poll = PollStage::RebindBusy;
                let effects = match matches {
                    Some(false) => one_effect(Effect::RebuildRgbController),
                    _ => no_effects(),
                };
                Turn { effects, query: Query::RebindInFlight }
            },
            (PollStage::RebindBusy, Answer::Flag(in_flight)) => {
                if in_flight {
                    self.poll = PollStage::ChannelBusy;
                    Turn { effects: no_effects(), query: Query::ChannelInFlight }
                } else {
                    self.poll = PollStage::RebindCandidates;
                    Turn { effects: no_effects(), query: Query::RebindCandidates }
                }
            },
            (PollStage::RebindCandidates, Answer::Rebind { configured, now, candidates }) => {
                self.poll = PollStage::ChannelBusy;
                let effects = match run_wireless_rebind_supervisor(
                    &mut self.wireless_rebind_last,
                    &configured,
                    now,
                    &candidates,
                ) {
                    Some(mac) => one_effect(Effect::StartRebind { mac }),
                    None => no_effects(),
                };
                Turn { effects, query: Query::ChannelInFlight }
            },
            (PollStage::ChannelBusy, Answer::Flag(in_flight)) => {
                if in_flight {
                    self.poll_wired(no_effects())
                } else {
                    self.poll = PollStage::ChannelTarget;
                    Turn { effects: no_effects(), query: Query::ChannelTarget }
                }
            },
            (PollStage::ChannelTarget, Answer::Channel(target)) => {
                let effects = match run_wireless_channel_supervisor(
                    &mut self.wireless_channel_streak,
                    target,
                ) {
                    Some(channel) => one_effect(Effect::StartChannelSwitch { channel }),
                    None => no_effects(),
                };
                self.poll_wired(effects)
            },
            (PollStage::Servicing, Answer::Targets(targets)) => {
                self.poll = PollStage::FirmwareDue;
                Turn { effects: service_targets(&targets), query: Query::DrainDueFirmware }
            },
            (PollStage::Thermal, Answer::Flag(rgb_present)) => {
                self.poll = PollStage::Finishing;
                let mut effects = check_thermal_alert(rgb_present);
                effects.push(Effect::SyncIpcTelemetry);
                Turn { effects, query: Query::Proceed }
            },
            (PollStage::Finishing, Answer::Done) => {
                Turn { effects: no_effects(), query: Query::PollFinished }
            },
            _ => vstd::pervasive::unreached(),
        }
    }
}

} // verus!
