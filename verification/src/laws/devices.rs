//! What a device poll does for the devices, stage by stage and over several polls, in terms of what
//! it is told and what it then asks for.

use crate::event::{DaemonEvent, Nanos};
use crate::laws::events::law_first_target_of_a_device_is_found;
use crate::lcd::LcdTarget;
use crate::mac::device_id_text;
use crate::poll::{poll_step, service_effects};
use crate::state::{Next, PollStage, State};
use crate::turn::{Answer, Effect, FirmwareReading, Query};
use crate::wireless::{rebind_choice, WirelessCount};
use vstd::prelude::*;

verus! {

/// Whether a turn has no effect but to ask that, and leaves the loop in `state`.
pub open spec fn only_asks(next: Next, state: State, query: Query) -> bool {
    &&& next.state == state
    &&& next.plan.effects.len() == 0
    &&& next.plan.query == query
}

/// Whether a turn has these effects, then asks that, and leaves the loop in `state`.
pub open spec fn acts(next: Next, state: State, effects: Seq<Effect>, query: Query) -> bool {
    &&& next.state == state
    &&& next.plan.effects =~= effects
    &&& next.plan.query == query
}

/// A poll first takes over prepared media. A reload that pixel cleaning left pending is sent once
/// there is a queue, and is then no longer pending; a resume is announced where there is a queue.
/// Then the wireless devices are counted.
pub proof fn law_poll_passes_on_what_is_pending(state: State, resumed: bool)
    requires
        state.poll_wf(),
        state.poll is Idle,
    ensures
        ({
            let first = poll_step(state, Answer::Begin);
            let second = poll_step(first.state, Answer::Done);
            let third = poll_step(second.state, Answer::Flag(resumed));
            let reload = state.cleaner_reload_pending && state.tx;
            &&& acts(
                first,
                State { poll: first.state.poll, ..state },
                seq![Effect::PollPreparedMedia],
                Query::Proceed,
            )
            &&& acts(
                second,
                State {
                    cleaner_reload_pending: state.cleaner_reload_pending && !state.tx,
                    poll: second.state.poll,
                    ..state
                },
                if reload {
                    seq![Effect::Send { event: DaemonEvent::IpcUpdate }]
                } else {
                    Seq::empty()
                },
                Query::PollResume,
            )
            &&& acts(
                third,
                State { poll: PollStage::Devices, ..second.state },
                if resumed && state.tx {
                    seq![Effect::Send { event: DaemonEvent::SystemResumed }]
                } else {
                    Seq::empty()
                },
                Query::WirelessDeviceCount,
            )
        }),
{
}

/// What is rebuilt for another number of wireless devices, in this order.
pub open spec fn rebuilding() -> Seq<Effect> {
    seq![
        Effect::RebuildRgbController,
        Effect::EnsureAioDefaults,
        Effect::StartAioControl,
        Effect::RestartFanControl,
    ]
}

/// For how many polls in a row `count` has now been seen, where it is not the number for which the
/// controllers were built.
pub open spec fn seen_for(known: WirelessCount, count: usize) -> int {
    if known.pending_count == Some(count) {
        known.pending_streak + 1
    } else {
        1
    }
}

/// Any number of devices other than the one for which the controllers were built, be it higher or
/// lower, has everything rebuilt that depends on it once three polls in a row have seen it, and not
/// before; that is then the number they are built for.
pub proof fn law_changed_count_rebuilds_the_controllers(state: State, count: usize)
    requires
        state.poll_wf(),
        state.poll is Devices,
        count != state.wireless_count.stable_count,
    ensures
        ({
            let known = state.wireless_count;
            let next = poll_step(state, Answer::Count(count));
            let after = poll_step(next.state, Answer::Done);
            &&& seen_for(known, count) < 3 ==> only_asks(
                next,
                State {
                    wireless_count: WirelessCount {
                        stable_count: known.stable_count,
                        pending_count: Some(count),
                        pending_streak: seen_for(known, count) as u32,
                    },
                    poll: PollStage::RebindBusy,
                    ..state
                },
                Query::RebindInFlight,
            )
            &&& seen_for(known, count) >= 3 ==> {
                &&& next.plan.effects =~= rebuilding()
                &&& next.plan.query is Proceed
                &&& only_asks(
                    after,
                    State {
                        wireless_count: WirelessCount {
                            stable_count: count,
                            pending_count: None,
                            pending_streak: 0,
                        },
                        poll: PollStage::RebindBusy,
                        ..state
                    },
                    Query::RebindInFlight,
                )
            }
        }),
{
}

/// Where the number of devices is the one for which the controllers were built, nothing of that is
/// rebuilt. A change that did not last is forgotten; otherwise the devices are compared with those
/// of the RGB controller, which alone is rebuilt where they differ.
pub proof fn law_known_count_rebuilds_the_colors_at_most(
    state: State,
    count: usize,
    matches: Option<bool>,
)
    requires
        state.poll_wf(),
        state.poll is Devices,
        count == state.wireless_count.stable_count,
    ensures
        ({
            let next = poll_step(state, Answer::Count(count));
            let after = poll_step(next.state, Answer::Match(matches));
            let settled = WirelessCount {
                stable_count: count,
                pending_count: None,
                pending_streak: 0,
            };
            let on = State { wireless_count: settled, poll: PollStage::RebindBusy, ..state };
            &&& state.wireless_count.pending_count is Some ==> only_asks(
                next,
                on,
                Query::RebindInFlight,
            )
            &&& state.wireless_count.pending_count is None ==> {
                &&& only_asks(
                    next,
                    State { poll: PollStage::Topology, ..state },
                    Query::TopologyMatches,
                )
                &&& acts(
                    after,
                    on,
                    if matches == Some(false) {
                        seq![Effect::RebuildRgbController]
                    } else {
                        Seq::empty()
                    },
                    Query::RebindInFlight,
                )
            }
        }),
{
}

/// What a poll has made of the number of devices by the time that it turns to other things.
pub open spec fn count_after(state: State, count: usize) -> WirelessCount {
    let next = poll_step(state, Answer::Count(count));
    if next.plan.query is Proceed {
        poll_step(next.state, Answer::Done).state.wireless_count
    } else {
        next.state.wireless_count
    }
}

/// Whether a poll that sees so many devices has everything rebuilt.
pub open spec fn rebuilds(state: State, count: usize) -> bool {
    poll_step(state, Answer::Count(count)).plan.effects =~= rebuilding()
}

/// Three polls in a row that see the same number of devices, other than the one for which the
/// controllers were built, have everything rebuilt exactly once, whatever else happens in between
/// and whether devices came or went; the other two of them rebuild nothing. Afterwards the
/// controllers are built for that number.
pub proof fn law_three_equal_counts_rebuild_once(
    first: State,
    second: State,
    third: State,
    count: usize,
)
    requires
        first.poll_wf() && first.poll is Devices,
        second.poll_wf() && second.poll is Devices,
        third.poll_wf() && third.poll is Devices,
        second.wireless_count == count_after(first, count),
        third.wireless_count == count_after(second, count),
        count != first.wireless_count.stable_count,
    ensures
        ({
            let none = |state: State|
                poll_step(state, Answer::Count(count)).plan.effects.len() == 0;
            ||| rebuilds(first, count) && none(second) && none(third)
            ||| none(first) && rebuilds(second, count) && none(third)
            ||| none(first) && none(second) && rebuilds(third, count)
        }),
        count_after(third, count) == (WirelessCount {
            stable_count: count,
            pending_count: None,
            pending_streak: 0,
        }),
{
    law_changed_count_rebuilds_the_controllers(first, count);
    if second.wireless_count.stable_count != count {
        law_changed_count_rebuilds_the_controllers(second, count);
    } else {
        law_known_count_rebuilds_the_colors_at_most(second, count, None);
    }
    if third.wireless_count.stable_count != count {
        law_changed_count_rebuilds_the_controllers(third, count);
    } else {
        law_known_count_rebuilds_the_colors_at_most(third, count, None);
    }
    let effects = rebuilding();
    assert(effects.len() == 4);
}

/// The number for which the controllers are built changes only where they are rebuilt.
pub proof fn law_controllers_fit_the_count_they_were_built_for(state: State, count: usize)
    requires
        state.poll_wf(),
        state.poll is Devices,
    ensures
        rebuilds(state, count) ==> count_after(state, count).stable_count == count,
        !rebuilds(state, count) ==> count_after(state, count).stable_count
            == state.wireless_count.stable_count,
{
    if count != state.wireless_count.stable_count {
        law_changed_count_rebuilds_the_controllers(state, count);
    } else {
        law_known_count_rebuilds_the_colors_at_most(state, count, None);
    }
    assert(rebuilding().len() == 4);
}

/// Whether the configuration names the device.
pub open spec fn is_configured(configured: Seq<String>, mac: [u8; 6]) -> bool {
    exists|i: int|
        0 <= i < configured.len() && (#[trigger] configured[i])@ == device_id_text(mac@)
}

/// Whether the device may be bound again at that time: the configuration names it, and it has never
/// been tried or thirty seconds have passed since it was.
pub open spec fn may_rebind(
    configured: Seq<String>,
    log: Map<[u8; 6], Nanos>,
    now: Nanos,
    mac: [u8; 6],
) -> bool {
    is_configured(configured, mac) && (!log.contains_key(mac) || now - log[mac] >= 30_000_000_000)
}

proof fn lemma_first_rebind(
    candidates: Seq<[u8; 6]>,
    configured: Seq<String>,
    log: Map<[u8; 6], Nanos>,
    now: Nanos,
    i: int,
)
    requires
        0 <= i <= candidates.len(),
        forall|j: int| 0 <= j < i ==> !may_rebind(configured, log, now, #[trigger] candidates[j]),
        i < candidates.len() ==> may_rebind(configured, log, now, candidates[i]),
    ensures
        rebind_choice(candidates, configured, log, now) == if i < candidates.len() {
            Some(candidates[i])
        } else {
            None
        },
    decreases i,
{
    if i > 0 {
        assert(!may_rebind(configured, log, now, candidates[0]));
        let rest = candidates.skip(1);
        assert forall|j: int| 0 <= j < i - 1 implies !may_rebind(
            configured,
            log,
            now,
            #[trigger] rest[j],
        ) by {
            assert(rest[j] == candidates[j + 1]);
        }
        lemma_first_rebind(rest, configured, log, now, i - 1);
    }
}

/// A poll during which a rebind is under way starts none. Otherwise the first candidate that may be
/// bound again is, and the time is noted for it alone; where there is none, nothing happens. Here
/// `i` is the place of that candidate, or the number of candidates where there is none.
pub proof fn law_first_candidate_that_may_is_rebound(
    state: State,
    configured: Vec<String>,
    now: Nanos,
    candidates: Vec<[u8; 6]>,
    i: int,
)
    requires
        state.poll_wf(),
        state.poll is RebindBusy,
        0 <= i <= candidates@.len(),
        forall|j: int|
            0 <= j < i ==> !may_rebind(
                configured@,
                state.wireless_rebind_last,
                now,
                #[trigger] candidates@[j],
            ),
        i < candidates@.len() ==> may_rebind(
            configured@,
            state.wireless_rebind_last,
            now,
            candidates@[i],
        ),
    ensures
        ({
            let on = State { poll: PollStage::ChannelBusy, ..state };
            let free = poll_step(state, Answer::Flag(false));
            let next = poll_step(free.state, Answer::Rebind { configured, now, candidates });
            &&& only_asks(poll_step(state, Answer::Flag(true)), on, Query::ChannelInFlight)
            &&& only_asks(
                free,
                State { poll: PollStage::RebindCandidates, ..state },
                Query::RebindCandidates,
            )
            &&& i < candidates@.len() ==> acts(
                next,
                State {
                    wireless_rebind_last: state.wireless_rebind_last.insert(candidates@[i], now),
                    ..on
                },
                seq![Effect::StartRebind { mac: candidates@[i] }],
                Query::ChannelInFlight,
            )
            &&& i == candidates@.len() ==> only_asks(next, on, Query::ChannelInFlight)
        }),
{
    lemma_first_rebind(candidates@, configured@, state.wireless_rebind_last, now, i);
}

/// What is done for the wired devices, in this order.
pub open spec fn wired_care() -> Seq<Effect> {
    seq![
        Effect::CheckWiredHotplug,
        Effect::ReconcileWiredWirelessBinding,
        Effect::RefreshTargets,
    ]
}

/// For how many polls in a row the channel has now been asked for.
pub open spec fn asked_for_polls(streak: Option<(u8, u32)>, channel: u8) -> int {
    match streak {
        Some((asked, polls)) if asked == channel => polls + 1,
        _ => 1,
    }
}

/// A poll during which a channel switch is under way does not look at the channel, and leaves the
/// streak as it is. Otherwise a channel that has now been asked for in three polls in a row is
/// switched to, whichever it is, and the streak starts over; one that has not adds to its streak,
/// and a poll that asks for none ends the streak. Either way the wired devices are looked after.
pub proof fn law_channel_is_switched_with_the_third_poll(state: State, target: Option<u8>)
    requires
        state.poll_wf(),
        state.poll is ChannelBusy,
    ensures
        ({
            let on = State { poll: PollStage::Servicing, ..state };
            let ask = Query::Targets { attachment: None };
            let busy = poll_step(state, Answer::Flag(true));
            let free = poll_step(state, Answer::Flag(false));
            let next = poll_step(free.state, Answer::Channel(target));
            &&& acts(busy, on, wired_care(), ask)
            &&& only_asks(
                free,
                State { poll: PollStage::ChannelTarget, ..state },
                Query::ChannelTarget,
            )
            &&& match target {
                None => acts(
                    next,
                    State { wireless_channel_streak: None, ..on },
                    wired_care(),
                    ask,
                ),
                Some(channel) => {
                    let polls = asked_for_polls(state.wireless_channel_streak, channel);
                    &&& polls >= 3 ==> acts(
                        next,
                        State { wireless_channel_streak: None, ..on },
                        seq![Effect::StartChannelSwitch { channel }] + wired_care(),
                        ask,
                    )
                    &&& polls < 3 ==> acts(
                        next,
                        State { wireless_channel_streak: Some((channel, polls as u32)), ..on },
                        wired_care(),
                        ask,
                    )
                },
            }
        }),
{
}

proof fn lemma_service_effects(targets: Seq<LcdTarget>)
    ensures
        service_effects(targets).len() == 2 * targets.len(),
        forall|i: int|
            0 <= i < targets.len() ==> {
                &&& service_effects(targets)[2 * i] == (Effect::StartRecovery {
                    target_index: (#[trigger] targets[i]).index,
                    wait_millis: 0,
                })
                &&& service_effects(targets)[2 * i + 1] == (Effect::FlushPendingBrightness {
                    target_index: targets[i].index,
                })
            },
    decreases targets.len(),
{
    if targets.len() > 0 {
        let front = targets.drop_last();
        lemma_service_effects(front);
        assert forall|i: int| 0 <= i < targets.len() implies {
            &&& service_effects(targets)[2 * i] == (Effect::StartRecovery {
                target_index: (#[trigger] targets[i]).index,
                wait_millis: 0,
            })
            &&& service_effects(targets)[2 * i + 1] == (Effect::FlushPendingBrightness {
                target_index: targets[i].index,
            })
        } by {
            if i < front.len() {
                assert(front[i] == targets[i]);
            }
        }
    }
}

/// Every target is serviced, in order and once each: its recovery is started if that was put off,
/// without waiting for the LCD, and a brightness that waits for it is set.
pub proof fn law_every_target_is_serviced(state: State, targets: Vec<LcdTarget>)
    requires
        state.poll_wf(),
        state.poll is Servicing,
    ensures
        ({
            let next = poll_step(state, Answer::Targets(targets));
            let effects = next.plan.effects;
            &&& next.state == (State { poll: PollStage::FirmwareDue, ..state })
            &&& next.plan.query is DrainDueFirmware
            &&& effects.len() == 2 * targets@.len()
            &&& forall|i: int|
                0 <= i < targets@.len() ==> {
                    &&& effects[2 * i] == (Effect::StartRecovery {
                        target_index: (#[trigger] targets@[i]).index,
                        wait_millis: 0,
                    })
                    &&& effects[2 * i + 1] == (Effect::FlushPendingBrightness {
                        target_index: targets@[i].index,
                    })
                }
        }),
{
    lemma_service_effects(targets@);
}

/// Whether a turn, with these effects, is done with the device at `at` of those whose firmware is
/// due: it turns to the next device, or, after the last one, asks for the RGB controller.
pub open spec fn goes_on_after(
    next: Next,
    state: State,
    due: Vec<(String, bool)>,
    at: int,
    effects: Seq<Effect>,
) -> bool {
    &&& next.plan.effects =~= effects
    &&& at + 1 < due@.len() ==> {
        &&& next.state == (State {
            poll: PollStage::FirmwareTargets { due, next: (at + 1) as usize },
            ..state
        })
        &&& next.plan.query == (Query::Targets { attachment: None })
    }
    &&& at + 1 >= due@.len() ==> {
        &&& next.state == (State { poll: PollStage::Thermal, ..state })
        &&& next.plan.query is RgbPresent
    }
}

/// The devices whose firmware is due are dealt with from the first one on, and without any the poll
/// goes on at once.
pub proof fn law_due_firmware_is_taken_up(state: State, due: Vec<(String, bool)>)
    requires
        state.poll_wf(),
        state.poll is FirmwareDue,
    ensures
        goes_on_after(poll_step(state, Answer::Due(due)), state, due, -1, Seq::empty()),
{
}

/// The read of that device's firmware is tried again in ten seconds, with the same setting.
pub open spec fn tried_again(due: Vec<(String, bool)>, at: int) -> Effect {
    Effect::ScheduleFirmwareRead {
        device_id: due@[at].0,
        delay_secs: 10,
        enable_512: due@[at].1,
    }
}

/// The firmware of a device is read from its first target, where that is an initialized HID target.
/// One that is being initialized has its read tried again later; any other device is passed over.
/// Here `i` is the place of the first target of the device, or the number of targets where there is
/// none.
pub proof fn law_firmware_is_read_from_the_first_target(
    state: State,
    due: Vec<(String, bool)>,
    at: usize,
    targets: Vec<LcdTarget>,
    i: int,
)
    requires
        state.poll_wf(),
        state.poll == (PollStage::FirmwareTargets { due, next: at }),
        0 <= i <= targets@.len(),
        forall|j: int|
            0 <= j < i ==> (#[trigger] targets@[j]).device_identity@ != due@[at as int].0@,
        i < targets@.len() ==> targets@[i].device_identity@ == due@[at as int].0@,
    ensures
        ({
            let next = poll_step(state, Answer::Targets(targets));
            let target = targets@[i];
            let readable = i < targets@.len() && target.initialized && target.hid;
            let starting = i < targets@.len() && target.initializing;
            &&& readable ==> only_asks(
                next,
                State {
                    poll: PollStage::FirmwareIdle { due, next: at, target_index: target.index },
                    ..state
                },
                Query::LcdIdle { target_index: target.index },
            )
            &&& !readable ==> goes_on_after(
                next,
                state,
                due,
                at as int,
                if starting {
                    seq![tried_again(due, at as int)]
                } else {
                    Seq::empty()
                },
            )
        }),
{
    law_first_target_of_a_device_is_found(targets@, due@[at as int].0@, i);
}

/// Firmware is read once the LCD is idle and has been locked within half a second. What was read is
/// recorded for that very device, and the LCD is set to use the large command exactly as the device
/// was scheduled for, both ways, whatever the firmware says that it supports; a failed read is
/// marked for the device. An LCD that streams or stays busy has its read tried again later. An LCD
/// that was found idle is let go at the end.
pub proof fn law_firmware_reading_is_recorded(
    state: State,
    due: Vec<(String, bool)>,
    at: usize,
    target_index: usize,
    reading: Option<FirmwareReading>,
)
    requires
        state.poll_wf(),
        state.poll == (PollStage::FirmwareIdle { due, next: at, target_index }),
    ensures
        ({
            let device_id = due@[at as int].0;
            let enable_512 = due@[at as int].1;
            let idle = poll_step(state, Answer::Flag(true));
            let locked = poll_step(idle.state, Answer::Flag(true));
            let last = poll_step(locked.state, Answer::Reading(reading));
            &&& goes_on_after(
                poll_step(state, Answer::Flag(false)),
                state,
                due,
                at as int,
                seq![tried_again(due, at as int)],
            )
            &&& only_asks(
                idle,
                State { poll: PollStage::FirmwareLock { due, next: at, target_index }, ..state },
                Query::LockLcd { target_index, wait_millis: 500 },
            )
            &&& goes_on_after(
                poll_step(idle.state, Answer::Flag(false)),
                state,
                due,
                at as int,
                seq![tried_again(due, at as int), Effect::ReleaseLcd { target_index }],
            )
            &&& only_asks(
                locked,
                State { poll: PollStage::FirmwareRead { due, next: at, target_index }, ..state },
                Query::ReadFirmware { target_index },
            )
            &&& goes_on_after(
                last,
                state,
                due,
                at as int,
                match reading {
                    Some(firmware) => seq![
                        Effect::SetUseCCommand { target_index, enabled: enable_512 },
                        Effect::RecordFirmware {
                            device_id,
                            version: firmware.version,
                            supports_c_command: firmware.supports_c_command,
                        },
                        Effect::ReleaseLcd { target_index },
                    ],
                    None => seq![
                        Effect::MarkFirmwareFailed { device_id },
                        Effect::ReleaseLcd { target_index },
                    ],
                },
            )
        }),
{
}

/// A poll ends with the check for a thermal override, exactly where there is an RGB controller, and
/// with the telemetry for the clients.
pub proof fn law_poll_ends_with_the_telemetry(state: State, rgb_present: bool)
    requires
        state.poll_wf(),
        state.poll is Thermal,
    ensures
        ({
            let next = poll_step(state, Answer::Flag(rgb_present));
            let last = poll_step(next.state, Answer::Done);
            &&& acts(
                next,
                State { poll: PollStage::Finishing, ..state },
                if rgb_present {
                    seq![Effect::CheckThermalOverride, Effect::SyncIpcTelemetry]
                } else {
                    seq![Effect::SyncIpcTelemetry]
                },
                Query::Proceed,
            )
            &&& only_asks(last, State { poll: PollStage::Idle, ..state }, Query::PollFinished)
        }),
{
}

} // verus!
