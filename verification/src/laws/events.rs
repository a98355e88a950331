//! What the service loop owes to whoever sent an event.

use crate::event::{DaemonEvent, Handle};
use crate::lcd::{attached_index, target_by_identity, LcdTarget};
use crate::mac::mac_of;
use crate::run::run_step;
use crate::state::{Next, Phase, PollStage, State};
use crate::turn::{
    Answer, CleanError, Effect, OpenRgbStatus, OperationError, Query, RgbStatus,
};
use vstd::prelude::*;

verus! {

/// The turn after an event was received, while no shutdown is requested.
pub open spec fn received(state: State, event: DaemonEvent) -> Next {
    run_step(state, Answer::Event { event: Some(event), shutdown_requested: false })
}

/// The event, under a permit where there is one.
pub open spec fn carried(event: DaemonEvent, permit: Option<Handle>) -> DaemonEvent {
    match permit {
        Some(permit) => DaemonEvent::Coordinated { event: Box::new(event), permit },
        None => event,
    }
}

/// The permit that an event came with is let go.
pub open spec fn let_go(permit: Option<Handle>) -> Seq<Effect> {
    match permit {
        Some(permit) => seq![Effect::ReleasePermit { permit }],
        None => Seq::empty(),
    }
}

/// Whether a turn takes an event up: its operation is entered, these effects follow, this is asked,
/// and nothing is remembered but the permit and how far the handling has come.
pub open spec fn taken_up(
    state: State,
    next: Next,
    permit: Option<Handle>,
    label: &'static str,
    effects: Seq<Effect>,
    query: Query,
) -> bool {
    &&& next.state == (State { permit, phase: next.state.phase, ..state })
    &&& next.plan.effects =~= seq![Effect::Enter { label }] + effects
    &&& next.plan.query == query
}

/// Whether a turn is all there is to the handling of an event, with these effects between entering
/// and leaving.
pub open spec fn handled_at_once(
    state: State,
    next: Next,
    permit: Option<Handle>,
    label: &'static str,
    effects: Seq<Effect>,
) -> bool {
    &&& next.state == (State { permit: None, phase: Phase::Listening, ..state })
    &&& next.plan.effects =~= seq![Effect::Enter { label }] + effects + seq![Effect::Leave]
        + let_go(permit)
    &&& next.plan.query is NextEvent
}

/// Whether a turn goes on with a device poll after these effects; the loop may then end after the
/// poll where `may_exit`.
pub open spec fn polls_next(
    state: State,
    next: Next,
    permit: Option<Handle>,
    effects: Seq<Effect>,
    may_exit: bool,
) -> bool {
    &&& next.state == (State {
        permit,
        phase: Phase::Polling { may_exit },
        poll: PollStage::Prepared,
        ..state
    })
    &&& next.plan.effects =~= effects + seq![Effect::PollPreparedMedia]
    &&& next.plan.query is Proceed
}

/// Whether a turn brings the handling of an event to its end with these effects, and the state
/// that it leads to remembers nothing of it.
pub open spec fn handled(
    state: State,
    next: Next,
    permit: Option<Handle>,
    effects: Seq<Effect>,
) -> bool {
    &&& next.state == (State { permit: None, phase: Phase::Listening, ..state })
    &&& next.plan.effects =~= effects + seq![Effect::Leave] + let_go(permit)
    &&& next.plan.query is NextEvent
}

/// Once a shutdown is requested no event is handled any more: the one that was received is dropped
/// with its permit, and the loop ends. A daemon that was told to stop does not start again.
pub proof fn law_requested_shutdown_drops_the_event(
    state: State,
    event: DaemonEvent,
    permit: Option<Handle>,
)
    requires
        state.wf(),
        state.phase is Listening,
        permit is None ==> !(event is Coordinated),
    ensures
        ({
            let answer = Answer::Event {
                event: Some(carried(event, permit)),
                shutdown_requested: true,
            };
            let next = run_step(state, answer);
            let last = run_step(next.state, Answer::Flag(true));
            &&& next.state == (State { phase: Phase::Stopping, ..state })
            &&& next.plan.effects =~= let_go(permit) + seq![
                Effect::Discard { event },
                Effect::CloseQueue,
                Effect::Enter { label: "shutdown" },
                Effect::StopStreaming,
                Effect::Shutdown,
            ]
            &&& next.plan.query is ShutdownRequested
            &&& last.state == (State { phase: Phase::Stopped, ..state })
            &&& last.plan.effects =~= seq![Effect::Leave]
            &&& last.plan.query == (Query::Finished { restart: false })
        }),
{
}

/// A permit inside a permit is rejected: nothing is done for the event, which is dropped with the
/// permits and all that it holds.
pub proof fn law_nested_permits_are_rejected(
    state: State,
    event: Box<DaemonEvent>,
    inner: Handle,
    outer: Handle,
)
    requires
        state.wf(),
        state.phase is Listening,
    ensures
        ({
            let nested = DaemonEvent::Coordinated { event, permit: inner };
            let next = received(
                state,
                DaemonEvent::Coordinated { event: Box::new(nested), permit: outer },
            );
            &&& next.state == state
            &&& next.plan.effects == seq![
                Effect::Enter { label: "IpcMutation" },
                Effect::Leave,
                Effect::ReleasePermit { permit: outer },
                Effect::Discard { event: nested },
            ]
            &&& next.plan.query is NextEvent
        }),
{
    let nested = DaemonEvent::Coordinated { event, permit: inner };
    let next = received(state, DaemonEvent::Coordinated { event: Box::new(nested), permit: outer });
    assert(next.plan.effects =~= seq![
        Effect::Enter { label: "IpcMutation" },
        Effect::Leave,
        Effect::ReleasePermit { permit: outer },
        Effect::Discard { event: nested },
    ]);
}

/// While a startup image is being stored a changed configuration is not taken over: it is only
/// remembered that there is one, with or without a permit.
pub proof fn law_configuration_waits_for_the_startup_image(state: State, permit: Option<Handle>)
    requires
        state.wf(),
        state.phase is Listening,
        state.startup_image_job,
    ensures
        handled_at_once(
            State { startup_config_pending: true, ..state },
            received(state, carried(DaemonEvent::IpcUpdate, permit)),
            permit,
            "IpcUpdate",
            Seq::empty(),
        ),
{
}

/// The turn after a configuration was loaded, and the HID backend that it names was reported.
pub open spec fn config_loaded(
    state: State,
    permit: Option<Handle>,
    old_backend: Option<u8>,
    new_backend: Option<u8>,
) -> Next {
    let asked = received(state, carried(DaemonEvent::IpcUpdate, permit)).state;
    let loading = run_step(asked, Answer::Backend(old_backend)).state;
    let loaded = run_step(loading, Answer::Flag(true)).state;
    run_step(loaded, Answer::Backend(new_backend))
}

/// A changed configuration is loaded between two looks at the HID backend that it names.
pub proof fn law_configuration_is_loaded(
    state: State,
    permit: Option<Handle>,
    old_backend: Option<u8>,
)
    requires
        state.wf(),
        state.phase is Listening,
        !state.startup_image_job,
    ensures
        ({
            let first = received(state, carried(DaemonEvent::IpcUpdate, permit));
            let second = run_step(first.state, Answer::Backend(old_backend));
            let loaded = run_step(second.state, Answer::Flag(true));
            &&& taken_up(state, first, permit, "IpcUpdate", Seq::empty(), Query::HidBackend)
            &&& second.plan.effects.len() == 0
            &&& second.plan.query is LoadConfig
            &&& loaded.plan.effects.len() == 0
            &&& loaded.plan.query is HidBackend
        }),
{
}

/// A configuration that cannot be loaded changes nothing.
pub proof fn law_unloadable_configuration_changes_nothing(
    state: State,
    permit: Option<Handle>,
    old_backend: Option<u8>,
)
    requires
        state.wf(),
        state.phase is Listening,
        !state.startup_image_job,
    ensures
        ({
            let first = received(state, carried(DaemonEvent::IpcUpdate, permit));
            let second = run_step(first.state, Answer::Backend(old_backend));
            handled(state, run_step(second.state, Answer::Flag(false)), permit, Seq::empty())
        }),
{
}

/// A configuration that names another HID backend ends the loop, and the daemon starts again
/// unless it was told to stop; one that names the same backend is taken over by the running loop.
pub proof fn law_another_backend_restarts_the_daemon(
    state: State,
    permit: Option<Handle>,
    old_backend: Option<u8>,
    new_backend: Option<u8>,
    requested: bool,
)
    requires
        state.wf(),
        state.phase is Listening,
        !state.startup_image_job,
    ensures
        ({
            let next = config_loaded(state, permit, old_backend, new_backend);
            &&& old_backend != new_backend ==> {
                &&& next.state == (State {
                    restart_requested: true,
                    phase: Phase::Stopping,
                    ..state
                })
                &&& next.plan.effects =~= seq![Effect::Leave] + let_go(permit) + seq![
                    Effect::CloseQueue,
                    Effect::Enter { label: "shutdown" },
                    Effect::StopStreaming,
                    Effect::Shutdown,
                ]
                &&& run_step(next.state, Answer::Flag(requested)).plan.query == (Query::Finished {
                    restart: !requested,
                })
            }
            &&& old_backend == new_backend ==> {
                &&& next.state == (State { permit, phase: next.state.phase, ..state })
                &&& next.plan.effects.len() == 0
                &&& next.plan.query is FanMatchesConfig
            }
        }),
{
}

/// A configuration with the same backend is handed to everything that depends on it: the fan
/// controller is started unless the running one matches; the AIO controller is given the
/// configuration, or is started where there is none or no configuration; then come the OpenRGB
/// server, the fan quantities and the colors; the thermal alert is given its settings where there
/// are both; the shared state is brought up to date, and the devices are polled. The loop goes on
/// after that poll.
pub proof fn law_configuration_is_taken_over(
    state: State,
    permit: Option<Handle>,
    backend: Option<u8>,
    fan_matches: Option<bool>,
    aio: bool,
    aio_config: bool,
    alert: bool,
    alert_config: bool,
)
    requires
        state.wf(),
        state.phase is Listening,
        !state.startup_image_job,
    ensures
        ({
            let loaded = config_loaded(state, permit, backend, backend);
            let fan = run_step(loaded.state, Answer::Match(fan_matches));
            let controllers = run_step(fan.state, Answer::Both(aio, aio_config));
            let last = run_step(controllers.state, Answer::Both(alert, alert_config));
            &&& fan.plan.effects =~= if fan_matches == Some(true) {
                Seq::empty()
            } else {
                seq![Effect::StartFanControl]
            }
            &&& fan.plan.query is AioReady
            &&& controllers.plan.effects =~= seq![
                if aio && aio_config {
                    Effect::SetAioConfig
                } else {
                    Effect::StartAioControl
                },
                Effect::StartOpenRgbServer,
                Effect::ApplyEne6k77Quantities,
                Effect::ApplyRgbConfig,
            ]
            &&& controllers.plan.query is ThermalAlertReady
            &&& polls_next(
                state,
                last,
                permit,
                if alert && alert_config {
                    seq![Effect::UpdateThermalSettings, Effect::SyncIpcState]
                } else {
                    seq![Effect::SyncIpcState]
                },
                false,
            )
        }),
{
}

/// Whoever asked for a device to be bound or unbound is answered exactly once: that the address is
/// malformed, in which case no device is touched, or else how it went. Then the devices are polled.
pub proof fn law_wireless_operations_are_answered_once(
    state: State,
    permit: Option<Handle>,
    bind: bool,
    mac_address: String,
    operation_id: String,
    outcome: Result<(), String>,
)
    requires
        state.wf(),
        state.phase is Listening,
    ensures
        ({
            let event = if bind {
                DaemonEvent::Bind { mac_address, operation_id }
            } else {
                DaemonEvent::Unbind { mac_address, operation_id }
            };
            let label = if bind {
                "Bind"
            } else {
                "Unbind"
            };
            let first = received(state, carried(event, permit));
            match mac_of(mac_address@) {
                None => polls_next(
                    state,
                    first,
                    permit,
                    seq![
                        Effect::Enter { label },
                        Effect::CompleteWirelessOperation {
                            operation_id,
                            result: Err(OperationError::InvalidMacAddress),
                        },
                    ],
                    false,
                ),
                Some(mac) => {
                    let query = if bind {
                        Query::BindDevice { mac }
                    } else {
                        Query::UnbindDevice { mac }
                    };
                    let result = match outcome {
                        Ok(()) => Ok(()),
                        Err(message) => Err(OperationError::Device { message }),
                    };
                    &&& taken_up(state, first, permit, label, Seq::empty(), query)
                    &&& polls_next(
                        state,
                        run_step(first.state, Answer::Outcome(outcome)),
                        permit,
                        seq![Effect::CompleteWirelessOperation { operation_id, result }],
                        false,
                    )
                },
            }
        }),
{
}

/// Whoever sets the fan quantity is told how it went.
pub proof fn law_fan_quantity_is_replied_to(
    state: State,
    permit: Option<Handle>,
    device_id: String,
    quantity: u8,
    reply: Handle,
    result: Result<(), String>,
)
    requires
        state.wf(),
        state.phase is Listening,
    ensures
        ({
            let event = DaemonEvent::SetEne6k77FanQuantity { device_id, quantity, reply };
            let first = received(state, carried(event, permit));
            &&& taken_up(
                state,
                first,
                permit,
                "SetEne6k77FanQuantity",
                Seq::empty(),
                Query::SetFanQuantity { device_id, quantity },
            )
            &&& handled(
                state,
                run_step(first.state, Answer::Outcome(result)),
                permit,
                seq![Effect::SendFanReply { reply, result }],
            )
        }),
{
}

/// A resync after drift leaves the colors of a thermal alert alone, and gives an OpenRGB client
/// back the last frame that it sent in place of the configured effect; without an RGB controller
/// there is nothing to do.
pub proof fn law_resync_respects_who_owns_the_colors(
    state: State,
    permit: Option<Handle>,
    status: Option<RgbStatus>,
)
    requires
        state.wf(),
        state.phase is Listening,
    ensures
        ({
            let first = received(state, carried(DaemonEvent::ResyncWirelessRgb, permit));
            let second = run_step(first.state, Answer::Rgb(status));
            &&& taken_up(
                state,
                first,
                permit,
                "ResyncWirelessRgb",
                Seq::empty(),
                Query::RgbStatus,
            )
            &&& handled(
                state,
                second,
                permit,
                if status is None {
                    Seq::empty()
                } else if status->0.openrgb_controlled {
                    seq![Effect::ResyncWirelessDirectColors]
                } else if status->0.thermal_override {
                    Seq::empty()
                } else {
                    seq![Effect::ResyncWirelessEffects]
                },
            )
        }),
{
}

/// The permit that a startup image comes with goes to whoever stores the image and is not released
/// by the loop; an image that cannot be stored is reported with the reason.
pub proof fn law_startup_image_takes_the_permit(
    state: State,
    permit: Option<Handle>,
    id: u64,
    device_id: String,
    jpeg: Vec<u8>,
    capabilities: Handle,
    cancel: Handle,
    outcome: Result<(), String>,
)
    requires
        state.wf(),
        state.phase is Listening,
    ensures
        ({
            let event = DaemonEvent::UploadStartupImage {
                id,
                device_id,
                jpeg,
                capabilities,
                cancel,
            };
            let first = received(state, carried(event, permit));
            &&& taken_up(
                state,
                first,
                None,
                "UploadStartupImage",
                Seq::empty(),
                Query::StartStartupImage {
                    id,
                    device_id,
                    jpeg,
                    capabilities,
                    cancel,
                    permit,
                },
            )
            &&& handled(
                state,
                run_step(first.state, Answer::Outcome(outcome)),
                None,
                match outcome {
                    Ok(()) => Seq::empty(),
                    Err(message) => seq![Effect::FailStartupImage { id, message }],
                },
            )
        }),
{
}

/// A request for pixel cleaning that is handled at or after its deadline starts no session: the
/// client is told that it has expired, and that is all, whether or not the client still listens.
pub proof fn law_expired_cleaning_never_starts(
    state: State,
    permit: Option<Handle>,
    device_id: Option<String>,
    duration_minutes: u16,
    preparation_id: Option<u64>,
    deadline: u64,
    reply: Handle,
    now: u64,
    delivered: bool,
)
    requires
        state.wf(),
        state.phase is Listening,
        now >= deadline,
    ensures
        ({
            let event = DaemonEvent::StartPixelClean {
                device_id,
                duration_minutes,
                preparation_id,
                deadline,
                reply,
            };
            let first = received(state, carried(event, permit));
            let second = run_step(first.state, Answer::Now(now));
            let third = run_step(second.state, Answer::Flag(delivered));
            &&& taken_up(
                state,
                first,
                permit,
                "StartPixelClean",
                Seq::empty(),
                Query::Now,
            )
            &&& second.plan.query == (Query::SendCleanReply {
                reply,
                result: Err(CleanError::Expired),
            })
            &&& second.plan.effects.len() == 0
            &&& handled(state, third, permit, Seq::empty())
        }),
{
}

/// A request that is in time starts a session, or activates the one that was prepared; the client
/// is told which, or why not. A session that its client will never hear of is stopped again, and no
/// other session is.
pub proof fn law_unheard_of_cleaning_is_stopped(
    state: State,
    permit: Option<Handle>,
    device_id: Option<String>,
    duration_minutes: u16,
    preparation_id: Option<u64>,
    deadline: u64,
    reply: Handle,
    now: u64,
    session: Result<u64, String>,
    delivered: bool,
)
    requires
        state.wf(),
        state.phase is Listening,
        now < deadline,
    ensures
        ({
            let event = DaemonEvent::StartPixelClean {
                device_id,
                duration_minutes,
                preparation_id,
                deadline,
                reply,
            };
            let second = run_step(received(state, carried(event, permit)).state, Answer::Now(now));
            let third = run_step(second.state, Answer::Session(session));
            let last = run_step(third.state, Answer::Flag(delivered));
            &&& second.plan.query == match preparation_id {
                Some(preparation_id) => Query::ActivatePixelCleaning { preparation_id },
                None => Query::StartPixelCleaning { device_id, duration_minutes },
            }
            &&& second.plan.effects.len() == 0
            &&& third.plan.effects.len() == 0
            &&& third.plan.query == (Query::SendCleanReply {
                reply,
                result: match session {
                    Ok(id) => Ok((id, preparation_id is Some)),
                    Err(message) => Err(CleanError::Refused { message }),
                },
            })
            &&& handled(
                state,
                last,
                permit,
                match session {
                    Ok(id) if !delivered => seq![
                        Effect::StopPixelCleaning { device_id: None, session_id: Some(id) },
                    ],
                    _ => Seq::empty(),
                },
            )
        }),
{
}

/// Whoever stops pixel cleaning and waits for a reply is told whether that stopped a session.
pub proof fn law_stopped_cleaning_is_replied_to(
    state: State,
    permit: Option<Handle>,
    device_id: Option<String>,
    session_id: Option<u64>,
    reply: Option<Handle>,
    stopped: bool,
)
    requires
        state.wf(),
        state.phase is Listening,
    ensures
        ({
            let first = received(
                state,
                carried(DaemonEvent::StopPixelClean { device_id, session_id, reply }, permit),
            );
            &&& taken_up(
                state,
                first,
                permit,
                "StopPixelClean",
                Seq::empty(),
                Query::StopPixelCleaning { device_id, session_id },
            )
            &&& handled(
                state,
                run_step(first.state, Answer::Flag(stopped)),
                permit,
                match reply {
                    Some(reply) => seq![Effect::SendStopReply { reply, stopped }],
                    None => Seq::empty(),
                },
            )
        }),
{
}

/// An LCD is given up only where the target in its slot carries the mark of that very removal: a
/// report on a target that has since been replaced changes nothing.
pub proof fn law_stale_removals_change_nothing(
    state: State,
    permit: Option<Handle>,
    target_index: usize,
    removal: Handle,
    key: String,
    error: String,
    matches: Option<bool>,
)
    requires
        state.wf(),
        state.phase is Listening,
    ensures
        ({
            let event = DaemonEvent::RemoveFailedLcd { target_index, removal, key, error };
            let first = received(state, carried(event, permit));
            &&& taken_up(
                state,
                first,
                permit,
                "RemoveFailedLcd",
                Seq::empty(),
                Query::MatchesRemoval { target_index, removal },
            )
            &&& handled(
                state,
                run_step(first.state, Answer::Match(matches)),
                permit,
                if matches == Some(true) {
                    seq![
                        Effect::RemoveTarget { target_index },
                        Effect::RecordPlaybackFailure { target_index, key, error },
                        Effect::DropRemovedTarget,
                    ]
                } else {
                    Seq::empty()
                },
            )
        }),
{
}

/// Media is recreated only for the device that was recovered: where its slot is empty or holds
/// another device by now, nothing happens.
pub proof fn law_stale_recoveries_change_nothing(
    state: State,
    permit: Option<Handle>,
    target_index: usize,
    device_id: String,
    identity: Option<String>,
)
    requires
        state.wf(),
        state.phase is Listening,
        identity matches Some(current) ==> current@ != device_id@,
    ensures
        ({
            let event = DaemonEvent::RecreateMedia { target_index, device_id };
            let first = received(state, carried(event, permit));
            &&& taken_up(
                state,
                first,
                permit,
                "RecreateMedia",
                Seq::empty(),
                Query::TargetIdentity { target_index },
            )
            &&& handled(
                state,
                run_step(first.state, Answer::Identity(identity)),
                permit,
                Seq::empty(),
            )
        }),
{
}

/// The end of an initialization counts only for the attachment that was initialized: where no HID
/// target of that device is driven over it any more, nothing happens.
pub proof fn law_stale_initializations_change_nothing(
    state: State,
    permit: Option<Handle>,
    device_id: String,
    attachment: Handle,
    error: Option<String>,
    targets: Vec<LcdTarget>,
)
    requires
        state.wf(),
        state.phase is Listening,
        forall|i: int|
            0 <= i < targets@.len() ==> !((#[trigger] targets@[i]).device_identity@ == device_id@
                && targets@[i].hid && targets@[i].attached),
    ensures
        ({
            let event = DaemonEvent::LcdInitComplete { device_id, attachment, error };
            let first = received(state, carried(event, permit));
            &&& taken_up(
                state,
                first,
                permit,
                "LcdInitComplete",
                Seq::empty(),
                Query::Targets { attachment: Some(attachment) },
            )
            &&& handled(
                state,
                run_step(first.state, Answer::Targets(targets)),
                permit,
                Seq::empty(),
            )
        }),
{
    lemma_nothing_attached(targets@, device_id@);
}

proof fn lemma_nothing_attached(targets: Seq<LcdTarget>, device_id: Seq<char>)
    requires
        forall|i: int|
            0 <= i < targets.len() ==> !((#[trigger] targets[i]).device_identity@ == device_id
                && targets[i].hid && targets[i].attached),
    ensures
        attached_index(targets, device_id) is None,
    decreases targets.len(),
{
    if targets.len() > 0 {
        let rest = targets.skip(1);
        assert forall|i: int| 0 <= i < rest.len() implies !((
        #[trigger] rest[i]).device_identity@ == device_id && rest[i].hid && rest[i].attached) by {
            assert(rest[i] == targets[i + 1]);
        }
        lemma_nothing_attached(rest, device_id);
    }
}

/// A display is switched as asked, with the very device and product id of the request.
pub proof fn law_displays_are_switched(
    state: State,
    permit: Option<Handle>,
    device_id: String,
    pid: u16,
)
    requires
        state.wf(),
        state.phase is Listening,
    ensures
        handled_at_once(
            state,
            received(state, carried(DaemonEvent::DisplaySwitch { device_id }, permit)),
            permit,
            "DisplaySwitch",
            seq![Effect::DisplaySwitchToDesktop { device_id }],
        ),
        handled_at_once(
            state,
            received(state, carried(DaemonEvent::DisplaySwitchToLcd { device_id, pid }, permit)),
            permit,
            "DisplaySwitchToLcd",
            seq![Effect::DisplaySwitchToLcd { device_id, pid }],
        ),
{
}

/// Prepared media is taken over when it is ready and when that is to be tried again, and the
/// streaming worker is woken for each frame that is ready.
pub proof fn law_ready_media_is_taken_over(state: State, permit: Option<Handle>)
    requires
        state.wf(),
        state.phase is Listening,
    ensures
        handled_at_once(
            state,
            received(state, carried(DaemonEvent::RetryMedia, permit)),
            permit,
            "RetryMedia",
            seq![Effect::PollPreparedMedia],
        ),
        handled_at_once(
            state,
            received(state, carried(DaemonEvent::MediaPrepared, permit)),
            permit,
            "MediaPrepared",
            seq![Effect::PollPreparedMedia],
        ),
        handled_at_once(
            state,
            received(state, carried(DaemonEvent::FrameFinished, permit)),
            permit,
            "FrameFinished",
            seq![Effect::WakeStreaming],
        ),
{
}

/// The recovery of a startup image is cleared for the device that was named.
pub proof fn law_startup_recovery_is_cleared(
    state: State,
    permit: Option<Handle>,
    device_id: String,
)
    requires
        state.wf(),
        state.phase is Listening,
    ensures
        handled_at_once(
            state,
            received(state, carried(DaemonEvent::ClearStartupImageRecovery { device_id }, permit)),
            permit,
            "ClearStartupImageRecovery",
            seq![Effect::ClearStartupRecovery { device_id }],
        ),
{
}

/// A playback that has stopped is recorded with its slot, its key and its error.
pub proof fn law_stopped_playbacks_are_recorded(
    state: State,
    permit: Option<Handle>,
    target_index: usize,
    key: String,
    error: String,
)
    requires
        state.wf(),
        state.phase is Listening,
    ensures
        ({
            let event = DaemonEvent::MediaPlaybackStopped { target_index, key, error };
            handled_at_once(
                state,
                received(state, carried(event, permit)),
                permit,
                "MediaPlaybackStopped",
                seq![Effect::RecordPlaybackFailure { target_index, key, error }],
            )
        }),
{
}

/// A desktop display is retried at its very place on the bus.
pub proof fn law_desktop_displays_are_retried(
    state: State,
    permit: Option<Handle>,
    bus: u8,
    address: u8,
    product_id: u16,
)
    requires
        state.wf(),
        state.phase is Listening,
    ensures
        ({
            let event = DaemonEvent::RetryDesktopDisplay { bus, address, product_id };
            handled_at_once(
                state,
                received(state, carried(event, permit)),
                permit,
                "RetryDesktopDisplay",
                seq![Effect::RetryDesktopDisplay { bus, address, product_id }],
            )
        }),
{
}

/// Commands to a wireless LCD reach the very device that was named, and wifi is switched off or on
/// as asked.
pub proof fn law_wireless_lcd_commands_are_passed_on(
    state: State,
    permit: Option<Handle>,
    mac: [u8; 6],
    disable: bool,
)
    requires
        state.wf(),
        state.phase is Listening,
    ensures
        handled_at_once(
            state,
            received(state, carried(DaemonEvent::RebootWirelessLcd { mac }, permit)),
            permit,
            "RebootWirelessLcd",
            seq![Effect::RebootLcdGroup { mac }],
        ),
        handled_at_once(
            state,
            received(state, carried(DaemonEvent::DisableLc217Wifi { mac, disable }, permit)),
            permit,
            "DisableLc217Wifi",
            seq![Effect::SetLc217Wifi { mac, disable }],
        ),
{
}

/// A check of the USB bus refreshes the device cache, and looks for the wireless dongle exactly
/// where it is not connected.
pub proof fn law_usb_check_looks_for_a_missing_dongle(
    state: State,
    permit: Option<Handle>,
    connected: bool,
)
    requires
        state.wf(),
        state.phase is Listening,
    ensures
        ({
            let first = received(state, carried(DaemonEvent::USBCheck, permit));
            &&& taken_up(
                state,
                first,
                permit,
                "USBCheck",
                seq![Effect::RefreshUsbDeviceCache],
                Query::WirelessConnected,
            )
            &&& handled(
                state,
                run_step(first.state, Answer::Flag(connected)),
                permit,
                if connected {
                    Seq::empty()
                } else {
                    seq![Effect::TryWireless]
                },
            )
        }),
{
}

/// A device poll opens the poll gate first, so that the next one may be queued; then the startup
/// image, the mode switch and the cleaning sessions are looked after, and the devices are polled. A
/// restart that was asked for is taken up after that poll.
pub proof fn law_device_poll_opens_the_way_for_the_next(state: State, permit: Option<Handle>)
    requires
        state.wf(),
        state.phase is Listening,
    ensures
        polls_next(
            state,
            received(state, carried(DaemonEvent::DevicePoll, permit)),
            permit,
            seq![
                Effect::Enter { label: "DevicePoll" },
                Effect::DequeuePoll,
                Effect::PollStartupImage,
                Effect::RefreshAfterModeSwitch,
                Effect::CheckPixelCleanSessions,
            ],
            true,
        ),
{
}

/// The OpenRGB server is started again exactly where it has failed or its thread has ended, and the
/// pending retry is cleared either way.
pub proof fn law_failed_openrgb_server_is_started_again(
    state: State,
    permit: Option<Handle>,
    status: OpenRgbStatus,
)
    requires
        state.wf(),
        state.phase is Listening,
    ensures
        ({
            let first = received(state, carried(DaemonEvent::RetryOpenRgb, permit));
            let failed = status.error || status.thread_finished == Some(true);
            &&& taken_up(
                state,
                first,
                permit,
                "RetryOpenRgb",
                Seq::empty(),
                Query::OpenRgbStatus,
            )
            &&& handled(
                state,
                run_step(first.state, Answer::OpenRgb(status)),
                permit,
                if failed {
                    seq![Effect::StartOpenRgbServer, Effect::ClearOpenRgbRetry]
                } else {
                    seq![Effect::ClearOpenRgbRetry]
                },
            )
        }),
{
}

/// Every device that is not bound is bound, in order and once each; then the devices are polled.
/// Likewise every device that is bound is unbound.
pub proof fn law_all_devices_are_bound_or_unbound(
    state: State,
    permit: Option<Handle>,
    macs: Vec<[u8; 6]>,
)
    requires
        state.wf(),
        state.phase is Listening,
    ensures
        ({
            let first = received(state, carried(DaemonEvent::BindAll, permit));
            let bound = Seq::new(macs@.len(), |i: int| Effect::Bind { mac: macs@[i] });
            &&& taken_up(
                state,
                first,
                permit,
                "BindAll",
                Seq::empty(),
                Query::UnboundDevices,
            )
            &&& polls_next(
                state,
                run_step(first.state, Answer::Macs(macs)),
                permit,
                bound,
                false,
            )
        }),
        ({
            let first = received(state, carried(DaemonEvent::UnbindAll, permit));
            let unbound = Seq::new(macs@.len(), |i: int| Effect::Unbind { mac: macs@[i] });
            &&& taken_up(
                state,
                first,
                permit,
                "UnbindAll",
                Seq::empty(),
                Query::BoundDevices,
            )
            &&& polls_next(
                state,
                run_step(first.state, Answer::Macs(macs)),
                permit,
                unbound,
                false,
            )
        }),
{
}

proof fn lemma_first_target(targets: Seq<LcdTarget>, device_id: Seq<char>, i: int)
    requires
        0 <= i < targets.len(),
        targets[i].device_identity@ == device_id,
        forall|j: int| 0 <= j < i ==> (#[trigger] targets[j]).device_identity@ != device_id,
    ensures
        target_by_identity(targets, device_id) == Some(targets[i]),
    decreases i,
{
    if i > 0 {
        assert(targets[0].device_identity@ != device_id);
        let rest = targets.skip(1);
        assert forall|j: int| 0 <= j < i - 1 implies (#[trigger] rest[j]).device_identity@
            != device_id by {
            assert(rest[j] == targets[j + 1]);
        }
        lemma_first_target(rest, device_id, i - 1);
    }
}

proof fn lemma_no_target(targets: Seq<LcdTarget>, device_id: Seq<char>)
    requires
        forall|j: int|
            0 <= j < targets.len() ==> (#[trigger] targets[j]).device_identity@ != device_id,
    ensures
        target_by_identity(targets, device_id) is None,
    decreases targets.len(),
{
    if targets.len() > 0 {
        assert(targets[0].device_identity@ != device_id);
        let rest = targets.skip(1);
        assert forall|j: int| 0 <= j < rest.len() implies (#[trigger] rest[j]).device_identity@
            != device_id by {
            assert(rest[j] == targets[j + 1]);
        }
        lemma_no_target(rest, device_id);
    }
}

/// The first target of a device is the one that is found by its id, wherever the service loop looks
/// for it, and none is found where no target has that id.
pub proof fn law_first_target_of_a_device_is_found(
    targets: Seq<LcdTarget>,
    device_id: Seq<char>,
    i: int,
)
    requires
        0 <= i <= targets.len(),
        forall|j: int| 0 <= j < i ==> (#[trigger] targets[j]).device_identity@ != device_id,
        i < targets.len() ==> targets[i].device_identity@ == device_id,
    ensures
        i < targets.len() ==> target_by_identity(targets, device_id) == Some(targets[i]),
        i == targets.len() ==> target_by_identity(targets, device_id) is None,
{
    if i < targets.len() {
        lemma_first_target(targets, device_id, i);
    } else {
        lemma_no_target(targets, device_id);
    }
}

/// A brightness goes, as it is, to the first target of the device, and to no other; where the
/// device has no target, nothing happens. Here `i` is the place of that target, or the number of
/// targets where there is none.
pub proof fn law_brightness_is_applied_as_asked(
    state: State,
    permit: Option<Handle>,
    device_id: String,
    brightness: u8,
    targets: Vec<LcdTarget>,
    i: int,
)
    requires
        state.wf(),
        state.phase is Listening,
        0 <= i <= targets@.len(),
        forall|j: int| 0 <= j < i ==> (#[trigger] targets@[j]).device_identity@ != device_id@,
        i < targets@.len() ==> targets@[i].device_identity@ == device_id@,
    ensures
        ({
            let event = DaemonEvent::SetLcdBrightness { device_id, brightness };
            let first = received(state, carried(event, permit));
            &&& taken_up(
                state,
                first,
                permit,
                "SetLcdBrightness",
                Seq::empty(),
                Query::Targets { attachment: None },
            )
            &&& handled(
                state,
                run_step(first.state, Answer::Targets(targets)),
                permit,
                if i < targets@.len() {
                    seq![Effect::ApplyBrightness { target_index: targets@[i].index, brightness }]
                } else {
                    Seq::empty()
                },
            )
        }),
{
    law_first_target_of_a_device_is_found(targets@, device_id@, i);
}

/// Whether the target is a HID target of that device which is driven over the attachment that was
/// asked about.
pub open spec fn is_attached(target: LcdTarget, device_id: Seq<char>) -> bool {
    target.device_identity@ == device_id && target.hid && target.attached
}

proof fn lemma_first_attached(targets: Seq<LcdTarget>, device_id: Seq<char>, i: int)
    requires
        0 <= i < targets.len(),
        is_attached(targets[i], device_id),
        forall|j: int| 0 <= j < i ==> !is_attached(#[trigger] targets[j], device_id),
    ensures
        attached_index(targets, device_id) == Some(targets[i].index),
    decreases i,
{
    if i > 0 {
        assert(!is_attached(targets[0], device_id));
        let rest = targets.skip(1);
        assert forall|j: int| 0 <= j < i - 1 implies !is_attached(
            #[trigger] rest[j],
            device_id,
        ) by {
            assert(rest[j] == targets[j + 1]);
        }
        lemma_first_attached(rest, device_id, i - 1);
    }
}

/// The end of an initialization, successful or not, is taken up for the first HID target of the
/// device that is driven over the attachment which was initialized: the target learns of it with
/// the error, if any; its recovery may start once the LCD has been free within 200 milliseconds; a
/// brightness that waits for it is set; clients see the outcome; and the streaming worker is woken.
pub proof fn law_initialized_lcd_is_put_to_use(
    state: State,
    permit: Option<Handle>,
    device_id: String,
    attachment: Handle,
    error: Option<String>,
    targets: Vec<LcdTarget>,
    i: int,
)
    requires
        state.wf(),
        state.phase is Listening,
        0 <= i < targets@.len(),
        is_attached(targets@[i], device_id@),
        forall|j: int| 0 <= j < i ==> !is_attached(#[trigger] targets@[j], device_id@),
    ensures
        ({
            let event = DaemonEvent::LcdInitComplete { device_id, attachment, error };
            let first = received(state, carried(event, permit));
            let target_index = targets@[i].index;
            &&& taken_up(
                state,
                first,
                permit,
                "LcdInitComplete",
                Seq::empty(),
                Query::Targets { attachment: Some(attachment) },
            )
            &&& handled(
                state,
                run_step(first.state, Answer::Targets(targets)),
                permit,
                seq![
                    Effect::FinishInitialization { target_index, error },
                    Effect::StartRecovery { target_index, wait_millis: 200 },
                    Effect::FlushPendingBrightness { target_index },
                    Effect::RecordLcdInitialization { device_id, error },
                    Effect::WakeStreaming,
                ],
            )
        }),
{
    lemma_first_attached(targets@, device_id@, i);
}

/// Media is swapped into the target of the device that was recovered exactly where its slot still
/// holds that device, there is media for it, and the target is still there.
pub proof fn law_media_is_recreated_after_recovery(
    state: State,
    permit: Option<Handle>,
    target_index: usize,
    device_id: String,
    identity: String,
    asset: bool,
    present: bool,
)
    requires
        state.wf(),
        state.phase is Listening,
        identity@ == device_id@,
    ensures
        ({
            let event = DaemonEvent::RecreateMedia { target_index, device_id };
            let first = received(state, carried(event, permit));
            let second = run_step(first.state, Answer::Identity(Some(identity)));
            let third = run_step(second.state, Answer::Flag(asset));
            let last = run_step(third.state, Answer::Flag(present));
            &&& second.plan.effects.len() == 0
            &&& second.plan.query == (Query::MediaAssetPresent { target_index })
            &&& !asset ==> handled(state, third, permit, Seq::empty())
            &&& asset ==> {
                &&& third.plan.effects.len() == 0
                &&& third.plan.query == (Query::TargetPresent { target_index })
                &&& handled(
                    state,
                    last,
                    permit,
                    if present {
                        seq![Effect::SwapMedia { target_index }]
                    } else {
                        Seq::empty()
                    },
                )
            }
        }),
{
}

/// After a resume the sensors are read afresh, the RGB controller forgets what the hardware showed,
/// where there is one, and the controllers are set up again.
pub proof fn law_devices_are_set_up_again_after_a_resume(
    state: State,
    permit: Option<Handle>,
    rgb_present: bool,
)
    requires
        state.wf(),
        state.phase is Listening,
    ensures
        ({
            let first = received(state, carried(DaemonEvent::SystemResumed, permit));
            let setup = seq![
                Effect::RebuildRgbController,
                Effect::RestartFanControl,
                Effect::StartAioControl,
                Effect::SyncIpcState,
            ];
            &&& taken_up(
                state,
                first,
                permit,
                "SystemResumed",
                seq![Effect::InvalidateSensors],
                Query::RgbPresent,
            )
            &&& handled(
                state,
                run_step(first.state, Answer::Flag(rgb_present)),
                permit,
                if rgb_present {
                    seq![Effect::InvalidateRgb] + setup
                } else {
                    setup
                },
            )
        }),
{
}

/// A shutdown event ends the loop: everything is closed, stopped and shut down, in that order.
pub proof fn law_shutdown_event_ends_the_loop(state: State, permit: Option<Handle>)
    requires
        state.wf(),
        state.phase is Listening,
    ensures
        ({
            let next = received(state, carried(DaemonEvent::Shutdown, permit));
            &&& next.state == (State { phase: Phase::Stopping, ..state })
            &&& next.plan.effects =~= seq![Effect::Enter { label: "Shutdown" }, Effect::Leave]
                + let_go(permit) + seq![
                Effect::CloseQueue,
                Effect::Enter { label: "shutdown" },
                Effect::StopStreaming,
                Effect::Shutdown,
            ]
            &&& next.plan.query is ShutdownRequested
        }),
{
}

/// Where nobody can send any more, the loop ends in the same way.
pub proof fn law_loop_ends_when_nobody_can_send(state: State, shutdown_requested: bool)
    requires
        state.wf(),
        state.phase is Listening,
    ensures
        ({
            let next = run_step(state, Answer::Event { event: None, shutdown_requested });
            &&& next.state == (State { phase: Phase::Stopping, ..state })
            &&& next.plan.effects =~= seq![
                Effect::CloseQueue,
                Effect::Enter { label: "shutdown" },
                Effect::StopStreaming,
                Effect::Shutdown,
            ]
            &&& next.plan.query is ShutdownRequested
        }),
{
}

/// When the loop has ended, the last operation is left, and the daemon starts again exactly where
/// that was asked for and no signal told it to stop. Nothing else changes.
pub proof fn law_loop_reports_whether_to_restart(state: State, requested: bool)
    requires
        state.wf(),
        state.phase is Stopping,
    ensures
        ({
            let next = run_step(state, Answer::Flag(requested));
            &&& next.state == (State { phase: Phase::Stopped, ..state })
            &&& next.plan.effects =~= seq![Effect::Leave]
            &&& next.plan.query == (Query::Finished {
                restart: state.restart_requested && !requested,
            })
        }),
{
}

/// The messages that clients see: what the device or the cleaner said, as it is, or the reason why
/// nothing was tried.
pub proof fn law_clients_see_the_reason(message: String)
    ensures
        OperationError::InvalidMacAddress.text() == "invalid wireless MAC address"@,
        (OperationError::Device { message }).text() == message@,
        CleanError::Expired.text() == "Pixel cleaner request expired"@,
        (CleanError::Refused { message }).text() == message@,
{
}

} // verus!
