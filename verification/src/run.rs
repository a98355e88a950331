//! The service loop: how it starts, what it does for each event, and how it ends.

use crate::event::{event_label, inner_event, label_of, permit_of, DaemonEvent, Handle};
use crate::lcd::{attached_index, find_attached, find_target, target_by_identity, LcdTarget};
use crate::mac::{mac_of, parse_mac_str};
use crate::poll::poll_step;
use crate::state::{go, poll_awaits, Next, Phase, ServiceState, State};
use crate::turn::{
    no_effects, one_effect, preceded, Answer, CleanError, Effect, OperationError, Query, RgbStatus,
    Turn,
};
use vstd::prelude::*;

verus! {

/// How long to wait for a busy LCD before its recovery thread is started, once it has been
/// initialized, in milliseconds.
pub const RECOVERY_WAIT_MILLIS: u64 = 200;

/// The permit of an event is let go.
pub open spec fn release(permit: Option<Handle>) -> Seq<Effect> {
    match permit {
        Some(permit) => seq![Effect::ReleasePermit { permit }],
        None => Seq::empty(),
    }
}

/// The event has been handled: wait for the next one.
pub open spec fn finish(state: State, effects: Seq<Effect>) -> Next {
    go(
        State { permit: None, phase: Phase::Listening, ..state },
        effects.push(Effect::Leave) + release(state.permit),
        Query::NextEvent,
    )
}

/// The loop is over: everything is shut down.
pub open spec fn close(state: State, effects: Seq<Effect>) -> Next {
    go(
        State { permit: None, phase: Phase::Stopping, ..state },
        effects + seq![
            Effect::CloseQueue,
            Effect::Enter { label: "shutdown" },
            Effect::StopStreaming,
            Effect::Shutdown,
        ],
        Query::ShutdownRequested,
    )
}

/// The event that is being handled ends the loop.
pub open spec fn leave_loop(state: State, effects: Seq<Effect>) -> Next {
    close(state, effects.push(Effect::Leave) + release(state.permit))
}

/// A device poll begins.
pub open spec fn start_poll(state: State, effects: Seq<Effect>, may_exit: bool) -> Next {
    let next = poll_step(State { phase: Phase::Polling { may_exit }, ..state }, Answer::Begin);
    Next { plan: preceded(effects, next.plan), ..next }
}

/// What a bind or unbind operation starts with.
pub open spec fn wireless_operation(
    state: State,
    mac_address: Seq<char>,
    operation_id: String,
    bind: bool,
    entered: Seq<Effect>,
) -> Next {
    match mac_of(mac_address) {
        Some(mac) => go(
            State { phase: Phase::WirelessOperation { operation_id }, ..state },
            entered,
            if bind {
                Query::BindDevice { mac }
            } else {
                Query::UnbindDevice { mac }
            },
        ),
        None => start_poll(
            state,
            entered.push(
                Effect::CompleteWirelessOperation {
                    operation_id,
                    result: Err(OperationError::InvalidMacAddress),
                },
            ),
            false,
        ),
    }
}

/// What the handling of an event starts with, once its operation has been entered.
pub open spec fn handle(state: State, event: DaemonEvent, entered: Seq<Effect>) -> Next {
    match event {
        // A permit inside a permit: rejected.
        DaemonEvent::Coordinated { .. } => go(
            State { permit: None, phase: Phase::Listening, ..state },
            (entered.push(Effect::Leave) + release(state.permit)).push(Effect::Discard { event }),
            Query::NextEvent,
        ),
        DaemonEvent::Shutdown => leave_loop(state, entered),
        // Wireless discovery is handled by its own polling.
        DaemonEvent::USBCheck => go(
            State { phase: Phase::UsbConnected, ..state },
            entered.push(Effect::RefreshUsbDeviceCache),
            Query::WirelessConnected,
        ),
        DaemonEvent::DevicePoll => start_poll(
            state,
            entered + seq![
                Effect::DequeuePoll,
                Effect::PollStartupImage,
                Effect::RefreshAfterModeSwitch,
                Effect::CheckPixelCleanSessions,
            ],
            true,
        ),
        DaemonEvent::UploadStartupImage { id, device_id, jpeg, capabilities, cancel } => go(
            State { permit: None, phase: Phase::StartupImage { id }, ..state },
            entered,
            Query::StartStartupImage {
                id,
                device_id,
                jpeg,
                capabilities,
                cancel,
                permit: state.permit,
            },
        ),
        DaemonEvent::DisplaySwitch { device_id } => finish(
            state,
            entered.push(Effect::DisplaySwitchToDesktop { device_id }),
        ),
        DaemonEvent::DisplaySwitchToLcd { device_id, pid } => finish(
            state,
            entered.push(Effect::DisplaySwitchToLcd { device_id, pid }),
        ),
        DaemonEvent::Bind { mac_address, operation_id } => wireless_operation(
            state,
            mac_address@,
            operation_id,
            true,
            entered,
        ),
        DaemonEvent::Unbind { mac_address, operation_id } => wireless_operation(
            state,
            mac_address@,
            operation_id,
            false,
            entered,
        ),
        DaemonEvent::SetEne6k77FanQuantity { device_id, quantity, reply } => go(
            State { phase: Phase::FanQuantity { reply }, ..state },
            entered,
            Query::SetFanQuantity { device_id, quantity },
        ),
        // While a startup image is being stored, cooling stays with its owner until the storage
        // transaction lets go of the USB device.
        DaemonEvent::IpcUpdate => if state.startup_image_job {
            finish(State { startup_config_pending: true, ..state }, entered)
        } else {
            go(State { phase: Phase::OldBackend, ..state }, entered, Query::HidBackend)
        },
        DaemonEvent::RetryOpenRgb => go(
            State { phase: Phase::OpenRgb, ..state },
            entered,
            Query::OpenRgbStatus,
        ),
        DaemonEvent::RetryMedia | DaemonEvent::MediaPrepared => finish(
            state,
            entered.push(Effect::PollPreparedMedia),
        ),
        DaemonEvent::ClearStartupImageRecovery { device_id } => finish(
            state,
            entered.push(Effect::ClearStartupRecovery { device_id }),
        ),
        DaemonEvent::FrameFinished => finish(state, entered.push(Effect::WakeStreaming)),
        DaemonEvent::ResyncWirelessRgb => go(
            State { phase: Phase::Resync, ..state },
            entered,
            Query::RgbStatus,
        ),
        DaemonEvent::MediaPlaybackStopped { target_index, key, error } => finish(
            state,
            entered.push(Effect::RecordPlaybackFailure { target_index, key, error }),
        ),
        DaemonEvent::RetryDesktopDisplay { bus, address, product_id } => finish(
            state,
            entered.push(Effect::RetryDesktopDisplay { bus, address, product_id }),
        ),
        DaemonEvent::RemoveFailedLcd { target_index, removal, key, error } => go(
            State { phase: Phase::Removal { target_index, key, error }, ..state },
            entered,
            Query::MatchesRemoval { target_index, removal },
        ),
        DaemonEvent::RecreateMedia { target_index, device_id } => go(
            State { phase: Phase::RecreateIdentity { target_index, device_id }, ..state },
            entered,
            Query::TargetIdentity { target_index },
        ),
        DaemonEvent::LcdInitComplete { device_id, attachment, error } => go(
            State { phase: Phase::LcdReady { device_id, error }, ..state },
            entered,
            Query::Targets { attachment: Some(attachment) },
        ),
        DaemonEvent::RebootWirelessLcd { mac } => finish(
            state,
            entered.push(Effect::RebootLcdGroup { mac }),
        ),
        DaemonEvent::DisableLc217Wifi { mac, disable } => finish(
            state,
            entered.push(Effect::SetLc217Wifi { mac, disable }),
        ),
        DaemonEvent::BindAll => go(
            State { phase: Phase::BindAll, ..state },
            entered,
            Query::UnboundDevices,
        ),
        DaemonEvent::UnbindAll => go(
            State { phase: Phase::UnbindAll, ..state },
            entered,
            Query::BoundDevices,
        ),
        DaemonEvent::SetLcdBrightness { device_id, brightness } => go(
            State { phase: Phase::Brightness { device_id, brightness }, ..state },
            entered,
            Query::Targets { attachment: None },
        ),
        DaemonEvent::StartPixelClean {
            device_id,
            duration_minutes,
            preparation_id,
            deadline,
            reply,
        } => go(
            State {
                phase: Phase::CleanDeadline {
                    device_id,
                    duration_minutes,
                    preparation_id,
                    deadline,
                    reply,
                },
                ..state
            },
            entered,
            Query::Now,
        ),
        DaemonEvent::StopPixelClean { device_id, session_id, reply } => go(
            State { phase: Phase::CleanStopped { reply }, ..state },
            entered,
            Query::StopPixelCleaning { device_id, session_id },
        ),
        DaemonEvent::SystemResumed => go(
            State { phase: Phase::ResumedRgb, ..state },
            entered.push(Effect::InvalidateSensors),
            Query::RgbPresent,
        ),
    }
}

/// What is done with an event that was received. Once a shutdown is requested, nothing is handled
/// any more.
pub open spec fn receive(state: State, event: DaemonEvent, shutdown_requested: bool) -> Next {
    let inner = inner_event(event);
    if shutdown_requested {
        close(state, release(permit_of(event)).push(Effect::Discard { event: inner }))
    } else {
        handle(
            State { permit: permit_of(event), ..state },
            inner,
            seq![Effect::Enter { label: label_of(inner) }],
        )
    }
}

/// The steps from the start of the loop to its first event.
pub open spec fn startup_step(state: State, answer: Answer) -> Next {
    match (state.phase, answer) {
        (Phase::Stopped, Answer::Begin) => go(
            State { phase: Phase::Monitor, ..state },
            Seq::empty(),
            Query::CreateMonitor,
        ),
        (Phase::Monitor, Answer::Outcome(outcome)) => match outcome {
            Ok(()) => go(
                State { phase: Phase::Config, ..state },
                seq![Effect::Enter { label: "startup" }],
                Query::ConfigExists,
            ),
            Err(error) => go(
                State { phase: Phase::Stopped, ..state },
                Seq::empty(),
                Query::Failed { error },
            ),
        },
        (Phase::Config, Answer::Flag(exists)) => go(
            State { tx: true, phase: Phase::StartupQueued, ..state },
            if exists {
                seq![Effect::OpenQueue]
            } else {
                seq![Effect::CreateDefaultConfig, Effect::OpenQueue]
            },
            Query::QueueStartupEvents,
        ),
        (Phase::StartupQueued, Answer::Outcome(outcome)) => match outcome {
            Ok(()) => go(
                State { phase: Phase::Initialized, ..state },
                seq![Effect::InitializeRuntime, Effect::Leave],
                Query::ShutdownRequested,
            ),
            Err(error) => go(
                State { phase: Phase::Stopped, ..state },
                seq![Effect::CloseQueue, Effect::Leave],
                Query::Failed { error },
            ),
        },
        (Phase::Initialized, Answer::Flag(requested)) => if requested {
            go(
                State { phase: Phase::Stopped, ..state },
                seq![
                    Effect::Enter { label: "shutdown" },
                    Effect::Shutdown,
                    Effect::Leave,
                    Effect::CloseQueue,
                ],
                Query::Finished { restart: false },
            )
        } else {
            go(
                State { phase: Phase::Listening, ..state },
                seq![
                    Effect::SpawnUsbTimer,
                    Effect::SpawnPollTimer,
                    Effect::SpawnStreaming,
                    Effect::InitSensors,
                ],
                Query::NextEvent,
            )
        },
        _ => arbitrary(),
    }
}

/// The steps of taking over a changed configuration.
pub open spec fn config_step(state: State, answer: Answer) -> Next {
    match (state.phase, answer) {
        (Phase::OldBackend, Answer::Backend(old_backend)) => go(
            State { phase: Phase::LoadingConfig { old_backend }, ..state },
            Seq::empty(),
            Query::LoadConfig,
        ),
        (Phase::LoadingConfig { old_backend }, Answer::Flag(loaded)) => if loaded {
            go(
                State { phase: Phase::NewBackend { old_backend }, ..state },
                Seq::empty(),
                Query::HidBackend,
            )
        } else {
            finish(state, Seq::empty())
        },
        // Another HID backend takes a restart of the daemon.
        (Phase::NewBackend { old_backend }, Answer::Backend(new_backend)) => if old_backend
            != new_backend {
            leave_loop(State { restart_requested: true, ..state }, Seq::empty())
        } else {
            go(State { phase: Phase::FanMatch, ..state }, Seq::empty(), Query::FanMatchesConfig)
        },
        (Phase::FanMatch, Answer::Match(matches)) => go(
            State { phase: Phase::AioReady, ..state },
            if matches == Some(true) {
                Seq::empty()
            } else {
                seq![Effect::StartFanControl]
            },
            Query::AioReady,
        ),
        (Phase::AioReady, Answer::Both(controller, config)) => go(
            State { phase: Phase::ThermalReady, ..state },
            seq![
                if controller && config {
                    Effect::SetAioConfig
                } else {
                    Effect::StartAioControl
                },
                Effect::StartOpenRgbServer,
                Effect::ApplyEne6k77Quantities,
                Effect::ApplyRgbConfig,
            ],
            Query::ThermalAlertReady,
        ),
        (Phase::ThermalReady, Answer::Both(alert, config)) => start_poll(
            state,
            if alert && config {
                seq![Effect::UpdateThermalSettings, Effect::SyncIpcState]
            } else {
                seq![Effect::SyncIpcState]
            },
            false,
        ),
        _ => arbitrary(),
    }
}

/// What is done once an LCD has been initialized, or could not be.
pub open spec fn lcd_ready(
    targets: Seq<LcdTarget>,
    device_id: String,
    error: Option<String>,
) -> Seq<Effect> {
    match attached_index(targets, device_id@) {
        Some(target_index) => seq![
            Effect::FinishInitialization { target_index, error },
            Effect::StartRecovery { target_index, wait_millis: RECOVERY_WAIT_MILLIS },
            Effect::FlushPendingBrightness { target_index },
            Effect::RecordLcdInitialization { device_id, error },
            Effect::WakeStreaming,
        ],
        None => Seq::empty(),
    }
}

/// The steps that concern an LCD target.
pub open spec fn lcd_step(state: State, answer: Answer) -> Next {
    match (state.phase, answer) {
        (Phase::Removal { target_index, key, error }, Answer::Match(matches)) => finish(
            state,
            if matches == Some(true) {
                seq![
                    Effect::RemoveTarget { target_index },
                    Effect::RecordPlaybackFailure { target_index, key, error },
                    Effect::DropRemovedTarget,
                ]
            } else {
                Seq::empty()
            },
        ),
        // An event of a recovery thread whose target slot has since been reused is ignored.
        (Phase::RecreateIdentity { target_index, device_id }, Answer::Identity(identity)) => {
            if identity is Some && identity->0@ == device_id@ {
                go(
                    State { phase: Phase::RecreateAsset { target_index }, ..state },
                    Seq::empty(),
                    Query::MediaAssetPresent { target_index },
                )
            } else {
                finish(state, Seq::empty())
            }
        },
        (Phase::RecreateAsset { target_index }, Answer::Flag(present)) => if present {
            go(
                State { phase: Phase::RecreateTarget { target_index }, ..state },
                Seq::empty(),
                Query::TargetPresent { target_index },
            )
        } else {
            finish(state, Seq::empty())
        },
        (Phase::RecreateTarget { target_index }, Answer::Flag(present)) => finish(
            state,
            if present {
                seq![Effect::SwapMedia { target_index }]
            } else {
                Seq::empty()
            },
        ),
        (Phase::LcdReady { device_id, error }, Answer::Targets(targets)) => finish(
            state,
            lcd_ready(targets@, device_id, error),
        ),
        (Phase::Brightness { device_id, brightness }, Answer::Targets(targets)) => finish(
            state,
            match target_by_identity(targets@, device_id@) {
                Some(target) => seq![
                    Effect::ApplyBrightness { target_index: target.index, brightness },
                ],
                None => Seq::empty(),
            },
        ),
        _ => arbitrary(),
    }
}

/// The outcome is sent to the client that asked for pixel cleaning.
pub open spec fn clean_reply(
    state: State,
    reply: Handle,
    result: Result<(u64, bool), CleanError>,
) -> Next {
    go(
        State {
            phase: Phase::CleanReplied {
                session: match result {
                    Ok((session, _)) => Some(session),
                    Err(_) => None,
                },
            },
            ..state
        },
        Seq::empty(),
        Query::SendCleanReply { reply, result },
    )
}

/// The steps of starting or stopping pixel cleaning.
pub open spec fn clean_step(state: State, answer: Answer) -> Next {
    match (state.phase, answer) {
        (
            Phase::CleanDeadline { device_id, duration_minutes, preparation_id, deadline, reply },
            Answer::Now(now),
        ) => if now >= deadline {
            clean_reply(state, reply, Err(CleanError::Expired))
        } else {
            go(
                State {
                    phase: Phase::CleanSession { reply, activated: preparation_id is Some },
                    ..state
                },
                Seq::empty(),
                match preparation_id {
                    Some(preparation_id) => Query::ActivatePixelCleaning { preparation_id },
                    None => Query::StartPixelCleaning { device_id, duration_minutes },
                },
            )
        },
        (Phase::CleanSession { reply, activated }, Answer::Session(session)) => clean_reply(
            state,
            reply,
            match session {
                Ok(session) => Ok((session, activated)),
                Err(message) => Err(CleanError::Refused { message }),
            },
        ),
        // A session that its client will never hear of is stopped again.
        (Phase::CleanReplied { session }, Answer::Flag(delivered)) => finish(
            state,
            if session is Some && !delivered {
                seq![Effect::StopPixelCleaning { device_id: None, session_id: session }]
            } else {
                Seq::empty()
            },
        ),
        (Phase::CleanStopped { reply }, Answer::Flag(stopped)) => finish(
            state,
            match reply {
                Some(reply) => seq![Effect::SendStopReply { reply, stopped }],
                None => Seq::empty(),
            },
        ),
        _ => arbitrary(),
    }
}

/// Each of the devices is bound.
pub open spec fn bindings(macs: Seq<[u8; 6]>) -> Seq<Effect> {
    macs.map_values(|mac: [u8; 6]| Effect::Bind { mac })
}

/// Each of the devices is unbound.
pub open spec fn unbindings(macs: Seq<[u8; 6]>) -> Seq<Effect> {
    macs.map_values(|mac: [u8; 6]| Effect::Unbind { mac })
}

/// The steps of handling an event that takes a single answer.
pub open spec fn event_step(state: State, answer: Answer) -> Next {
    match (state.phase, answer) {
        (Phase::UsbConnected, Answer::Flag(connected)) => finish(
            state,
            if connected {
                Seq::empty()
            } else {
                seq![Effect::TryWireless]
            },
        ),
        (Phase::StartupImage { id }, Answer::Outcome(outcome)) => finish(
            state,
            match outcome {
                Ok(()) => Seq::empty(),
                Err(message) => seq![Effect::FailStartupImage { id, message }],
            },
        ),
        (Phase::WirelessOperation { operation_id }, Answer::Outcome(outcome)) => start_poll(
            state,
            seq![
                Effect::CompleteWirelessOperation {
                    operation_id,
                    result: match outcome {
                        Ok(()) => Ok(()),
                        Err(message) => Err(OperationError::Device { message }),
                    },
                },
            ],
            false,
        ),
        (Phase::FanQuantity { reply }, Answer::Outcome(result)) => finish(
            state,
            seq![Effect::SendFanReply { reply, result }],
        ),
        (Phase::OpenRgb, Answer::OpenRgb(status)) => finish(
            state,
            if status.error || status.thread_finished == Some(true) {
                seq![Effect::StartOpenRgbServer, Effect::ClearOpenRgbRetry]
            } else {
                seq![Effect::ClearOpenRgbRetry]
            },
        ),
        // A thermal override is not to be overwritten, and an OpenRGB client is given back the
        // last frame that it sent.
        (Phase::Resync, Answer::Rgb(status)) => finish(
            state,
            match status {
                Some(RgbStatus { openrgb_controlled: true, .. }) => seq![
                    Effect::ResyncWirelessDirectColors,
                ],
                Some(RgbStatus { thermal_override: true, .. }) => Seq::empty(),
                Some(_) => seq![Effect::ResyncWirelessEffects],
                None => Seq::empty(),
            },
        ),
        (Phase::BindAll, Answer::Macs(macs)) => start_poll(
            state,
            bindings(macs@),
            false,
        ),
        (Phase::UnbindAll, Answer::Macs(macs)) => start_poll(
            state,
            unbindings(macs@),
            false,
        ),
        (Phase::ResumedRgb, Answer::Flag(rgb_present)) => finish(
            state,
            (if rgb_present {
                seq![Effect::InvalidateRgb]
            } else {
                Seq::empty()
            }) + seq![
                Effect::RebuildRgbController,
                Effect::RestartFanControl,
                Effect::StartAioControl,
                Effect::SyncIpcState,
            ],
        ),
        _ => arbitrary(),
    }
}

/// The step of a device poll that the loop runs, and what follows the last: the next event, unless
/// a restart was asked for and this poll may end the loop.
pub open spec fn polling_step(state: State, answer: Answer, may_exit: bool) -> Next {
    let next = poll_step(state, answer);
    if next.plan.query is PollFinished {
        if may_exit && next.state.restart_requested {
            leave_loop(next.state, next.plan.effects)
        } else {
            finish(next.state, next.plan.effects)
        }
    } else {
        next
    }
}

/// The steps between two events, and at the end of the loop.
pub open spec fn listen_step(state: State, answer: Answer) -> Next {
    match (state.phase, answer) {
        (Phase::Listening, Answer::Event { event, shutdown_requested }) => match event {
            Some(event) => receive(state, event, shutdown_requested),
            None => close(state, Seq::empty()),
        },
        (Phase::Stopping, Answer::Flag(requested)) => go(
            State { phase: Phase::Stopped, ..state },
            seq![Effect::Leave],
            Query::Finished { restart: state.restart_requested && !requested },
        ),
        _ => arbitrary(),
    }
}

/// One step of the service loop.
pub open spec fn run_step(state: State, answer: Answer) -> Next {
    match state.phase {
        Phase::Stopped | Phase::Monitor | Phase::Config | Phase::StartupQueued
        | Phase::Initialized => startup_step(state, answer),
        Phase::Listening | Phase::Stopping => listen_step(state, answer),
        Phase::Polling { may_exit } => polling_step(state, answer, may_exit),
        Phase::OldBackend | Phase::LoadingConfig { .. } | Phase::NewBackend { .. } | Phase::FanMatch
        | Phase::AioReady | Phase::ThermalReady => config_step(state, answer),
        Phase::Removal { .. } | Phase::RecreateIdentity { .. } | Phase::RecreateAsset { .. }
        | Phase::RecreateTarget { .. } | Phase::LcdReady { .. } | Phase::Brightness {
            ..
        } => lcd_step(state, answer),
        Phase::CleanDeadline { .. } | Phase::CleanSession { .. } | Phase::CleanReplied { .. }
        | Phase::CleanStopped { .. } => clean_step(state, answer),
        _ => event_step(state, answer),
    }
}

fn push_release(effects: &mut Vec<Effect>, permit: Option<Handle>)
    ensures
        final(effects)@ == old(effects)@ + release(permit),
{
    match permit {
        Some(permit) => {
            effects.push(Effect::ReleasePermit { permit });
        },
        None => {},
    }
}

fn bind_effects(macs: &Vec<[u8; 6]>) -> (effects: Vec<Effect>)
    ensures
        effects@ == bindings(macs@),
{
    let mut effects: Vec<Effect> = Vec::new();
    let mut i: usize = 0;
    while i < macs.len()
        invariant
            i <= macs@.len(),
            effects@ =~= bindings(macs@.take(i as int)),
        decreases macs.len() - i,
    {
        effects.push(Effect::Bind { mac: macs[i] });
        i = i + 1;
    }
    assert(macs@.take(macs@.len() as int) =~= macs@);
    effects
}

fn unbind_effects(macs: &Vec<[u8; 6]>) -> (effects: Vec<Effect>)
    ensures
        effects@ == unbindings(macs@),
{
    let mut effects: Vec<Effect> = Vec::new();
    let mut i: usize = 0;
    while i < macs.len()
        invariant
            i <= macs@.len(),
            effects@ =~= unbindings(macs@.take(i as int)),
        decreases macs.len() - i,
    {
        effects.push(Effect::Unbind { mac: macs[i] });
        i = i + 1;
    }
    assert(macs@.take(macs@.len() as int) =~= macs@);
    effects
}

fn lcd_ready_effects(
    targets: &Vec<LcdTarget>,
    device_id: String,
    error: Option<String>,
) -> (effects: Vec<Effect>)
    ensures
        effects@ == lcd_ready(targets@, device_id, error),
{
    let mut effects: Vec<Effect> = Vec::new();
    match find_attached(targets, &device_id) {
        Some(target_index) => {
            let shown = match &error {
                Some(text) => Some(text.clone()),
                None => None,
            };
            effects.push(Effect::FinishInitialization { target_index, error: shown });
            effects.push(
                Effect::StartRecovery { target_index, wait_millis: RECOVERY_WAIT_MILLIS },
            );
            effects.push(Effect::FlushPendingBrightness { target_index });
            effects.push(Effect::RecordLcdInitialization { device_id, error });
            effects.push(Effect::WakeStreaming);
        },
        None => {},
    }
    effects
}

impl ServiceState {
    fn finish(&mut self, effects: Vec<Effect>) -> (turn: Turn)
        ensures
            final(self)@ == finish(old(self)@, effects@).state,
            turn@ == finish(old(self)@, effects@).plan,
    {
        let mut effects = effects;
        effects.push(Effect::Leave);
        push_release(&mut effects, self.permit);
        self.permit = None;
        self.phase = Phase::Listening;
        Turn { effects, query: Query::NextEvent }
    }

    fn close(&mut self, effects: Vec<Effect>) -> (turn: Turn)
        ensures
            final(self)@ == close(old(self)@, effects@).state,
            turn@ == close(old(self)@, effects@).plan,
    {
        let mut effects = effects;
        effects.push(Effect::CloseQueue);
        effects.push(Effect::Enter { label: "shutdown" });
        effects.push(Effect::StopStreaming);
        effects.push(Effect::Shutdown);
        self.permit = None;
        self.phase = Phase::Stopping;
        Turn { effects, query: Query::ShutdownRequested }
    }

    fn leave_loop(&mut self, effects: Vec<Effect>) -> (turn: Turn)
        ensures
            final(self)@ == leave_loop(old(self)@, effects@).state,
            turn@ == leave_loop(old(self)@, effects@).plan,
    {
        let mut effects = effects;
        effects.push(Effect::Leave);
        push_release(&mut effects, self.permit);
        self.close(effects)
    }

    fn start_poll(&mut self, effects: Vec<Effect>, may_exit: bool) -> (turn: Turn)
        requires
            old(self)@.poll_wf(),
            old(self)@.poll is Idle,
        ensures
            final(self)@ == start_poll(old(self)@, effects@, may_exit).state,
            turn@ == start_poll(old(self)@, effects@, may_exit).plan,
    {
        self.phase = Phase::Polling { may_exit };
        let turn = self.poll_turn(Answer::Begin);
        turn.preceded_by(effects)
    }

    fn wireless_operation(
        &mut self,
        mac_address: &String,
        operation_id: String,
        bind: bool,
        entered: Vec<Effect>,
    ) -> (turn: Turn)
        requires
            old(self)@.poll_wf(),
            old(self)@.poll is Idle,
        ensures
            final(self)@ == wireless_operation(
                old(self)@,
                mac_address@,
                operation_id,
                bind,
                entered@,
            ).state,
            turn@ == wireless_operation(
                old(self)@,
                mac_address@,
                operation_id,
                bind,
                entered@,
            ).plan,
    {
        match parse_mac_str(mac_address.as_str()) {
            Some(mac) => {
                self.phase = Phase::WirelessOperation { operation_id };
                let query = if bind {
                    Query::BindDevice { mac }
                } else {
                    Query::UnbindDevice { mac }
                };
                Turn { effects: entered, query }
            },
            None => {
                let mut effects = entered;
                effects.push(
                    Effect::CompleteWirelessOperation {
                        operation_id,
                        result: Err(OperationError::InvalidMacAddress),
                    },
                );
                self.start_poll(effects, false)
            },
        }
    }

    /// Performs `effect` and has thereby handled the event.
    fn finish_with(&mut self, entered: Vec<Effect>, effect: Effect) -> (turn: Turn)
        ensures
            final(self)@ == finish(old(self)@, entered@.push(effect)).state,
            turn@ == finish(old(self)@, entered@.push(effect)).plan,
    {
        let mut effects = entered;
        effects.push(effect);
        self.finish(effects)
    }

    /// Starts to handle an event.
    fn handle(&mut self, event: DaemonEvent, entered: Vec<Effect>) -> (turn: Turn)
        requires
            old(self)@.poll_wf(),
            old(self)@.poll is Idle,
        ensures
            final(self)@ == handle(old(self)@, event, entered@).state,
            turn@ == handle(old(self)@, event, entered@).plan,
    {
        let mut effects = entered;
        match event {
            DaemonEvent::Coordinated { event, permit } => {
                let mut turn = self.finish(effects);
                turn.effects.push(
                    Effect::Discard { event: DaemonEvent::Coordinated { event, permit } },
                );
                turn
            },
            DaemonEvent::Shutdown => self.leave_loop(effects),
            DaemonEvent::USBCheck => {
                effects.push(Effect::RefreshUsbDeviceCache);
                self.phase = Phase::UsbConnected;
                Turn { effects, query: Query::WirelessConnected }
            },
            DaemonEvent::DevicePoll => {
                effects.push(Effect::DequeuePoll);
                effects.push(Effect::PollStartupImage);
                effects.push(Effect::RefreshAfterModeSwitch);
                effects.push(Effect::CheckPixelCleanSessions);
                self.start_poll(effects, true)
            },
            DaemonEvent::UploadStartupImage { id, device_id, jpeg, capabilities, cancel } => {
                let permit = self.permit;
                self.permit = None;
                self.phase = Phase::StartupImage { id };
                Turn {
                    effects,
                    query: Query::StartStartupImage {
                        id,
                        device_id,
                        jpeg,
                        capabilities,
                        cancel,
                        permit,
                    },
                }
            },
            DaemonEvent::DisplaySwitch { device_id } => {
                self.finish_with(effects, Effect::DisplaySwitchToDesktop { device_id })
            },
            DaemonEvent::DisplaySwitchToLcd { device_id, pid } => {
                self.finish_with(effects, Effect::DisplaySwitchToLcd { device_id, pid })
            },
            DaemonEvent::Bind { mac_address, operation_id } => {
                self.wireless_operation(&mac_address, operation_id, true, effects)
            },
            DaemonEvent::Unbind { mac_address, operation_id } => {
                self.wireless_operation(&mac_address, operation_id, false, effects)
            },
            DaemonEvent::SetEne6k77FanQuantity { device_id, quantity, reply } => {
                self.phase = Phase::FanQuantity { reply };
                Turn { effects, query: Query::SetFanQuantity { device_id, quantity } }
            },
            DaemonEvent::IpcUpdate => {
                if self.startup_image_job {
                    self.startup_config_pending = true;
                    self.finish(effects)
                } else {
                    self.phase = Phase::OldBackend;
                    Turn { effects, query: Query::HidBackend }
                }
            },
            DaemonEvent::RetryOpenRgb => {
                self.phase = Phase::OpenRgb;
                Turn { effects, query: Query::OpenRgbStatus }
            },
            DaemonEvent::RetryMedia | DaemonEvent::MediaPrepared => {
                self.finish_with(effects, Effect::PollPreparedMedia)
            },
            DaemonEvent::ClearStartupImageRecovery { device_id } => {
                self.finish_with(effects, Effect::ClearStartupRecovery { device_id })
            },
            DaemonEvent::FrameFinished => self.finish_with(effects, Effect::WakeStreaming),
            DaemonEvent::ResyncWirelessRgb => {
                self.phase = Phase::Resync;
                Turn { effects, query: Query::RgbStatus }
            },
            DaemonEvent::MediaPlaybackStopped { target_index, key, error } => {
                let failure = Effect::RecordPlaybackFailure { target_index, key, error };
                self.finish_with(effects, failure)
            },
            DaemonEvent::RetryDesktopDisplay { bus, address, product_id } => {
                self.finish_with(effects, Effect::RetryDesktopDisplay { bus, address, product_id })
            },
            DaemonEvent::RemoveFailedLcd { target_index, removal, key, error } => {
                self.phase = Phase::Removal { target_index, key, error };
                Turn { effects, query: Query::MatchesRemoval { target_index, removal } }
            },
            DaemonEvent::RecreateMedia { target_index, device_id } => {
                self.phase = Phase::RecreateIdentity { target_index, device_id };
                Turn { effects, query: Query::TargetIdentity { target_index } }
            },
            DaemonEvent::LcdInitComplete { device_id, attachment, error } => {
                self.phase = Phase::LcdReady { device_id, error };
                Turn { effects, query: Query::Targets { attachment: Some(attachment) } }
            },
            DaemonEvent::RebootWirelessLcd { mac } => {
                self.finish_with(effects, Effect::RebootLcdGroup { mac })
            },
            DaemonEvent::DisableLc217Wifi { mac, disable } => {
                self.finish_with(effects, Effect::SetLc217Wifi { mac, disable })
            },
            DaemonEvent::BindAll => {
                self.phase = Phase::BindAll;
                Turn { effects, query: Query::UnboundDevices }
            },
            DaemonEvent::UnbindAll => {
                self.phase = Phase::UnbindAll;
                Turn { effects, query: Query::BoundDevices }
            },
            DaemonEvent::SetLcdBrightness { device_id, brightness } => {
                self.phase = Phase::Brightness { device_id, brightness };
                Turn { effects, query: Query::Targets { attachment: None } }
            },
            DaemonEvent::StartPixelClean {
                device_id,
                duration_minutes,
                preparation_id,
                deadline,
                reply,
            } => {
                self.phase = Phase::CleanDeadline {
                    device_id,
                    duration_minutes,
                    preparation_id,
                    deadline,
                    reply,
                };
                Turn { effects, query: Query::Now }
            },
            DaemonEvent::StopPixelClean { device_id, session_id, reply } => {
                self.phase = Phase::CleanStopped { reply };
                Turn { effects, query: Query::StopPixelCleaning { device_id, session_id } }
            },
            DaemonEvent::SystemResumed => {
                effects.push(Effect::InvalidateSensors);
                self.phase = Phase::ResumedRgb;
                Turn { effects, query: Query::RgbPresent }
            },
        }
    }

    /// Deals with an event that was received.
    fn receive(&mut self, event: DaemonEvent, shutdown_requested: bool) -> (turn: Turn)
        requires
            old(self)@.poll_wf(),
            old(self)@.poll is Idle,
        ensures
            final(self)@ == receive(old(self)@, event, shutdown_requested).state,
            turn@ == receive(old(self)@, event, shutdown_requested).plan,
    {
        let (inner, permit): (DaemonEvent, Option<Handle>) = match event {
            DaemonEvent::Coordinated { event, permit } => (*event, Some(permit)),
            event => (event, None),
        };
        if shutdown_requested {
            let mut effects = no_effects();
            push_release(&mut effects, permit);
            effects.push(Effect::Discard { event: inner });
            self.close(effects)
        } else {
            self.permit = permit;
            let effects = one_effect(Effect::Enter { label: event_label(&inner) });
            self.handle(inner, effects)
        }
    }

    /// One turn between the start of the loop and its first event.
    fn startup_turn(&mut self, answer: Answer) -> (turn: Turn)
        requires
            old(self)@.wf(),
            old(self)@.phase is Stopped || old(self)@.phase is Monitor || old(self)@.phase is Config
                || old(self)@.phase is StartupQueued || old(self)@.phase is Initialized,
            answer.kind() == old(self)@.awaits(),
        ensures
            final(self)@ == startup_step(old(self)@, answer).state,
            turn@ == startup_step(old(self)@, answer).plan,
    {
        let mut phase = Phase::Stopped;
        std::mem::swap(&mut self.phase, &mut phase);
        match (phase, answer) {
            (Phase::Stopped, Answer::Begin) => {
                self.phase = Phase::Monitor;
                Turn { effects: no_effects(), query: Query::CreateMonitor }
            },
            (Phase::Monitor, Answer::Outcome(outcome)) => match outcome {
                Ok(()) => {
                    self.phase = Phase::Config;
                    Turn {
                        effects: one_effect(Effect::Enter { label: "startup" }),
                        query: Query::ConfigExists,
                    }
                },
                Err(error) => Turn { effects: no_effects(), query: Query::Failed { error } },
            },
            (Phase::Config, Answer::Flag(exists)) => {
                let mut effects = no_effects();
                if !exists {
                    effects.push(Effect::CreateDefaultConfig);
                }
                effects.push(Effect::OpenQueue);
                self.tx = true;
                self.phase = Phase::StartupQueued;
                Turn { effects, query: Query::QueueStartupEvents }
            },
            (Phase::StartupQueued, Answer::Outcome(outcome)) => match outcome {
                Ok(()) => {
                    let mut effects = one_effect(Effect::InitializeRuntime);
                    effects.push(Effect::Leave);
                    self.phase = Phase::Initialized;
                    Turn { effects, query: Query::ShutdownRequested }
                },
                Err(error) => {
                    let mut effects = one_effect(Effect::CloseQueue);
                    effects.push(Effect::Leave);
                    Turn { effects, query: Query::Failed { error } }
                },
            },
            (Phase::Initialized, Answer::Flag(requested)) => {
                let mut effects = no_effects();
                if requested {
                    effects.push(Effect::Enter { label: "shutdown" });
                    effects.push(Effect::Shutdown);
                    effects.push(Effect::Leave);
                    effects.push(Effect::CloseQueue);
                    Turn { effects, query: Query::Finished { restart: false } }
                } else {
                    effects.push(Effect::SpawnUsbTimer);
                    effects.push(Effect::SpawnPollTimer);
                    effects.push(Effect::SpawnStreaming);
                    effects.push(Effect::InitSensors);
                    self.phase = Phase::Listening;
                    Turn { effects, query: Query::NextEvent }
                }
            },
            _ => vstd::pervasive::unreached(),
        }
    }

    /// One turn of taking over a changed configuration.
    fn config_turn(&mut self, answer: Answer) -> (turn: Turn)
        requires
            old(self)@.wf(),
            old(self)@.phase is OldBackend || old(self)@.phase is LoadingConfig
                || old(self)@.phase is NewBackend || old(self)@.phase is FanMatch
                || old(self)@.phase is AioReady || old(self)@.phase is ThermalReady,
            answer.kind() == old(self)@.awaits(),
        ensures
            final(self)@ == config_step(old(self)@, answer).state,
            turn@ == config_step(old(self)@, answer).plan,
    {
        let mut phase = Phase::Stopped;
        std::mem::swap(&mut self.phase, &mut phase);
        match (phase, answer) {
            (Phase::OldBackend, Answer::Backend(old_backend)) => {
                self.phase = Phase::LoadingConfig { old_backend };
                Turn { effects: no_effects(), query: Query::LoadConfig }
            },
            (Phase::LoadingConfig { old_backend }, Answer::Flag(loaded)) => {
                if loaded {
                    self.phase = Phase::NewBackend { old_backend };
                    Turn { effects: no_effects(), query: Query::HidBackend }
                } else {
                    self.finish(no_effects())
                }
            },
            (Phase::NewBackend { old_backend }, Answer::Backend(new_backend)) => {
                if old_backend != new_backend {
                    self.restart_requested = true;
                    self.leave_loop(no_effects())
                } else {
                    self.phase = Phase::FanMatch;
                    Turn { effects: no_effects(), query: Query::FanMatchesConfig }
                }
            },
            (Phase::FanMatch, Answer::Match(matches)) => {
                self.phase = Phase::AioReady;
                let effects = match matches {
                    Some(true) => no_effects(),
                    _ => one_effect(Effect::StartFanControl),
                };
                Turn { effects, query: Query::AioReady }
            },
            (Phase::AioReady, Answer::Both(controller, config)) => {
                self.phase = Phase::ThermalReady;
                let mut effects = if controller && config {
                    one_effect(Effect::SetAioConfig)
                } else {
                    one_effect(Effect::StartAioControl)
                };
                effects.push(Effect::StartOpenRgbServer);
                effects.push(Effect::ApplyEne6k77Quantities);
                effects.push(Effect::ApplyRgbConfig);
                Turn { effects, query: Query::ThermalAlertReady }
            },
            (Phase::ThermalReady, Answer::Both(alert, config)) => {
                let mut effects = no_effects();
                if alert && config {
                    effects.push(Effect::UpdateThermalSettings);
                }
                effects.push(Effect::SyncIpcState);
                self.start_poll(effects, false)
            },
            _ => vstd::pervasive::unreached(),
        }
    }

    /// One turn that concerns an LCD target.
    fn lcd_turn(&mut self, answer: Answer) -> (turn: Turn)
        requires
            old(self)@.phase is Removal || old(self)@.phase is RecreateIdentity
                || old(self)@.phase is RecreateAsset || old(self)@.phase is RecreateTarget
                || old(self)@.phase is LcdReady || old(self)@.phase is Brightness,
            answer.kind() == old(self)@.awaits(),
        ensures
            final(self)@ == lcd_step(old(self)@, answer).state,
            turn@ == lcd_step(old(self)@, answer).plan,
    {
        let mut phase = Phase::Stopped;
        std::mem::swap(&mut self.phase, &mut phase);
        match (phase, answer) {
            (Phase::Removal { target_index, key, error }, Answer::Match(matches)) => {
                let mut effects = no_effects();
                match matches {
                    Some(true) => {
                        effects.push(Effect::RemoveTarget { target_index });
                        effects.push(Effect::RecordPlaybackFailure { target_index, key, error });
                        effects.push(Effect::DropRemovedTarget);
                    },
                    _ => {},
                }
                self.finish(effects)
            },
            (Phase::RecreateIdentity { target_index, device_id }, Answer::Identity(identity)) => {
                let current = match &identity {
                    Some(identity) => *identity == device_id,
                    None => false,
                };
                if current {
                    self.phase = Phase::RecreateAsset { target_index };
                    Turn {
                        effects: no_effects(),
                        query: Query::MediaAssetPresent { target_index },
                    }
                } else {
                    self.finish(no_effects())
                }
            },
            (Phase::RecreateAsset { target_index }, Answer::Flag(present)) => {
                if present {
                    self.phase = Phase::RecreateTarget { target_index };
                    Turn { effects: no_effects(), query: Query::TargetPresent { target_index } }
                } else {
                    self.finish(no_effects())
                }
            },
            (Phase::RecreateTarget { target_index }, Answer::Flag(present)) => {
                if present {
                    self.finish(one_effect(Effect::SwapMedia { target_index }))
                } else {
                    self.finish(no_effects())
                }
            },
            (Phase::LcdReady { device_id, error }, Answer::Targets(targets)) => {
                let effects = lcd_ready_effects(&targets, device_id, error);
                self.finish(effects)
            },
            (Phase::Brightness { device_id, brightness }, Answer::Targets(targets)) => {
                let effects = match find_target(&targets, &device_id) {
                    Some(i) => one_effect(
                        Effect::ApplyBrightness { target_index: targets[i].index, brightness },
                    ),
                    None => no_effects(),
                };
                self.finish(effects)
            },
            _ => vstd::pervasive::unreached(),
        }
    }

    fn clean_reply(
        &mut self,
        reply: Handle,
        result: Result<(u64, bool), CleanError>,
    ) -> (turn: Turn)
        ensures
            final(self)@ == clean_reply(old(self)@, reply, result).state,
            turn@ == clean_reply(old(self)@, reply, result).plan,
    {
        let session: Option<u64> = match &result {
            Ok((session, _)) => Some(*session),
            Err(_) => None,
        };
        self.phase = Phase::CleanReplied { session };
        Turn { effects: no_effects(), query: Query::SendCleanReply { reply, result } }
    }

    /// One turn of starting or stopping pixel cleaning.
    fn clean_turn(&mut self, answer: Answer) -> (turn: Turn)
        requires
            old(self)@.phase is CleanDeadline || old(self)@.phase is CleanSession
                || old(self)@.phase is CleanReplied || old(self)@.phase is CleanStopped,
            answer.kind() == old(self)@.awaits(),
        ensures
            final(self)@ == clean_step(old(self)@, answer).state,
            turn@ == clean_step(old(self)@, answer).plan,
    {
        let mut phase = Phase::Stopped;
        std::mem::swap(&mut self.phase, &mut phase);
        match (phase, answer) {
            (
                Phase::CleanDeadline {
                    device_id,
                    duration_minutes,
                    preparation_id,
                    deadline,
                    reply,
                },
                Answer::Now(now),
            ) => {
                if now >= deadline {
                    return self.clean_reply(reply, Err(CleanError::Expired));
                }
                match preparation_id {
                    Some(preparation_id) => {
                        self.phase = Phase::CleanSession { reply, activated: true };
                        Turn {
                            effects: no_effects(),
                            query: Query::ActivatePixelCleaning { preparation_id },
                        }
                    },
                    None => {
                        self.phase = Phase::CleanSession { reply, activated: false };
                        Turn {
                            effects: no_effects(),
                            query: Query::StartPixelCleaning { device_id, duration_minutes },
                        }
                    },
                }
            },
            (Phase::CleanSession { reply, activated }, Answer::Session(session)) => match session {
                Ok(session) => self.clean_reply(reply, Ok((session, activated))),
                Err(message) => self.clean_reply(reply, Err(CleanError::Refused { message })),
            },
            (Phase::CleanReplied { session }, Answer::Flag(delivered)) => {
                if session.is_some() && !delivered {
                    self.finish(
                        one_effect(
                            Effect::StopPixelCleaning { device_id: None, session_id: session },
                        ),
                    )
                } else {
                    self.finish(no_effects())
                }
            },
            (Phase::CleanStopped { reply }, Answer::Flag(stopped)) => match reply {
                Some(reply) => self.finish(one_effect(Effect::SendStopReply { reply, stopped })),
                None => self.finish(no_effects()),
            },
            _ => vstd::pervasive::unreached(),
        }
    }

    /// One turn of handling an event that takes a single answer.
    fn event_turn(&mut self, answer: Answer) -> (turn: Turn)
        requires
            old(self)@.wf(),
            old(self)@.phase is UsbConnected || old(self)@.phase is StartupImage
                || old(self)@.phase is WirelessOperation || old(self)@.phase is FanQuantity
                || old(self)@.phase is OpenRgb || old(self)@.phase is Resync
                || old(self)@.phase is BindAll || old(self)@.phase is UnbindAll
                || old(self)@.phase is ResumedRgb,
            answer.kind() == old(self)@.awaits(),
        ensures
            final(self)@ == event_step(old(self)@, answer).state,
            turn@ == event_step(old(self)@, answer).plan,
    {
        let mut phase = Phase::Stopped;
        std::mem::swap(&mut self.phase, &mut phase);
        match (phase, answer) {
            (Phase::UsbConnected, Answer::Flag(connected)) => {
                if connected {
                    self.finish(no_effects())
                } else {
                    self.finish(one_effect(Effect::TryWireless))
                }
            },
            (Phase::StartupImage { id }, Answer::Outcome(outcome)) => match outcome {
                Ok(()) => self.finish(no_effects()),
                Err(message) => self.finish(one_effect(Effect::FailStartupImage { id, message })),
            },
            (Phase::WirelessOperation { operation_id }, Answer::Outcome(outcome)) => {
                let result = match outcome {
                    Ok(()) => Ok(()),
                    Err(message) => Err(OperationError::Device { message }),
                };
                self.start_poll(
                    one_effect(Effect::CompleteWirelessOperation { operation_id, result }),
                    false,
                )
            },
            (Phase::FanQuantity { reply }, Answer::Outcome(result)) => {
                self.finish(one_effect(Effect::SendFanReply { reply, result }))
            },
            (Phase::OpenRgb, Answer::OpenRgb(status)) => {
                let finished = match status.thread_finished {
                    Some(finished) => finished,
                    None => false,
                };
                let mut effects = no_effects();
                if status.error || finished {
                    effects.push(Effect::StartOpenRgbServer);
                }
                effects.push(Effect::ClearOpenRgbRetry);
                self.finish(effects)
            },
            (Phase::Resync, Answer::Rgb(status)) => {
                let effects = match status {
                    Some(status) => if status.openrgb_controlled {
                        one_effect(Effect::ResyncWirelessDirectColors)
                    } else if status.thermal_override {
                        no_effects()
                    } else {
                        one_effect(Effect::ResyncWirelessEffects)
                    },
                    None => no_effects(),
                };
                self.finish(effects)
            },
            (Phase::BindAll, Answer::Macs(macs)) => self.start_poll(bind_effects(&macs), false),
            (Phase::UnbindAll, Answer::Macs(macs)) => self.start_poll(unbind_effects(&macs), false),
            (Phase::ResumedRgb, Answer::Flag(rgb_present)) => {
                let mut effects = no_effects();
                if rgb_present {
                    effects.push(Effect::InvalidateRgb);
                }
                effects.push(Effect::RebuildRgbController);
                effects.push(Effect::RestartFanControl);
                effects.push(Effect::StartAioControl);
                effects.push(Effect::SyncIpcState);
                self.finish(effects)
            },
            _ => vstd::pervasive::unreached(),
        }
    }

    /// One turn of a device poll that the loop runs, and what follows the last.
    fn polling_turn(&mut self, answer: Answer, may_exit: bool) -> (turn: Turn)
        requires
            old(self)@.poll_wf(),
            answer.kind() == poll_awaits(old(self)@.poll),
        ensures
            final(self)@ == polling_step(old(self)@, answer, may_exit).state,
            turn@ == polling_step(old(self)@, answer, may_exit).plan,
    {
        let turn = self.poll_turn(answer);
        match turn.query {
            Query::PollFinished => {
                if may_exit && self.restart_requested {
                    self.leave_loop(turn.effects)
                } else {
                    self.finish(turn.effects)
                }
            },
            query => Turn { effects: turn.effects, query },
        }
    }

    /// One turn of the service loop.
    pub fn run_turn(&mut self, answer: Answer) -> (turn: Turn)
        requires
            old(self)@.wf(),
            answer.kind() == old(self)@.awaits(),
        ensures
            final(self)@ == run_step(old(self)@, answer).state,
            turn@ == run_step(old(self)@, answer).plan,
            final(self)@.wf(),
            turn.query.answer_kind() == final(self)@.awaits(),
    {
        proof {
            law_every_answer_is_expected(self@, answer);
        }
        match self.phase {
            Phase::Listening => match answer {
                Answer::Event { event, shutdown_requested } => match event {
                    Some(event) => self.receive(event, shutdown_requested),
                    None => self.close(no_effects()),
                },
                _ => vstd::pervasive::unreached(),
            },
            Phase::Polling { may_exit } => self.polling_turn(answer, may_exit),
            Phase::Stopping => match answer {
                Answer::Flag(requested) => {
                    self.phase = Phase::Stopped;
                    Turn {
                        effects: one_effect(Effect::Leave),
                        query: Query::Finished { restart: self.restart_requested && !requested },
                    }
                },
                _ => vstd::pervasive::unreached(),
            },
            Phase::Stopped | Phase::Monitor | Phase::Config | Phase::StartupQueued
            | Phase::Initialized => self.startup_turn(answer),
            Phase::OldBackend | Phase::LoadingConfig { .. } | Phase::NewBackend { .. }
            | Phase::FanMatch | Phase::AioReady | Phase::ThermalReady => self.config_turn(answer),
            Phase::Removal { .. } | Phase::RecreateIdentity { .. } | Phase::RecreateAsset { .. }
            | Phase::RecreateTarget { .. } | Phase::LcdReady { .. } | Phase::Brightness {
                ..
            } => self.lcd_turn(answer),
            Phase::CleanDeadline { .. } | Phase::CleanSession { .. } | Phase::CleanReplied { .. }
            | Phase::CleanStopped { .. } => self.clean_turn(answer),
            _ => self.event_turn(answer),
        }
    }
}

/// No step of a device poll strays from what is to hold between two of its turns.
pub proof fn lemma_poll_step_keeps_wf(state: State, answer: Answer)
    requires
        state.poll_wf(),
        answer.kind() == poll_awaits(state.poll),
    ensures
        ({
            let next = poll_step(state, answer);
            &&& next.state.poll_wf()
            &&& next.plan.query.answer_kind() == poll_awaits(next.state.poll)
            &&& next.plan.query is PollFinished <==> next.state.poll is Idle
            &&& next.state.permit == state.permit
            &&& next.state.phase == state.phase
        }),
{
}

/// Whether a step ends where a loop may wait for the answer that it asks for.
spec fn lands_well(next: Next) -> bool {
    &&& next.state.wf()
    &&& next.plan.query.answer_kind() == next.state.awaits()
}

proof fn lemma_handle_lands_well(state: State, event: DaemonEvent, entered: Seq<Effect>)
    requires
        state.poll_wf(),
        state.poll is Idle,
    ensures
        lands_well(handle(state, event, entered)),
{
}

proof fn lemma_startup_lands_well(state: State, answer: Answer)
    requires
        state.wf(),
        state.phase is Stopped || state.phase is Monitor || state.phase is Config
            || state.phase is StartupQueued || state.phase is Initialized,
        answer.kind() == state.awaits(),
    ensures
        lands_well(startup_step(state, answer)),
{
}

proof fn lemma_config_lands_well(state: State, answer: Answer)
    requires
        state.wf(),
        state.phase is OldBackend || state.phase is LoadingConfig || state.phase is NewBackend
            || state.phase is FanMatch || state.phase is AioReady || state.phase is ThermalReady,
        answer.kind() == state.awaits(),
    ensures
        lands_well(config_step(state, answer)),
{
}

proof fn lemma_lcd_lands_well(state: State, answer: Answer)
    requires
        state.wf(),
        state.phase is Removal || state.phase is RecreateIdentity || state.phase is RecreateAsset
            || state.phase is RecreateTarget || state.phase is LcdReady
            || state.phase is Brightness,
        answer.kind() == state.awaits(),
    ensures
        lands_well(lcd_step(state, answer)),
{
}

proof fn lemma_clean_lands_well(state: State, answer: Answer)
    requires
        state.wf(),
        state.phase is CleanDeadline || state.phase is CleanSession || state.phase is CleanReplied
            || state.phase is CleanStopped,
        answer.kind() == state.awaits(),
    ensures
        lands_well(clean_step(state, answer)),
{
}

proof fn lemma_event_lands_well(state: State, answer: Answer)
    requires
        state.wf(),
        state.phase is UsbConnected || state.phase is StartupImage
            || state.phase is WirelessOperation || state.phase is FanQuantity
            || state.phase is OpenRgb || state.phase is Resync || state.phase is BindAll
            || state.phase is UnbindAll || state.phase is ResumedRgb,
        answer.kind() == state.awaits(),
    ensures
        lands_well(event_step(state, answer)),
{
}

proof fn lemma_listen_lands_well(state: State, answer: Answer)
    requires
        state.wf(),
        state.phase is Listening || state.phase is Stopping,
        answer.kind() == state.awaits(),
    ensures
        lands_well(listen_step(state, answer)),
{
    if let Answer::Event { event: Some(event), shutdown_requested } = answer {
        let inner = inner_event(event);
        lemma_handle_lands_well(
            State { permit: permit_of(event), ..state },
            inner,
            seq![Effect::Enter { label: label_of(inner) }],
        );
    }
}

proof fn lemma_polling_lands_well(state: State, answer: Answer, may_exit: bool)
    requires
        state.wf(),
        state.phase == (Phase::Polling { may_exit }),
        answer.kind() == state.awaits(),
    ensures
        lands_well(polling_step(state, answer, may_exit)),
{
    lemma_poll_step_keeps_wf(state, answer);
}

/// Whatever the surrounding program answers, as long as it answers what was asked, the loop goes
/// on: no step strays from what is to hold between two turns, and the answer that the loop then
/// waits for is the one that its query calls for.
pub proof fn law_every_answer_is_expected(state: State, answer: Answer)
    requires
        state.wf(),
        answer.kind() == state.awaits(),
    ensures
        run_step(state, answer).state.wf(),
        run_step(state, answer).plan.query.answer_kind() == run_step(state, answer).state.awaits(),
{
    assert(lands_well(run_step(state, answer))) by {
        match state.phase {
            Phase::Stopped | Phase::Monitor | Phase::Config | Phase::StartupQueued
            | Phase::Initialized => lemma_startup_lands_well(state, answer),
            Phase::Listening | Phase::Stopping => lemma_listen_lands_well(state, answer),
            Phase::Polling { may_exit } => lemma_polling_lands_well(state, answer, may_exit),
            Phase::OldBackend | Phase::LoadingConfig { .. } | Phase::NewBackend { .. }
            | Phase::FanMatch | Phase::AioReady | Phase::ThermalReady => lemma_config_lands_well(
                state,
                answer,
            ),
            Phase::Removal { .. } | Phase::RecreateIdentity { .. } | Phase::RecreateAsset { .. }
            | Phase::RecreateTarget { .. } | Phase::LcdReady { .. } | Phase::Brightness {
                ..
            } => lemma_lcd_lands_well(state, answer),
            Phase::CleanDeadline { .. } | Phase::CleanSession { .. } | Phase::CleanReplied { .. }
            | Phase::CleanStopped { .. } => lemma_clean_lands_well(state, answer),
            _ => lemma_event_lands_well(state, answer),
        }
    }
}

} // verus!
