//! What the service loop remembers from one turn to the next.

use crate::event::{Handle, Nanos};
use crate::turn::{AnswerKind, Effect, Plan, Query};
use crate::wireless::{channel_wf, ChannelStreak, RebindLog, WirelessCount};
use vstd::prelude::*;

verus! {

/// How far a device poll has come: which answer it waits for.
#[derive(Debug)]
pub enum PollStage {
    /// No poll is under way.
    Idle,
    /// Prepared media is being taken over.
    Prepared,
    /// Has the system resumed?
    Resume,
    /// How many wireless devices are there?
    Devices,
    /// The controllers are being rebuilt for that many devices.
    Rebuilt { count: usize },
    /// Does the RGB controller know the devices?
    Topology,
    RebindBusy,
    RebindCandidates,
    ChannelBusy,
    ChannelTarget,
    /// Which targets are there to be serviced?
    Servicing,
    /// Whose firmware is to be read?
    FirmwareDue,
    /// Which targets are there, one of which may be the device at `next`?
    FirmwareTargets { due: Vec<(String, bool)>, next: usize },
    FirmwareIdle { due: Vec<(String, bool)>, next: usize, target_index: usize },
    FirmwareLock { due: Vec<(String, bool)>, next: usize, target_index: usize },
    FirmwareRead { due: Vec<(String, bool)>, next: usize, target_index: usize },
    /// Is there an RGB controller to check for a thermal override?
    Thermal,
    /// The telemetry is being published.
    Finishing,
}

/// How far the service loop has come: which answer it waits for.
#[allow(inconsistent_fields)]
#[derive(Debug)]
pub enum Phase {
    /// The loop is not running.
    Stopped,
    Monitor,
    Config,
    StartupQueued,
    Initialized,
    /// Waiting for an event.
    Listening,
    /// A device poll runs; afterwards the loop ends if a restart was asked for and `may_exit`.
    Polling { may_exit: bool },
    UsbConnected,
    StartupImage { id: u64 },
    WirelessOperation { operation_id: String },
    FanQuantity { reply: Handle },
    OldBackend,
    LoadingConfig { old_backend: Option<u8> },
    NewBackend { old_backend: Option<u8> },
    FanMatch,
    AioReady,
    ThermalReady,
    OpenRgb,
    Resync,
    Removal { target_index: usize, key: String, error: String },
    RecreateIdentity { target_index: usize, device_id: String },
    RecreateAsset { target_index: usize },
    RecreateTarget { target_index: usize },
    LcdReady { device_id: String, error: Option<String> },
    BindAll,
    UnbindAll,
    Brightness { device_id: String, brightness: u8 },
    CleanDeadline {
        device_id: Option<String>,
        duration_minutes: u16,
        preparation_id: Option<u64>,
        deadline: Nanos,
        reply: Handle,
    },
    CleanSession { reply: Handle, activated: bool },
    CleanReplied { session: Option<u64> },
    CleanStopped { reply: Option<Handle> },
    ResumedRgb,
    /// The loop has ended; does its end stem from a signal?
    Stopping,
}

/// What the service loop remembers from one turn to the next.
#[derive(Debug)]
pub struct ServiceState {
    /// Whether the loop can send events to itself.
    pub tx: bool,
    pub wireless_count: WirelessCount,
    pub wireless_rebind_last: RebindLog,
    pub wireless_channel_streak: ChannelStreak,
    /// Whether the daemon is to start again. Other parts of the daemon may ask for it, too.
    pub restart_requested: bool,
    /// Whether a startup image is being stored. Whoever stores it keeps this up to date.
    pub startup_image_job: bool,
    /// Whether a configuration change waits for the startup image to be stored. Whoever stores the
    /// image takes it up afterwards.
    pub startup_config_pending: bool,
    /// Whether the configuration is to be loaded again after pixel cleaning, as the cleaner asks.
    pub cleaner_reload_pending: bool,
    /// The write permit of the event that is being handled.
    pub permit: Option<Handle>,
    pub poll: PollStage,
    pub phase: Phase,
}

/// The same as a mathematical value.
pub struct State {
    pub tx: bool,
    pub wireless_count: WirelessCount,
    pub wireless_rebind_last: Map<[u8; 6], Nanos>,
    pub wireless_channel_streak: ChannelStreak,
    pub restart_requested: bool,
    pub startup_image_job: bool,
    pub startup_config_pending: bool,
    pub cleaner_reload_pending: bool,
    pub permit: Option<Handle>,
    pub poll: PollStage,
    pub phase: Phase,
}

impl View for ServiceState {
    type V = State;

    open spec fn view(&self) -> State {
        State {
            tx: self.tx,
            wireless_count: self.wireless_count,
            wireless_rebind_last: self.wireless_rebind_last@,
            wireless_channel_streak: self.wireless_channel_streak,
            restart_requested: self.restart_requested,
            startup_image_job: self.startup_image_job,
            startup_config_pending: self.startup_config_pending,
            cleaner_reload_pending: self.cleaner_reload_pending,
            permit: self.permit,
            poll: self.poll,
            phase: self.phase,
        }
    }
}

/// The answer that a device poll waits for.
pub open spec fn poll_awaits(poll: PollStage) -> AnswerKind {
    match poll {
        PollStage::Idle => AnswerKind::Begin,
        PollStage::Prepared | PollStage::Rebuilt { .. } | PollStage::Finishing => AnswerKind::Done,
        PollStage::Resume | PollStage::RebindBusy | PollStage::ChannelBusy
        | PollStage::FirmwareIdle { .. } | PollStage::FirmwareLock {
            ..
        } | PollStage::Thermal => AnswerKind::Flag,
        PollStage::Devices => AnswerKind::Count,
        PollStage::Topology => AnswerKind::Match,
        PollStage::RebindCandidates => AnswerKind::Rebind,
        PollStage::ChannelTarget => AnswerKind::Channel,
        PollStage::Servicing | PollStage::FirmwareTargets { .. } => AnswerKind::Targets,
        PollStage::FirmwareDue => AnswerKind::Due,
        PollStage::FirmwareRead { .. } => AnswerKind::Reading,
    }
}

impl State {
    /// What holds between any two turns of a device poll.
    pub open spec fn poll_wf(self) -> bool {
        &&& match self.poll {
            PollStage::Rebuilt { count } => self.wireless_count.pending_count == Some(count),
            _ => self.wireless_count.wf(),
        }
        &&& channel_wf(self.wireless_channel_streak)
        &&& match self.poll {
            PollStage::FirmwareTargets { due, next } => next < due.len(),
            PollStage::FirmwareIdle { due, next, .. } => next < due.len(),
            PollStage::FirmwareLock { due, next, .. } => next < due.len(),
            PollStage::FirmwareRead { due, next, .. } => next < due.len(),
            _ => true,
        }
    }

    /// What holds between any two turns of the service loop: no device poll is under way outside
    /// its phase, and outside the handling of an event no permit is held.
    pub open spec fn wf(self) -> bool {
        &&& self.poll_wf()
        &&& !(self.phase is Polling) ==> self.poll is Idle
        &&& match self.phase {
            Phase::Stopped | Phase::Monitor | Phase::Config | Phase::StartupQueued
            | Phase::Initialized | Phase::Listening | Phase::Stopping => self.permit is None,
            _ => true,
        }
    }

    /// The answer that the service loop waits for.
    pub open spec fn awaits(self) -> AnswerKind {
        match self.phase {
            Phase::Stopped => AnswerKind::Begin,
            Phase::Monitor | Phase::StartupQueued | Phase::StartupImage { .. }
            | Phase::WirelessOperation { .. } | Phase::FanQuantity { .. } => AnswerKind::Outcome,
            Phase::Config | Phase::Initialized | Phase::UsbConnected | Phase::LoadingConfig { .. }
            | Phase::RecreateAsset { .. } | Phase::RecreateTarget { .. } | Phase::CleanReplied {
                ..
            } | Phase::CleanStopped { .. } | Phase::ResumedRgb
            | Phase::Stopping => AnswerKind::Flag,
            Phase::Listening => AnswerKind::Event,
            Phase::Polling { .. } => poll_awaits(self.poll),
            Phase::OldBackend | Phase::NewBackend { .. } => AnswerKind::Backend,
            Phase::FanMatch | Phase::Removal { .. } => AnswerKind::Match,
            Phase::AioReady | Phase::ThermalReady => AnswerKind::Both,
            Phase::OpenRgb => AnswerKind::OpenRgb,
            Phase::Resync => AnswerKind::Rgb,
            Phase::RecreateIdentity { .. } => AnswerKind::Identity,
            Phase::LcdReady { .. } | Phase::Brightness { .. } => AnswerKind::Targets,
            Phase::BindAll | Phase::UnbindAll => AnswerKind::Macs,
            Phase::CleanDeadline { .. } => AnswerKind::Now,
            Phase::CleanSession { .. } => AnswerKind::Session,
        }
    }
}

/// The state and the turn that an answer leads to.
pub struct Next {
    pub state: State,
    pub plan: Plan,
}

pub open spec fn go(state: State, effects: Seq<Effect>, query: Query) -> Next {
    Next { state, plan: Plan { effects, query } }
}

/// What a service loop that has not run yet remembers.
pub open spec fn initial_state() -> State {
    State {
        tx: false,
        wireless_count: WirelessCount::settled(0),
        wireless_rebind_last: Map::empty(),
        wireless_channel_streak: None,
        restart_requested: false,
        startup_image_job: false,
        startup_config_pending: false,
        cleaner_reload_pending: false,
        permit: None,
        poll: PollStage::Idle,
        phase: Phase::Stopped,
    }
}

impl ServiceState {
    pub fn new() -> (state: Self)
        ensures
            state@ == initial_state(),
            state@.wf(),
    {
        ServiceState {
            tx: false,
            wireless_count: WirelessCount::new(),
            wireless_rebind_last: RebindLog::new(),
            wireless_channel_streak: None,
            restart_requested: false,
            startup_image_job: false,
            startup_config_pending: false,
            cleaner_reload_pending: false,
            permit: None,
            poll: PollStage::Idle,
            phase: Phase::Stopped,
        }
    }
}

} // verus!
