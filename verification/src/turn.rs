//! The conversation between the core and the surrounding program. In each turn the core names the
//! effects to perform, in order, and then asks one question; the next turn starts with the answer.

use crate::event::{DaemonEvent, Handle, Nanos};
use crate::lcd::LcdTarget;
use vstd::prelude::*;

verus! {

/// Why a bind or unbind operation failed.
#[derive(Debug, PartialEq, Eq)]
pub enum OperationError {
    /// The request does not spell a MAC address.
    InvalidMacAddress,
    /// What the wireless controller said.
    Device { message: String },
}

impl OperationError {
    /// The message for the client that asked for the operation.
    pub open spec fn text(self) -> Seq<char> {
        match self {
            OperationError::InvalidMacAddress => "invalid wireless MAC address"@,
            OperationError::Device { message } => message@,
        }
    }

    /// The message for the client that asked for the operation.
    pub fn message(&self) -> (message: String)
        ensures
            message@ == self.text(),
    {
        match self {
            OperationError::InvalidMacAddress => "invalid wireless MAC address".to_string(),
            OperationError::Device { message } => message.clone(),
        }
    }
}

/// Why a pixel cleaning session did not start.
#[derive(Debug, PartialEq, Eq)]
pub enum CleanError {
    /// The request was handled too late.
    Expired,
    /// What the pixel cleaner said.
    Refused { message: String },
}

impl CleanError {
    /// The message for the client that asked for the session.
    pub open spec fn text(self) -> Seq<char> {
        match self {
            CleanError::Expired => "Pixel cleaner request expired"@,
            CleanError::Refused { message } => message@,
        }
    }

    /// The message for the client that asked for the session.
    pub fn message(&self) -> (message: String)
        ensures
            message@ == self.text(),
    {
        match self {
            CleanError::Expired => "Pixel cleaner request expired".to_string(),
            CleanError::Refused { message } => message.clone(),
        }
    }
}

/// Something for the surrounding program to do.
#[allow(inconsistent_fields)]
#[derive(Debug, PartialEq, Eq)]
pub enum Effect {
    /// The operation monitor starts to watch an operation under this label.
    Enter { label: &'static str },
    /// The operation that was entered last is over.
    Leave,
    /// Write the default configuration to the configuration path, creating its directory.
    CreateDefaultConfig,
    /// Make the event queue and attach the signal monitor to it.
    OpenQueue,
    /// Drop the receiving side of the event queue, and what is still in it.
    CloseQueue,
    InitializeRuntime,
    /// Start the timer thread that runs `usb_tick`.
    SpawnUsbTimer,
    /// Start the timer thread that runs `poll_tick`.
    SpawnPollTimer,
    /// Start the worker that streams frames to the LCDs.
    SpawnStreaming,
    WakeStreaming,
    StopStreaming,
    InitSensors,
    Shutdown,
    /// Drop an event that is not handled, with all that it holds.
    Discard { event: DaemonEvent },
    ReleasePermit { permit: Handle },
    /// Send an event to the service loop itself; whether it arrives is of no interest.
    Send { event: DaemonEvent },
    /// The poll that opened this handling was received: open the poll gate.
    DequeuePoll,
    PollStartupImage,
    RefreshAfterModeSwitch,
    CheckPixelCleanSessions,
    RefreshUsbDeviceCache,
    TryWireless,
    /// Report that a startup image could not be stored.
    FailStartupImage { id: u64, message: String },
    DisplaySwitchToDesktop { device_id: String },
    DisplaySwitchToLcd { device_id: String, pid: u16 },
    CompleteWirelessOperation { operation_id: String, result: Result<(), OperationError> },
    SendFanReply { reply: Handle, result: Result<(), String> },
    StartFanControl,
    RestartFanControl,
    /// Hand the current configuration to the running AIO controller.
    SetAioConfig,
    StartAioControl,
    EnsureAioDefaults,
    StartOpenRgbServer,
    /// The shared state no longer shows a pending retry of the OpenRGB server.
    ClearOpenRgbRetry,
    ApplyEne6k77Quantities,
    ApplyRgbConfig,
    RebuildRgbController,
    InvalidateRgb,
    ResyncWirelessDirectColors,
    ResyncWirelessEffects,
    /// Hand the configured thresholds to the thermal alert.
    UpdateThermalSettings,
    CheckThermalOverride,
    SyncIpcState,
    SyncIpcTelemetry,
    PollPreparedMedia,
    ClearStartupRecovery { device_id: String },
    RecordPlaybackFailure { target_index: usize, key: String, error: String },
    RetryDesktopDisplay { bus: u8, address: u8, product_id: u16 },
    /// Take the target out of its slot, and keep it until `DropRemovedTarget`.
    RemoveTarget { target_index: usize },
    DropRemovedTarget,
    /// Swap the prepared media into the target, with the target's own encoder setting.
    SwapMedia { target_index: usize },
    FinishInitialization { target_index: usize, error: Option<String> },
    /// Start the recovery thread of the target unless its LCD stays busy for that long.
    StartRecovery { target_index: usize, wait_millis: u64 },
    FlushPendingBrightness { target_index: usize },
    RecordLcdInitialization { device_id: String, error: Option<String> },
    ApplyBrightness { target_index: usize, brightness: u8 },
    RebootLcdGroup { mac: [u8; 6] },
    SetLc217Wifi { mac: [u8; 6], disable: bool },
    /// Bind the device; a failure is only logged.
    Bind { mac: [u8; 6] },
    /// Unbind the device; a failure is only logged.
    Unbind { mac: [u8; 6] },
    StopPixelCleaning { device_id: Option<String>, session_id: Option<u64> },
    SendStopReply { reply: Handle, stopped: bool },
    InvalidateSensors,
    /// Bind the device on a thread of its own, and count as in flight until that is done.
    StartRebind { mac: [u8; 6] },
    /// Switch the channel on a thread of its own, and count as in flight until that is done.
    StartChannelSwitch { channel: u8 },
    CheckWiredHotplug,
    ReconcileWiredWirelessBinding,
    RefreshTargets,
    ScheduleFirmwareRead { device_id: String, delay_secs: u64, enable_512: bool },
    SetUseCCommand { target_index: usize, enabled: bool },
    RecordFirmware { device_id: String, version: Option<String>, supports_c_command: bool },
    MarkFirmwareFailed { device_id: String },
    /// Let go of the LCD that was found idle, and of its lock.
    ReleaseLcd { target_index: usize },
}

/// What the core asks at the end of a turn.
#[allow(inconsistent_fields)]
#[derive(Debug, PartialEq, Eq)]
pub enum Query {
    /// Nothing: go on when the effects are done.
    Proceed,
    /// Make the operation monitor.
    CreateMonitor,
    ConfigExists,
    /// Run `queue_startup_events`.
    QueueStartupEvents,
    ShutdownRequested,
    /// Wait for the next event.
    NextEvent,
    WirelessConnected,
    StartStartupImage {
        id: u64,
        device_id: String,
        jpeg: Vec<u8>,
        capabilities: Handle,
        cancel: Handle,
        permit: Option<Handle>,
    },
    BindDevice { mac: [u8; 6] },
    UnbindDevice { mac: [u8; 6] },
    SetFanQuantity { device_id: String, quantity: u8 },
    /// The HID backend that the current configuration names, if there is a configuration.
    HidBackend,
    /// Load the configuration: did that work?
    LoadConfig,
    /// Does the running fan controller match the current configuration, if there are both?
    FanMatchesConfig,
    /// Is there an AIO controller, and is there a configuration?
    AioReady,
    /// Is there a thermal alert, and is there a configuration?
    ThermalAlertReady,
    OpenRgbStatus,
    RgbStatus,
    RgbPresent,
    /// Does the target in that slot carry that removal mark, if there is one?
    MatchesRemoval { target_index: usize, removal: Handle },
    /// The device id of the target in that slot, if there is one.
    TargetIdentity { target_index: usize },
    MediaAssetPresent { target_index: usize },
    TargetPresent { target_index: usize },
    /// All targets, each with whether it is driven over that attachment.
    Targets { attachment: Option<Handle> },
    UnboundDevices,
    BoundDevices,
    Now,
    ActivatePixelCleaning { preparation_id: u64 },
    StartPixelCleaning { device_id: Option<String>, duration_minutes: u16 },
    /// Send the outcome to the client: was it still there?
    SendCleanReply { reply: Handle, result: Result<(u64, bool), CleanError> },
    /// Stop the matching sessions: did that stop any?
    StopPixelCleaning { device_id: Option<String>, session_id: Option<u64> },
    /// Has the system come back from sleep since this was last asked?
    PollResume,
    /// How many wireless devices are bound?
    WirelessDeviceCount,
    /// Do the devices that were just counted match those of the RGB controller, if there is one?
    TopologyMatches,
    RebindInFlight,
    RebindCandidates,
    ChannelInFlight,
    /// The channel that the arbitration asks for, if any.
    ChannelTarget,
    /// Take out the devices whose firmware is due to be read.
    DrainDueFirmware,
    /// Is no stream running on that LCD? If so, keep it from starting one until `ReleaseLcd`.
    LcdIdle { target_index: usize },
    /// Lock the LCD, waiting for that long at most.
    LockLcd { target_index: usize, wait_millis: u64 },
    ReadFirmware { target_index: usize },
    /// The device poll is over.
    PollFinished,
    /// The service loop is over; should the daemon start again?
    Finished { restart: bool },
    /// The service loop could not start.
    Failed { error: String },
}

/// What the OpenRGB server looks like.
#[derive(Debug, PartialEq, Eq, Structural, Clone, Copy)]
pub struct OpenRgbStatus {
    pub error: bool,
    /// Whether the server thread has ended, if there is one.
    pub thread_finished: Option<bool>,
}

/// Who determines the colors.
#[derive(Debug, PartialEq, Eq, Structural, Clone, Copy)]
pub struct RgbStatus {
    pub openrgb_controlled: bool,
    pub thermal_override: bool,
}

/// What the firmware of an AIO LCD said.
#[derive(Debug, PartialEq, Eq)]
pub struct FirmwareReading {
    pub version: Option<String>,
    pub supports_c_command: bool,
}

/// The answer to a query.
#[derive(Debug, PartialEq, Eq)]
pub enum Answer {
    /// Starts a conversation.
    Begin,
    Done,
    Flag(bool),
    Outcome(Result<(), String>),
    Count(usize),
    /// `None` where there is nothing to compare.
    Match(Option<bool>),
    Both(bool, bool),
    Rebind { configured: Vec<String>, now: Nanos, candidates: Vec<[u8; 6]> },
    Channel(Option<u8>),
    /// Device ids, each with whether its LCD is to use the large transfer command.
    Due(Vec<(String, bool)>),
    Targets(Vec<LcdTarget>),
    /// `None` where the firmware could not be read.
    Reading(Option<FirmwareReading>),
    /// `None` where nobody can send any more.
    Event { event: Option<DaemonEvent>, shutdown_requested: bool },
    Backend(Option<u8>),
    OpenRgb(OpenRgbStatus),
    Rgb(Option<RgbStatus>),
    Identity(Option<String>),
    Macs(Vec<[u8; 6]>),
    Now(Nanos),
    Session(Result<u64, String>),
}

/// The shape of an answer.
pub enum AnswerKind {
    Begin,
    Done,
    Flag,
    Outcome,
    Count,
    Match,
    Both,
    Rebind,
    Channel,
    Due,
    Targets,
    Reading,
    Event,
    Backend,
    OpenRgb,
    Rgb,
    Identity,
    Macs,
    Now,
    Session,
}

impl Answer {
    pub open spec fn kind(self) -> AnswerKind {
        match self {
            Answer::Begin => AnswerKind::Begin,
            Answer::Done => AnswerKind::Done,
            Answer::Flag(_) => AnswerKind::Flag,
            Answer::Outcome(_) => AnswerKind::Outcome,
            Answer::Count(_) => AnswerKind::Count,
            Answer::Match(_) => AnswerKind::Match,
            Answer::Both(_, _) => AnswerKind::Both,
            Answer::Rebind { .. } => AnswerKind::Rebind,
            Answer::Channel(_) => AnswerKind::Channel,
            Answer::Due(_) => AnswerKind::Due,
            Answer::Targets(_) => AnswerKind::Targets,
            Answer::Reading(_) => AnswerKind::Reading,
            Answer::Event { .. } => AnswerKind::Event,
            Answer::Backend(_) => AnswerKind::Backend,
            Answer::OpenRgb(_) => AnswerKind::OpenRgb,
            Answer::Rgb(_) => AnswerKind::Rgb,
            Answer::Identity(_) => AnswerKind::Identity,
            Answer::Macs(_) => AnswerKind::Macs,
            Answer::Now(_) => AnswerKind::Now,
            Answer::Session(_) => AnswerKind::Session,
        }
    }
}

impl Query {
    /// The shape of the answer that the query calls for. After a conversation is over, the next one
    /// may begin.
    pub open spec fn answer_kind(self) -> AnswerKind {
        match self {
            Query::Proceed => AnswerKind::Done,
            Query::CreateMonitor | Query::QueueStartupEvents | Query::StartStartupImage { .. }
            | Query::BindDevice { .. } | Query::UnbindDevice { .. } | Query::SetFanQuantity {
                ..
            } => AnswerKind::Outcome,
            Query::ConfigExists | Query::ShutdownRequested | Query::WirelessConnected
            | Query::LoadConfig | Query::RgbPresent | Query::MediaAssetPresent { .. }
            | Query::TargetPresent { .. } | Query::SendCleanReply { .. }
            | Query::StopPixelCleaning { .. } | Query::PollResume | Query::RebindInFlight
            | Query::ChannelInFlight | Query::LcdIdle { .. } | Query::LockLcd {
                ..
            } => AnswerKind::Flag,
            Query::NextEvent => AnswerKind::Event,
            Query::HidBackend => AnswerKind::Backend,
            Query::FanMatchesConfig | Query::MatchesRemoval { .. }
            | Query::TopologyMatches => AnswerKind::Match,
            Query::AioReady | Query::ThermalAlertReady => AnswerKind::Both,
            Query::OpenRgbStatus => AnswerKind::OpenRgb,
            Query::RgbStatus => AnswerKind::Rgb,
            Query::TargetIdentity { .. } => AnswerKind::Identity,
            Query::Targets { .. } => AnswerKind::Targets,
            Query::UnboundDevices | Query::BoundDevices => AnswerKind::Macs,
            Query::Now => AnswerKind::Now,
            Query::ActivatePixelCleaning { .. } | Query::StartPixelCleaning {
                ..
            } => AnswerKind::Session,
            Query::WirelessDeviceCount => AnswerKind::Count,
            Query::RebindCandidates => AnswerKind::Rebind,
            Query::ChannelTarget => AnswerKind::Channel,
            Query::DrainDueFirmware => AnswerKind::Due,
            Query::ReadFirmware { .. } => AnswerKind::Reading,
            Query::PollFinished | Query::Finished { .. } | Query::Failed {
                ..
            } => AnswerKind::Begin,
        }
    }
}

/// What the surrounding program does next: perform the effects in order, then answer the query.
#[derive(Debug)]
pub struct Turn {
    pub effects: Vec<Effect>,
    pub query: Query,
}

/// A turn as a mathematical value.
#[verifier::ext_equal]
pub struct Plan {
    pub effects: Seq<Effect>,
    pub query: Query,
}

impl View for Turn {
    type V = Plan;

    open spec fn view(&self) -> Plan {
        Plan { effects: self.effects@, query: self.query }
    }
}

/// A plan with effects put in front of its own.
pub open spec fn preceded(effects: Seq<Effect>, plan: Plan) -> Plan {
    Plan { effects: effects + plan.effects, ..plan }
}

impl Turn {
    /// Puts effects in front of those of the turn.
    pub fn preceded_by(self, effects: Vec<Effect>) -> (turn: Turn)
        ensures
            turn@ == preceded(effects@, self@),
    {
        let mut all = effects;
        let mut own = self.effects;
        all.append(&mut own);
        Turn { effects: all, query: self.query }
    }
}

pub(crate) fn no_effects() -> (effects: Vec<Effect>)
    ensures
        effects@ == Seq::<Effect>::empty(),
{
    Vec::new()
}

pub(crate) fn one_effect(effect: Effect) -> (effects: Vec<Effect>)
    ensures
        effects@ == seq![effect],
{
    let mut effects: Vec<Effect> = Vec::new();
    effects.push(effect);
    effects
}

} // verus!
