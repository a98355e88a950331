//! The events that the service loop consumes, and the label under which each one is watched.

use vstd::prelude::*;

verus! {

/// Names a value that the surrounding program holds: a write permit, a cancellation flag, the
/// capabilities of a startup image, a reply channel, or the identity of an attachment. The core
/// only carries it from the event to the effect that uses it.
pub type Handle = u64;

/// A point in time, in nanoseconds since a fixed origin that the surrounding program picks.
pub type Nanos = u64;

/// What the service loop can be told.
#[allow(inconsistent_fields)]
#[derive(Debug, PartialEq, Eq)]
pub enum DaemonEvent {
    UploadStartupImage {
        id: u64,
        device_id: String,
        jpeg: Vec<u8>,
        capabilities: Handle,
        cancel: Handle,
    },
    /// An event that was sent under a write permit, which is held while the event is handled.
    Coordinated { event: Box<DaemonEvent>, permit: Handle },
    /// Somebody changed the shared daemon state.
    IpcUpdate,
    RetryOpenRgb,
    RetryMedia,
    ClearStartupImageRecovery { device_id: String },
    USBCheck,
    DevicePoll,
    /// From LCD to desktop mode.
    DisplaySwitch { device_id: String },
    /// From desktop to LCD mode.
    DisplaySwitchToLcd { device_id: String, pid: u16 },
    Bind { mac_address: String, operation_id: String },
    Unbind { mac_address: String, operation_id: String },
    SetEne6k77FanQuantity { device_id: String, quantity: u8, reply: Handle },
    FrameFinished,
    MediaPrepared,
    RetryDesktopDisplay { bus: u8, address: u8, product_id: u16 },
    MediaPlaybackStopped { target_index: usize, key: String, error: String },
    RecreateMedia { target_index: usize, device_id: String },
    RemoveFailedLcd { target_index: usize, removal: Handle, key: String, error: String },
    ResyncWirelessRgb,
    LcdInitComplete { device_id: String, attachment: Handle, error: Option<String> },
    SystemResumed,
    RebootWirelessLcd { mac: [u8; 6] },
    DisableLc217Wifi { mac: [u8; 6], disable: bool },
    SetLcdBrightness { device_id: String, brightness: u8 },
    StartPixelClean {
        device_id: Option<String>,
        duration_minutes: u16,
        preparation_id: Option<u64>,
        deadline: Nanos,
        reply: Handle,
    },
    StopPixelClean {
        device_id: Option<String>,
        session_id: Option<u64>,
        reply: Option<Handle>,
    },
    BindAll,
    UnbindAll,
    /// A termination signal was received: leave the event loop cleanly.
    Shutdown,
}

/// The event that is handled, without the permit that it came with.
pub open spec fn inner_event(event: DaemonEvent) -> DaemonEvent {
    match event {
        DaemonEvent::Coordinated { event, .. } => *event,
        _ => event,
    }
}

/// The permit that an event came with.
pub open spec fn permit_of(event: DaemonEvent) -> Option<Handle> {
    match event {
        DaemonEvent::Coordinated { permit, .. } => Some(permit),
        _ => None,
    }
}

/// The label of each kind of event.
pub open spec fn label_of(event: DaemonEvent) -> &'static str {
    match event {
        DaemonEvent::Coordinated { .. } => "IpcMutation",
        DaemonEvent::IpcUpdate => "IpcUpdate",
        DaemonEvent::RetryOpenRgb => "RetryOpenRgb",
        DaemonEvent::RetryMedia => "RetryMedia",
        DaemonEvent::ClearStartupImageRecovery { .. } => "ClearStartupImageRecovery",
        DaemonEvent::USBCheck => "USBCheck",
        DaemonEvent::DevicePoll => "DevicePoll",
        DaemonEvent::DisplaySwitch { .. } => "DisplaySwitch",
        DaemonEvent::DisplaySwitchToLcd { .. } => "DisplaySwitchToLcd",
        DaemonEvent::Bind { .. } => "Bind",
        DaemonEvent::Unbind { .. } => "Unbind",
        DaemonEvent::SetEne6k77FanQuantity { .. } => "SetEne6k77FanQuantity",
        DaemonEvent::FrameFinished => "FrameFinished",
        DaemonEvent::MediaPrepared => "MediaPrepared",
        DaemonEvent::RecreateMedia { .. } => "RecreateMedia",
        DaemonEvent::RemoveFailedLcd { .. } => "RemoveFailedLcd",
        DaemonEvent::RetryDesktopDisplay { .. } => "RetryDesktopDisplay",
        DaemonEvent::MediaPlaybackStopped { .. } => "MediaPlaybackStopped",
        DaemonEvent::ResyncWirelessRgb => "ResyncWirelessRgb",
        DaemonEvent::LcdInitComplete { .. } => "LcdInitComplete",
        DaemonEvent::SystemResumed => "SystemResumed",
        DaemonEvent::RebootWirelessLcd { .. } => "RebootWirelessLcd",
        DaemonEvent::DisableLc217Wifi { .. } => "DisableLc217Wifi",
        DaemonEvent::SetLcdBrightness { .. } => "SetLcdBrightness",
        DaemonEvent::StartPixelClean { .. } => "StartPixelClean",
        DaemonEvent::UploadStartupImage { .. } => "UploadStartupImage",
        DaemonEvent::StopPixelClean { .. } => "StopPixelClean",
        DaemonEvent::BindAll => "BindAll",
        DaemonEvent::UnbindAll => "UnbindAll",
        DaemonEvent::Shutdown => "Shutdown",
    }
}

/// The label under which the operation monitor watches the handling of `event`.
pub fn event_label(event: &DaemonEvent) -> (label: &'static str)
    ensures
        label == label_of(*event),
{
    match event {
        DaemonEvent::Coordinated { .. } => "IpcMutation",
        DaemonEvent::IpcUpdate => "IpcUpdate",
        DaemonEvent::RetryOpenRgb => "RetryOpenRgb",
        DaemonEvent::RetryMedia => "RetryMedia",
        DaemonEvent::ClearStartupImageRecovery { .. } => "ClearStartupImageRecovery",
        DaemonEvent::USBCheck => "USBCheck",
        DaemonEvent::DevicePoll => "DevicePoll",
        DaemonEvent::DisplaySwitch { .. } => "DisplaySwitch",
        DaemonEvent::DisplaySwitchToLcd { .. } => "DisplaySwitchToLcd",
        DaemonEvent::Bind { .. } => "Bind",
        DaemonEvent::Unbind { .. } => "Unbind",
        DaemonEvent::SetEne6k77FanQuantity { .. } => "SetEne6k77FanQuantity",
        DaemonEvent::FrameFinished => "FrameFinished",
        DaemonEvent::MediaPrepared => "MediaPrepared",
        DaemonEvent::RecreateMedia { .. } => "RecreateMedia",
        DaemonEvent::RemoveFailedLcd { .. } => "RemoveFailedLcd",
        DaemonEvent::RetryDesktopDisplay { .. } => "RetryDesktopDisplay",
        DaemonEvent::MediaPlaybackStopped { .. } => "MediaPlaybackStopped",
        DaemonEvent::ResyncWirelessRgb => "ResyncWirelessRgb",
        DaemonEvent::LcdInitComplete { .. } => "LcdInitComplete",
        DaemonEvent::SystemResumed => "SystemResumed",
        DaemonEvent::RebootWirelessLcd { .. } => "RebootWirelessLcd",
        DaemonEvent::DisableLc217Wifi { .. } => "DisableLc217Wifi",
        DaemonEvent::SetLcdBrightness { .. } => "SetLcdBrightness",
        DaemonEvent::StartPixelClean { .. } => "StartPixelClean",
        DaemonEvent::UploadStartupImage { .. } => "UploadStartupImage",
        DaemonEvent::StopPixelClean { .. } => "StopPixelClean",
        DaemonEvent::BindAll => "BindAll",
        DaemonEvent::UnbindAll => "UnbindAll",
        DaemonEvent::Shutdown => "Shutdown",
    }
}

/// Whether two events are of the same kind.
pub open spec fn same_kind(a: DaemonEvent, b: DaemonEvent) -> bool {
    match (a, b) {
        (DaemonEvent::Coordinated { .. }, DaemonEvent::Coordinated { .. }) => true,
        (DaemonEvent::IpcUpdate, DaemonEvent::IpcUpdate) => true,
        (DaemonEvent::RetryOpenRgb, DaemonEvent::RetryOpenRgb) => true,
        (DaemonEvent::RetryMedia, DaemonEvent::RetryMedia) => true,
        (DaemonEvent::ClearStartupImageRecovery { .. }, DaemonEvent::ClearStartupImageRecovery {
            ..
        }) => true,
        (DaemonEvent::USBCheck, DaemonEvent::USBCheck) => true,
        (DaemonEvent::DevicePoll, DaemonEvent::DevicePoll) => true,
        (DaemonEvent::DisplaySwitch { .. }, DaemonEvent::DisplaySwitch { .. }) => true,
        (DaemonEvent::DisplaySwitchToLcd { .. }, DaemonEvent::DisplaySwitchToLcd { .. }) => true,
        (DaemonEvent::Bind { .. }, DaemonEvent::Bind { .. }) => true,
        (DaemonEvent::Unbind { .. }, DaemonEvent::Unbind { .. }) => true,
        (DaemonEvent::SetEne6k77FanQuantity { .. }, DaemonEvent::SetEne6k77FanQuantity {
            ..
        }) => true,
        (DaemonEvent::FrameFinished, DaemonEvent::FrameFinished) => true,
        (DaemonEvent::MediaPrepared, DaemonEvent::MediaPrepared) => true,
        (DaemonEvent::RecreateMedia { .. }, DaemonEvent::RecreateMedia { .. }) => true,
        (DaemonEvent::RemoveFailedLcd { .. }, DaemonEvent::RemoveFailedLcd { .. }) => true,
        (DaemonEvent::RetryDesktopDisplay { .. }, DaemonEvent::RetryDesktopDisplay { .. }) => true,
        (DaemonEvent::MediaPlaybackStopped { .. }, DaemonEvent::MediaPlaybackStopped {
            ..
        }) => true,
        (DaemonEvent::ResyncWirelessRgb, DaemonEvent::ResyncWirelessRgb) => true,
        (DaemonEvent::LcdInitComplete { .. }, DaemonEvent::LcdInitComplete { .. }) => true,
        (DaemonEvent::SystemResumed, DaemonEvent::SystemResumed) => true,
        (DaemonEvent::RebootWirelessLcd { .. }, DaemonEvent::RebootWirelessLcd { .. }) => true,
        (DaemonEvent::DisableLc217Wifi { .. }, DaemonEvent::DisableLc217Wifi { .. }) => true,
        (DaemonEvent::SetLcdBrightness { .. }, DaemonEvent::SetLcdBrightness { .. }) => true,
        (DaemonEvent::StartPixelClean { .. }, DaemonEvent::StartPixelClean { .. }) => true,
        (DaemonEvent::UploadStartupImage { .. }, DaemonEvent::UploadStartupImage { .. }) => true,
        (DaemonEvent::StopPixelClean { .. }, DaemonEvent::StopPixelClean { .. }) => true,
        (DaemonEvent::BindAll, DaemonEvent::BindAll) => true,
        (DaemonEvent::UnbindAll, DaemonEvent::UnbindAll) => true,
        (DaemonEvent::Shutdown, DaemonEvent::Shutdown) => true,
        _ => false,
    }
}

/// The label tells the kind of the event: events of different kinds are watched under different
/// labels.
pub proof fn law_labels_are_distinct(a: DaemonEvent, b: DaemonEvent)
    ensures
        label_of(a)@ == label_of(b)@ <==> same_kind(a, b),
{
    // The length and the fourth character tell any two labels apart.
    reveal_strlit("IpcMutation");
    assert("IpcMutation"@.len() == 11 && "IpcMutation"@[3] == 'M');
    reveal_strlit("IpcUpdate");
    assert("IpcUpdate"@.len() == 9 && "IpcUpdate"@[3] == 'U');
    reveal_strlit("RetryOpenRgb");
    assert("RetryOpenRgb"@.len() == 12 && "RetryOpenRgb"@[3] == 'r');
    reveal_strlit("RetryMedia");
    assert("RetryMedia"@.len() == 10 && "RetryMedia"@[3] == 'r');
    reveal_strlit("ClearStartupImageRecovery");
    assert("ClearStartupImageRecovery"@.len() == 25 && "ClearStartupImageRecovery"@[3] == 'a');
    reveal_strlit("USBCheck");
    assert("USBCheck"@.len() == 8 && "USBCheck"@[3] == 'C');
    reveal_strlit("DevicePoll");
    assert("DevicePoll"@.len() == 10 && "DevicePoll"@[3] == 'i');
    reveal_strlit("DisplaySwitch");
    assert("DisplaySwitch"@.len() == 13 && "DisplaySwitch"@[3] == 'p');
    reveal_strlit("DisplaySwitchToLcd");
    assert("DisplaySwitchToLcd"@.len() == 18 && "DisplaySwitchToLcd"@[3] == 'p');
    reveal_strlit("Bind");
    assert("Bind"@.len() == 4 && "Bind"@[3] == 'd');
    reveal_strlit("Unbind");
    assert("Unbind"@.len() == 6 && "Unbind"@[3] == 'i');
    reveal_strlit("SetEne6k77FanQuantity");
    assert("SetEne6k77FanQuantity"@.len() == 21 && "SetEne6k77FanQuantity"@[3] == 'E');
    reveal_strlit("FrameFinished");
    assert("FrameFinished"@.len() == 13 && "FrameFinished"@[3] == 'm');
    reveal_strlit("MediaPrepared");
    assert("MediaPrepared"@.len() == 13 && "MediaPrepared"@[3] == 'i');
    reveal_strlit("RecreateMedia");
    assert("RecreateMedia"@.len() == 13 && "RecreateMedia"@[3] == 'r');
    reveal_strlit("RemoveFailedLcd");
    assert("RemoveFailedLcd"@.len() == 15 && "RemoveFailedLcd"@[3] == 'o');
    reveal_strlit("RetryDesktopDisplay");
    assert("RetryDesktopDisplay"@.len() == 19 && "RetryDesktopDisplay"@[3] == 'r');
    reveal_strlit("MediaPlaybackStopped");
    assert("MediaPlaybackStopped"@.len() == 20 && "MediaPlaybackStopped"@[3] == 'i');
    reveal_strlit("ResyncWirelessRgb");
    assert("ResyncWirelessRgb"@.len() == 17 && "ResyncWirelessRgb"@[3] == 'y');
    reveal_strlit("LcdInitComplete");
    assert("LcdInitComplete"@.len() == 15 && "LcdInitComplete"@[3] == 'I');
    reveal_strlit("SystemResumed");
    assert("SystemResumed"@.len() == 13 && "SystemResumed"@[3] == 't');
    reveal_strlit("RebootWirelessLcd");
    assert("RebootWirelessLcd"@.len() == 17 && "RebootWirelessLcd"@[3] == 'o');
    reveal_strlit("DisableLc217Wifi");
    assert("DisableLc217Wifi"@.len() == 16 && "DisableLc217Wifi"@[3] == 'a');
    reveal_strlit("SetLcdBrightness");
    assert("SetLcdBrightness"@.len() == 16 && "SetLcdBrightness"@[3] == 'L');
    reveal_strlit("StartPixelClean");
    assert("StartPixelClean"@.len() == 15 && "StartPixelClean"@[3] == 'r');
    reveal_strlit("UploadStartupImage");
    assert("UploadStartupImage"@.len() == 18 && "UploadStartupImage"@[3] == 'o');
    reveal_strlit("StopPixelClean");
    assert("StopPixelClean"@.len() == 14 && "StopPixelClean"@[3] == 'p');
    reveal_strlit("BindAll");
    assert("BindAll"@.len() == 7 && "BindAll"@[3] == 'd');
    reveal_strlit("UnbindAll");
    assert("UnbindAll"@.len() == 9 && "UnbindAll"@[3] == 'i');
    reveal_strlit("Shutdown");
    assert("Shutdown"@.len() == 8 && "Shutdown"@[3] == 't');
}

} // verus!
