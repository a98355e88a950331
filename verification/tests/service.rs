use lianli_daemon::event::{event_label, DaemonEvent};
use lianli_daemon::lcd::LcdTarget;
use lianli_daemon::service::{DaemonInfo, ServiceManager};
use lianli_daemon::turn::{
    Answer, CleanError, Effect, OpenRgbStatus, OperationError, Query, RgbStatus, Turn,
};
use std::path::PathBuf;

type Manager = ServiceManager<&'static str, u64>;

fn info() -> DaemonInfo<&'static str, u64> {
    DaemonInfo {
        mode: "unknown",
        service_invocation: None,
        ownership_lock: None,
        capabilities: vec!["profiles".to_string()],
    }
}

fn manager() -> Manager {
    let recovery: Result<(), String> = Ok(());
    ServiceManager::new(
        PathBuf::from("/etc/lianli/config.json"),
        PathBuf::from("/run/lianli.sock"),
        "system",
        info(),
        recovery,
    )
    .unwrap()
}

/// A manager whose loop waits for its first event.
fn listening() -> Manager {
    let mut manager = manager();
    manager.run(Answer::Begin);
    manager.run(Answer::Outcome(Ok(())));
    manager.run(Answer::Flag(true));
    manager.run(Answer::Outcome(Ok(())));
    let turn = manager.run(Answer::Flag(false));
    assert_eq!(turn.query, Query::NextEvent);
    manager
}

fn receive(manager: &mut Manager, event: DaemonEvent) -> Turn {
    manager.run(Answer::Event { event: Some(event), shutdown_requested: false })
}

/// Runs a device poll with nothing to do, from its first turn on; the turn after it.
fn finish_poll(manager: &mut Manager) -> Turn {
    assert_eq!(manager.run(Answer::Done).query, Query::PollResume);
    manager.run(Answer::Flag(false));
    manager.run(Answer::Count(0));
    manager.run(Answer::Match(None));
    manager.run(Answer::Flag(true));
    manager.run(Answer::Flag(true));
    manager.run(Answer::Targets(Vec::new()));
    manager.run(Answer::Due(Vec::new()));
    manager.run(Answer::Flag(false));
    manager.run(Answer::Done)
}

/// What an event leads to that is handled in a single turn, between entering and leaving.
fn handled_at_once(event: DaemonEvent) -> Vec<Effect> {
    let mut manager = listening();
    let label = event_label(&event);
    let turn = receive(&mut manager, event);
    assert_eq!(turn.query, Query::NextEvent);
    let mut effects = turn.effects;
    assert_eq!(effects.remove(0), Effect::Enter { label });
    assert_eq!(effects.pop(), Some(Effect::Leave));
    effects
}

fn target(index: usize, id: &str) -> LcdTarget {
    LcdTarget {
        index,
        device_identity: id.to_string(),
        initialized: true,
        initializing: false,
        hid: true,
        attached: true,
    }
}

#[test]
fn new_manager_knows_its_mode_and_paths() {
    let manager = manager();
    assert_eq!(manager.config_path, PathBuf::from("/etc/lianli/config.json"));
    assert_eq!(manager.socket_path, PathBuf::from("/run/lianli.sock"));
    assert_eq!(manager.info.mode, "system");
    assert_eq!(manager.info.capabilities, vec!["profiles".to_string()]);
    assert_eq!(manager.info.ownership_lock, None);
    assert!(!manager.state.tx);
    assert!(!manager.state.restart_requested);
    assert_eq!(manager.state.wireless_count.stable_count, 0);
}

#[test]
fn failed_recovery_makes_no_manager() {
    let refused = ServiceManager::new(
        PathBuf::from("a"),
        PathBuf::from("b"),
        "system",
        info(),
        Err::<(), u8>(7),
    );
    assert_eq!(refused.err(), Some(7));
}

#[test]
fn invocation_and_lock_are_announced() {
    let mut manager = manager();
    manager.set_service_invocation(Some("abc".to_string()));
    assert_eq!(manager.info.service_invocation, Some("abc".to_string()));
    manager.set_service_invocation(None);
    assert_eq!(manager.info.service_invocation, None);
    manager.set_ownership_lock(42);
    assert_eq!(manager.info.ownership_lock, Some(42));
    assert_eq!(
        manager.info.capabilities,
        vec!["profiles".to_string(), "ownership_lock".to_string()]
    );
}

#[test]
fn loop_starts_in_order() {
    let mut manager = manager();
    let turn = manager.run(Answer::Begin);
    assert_eq!(turn.query, Query::CreateMonitor);
    let turn = manager.run(Answer::Outcome(Ok(())));
    assert_eq!(turn.effects, vec![Effect::Enter { label: "startup" }]);
    assert_eq!(turn.query, Query::ConfigExists);
    let turn = manager.run(Answer::Flag(false));
    assert_eq!(turn.effects, vec![Effect::CreateDefaultConfig, Effect::OpenQueue]);
    assert_eq!(turn.query, Query::QueueStartupEvents);
    assert!(manager.state.tx);
    let turn = manager.run(Answer::Outcome(Ok(())));
    assert_eq!(turn.effects, vec![Effect::InitializeRuntime, Effect::Leave]);
    assert_eq!(turn.query, Query::ShutdownRequested);
    let turn = manager.run(Answer::Flag(false));
    assert_eq!(
        turn.effects,
        vec![
            Effect::SpawnUsbTimer,
            Effect::SpawnPollTimer,
            Effect::SpawnStreaming,
            Effect::InitSensors,
        ]
    );
    assert_eq!(turn.query, Query::NextEvent);
}

#[test]
fn existing_configuration_is_left_alone() {
    let mut manager = manager();
    manager.run(Answer::Begin);
    manager.run(Answer::Outcome(Ok(())));
    assert_eq!(manager.run(Answer::Flag(true)).effects, vec![Effect::OpenQueue]);
}

#[test]
fn loop_does_not_start_without_a_monitor() {
    let mut manager = manager();
    manager.run(Answer::Begin);
    let turn = manager.run(Answer::Outcome(Err("no monitor".to_string())));
    assert_eq!(turn.effects, Vec::new());
    assert_eq!(turn.query, Query::Failed { error: "no monitor".to_string() });
    // Another attempt may follow.
    assert_eq!(manager.run(Answer::Begin).query, Query::CreateMonitor);
}

#[test]
fn loop_does_not_start_without_its_first_events() {
    let mut manager = manager();
    manager.run(Answer::Begin);
    manager.run(Answer::Outcome(Ok(())));
    manager.run(Answer::Flag(true));
    let turn = manager.run(Answer::Outcome(Err("closed".to_string())));
    assert_eq!(turn.effects, vec![Effect::CloseQueue, Effect::Leave]);
    assert_eq!(turn.query, Query::Failed { error: "closed".to_string() });
}

#[test]
fn shutdown_during_startup_ends_the_loop_before_it_begins() {
    let mut manager = manager();
    manager.state.restart_requested = true;
    manager.run(Answer::Begin);
    manager.run(Answer::Outcome(Ok(())));
    manager.run(Answer::Flag(true));
    manager.run(Answer::Outcome(Ok(())));
    let turn = manager.run(Answer::Flag(true));
    assert_eq!(
        turn.effects,
        vec![
            Effect::Enter { label: "shutdown" },
            Effect::Shutdown,
            Effect::Leave,
            Effect::CloseQueue,
        ]
    );
    assert_eq!(turn.query, Query::Finished { restart: false });
}

#[test]
fn shutdown_event_ends_the_loop() {
    let mut manager = listening();
    let turn = receive(&mut manager, DaemonEvent::Shutdown);
    assert_eq!(
        turn.effects,
        vec![
            Effect::Enter { label: "Shutdown" },
            Effect::Leave,
            Effect::CloseQueue,
            Effect::Enter { label: "shutdown" },
            Effect::StopStreaming,
            Effect::Shutdown,
        ]
    );
    assert_eq!(turn.query, Query::ShutdownRequested);
    let turn = manager.run(Answer::Flag(false));
    assert_eq!(turn.effects, vec![Effect::Leave]);
    assert_eq!(turn.query, Query::Finished { restart: false });
}

#[test]
fn requested_shutdown_drops_the_event() {
    let mut manager = listening();
    let event = DaemonEvent::Coordinated { event: Box::new(DaemonEvent::BindAll), permit: 9 };
    let turn = manager.run(Answer::Event { event: Some(event), shutdown_requested: true });
    assert_eq!(
        turn.effects,
        vec![
            Effect::ReleasePermit { permit: 9 },
            Effect::Discard { event: DaemonEvent::BindAll },
            Effect::CloseQueue,
            Effect::Enter { label: "shutdown" },
            Effect::StopStreaming,
            Effect::Shutdown,
        ]
    );
    assert_eq!(manager.run(Answer::Flag(true)).query, Query::Finished { restart: false });
}

#[test]
fn loop_ends_when_nobody_can_send() {
    let mut manager = listening();
    let turn = manager.run(Answer::Event { event: None, shutdown_requested: false });
    assert_eq!(
        turn.effects,
        vec![
            Effect::CloseQueue,
            Effect::Enter { label: "shutdown" },
            Effect::StopStreaming,
            Effect::Shutdown,
        ]
    );
}

#[test]
fn permit_is_released_after_the_event() {
    let mut manager = listening();
    let event = DaemonEvent::Coordinated { event: Box::new(DaemonEvent::RetryMedia), permit: 5 };
    let turn = receive(&mut manager, event);
    assert_eq!(
        turn.effects,
        vec![
            Effect::Enter { label: "RetryMedia" },
            Effect::PollPreparedMedia,
            Effect::Leave,
            Effect::ReleasePermit { permit: 5 },
        ]
    );
    assert_eq!(manager.state.permit, None);
}

#[test]
fn permit_is_held_over_several_turns() {
    let mut manager = listening();
    let event = DaemonEvent::Coordinated { event: Box::new(DaemonEvent::USBCheck), permit: 5 };
    let turn = receive(&mut manager, event);
    assert_eq!(
        turn.effects,
        vec![Effect::Enter { label: "USBCheck" }, Effect::RefreshUsbDeviceCache]
    );
    assert_eq!(manager.state.permit, Some(5));
    let turn = manager.run(Answer::Flag(true));
    assert_eq!(turn.effects, vec![Effect::Leave, Effect::ReleasePermit { permit: 5 }]);
}

#[test]
fn nested_permits_are_rejected() {
    let nested = || DaemonEvent::Coordinated { event: Box::new(DaemonEvent::BindAll), permit: 1 };
    let mut manager = listening();
    let event = DaemonEvent::Coordinated { event: Box::new(nested()), permit: 2 };
    let turn = receive(&mut manager, event);
    assert_eq!(
        turn.effects,
        vec![
            Effect::Enter { label: "IpcMutation" },
            Effect::Leave,
            Effect::ReleasePermit { permit: 2 },
            Effect::Discard { event: nested() },
        ]
    );
    assert_eq!(turn.query, Query::NextEvent);
}

#[test]
fn missing_wireless_dongle_is_looked_for() {
    let mut manager = listening();
    let turn = receive(&mut manager, DaemonEvent::USBCheck);
    assert_eq!(turn.query, Query::WirelessConnected);
    let turn = manager.run(Answer::Flag(false));
    assert_eq!(turn.effects, vec![Effect::TryWireless, Effect::Leave]);
}

#[test]
fn device_poll_opens_the_poll_gate_first() {
    let mut manager = listening();
    let turn = receive(&mut manager, DaemonEvent::DevicePoll);
    assert_eq!(
        turn.effects,
        vec![
            Effect::Enter { label: "DevicePoll" },
            Effect::DequeuePoll,
            Effect::PollStartupImage,
            Effect::RefreshAfterModeSwitch,
            Effect::CheckPixelCleanSessions,
            Effect::PollPreparedMedia,
        ]
    );
    let turn = finish_poll(&mut manager);
    assert_eq!(turn.effects, vec![Effect::Leave]);
    assert_eq!(turn.query, Query::NextEvent);
}

#[test]
fn device_poll_under_a_permit_opens_the_poll_gate_too() {
    let event = || DaemonEvent::Coordinated {
        event: Box::new(DaemonEvent::DevicePoll),
        permit: 5,
    };
    let mut manager = listening();
    let turn = receive(&mut manager, event());
    assert_eq!(turn.effects[0], Effect::Enter { label: "DevicePoll" });
    assert_eq!(turn.effects[1], Effect::DequeuePoll);
    let turn = finish_poll(&mut manager);
    assert_eq!(turn.effects, vec![Effect::Leave, Effect::ReleasePermit { permit: 5 }]);

    // One that is dropped because a shutdown was requested leaves it shut.
    for dropped in [event(), DaemonEvent::DevicePoll] {
        let mut manager = listening();
        let turn =
            manager.run(Answer::Event { event: Some(dropped), shutdown_requested: true });
        assert!(!turn.effects.contains(&Effect::DequeuePoll));
    }
}

#[test]
fn requested_restart_is_taken_up_by_a_device_poll() {
    let mut manager = listening();
    manager.state.restart_requested = true;
    // A poll that follows a bind goes on with the loop.
    receive(&mut manager, DaemonEvent::BindAll);
    manager.run(Answer::Macs(Vec::new()));
    assert_eq!(finish_poll(&mut manager).query, Query::NextEvent);

    receive(&mut manager, DaemonEvent::DevicePoll);
    let turn = finish_poll(&mut manager);
    assert_eq!(turn.effects[0], Effect::Leave);
    assert_eq!(turn.query, Query::ShutdownRequested);
    assert_eq!(manager.run(Answer::Flag(false)).query, Query::Finished { restart: true });
}

#[test]
fn signal_overrides_a_requested_restart() {
    let mut manager = listening();
    manager.state.restart_requested = true;
    receive(&mut manager, DaemonEvent::DevicePoll);
    finish_poll(&mut manager);
    assert_eq!(manager.run(Answer::Flag(true)).query, Query::Finished { restart: false });
}

#[test]
fn startup_image_takes_the_permit() {
    let image = DaemonEvent::UploadStartupImage {
        id: 3,
        device_id: "lcd".to_string(),
        jpeg: vec![1, 2, 3],
        capabilities: 10,
        cancel: 11,
    };
    let mut manager = listening();
    let event = DaemonEvent::Coordinated { event: Box::new(image), permit: 12 };
    let turn = receive(&mut manager, event);
    assert_eq!(turn.effects, vec![Effect::Enter { label: "UploadStartupImage" }]);
    assert_eq!(
        turn.query,
        Query::StartStartupImage {
            id: 3,
            device_id: "lcd".to_string(),
            jpeg: vec![1, 2, 3],
            capabilities: 10,
            cancel: 11,
            permit: Some(12),
        }
    );
    let turn = manager.run(Answer::Outcome(Err("busy".to_string())));
    assert_eq!(
        turn.effects,
        vec![Effect::FailStartupImage { id: 3, message: "busy".to_string() }, Effect::Leave]
    );
}

#[test]
fn configuration_waits_for_the_startup_image() {
    let mut manager = listening();
    manager.state.startup_image_job = true;
    let turn = receive(&mut manager, DaemonEvent::IpcUpdate);
    assert_eq!(turn.effects, vec![Effect::Enter { label: "IpcUpdate" }, Effect::Leave]);
    assert_eq!(turn.query, Query::NextEvent);
    assert!(manager.state.startup_config_pending);
}

#[test]
fn configuration_is_taken_over() {
    let mut manager = listening();
    assert_eq!(receive(&mut manager, DaemonEvent::IpcUpdate).query, Query::HidBackend);
    assert_eq!(manager.run(Answer::Backend(Some(1))).query, Query::LoadConfig);
    assert_eq!(manager.run(Answer::Flag(true)).query, Query::HidBackend);
    assert_eq!(manager.run(Answer::Backend(Some(1))).query, Query::FanMatchesConfig);
    let turn = manager.run(Answer::Match(Some(false)));
    assert_eq!(turn.effects, vec![Effect::StartFanControl]);
    assert_eq!(turn.query, Query::AioReady);
    let turn = manager.run(Answer::Both(true, true));
    assert_eq!(
        turn.effects,
        vec![
            Effect::SetAioConfig,
            Effect::StartOpenRgbServer,
            Effect::ApplyEne6k77Quantities,
            Effect::ApplyRgbConfig,
        ]
    );
    assert_eq!(turn.query, Query::ThermalAlertReady);
    let turn = manager.run(Answer::Both(true, true));
    assert_eq!(
        turn.effects,
        vec![Effect::UpdateThermalSettings, Effect::SyncIpcState, Effect::PollPreparedMedia]
    );
    assert_eq!(finish_poll(&mut manager).query, Query::NextEvent);
    assert!(!manager.state.restart_requested);
}

#[test]
fn running_controllers_are_kept_where_they_match() {
    let mut manager = listening();
    receive(&mut manager, DaemonEvent::IpcUpdate);
    manager.run(Answer::Backend(None));
    manager.run(Answer::Flag(true));
    manager.run(Answer::Backend(None));
    assert_eq!(manager.run(Answer::Match(Some(true))).effects, Vec::new());
    let turn = manager.run(Answer::Both(false, true));
    assert_eq!(turn.effects[0], Effect::StartAioControl);
    let turn = manager.run(Answer::Both(true, false));
    assert_eq!(turn.effects, vec![Effect::SyncIpcState, Effect::PollPreparedMedia]);
}

#[test]
fn absent_fan_controller_is_started() {
    let mut manager = listening();
    receive(&mut manager, DaemonEvent::IpcUpdate);
    manager.run(Answer::Backend(None));
    manager.run(Answer::Flag(true));
    manager.run(Answer::Backend(None));
    assert_eq!(manager.run(Answer::Match(None)).effects, vec![Effect::StartFanControl]);
}

#[test]
fn unloadable_configuration_changes_nothing() {
    let mut manager = listening();
    receive(&mut manager, DaemonEvent::IpcUpdate);
    manager.run(Answer::Backend(Some(1)));
    let turn = manager.run(Answer::Flag(false));
    assert_eq!(turn.effects, vec![Effect::Leave]);
    assert_eq!(turn.query, Query::NextEvent);
}

#[test]
fn another_backend_restarts_the_daemon() {
    for (old, new) in [(Some(1), Some(2)), (None, Some(1)), (Some(1), None)] {
        let mut manager = listening();
        receive(&mut manager, DaemonEvent::IpcUpdate);
        manager.run(Answer::Backend(old));
        manager.run(Answer::Flag(true));
        let turn = manager.run(Answer::Backend(new));
        assert_eq!(turn.query, Query::ShutdownRequested);
        assert!(manager.state.restart_requested);
        assert_eq!(manager.run(Answer::Flag(false)).query, Query::Finished { restart: true });
    }
}

#[test]
fn bind_and_unbind_are_answered() {
    for bind in [true, false] {
        let mut manager = listening();
        let mac_address = "01:23:45:67:89:AB".to_string();
        let operation_id = "op".to_string();
        let mac = [0x01, 0x23, 0x45, 0x67, 0x89, 0xab];
        let (event, query) = if bind {
            (DaemonEvent::Bind { mac_address, operation_id }, Query::BindDevice { mac })
        } else {
            (DaemonEvent::Unbind { mac_address, operation_id }, Query::UnbindDevice { mac })
        };
        assert_eq!(receive(&mut manager, event).query, query);
        let turn = manager.run(Answer::Outcome(Err("timeout".to_string())));
        let result = Err(OperationError::Device { message: "timeout".to_string() });
        assert_eq!(
            turn.effects,
            vec![
                Effect::CompleteWirelessOperation { operation_id: "op".to_string(), result },
                Effect::PollPreparedMedia,
            ]
        );
        assert_eq!(finish_poll(&mut manager).query, Query::NextEvent);
    }
}

#[test]
fn successful_bind_is_reported() {
    let mut manager = listening();
    let event = DaemonEvent::Bind {
        mac_address: "1:2:3:4:5:6".to_string(),
        operation_id: "op".to_string(),
    };
    receive(&mut manager, event);
    let turn = manager.run(Answer::Outcome(Ok(())));
    assert_eq!(
        turn.effects[0],
        Effect::CompleteWirelessOperation { operation_id: "op".to_string(), result: Ok(()) }
    );
}

#[test]
fn malformed_address_touches_no_device() {
    let mut manager = listening();
    let event = DaemonEvent::Unbind {
        mac_address: "nonsense".to_string(),
        operation_id: "op".to_string(),
    };
    let turn = receive(&mut manager, event);
    assert_eq!(
        turn.effects,
        vec![
            Effect::Enter { label: "Unbind" },
            Effect::CompleteWirelessOperation {
                operation_id: "op".to_string(),
                result: Err(OperationError::InvalidMacAddress),
            },
            Effect::PollPreparedMedia,
        ]
    );
    assert_eq!(turn.query, Query::Proceed);
}

#[test]
fn all_devices_are_bound_or_unbound() {
    let mut manager = listening();
    assert_eq!(receive(&mut manager, DaemonEvent::BindAll).query, Query::UnboundDevices);
    let turn = manager.run(Answer::Macs(vec![[1; 6], [2; 6]]));
    assert_eq!(
        turn.effects,
        vec![
            Effect::Bind { mac: [1; 6] },
            Effect::Bind { mac: [2; 6] },
            Effect::PollPreparedMedia,
        ]
    );
    finish_poll(&mut manager);
    assert_eq!(receive(&mut manager, DaemonEvent::UnbindAll).query, Query::BoundDevices);
    let turn = manager.run(Answer::Macs(vec![[3; 6]]));
    assert_eq!(turn.effects, vec![Effect::Unbind { mac: [3; 6] }, Effect::PollPreparedMedia]);
}

#[test]
fn fan_quantity_is_replied_to() {
    let mut manager = listening();
    let event = DaemonEvent::SetEne6k77FanQuantity {
        device_id: "hub".to_string(),
        quantity: 4,
        reply: 8,
    };
    let turn = receive(&mut manager, event);
    assert_eq!(turn.query, Query::SetFanQuantity { device_id: "hub".to_string(), quantity: 4 });
    let turn = manager.run(Answer::Outcome(Err("no hub".to_string())));
    assert_eq!(
        turn.effects,
        vec![Effect::SendFanReply { reply: 8, result: Err("no hub".to_string()) }, Effect::Leave]
    );
}

#[test]
fn failed_openrgb_server_is_started_again() {
    let cases = [
        (true, None, true),
        (false, Some(true), true),
        (true, Some(false), true),
        (false, Some(false), false),
        (false, None, false),
    ];
    for (error, thread_finished, started) in cases {
        let mut manager = listening();
        assert_eq!(receive(&mut manager, DaemonEvent::RetryOpenRgb).query, Query::OpenRgbStatus);
        let turn = manager.run(Answer::OpenRgb(OpenRgbStatus { error, thread_finished }));
        let mut expected = Vec::new();
        if started {
            expected.push(Effect::StartOpenRgbServer);
        }
        expected.push(Effect::ClearOpenRgbRetry);
        expected.push(Effect::Leave);
        assert_eq!(turn.effects, expected);
    }
}

#[test]
fn resync_respects_who_owns_the_colors() {
    let cases = [
        (None, None),
        (Some((true, false)), Some(Effect::ResyncWirelessDirectColors)),
        (Some((true, true)), Some(Effect::ResyncWirelessDirectColors)),
        (Some((false, true)), None),
        (Some((false, false)), Some(Effect::ResyncWirelessEffects)),
    ];
    for (status, effect) in cases {
        let mut manager = listening();
        assert_eq!(receive(&mut manager, DaemonEvent::ResyncWirelessRgb).query, Query::RgbStatus);
        let status = status.map(|(openrgb_controlled, thermal_override)| RgbStatus {
            openrgb_controlled,
            thermal_override,
        });
        let turn = manager.run(Answer::Rgb(status));
        let mut expected = Vec::new();
        expected.extend(effect);
        expected.push(Effect::Leave);
        assert_eq!(turn.effects, expected);
    }
}

#[test]
fn simple_events_are_handled_at_once() {
    let id = || "dev".to_string();
    assert_eq!(
        handled_at_once(DaemonEvent::DisplaySwitch { device_id: id() }),
        vec![Effect::DisplaySwitchToDesktop { device_id: id() }]
    );
    assert_eq!(
        handled_at_once(DaemonEvent::DisplaySwitchToLcd { device_id: id(), pid: 7 }),
        vec![Effect::DisplaySwitchToLcd { device_id: id(), pid: 7 }]
    );
    assert_eq!(handled_at_once(DaemonEvent::RetryMedia), vec![Effect::PollPreparedMedia]);
    assert_eq!(handled_at_once(DaemonEvent::MediaPrepared), vec![Effect::PollPreparedMedia]);
    assert_eq!(
        handled_at_once(DaemonEvent::ClearStartupImageRecovery { device_id: id() }),
        vec![Effect::ClearStartupRecovery { device_id: id() }]
    );
    assert_eq!(handled_at_once(DaemonEvent::FrameFinished), vec![Effect::WakeStreaming]);
    assert_eq!(
        handled_at_once(DaemonEvent::MediaPlaybackStopped {
            target_index: 1,
            key: "k".to_string(),
            error: "e".to_string(),
        }),
        vec![Effect::RecordPlaybackFailure {
            target_index: 1,
            key: "k".to_string(),
            error: "e".to_string(),
        }]
    );
    assert_eq!(
        handled_at_once(DaemonEvent::RetryDesktopDisplay { bus: 1, address: 2, product_id: 3 }),
        vec![Effect::RetryDesktopDisplay { bus: 1, address: 2, product_id: 3 }]
    );
    assert_eq!(
        handled_at_once(DaemonEvent::RebootWirelessLcd { mac: [4; 6] }),
        vec![Effect::RebootLcdGroup { mac: [4; 6] }]
    );
    assert_eq!(
        handled_at_once(DaemonEvent::DisableLc217Wifi { mac: [4; 6], disable: true }),
        vec![Effect::SetLc217Wifi { mac: [4; 6], disable: true }]
    );
}

#[test]
fn only_the_marked_target_is_removed() {
    for matches in [Some(true), Some(false), None] {
        let mut manager = listening();
        let event = DaemonEvent::RemoveFailedLcd {
            target_index: 2,
            removal: 6,
            key: "k".to_string(),
            error: "e".to_string(),
        };
        let turn = receive(&mut manager, event);
        assert_eq!(turn.query, Query::MatchesRemoval { target_index: 2, removal: 6 });
        let turn = manager.run(Answer::Match(matches));
        let mut expected = Vec::new();
        if matches == Some(true) {
            expected.push(Effect::RemoveTarget { target_index: 2 });
            expected.push(Effect::RecordPlaybackFailure {
                target_index: 2,
                key: "k".to_string(),
                error: "e".to_string(),
            });
            expected.push(Effect::DropRemovedTarget);
        }
        expected.push(Effect::Leave);
        assert_eq!(turn.effects, expected);
    }
}

#[test]
fn media_is_recreated_for_the_recovered_device() {
    let event = || DaemonEvent::RecreateMedia { target_index: 2, device_id: "lcd".to_string() };
    let mut manager = listening();
    assert_eq!(receive(&mut manager, event()).query, Query::TargetIdentity { target_index: 2 });
    let turn = manager.run(Answer::Identity(Some("lcd".to_string())));
    assert_eq!(turn.query, Query::MediaAssetPresent { target_index: 2 });
    let turn = manager.run(Answer::Flag(true));
    assert_eq!(turn.query, Query::TargetPresent { target_index: 2 });
    let turn = manager.run(Answer::Flag(true));
    assert_eq!(turn.effects, vec![Effect::SwapMedia { target_index: 2 }, Effect::Leave]);

    // The slot is empty or holds another device.
    for identity in [None, Some("other".to_string())] {
        receive(&mut manager, event());
        assert_eq!(manager.run(Answer::Identity(identity)).effects, vec![Effect::Leave]);
    }
    // There is no media.
    receive(&mut manager, event());
    manager.run(Answer::Identity(Some("lcd".to_string())));
    assert_eq!(manager.run(Answer::Flag(false)).effects, vec![Effect::Leave]);
    // The target has gone.
    receive(&mut manager, event());
    manager.run(Answer::Identity(Some("lcd".to_string())));
    manager.run(Answer::Flag(true));
    assert_eq!(manager.run(Answer::Flag(false)).effects, vec![Effect::Leave]);
}

#[test]
fn initialized_lcd_is_put_to_use() {
    let mut manager = listening();
    let event = DaemonEvent::LcdInitComplete {
        device_id: "lcd".to_string(),
        attachment: 4,
        error: Some("slow".to_string()),
    };
    let turn = receive(&mut manager, event);
    assert_eq!(turn.query, Query::Targets { attachment: Some(4) });
    let mut replaced = target(1, "lcd");
    replaced.attached = false;
    let mut usb = target(2, "lcd");
    usb.hid = false;
    let turn = manager.run(Answer::Targets(vec![
        target(0, "other"),
        replaced,
        usb,
        target(3, "lcd"),
    ]));
    assert_eq!(
        turn.effects,
        vec![
            Effect::FinishInitialization { target_index: 3, error: Some("slow".to_string()) },
            Effect::StartRecovery { target_index: 3, wait_millis: 200 },
            Effect::FlushPendingBrightness { target_index: 3 },
            Effect::RecordLcdInitialization {
                device_id: "lcd".to_string(),
                error: Some("slow".to_string()),
            },
            Effect::WakeStreaming,
            Effect::Leave,
        ]
    );
}

#[test]
fn stale_initialization_changes_nothing() {
    let mut manager = listening();
    let event = DaemonEvent::LcdInitComplete {
        device_id: "lcd".to_string(),
        attachment: 4,
        error: None,
    };
    receive(&mut manager, event);
    let mut replaced = target(1, "lcd");
    replaced.attached = false;
    assert_eq!(manager.run(Answer::Targets(vec![replaced])).effects, vec![Effect::Leave]);
}

#[test]
fn brightness_goes_to_the_first_target_of_the_device() {
    let event = || DaemonEvent::SetLcdBrightness { device_id: "lcd".to_string(), brightness: 50 };
    let mut manager = listening();
    assert_eq!(receive(&mut manager, event()).query, Query::Targets { attachment: None });
    let turn =
        manager.run(Answer::Targets(vec![target(5, "x"), target(6, "lcd"), target(7, "lcd")]));
    assert_eq!(
        turn.effects,
        vec![Effect::ApplyBrightness { target_index: 6, brightness: 50 }, Effect::Leave]
    );
    receive(&mut manager, event());
    assert_eq!(manager.run(Answer::Targets(vec![target(5, "x")])).effects, vec![Effect::Leave]);
}

fn clean(preparation_id: Option<u64>) -> DaemonEvent {
    DaemonEvent::StartPixelClean {
        device_id: Some("lcd".to_string()),
        duration_minutes: 30,
        preparation_id,
        deadline: 1000,
        reply: 2,
    }
}

#[test]
fn cleaning_starts_before_its_deadline() {
    let mut manager = listening();
    assert_eq!(receive(&mut manager, clean(None)).query, Query::Now);
    let turn = manager.run(Answer::Now(999));
    assert_eq!(
        turn.query,
        Query::StartPixelCleaning { device_id: Some("lcd".to_string()), duration_minutes: 30 }
    );
    let turn = manager.run(Answer::Session(Ok(17)));
    assert_eq!(turn.query, Query::SendCleanReply { reply: 2, result: Ok((17, false)) });
    let turn = manager.run(Answer::Flag(true));
    assert_eq!(turn.effects, vec![Effect::Leave]);
}

#[test]
fn prepared_cleaning_is_activated() {
    let mut manager = listening();
    receive(&mut manager, clean(Some(5)));
    let turn = manager.run(Answer::Now(0));
    assert_eq!(turn.query, Query::ActivatePixelCleaning { preparation_id: 5 });
    let turn = manager.run(Answer::Session(Ok(17)));
    assert_eq!(turn.query, Query::SendCleanReply { reply: 2, result: Ok((17, true)) });
}

#[test]
fn unheard_of_cleaning_is_stopped() {
    let mut manager = listening();
    receive(&mut manager, clean(None));
    manager.run(Answer::Now(0));
    manager.run(Answer::Session(Ok(17)));
    let turn = manager.run(Answer::Flag(false));
    assert_eq!(
        turn.effects,
        vec![
            Effect::StopPixelCleaning { device_id: None, session_id: Some(17) },
            Effect::Leave,
        ]
    );
}

#[test]
fn refused_cleaning_is_reported() {
    let mut manager = listening();
    receive(&mut manager, clean(None));
    manager.run(Answer::Now(0));
    let turn = manager.run(Answer::Session(Err("no LCD".to_string())));
    let result = Err(CleanError::Refused { message: "no LCD".to_string() });
    assert_eq!(turn.query, Query::SendCleanReply { reply: 2, result });
    assert_eq!(manager.run(Answer::Flag(false)).effects, vec![Effect::Leave]);
}

#[test]
fn expired_cleaning_never_starts() {
    for now in [1000, 1001, u64::MAX] {
        let mut manager = listening();
        receive(&mut manager, clean(None));
        let turn = manager.run(Answer::Now(now));
        assert_eq!(
            turn.query,
            Query::SendCleanReply { reply: 2, result: Err(CleanError::Expired) }
        );
        assert_eq!(manager.run(Answer::Flag(false)).effects, vec![Effect::Leave]);
    }
}

#[test]
fn stopped_cleaning_is_replied_to() {
    for reply in [Some(3), None] {
        let mut manager = listening();
        let event = DaemonEvent::StopPixelClean { device_id: None, session_id: Some(17), reply };
        let turn = receive(&mut manager, event);
        assert_eq!(
            turn.query,
            Query::StopPixelCleaning { device_id: None, session_id: Some(17) }
        );
        let turn = manager.run(Answer::Flag(true));
        let mut expected = Vec::new();
        if let Some(reply) = reply {
            expected.push(Effect::SendStopReply { reply, stopped: true });
        }
        expected.push(Effect::Leave);
        assert_eq!(turn.effects, expected);
    }
}

#[test]
fn devices_are_set_up_again_after_a_resume() {
    for rgb in [true, false] {
        let mut manager = listening();
        let turn = receive(&mut manager, DaemonEvent::SystemResumed);
        assert_eq!(
            turn.effects,
            vec![Effect::Enter { label: "SystemResumed" }, Effect::InvalidateSensors]
        );
        assert_eq!(turn.query, Query::RgbPresent);
        let turn = manager.run(Answer::Flag(rgb));
        let mut expected = Vec::new();
        if rgb {
            expected.push(Effect::InvalidateRgb);
        }
        expected.push(Effect::RebuildRgbController);
        expected.push(Effect::RestartFanControl);
        expected.push(Effect::StartAioControl);
        expected.push(Effect::SyncIpcState);
        expected.push(Effect::Leave);
        assert_eq!(turn.effects, expected);
    }
}

#[test]
fn errors_have_their_messages() {
    assert_eq!(OperationError::InvalidMacAddress.message(), "invalid wireless MAC address");
    let device = OperationError::Device { message: "timeout".to_string() };
    assert_eq!(device.message(), "timeout");
    assert_eq!(CleanError::Expired.message(), "Pixel cleaner request expired");
    let refused = CleanError::Refused { message: "no LCD".to_string() };
    assert_eq!(refused.message(), "no LCD");
}

/// Answers whatever is asked, so that the loop goes on.
fn answer(query: &Query, events: &mut Vec<DaemonEvent>) -> Answer {
    match query {
        Query::Proceed => Answer::Done,
        Query::CreateMonitor
        | Query::QueueStartupEvents
        | Query::StartStartupImage { .. }
        | Query::BindDevice { .. }
        | Query::UnbindDevice { .. }
        | Query::SetFanQuantity { .. } => Answer::Outcome(Ok(())),
        Query::ConfigExists
        | Query::WirelessConnected
        | Query::LoadConfig
        | Query::RgbPresent
        | Query::MediaAssetPresent { .. }
        | Query::TargetPresent { .. }
        | Query::SendCleanReply { .. }
        | Query::StopPixelCleaning { .. }
        | Query::LcdIdle { .. }
        | Query::LockLcd { .. } => Answer::Flag(true),
        Query::ShutdownRequested
        | Query::PollResume
        | Query::RebindInFlight
        | Query::ChannelInFlight => Answer::Flag(false),
        Query::NextEvent => {
            let event = if events.is_empty() { None } else { Some(events.remove(0)) };
            Answer::Event { event, shutdown_requested: false }
        }
        Query::HidBackend => Answer::Backend(Some(0)),
        Query::FanMatchesConfig | Query::MatchesRemoval { .. } | Query::TopologyMatches => {
            Answer::Match(Some(true))
        }
        Query::AioReady | Query::ThermalAlertReady => Answer::Both(true, true),
        Query::OpenRgbStatus => {
            Answer::OpenRgb(OpenRgbStatus { error: true, thread_finished: None })
        }
        Query::RgbStatus => Answer::Rgb(None),
        Query::TargetIdentity { .. } => Answer::Identity(Some("lcd".to_string())),
        Query::Targets { .. } => Answer::Targets(vec![target(2, "lcd")]),
        Query::UnboundDevices | Query::BoundDevices => Answer::Macs(vec![[1; 6], [2; 6]]),
        Query::Now => Answer::Now(1),
        Query::ActivatePixelCleaning { .. } | Query::StartPixelCleaning { .. } => {
            Answer::Session(Ok(1))
        }
        Query::WirelessDeviceCount => Answer::Count(1),
        Query::RebindCandidates => {
            Answer::Rebind { configured: Vec::new(), now: 0, candidates: vec![[1; 6]] }
        }
        Query::ChannelTarget => Answer::Channel(Some(3)),
        Query::DrainDueFirmware => Answer::Due(vec![("lcd".to_string(), true)]),
        Query::ReadFirmware { .. } => Answer::Reading(None),
        Query::PollFinished | Query::Finished { .. } | Query::Failed { .. } => Answer::Begin,
    }
}

/// One event of each kind.
fn all_events() -> Vec<DaemonEvent> {
    let lcd = || "lcd".to_string();
    vec![
        DaemonEvent::UploadStartupImage {
            id: 1,
            device_id: lcd(),
            jpeg: Vec::new(),
            capabilities: 1,
            cancel: 1,
        },
        DaemonEvent::Coordinated { event: Box::new(DaemonEvent::BindAll), permit: 100 },
        DaemonEvent::IpcUpdate,
        DaemonEvent::RetryOpenRgb,
        DaemonEvent::RetryMedia,
        DaemonEvent::ClearStartupImageRecovery { device_id: lcd() },
        DaemonEvent::USBCheck,
        DaemonEvent::DevicePoll,
        DaemonEvent::DisplaySwitch { device_id: lcd() },
        DaemonEvent::DisplaySwitchToLcd { device_id: lcd(), pid: 1 },
        DaemonEvent::Bind { mac_address: "1:2:3:4:5:6".to_string(), operation_id: lcd() },
        DaemonEvent::Unbind { mac_address: "?".to_string(), operation_id: lcd() },
        DaemonEvent::SetEne6k77FanQuantity { device_id: lcd(), quantity: 1, reply: 1 },
        DaemonEvent::FrameFinished,
        DaemonEvent::MediaPrepared,
        DaemonEvent::RetryDesktopDisplay { bus: 1, address: 1, product_id: 1 },
        DaemonEvent::MediaPlaybackStopped { target_index: 2, key: lcd(), error: lcd() },
        DaemonEvent::RecreateMedia { target_index: 2, device_id: lcd() },
        DaemonEvent::RemoveFailedLcd { target_index: 2, removal: 1, key: lcd(), error: lcd() },
        DaemonEvent::ResyncWirelessRgb,
        DaemonEvent::LcdInitComplete { device_id: lcd(), attachment: 1, error: None },
        DaemonEvent::SystemResumed,
        DaemonEvent::RebootWirelessLcd { mac: [1; 6] },
        DaemonEvent::DisableLc217Wifi { mac: [1; 6], disable: true },
        DaemonEvent::SetLcdBrightness { device_id: lcd(), brightness: 1 },
        clean(None),
        DaemonEvent::StopPixelClean { device_id: None, session_id: None, reply: None },
        DaemonEvent::BindAll,
        DaemonEvent::UnbindAll,
        DaemonEvent::Shutdown,
    ]
}

#[test]
fn whole_run_is_orderly() {
    let mut events = Vec::new();
    let mut labels = Vec::new();
    for (i, event) in all_events().into_iter().enumerate() {
        if matches!(event, DaemonEvent::Coordinated { .. }) {
            labels.push("BindAll");
            events.push(event);
        } else {
            labels.push(event_label(&event));
            events.push(DaemonEvent::Coordinated { event: Box::new(event), permit: i as u64 });
        }
    }
    let mut manager = manager();
    let mut turn = manager.run(Answer::Begin);
    let mut entered = Vec::new();
    let mut watching = false;
    let mut released = Vec::new();
    let mut handed_over = Vec::new();
    let mut shutdowns = 0;
    loop {
        for effect in &turn.effects {
            match effect {
                Effect::Enter { label } => {
                    assert!(!watching);
                    watching = true;
                    entered.push(*label);
                }
                Effect::Leave => {
                    assert!(watching);
                    watching = false;
                }
                Effect::ReleasePermit { permit } => released.push(*permit),
                Effect::Shutdown => shutdowns += 1,
                _ => {}
            }
        }
        if let Query::StartStartupImage { permit: Some(permit), .. } = turn.query {
            handed_over.push(permit);
        }
        if turn.query == (Query::Finished { restart: false }) {
            break;
        }
        let next = answer(&turn.query, &mut events);
        turn = manager.run(next);
    }
    assert!(!watching);
    assert_eq!(shutdowns, 1);
    assert_eq!(handed_over, vec![0]);
    let mut expected: Vec<u64> = (1..30).collect();
    expected[0] = 100;
    assert_eq!(released, expected);
    labels.insert(0, "startup");
    labels.push("shutdown");
    assert_eq!(entered, labels);
}

#[test]
fn labels_name_their_events() {
    let labels: Vec<&str> = all_events().iter().map(event_label).collect();
    for (i, label) in labels.iter().enumerate() {
        assert!(!labels[..i].contains(label));
    }
    assert_eq!(
        labels,
        vec![
            "UploadStartupImage",
            "IpcMutation",
            "IpcUpdate",
            "RetryOpenRgb",
            "RetryMedia",
            "ClearStartupImageRecovery",
            "USBCheck",
            "DevicePoll",
            "DisplaySwitch",
            "DisplaySwitchToLcd",
            "Bind",
            "Unbind",
            "SetEne6k77FanQuantity",
            "FrameFinished",
            "MediaPrepared",
            "RetryDesktopDisplay",
            "MediaPlaybackStopped",
            "RecreateMedia",
            "RemoveFailedLcd",
            "ResyncWirelessRgb",
            "LcdInitComplete",
            "SystemResumed",
            "RebootWirelessLcd",
            "DisableLc217Wifi",
            "SetLcdBrightness",
            "StartPixelClean",
            "StopPixelClean",
            "BindAll",
            "UnbindAll",
            "Shutdown",
        ]
    );
}
