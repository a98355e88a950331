use lianli_daemon::event::DaemonEvent;
use lianli_daemon::lcd::LcdTarget;
use lianli_daemon::service::{DaemonInfo, ServiceManager};
use lianli_daemon::turn::{Answer, Effect, FirmwareReading, Query, Turn};
use std::path::PathBuf;

type Manager = ServiceManager<&'static str, u64>;

fn manager() -> Manager {
    let info = DaemonInfo {
        mode: "user",
        service_invocation: None,
        ownership_lock: None,
        capabilities: Vec::new(),
    };
    let recovery: Result<(), String> = Ok(());
    let config_path = PathBuf::from("config.json");
    let socket_path = PathBuf::from("socket");
    ServiceManager::new(config_path, socket_path, "user", info, recovery).unwrap()
}

fn target(index: usize, id: &str) -> LcdTarget {
    LcdTarget {
        index,
        device_identity: id.to_string(),
        initialized: true,
        initializing: false,
        hid: true,
        attached: false,
    }
}

fn wired() -> Vec<Effect> {
    vec![
        Effect::CheckWiredHotplug,
        Effect::ReconcileWiredWirelessBinding,
        Effect::RefreshTargets,
    ]
}

/// Runs a poll up to the question how many devices there are.
fn up_to_devices(manager: &mut Manager) {
    assert_eq!(manager.device_poll(Answer::Begin).effects, vec![Effect::PollPreparedMedia]);
    assert_eq!(manager.device_poll(Answer::Done).query, Query::PollResume);
    assert_eq!(manager.device_poll(Answer::Flag(false)).query, Query::WirelessDeviceCount);
}

/// Runs the rest of a poll from the question whether a rebind is in flight, with nothing to do.
fn from_rebind(manager: &mut Manager) {
    assert_eq!(manager.device_poll(Answer::Flag(true)).query, Query::ChannelInFlight);
    let turn = manager.device_poll(Answer::Flag(true));
    assert_eq!(turn.effects, wired());
    assert_eq!(turn.query, Query::Targets { attachment: None });
    assert_eq!(manager.device_poll(Answer::Targets(Vec::new())).query, Query::DrainDueFirmware);
    assert_eq!(manager.device_poll(Answer::Due(Vec::new())).query, Query::RgbPresent);
    let turn = manager.device_poll(Answer::Flag(false));
    assert_eq!(turn.effects, vec![Effect::SyncIpcTelemetry]);
    assert_eq!(turn.query, Query::Proceed);
    let turn = manager.device_poll(Answer::Done);
    assert_eq!(turn.effects, Vec::new());
    assert_eq!(turn.query, Query::PollFinished);
}

/// Runs a whole poll that sees that many devices; what the count leads to.
fn poll_with_count(manager: &mut Manager, count: usize, matches: Option<bool>) -> Vec<Effect> {
    up_to_devices(manager);
    let mut turn = manager.device_poll(Answer::Count(count));
    let mut effects = turn.effects;
    if turn.query == Query::Proceed {
        turn = manager.device_poll(Answer::Done);
        effects.extend(turn.effects);
    } else if turn.query == Query::TopologyMatches {
        turn = manager.device_poll(Answer::Match(matches));
        effects.extend(turn.effects);
    }
    assert_eq!(turn.query, Query::RebindInFlight);
    from_rebind(manager);
    effects
}

/// Runs a poll up to the firmware reads, which are due for these devices.
fn up_to_firmware(manager: &mut Manager, due: Vec<(String, bool)>) -> Turn {
    up_to_devices(manager);
    assert_eq!(manager.device_poll(Answer::Count(0)).query, Query::TopologyMatches);
    assert_eq!(manager.device_poll(Answer::Match(None)).query, Query::RebindInFlight);
    manager.device_poll(Answer::Flag(true));
    manager.device_poll(Answer::Flag(true));
    manager.device_poll(Answer::Targets(Vec::new()));
    manager.device_poll(Answer::Due(due))
}

#[test]
fn poll_without_anything_to_do() {
    let mut manager = manager();
    assert_eq!(poll_with_count(&mut manager, 0, None), Vec::new());
    assert_eq!(poll_with_count(&mut manager, 0, Some(true)), Vec::new());
}

#[test]
fn controllers_are_rebuilt_with_the_third_poll() {
    let mut manager = manager();
    assert_eq!(poll_with_count(&mut manager, 2, None), Vec::new());
    assert_eq!(poll_with_count(&mut manager, 2, None), Vec::new());
    assert_eq!(
        poll_with_count(&mut manager, 2, None),
        vec![
            Effect::RebuildRgbController,
            Effect::EnsureAioDefaults,
            Effect::StartAioControl,
            Effect::RestartFanControl,
        ]
    );
    assert_eq!(manager.state.wireless_count.stable_count, 2);
    assert_eq!(poll_with_count(&mut manager, 2, Some(true)), Vec::new());
}

#[test]
fn known_count_with_other_devices_rebuilds_the_colors_only() {
    let mut manager = manager();
    assert_eq!(
        poll_with_count(&mut manager, 0, Some(false)),
        vec![Effect::RebuildRgbController]
    );
    // After a passing change the devices are not compared.
    assert_eq!(poll_with_count(&mut manager, 1, Some(false)), Vec::new());
    assert_eq!(poll_with_count(&mut manager, 0, Some(false)), Vec::new());
    assert_eq!(manager.state.wireless_count.pending_count, None);
}

#[test]
fn reload_after_cleaning_is_sent_once() {
    let mut manager = manager();
    manager.state.cleaner_reload_pending = true;
    // Without a queue it stays pending.
    manager.device_poll(Answer::Begin);
    assert_eq!(manager.device_poll(Answer::Done).effects, Vec::new());
    assert!(manager.state.cleaner_reload_pending);
    manager.device_poll(Answer::Flag(true));
    manager.device_poll(Answer::Count(0));
    manager.device_poll(Answer::Match(None));
    from_rebind(&mut manager);

    manager.state.tx = true;
    manager.device_poll(Answer::Begin);
    assert_eq!(
        manager.device_poll(Answer::Done).effects,
        vec![Effect::Send { event: DaemonEvent::IpcUpdate }]
    );
    assert!(!manager.state.cleaner_reload_pending);
}

#[test]
fn resume_is_announced_where_there_is_a_queue() {
    let mut without = manager();
    without.device_poll(Answer::Begin);
    without.device_poll(Answer::Done);
    assert_eq!(without.device_poll(Answer::Flag(true)).effects, Vec::new());

    let mut with = manager();
    with.state.tx = true;
    with.device_poll(Answer::Begin);
    with.device_poll(Answer::Done);
    assert_eq!(
        with.device_poll(Answer::Flag(true)).effects,
        vec![Effect::Send { event: DaemonEvent::SystemResumed }]
    );
}

#[test]
fn rebind_and_channel_switch_are_started() {
    let mut manager = manager();
    manager.state.wireless_channel_streak = Some((5, 2));
    up_to_devices(&mut manager);
    manager.device_poll(Answer::Count(0));
    manager.device_poll(Answer::Match(None));
    assert_eq!(manager.device_poll(Answer::Flag(false)).query, Query::RebindCandidates);
    let turn = manager.device_poll(Answer::Rebind {
        configured: vec!["wireless:01:02:03:04:05:06".to_string()],
        now: 77,
        candidates: vec![[6; 6], [1, 2, 3, 4, 5, 6]],
    });
    assert_eq!(turn.effects, vec![Effect::StartRebind { mac: [1, 2, 3, 4, 5, 6] }]);
    assert_eq!(turn.query, Query::ChannelInFlight);
    assert_eq!(manager.state.wireless_rebind_last.last(&[1, 2, 3, 4, 5, 6]), Some(77));
    assert_eq!(manager.device_poll(Answer::Flag(false)).query, Query::ChannelTarget);
    let turn = manager.device_poll(Answer::Channel(Some(5)));
    let mut expected = vec![Effect::StartChannelSwitch { channel: 5 }];
    expected.extend(wired());
    assert_eq!(turn.effects, expected);
    assert_eq!(manager.state.wireless_channel_streak, None);
}

#[test]
fn nothing_to_rebind_and_no_conflict() {
    let mut manager = manager();
    manager.state.wireless_channel_streak = Some((5, 2));
    up_to_devices(&mut manager);
    manager.device_poll(Answer::Count(0));
    manager.device_poll(Answer::Match(None));
    manager.device_poll(Answer::Flag(false));
    let turn = manager.device_poll(Answer::Rebind {
        configured: Vec::new(),
        now: 77,
        candidates: vec![[1, 2, 3, 4, 5, 6]],
    });
    assert_eq!(turn.effects, Vec::new());
    manager.device_poll(Answer::Flag(false));
    let turn = manager.device_poll(Answer::Channel(None));
    assert_eq!(turn.effects, wired());
    assert_eq!(manager.state.wireless_channel_streak, None);
}

#[test]
fn every_target_is_serviced() {
    let mut manager = manager();
    up_to_devices(&mut manager);
    manager.device_poll(Answer::Count(0));
    manager.device_poll(Answer::Match(None));
    manager.device_poll(Answer::Flag(true));
    manager.device_poll(Answer::Flag(true));
    let turn = manager.device_poll(Answer::Targets(vec![target(4, "a"), target(2, "b")]));
    assert_eq!(
        turn.effects,
        vec![
            Effect::StartRecovery { target_index: 4, wait_millis: 0 },
            Effect::FlushPendingBrightness { target_index: 4 },
            Effect::StartRecovery { target_index: 2, wait_millis: 0 },
            Effect::FlushPendingBrightness { target_index: 2 },
        ]
    );
}

#[test]
fn firmware_is_read_and_recorded() {
    let mut manager = manager();
    let turn = up_to_firmware(&mut manager, vec![("lcd".to_string(), true)]);
    assert_eq!(turn.query, Query::Targets { attachment: None });
    let turn = manager.device_poll(Answer::Targets(vec![target(1, "other"), target(3, "lcd")]));
    assert_eq!(turn.query, Query::LcdIdle { target_index: 3 });
    let turn = manager.device_poll(Answer::Flag(true));
    assert_eq!(turn.query, Query::LockLcd { target_index: 3, wait_millis: 500 });
    let turn = manager.device_poll(Answer::Flag(true));
    assert_eq!(turn.query, Query::ReadFirmware { target_index: 3 });
    let turn = manager.device_poll(Answer::Reading(Some(FirmwareReading {
        version: Some("1.2".to_string()),
        supports_c_command: false,
    })));
    assert_eq!(
        turn.effects,
        vec![
            Effect::SetUseCCommand { target_index: 3, enabled: true },
            Effect::RecordFirmware {
                device_id: "lcd".to_string(),
                version: Some("1.2".to_string()),
                supports_c_command: false,
            },
            Effect::ReleaseLcd { target_index: 3 },
        ]
    );
    assert_eq!(turn.query, Query::RgbPresent);
}

#[test]
fn unreadable_firmware_is_marked() {
    let mut manager = manager();
    up_to_firmware(&mut manager, vec![("lcd".to_string(), false)]);
    manager.device_poll(Answer::Targets(vec![target(3, "lcd")]));
    manager.device_poll(Answer::Flag(true));
    manager.device_poll(Answer::Flag(true));
    let turn = manager.device_poll(Answer::Reading(None));
    assert_eq!(
        turn.effects,
        vec![
            Effect::MarkFirmwareFailed { device_id: "lcd".to_string() },
            Effect::ReleaseLcd { target_index: 3 },
        ]
    );
}

#[test]
fn firmware_read_is_put_off_for_ten_seconds() {
    let put_off = Effect::ScheduleFirmwareRead {
        device_id: "lcd".to_string(),
        delay_secs: 10,
        enable_512: true,
    };

    // A stream is running.
    let mut streaming = manager();
    up_to_firmware(&mut streaming, vec![("lcd".to_string(), true)]);
    streaming.device_poll(Answer::Targets(vec![target(3, "lcd")]));
    let turn = streaming.device_poll(Answer::Flag(false));
    assert_eq!(turn.effects.len(), 1);
    assert_eq!(turn.effects[0], put_off);

    // The LCD is busy.
    let mut busy = manager();
    up_to_firmware(&mut busy, vec![("lcd".to_string(), true)]);
    busy.device_poll(Answer::Targets(vec![target(3, "lcd")]));
    busy.device_poll(Answer::Flag(true));
    let turn = busy.device_poll(Answer::Flag(false));
    assert_eq!(turn.effects.len(), 2);
    assert_eq!(turn.effects[0], put_off);
    assert_eq!(turn.effects[1], Effect::ReleaseLcd { target_index: 3 });

    // The LCD is being initialized.
    let mut starting = manager();
    up_to_firmware(&mut starting, vec![("lcd".to_string(), true)]);
    let mut lcd = target(3, "lcd");
    lcd.initialized = false;
    lcd.initializing = true;
    let turn = starting.device_poll(Answer::Targets(vec![lcd]));
    assert_eq!(turn.effects.len(), 1);
    assert_eq!(turn.effects[0], put_off);
}

#[test]
fn missing_and_foreign_targets_are_passed_over() {
    let due = vec![
        ("gone".to_string(), true),
        ("usb".to_string(), true),
        ("down".to_string(), false),
    ];
    let mut manager = manager();
    assert_eq!(up_to_firmware(&mut manager, due).query, Query::Targets { attachment: None });
    let turn = manager.device_poll(Answer::Targets(vec![target(3, "usb")]));
    assert_eq!(turn.effects, Vec::new());
    assert_eq!(turn.query, Query::Targets { attachment: None });
    let mut usb = target(3, "usb");
    usb.hid = false;
    let turn = manager.device_poll(Answer::Targets(vec![usb]));
    assert_eq!(turn.effects, Vec::new());
    assert_eq!(turn.query, Query::Targets { attachment: None });
    let mut down = target(4, "down");
    down.initialized = false;
    let turn = manager.device_poll(Answer::Targets(vec![down]));
    assert_eq!(turn.effects, Vec::new());
    assert_eq!(turn.query, Query::RgbPresent);
}

#[test]
fn due_devices_are_dealt_with_in_turn() {
    let mut manager = manager();
    let due = vec![("a".to_string(), true), ("b".to_string(), false)];
    up_to_firmware(&mut manager, due);
    let targets = || Answer::Targets(vec![target(1, "a"), target(2, "b")]);
    assert_eq!(manager.device_poll(targets()).query, Query::LcdIdle { target_index: 1 });
    let turn = manager.device_poll(Answer::Flag(false));
    assert_eq!(turn.query, Query::Targets { attachment: None });
    assert_eq!(manager.device_poll(targets()).query, Query::LcdIdle { target_index: 2 });
    manager.device_poll(Answer::Flag(true));
    manager.device_poll(Answer::Flag(true));
    let turn = manager.device_poll(Answer::Reading(None));
    assert_eq!(turn.query, Query::RgbPresent);
}

#[test]
fn thermal_override_is_checked_where_there_are_colors() {
    let mut manager = manager();
    assert_eq!(up_to_firmware(&mut manager, Vec::new()).query, Query::RgbPresent);
    let turn = manager.device_poll(Answer::Flag(true));
    assert_eq!(turn.effects, vec![Effect::CheckThermalOverride, Effect::SyncIpcTelemetry]);
}
