use lianli_daemon::wireless::{
    run_wireless_channel_supervisor, run_wireless_rebind_supervisor, CountVerdict, RebindLog,
    WirelessCount, REBIND_INTERVAL, STABLE_POLLS,
};

const SECOND: u64 = 1_000_000_000;

/// Takes in a count the way a poll does, rebuild included.
fn poll_count(count: &mut WirelessCount, current: usize) -> CountVerdict {
    let verdict = count.observe(current);
    if verdict == CountVerdict::Rebuild {
        count.settle(current);
    }
    verdict
}

#[test]
fn rebuild_comes_with_the_third_equal_count() {
    let mut count = WirelessCount::new();
    assert_eq!(poll_count(&mut count, 2), CountVerdict::Settling);
    assert_eq!(poll_count(&mut count, 2), CountVerdict::Settling);
    assert_eq!(poll_count(&mut count, 2), CountVerdict::Rebuild);
    assert_eq!(count.stable_count, 2);
    assert_eq!(count.pending_count, None);
    assert_eq!(count.pending_streak, 0);
    assert_eq!(poll_count(&mut count, 2), CountVerdict::Steady);
}

#[test]
fn another_count_starts_the_streak_over() {
    let mut count = WirelessCount::new();
    assert_eq!(poll_count(&mut count, 2), CountVerdict::Settling);
    assert_eq!(poll_count(&mut count, 2), CountVerdict::Settling);
    assert_eq!(poll_count(&mut count, 3), CountVerdict::Settling);
    assert_eq!(count.pending_count, Some(3));
    assert_eq!(count.pending_streak, 1);
    assert_eq!(poll_count(&mut count, 2), CountVerdict::Settling);
    assert_eq!(poll_count(&mut count, 2), CountVerdict::Settling);
    assert_eq!(poll_count(&mut count, 2), CountVerdict::Rebuild);
}

#[test]
fn count_that_comes_back_reshuffles_nothing() {
    let mut count = WirelessCount::new();
    assert_eq!(poll_count(&mut count, 1), CountVerdict::Settling);
    assert_eq!(poll_count(&mut count, 1), CountVerdict::Settling);
    assert_eq!(poll_count(&mut count, 0), CountVerdict::Recovered);
    assert_eq!(count.pending_count, None);
    assert_eq!(poll_count(&mut count, 0), CountVerdict::Steady);
    assert_eq!(poll_count(&mut count, 1), CountVerdict::Settling);
}

#[test]
fn three_equal_counts_settle_from_any_state() {
    for history in [vec![], vec![1], vec![1, 1], vec![2, 1], vec![4, 4], vec![4, 4, 4, 1]] {
        let mut count = WirelessCount::new();
        for seen in history {
            poll_count(&mut count, seen);
        }
        for _ in 0..3 {
            poll_count(&mut count, 4);
        }
        assert_eq!(count.stable_count, 4);
        assert_eq!(count.pending_count, None);
        assert_eq!(count.pending_streak, 0);
    }
}

#[test]
fn channel_is_switched_after_three_polls() {
    let mut streak = None;
    assert_eq!(run_wireless_channel_supervisor(&mut streak, Some(7)), None);
    assert_eq!(streak, Some((7, 1)));
    assert_eq!(run_wireless_channel_supervisor(&mut streak, Some(7)), None);
    assert_eq!(streak, Some((7, 2)));
    assert_eq!(run_wireless_channel_supervisor(&mut streak, Some(7)), Some(7));
    assert_eq!(streak, None);
    assert_eq!(run_wireless_channel_supervisor(&mut streak, Some(7)), None);
}

#[test]
fn passing_conflict_switches_nothing() {
    let mut streak = None;
    assert_eq!(run_wireless_channel_supervisor(&mut streak, Some(7)), None);
    assert_eq!(run_wireless_channel_supervisor(&mut streak, Some(7)), None);
    assert_eq!(run_wireless_channel_supervisor(&mut streak, None), None);
    assert_eq!(streak, None);
    assert_eq!(run_wireless_channel_supervisor(&mut streak, Some(7)), None);
    assert_eq!(run_wireless_channel_supervisor(&mut streak, Some(9)), None);
    assert_eq!(streak, Some((9, 1)));
    assert_eq!(run_wireless_channel_supervisor(&mut streak, Some(9)), None);
    assert_eq!(run_wireless_channel_supervisor(&mut streak, Some(9)), Some(9));
}

#[test]
fn first_configured_candidate_is_rebound() {
    let mut log = RebindLog::new();
    let configured = vec![
        "wired:1".to_string(),
        "wireless:0a:0b:0c:0d:0e:0f".to_string(),
        "wireless:01:02:03:04:05:06".to_string(),
    ];
    let candidates = vec![[9; 6], [1, 2, 3, 4, 5, 6], [10, 11, 12, 13, 14, 15]];
    let chosen = run_wireless_rebind_supervisor(&mut log, &configured, 5, &candidates);
    assert_eq!(chosen, Some([1, 2, 3, 4, 5, 6]));
    assert_eq!(log.last(&[1, 2, 3, 4, 5, 6]), Some(5));
    assert_eq!(log.last(&[9; 6]), None);

    // The first one has just been tried, so the next one has its turn.
    let chosen = run_wireless_rebind_supervisor(&mut log, &configured, 6, &candidates);
    assert_eq!(chosen, Some([10, 11, 12, 13, 14, 15]));
    let chosen = run_wireless_rebind_supervisor(&mut log, &configured, 7, &candidates);
    assert_eq!(chosen, None);
}

#[test]
fn configured_id_has_to_match_exactly() {
    let mut log = RebindLog::new();
    let configured = vec!["wireless:0A:0B:0C:0D:0E:0F".to_string(), "wireless:".to_string()];
    let candidates = vec![[10, 11, 12, 13, 14, 15]];
    let chosen = run_wireless_rebind_supervisor(&mut log, &configured, 0, &candidates);
    assert_eq!(chosen, None);
    assert_eq!(log.last(&[10, 11, 12, 13, 14, 15]), None);
}

#[test]
fn rebinds_are_thirty_seconds_apart() {
    let mut log = RebindLog::new();
    let mac = [1, 2, 3, 4, 5, 6];
    let configured = vec!["wireless:01:02:03:04:05:06".to_string()];
    let candidates = vec![mac];
    let mut tried = Vec::new();
    for second in 100..170 {
        let now = second * SECOND;
        if run_wireless_rebind_supervisor(&mut log, &configured, now, &candidates).is_some() {
            tried.push(second);
        }
    }
    assert_eq!(tried, vec![100, 130, 160]);
    assert_eq!(log.last(&mac), Some(160 * SECOND));

    // A clock that goes back counts as no time at all.
    let chosen = run_wireless_rebind_supervisor(&mut log, &configured, 0, &candidates);
    assert_eq!(chosen, None);
    let almost = 190 * SECOND - 1;
    assert_eq!(run_wireless_rebind_supervisor(&mut log, &configured, almost, &candidates), None);
    let exact = 190 * SECOND;
    assert_eq!(
        run_wireless_rebind_supervisor(&mut log, &configured, exact, &candidates),
        Some(mac)
    );
}

#[test]
fn log_keeps_the_latest_time_for_each_device() {
    let mut log = RebindLog::new();
    log.insert([1; 6], 1);
    log.insert([2; 6], 2);
    log.insert([1; 6], 3);
    log.insert([3; 6], 4);
    assert_eq!(log.last(&[1; 6]), Some(3));
    assert_eq!(log.last(&[2; 6]), Some(2));
    assert_eq!(log.last(&[3; 6]), Some(4));
    assert_eq!(log.last(&[4; 6]), None);
}

#[test]
fn supervisors_use_these_limits() {
    assert_eq!(STABLE_POLLS, 3);
    assert_eq!(REBIND_INTERVAL, 30 * SECOND);
}
