//! The supervision of wireless devices: when the controllers are rebuilt because the number of
//! devices changed, which device is bound again, and when the dongle moves to another channel.

use crate::event::Nanos;
use crate::mac::{device_id_text, wireless_device_id};
use vstd::prelude::*;

verus! {

/// How many consecutive polls a change has to hold before it is acted upon.
pub const STABLE_POLLS: u32 = 3;

/// The least time between two attempts to bind the same device, in nanoseconds.
pub const REBIND_INTERVAL: Nanos = 30_000_000_000;

/// The number of bound wireless devices, and a different number that has been seen lately.
#[derive(Debug, PartialEq, Eq, Structural, Clone, Copy)]
pub struct WirelessCount {
    /// The number for which the controllers were built.
    pub stable_count: usize,
    /// A number that differs from it, and has not held for long enough.
    pub pending_count: Option<usize>,
    /// For how many consecutive polls the pending number has been seen.
    pub pending_streak: u32,
}

/// What a poll makes of the number of devices that it sees.
#[derive(Debug, PartialEq, Eq, Structural, Clone, Copy)]
pub enum CountVerdict {
    /// The number changed and has held: rebuild what depends on it.
    Rebuild,
    /// The number changed and has to hold for longer.
    Settling,
    /// A change did not last.
    Recovered,
    /// Nothing changed.
    Steady,
}

impl WirelessCount {
    /// Between two polls a streak is shorter than the number of polls that it has to last, and
    /// there is one exactly where a number is pending.
    pub open spec fn wf(self) -> bool {
        &&& self.pending_streak < STABLE_POLLS
        &&& self.pending_count is None <==> self.pending_streak == 0
    }

    /// How long `current` has now been seen.
    pub open spec fn streak_with(self, current: usize) -> u32 {
        if self.pending_count == Some(current) {
            (self.pending_streak + 1) as u32
        } else {
            1
        }
    }

    pub open spec fn verdict(self, current: usize) -> CountVerdict {
        if current != self.stable_count {
            if self.streak_with(current) >= STABLE_POLLS {
                CountVerdict::Rebuild
            } else {
                CountVerdict::Settling
            }
        } else if self.pending_count is Some {
            CountVerdict::Recovered
        } else {
            CountVerdict::Steady
        }
    }

    pub open spec fn observed(self, current: usize) -> WirelessCount {
        if current != self.stable_count {
            WirelessCount {
                pending_count: Some(current),
                pending_streak: self.streak_with(current),
                ..self
            }
        } else {
            WirelessCount { pending_count: None, pending_streak: 0, ..self }
        }
    }

    pub open spec fn settled(current: usize) -> WirelessCount {
        WirelessCount { stable_count: current, pending_count: None, pending_streak: 0 }
    }

    /// No wireless device yet.
    pub fn new() -> (count: Self)
        ensures
            count == WirelessCount::settled(0),
            count.wf(),
    {
        WirelessCount { stable_count: 0, pending_count: None, pending_streak: 0 }
    }

    /// Takes in the number of devices that a poll sees.
    pub fn observe(&mut self, current: usize) -> (verdict: CountVerdict)
        requires
            old(self).wf(),
        ensures
            verdict == old(self).verdict(current),
            *final(self) == old(self).observed(current),
            verdict != CountVerdict::Rebuild ==> final(self).wf(),
    {
        if current != self.stable_count {
            match self.pending_count {
                Some(pending) if pending == current => {
                    self.pending_streak = self.pending_streak + 1;
                },
                _ => {
                    self.pending_count = Some(current);
                    self.pending_streak = 1;
                },
            }
            if self.pending_streak >= STABLE_POLLS {
                CountVerdict::Rebuild
            } else {
                CountVerdict::Settling
            }
        } else if self.pending_count.is_some() {
            self.pending_count = None;
            self.pending_streak = 0;
            CountVerdict::Recovered
        } else {
            CountVerdict::Steady
        }
    }

    /// The controllers were rebuilt for `current` devices.
    pub fn settle(&mut self, current: usize)
        ensures
            *final(self) == WirelessCount::settled(current),
            final(self).wf(),
    {
        self.stable_count = current;
        self.pending_count = None;
        self.pending_streak = 0;
    }
}

/// What a whole poll makes of the number of devices, the rebuild included.
pub open spec fn count_poll(before: WirelessCount, current: usize) -> WirelessCount {
    if before.verdict(current) == CountVerdict::Rebuild {
        WirelessCount::settled(current)
    } else {
        before.observed(current)
    }
}

/// What a run of polls makes of it.
pub open spec fn count_polls(before: WirelessCount, counts: Seq<usize>) -> WirelessCount
    decreases counts.len(),
{
    if counts.len() == 0 {
        before
    } else {
        count_poll(count_polls(before, counts.drop_last()), counts.last())
    }
}

/// Whether the last `n` polls all saw `count`.
pub open spec fn held_for(counts: Seq<usize>, count: usize, n: nat) -> bool {
    &&& n <= counts.len()
    &&& forall|i: int| counts.len() - n <= i < counts.len() ==> #[trigger] counts[i] == count
}

proof fn lemma_pending_count_was_held(before: WirelessCount, counts: Seq<usize>)
    requires
        before.wf(),
        before.pending_count is None,
    ensures
        ({
            let after = count_polls(before, counts);
            &&& after.wf()
            &&& after.pending_count matches Some(count) ==> count != after.stable_count
                && held_for(counts, count, after.pending_streak as nat)
        }),
    decreases counts.len(),
{
    if counts.len() > 0 {
        let front = counts.drop_last();
        lemma_pending_count_was_held(before, front);
        let mid = count_polls(before, front);
        let current = counts.last();
        let after = count_polls(before, counts);
        if after.pending_count is Some && mid.pending_count == Some(current) {
            assert(held_for(front, current, mid.pending_streak as nat));
            assert forall|i: int|
                counts.len() - after.pending_streak <= i < counts.len() implies #[trigger] counts[i]
                == current by {
                if i < front.len() {
                    assert(front[i] == counts[i]);
                }
            }
        }
    }
}

/// Controllers are only rebuilt for a number of devices that differs from the one they were built
/// for and that the last three polls in a row have seen: a device that comes and goes in between
/// reshuffles nothing.
pub proof fn law_rebuild_needs_three_equal_counts(
    before: WirelessCount,
    counts: Seq<usize>,
    current: usize,
)
    requires
        before.wf(),
        before.pending_count is None,
        count_polls(before, counts).verdict(current) == CountVerdict::Rebuild,
    ensures
        current != count_polls(before, counts).stable_count,
        held_for(counts.push(current), current, STABLE_POLLS as nat),
{
    lemma_pending_count_was_held(before, counts);
    let mid = count_polls(before, counts);
    assert(held_for(counts, current, mid.pending_streak as nat));
    let all = counts.push(current);
    assert forall|i: int| all.len() - STABLE_POLLS <= i < all.len() implies #[trigger] all[i]
        == current by {
        if i < counts.len() {
            assert(counts[i] == all[i]);
        }
    }
}

/// A number of devices that three polls in a row see is the one the controllers are built for, in
/// whatever state the first of the three finds things.
pub proof fn law_three_equal_counts_settle(before: WirelessCount, current: usize)
    requires
        before.wf(),
    ensures
        count_polls(before, seq![current, current, current]) == WirelessCount::settled(current),
{
    let three = seq![current, current, current];
    let two = three.drop_last();
    let one = two.drop_last();
    assert(one.drop_last() =~= Seq::empty());
    assert(count_polls(before, one.drop_last()) == before);
    assert(count_polls(before, one) == count_poll(before, current));
    assert(count_polls(before, two) == count_poll(count_poll(before, current), current));
}

/// The channel that an arbitration asks for, and for how many consecutive polls it has done so.
pub type ChannelStreak = Option<(u8, u32)>;

/// A streak that is waiting is not long enough yet.
pub open spec fn channel_wf(streak: ChannelStreak) -> bool {
    streak matches Some((_, polls)) ==> 0 < polls < STABLE_POLLS
}

/// How long `target` has now been asked for.
pub open spec fn channel_streak_with(streak: ChannelStreak, target: u8) -> u32 {
    match streak {
        Some((channel, polls)) if channel == target => (polls + 1) as u32,
        _ => 1,
    }
}

/// The channel to switch to after this poll, if any.
pub open spec fn channel_switch(streak: ChannelStreak, target: Option<u8>) -> Option<u8> {
    match target {
        Some(channel) if channel_streak_with(streak, channel) >= STABLE_POLLS => Some(channel),
        _ => None,
    }
}

/// The streak after this poll.
pub open spec fn channel_next(streak: ChannelStreak, target: Option<u8>) -> ChannelStreak {
    match target {
        Some(channel) if channel_switch(streak, target) is None => Some(
            (channel, channel_streak_with(streak, channel)),
        ),
        _ => None,
    }
}

/// Takes in what the arbitration asks for, and decides whether to move the dongle off a channel
/// shared with another master. The conflict must persist three consecutive polls, so that a briefly
/// powered neighbour does not reshuffle anything.
pub fn run_wireless_channel_supervisor(
    streak: &mut ChannelStreak,
    target: Option<u8>,
) -> (switch_to: Option<u8>)
    requires
        channel_wf(*old(streak)),
    ensures
        switch_to == channel_switch(*old(streak), target),
        *final(streak) == channel_next(*old(streak), target),
        channel_wf(*final(streak)),
{
    match target {
        Some(channel) => {
            let polls: u32 = match *streak {
                Some((asked, polls)) if asked == channel => polls + 1,
                _ => 1,
            };
            if polls < STABLE_POLLS {
                *streak = Some((channel, polls));
                None
            } else {
                *streak = None;
                Some(channel)
            }
        },
        None => {
            *streak = None;
            None
        },
    }
}

/// What a run of polls makes of the streak.
pub open spec fn channel_polls(before: ChannelStreak, targets: Seq<Option<u8>>) -> ChannelStreak
    decreases targets.len(),
{
    if targets.len() == 0 {
        before
    } else {
        channel_next(channel_polls(before, targets.drop_last()), targets.last())
    }
}

/// Whether the last `n` polls all asked for `channel`.
pub open spec fn asked_for(targets: Seq<Option<u8>>, channel: u8, n: nat) -> bool {
    &&& n <= targets.len()
    &&& forall|i: int|
        targets.len() - n <= i < targets.len() ==> #[trigger] targets[i] == Some(channel)
}

proof fn lemma_channel_streak_was_asked_for(targets: Seq<Option<u8>>)
    ensures
        channel_wf(channel_polls(None, targets)),
        channel_polls(None, targets) matches Some((channel, polls)) ==> asked_for(
            targets,
            channel,
            polls as nat,
        ),
    decreases targets.len(),
{
    if targets.len() > 0 {
        let front = targets.drop_last();
        lemma_channel_streak_was_asked_for(front);
        if let Some((channel, polls)) = channel_polls(None, targets) {
            assert forall|i: int|
                targets.len() - polls <= i < targets.len() implies #[trigger] targets[i] == Some(
                channel,
            ) by {
                if i < front.len() {
                    assert(front[i] == targets[i]);
                }
            }
        }
    }
}

/// The dongle only moves to a channel that the last three polls in a row have asked for.
pub proof fn law_channel_switch_needs_three_equal_targets(
    targets: Seq<Option<u8>>,
    target: Option<u8>,
)
    requires
        channel_switch(channel_polls(None, targets), target) is Some,
    ensures
        channel_switch(channel_polls(None, targets), target) == target,
        asked_for(targets.push(target), target->0, STABLE_POLLS as nat),
{
    lemma_channel_streak_was_asked_for(targets);
    let all = targets.push(target);
    let channel = target->0;
    assert(asked_for(targets, channel, 2));
    assert forall|i: int| all.len() - STABLE_POLLS <= i < all.len() implies #[trigger] all[i]
        == Some(channel) by {
        if i < targets.len() {
            assert(targets[i] == all[i]);
        }
    }
}

/// A conflict that persists for three polls is acted upon by the third at the latest.
pub proof fn law_persistent_conflict_switches(before: ChannelStreak, channel: u8)
    requires
        channel_wf(before),
    ensures
        ({
            let first = channel_next(before, Some(channel));
            let second = channel_next(first, Some(channel));
            ||| channel_switch(before, Some(channel)) == Some(channel)
            ||| channel_switch(first, Some(channel)) == Some(channel)
            ||| channel_switch(second, Some(channel)) == Some(channel)
        }),
{
}

/// When each device was last bound again.
#[derive(Debug)]
pub struct RebindLog {
    entries: Vec<([u8; 6], Nanos)>,
}

/// The last entry for each address.
pub open spec fn log_of(entries: Seq<([u8; 6], Nanos)>) -> Map<[u8; 6], Nanos>
    decreases entries.len(),
{
    if entries.len() == 0 {
        Map::empty()
    } else {
        log_of(entries.drop_last()).insert(entries.last().0, entries.last().1)
    }
}

impl View for RebindLog {
    type V = Map<[u8; 6], Nanos>;

    closed spec fn view(&self) -> Map<[u8; 6], Nanos> {
        log_of(self.entries@)
    }
}

proof fn lemma_log_lookup(entries: Seq<([u8; 6], Nanos)>, i: int)
    requires
        0 <= i < entries.len(),
        forall|j: int| i < j < entries.len() ==> (#[trigger] entries[j]).0 != entries[i].0,
    ensures
        log_of(entries).contains_key(entries[i].0),
        log_of(entries)[entries[i].0] == entries[i].1,
    decreases entries.len(),
{
    if i < entries.len() - 1 {
        let front = entries.drop_last();
        assert(forall|j: int| 0 <= j < front.len() ==> front[j] == entries[j]);
        lemma_log_lookup(front, i);
        assert(entries[entries.len() - 1].0 != entries[i].0);
    }
}

proof fn lemma_log_missing(entries: Seq<([u8; 6], Nanos)>, mac: [u8; 6])
    requires
        forall|j: int| 0 <= j < entries.len() ==> (#[trigger] entries[j]).0 != mac,
    ensures
        !log_of(entries).contains_key(mac),
    decreases entries.len(),
{
    if entries.len() > 0 {
        let front = entries.drop_last();
        assert(forall|j: int| 0 <= j < front.len() ==> front[j] == entries[j]);
        lemma_log_missing(front, mac);
        assert(entries[entries.len() - 1].0 != mac);
    }
}

/// Removing an entry and appending another for the same address only changes that address.
proof fn lemma_log_move(entries: Seq<([u8; 6], Nanos)>, i: int, mac: [u8; 6], now: Nanos)
    requires
        0 <= i < entries.len(),
        entries[i].0 == mac,
    ensures
        log_of(entries.remove(i).push((mac, now))) == log_of(entries).insert(mac, now),
{
    lemma_log_without(entries, i);
    let rest = entries.remove(i);
    assert(rest.push((mac, now)).drop_last() =~= rest);
    assert(log_of(rest).insert(mac, now) =~= log_of(rest).remove(mac).insert(mac, now));
    assert(log_of(entries).insert(mac, now) =~= log_of(entries).remove(mac).insert(mac, now));
}

proof fn lemma_log_without(entries: Seq<([u8; 6], Nanos)>, i: int)
    requires
        0 <= i < entries.len(),
    ensures
        log_of(entries.remove(i)).remove(entries[i].0) == log_of(entries).remove(entries[i].0),
    decreases entries.len(),
{
    let mac = entries[i].0;
    let front = entries.drop_last();
    if i == entries.len() - 1 {
        assert(entries.remove(i) =~= front);
        assert(log_of(front).remove(mac) =~= log_of(entries).remove(mac));
    } else {
        lemma_log_without(front, i);
        let rest = entries.remove(i);
        assert(rest.drop_last() =~= front.remove(i));
        assert(rest.last() == entries.last());
        let (key, time) = entries.last();
        let smaller = log_of(front.remove(i));
        let larger = log_of(front);
        assert(smaller.remove(mac) == larger.remove(mac));
        assert(smaller.insert(key, time).remove(mac) =~= larger.insert(key, time).remove(mac)) by {
            if key == mac {
                assert(smaller.insert(key, time).remove(mac) =~= smaller.remove(mac));
                assert(larger.insert(key, time).remove(mac) =~= larger.remove(mac));
            } else {
                assert(smaller.insert(key, time).remove(mac) =~= smaller.remove(mac).insert(
                    key,
                    time,
                ));
                assert(larger.insert(key, time).remove(mac) =~= larger.remove(mac).insert(
                    key,
                    time,
                ));
            }
        }
    }
}

fn same_mac(a: &[u8; 6], b: &[u8; 6]) -> (same: bool)
    ensures
        same == (*a == *b),
{
    let mut i: usize = 0;
    while i < 6
        invariant
            i <= 6,
            forall|j: int| 0 <= j < i ==> a@[j] == b@[j],
        decreases 6 - i,
    {
        if a[i] != b[i] {
            assert(a@[i as int] != b@[i as int]);
            return false;
        }
        i = i + 1;
    }
    assert(*a =~= *b);
    true
}

impl RebindLog {
    pub fn new() -> (log: Self)
        ensures
            log@ == Map::<[u8; 6], Nanos>::empty(),
    {
        RebindLog { entries: Vec::new() }
    }

    /// The position of the last entry for `mac`.
    fn position(&self, mac: &[u8; 6]) -> (position: Option<usize>)
        ensures
            position matches Some(i) ==> {
                &&& i < self.entries@.len()
                &&& self.entries@[i as int].0 == *mac
                &&& forall|j: int| i < j < self.entries@.len() ==> (#[trigger] self.entries@[j]).0
                    != *mac
            },
            position is None ==> forall|j: int|
                0 <= j < self.entries@.len() ==> (#[trigger] self.entries@[j]).0 != *mac,
    {
        let mut i: usize = self.entries.len();
        while i > 0
            invariant
                i <= self.entries@.len(),
                forall|j: int|
                    i <= j < self.entries@.len() ==> (#[trigger] self.entries@[j]).0 != *mac,
            decreases i,
        {
            if same_mac(&self.entries[i - 1].0, mac) {
                return Some(i - 1);
            }
            i = i - 1;
        }
        None
    }

    /// When `mac` was last bound again.
    pub fn last(&self, mac: &[u8; 6]) -> (time: Option<Nanos>)
        ensures
            time is Some <==> self@.contains_key(*mac),
            time matches Some(t) ==> t == self@[*mac],
    {
        match self.position(mac) {
            Some(i) => {
                proof {
                    lemma_log_lookup(self.entries@, i as int);
                }
                Some(self.entries[i].1)
            },
            None => {
                proof {
                    lemma_log_missing(self.entries@, *mac);
                }
                None
            },
        }
    }

    /// `mac` is bound again at `now`.
    pub fn insert(&mut self, mac: [u8; 6], now: Nanos)
        ensures
            final(self)@ == old(self)@.insert(mac, now),
    {
        let ghost before = self.entries@;
        match self.position(&mac) {
            Some(i) => {
                proof {
                    lemma_log_move(before, i as int, mac, now);
                }
                self.entries.remove(i);
            },
            None => {},
        }
        let ghost rest = self.entries@;
        self.entries.push((mac, now));
        assert(self.entries@.drop_last() =~= rest);
    }
}

/// Whether a device that could be bound again is to be: the configuration names it, and the last
/// attempt is long enough ago.
pub open spec fn rebind_due(
    mac: [u8; 6],
    configured: Seq<String>,
    log: Map<[u8; 6], Nanos>,
    now: Nanos,
) -> bool {
    &&& exists|i: int|
        0 <= i < configured.len() && (#[trigger] configured[i])@ == device_id_text(mac@)
    &&& log.contains_key(mac) ==> now - log[mac] >= REBIND_INTERVAL
}

/// The first of the candidates that is to be bound again.
pub open spec fn rebind_choice(
    candidates: Seq<[u8; 6]>,
    configured: Seq<String>,
    log: Map<[u8; 6], Nanos>,
    now: Nanos,
) -> Option<[u8; 6]>
    decreases candidates.len(),
{
    if candidates.len() == 0 {
        None
    } else if rebind_due(candidates[0], configured, log, now) {
        Some(candidates[0])
    } else {
        rebind_choice(candidates.skip(1), configured, log, now)
    }
}

/// The log after the choice was made.
pub open spec fn rebind_next(
    candidates: Seq<[u8; 6]>,
    configured: Seq<String>,
    log: Map<[u8; 6], Nanos>,
    now: Nanos,
) -> Map<[u8; 6], Nanos> {
    match rebind_choice(candidates, configured, log, now) {
        Some(mac) => log.insert(mac, now),
        None => log,
    }
}

fn is_rebind_due(
    mac: &[u8; 6],
    configured: &Vec<String>,
    log: &RebindLog,
    now: Nanos,
) -> (due: bool)
    ensures
        due == rebind_due(*mac, configured@, log@, now),
{
    let id = wireless_device_id(mac);
    let mut named = false;
    let mut i: usize = 0;
    while i < configured.len() && !named
        invariant
            i <= configured@.len(),
            id@ == device_id_text(mac@),
            named <==> exists|j: int| 0 <= j < i && (#[trigger] configured@[j])@ == id@,
        decreases configured.len() - i,
    {
        if configured[i] == id {
            named = true;
            assert(configured@[i as int]@ == id@);
        }
        i = i + 1;
    }
    named && match log.last(mac) {
        Some(last) => now.saturating_sub(last) >= REBIND_INTERVAL,
        None => true,
    }
}

/// Picks the device to bind again: the first candidate that the configuration names and that was
/// not tried within the last thirty seconds. The choice is noted with the time.
pub fn run_wireless_rebind_supervisor(
    log: &mut RebindLog,
    configured: &Vec<String>,
    now: Nanos,
    candidates: &Vec<[u8; 6]>,
) -> (mac: Option<[u8; 6]>)
    ensures
        mac == rebind_choice(candidates@, configured@, old(log)@, now),
        final(log)@ == rebind_next(candidates@, configured@, old(log)@, now),
{
    let mut i: usize = 0;
    assert(candidates@.skip(0) =~= candidates@);
    while i < candidates.len()
        invariant
            i <= candidates@.len(),
            log@ == old(log)@,
            rebind_choice(candidates@, configured@, log@, now) == rebind_choice(
                candidates@.skip(i as int),
                configured@,
                log@,
                now,
            ),
        decreases candidates.len() - i,
    {
        let mac: [u8; 6] = candidates[i];
        assert(candidates@.skip(i as int).skip(1) =~= candidates@.skip(i + 1));
        assert(candidates@.skip(i as int)[0] == mac);
        if is_rebind_due(&mac, configured, log, now) {
            log.insert(mac, now);
            return Some(mac);
        }
        i = i + 1;
    }
    None
}

/// What the rebind supervisor is given in one poll.
pub struct RebindPoll {
    pub candidates: Seq<[u8; 6]>,
    pub configured: Seq<String>,
    pub now: Nanos,
}

/// The log after a run of polls.
pub open spec fn rebind_polls(
    before: Map<[u8; 6], Nanos>,
    polls: Seq<RebindPoll>,
) -> Map<[u8; 6], Nanos>
    decreases polls.len(),
{
    if polls.len() == 0 {
        before
    } else {
        let poll = polls.last();
        rebind_next(
            poll.candidates,
            poll.configured,
            rebind_polls(before, polls.drop_last()),
            poll.now,
        )
    }
}

/// The device that the poll at `i` of a run picks.
pub open spec fn rebind_at(
    before: Map<[u8; 6], Nanos>,
    polls: Seq<RebindPoll>,
    i: int,
) -> Option<[u8; 6]> {
    rebind_choice(
        polls[i].candidates,
        polls[i].configured,
        rebind_polls(before, polls.take(i)),
        polls[i].now,
    )
}

proof fn lemma_choice_is_due(
    candidates: Seq<[u8; 6]>,
    configured: Seq<String>,
    log: Map<[u8; 6], Nanos>,
    now: Nanos,
)
    ensures
        rebind_choice(candidates, configured, log, now) matches Some(mac) ==> {
            &&& candidates.contains(mac)
            &&& rebind_due(mac, configured, log, now)
        },
    decreases candidates.len(),
{
    if candidates.len() > 0 {
        if rebind_due(candidates[0], configured, log, now) {
        } else {
            lemma_choice_is_due(candidates.skip(1), configured, log, now);
            if let Some(mac) = rebind_choice(candidates, configured, log, now) {
                let k = choose|k: int|
                    0 <= k < candidates.skip(1).len() && candidates.skip(1)[k] == mac;
                assert(candidates[k + 1] == mac);
            }
        }
    }
}

/// Only a candidate whose id the configuration holds is bound again.
pub proof fn law_only_configured_candidates_are_rebound(
    candidates: Seq<[u8; 6]>,
    configured: Seq<String>,
    log: Map<[u8; 6], Nanos>,
    now: Nanos,
)
    ensures
        rebind_choice(candidates, configured, log, now) matches Some(mac) ==> {
            &&& candidates.contains(mac)
            &&& exists|i: int|
                0 <= i < configured.len() && (#[trigger] configured[i])@ == device_id_text(mac@)
        },
{
    lemma_choice_is_due(candidates, configured, log, now);
}

/// The log holds a time no earlier than that of any poll that picked the device.
proof fn lemma_log_remembers(
    before: Map<[u8; 6], Nanos>,
    polls: Seq<RebindPoll>,
    i: int,
    mac: [u8; 6],
)
    requires
        0 <= i < polls.len(),
        rebind_at(before, polls, i) == Some(mac),
    ensures
        rebind_polls(before, polls).contains_key(mac),
        rebind_polls(before, polls)[mac] >= polls[i].now,
    decreases polls.len(),
{
    let front = polls.drop_last();
    let poll = polls.last();
    let log = rebind_polls(before, front);
    lemma_choice_is_due(poll.candidates, poll.configured, log, poll.now);
    if i == polls.len() - 1 {
        assert(polls.take(i) =~= front);
    } else {
        assert(front.take(i) =~= polls.take(i));
        assert(front[i] == polls[i]);
        lemma_log_remembers(before, front, i, mac);
    }
}

/// The same device is never tried twice within thirty seconds, over any run of polls.
pub proof fn law_rebinds_are_spaced(
    before: Map<[u8; 6], Nanos>,
    polls: Seq<RebindPoll>,
    i: int,
    j: int,
    mac: [u8; 6],
)
    requires
        0 <= i < j < polls.len(),
        rebind_at(before, polls, i) == Some(mac),
        rebind_at(before, polls, j) == Some(mac),
    ensures
        polls[j].now - polls[i].now >= REBIND_INTERVAL,
{
    let front = polls.take(j);
    assert(front.take(i) =~= polls.take(i));
    assert(front[i] == polls[i]);
    lemma_log_remembers(before, front, i, mac);
    lemma_choice_is_due(
        polls[j].candidates,
        polls[j].configured,
        rebind_polls(before, front),
        polls[j].now,
    );
}

} // verus!
