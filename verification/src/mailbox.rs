//! The event queue of the service loop, and the poll gate that keeps slow device polls from piling
//! up in it. The surrounding program shares both between its threads behind a lock.

use crate::event::{inner_event, DaemonEvent};
use std::collections::VecDeque;
use vstd::prelude::*;

verus! {

/// Seconds between two device polls.
pub const DEVICE_POLL_INTERVAL_SECS: u64 = 1;

/// Seconds between two full enumerations of the USB bus, which only serve to detect wired devices
/// that are plugged in. Wireless discovery polls on its own.
pub const USB_ENUM_INTERVAL_SECS: u64 = 10;

/// Coalesces slow polls so they cannot build a backlog ahead of IPC events.
#[derive(Debug)]
pub struct PollGate {
    queued: bool,
}

impl View for PollGate {
    type V = bool;

    /// Whether a poll is queued, or received and not yet started.
    closed spec fn view(&self) -> bool {
        self.queued
    }
}

impl PollGate {
    pub fn new() -> (gate: Self)
        ensures
            !gate@,
    {
        PollGate { queued: false }
    }

    /// Claims the poll gate: `true` where no poll was queued, and the caller now has to queue one.
    pub fn try_queue(&mut self) -> (claimed: bool)
        ensures
            claimed == !old(self)@,
            final(self)@,
    {
        let claimed = !self.queued;
        self.queued = true;
        claimed
    }

    /// The queued poll was received: the next one may be queued.
    pub fn dequeued(&mut self)
        ensures
            !final(self)@,
            forall|queue: EventQueue| #[trigger]
                mailbox(queue, *final(self)) == mailbox_step(
                    mailbox(queue, *old(self)),
                    MailboxStep::Dequeue,
                ),
    {
        self.queued = false;
    }
}

/// The receiving side is gone; the event that could not be sent is handed back.
#[derive(Debug)]
pub struct SendError(pub DaemonEvent);

/// Why nothing was received.
#[derive(Debug)]
pub enum TryRecvError {
    Empty,
}

/// Events on their way to the service loop, in the order in which they were sent.
#[derive(Debug)]
pub struct EventQueue {
    pending: VecDeque<DaemonEvent>,
    open: bool,
}

impl View for EventQueue {
    type V = Seq<DaemonEvent>;

    /// The events that were sent and not yet received, the oldest first.
    closed spec fn view(&self) -> Seq<DaemonEvent> {
        self.pending@
    }
}

impl EventQueue {
    /// Whether the service loop still receives.
    pub closed spec fn is_open(&self) -> bool {
        self.open
    }

    pub fn new() -> (queue: Self)
        ensures
            queue@ == Seq::<DaemonEvent>::empty(),
            queue.is_open(),
            forall|before: EventQueue, gate: PollGate| #[trigger]
                mailbox_step(mailbox(before, gate), MailboxStep::Open) == mailbox(queue, gate),
    {
        EventQueue { pending: VecDeque::new(), open: true }
    }

    /// Appends `event`, or hands it back where the receiving side is gone.
    pub fn send(&mut self, event: DaemonEvent) -> (sent: Result<(), SendError>)
        ensures
            final(self).is_open() == old(self).is_open(),
            old(self).is_open() ==> sent is Ok && final(self)@ == old(self)@.push(event),
            !old(self).is_open() ==> sent == Err::<(), SendError>(SendError(event)) && final(self)@
                == old(self)@,
            forall|gate: PollGate| #[trigger]
                mailbox(*final(self), gate) == mailbox_step(
                    mailbox(*old(self), gate),
                    MailboxStep::Send { event },
                ),
    {
        if self.open {
            self.pending.push_back(event);
            Ok(())
        } else {
            Err(SendError(event))
        }
    }

    /// Takes the oldest event.
    pub fn try_recv(&mut self) -> (event: Result<DaemonEvent, TryRecvError>)
        ensures
            final(self).is_open() == old(self).is_open(),
            old(self)@.len() > 0 ==> event == Ok::<DaemonEvent, TryRecvError>(old(self)@[0])
                && final(self)@ == old(self)@.skip(1),
            old(self)@.len() == 0 ==> event is Err && final(self)@ == old(self)@,
            forall|gate: PollGate| #[trigger]
                mailbox(*final(self), gate) == mailbox_step(
                    mailbox(*old(self), gate),
                    MailboxStep::Take,
                ),
    {
        match self.pending.pop_front() {
            Some(event) => Ok(event),
            None => Err(TryRecvError::Empty),
        }
    }

    /// The service loop ends: what is still queued is dropped, and nothing more can be sent.
    pub fn close(&mut self)
        ensures
            !final(self).is_open(),
            final(self)@ == Seq::<DaemonEvent>::empty(),
            forall|gate: PollGate| #[trigger]
                mailbox(*final(self), gate) == mailbox_step(
                    mailbox(*old(self), gate),
                    MailboxStep::Close,
                ),
    {
        self.pending.clear();
        self.open = false;
    }
}

/// What a freshly started service loop finds in its queue: a check of the USB bus, and a device
/// poll where none is queued yet.
pub open spec fn startup_events(poll_queued: bool) -> Seq<DaemonEvent> {
    if poll_queued {
        seq![DaemonEvent::USBCheck]
    } else {
        seq![DaemonEvent::USBCheck, DaemonEvent::DevicePoll]
    }
}

/// Queues the events that start the service loop off.
pub fn queue_startup_events(tx: &mut EventQueue, gate: &mut PollGate) -> (sent: Result<
    (),
    SendError,
>)
    ensures
        final(tx).is_open() == old(tx).is_open(),
        old(tx).is_open() ==> {
            &&& sent is Ok
            &&& final(tx)@ == old(tx)@ + startup_events(old(gate)@)
            &&& final(gate)@
        },
        !old(tx).is_open() ==> {
            &&& sent == Err::<(), SendError>(SendError(DaemonEvent::USBCheck))
            &&& final(tx)@ == old(tx)@
            &&& final(gate)@ == old(gate)@
        },
        mailbox(*final(tx), *final(gate)) == mailbox_step(
            mailbox(*old(tx), *old(gate)),
            MailboxStep::Startup,
        ),
{
    match tx.send(DaemonEvent::USBCheck) {
        Ok(()) => {},
        Err(error) => {
            return Err(error);
        },
    }
    if gate.try_queue() {
        match tx.send(DaemonEvent::DevicePoll) {
            Ok(()) => {},
            Err(error) => {
                return Err(error);
            },
        }
    }
    Ok(())
}

/// Whether a timer thread goes on.
#[derive(Debug, PartialEq, Eq, Structural, Clone, Copy)]
pub enum Tick {
    Continue,
    /// The service loop has ended, and the timer ends with it.
    Stop,
}

/// What the timer for USB enumeration does each time its interval has passed.
pub fn usb_tick(tx: &mut EventQueue) -> (tick: Tick)
    ensures
        final(tx).is_open() == old(tx).is_open(),
        old(tx).is_open() ==> tick == Tick::Continue && final(tx)@ == old(tx)@.push(
            DaemonEvent::USBCheck,
        ),
        !old(tx).is_open() ==> tick == Tick::Stop && final(tx)@ == old(tx)@,
        forall|gate: PollGate| #[trigger]
            mailbox(*final(tx), gate) == mailbox_step(
                mailbox(*old(tx), gate),
                MailboxStep::Send { event: DaemonEvent::USBCheck },
            ),
{
    match tx.send(DaemonEvent::USBCheck) {
        Ok(()) => Tick::Continue,
        Err(_) => Tick::Stop,
    }
}

/// What the timer for device polls does each time its interval has passed.
pub fn poll_tick(tx: &mut EventQueue, gate: &mut PollGate) -> (tick: Tick)
    ensures
        final(tx).is_open() == old(tx).is_open(),
        final(gate)@,
        old(gate)@ ==> tick == Tick::Continue && final(tx)@ == old(tx)@,
        !old(gate)@ && old(tx).is_open() ==> tick == Tick::Continue && final(tx)@ == old(tx)@.push(
            DaemonEvent::DevicePoll,
        ),
        !old(gate)@ && !old(tx).is_open() ==> tick == Tick::Stop && final(tx)@ == old(tx)@,
        mailbox(*final(tx), *final(gate)) == mailbox_step(
            mailbox(*old(tx), *old(gate)),
            MailboxStep::PollTick,
        ),
{
    if !gate.try_queue() {
        return Tick::Continue;
    }
    match tx.send(DaemonEvent::DevicePoll) {
        Ok(()) => Tick::Continue,
        Err(_) => Tick::Stop,
    }
}

/// How many of the events are device polls, with or without a permit.
pub open spec fn polls(events: Seq<DaemonEvent>) -> nat
    decreases events.len(),
{
    if events.len() == 0 {
        0
    } else {
        polls(events.drop_last()) + if inner_event(events.last()) is DevicePoll {
            1nat
        } else {
            0nat
        }
    }
}

/// A queue and its gate.
#[verifier::ext_equal]
pub struct Mailbox {
    pub queue: Seq<DaemonEvent>,
    pub open: bool,
    pub poll_queued: bool,
}

pub open spec fn mailbox(queue: EventQueue, gate: PollGate) -> Mailbox {
    Mailbox { queue: queue@, open: queue.is_open(), poll_queued: gate@ }
}

/// Something that happens to a queue and its gate, through the call that does it.
pub enum MailboxStep {
    /// `EventQueue::new`: a loop that starts takes a new queue.
    Open,
    /// `queue_startup_events`.
    Startup,
    /// `poll_tick`.
    PollTick,
    /// `EventQueue::send`, and `usb_tick`, which sends `USBCheck`.
    Send { event: DaemonEvent },
    /// `EventQueue::try_recv`: the service loop takes the oldest event.
    Take,
    /// `PollGate::dequeued`: the service loop starts to handle a device poll.
    Dequeue,
    /// `EventQueue::close`.
    Close,
}

/// What a step makes of the mailbox.
pub open spec fn mailbox_step(before: Mailbox, step: MailboxStep) -> Mailbox {
    match step {
        MailboxStep::Open => Mailbox { queue: Seq::empty(), open: true, ..before },
        MailboxStep::Startup => if before.open {
            Mailbox {
                queue: before.queue + startup_events(before.poll_queued),
                poll_queued: true,
                ..before
            }
        } else {
            before
        },
        MailboxStep::PollTick => if before.open && !before.poll_queued {
            Mailbox {
                queue: before.queue.push(DaemonEvent::DevicePoll),
                poll_queued: true,
                ..before
            }
        } else {
            Mailbox { poll_queued: true, ..before }
        },
        MailboxStep::Send { event } => if before.open {
            Mailbox { queue: before.queue.push(event), ..before }
        } else {
            before
        },
        MailboxStep::Take => if before.queue.len() > 0 {
            Mailbox { queue: before.queue.skip(1), ..before }
        } else {
            before
        },
        MailboxStep::Dequeue => Mailbox { poll_queued: false, ..before },
        MailboxStep::Close => Mailbox { queue: Seq::empty(), open: false, ..before },
    }
}

/// What a run of steps makes of the mailbox.
pub open spec fn mailbox_run(before: Mailbox, steps: Seq<MailboxStep>) -> Mailbox
    decreases steps.len(),
{
    if steps.len() == 0 {
        before
    } else {
        mailbox_step(mailbox_run(before, steps.drop_last()), steps.last())
    }
}

/// Whether the step takes a device poll out of the queue.
pub open spec fn takes_poll(before: Mailbox, step: MailboxStep) -> bool {
    step is Take && before.queue.len() > 0 && inner_event(before.queue[0]) is DevicePoll
}

/// Whether, after a run of steps, a device poll has been taken out for which the poll gate has not
/// been opened yet. One that is dropped because a shutdown was requested stays in hand.
pub open spec fn poll_in_hand(before: Mailbox, in_hand: bool, steps: Seq<MailboxStep>) -> bool
    decreases steps.len(),
{
    if steps.len() == 0 {
        in_hand
    } else {
        let front = steps.drop_last();
        if steps.last() is Dequeue {
            false
        } else {
            poll_in_hand(before, in_hand, front) || takes_poll(
                mailbox_run(before, front),
                steps.last(),
            )
        }
    }
}

/// Whether device polls are only sent through the poll gate, which is only opened for a device poll
/// in hand.
pub open spec fn polls_are_gated(before: Mailbox, in_hand: bool, steps: Seq<MailboxStep>) -> bool
    decreases steps.len(),
{
    steps.len() > 0 ==> {
        let front = steps.drop_last();
        &&& polls_are_gated(before, in_hand, front)
        &&& match steps.last() {
            MailboxStep::Send { event } => !(inner_event(event) is DevicePoll),
            MailboxStep::Dequeue => poll_in_hand(before, in_hand, front),
            _ => true,
        }
    }
}

/// No more polls are queued and in hand than the poll gate admits.
pub open spec fn coalesced(mailbox: Mailbox, in_hand: bool) -> bool {
    polls(mailbox.queue) + (if in_hand {
        1nat
    } else {
        0nat
    }) <= if mailbox.poll_queued {
        1nat
    } else {
        0nat
    }
}

proof fn lemma_polls_push(events: Seq<DaemonEvent>, event: DaemonEvent)
    ensures
        polls(events.push(event)) == polls(events) + if inner_event(event) is DevicePoll {
            1nat
        } else {
            0nat
        },
{
    assert(events.push(event).drop_last() =~= events);
}

proof fn lemma_polls_skip(events: Seq<DaemonEvent>)
    requires
        events.len() > 0,
    ensures
        polls(events) == polls(events.skip(1)) + if inner_event(events[0]) is DevicePoll {
            1nat
        } else {
            0nat
        },
    decreases events.len(),
{
    if events.len() == 1 {
        assert(events.skip(1) =~= Seq::empty());
        assert(events.drop_last() =~= Seq::empty());
        assert(polls(Seq::empty()) == 0);
    } else {
        lemma_polls_skip(events.drop_last());
        assert(events.drop_last().skip(1) =~= events.skip(1).drop_last());
    }
}

proof fn lemma_step_keeps_polls_coalesced(before: Mailbox, in_hand: bool, step: MailboxStep)
    requires
        coalesced(before, in_hand),
        step matches MailboxStep::Send { event } ==> !(inner_event(event) is DevicePoll),
        step is Dequeue ==> in_hand,
    ensures
        coalesced(
            mailbox_step(before, step),
            !(step is Dequeue) && (in_hand || takes_poll(before, step)),
        ),
{
    match step {
        MailboxStep::Startup => {
            lemma_polls_push(before.queue, DaemonEvent::USBCheck);
            let checked = before.queue.push(DaemonEvent::USBCheck);
            lemma_polls_push(checked, DaemonEvent::DevicePoll);
            assert(before.queue + startup_events(true) =~= checked);
            assert(before.queue + startup_events(false) =~= checked.push(DaemonEvent::DevicePoll));
        },
        MailboxStep::PollTick => {
            lemma_polls_push(before.queue, DaemonEvent::DevicePoll);
        },
        MailboxStep::Send { event } => {
            lemma_polls_push(before.queue, event);
        },
        MailboxStep::Take => {
            if before.queue.len() > 0 {
                lemma_polls_skip(before.queue);
            }
        },
        _ => {},
    }
}

/// However slow the polls are, at most one device poll is ever queued: no run of startups, timer
/// ticks, other sends and receipts builds a backlog, in whatever order the threads of the daemon
/// get to run.
pub proof fn law_polls_never_pile_up(before: Mailbox, in_hand: bool, steps: Seq<MailboxStep>)
    requires
        coalesced(before, in_hand),
        polls_are_gated(before, in_hand, steps),
    ensures
        coalesced(mailbox_run(before, steps), poll_in_hand(before, in_hand, steps)),
        polls(mailbox_run(before, steps).queue) <= 1,
    decreases steps.len(),
{
    if steps.len() > 0 {
        let front = steps.drop_last();
        law_polls_never_pile_up(before, in_hand, front);
        lemma_step_keeps_polls_coalesced(
            mailbox_run(before, front),
            poll_in_hand(before, in_hand, front),
            steps.last(),
        );
    }
}

/// A loop that starts finds a check of the USB bus behind whatever is queued, and behind that a
/// device poll exactly where the poll gate admits one; it is then claimed. A closed queue
/// takes nothing.
pub proof fn law_startup_queues_one_check_and_one_poll(before: Mailbox)
    ensures
        ({
            let after = mailbox_step(before, MailboxStep::Startup);
            let checked = before.queue.push(DaemonEvent::USBCheck);
            &&& before.open && before.poll_queued ==> after.queue =~= checked
            &&& before.open && !before.poll_queued ==> after.queue =~= checked.push(
                DaemonEvent::DevicePoll,
            )
            &&& before.open ==> after.open && after.poll_queued
            &&& !before.open ==> after == before
        }),
{
}

/// How many of the steps take an event out.
pub open spec fn receipts(steps: Seq<MailboxStep>) -> nat
    decreases steps.len(),
{
    if steps.len() == 0 {
        0
    } else {
        receipts(steps.drop_last()) + if steps.last() is Take {
            1nat
        } else {
            0nat
        }
    }
}

/// Events are received in the order in which they were sent: whatever else is sent meanwhile, an
/// event is next in line exactly when everything that was queued ahead of it has been received.
pub proof fn law_events_keep_their_order(before: Mailbox, place: int, steps: Seq<MailboxStep>)
    requires
        0 <= place < before.queue.len(),
        receipts(steps) <= place,
        forall|i: int|
            0 <= i < steps.len() ==> !((#[trigger] steps[i]) is Open) && !(steps[i] is Close),
    ensures
        ({
            let after = mailbox_run(before, steps).queue;
            &&& place - receipts(steps) < after.len()
            &&& after[place - receipts(steps)] == before.queue[place]
        }),
    decreases steps.len(),
{
    if steps.len() > 0 {
        let front = steps.drop_last();
        assert(forall|i: int| 0 <= i < front.len() ==> front[i] == steps[i]);
        law_events_keep_their_order(before, place, front);
        assert(steps[steps.len() - 1] == steps.last());
    }
}

/// An IPC event that is sent while a device poll is being handled comes out ahead of the next
/// device poll, however many timer ticks follow it.
pub proof fn law_ipc_event_precedes_the_next_poll(
    before: Mailbox,
    event: DaemonEvent,
    ticks: Seq<MailboxStep>,
)
    requires
        before.open,
        before.queue.len() > 0,
        inner_event(before.queue[0]) is DevicePoll,
        coalesced(before, false),
        forall|i: int| 0 <= i < ticks.len() ==> (#[trigger] ticks[i]) is PollTick,
    ensures
        ({
            let taken = mailbox_step(before, MailboxStep::Take);
            let opened = mailbox_step(taken, MailboxStep::Dequeue);
            let sent = mailbox_step(opened, MailboxStep::Send { event });
            let after = mailbox_run(sent, ticks);
            &&& polls(opened.queue) == 0
            &&& after.queue == sent.queue + if ticks.len() > 0 {
                seq![DaemonEvent::DevicePoll]
            } else {
                Seq::empty()
            }
            &&& after.queue[opened.queue.len() as int] == event
        }),
    decreases ticks.len(),
{
    lemma_polls_skip(before.queue);
    let taken = mailbox_step(before, MailboxStep::Take);
    let opened = mailbox_step(taken, MailboxStep::Dequeue);
    let sent = mailbox_step(opened, MailboxStep::Send { event });
    if ticks.len() > 0 {
        let front = ticks.drop_last();
        assert(forall|i: int| 0 <= i < front.len() ==> front[i] == ticks[i]);
        law_ipc_event_precedes_the_next_poll(before, event, front);
        assert(ticks[ticks.len() - 1] is PollTick);
        lemma_ticks_claim_the_gate(sent, front);
        assert(sent.queue + Seq::<DaemonEvent>::empty() =~= sent.queue);
        assert(sent.queue.push(DaemonEvent::DevicePoll) =~= sent.queue + seq![
            DaemonEvent::DevicePoll,
        ]);
    } else {
        assert(sent.queue + Seq::<DaemonEvent>::empty() =~= sent.queue);
    }
}

proof fn lemma_ticks_claim_the_gate(before: Mailbox, ticks: Seq<MailboxStep>)
    requires
        forall|i: int| 0 <= i < ticks.len() ==> (#[trigger] ticks[i]) is PollTick,
    ensures
        mailbox_run(before, ticks).poll_queued == (before.poll_queued || ticks.len() > 0),
        mailbox_run(before, ticks).open == before.open,
    decreases ticks.len(),
{
    if ticks.len() > 0 {
        let front = ticks.drop_last();
        assert(forall|i: int| 0 <= i < front.len() ==> front[i] == ticks[i]);
        lemma_ticks_claim_the_gate(before, front);
        assert(ticks[ticks.len() - 1] is PollTick);
    }
}

} // verus!
