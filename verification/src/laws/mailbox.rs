//! How the service loop deals with its mailbox: no backlog of device polls builds up, whatever the
//! loop is answered and whatever the other threads of the daemon do meanwhile.

use crate::event::inner_event;
use crate::laws::{
    books, law_every_turn_is_orderly, noted, tally, takes_up_poll, with_flags, Input, Ledger,
};
use crate::mailbox::{
    coalesced, law_polls_never_pile_up, mailbox_run, mailbox_step, poll_in_hand, polls,
    polls_are_gated, takes_poll, Mailbox, MailboxStep,
};
use crate::run::{law_every_answer_is_expected, run_step};
use crate::state::State;
use crate::turn::{Answer, Effect};
use vstd::prelude::*;

verus! {

/// What an effect does to the mailbox.
pub open spec fn steps_of(effects: Seq<Effect>) -> Seq<MailboxStep>
    decreases effects.len(),
{
    if effects.len() == 0 {
        Seq::empty()
    } else {
        let front = steps_of(effects.drop_last());
        match effects.last() {
            Effect::OpenQueue => front.push(MailboxStep::Open),
            Effect::CloseQueue => front.push(MailboxStep::Close),
            Effect::Send { event } => front.push(MailboxStep::Send { event }),
            Effect::DequeuePoll => front.push(MailboxStep::Dequeue),
            _ => front,
        }
    }
}

/// Whether the answer is an event that the loop took out of its queue.
pub open spec fn takes_event(state: State, answer: Answer) -> bool {
    state.phase is Listening && (answer matches Answer::Event { event, .. } && event is Some)
}

/// What a turn of the loop does to the mailbox, the receipt of its event included.
pub open spec fn turn_steps(state: State, answer: Answer) -> Seq<MailboxStep> {
    let receipt = if takes_event(state, answer) {
        seq![MailboxStep::Take]
    } else {
        Seq::empty()
    };
    receipt + steps_of(run_step(state, answer).plan.effects)
}

/// Whether an event that the loop takes is the oldest in the queue.
pub open spec fn takes_the_oldest(state: State, answer: Answer, mailbox: Mailbox) -> bool {
    takes_event(state, answer) ==> {
        &&& mailbox.queue.len() > 0
        &&& answer->Event_event == Some(mailbox.queue[0])
    }
}

proof fn lemma_tally_only_grows(ledger: Ledger, effects: Seq<Effect>)
    ensures
        ledger.fault ==> tally(ledger, effects).fault,
        tally(ledger, effects).dequeued >= ledger.dequeued,
    decreases effects.len(),
{
    if effects.len() > 0 {
        lemma_tally_only_grows(ledger, effects.drop_last());
    }
}

/// Effects that the ledger finds in order keep polls gated, after whatever led up to them.
proof fn lemma_orderly_effects_are_gated(
    before: Mailbox,
    in_hand: bool,
    first: Seq<MailboxStep>,
    ledger: Ledger,
    effects: Seq<Effect>,
)
    requires
        polls_are_gated(before, in_hand, first),
        !tally(ledger, effects).fault,
        tally(ledger, effects).dequeued <= ledger.dequeued + if poll_in_hand(
            before,
            in_hand,
            first,
        ) {
            1nat
        } else {
            0nat
        },
    ensures
        ({
            let all = first + steps_of(effects);
            let opened = tally(ledger, effects).dequeued > ledger.dequeued;
            &&& polls_are_gated(before, in_hand, all)
            &&& poll_in_hand(before, in_hand, all) == (poll_in_hand(before, in_hand, first)
                && !opened)
            &&& mailbox_run(before, all).poll_queued == (mailbox_run(before, first).poll_queued
                && !opened)
        }),
    decreases effects.len(),
{
    if effects.len() == 0 {
        assert(first + steps_of(effects) =~= first);
    } else {
        let front = effects.drop_last();
        let last = effects.last();
        lemma_tally_only_grows(ledger, front);
        assert(tally(ledger, effects) == noted(tally(ledger, front), last));
        lemma_orderly_effects_are_gated(before, in_hand, first, ledger, front);
        let mid = first + steps_of(front);
        let all = first + steps_of(effects);
        if steps_of(effects).len() > steps_of(front).len() {
            let step = steps_of(effects).last();
            assert(all =~= mid.push(step));
            assert(all.drop_last() =~= mid);
        }
    }
}

proof fn lemma_turn_keeps_polls_gated(
    ledger: Ledger,
    effects: Seq<Effect>,
    takes: bool,
    opens: bool,
    before: Mailbox,
    in_hand: bool,
)
    requires
        !tally(ledger, effects).fault,
        tally(ledger, effects).dequeued == ledger.dequeued + if opens {
            1nat
        } else {
            0nat
        },
        opens ==> takes && takes_poll(before, MailboxStep::Take),
    ensures
        ({
            let receipt = if takes {
                seq![MailboxStep::Take]
            } else {
                Seq::empty()
            };
            let steps = receipt + steps_of(effects);
            &&& polls_are_gated(before, in_hand, steps)
            &&& mailbox_run(before, steps).poll_queued == (before.poll_queued && !opens)
            &&& poll_in_hand(before, in_hand, steps) == (!opens && (in_hand || takes
                && takes_poll(before, MailboxStep::Take)))
        }),
{
    let none = Seq::<MailboxStep>::empty();
    let receipt = if takes {
        seq![MailboxStep::Take]
    } else {
        none
    };
    assert(polls_are_gated(before, in_hand, none));
    assert(!poll_in_hand(before, in_hand, none) == !in_hand);
    assert(mailbox_run(before, none) == before);
    if takes {
        assert(receipt.drop_last() =~= none);
        assert(mailbox_run(before, receipt) == mailbox_step(before, MailboxStep::Take));
    }
    lemma_orderly_effects_are_gated(before, in_hand, receipt, ledger, effects);
}

/// The service loop sends no device poll past the poll gate, and opens it only for a device poll
/// that was taken out of the queue. A device poll that it handles opens the poll gate, with or
/// without a permit; nothing else does, and one that is dropped because a shutdown was requested
/// leaves it shut.
pub proof fn law_the_loop_keeps_polls_gated(
    state: State,
    answer: Answer,
    before: Mailbox,
    in_hand: bool,
)
    requires
        state.wf(),
        answer.kind() == state.awaits(),
        takes_the_oldest(state, answer, before),
    ensures
        ({
            let steps = turn_steps(state, answer);
            let polls = takes_up_poll(state, answer);
            &&& polls_are_gated(before, in_hand, steps)
            &&& mailbox_run(before, steps).poll_queued == (before.poll_queued && !polls)
            &&& poll_in_hand(before, in_hand, steps) == (!polls && (in_hand || takes_event(
                state,
                answer,
            ) && takes_poll(before, MailboxStep::Take)))
        }),
{
    law_every_turn_is_orderly(state, answer);
    lemma_turn_keeps_polls_gated(
        books(state.phase),
        run_step(state, answer).plan.effects,
        takes_event(state, answer),
        takes_up_poll(state, answer),
        before,
        in_hand,
    );
}

/// The service loop and its mailbox.
pub struct World {
    pub state: State,
    pub mailbox: Mailbox,
    /// Whether a device poll was taken out for which the poll gate has not been opened.
    pub in_hand: bool,
}

/// Something that happens in the daemon.
pub enum Happening {
    /// The service loop takes a turn.
    Turn { input: Input },
    /// Another thread does something to the mailbox, or the startup events are queued.
    Elsewhere { step: MailboxStep },
}

/// What a happening makes of the world.
pub open spec fn world_step(world: World, happening: Happening) -> World {
    match happening {
        Happening::Turn { input } => {
            let state = with_flags(world.state, input.flags);
            let steps = turn_steps(state, input.answer);
            World {
                state: run_step(state, input.answer).state,
                mailbox: mailbox_run(world.mailbox, steps),
                in_hand: poll_in_hand(world.mailbox, world.in_hand, steps),
            }
        },
        Happening::Elsewhere { step } => World {
            mailbox: mailbox_step(world.mailbox, step),
            ..world
        },
    }
}

/// Whether that can happen: the loop is answered what it asked for, and is handed the oldest event;
/// other threads only send, and send device polls only through the poll gate.
pub open spec fn can_happen(world: World, happening: Happening) -> bool {
    match happening {
        Happening::Turn { input } => {
            let state = with_flags(world.state, input.flags);
            &&& input.answer.kind() == state.awaits()
            &&& takes_the_oldest(state, input.answer, world.mailbox)
        },
        Happening::Elsewhere { step } => match step {
            MailboxStep::Startup | MailboxStep::PollTick => true,
            MailboxStep::Send { event } => !(inner_event(event) is DevicePoll),
            _ => false,
        },
    }
}

/// What a run of happenings makes of the world.
pub open spec fn world_after(world: World, happenings: Seq<Happening>) -> World
    decreases happenings.len(),
{
    if happenings.len() == 0 {
        world
    } else {
        world_step(world_after(world, happenings.drop_last()), happenings.last())
    }
}

/// Whether they can happen one after the other.
pub open spec fn can_all_happen(world: World, happenings: Seq<Happening>) -> bool
    decreases happenings.len(),
{
    happenings.len() > 0 ==> {
        &&& can_all_happen(world, happenings.drop_last())
        &&& can_happen(world_after(world, happenings.drop_last()), happenings.last())
    }
}

/// Whether the world is as it is to be: no backlog of device polls has built up.
pub open spec fn without_backlog(world: World) -> bool {
    world.state.wf() && coalesced(world.mailbox, world.in_hand)
}

proof fn lemma_turn_builds_no_backlog(world: World, input: Input)
    requires
        without_backlog(world),
        can_happen(world, Happening::Turn { input }),
    ensures
        without_backlog(world_step(world, Happening::Turn { input })),
{
    let state = with_flags(world.state, input.flags);
    law_every_answer_is_expected(state, input.answer);
    law_the_loop_keeps_polls_gated(state, input.answer, world.mailbox, world.in_hand);
    law_polls_never_pile_up(world.mailbox, world.in_hand, turn_steps(state, input.answer));
}

proof fn lemma_other_threads_build_no_backlog(world: World, step: MailboxStep)
    requires
        without_backlog(world),
        can_happen(world, Happening::Elsewhere { step }),
    ensures
        without_backlog(world_step(world, Happening::Elsewhere { step })),
{
    let none = Seq::<MailboxStep>::empty();
    let steps = none.push(step);
    assert(steps.drop_last() =~= none);
    assert(mailbox_run(world.mailbox, none) == world.mailbox);
    assert(polls_are_gated(world.mailbox, world.in_hand, none));
    assert(poll_in_hand(world.mailbox, world.in_hand, none) == world.in_hand);
    law_polls_never_pile_up(world.mailbox, world.in_hand, steps);
}

/// Whatever the service loop is answered, and whatever the other threads do between its turns, over
/// any number of runs of the loop, at most one device poll is queued, and none while one is in
/// hand.
pub proof fn law_no_backlog_builds_up(world: World, happenings: Seq<Happening>)
    requires
        without_backlog(world),
        can_all_happen(world, happenings),
    ensures
        ({
            let after = world_after(world, happenings);
            &&& without_backlog(after)
            &&& polls(after.mailbox.queue) <= 1
            &&& after.in_hand ==> polls(after.mailbox.queue) == 0
        }),
    decreases happenings.len(),
{
    if happenings.len() > 0 {
        let front = happenings.drop_last();
        law_no_backlog_builds_up(world, front);
        let mid = world_after(world, front);
        match happenings.last() {
            Happening::Turn { input } => lemma_turn_builds_no_backlog(mid, input),
            Happening::Elsewhere { step } => lemma_other_threads_build_no_backlog(mid, step),
        }
    }
}

} // verus!
