//! How the service loop starts, and what it does around its device polls.

use crate::event::Handle;
use crate::laws::events::let_go;
use crate::poll::poll_step;
use crate::run::{lemma_poll_step_keeps_wf, run_step};
use crate::state::{initial_state, poll_awaits, Phase, PollStage, State};
use crate::turn::{Answer, Effect, Query};
use vstd::prelude::*;

verus! {

/// A loop that has not run yet knows of no device, waits for nothing, holds nothing, and has not
/// been asked for anything.
pub proof fn law_fresh_loop_remembers_nothing()
    ensures
        ({
            let state = initial_state();
            &&& !state.tx
            &&& state.wireless_count.stable_count == 0
            &&& state.wireless_count.pending_count is None
            &&& state.wireless_count.pending_streak == 0
            &&& state.wireless_rebind_last == Map::<[u8; 6], u64>::empty()
            &&& state.wireless_channel_streak is None
            &&& !state.restart_requested
            &&& !state.startup_image_job
            &&& !state.startup_config_pending
            &&& !state.cleaner_reload_pending
            &&& state.permit is None
            &&& state.poll is Idle
            &&& state.phase is Stopped
        }),
{
}

/// The loop starts with its monitor. Without one it fails with that error, having done nothing, and
/// may be started again.
pub proof fn law_loop_starts_with_its_monitor(state: State, outcome: Result<(), String>)
    requires
        state.wf(),
        state.phase is Stopped,
    ensures
        ({
            let first = run_step(state, Answer::Begin);
            let second = run_step(first.state, Answer::Outcome(outcome));
            &&& first.state == (State { phase: first.state.phase, ..state })
            &&& first.plan.effects.len() == 0
            &&& first.plan.query is CreateMonitor
            &&& match outcome {
                Ok(()) => {
                    &&& second.state == (State { phase: Phase::Config, ..state })
                    &&& second.plan.effects =~= seq![Effect::Enter { label: "startup" }]
                    &&& second.plan.query is ConfigExists
                },
                Err(error) => {
                    &&& second.state == state
                    &&& second.plan.effects.len() == 0
                    &&& second.plan.query == (Query::Failed { error })
                },
            }
        }),
{
}

/// A default configuration is written exactly where there is none; then the queue is opened, so
/// that events can be sent, and the first events are queued. Where that fails the queue is closed
/// again and the loop fails with that error; otherwise the runtime is initialized.
pub proof fn law_queue_is_opened_before_the_runtime(
    state: State,
    exists_already: bool,
    outcome: Result<(), String>,
)
    requires
        state.wf(),
        state.phase is Config,
    ensures
        ({
            let first = run_step(state, Answer::Flag(exists_already));
            let second = run_step(first.state, Answer::Outcome(outcome));
            &&& first.state == (State { tx: true, phase: first.state.phase, ..state })
            &&& first.plan.effects =~= if exists_already {
                seq![Effect::OpenQueue]
            } else {
                seq![Effect::CreateDefaultConfig, Effect::OpenQueue]
            }
            &&& first.plan.query is QueueStartupEvents
            &&& match outcome {
                Ok(()) => {
                    &&& second.state == (State { tx: true, phase: Phase::Initialized, ..state })
                    &&& second.plan.effects =~= seq![Effect::InitializeRuntime, Effect::Leave]
                    &&& second.plan.query is ShutdownRequested
                },
                Err(error) => {
                    &&& second.state == (State { tx: true, phase: Phase::Stopped, ..state })
                    &&& second.plan.effects =~= seq![Effect::CloseQueue, Effect::Leave]
                    &&& second.plan.query == (Query::Failed { error })
                },
            }
        }),
{
}

/// A shutdown that was requested during startup ends the loop before it receives anything, and the
/// daemon does not start again; otherwise the timers, the streaming worker and the sensors are
/// started, and the loop waits for its first event.
pub proof fn law_threads_start_unless_a_shutdown_is_requested(state: State, requested: bool)
    requires
        state.wf(),
        state.phase is Initialized,
    ensures
        ({
            let next = run_step(state, Answer::Flag(requested));
            &&& requested ==> {
                &&& next.state == (State { phase: Phase::Stopped, ..state })
                &&& next.plan.effects =~= seq![
                    Effect::Enter { label: "shutdown" },
                    Effect::Shutdown,
                    Effect::Leave,
                    Effect::CloseQueue,
                ]
                &&& next.plan.query == (Query::Finished { restart: false })
            }
            &&& !requested ==> {
                &&& next.state == (State { phase: Phase::Listening, ..state })
                &&& next.plan.effects =~= seq![
                    Effect::SpawnUsbTimer,
                    Effect::SpawnPollTimer,
                    Effect::SpawnStreaming,
                    Effect::InitSensors,
                ]
                &&& next.plan.query is NextEvent
            }
        }),
{
}

/// A device poll that the loop runs is the very device poll that can be had on its own, up to its
/// last turn.
pub proof fn law_the_loop_runs_the_device_poll(state: State, answer: Answer)
    requires
        state.wf(),
        state.phase is Polling,
        answer.kind() == poll_awaits(state.poll),
        !(state.poll is Finishing),
    ensures
        run_step(state, answer).state == poll_step(state, answer).state,
        run_step(state, answer).plan.effects =~= poll_step(state, answer).plan.effects,
        run_step(state, answer).plan.query == poll_step(state, answer).plan.query,
{
    lemma_poll_step_keeps_wf(state, answer);
}

/// After a device poll the event that led to it has been handled. A restart that was asked for ends
/// the loop then exactly where the event was a device poll itself; otherwise the loop waits for the
/// next event.
pub proof fn law_restart_is_taken_up_after_a_device_poll(
    state: State,
    may_exit: bool,
    permit: Option<Handle>,
)
    requires
        state.wf(),
        state.phase == (Phase::Polling { may_exit }),
        state.poll is Finishing,
        state.permit == permit,
    ensures
        ({
            let next = run_step(state, Answer::Done);
            let done = State { permit: None, poll: PollStage::Idle, ..state };
            &&& may_exit && state.restart_requested ==> {
                &&& next.state == (State { phase: Phase::Stopping, ..done })
                &&& next.plan.effects =~= seq![Effect::Leave] + let_go(permit) + seq![
                    Effect::CloseQueue,
                    Effect::Enter { label: "shutdown" },
                    Effect::StopStreaming,
                    Effect::Shutdown,
                ]
                &&& next.plan.query is ShutdownRequested
            }
            &&& !(may_exit && state.restart_requested) ==> {
                &&& next.state == (State { phase: Phase::Listening, ..done })
                &&& next.plan.effects =~= seq![Effect::Leave] + let_go(permit)
                &&& next.plan.query is NextEvent
            }
        }),
{
}

} // verus!
