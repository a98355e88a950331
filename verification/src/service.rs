//! The service manager: what the daemon says of itself, and its service loop.

use crate::poll::poll_step;
use crate::run::run_step;
use crate::state::{initial_state, poll_awaits, ServiceState};
use crate::turn::{Answer, Turn};
use std::path::PathBuf;
use vstd::prelude::*;

verus! {

/// A path of the file system, `std::path::PathBuf`. The core carries it and never looks inside.
#[verifier::external_type_specification]
#[verifier::external_body]
pub struct ExPathBuf(std::path::PathBuf);

/// What the daemon tells its clients about itself. `Mode` says how it was started, and `Identity`
/// identifies a file.
#[derive(Debug)]
pub struct DaemonInfo<Mode, Identity> {
    pub mode: Mode,
    /// The invocation id that the service supervisor gave the daemon.
    pub service_invocation: Option<String>,
    /// The lock file by which this daemon owns the devices.
    pub ownership_lock: Option<Identity>,
    pub capabilities: Vec<String>,
}

/// The daemon's service manager.
#[derive(Debug)]
pub struct ServiceManager<Mode, Identity> {
    pub config_path: PathBuf,
    pub socket_path: PathBuf,
    pub info: DaemonInfo<Mode, Identity>,
    pub state: ServiceState,
}

impl<Mode, Identity> ServiceManager<Mode, Identity> {
    /// A manager whose loop has not run yet. `info` is what a fresh daemon says of itself, but for
    /// the mode; `recovery` is how the clean-up after a previous run went, without which there is
    /// no manager.
    pub fn new<Error>(
        config_path: PathBuf,
        socket_path: PathBuf,
        mode: Mode,
        info: DaemonInfo<Mode, Identity>,
        recovery: Result<(), Error>,
    ) -> (manager: Result<Self, Error>)
        ensures
            recovery matches Err(error) ==> manager == Err::<Self, Error>(error),
            recovery is Ok ==> {
                &&& manager is Ok
                &&& manager->Ok_0.config_path == config_path
                &&& manager->Ok_0.socket_path == socket_path
                &&& manager->Ok_0.info == (DaemonInfo { mode, ..info })
                &&& manager->Ok_0.state@ == initial_state()
                &&& manager->Ok_0.state@.wf()
            },
    {
        let mut info = info;
        info.mode = mode;
        match recovery {
            Ok(()) => Ok(
                ServiceManager { config_path, socket_path, info, state: ServiceState::new() },
            ),
            Err(error) => Err(error),
        }
    }

    pub fn set_service_invocation(&mut self, invocation: Option<String>)
        ensures
            *final(self) == (ServiceManager {
                info: DaemonInfo { service_invocation: invocation, ..old(self).info },
                ..*old(self)
            }),
    {
        self.info.service_invocation = invocation;
    }

    /// Names the lock file by which the daemon owns the devices, and announces that it has one.
    pub fn set_ownership_lock(&mut self, identity: Identity)
        ensures
            final(self).info.ownership_lock == Some(identity),
            final(self).info.capabilities@.len() == old(self).info.capabilities@.len() + 1,
            final(self).info.capabilities@.drop_last() == old(self).info.capabilities@,
            final(self).info.capabilities@.last()@ == "ownership_lock"@,
            *final(self) == (ServiceManager {
                info: DaemonInfo {
                    ownership_lock: final(self).info.ownership_lock,
                    capabilities: final(self).info.capabilities,
                    ..old(self).info
                },
                ..*old(self)
            }),
    {
        self.info.ownership_lock = Some(identity);
        self.info.capabilities.push("ownership_lock".to_string());
    }

    /// Looks after the devices. A device poll is a conversation that starts with `Answer::Begin`
    /// and is over with `Query::PollFinished`.
    pub fn device_poll(&mut self, answer: Answer) -> (turn: Turn)
        requires
            old(self).state@.poll_wf(),
            answer.kind() == poll_awaits(old(self).state@.poll),
        ensures
            final(self).state@ == poll_step(old(self).state@, answer).state,
            turn@ == poll_step(old(self).state@, answer).plan,
            final(self).state@.poll_wf(),
            turn.query.answer_kind() == poll_awaits(final(self).state@.poll),
            *final(self) == (ServiceManager { state: final(self).state, ..*old(self) }),
    {
        self.state.poll_turn(answer)
    }

    /// Runs the daemon's service loop. That is a conversation which starts with `Answer::Begin`;
    /// it is over with `Query::Finished`, which says whether the daemon should start again, or
    /// with `Query::Failed` where the loop could not start.
    pub fn run(&mut self, answer: Answer) -> (turn: Turn)
        requires
            old(self).state@.wf(),
            answer.kind() == old(self).state@.awaits(),
        ensures
            final(self).state@ == run_step(old(self).state@, answer).state,
            turn@ == run_step(old(self).state@, answer).plan,
            final(self).state@.wf(),
            turn.query.answer_kind() == final(self).state@.awaits(),
            *final(self) == (ServiceManager { state: final(self).state, ..*old(self) }),
    {
        self.state.run_turn(answer)
    }
}

} // verus!
