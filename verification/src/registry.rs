//! The process-wide holder of the single current session.
//!
//! A caller is expected to wrap the registry in one mutual-exclusion lock and
//! to run each whole `start` or `stop` operation while holding it; the
//! contracts here then describe exactly what each serialized operation does.

use vstd::prelude::*;

use crate::config::{default_config_model, ConfigModel, MiningConfig};
use crate::controller::{step, step_succeeds, ControllerError, Op, Status};

verus! {

/// The mutable lifecycle record of the current session: its status, the
/// configuration it was started with, and the model of the shared flag
/// through which the running task is asked to stop.
pub struct SessionState {
    status: Status,
    config: MiningConfig,
    active_flag: bool,
}

/// Holder of the single current [`SessionState`].
pub struct SessionRegistry {
    state: SessionState,
}

impl SessionRegistry {
    /// Current lifecycle status.
    pub closed spec fn status(&self) -> Status {
        self.state.status
    }

    /// Abstract value of the configuration the session was started with
    /// (the default configuration while no `start` has succeeded yet).
    pub closed spec fn config_model(&self) -> ConfigModel {
        self.state.config@
    }

    /// Model of the shared cancellation flag: true while the current
    /// session's task is asked to keep running.
    pub closed spec fn active_flag(&self) -> bool {
        self.state.active_flag
    }

    /// The registry's invariant: the cancellation flag is set exactly while
    /// the status is `Running`.
    pub open spec fn wf(&self) -> bool {
        self.status() is Running <==> self.active_flag()
    }

    /// A fresh registry: `Idle`, default configuration, flag cleared.
    pub fn new() -> (r: SessionRegistry)
        ensures
            r.wf(),
            r.status() is Idle,
            !r.active_flag(),
            r.config_model() == default_config_model(),
    {
        SessionRegistry {
            state: SessionState {
                status: Status::Idle,
                config: MiningConfig::default(),
                active_flag: false,
            },
        }
    }

    /// Start a session with the given configuration.
    ///
    /// From `Idle` this always succeeds: the status becomes `Running`, the
    /// given configuration replaces the stored one, and a fresh cancellation
    /// flag is set. From `Running` it always fails with `AlreadyMining` and
    /// changes nothing — a second session is never installed over an active
    /// one. Success means only that the spawn was accepted; the caller is
    /// expected to hand the configuration and the flag to the detached task.
    pub fn start(&mut self, config: MiningConfig) -> (r: Result<(), ControllerError>)
        requires
            old(self).wf(),
        ensures
            final(self).wf(),
            final(self).status() == step(old(self).status(), Op::Start),
            r is Ok <==> step_succeeds(old(self).status(), Op::Start),
            r is Ok <==> old(self).status() is Idle,
            r is Ok ==> final(self).status() is Running
                && final(self).config_model() == config@
                && final(self).active_flag(),
            r is Err ==> (r matches Err(e) && e is AlreadyMining)
                && *final(self) == *old(self),
    {
        match self.state.status {
            Status::Running => Err(ControllerError::AlreadyMining),
            Status::Idle => {
                self.state = SessionState {
                    status: Status::Running,
                    config,
                    active_flag: true,
                };
                Ok(())
            }
        }
    }

    /// Stop the current session.
    ///
    /// From `Running` this always succeeds: the cancellation flag is cleared
    /// — a request to the task, not a guarantee of its termination — and the
    /// status becomes `Idle`; the stored configuration stays as it was. From
    /// `Idle` it always fails with `NotMining` and changes nothing.
    pub fn stop(&mut self) -> (r: Result<(), ControllerError>)
        requires
            old(self).wf(),
        ensures
            final(self).wf(),
            final(self).status() == step(old(self).status(), Op::Stop),
            r is Ok <==> step_succeeds(old(self).status(), Op::Stop),
            r is Ok <==> old(self).status() is Running,
            r is Ok ==> final(self).status() is Idle
                && !final(self).active_flag()
                && final(self).config_model() == old(self).config_model(),
            r is Err ==> (r matches Err(e) && e is NotMining)
                && *final(self) == *old(self),
    {
        match self.state.status {
            Status::Idle => Err(ControllerError::NotMining),
            Status::Running => {
                self.state.active_flag = false;
                self.state.status = Status::Idle;
                Ok(())
            }
        }
    }

    /// Current status, for a caller that only observes.
    pub fn current_status(&self) -> (s: Status)
        ensures
            s == self.status(),
    {
        self.state.status
    }
}

} // verus!
