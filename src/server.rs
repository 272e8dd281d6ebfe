use crate::bind_mount::BindMount;
use crate::error::ServerError;
use crate::state::{next_state, PowerState, Trigger};
use vstd::prelude::*;

verus! {

/// What the container runtime reports of a server's container when it is inspected.
#[derive(Debug, Clone, Copy, PartialEq, Eq, Structural)]
pub enum ContainerStatus {
    Running,
    /// Created but never started, stopped, or exited.
    NotRunning,
}

/// What a stop does next while it waits on the runtime's graceful stop.
#[derive(Debug, Clone, Copy, PartialEq, Eq, Structural)]
pub enum StopAction {
    /// The graceful stop is done: report the outcome.
    Finish,
    /// Keep waiting for the graceful stop.
    Wait,
    /// The timeout has passed: force termination.
    Kill,
}

/// One runtime or filesystem step of removing a server, in the order they run.
#[derive(Debug, Clone, Copy, PartialEq, Eq, Structural)]
pub enum RemovalStep {
    KillContainer,
    RemoveContainer,
    DestroyMount,
}

/// The states in which a server holds a container.
pub open spec fn holds_container(s: PowerState) -> bool {
    s == PowerState::Offline || s == PowerState::Starting || s == PowerState::Running || s
        == PowerState::Stopping || s == PowerState::Crashed
}

/// The state after the pull-based reconciliation with what the runtime
/// observed: a running server whose container is not running has crashed.
pub open spec fn reconciled(s: PowerState, observed: ContainerStatus) -> PowerState {
    if s == PowerState::Running && observed == ContainerStatus::NotRunning {
        PowerState::Crashed
    } else {
        s
    }
}

/// The steps that remove a server that holds the given container and mount.
pub open spec fn removal_plan(has_container: bool, has_mount: bool) -> Seq<RemovalStep> {
    if has_container {
        seq![RemovalStep::KillContainer, RemovalStep::RemoveContainer, RemovalStep::DestroyMount]
    } else if has_mount {
        seq![RemovalStep::DestroyMount]
    } else {
        seq![]
    }
}

/// Whether a failed install attempt is tried again: only a runtime failure,
/// and only while `attempts` (those made so far) does not exceed `max_retries`.
pub fn retry_install(err: &ServerError, attempts: u32, max_retries: u32) -> (r: bool)
    ensures
        r == (*err is Docker && attempts <= max_retries),
{
    match err {
        ServerError::Docker(_) => attempts <= max_retries,
        _ => false,
    }
}

/// The next move of a stop that has waited `elapsed_ms` of its `timeout_ms`.
pub fn stop_action(elapsed_ms: u64, timeout_ms: u64, graceful_done: bool) -> (r: StopAction)
    ensures
        graceful_done ==> r == StopAction::Finish,
        !graceful_done && elapsed_ms >= timeout_ms ==> r == StopAction::Kill,
        !graceful_done && elapsed_ms < timeout_ms ==> r == StopAction::Wait,
{
    if graceful_done {
        StopAction::Finish
    } else if elapsed_ms >= timeout_ms {
        StopAction::Kill
    } else {
        StopAction::Wait
    }
}

/// One managed game server: its identifier, power state, container and data
/// directory.
pub struct Server {
    id: u128,
    state: PowerState,
    container: Option<String>,
    mount: Option<BindMount>,
}

impl Server {
    pub closed spec fn spec_id(&self) -> u128 {
        self.id
    }

    pub closed spec fn spec_state(&self) -> PowerState {
        self.state
    }

    /// The runtime's identifier of the container, if the server holds one.
    pub closed spec fn spec_container(&self) -> Option<Seq<char>> {
        match self.container {
            Some(h) => Some(h@),
            None => None,
        }
    }

    /// The path of the data directory, if the server has one.
    pub closed spec fn spec_mount(&self) -> Option<Seq<char>> {
        match self.mount {
            Some(m) => Some(m.spec_path()),
            None => None,
        }
    }

    /// A container exactly in the states that hold one, never a container
    /// without its directory, and nothing left once removed.
    pub open spec fn wf(&self) -> bool {
        &&& (self.spec_container() is Some <==> holds_container(self.spec_state()))
        &&& (self.spec_container() is Some ==> self.spec_mount() is Some)
        &&& (self.spec_state() == PowerState::Removed ==> self.spec_mount() is None)
    }

    pub fn new(id: u128) -> (r: Server)
        ensures
            r.wf(),
            r.spec_id() == id,
            r.spec_state() == PowerState::Uninstalled,
            r.spec_container() is None,
            r.spec_mount() is None,
    {
        Server { id, state: PowerState::Uninstalled, container: None, mount: None }
    }

    pub fn id(&self) -> (r: u128)
        ensures
            r == self.spec_id(),
    {
        self.id
    }

    pub fn state(&self) -> (r: PowerState)
        ensures
            r == self.spec_state(),
    {
        self.state
    }

    pub fn container(&self) -> (r: Option<&str>)
        ensures
            match r {
                Some(h) => self.spec_container() == Some(h@),
                None => self.spec_container() is None,
            },
    {
        match &self.container {
            Some(h) => Some(h.as_str()),
            None => None,
        }
    }

    pub fn mount(&self) -> (r: Option<&BindMount>)
        ensures
            match r {
                Some(m) => self.spec_mount() == Some(m.spec_path()),
                None => self.spec_mount() is None,
            },
    {
        match &self.mount {
            Some(m) => Some(m),
            None => None,
        }
    }

    /// Takes in what the runtime observed of the container.
    pub fn reconcile(&mut self, observed: ContainerStatus)
        requires
            old(self).wf(),
        ensures
            final(self).wf(),
            final(self).spec_state() != old(self).spec_state() ==> next_state(
                old(self).spec_state(),
                Trigger::ContainerExited,
            ) == Some(final(self).spec_state()),
            final(self).spec_state() == reconciled(old(self).spec_state(), observed),
            final(self).spec_id() == old(self).spec_id(),
            final(self).spec_container() == old(self).spec_container(),
            final(self).spec_mount() == old(self).spec_mount(),
    {
        if self.state == PowerState::Running && observed == ContainerStatus::NotRunning {
            self.state = PowerState::Crashed;
        }
    }

    /// Enters `Installing` from `Uninstalled`; any other state is a conflict.
    pub fn begin_install(&mut self) -> (r: Result<(), ServerError>)
        requires
            old(self).wf(),
        ensures
            final(self).wf(),
            r is Ok ==> next_state(old(self).spec_state(), Trigger::Install) == Some(
                final(self).spec_state(),
            ),
            final(self).spec_id() == old(self).spec_id(),
            final(self).spec_container() == old(self).spec_container(),
            final(self).spec_mount() == old(self).spec_mount(),
            old(self).spec_state() == PowerState::Uninstalled ==> r is Ok
                && final(self).spec_state() == PowerState::Installing,
            old(self).spec_state() != PowerState::Uninstalled ==> r == Err::<(), ServerError>(
                ServerError::Conflict,
            ) && final(self).spec_state() == old(self).spec_state(),
    {
        if self.state == PowerState::Uninstalled {
            self.state = PowerState::Installing;
            Ok(())
        } else {
            Err(ServerError::Conflict)
        }
    }

    /// Ends an install with the outcome of creating the container, the data
    /// directory `mount` being provisioned. On success the server is `Offline`
    /// with that container; on failure it is `Uninstalled` again, holds no
    /// container, and keeps the directory as it is.
    pub fn finish_install(&mut self, mount: BindMount, created: Result<String, ServerError>) -> (r:
        Result<(), ServerError>)
        requires
            old(self).wf(),
            old(self).spec_state() == PowerState::Installing,
        ensures
            final(self).wf(),
            next_state(
                old(self).spec_state(),
                if r is Ok {
                    Trigger::InstallSucceeded
                } else {
                    Trigger::InstallFailed
                },
            ) == Some(final(self).spec_state()),
            final(self).spec_id() == old(self).spec_id(),
            final(self).spec_mount() == Some(mount.spec_path()),
            match created {
                Ok(h) => r is Ok && final(self).spec_state() == PowerState::Offline
                    && final(self).spec_container() == Some(h@),
                Err(e) => r == Err::<(), ServerError>(e) && final(self).spec_state()
                    == PowerState::Uninstalled && final(self).spec_container() is None,
            },
    {
        self.mount = Some(mount);
        match created {
            Ok(h) => {
                self.container = Some(h);
                self.state = PowerState::Offline;
                Ok(())
            },
            Err(e) => {
                self.state = PowerState::Uninstalled;
                Err(e)
            },
        }
    }

    /// Ends an install that failed before a container could be created
    /// (directory or configuration): back to `Uninstalled`, the error passed on.
    pub fn abandon_install(&mut self, err: ServerError) -> (r: ServerError)
        requires
            old(self).wf(),
            old(self).spec_state() == PowerState::Installing,
        ensures
            final(self).wf(),
            next_state(old(self).spec_state(), Trigger::InstallFailed) == Some(
                final(self).spec_state(),
            ),
            r == err,
            final(self).spec_id() == old(self).spec_id(),
            final(self).spec_state() == PowerState::Uninstalled,
            final(self).spec_container() is None,
            final(self).spec_mount() == old(self).spec_mount(),
    {
        self.state = PowerState::Uninstalled;
        err
    }

    /// Reconciles with `observed`, then enters `Starting` from `Offline`
    /// (start) or `Crashed` (restart); any other state is a conflict.
    pub fn begin_start(&mut self, observed: ContainerStatus) -> (r: Result<(), ServerError>)
        requires
            old(self).wf(),
        ensures
            final(self).wf(),
            r is Ok ==> {
                let s = reconciled(old(self).spec_state(), observed);
                next_state(s, Trigger::Start) == Some(final(self).spec_state()) || next_state(
                    s,
                    Trigger::Restart,
                ) == Some(final(self).spec_state())
            },
            final(self).spec_id() == old(self).spec_id(),
            final(self).spec_container() == old(self).spec_container(),
            final(self).spec_mount() == old(self).spec_mount(),
            ({
                let s = reconciled(old(self).spec_state(), observed);
                if s == PowerState::Offline || s == PowerState::Crashed {
                    r is Ok && final(self).spec_state() == PowerState::Starting
                } else {
                    r == Err::<(), ServerError>(ServerError::Conflict) && final(self).spec_state()
                        == s
                }
            }),
    {
        self.reconcile(observed);
        if self.state == PowerState::Offline || self.state == PowerState::Crashed {
            self.state = PowerState::Starting;
            Ok(())
        } else {
            Err(ServerError::Conflict)
        }
    }

    /// Ends a start with the runtime's outcome: `Running`, or `Crashed` with
    /// the error passed on.
    pub fn finish_start(&mut self, outcome: Result<(), ServerError>) -> (r: Result<(), ServerError>)
        requires
            old(self).wf(),
            old(self).spec_state() == PowerState::Starting,
        ensures
            final(self).wf(),
            next_state(
                old(self).spec_state(),
                if r is Ok {
                    Trigger::StartSucceeded
                } else {
                    Trigger::StartFailed
                },
            ) == Some(final(self).spec_state()),
            final(self).spec_id() == old(self).spec_id(),
            final(self).spec_container() == old(self).spec_container(),
            final(self).spec_mount() == old(self).spec_mount(),
            r == outcome,
            outcome is Ok ==> final(self).spec_state() == PowerState::Running,
            outcome is Err ==> final(self).spec_state() == PowerState::Crashed,
    {
        if outcome.is_ok() {
            self.state = PowerState::Running;
        } else {
            self.state = PowerState::Crashed;
        }
        outcome
    }

    /// Reconciles with `observed`, then enters `Stopping` from `Running`; any
    /// other state is a conflict.
    pub fn begin_stop(&mut self, observed: ContainerStatus) -> (r: Result<(), ServerError>)
        requires
            old(self).wf(),
        ensures
            final(self).wf(),
            r is Ok ==> next_state(reconciled(old(self).spec_state(), observed), Trigger::Stop)
                == Some(final(self).spec_state()),
            final(self).spec_id() == old(self).spec_id(),
            final(self).spec_container() == old(self).spec_container(),
            final(self).spec_mount() == old(self).spec_mount(),
            ({
                let s = reconciled(old(self).spec_state(), observed);
                if s == PowerState::Running {
                    r is Ok && final(self).spec_state() == PowerState::Stopping
                } else {
                    r == Err::<(), ServerError>(ServerError::Conflict) && final(self).spec_state()
                        == s
                }
            }),
    {
        self.reconcile(observed);
        if self.state == PowerState::Running {
            self.state = PowerState::Stopping;
            Ok(())
        } else {
            Err(ServerError::Conflict)
        }
    }

    /// Ends a stop with the outcome of the graceful stop, or of the kill it
    /// escalated to: `Offline`, or `Running` again with the error passed on.
    pub fn finish_stop(&mut self, outcome: Result<(), ServerError>) -> (r: Result<(), ServerError>)
        requires
            old(self).wf(),
            old(self).spec_state() == PowerState::Stopping,
        ensures
            final(self).wf(),
            next_state(
                old(self).spec_state(),
                if r is Ok {
                    Trigger::StopSucceeded
                } else {
                    Trigger::StopFailed
                },
            ) == Some(final(self).spec_state()),
            final(self).spec_id() == old(self).spec_id(),
            final(self).spec_container() == old(self).spec_container(),
            final(self).spec_mount() == old(self).spec_mount(),
            r == outcome,
            outcome is Ok ==> final(self).spec_state() == PowerState::Offline,
            outcome is Err ==> final(self).spec_state() == PowerState::Running,
    {
        if outcome.is_ok() {
            self.state = PowerState::Offline;
        } else {
            self.state = PowerState::Running;
        }
        outcome
    }

    /// The steps that remove this server, each to run only once the one
    /// before succeeded; a removed server is a conflict.
    pub fn removal_steps(&self) -> (r: Result<Vec<RemovalStep>, ServerError>)
        requires
            self.wf(),
        ensures
            self.spec_state() == PowerState::Removed ==> r == Err::<Vec<RemovalStep>, ServerError>(
                ServerError::Conflict,
            ),
            self.spec_state() != PowerState::Removed ==> r is Ok && r->Ok_0@ == removal_plan(
                self.spec_container() is Some,
                self.spec_mount() is Some,
            ),
    {
        if self.state == PowerState::Removed {
            return Err(ServerError::Conflict);
        }
        let mut steps: Vec<RemovalStep> = Vec::new();
        if self.container.is_some() {
            steps.push(RemovalStep::KillContainer);
            steps.push(RemovalStep::RemoveContainer);
            steps.push(RemovalStep::DestroyMount);
        } else if self.mount.is_some() {
            steps.push(RemovalStep::DestroyMount);
        }
        assert(steps@ =~= removal_plan(self.spec_container() is Some, self.spec_mount() is Some));
        Ok(steps)
    }

    /// Ends a removal with the outcome of its steps (the first failure, if
    /// any). On success the server is `Removed` and holds neither container
    /// nor directory; on failure nothing changes and the error is passed on.
    pub fn finish_remove(&mut self, outcome: Result<(), ServerError>) -> (r: Result<(), ServerError>)
        requires
            old(self).wf(),
            old(self).spec_state() != PowerState::Removed,
        ensures
            final(self).wf(),
            r is Ok ==> next_state(old(self).spec_state(), Trigger::Remove) == Some(
                final(self).spec_state(),
            ),
            r == outcome,
            outcome is Ok ==> final(self).spec_state() == PowerState::Removed
                && final(self).spec_id() == old(self).spec_id()
                && final(self).spec_container() is None && final(self).spec_mount() is None,
            outcome is Err ==> *final(self) == *old(self),
    {
        if outcome.is_ok() {
            self.state = PowerState::Removed;
            self.container = None;
            self.mount = None;
        }
        outcome
    }
}

} // verus!
