//! Daemon lifecycle management.
//!
//! Owns the supervisor state machine: `Stopped -> Starting -> {Running |
//! Failed}` with `Stopped` reachable from anywhere via an explicit stop.
//! The blocking startup sequence itself runs elsewhere; its result is
//! applied here, guarded by a generation counter so that a stale
//! resolution can never override a more recent explicit transition.

use vstd::prelude::*;
use vstd::string::StringExecFns;
use crate::startup::StartupOutcome;

verus! {

/// Daemon manager state.
#[derive(Debug, Clone, PartialEq, Eq)]
pub enum DaemonState {
    /// Not started yet.
    Stopped,
    /// Starting up, waiting for the health check.
    Starting,
    /// Running and healthy.
    Running,
    /// Failed to start or crashed.
    Failed(String),
}

/// Equality of daemon states, comparing failure reasons by content.
pub open spec fn spec_state_eq(a: DaemonState, b: DaemonState) -> bool {
    match (a, b) {
        (DaemonState::Stopped, DaemonState::Stopped) => true,
        (DaemonState::Starting, DaemonState::Starting) => true,
        (DaemonState::Running, DaemonState::Running) => true,
        (DaemonState::Failed(x), DaemonState::Failed(y)) => x@ == y@,
        _ => false,
    }
}

/// Compares two daemon states.
pub fn state_eq(a: &DaemonState, b: &DaemonState) -> (r: bool)
    ensures
        r == spec_state_eq(*a, *b),
{
    match (a, b) {
        (DaemonState::Stopped, DaemonState::Stopped) => true,
        (DaemonState::Starting, DaemonState::Starting) => true,
        (DaemonState::Running, DaemonState::Running) => true,
        (DaemonState::Failed(x), DaemonState::Failed(y)) => String::eq(x, y),
        _ => false,
    }
}

/// Copies a daemon state.
fn clone_state(s: &DaemonState) -> (r: DaemonState)
    ensures
        r == *s,
{
    match s {
        DaemonState::Stopped => DaemonState::Stopped,
        DaemonState::Starting => DaemonState::Starting,
        DaemonState::Running => DaemonState::Running,
        DaemonState::Failed(m) => DaemonState::Failed(m.clone()),
    }
}

/// Events emitted by the daemon manager.
#[derive(Debug, Clone)]
pub enum DaemonManagerEvent {
    /// The daemon state changed.
    StateChanged(DaemonState),
}

/// What a `start` call asks its caller to do.
#[derive(Debug)]
pub enum StartDirective {
    /// Already starting or running: nothing to do, nothing changed.
    AlreadyActive,
    /// No daemon binary was discovered: the start failed at once.
    NoBinary,
    /// Run the startup sequence with these values, and apply its
    /// outcome with `on_startup_result` under this generation.
    Launch { generation: u64, daemon_path: String, socket_path: String, data_dir: String },
}

/// What applying a startup outcome reported back.
#[derive(Debug)]
pub struct StartupApplied {
    /// Whether the outcome was current and was applied; a stale one is
    /// dropped and the caller must discard any process handle it holds.
    pub applied: bool,
    /// The state-change event to deliver, if the state changed.
    pub event: Option<DaemonManagerEvent>,
}

/// Manages the daemon process lifecycle.
pub struct DaemonManager {
    state: DaemonState,
    /// Discovered daemon binary, if any.
    daemon_path: Option<String>,
    /// Health-probe socket path.
    socket_path: String,
    /// Data directory.
    data_dir: String,
    /// Whether a spawned process handle is retained by the caller on
    /// our behalf.
    has_child: bool,
    /// Bumped on every accepted `start`, so that the resolution of an
    /// abandoned startup sequence cannot override a newer transition.
    generation: u64,
}

/// The abstract state of a `DaemonManager`, as contracts speak of it.
pub struct DaemonManagerView {
    pub state: DaemonState,
    pub daemon_path: Option<String>,
    pub socket_path: String,
    pub data_dir: String,
    pub has_child: bool,
    pub generation: u64,
}

impl View for DaemonManager {
    type V = DaemonManagerView;

    closed spec fn view(&self) -> DaemonManagerView {
        DaemonManagerView {
            state: self.state,
            daemon_path: self.daemon_path,
            socket_path: self.socket_path,
            data_dir: self.data_dir,
            has_child: self.has_child,
            generation: self.generation,
        }
    }
}

impl DaemonManager {
    /// A fresh manager over discovered paths, in state `Stopped`.
    pub fn new(daemon_path: Option<String>, socket_path: String, data_dir: String) -> (r:
        DaemonManager)
        ensures
            r@.state is Stopped,
            r@.daemon_path == daemon_path,
            r@.socket_path == socket_path,
            r@.data_dir == data_dir,
            !r@.has_child,
            r@.generation == 0,
    {
        DaemonManager {
            state: DaemonState::Stopped,
            daemon_path,
            socket_path,
            data_dir,
            has_child: false,
            generation: 0,
        }
    }

    /// Current state.
    pub fn state(&self) -> (r: &DaemonState)
        ensures
            *r == self@.state,
    {
        &self.state
    }

    /// The health-probe socket path.
    pub fn socket_path(&self) -> (r: &String)
        ensures
            *r == self@.socket_path,
    {
        &self.socket_path
    }

    /// The RPC socket path, beside the health socket in the data
    /// directory.
    pub fn grpc_socket_path(&self) -> (r: String)
        ensures
            r@ == self@.data_dir@ + "/arcbox.sock"@,
    {
        self.data_dir.clone().concat("/arcbox.sock")
    }

    /// Whether a spawned process handle is retained.
    pub fn has_child(&self) -> (r: bool)
        ensures
            r == self@.has_child,
    {
        self.has_child
    }

    /// The current startup generation.
    pub fn generation(&self) -> (r: u64)
        ensures
            r == self@.generation,
    {
        self.generation
    }

    /// Whether the daemon is running.
    pub fn is_running(&self) -> (r: bool)
        ensures
            r == (self@.state is Running),
    {
        matches!(self.state, DaemonState::Running)
    }

    /// Replaces the state, reporting a `StateChanged` event exactly
    /// when the state actually changed.
    fn set_state(&mut self, new_state: DaemonState) -> (r: Option<DaemonManagerEvent>)
        ensures
            final(self)@.state == new_state,
            final(self)@.daemon_path == old(self)@.daemon_path,
            final(self)@.socket_path == old(self)@.socket_path,
            final(self)@.data_dir == old(self)@.data_dir,
            final(self)@.has_child == old(self)@.has_child,
            final(self)@.generation == old(self)@.generation,
            r == if spec_state_eq(old(self)@.state, new_state) {
                Option::<DaemonManagerEvent>::None
            } else {
                Option::Some(DaemonManagerEvent::StateChanged(new_state))
            },
    {
        let changed = !state_eq(&self.state, &new_state);
        let r = if changed {
            Some(DaemonManagerEvent::StateChanged(clone_state(&new_state)))
        } else {
            None
        };
        self.state = new_state;
        r
    }

    /// Starts the daemon: a guarded no-op while starting or running;
    /// an immediate failure when no binary was discovered; otherwise a
    /// transition to `Starting` and a directive to run the startup
    /// sequence under a fresh generation.
    pub fn start(&mut self) -> (r: (StartDirective, Option<DaemonManagerEvent>))
        requires
            old(self)@.generation < u64::MAX,
        ensures
            old(self)@.state is Starting || old(self)@.state is Running ==> {
                &&& final(self)@ == old(self)@
                &&& r.0 is AlreadyActive
                &&& r.1 is None
            },
            !(old(self)@.state is Starting || old(self)@.state is Running) && old(self)@.daemon_path is None ==> {
                &&& final(self)@.state matches DaemonState::Failed(m) && m@
                    == "Daemon binary not found"@
                &&& final(self)@.generation == old(self)@.generation
                &&& r.0 is NoBinary
            },
            !(old(self)@.state is Starting || old(self)@.state is Running) && old(self)@.daemon_path is Some ==> {
                &&& final(self)@.state is Starting
                &&& final(self)@.generation == old(self)@.generation + 1
                &&& r.0 matches StartDirective::Launch { generation, daemon_path, socket_path, data_dir }
                    && generation == final(self)@.generation && daemon_path == old(self)@.daemon_path->0 && socket_path == old(self)@.socket_path && data_dir == old(self)@.data_dir
            },
            final(self)@.daemon_path == old(self)@.daemon_path,
            final(self)@.socket_path == old(self)@.socket_path,
            final(self)@.data_dir == old(self)@.data_dir,
            final(self)@.has_child == old(self)@.has_child,
            r.1 == if spec_state_eq(old(self)@.state, final(self)@.state) {
                Option::<DaemonManagerEvent>::None
            } else {
                Option::Some(DaemonManagerEvent::StateChanged(final(self)@.state))
            },
    {
        if matches!(self.state, DaemonState::Starting | DaemonState::Running) {
            return (StartDirective::AlreadyActive, None);
        }
        let daemon_path = match &self.daemon_path {
            Some(p) => p.clone(),
            None => {
                let ev = self.set_state(DaemonState::Failed("Daemon binary not found".to_owned()));
                return (StartDirective::NoBinary, ev);
            },
        };
        let ev = self.set_state(DaemonState::Starting);
        self.generation = self.generation + 1;
        let directive = StartDirective::Launch {
            generation: self.generation,
            daemon_path,
            socket_path: self.socket_path.clone(),
            data_dir: self.data_dir.clone(),
        };
        (directive, ev)
    }

    /// Applies the outcome of the startup sequence begun under
    /// `generation`. A stale outcome — the generation has moved on, or
    /// the machine is no longer `Starting` — changes nothing.
    pub fn on_startup_result(&mut self, generation: u64, outcome: StartupOutcome) -> (r:
        StartupApplied)
        ensures
            !(old(self)@.state is Starting && generation == old(self)@.generation) ==> {
                &&& final(self)@ == old(self)@
                &&& !r.applied
                &&& r.event is None
            },
            old(self)@.state is Starting && generation == old(self)@.generation ==> {
                &&& r.applied
                &&& (outcome is AlreadyRunning ==> final(self)@.state is Running && !final(self)@.has_child)
                &&& (outcome is Spawned ==> final(self)@.state is Running && final(self)@.has_child)
                &&& (outcome matches StartupOutcome::Failed(m) ==> final(self)@.state matches DaemonState::Failed(m2) && m2@ == m@ && !final(self)@.has_child)
                &&& r.event matches Some(DaemonManagerEvent::StateChanged(s)) && s == final(self)@.state
            },
            final(self)@.daemon_path == old(self)@.daemon_path,
            final(self)@.socket_path == old(self)@.socket_path,
            final(self)@.data_dir == old(self)@.data_dir,
            final(self)@.generation == old(self)@.generation,
    {
        if !matches!(self.state, DaemonState::Starting) || generation != self.generation {
            return StartupApplied { applied: false, event: None };
        }
        match outcome {
            StartupOutcome::AlreadyRunning => {
                self.has_child = false;
                let event = self.set_state(DaemonState::Running);
                StartupApplied { applied: true, event }
            },
            StartupOutcome::Spawned => {
                self.has_child = true;
                let event = self.set_state(DaemonState::Running);
                StartupApplied { applied: true, event }
            },
            StartupOutcome::Failed(m) => {
                self.has_child = false;
                let event = self.set_state(DaemonState::Failed(m));
                StartupApplied { applied: true, event }
            },
        }
    }

    /// Stops the daemon: the state becomes `Stopped` at once. The
    /// spawned process is not terminated here — it is tied to the
    /// owning application's lifetime.
    pub fn stop(&mut self) -> (r: Option<DaemonManagerEvent>)
        ensures
            final(self)@.state is Stopped,
            final(self)@.daemon_path == old(self)@.daemon_path,
            final(self)@.socket_path == old(self)@.socket_path,
            final(self)@.data_dir == old(self)@.data_dir,
            final(self)@.has_child == old(self)@.has_child,
            final(self)@.generation == old(self)@.generation,
            r == if old(self)@.state is Stopped {
                Option::<DaemonManagerEvent>::None
            } else {
                Option::Some(DaemonManagerEvent::StateChanged(DaemonState::Stopped))
            },
    {
        self.set_state(DaemonState::Stopped)
    }
}

} // verus!
