//! Daemon client service: the connection state machine and the typed
//! operations it dispatches.
//!
//! The transport itself (dialing the RPC socket, the calls on the
//! multiplexed channel) runs outside this crate. Every operation is
//! split into a verified dispatch half — guard the connection state and
//! build the exact request — and a verified completion half — turn the
//! call's result into exactly one event and, after a successful
//! mutation, the one follow-up list refresh.

use vstd::prelude::*;
use vstd::string::StringExecFns;
use crate::logs::DEFAULT_LOG_TAIL;
use crate::logs::LogEntry;
use crate::models::ContainerViewModel;
use crate::models::ImageViewModel;
use crate::models::MachineViewModel;
use crate::models::NetworkViewModel;
use crate::paths::default_socket_path;
use crate::paths::spec_data_dir;
use crate::text::spec_split_whitespace;
use crate::text::split_whitespace;

verus! {

/// Connection state.
#[derive(Debug, Clone, PartialEq, Eq)]
pub enum ConnectionState {
    Disconnected,
    Connecting,
    Connected,
    Error(String),
}

/// Parameters of a machine listing.
#[derive(Debug, Clone)]
pub struct ListMachinesParams {
    pub all: bool,
}

/// Parameters of a container listing.
#[derive(Debug, Clone)]
pub struct ListContainersParams {
    pub all: bool,
    pub limit: i64,
}

/// Parameters of a container start.
#[derive(Debug, Clone)]
pub struct StartContainerParams {
    pub id: String,
}

/// Parameters of a container stop.
#[derive(Debug, Clone)]
pub struct StopContainerParams {
    pub id: String,
    /// Grace period in seconds before the daemon force-kills.
    pub timeout: u32,
}

/// Parameters of a container removal.
#[derive(Debug, Clone)]
pub struct RemoveContainerParams {
    pub id: String,
    pub force: bool,
    pub remove_volumes: bool,
}

/// Parameters of a container creation.
#[derive(Debug, Clone)]
pub struct CreateContainerParams {
    pub image: String,
    pub name: String,
    pub cmd: Vec<String>,
    pub entrypoint: Vec<String>,
    pub working_dir: String,
}

/// Parameters of a network creation.
#[derive(Debug, Clone)]
pub struct CreateNetworkParams {
    pub name: String,
    pub driver: String,
    pub internal: bool,
}

/// Parameters of a network removal.
#[derive(Debug, Clone)]
pub struct RemoveNetworkParams {
    pub id: String,
}

/// Parameters of a log subscription.
#[derive(Debug, Clone)]
pub struct ContainerLogsParams {
    pub id: String,
    pub follow: bool,
    pub stdout: bool,
    pub stderr: bool,
    pub timestamps: bool,
    pub since: i64,
    pub until: i64,
    pub tail: i64,
}

/// A call for the background pool to dispatch over the stored channel.
#[derive(Debug)]
pub enum Dispatch {
    ListMachines(ListMachinesParams),
    ListContainers(ListContainersParams),
    ListImages,
    ListNetworks,
    StartContainer(StartContainerParams),
    StopContainer(StopContainerParams),
    RemoveContainer(RemoveContainerParams),
    CreateContainer(CreateContainerParams),
    CreateNetwork(CreateNetworkParams),
    RemoveNetwork(RemoveNetworkParams),
    SubscribeLogs(ContainerLogsParams),
}

/// Events emitted by the daemon service.
#[derive(Debug)]
pub enum DaemonEvent {
    MachinesLoaded(Vec<MachineViewModel>),
    ContainersLoaded(Vec<ContainerViewModel>),
    ImagesLoaded(Vec<ImageViewModel>),
    NetworksLoaded(Vec<NetworkViewModel>),
    /// Container created successfully.
    ContainerCreated(String),
    /// Container started successfully.
    ContainerStarted(String),
    /// Container stopped successfully.
    ContainerStopped(String),
    /// Container removed successfully.
    ContainerRemoved(String),
    /// Network created successfully.
    NetworkCreated(String),
    /// Network removed successfully.
    NetworkRemoved(String),
    /// Operation failed with an error message.
    OperationFailed(String),
    /// Log entry received from a container.
    LogsReceived { container_id: String, entry: LogEntry },
}

/// What a `connect` call asks its caller to do: dial the RPC socket and
/// apply the result with `on_connect_result` under this generation.
#[derive(Debug)]
pub struct ConnectDirective {
    pub generation: u64,
    pub socket_path: String,
}

/// The outcome of one mutating operation: exactly one event, and after
/// a success the one follow-up dispatch.
#[derive(Debug)]
pub struct MutationOutcome {
    pub event: DaemonEvent,
    pub follow_up: Option<Dispatch>,
}

/// The refresh that a successful container mutation re-issues.
pub open spec fn spec_is_container_refresh(d: Dispatch) -> bool {
    &&& d matches Dispatch::ListContainers(p)
    &&& p.all
    &&& p.limit == 0
}

/// The abstract state of a `DaemonService`, as contracts speak of it.
pub struct DaemonServiceView {
    pub state: ConnectionState,
    pub has_channel: bool,
    pub socket_path: String,
    pub generation: u64,
}

/// Daemon client service: manages the connection to the daemon and
/// shapes every typed operation.
pub struct DaemonService {
    /// Current connection state.
    state: ConnectionState,
    /// Whether the caller stores a live channel on our behalf; in step
    /// with the state being `Connected`.
    has_channel: bool,
    /// RPC socket path.
    socket_path: String,
    /// Bumped on every accepted `connect`, so that the resolution of an
    /// abandoned dial cannot override a newer transition, and a stale
    /// channel is never installed beside a fresh one.
    generation: u64,
}

impl View for DaemonService {
    type V = DaemonServiceView;

    closed spec fn view(&self) -> DaemonServiceView {
        DaemonServiceView {
            state: self.state,
            has_channel: self.has_channel,
            socket_path: self.socket_path,
            generation: self.generation,
        }
    }
}

impl DaemonService {
    /// The channel is stored exactly while the state is `Connected`.
    pub open spec fn wf(&self) -> bool {
        self@.has_channel <==> self@.state is Connected
    }

    /// A fresh service over the default RPC socket path, disconnected.
    pub fn new() -> (r: DaemonService)
        ensures
            r@.state is Disconnected,
            !r@.has_channel,
            r@.generation == 0,
            exists|home: Option<String>| r@.socket_path@ == spec_data_dir(home) + "/arcbox.sock"@,
            r.wf(),
    {
        let socket_path = default_socket_path();
        DaemonService {
            state: ConnectionState::Disconnected,
            has_channel: false,
            socket_path,
            generation: 0,
        }
    }

    /// A fresh service over a custom RPC socket path, disconnected.
    pub fn with_socket_path(socket_path: String) -> (r: DaemonService)
        ensures
            r@.state is Disconnected,
            !r@.has_channel,
            r@.generation == 0,
            r@.socket_path == socket_path,
            r.wf(),
    {
        DaemonService {
            state: ConnectionState::Disconnected,
            has_channel: false,
            socket_path,
            generation: 0,
        }
    }

    /// Replaces the socket path; meant to be called before `connect`.
    pub fn set_socket_path(&mut self, path: String)
        ensures
            final(self)@.socket_path == path,
            final(self)@.state == old(self)@.state,
            final(self)@.has_channel == old(self)@.has_channel,
            final(self)@.generation == old(self)@.generation,
    {
        self.socket_path = path;
    }

    /// Current connection state.
    pub fn state(&self) -> (r: &ConnectionState)
        ensures
            *r == self@.state,
    {
        &self.state
    }

    /// Whether the service is connected.
    pub fn is_connected(&self) -> (r: bool)
        ensures
            r == (self@.state is Connected),
    {
        matches!(self.state, ConnectionState::Connected)
    }

    /// Connects to the daemon: a guarded no-op while connecting or
    /// connected, otherwise a transition to `Connecting` and a
    /// directive to dial the socket under a fresh generation.
    pub fn connect(&mut self) -> (r: Option<ConnectDirective>)
        requires
            old(self)@.generation < u64::MAX,
        ensures
            old(self).wf() ==> final(self).wf(),
            old(self)@.state is Connecting || old(self)@.state is Connected ==> {
                &&& final(self)@ == old(self)@
                &&& r is None
            },
            !(old(self)@.state is Connecting || old(self)@.state is Connected) ==> {
                &&& final(self)@.state is Connecting
                &&& final(self)@.generation == old(self)@.generation + 1
                &&& final(self)@.has_channel == old(self)@.has_channel
                &&& r matches Some(d) && d.generation == final(self)@.generation && d.socket_path
                    == old(self)@.socket_path
            },
            final(self)@.socket_path == old(self)@.socket_path,
    {
        if matches!(self.state, ConnectionState::Connecting | ConnectionState::Connected) {
            return None;
        }
        self.state = ConnectionState::Connecting;
        self.generation = self.generation + 1;
        Some(ConnectDirective { generation: self.generation, socket_path: self.socket_path.clone() })
    }

    /// Applies the result of the dial begun under `generation`. A stale
    /// result — the generation has moved on, or the machine is no
    /// longer `Connecting` — changes nothing, and the caller must drop
    /// the channel it dialed rather than install a duplicate.
    pub fn on_connect_result(&mut self, generation: u64, result: Result<(), String>) -> (accepted:
        bool)
        ensures
            old(self).wf() ==> final(self).wf(),
            !(old(self)@.state is Connecting && generation == old(self)@.generation) ==> {
                &&& final(self)@ == old(self)@
                &&& !accepted
            },
            old(self)@.state is Connecting && generation == old(self)@.generation ==> {
                &&& accepted
                &&& (result is Ok ==> final(self)@.state is Connected && final(self)@.has_channel)
                &&& (result matches Err(e) ==> final(self)@.state matches ConnectionState::Error(m)
                    && m@ == e@ && !final(self)@.has_channel)
            },
            final(self)@.socket_path == old(self)@.socket_path,
            final(self)@.generation == old(self)@.generation,
    {
        if !matches!(self.state, ConnectionState::Connecting) || generation != self.generation {
            return false;
        }
        match result {
            Ok(()) => {
                self.state = ConnectionState::Connected;
                self.has_channel = true;
            },
            Err(e) => {
                self.state = ConnectionState::Error(e);
                self.has_channel = false;
            },
        }
        true
    }

    /// Disconnects: the stored channel is dropped and the state becomes
    /// `Disconnected` at once.
    pub fn disconnect(&mut self)
        ensures
            final(self).wf(),
            final(self)@.state is Disconnected,
            !final(self)@.has_channel,
            final(self)@.socket_path == old(self)@.socket_path,
            final(self)@.generation == old(self)@.generation,
    {
        self.has_channel = false;
        self.state = ConnectionState::Disconnected;
    }

    /// Lists machines: dispatched with `all` set when connected, a
    /// silent no-op otherwise.
    pub fn list_machines(&self) -> (r: Option<Dispatch>)
        ensures
            (self@.state is Connected) <==> (r is Some),
            r matches Some(d) ==> (d matches Dispatch::ListMachines(p) && p.all),
    {
        if !self.is_connected() {
            return None;
        }
        Some(Dispatch::ListMachines(ListMachinesParams { all: true }))
    }

    /// Lists containers: dispatched when connected, a silent no-op
    /// otherwise.
    pub fn list_containers(&self, all: bool) -> (r: Option<Dispatch>)
        ensures
            (self@.state is Connected) <==> (r is Some),
            r matches Some(d) ==> (d matches Dispatch::ListContainers(p) && p.all == all && p.limit
                == 0),
    {
        if !self.is_connected() {
            return None;
        }
        Some(Dispatch::ListContainers(ListContainersParams { all, limit: 0 }))
    }

    /// Lists images: dispatched when connected, a silent no-op
    /// otherwise.
    pub fn list_images(&self) -> (r: Option<Dispatch>)
        ensures
            r == if self@.state is Connected {
                Option::Some(Dispatch::ListImages)
            } else {
                Option::<Dispatch>::None
            },
    {
        if !self.is_connected() {
            return None;
        }
        Some(Dispatch::ListImages)
    }

    /// Lists networks: dispatched when connected, a silent no-op
    /// otherwise.
    pub fn list_networks(&self) -> (r: Option<Dispatch>)
        ensures
            r == if self@.state is Connected {
                Option::Some(Dispatch::ListNetworks)
            } else {
                Option::<Dispatch>::None
            },
    {
        if !self.is_connected() {
            return None;
        }
        Some(Dispatch::ListNetworks)
    }

    /// Starts a container: dispatched when connected, otherwise an
    /// immediate `OperationFailed` event.
    pub fn start_container(&self, id: String) -> (r: Result<Dispatch, DaemonEvent>)
        ensures
            self@.state is Connected ==> (r matches Ok(Dispatch::StartContainer(p)) && p.id == id),
            !(self@.state is Connected) ==> (r matches Err(DaemonEvent::OperationFailed(m)) && m@
                == "Not connected to daemon"@),
    {
        if !self.is_connected() {
            return Err(DaemonEvent::OperationFailed("Not connected to daemon".to_owned()));
        }
        Ok(Dispatch::StartContainer(StartContainerParams { id }))
    }

    /// Stops a container with a grace timeout in seconds: dispatched
    /// when connected, otherwise an immediate `OperationFailed` event.
    pub fn stop_container(&self, id: String, timeout: u32) -> (r: Result<Dispatch, DaemonEvent>)
        ensures
            self@.state is Connected ==> (r matches Ok(Dispatch::StopContainer(p)) && p.id == id
                && p.timeout == timeout),
            !(self@.state is Connected) ==> (r matches Err(DaemonEvent::OperationFailed(m)) && m@
                == "Not connected to daemon"@),
    {
        if !self.is_connected() {
            return Err(DaemonEvent::OperationFailed("Not connected to daemon".to_owned()));
        }
        Ok(Dispatch::StopContainer(StopContainerParams { id, timeout }))
    }

    /// Removes a container: dispatched when connected, otherwise an
    /// immediate `OperationFailed` event. Volumes are never removed
    /// alongside.
    pub fn remove_container(&self, id: String, force: bool) -> (r: Result<Dispatch, DaemonEvent>)
        ensures
            self@.state is Connected ==> (r matches Ok(Dispatch::RemoveContainer(p)) && p.id == id
                && p.force == force && !p.remove_volumes),
            !(self@.state is Connected) ==> (r matches Err(DaemonEvent::OperationFailed(m)) && m@
                == "Not connected to daemon"@),
    {
        if !self.is_connected() {
            return Err(DaemonEvent::OperationFailed("Not connected to daemon".to_owned()));
        }
        Ok(Dispatch::RemoveContainer(RemoveContainerParams { id, force, remove_volumes: false }))
    }

    /// Creates a container from an image: dispatched when connected,
    /// otherwise an immediate `OperationFailed` event. Absent options
    /// are sent as their empty defaults.
    pub fn create_container(
        &self,
        image: String,
        name: Option<String>,
        cmd: Option<Vec<String>>,
        entrypoint: Option<Vec<String>>,
        working_dir: Option<String>,
    ) -> (r: Result<Dispatch, DaemonEvent>)
        ensures
            self@.state is Connected ==> (r matches Ok(Dispatch::CreateContainer(p)) && {
                &&& p.image == image
                &&& p.name@ == (match name {
                    Option::Some(n) => n@,
                    Option::None => Seq::<char>::empty(),
                })
                &&& p.cmd@ == (match cmd {
                    Option::Some(c) => c@,
                    Option::None => Seq::<String>::empty(),
                })
                &&& p.entrypoint@ == (match entrypoint {
                    Option::Some(e) => e@,
                    Option::None => Seq::<String>::empty(),
                })
                &&& p.working_dir@ == (match working_dir {
                    Option::Some(w) => w@,
                    Option::None => Seq::<char>::empty(),
                })
            }),
            !(self@.state is Connected) ==> (r matches Err(DaemonEvent::OperationFailed(m)) && m@
                == "Not connected to daemon"@),
    {
        if !self.is_connected() {
            return Err(DaemonEvent::OperationFailed("Not connected to daemon".to_owned()));
        }
        let name_v = match name {
            Some(n) => n,
            None => String::new(),
        };
        let cmd_v = match cmd {
            Some(c) => c,
            None => Vec::new(),
        };
        let entrypoint_v = match entrypoint {
            Some(e) => e,
            None => Vec::new(),
        };
        let working_dir_v = match working_dir {
            Some(w) => w,
            None => String::new(),
        };
        Ok(
            Dispatch::CreateContainer(
                CreateContainerParams {
                    image,
                    name: name_v,
                    cmd: cmd_v,
                    entrypoint: entrypoint_v,
                    working_dir: working_dir_v,
                },
            ),
        )
    }

    /// Creates a network: dispatched when connected, otherwise an
    /// immediate `OperationFailed` event.
    pub fn create_network(&self, name: String, driver: Option<String>) -> (r: Result<
        Dispatch,
        DaemonEvent,
    >)
        ensures
            self@.state is Connected ==> (r matches Ok(Dispatch::CreateNetwork(p)) && {
                &&& p.name == name
                &&& p.driver@ == (match driver {
                    Option::Some(d) => d@,
                    Option::None => Seq::<char>::empty(),
                })
                &&& !p.internal
            }),
            !(self@.state is Connected) ==> (r matches Err(DaemonEvent::OperationFailed(m)) && m@
                == "Not connected to daemon"@),
    {
        if !self.is_connected() {
            return Err(DaemonEvent::OperationFailed("Not connected to daemon".to_owned()));
        }
        let driver_v = match driver {
            Some(d) => d,
            None => String::new(),
        };
        Ok(Dispatch::CreateNetwork(CreateNetworkParams { name, driver: driver_v, internal: false }))
    }

    /// Removes a network: dispatched when connected, otherwise an
    /// immediate `OperationFailed` event.
    pub fn remove_network(&self, id: String) -> (r: Result<Dispatch, DaemonEvent>)
        ensures
            self@.state is Connected ==> (r matches Ok(Dispatch::RemoveNetwork(p)) && p.id == id),
            !(self@.state is Connected) ==> (r matches Err(DaemonEvent::OperationFailed(m)) && m@
                == "Not connected to daemon"@),
    {
        if !self.is_connected() {
            return Err(DaemonEvent::OperationFailed("Not connected to daemon".to_owned()));
        }
        Ok(Dispatch::RemoveNetwork(RemoveNetworkParams { id }))
    }

    /// Subscribes to a container's logs: dispatched when connected, a
    /// silent no-op otherwise. Both standard streams are included, with
    /// timestamps; an absent tail defaults to `DEFAULT_LOG_TAIL`.
    pub fn subscribe_logs(&self, container_id: String, follow: bool, tail: Option<u32>) -> (r:
        Option<Dispatch>)
        ensures
            (self@.state is Connected) <==> (r is Some),
            r matches Some(d) ==> (d matches Dispatch::SubscribeLogs(p) && {
                &&& p.id == container_id
                &&& p.follow == follow
                &&& p.stdout
                &&& p.stderr
                &&& p.timestamps
                &&& p.since == 0
                &&& p.until == 0
                &&& p.tail == (match tail {
                    Option::Some(t) => t as int,
                    Option::None => DEFAULT_LOG_TAIL as int,
                })
            }),
    {
        if !self.is_connected() {
            return None;
        }
        let tail_v: i64 = match tail {
            Some(t) => t as i64,
            None => DEFAULT_LOG_TAIL as i64,
        };
        Some(
            Dispatch::SubscribeLogs(
                ContainerLogsParams {
                    id: container_id,
                    follow,
                    stdout: true,
                    stderr: true,
                    timestamps: true,
                    since: 0,
                    until: 0,
                    tail: tail_v,
                },
            ),
        )
    }

    /// Completes a machine listing with exactly one event.
    pub fn on_machines_loaded(&self, result: Result<Vec<MachineViewModel>, String>) -> (r:
        DaemonEvent)
        ensures
            result matches Ok(v) ==> (r matches DaemonEvent::MachinesLoaded(w) && w == v),
            result matches Err(e) ==> (r matches DaemonEvent::OperationFailed(m) && m@
                == "Failed to list machines: "@ + e@),
    {
        match result {
            Ok(v) => DaemonEvent::MachinesLoaded(v),
            Err(e) => DaemonEvent::OperationFailed(
                "Failed to list machines: ".to_owned().concat(e.as_str()),
            ),
        }
    }

    /// Completes a container listing with exactly one event.
    pub fn on_containers_loaded(&self, result: Result<Vec<ContainerViewModel>, String>) -> (r:
        DaemonEvent)
        ensures
            result matches Ok(v) ==> (r matches DaemonEvent::ContainersLoaded(w) && w == v),
            result matches Err(e) ==> (r matches DaemonEvent::OperationFailed(m) && m@
                == "Failed to list containers: "@ + e@),
    {
        match result {
            Ok(v) => DaemonEvent::ContainersLoaded(v),
            Err(e) => DaemonEvent::OperationFailed(
                "Failed to list containers: ".to_owned().concat(e.as_str()),
            ),
        }
    }

    /// Completes an image listing with exactly one event.
    pub fn on_images_loaded(&self, result: Result<Vec<ImageViewModel>, String>) -> (r: DaemonEvent)
        ensures
            result matches Ok(v) ==> (r matches DaemonEvent::ImagesLoaded(w) && w == v),
            result matches Err(e) ==> (r matches DaemonEvent::OperationFailed(m) && m@
                == "Failed to list images: "@ + e@),
    {
        match result {
            Ok(v) => DaemonEvent::ImagesLoaded(v),
            Err(e) => DaemonEvent::OperationFailed(
                "Failed to list images: ".to_owned().concat(e.as_str()),
            ),
        }
    }

    /// Completes a network listing with exactly one event.
    pub fn on_networks_loaded(&self, result: Result<Vec<NetworkViewModel>, String>) -> (r:
        DaemonEvent)
        ensures
            result matches Ok(v) ==> (r matches DaemonEvent::NetworksLoaded(w) && w == v),
            result matches Err(e) ==> (r matches DaemonEvent::OperationFailed(m) && m@
                == "Failed to list networks: "@ + e@),
    {
        match result {
            Ok(v) => DaemonEvent::NetworksLoaded(v),
            Err(e) => DaemonEvent::OperationFailed(
                "Failed to list networks: ".to_owned().concat(e.as_str()),
            ),
        }
    }

    /// Completes a container start: on success the mutation event and
    /// the one refresh of the container list; on failure exactly one
    /// `OperationFailed` and no refresh.
    pub fn on_container_started(&self, id: String, result: Result<(), String>) -> (r:
        MutationOutcome)
        ensures
            result is Ok ==> {
                &&& r.event matches DaemonEvent::ContainerStarted(i) && i == id
                &&& (self@.state is Connected ==> (r.follow_up matches Some(d)
                    && spec_is_container_refresh(d)))
                &&& (!(self@.state is Connected) ==> r.follow_up is None)
            },
            result matches Err(e) ==> r.event matches DaemonEvent::OperationFailed(m) && m@
                == "Failed to start container: "@ + e@ && r.follow_up is None,
    {
        match result {
            Ok(()) => MutationOutcome {
                event: DaemonEvent::ContainerStarted(id),
                follow_up: self.list_containers(true),
            },
            Err(e) => MutationOutcome {
                event: DaemonEvent::OperationFailed(
                    "Failed to start container: ".to_owned().concat(e.as_str()),
                ),
                follow_up: None,
            },
        }
    }

    /// Completes a container stop, as `on_container_started` does.
    pub fn on_container_stopped(&self, id: String, result: Result<(), String>) -> (r:
        MutationOutcome)
        ensures
            result is Ok ==> {
                &&& r.event matches DaemonEvent::ContainerStopped(i) && i == id
                &&& (self@.state is Connected ==> (r.follow_up matches Some(d)
                    && spec_is_container_refresh(d)))
                &&& (!(self@.state is Connected) ==> r.follow_up is None)
            },
            result matches Err(e) ==> r.event matches DaemonEvent::OperationFailed(m) && m@
                == "Failed to stop container: "@ + e@ && r.follow_up is None,
    {
        match result {
            Ok(()) => MutationOutcome {
                event: DaemonEvent::ContainerStopped(id),
                follow_up: self.list_containers(true),
            },
            Err(e) => MutationOutcome {
                event: DaemonEvent::OperationFailed(
                    "Failed to stop container: ".to_owned().concat(e.as_str()),
                ),
                follow_up: None,
            },
        }
    }

    /// Completes a container removal, as `on_container_started` does.
    pub fn on_container_removed(&self, id: String, result: Result<(), String>) -> (r:
        MutationOutcome)
        ensures
            result is Ok ==> {
                &&& r.event matches DaemonEvent::ContainerRemoved(i) && i == id
                &&& (self@.state is Connected ==> (r.follow_up matches Some(d)
                    && spec_is_container_refresh(d)))
                &&& (!(self@.state is Connected) ==> r.follow_up is None)
            },
            result matches Err(e) ==> r.event matches DaemonEvent::OperationFailed(m) && m@
                == "Failed to remove container: "@ + e@ && r.follow_up is None,
    {
        match result {
            Ok(()) => MutationOutcome {
                event: DaemonEvent::ContainerRemoved(id),
                follow_up: self.list_containers(true),
            },
            Err(e) => MutationOutcome {
                event: DaemonEvent::OperationFailed(
                    "Failed to remove container: ".to_owned().concat(e.as_str()),
                ),
                follow_up: None,
            },
        }
    }

    /// Completes a container creation. On success the new container is
    /// either started (when `start` was requested) or the container
    /// list refreshed; either way exactly one follow-up.
    pub fn on_container_created(&self, result: Result<String, String>, start: bool) -> (r:
        MutationOutcome)
        ensures
            result matches Ok(id) ==> {
                &&& r.event matches DaemonEvent::ContainerCreated(i) && i@ == id@
                &&& (self@.state is Connected && start ==> (r.follow_up matches Some(
                    Dispatch::StartContainer(p),
                ) && p.id@ == id@))
                &&& (self@.state is Connected && !start ==> (r.follow_up matches Some(d)
                    && spec_is_container_refresh(d)))
                &&& (!(self@.state is Connected) ==> r.follow_up is None)
            },
            result matches Err(e) ==> r.event matches DaemonEvent::OperationFailed(m) && m@
                == "Failed to create container: "@ + e@ && r.follow_up is None,
    {
        match result {
            Ok(id) => {
                let event = DaemonEvent::ContainerCreated(id.clone());
                let follow_up = if start {
                    match self.start_container(id) {
                        Ok(d) => Some(d),
                        Err(_) => None,
                    }
                } else {
                    self.list_containers(true)
                };
                MutationOutcome { event, follow_up }
            },
            Err(e) => MutationOutcome {
                event: DaemonEvent::OperationFailed(
                    "Failed to create container: ".to_owned().concat(e.as_str()),
                ),
                follow_up: None,
            },
        }
    }

    /// Completes a network creation: on success the mutation event and
    /// the one refresh of the network list.
    pub fn on_network_created(&self, result: Result<String, String>) -> (r: MutationOutcome)
        ensures
            result matches Ok(id) ==> {
                &&& r.event matches DaemonEvent::NetworkCreated(i) && i == id
                &&& r.follow_up == (if self@.state is Connected {
                    Option::Some(Dispatch::ListNetworks)
                } else {
                    Option::<Dispatch>::None
                })
            },
            result matches Err(e) ==> r.event matches DaemonEvent::OperationFailed(m) && m@
                == "Failed to create network: "@ + e@ && r.follow_up is None,
    {
        match result {
            Ok(id) => MutationOutcome {
                event: DaemonEvent::NetworkCreated(id),
                follow_up: self.list_networks(),
            },
            Err(e) => MutationOutcome {
                event: DaemonEvent::OperationFailed(
                    "Failed to create network: ".to_owned().concat(e.as_str()),
                ),
                follow_up: None,
            },
        }
    }

    /// Completes a network removal: on success the mutation event and
    /// the one refresh of the network list.
    pub fn on_network_removed(&self, id: String, result: Result<(), String>) -> (r:
        MutationOutcome)
        ensures
            result is Ok ==> {
                &&& r.event matches DaemonEvent::NetworkRemoved(i) && i == id
                &&& r.follow_up == (if self@.state is Connected {
                    Option::Some(Dispatch::ListNetworks)
                } else {
                    Option::<Dispatch>::None
                })
            },
            result matches Err(e) ==> r.event matches DaemonEvent::OperationFailed(m) && m@
                == "Failed to remove network: "@ + e@ && r.follow_up is None,
    {
        match result {
            Ok(()) => MutationOutcome {
                event: DaemonEvent::NetworkRemoved(id),
                follow_up: self.list_networks(),
            },
            Err(e) => MutationOutcome {
                event: DaemonEvent::OperationFailed(
                    "Failed to remove network: ".to_owned().concat(e.as_str()),
                ),
                follow_up: None,
            },
        }
    }
}

/// The creation options as the new-container form hands them over.
#[derive(Debug)]
pub struct CreateContainerForm {
    pub image: String,
    pub name: Option<String>,
    pub cmd: Option<Vec<String>>,
    pub entrypoint: Option<Vec<String>>,
    pub working_dir: Option<String>,
}

/// `v` holds exactly the whitespace-separated words of `s`.
pub open spec fn spec_words_of(v: Seq<String>, s: Seq<char>) -> bool {
    &&& v.len() == spec_split_whitespace(s).len()
    &&& forall|i: int| 0 <= i < v.len() ==> v[i]@ == #[trigger] spec_split_whitespace(s)[i]
}

/// Shapes the raw texts of the new-container form into creation
/// options: an empty image is rejected; empty fields become absent
/// options; command and entrypoint are split at whitespace.
pub fn prepare_create_container(
    image: String,
    name: String,
    command: String,
    entrypoint: String,
    working_dir: String,
) -> (r: Option<CreateContainerForm>)
    ensures
        image@.len() == 0 <==> r is None,
        r matches Some(f) ==> ({
            &&& f.image == image
            &&& (name@.len() == 0 ==> f.name is None)
            &&& (name@.len() > 0 ==> f.name == Some(name))
            &&& (command@.len() == 0 ==> f.cmd is None)
            &&& (command@.len() > 0 ==> (f.cmd matches Some(c) && spec_words_of(c@, command@)))
            &&& (entrypoint@.len() == 0 ==> f.entrypoint is None)
            &&& (entrypoint@.len() > 0 ==> (f.entrypoint matches Some(e) && spec_words_of(
                e@,
                entrypoint@,
            )))
            &&& (working_dir@.len() == 0 ==> f.working_dir is None)
            &&& (working_dir@.len() > 0 ==> f.working_dir == Some(working_dir))
        }),
{
    if image.as_str().is_empty() {
        return None;
    }
    let name_opt = if name.as_str().is_empty() {
        None
    } else {
        Some(name)
    };
    let cmd_opt = if command.as_str().is_empty() {
        None
    } else {
        Some(split_whitespace(command.as_str()))
    };
    let entrypoint_opt = if entrypoint.as_str().is_empty() {
        None
    } else {
        Some(split_whitespace(entrypoint.as_str()))
    };
    let working_dir_opt = if working_dir.as_str().is_empty() {
        None
    } else {
        Some(working_dir)
    };
    Some(
        CreateContainerForm {
            image,
            name: name_opt,
            cmd: cmd_opt,
            entrypoint: entrypoint_opt,
            working_dir: working_dir_opt,
        },
    )
}

/// The cached entity lists of the foreground consumers.
#[derive(Debug)]
pub struct EntityLists {
    pub machines: Vec<MachineViewModel>,
    pub containers: Vec<ContainerViewModel>,
    pub images: Vec<ImageViewModel>,
    pub networks: Vec<NetworkViewModel>,
}

impl EntityLists {
    /// Empty caches.
    pub fn new() -> (r: EntityLists)
        ensures
            r.machines@.len() == 0,
            r.containers@.len() == 0,
            r.images@.len() == 0,
            r.networks@.len() == 0,
    {
        EntityLists {
            machines: Vec::new(),
            containers: Vec::new(),
            images: Vec::new(),
            networks: Vec::new(),
        }
    }

    /// Applies one event to the caches. A `Loaded` event replaces its
    /// one list and is consumed; every other event — a failure above
    /// all — leaves every list exactly as it was and is handed back.
    pub fn apply_event(&mut self, event: DaemonEvent) -> (r: Option<DaemonEvent>)
        ensures
            event matches DaemonEvent::MachinesLoaded(v) ==> final(self).machines == v && final(self).containers == old(self).containers && final(self).images == old(self).images && final(self).networks == old(self).networks && r is None,
            event matches DaemonEvent::ContainersLoaded(v) ==> final(self).containers == v && final(self).machines == old(self).machines && final(self).images == old(self).images && final(self).networks == old(self).networks && r is None,
            event matches DaemonEvent::ImagesLoaded(v) ==> final(self).images == v && final(self).machines == old(self).machines && final(self).containers == old(self).containers
                && final(self).networks == old(self).networks && r is None,
            event matches DaemonEvent::NetworksLoaded(v) ==> final(self).networks == v && final(self).machines == old(self).machines && final(self).containers == old(self).containers
                && final(self).images == old(self).images && r is None,
            !(event matches DaemonEvent::MachinesLoaded(_) || event
                matches DaemonEvent::ContainersLoaded(_) || event
                matches DaemonEvent::ImagesLoaded(_) || event
                matches DaemonEvent::NetworksLoaded(_)) ==> ({
                &&& *final(self) == *old(self)
                &&& r matches Some(e)
                &&& e == event
            }),
    {
        match event {
            DaemonEvent::MachinesLoaded(v) => {
                self.machines = v;
                None
            },
            DaemonEvent::ContainersLoaded(v) => {
                self.containers = v;
                None
            },
            DaemonEvent::ImagesLoaded(v) => {
                self.images = v;
                None
            },
            DaemonEvent::NetworksLoaded(v) => {
                self.networks = v;
                None
            },
            other => Some(other),
        }
    }
}

} // verus!
