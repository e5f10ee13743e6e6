//! The daemon's state machine and state snapshot.

use vstd::prelude::*;
use vstd::string::StringExecFns;
use crate::channel::ChannelState;
use crate::graph::CreatedEntry;
use crate::mixer::MixerState;
use crate::mixer::is_default_mixer;
use crate::profile::ProfileSummary;
use crate::routing::AppRoute;

verus! {

/// The daemon's lifecycle state.
#[derive(Debug)]
pub enum DaemonState {
    /// Loading configuration.
    Initializing,
    /// Waiting for the target device to appear.
    WaitingForDevice,
    /// Creating the managed graph nodes.
    CreatingNodes,
    /// Normal operation.
    Running,
    /// The target device disconnected; nodes are preserved.
    DeviceDisconnected,
    /// The audio server restarted; repairing the topology.
    Reconciling,
    /// Graceful shutdown in progress.
    ShuttingDown,
    /// Unrecoverable failure.
    Error(String),
}

impl Clone for DaemonState {
    fn clone(&self) -> (r: Self)
        ensures
            r == *self,
    {
        match self {
            DaemonState::Initializing => DaemonState::Initializing,
            DaemonState::WaitingForDevice => DaemonState::WaitingForDevice,
            DaemonState::CreatingNodes => DaemonState::CreatingNodes,
            DaemonState::Running => DaemonState::Running,
            DaemonState::DeviceDisconnected => DaemonState::DeviceDisconnected,
            DaemonState::Reconciling => DaemonState::Reconciling,
            DaemonState::ShuttingDown => DaemonState::ShuttingDown,
            DaemonState::Error(m) => DaemonState::Error(m.clone()),
        }
    }
}

impl Default for DaemonState {
    /// A daemon starts initializing.
    fn default() -> (r: Self)
        ensures
            r is Initializing,
    {
        DaemonState::Initializing
    }
}

/// An event that can drive a state transition.
#[derive(Debug)]
pub enum DaemonEvent {
    /// Configuration was loaded.
    ConfigLoaded,
    /// The store is ready.
    DatabaseReady,
    /// The audio server connection is up.
    PipeWireConnected,
    /// The target device appeared, with its serial number.
    Wave3Detected {
        /// Device serial number.
        serial: String,
    },
    /// The target device disappeared.
    Wave3Disconnected,
    /// A managed node was created.
    NodeCreated {
        /// Server-assigned id.
        id: u32,
        /// Node name.
        name: String,
    },
    /// A node disappeared from the graph.
    NodeRemoved {
        /// Its id.
        id: u32,
    },
    /// A link was created.
    LinkCreated {
        /// Its id.
        id: u32,
    },
    /// A link disappeared.
    LinkRemoved {
        /// Its id.
        id: u32,
    },
    /// An application audio client appeared.
    ClientAppeared {
        /// Its node id.
        id: u32,
        /// Its application name.
        name: String,
        /// Its process id.
        pid: u32,
    },
    /// An application audio client disappeared.
    ClientDisappeared {
        /// Its node id.
        id: u32,
    },
    /// The audio server restarted.
    PipeWireRestarted,
    /// The session manager restarted.
    WirePlumberRestarted,
    /// A shutdown was requested.
    ShutdownRequested,
    /// A reconciliation was requested.
    ReconcileRequested,
}

/// An available audio output device.
#[derive(Debug)]
pub struct OutputDevice {
    /// Graph node name, used for identification.
    pub name: String,
    /// Human-readable description.
    pub description: String,
    /// Graph node id.
    pub node_id: u32,
}

impl Clone for OutputDevice {
    fn clone(&self) -> (r: Self)
        ensures
            r == *self,
    {
        OutputDevice {
            name: self.name.clone(),
            description: self.description.clone(),
            node_id: self.node_id,
        }
    }
}

/// A complete snapshot of the daemon's observable state.
#[derive(Debug)]
pub struct StateSnapshot {
    /// Lifecycle state.
    pub state: DaemonState,
    /// Whether the target device is connected.
    pub device_connected: bool,
    /// The target device's serial number, when connected.
    pub device_serial: Option<String>,
    /// Channel states.
    pub channels: Vec<ChannelState>,
    /// Active application routes.
    pub app_routes: Vec<AppRoute>,
    /// Mixer state.
    pub mixer: MixerState,
    /// Name of the active profile.
    pub active_profile: String,
    /// Available profiles.
    pub profiles: Vec<ProfileSummary>,
    /// Available audio output devices.
    pub output_devices: Vec<OutputDevice>,
    /// Name of the monitor mix's output device.
    pub monitor_output: String,
    /// Nodes this process created, by logical name.
    pub created_nodes: Vec<CreatedEntry>,
    /// Links this process created, by description.
    pub created_links: Vec<CreatedEntry>,
}

impl StateSnapshot {
    /// All stored volumes lie within the valid range.
    pub open spec fn wf(&self) -> bool {
        &&& forall|i: int| 0 <= i < self.channels@.len() ==> (#[trigger] self.channels@[i]).wf()
        &&& self.mixer.wf()
    }
}

/// Copy a channel list with its contents.
pub fn clone_channel_states(v: &Vec<ChannelState>) -> (r: Vec<ChannelState>)
    ensures
        r@ == v@,
{
    let mut out: Vec<ChannelState> = Vec::new();
    let n: usize = v.len();
    let mut i: usize = 0;
    while i < n
        invariant
            n == v@.len(),
            i <= n,
            out@.len() == i,
            forall|k: int| 0 <= k < i ==> out@[k] == v@[k],
        decreases n - i,
    {
        out.push(v[i].clone());
        i += 1;
    }
    proof {
        assert(out@ =~= v@);
    }
    out
}

impl Default for StateSnapshot {
    /// The state before anything was observed: initializing, no device,
    /// no channels, the default mixer, the default profile active, and
    /// the conventional target sink as monitor output.
    fn default() -> (r: Self)
        ensures
            r.state is Initializing,
            !r.device_connected,
            r.device_serial is None,
            r.channels@.len() == 0,
            r.app_routes@.len() == 0,
            is_default_mixer(r.mixer),
            r.active_profile@ == "Default"@,
            r.profiles@.len() == 1 && r.profiles@[0].name@ == "Default"@
                && r.profiles@[0].is_default,
            r.output_devices@.len() == 0,
            r.monitor_output@ == "wave3-sink"@,
            r.created_nodes@.len() == 0,
            r.created_links@.len() == 0,
            r.wf(),
    {
        let mut profiles: Vec<ProfileSummary> = Vec::new();
        profiles.push(
            ProfileSummary {
                name: String::from_str("Default"),
                is_default: true,
                description: Some(String::from_str("Default mixer configuration")),
            },
        );
        StateSnapshot {
            state: DaemonState::Initializing,
            device_connected: false,
            device_serial: None,
            channels: Vec::new(),
            app_routes: Vec::new(),
            mixer: MixerState::default(),
            active_profile: String::from_str("Default"),
            profiles,
            output_devices: Vec::new(),
            monitor_output: String::from_str("wave3-sink"),
            created_nodes: Vec::new(),
            created_links: Vec::new(),
        }
    }
}

} // verus!
