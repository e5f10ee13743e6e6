//! The request/response protocol between clients and the daemon.
//!
//! On the wire each request and response is one JSON value per line;
//! the transport encodes and decodes these typed forms outside the
//! library. Volumes and gains travel as integers in thousandths of full
//! scale and may arrive outside the valid range; the handler clamps
//! them.

use vstd::prelude::*;
use vstd::string::StringExecFns;
use crate::channel::ChannelState;
use crate::mixer::MixType;
use crate::profile::ProfileSummary;
use crate::routing::AppRoute;
use crate::state::DaemonState;
use crate::state::OutputDevice;
use crate::state::StateSnapshot;

verus! {

/// Error information in a response: 400 for an invalid argument, 404
/// for something not found, 500 for an internal failure.
#[derive(Debug)]
pub struct ErrorInfo {
    /// Error code.
    pub code: i32,
    /// Human-readable message.
    pub message: String,
}

impl Clone for ErrorInfo {
    fn clone(&self) -> (r: Self)
        ensures
            r == *self,
    {
        ErrorInfo { code: self.code, message: self.message.clone() }
    }
}

impl ErrorInfo {
    /// An error with this code and message.
    pub fn new(code: i32, message: &str) -> (r: Self)
        ensures
            r.code == code,
            r.message@ == message@,
    {
        ErrorInfo { code, message: String::from_str(message) }
    }
}

/// A method a client can invoke.
#[derive(Debug)]
pub enum Method {
    /// Get the full state snapshot.
    GetState,
    /// Get all channels.
    GetChannels,
    /// Get one channel by name.
    GetChannel {
        /// Channel name.
        name: String,
    },
    /// Get the active application routes.
    GetApps,
    /// Get the profile summaries.
    GetProfiles,
    /// Get one profile by name.
    GetProfile {
        /// Profile name.
        name: String,
    },
    /// Get the target device's connection status.
    GetDeviceStatus,
    /// Get diagnostic counters.
    GetDiagnostics,
    /// Set a channel's volume in one mix.
    SetChannelVolume {
        /// Channel name.
        channel: String,
        /// Which mix.
        mix: MixType,
        /// Requested volume, thousandths; clamped by the handler.
        volume: i64,
    },
    /// Set a channel's mute state in one mix.
    SetChannelMute {
        /// Channel name.
        channel: String,
        /// Which mix.
        mix: MixType,
        /// New mute state.
        muted: bool,
    },
    /// Set a mix's master volume.
    SetMasterVolume {
        /// Which mix.
        mix: MixType,
        /// Requested volume, thousandths; clamped by the handler.
        volume: i64,
    },
    /// Set a mix's master mute state.
    SetMasterMute {
        /// Which mix.
        mix: MixType,
        /// New mute state.
        muted: bool,
    },
    /// Route applications matching a pattern to a channel.
    SetAppRoute {
        /// The pattern.
        app_pattern: String,
        /// The target channel.
        channel: String,
    },
    /// Remove an application route.
    RemoveAppRoute {
        /// The pattern.
        app_pattern: String,
    },
    /// Save the current state as a profile.
    SaveProfile {
        /// Profile name.
        name: String,
    },
    /// Load a saved profile.
    LoadProfile {
        /// Profile name.
        name: String,
    },
    /// Delete a profile.
    DeleteProfile {
        /// Profile name.
        name: String,
    },
    /// Set the microphone gain.
    SetMicGain {
        /// Requested gain, thousandths; clamped by the handler.
        gain: i64,
    },
    /// Set the microphone mute state.
    SetMicMute {
        /// New mute state.
        muted: bool,
    },
    /// Get the available output devices.
    GetOutputDevices,
    /// Set the monitor mix's output device.
    SetMonitorOutput {
        /// The device's node name.
        device_name: String,
    },
    /// Subscribe to event types.
    Subscribe {
        /// Event type names.
        events: Vec<String>,
    },
    /// Unsubscribe from event types.
    Unsubscribe {
        /// Event type names.
        events: Vec<String>,
    },
    /// Shut the daemon down.
    Shutdown,
    /// Run a reconciliation.
    Reconcile,
}

/// A request envelope: the client's id for matching the response, and
/// the method.
#[derive(Debug)]
pub struct Request {
    /// Request id, echoed in the response.
    pub id: u64,
    /// The method to invoke.
    pub method: Method,
}

/// A successful reply's payload.
#[derive(Debug)]
pub enum Reply {
    /// The full state snapshot.
    State(StateSnapshot),
    /// All channels.
    Channels(Vec<ChannelState>),
    /// One channel.
    Channel(ChannelState),
    /// The active application routes.
    Apps(Vec<AppRoute>),
    /// The profile summaries.
    Profiles(Vec<ProfileSummary>),
    /// One profile's summary.
    Profile(ProfileSummary),
    /// The target device's status.
    DeviceStatus {
        /// Whether the device is connected.
        connected: bool,
        /// Its serial number, when connected.
        serial: Option<String>,
    },
    /// Diagnostic counters.
    Diagnostics {
        /// Lifecycle state.
        state: DaemonState,
        /// How many nodes this process created.
        created_nodes: usize,
        /// How many links this process created.
        created_links: usize,
    },
    /// A volume change was accepted; carries the clamped value.
    VolumeAck {
        /// The stored volume, thousandths of full scale.
        volume: u32,
    },
    /// A mute change was accepted.
    MuteAck {
        /// The stored mute state.
        muted: bool,
    },
    /// A gain change was accepted; carries the clamped value.
    GainAck {
        /// The stored gain, thousandths of full scale.
        gain: u32,
    },
    /// The available output devices and the current choice.
    OutputDevices {
        /// Selectable devices.
        devices: Vec<OutputDevice>,
        /// The current monitor output's name.
        current: String,
    },
    /// A monitor-output change was accepted.
    MonitorOutputAck {
        /// The device's name.
        device: String,
    },
    /// Plain success.
    Ack,
}

/// A response envelope.
#[derive(Debug)]
pub struct Response {
    /// The id of the request answered.
    pub id: u64,
    /// The outcome.
    pub result: Result<Reply, ErrorInfo>,
}

} // verus!
