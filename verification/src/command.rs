//! Commands: the serialized state mutations the applier processes.

use vstd::prelude::*;
use crate::mixer::MixType;

verus! {

/// A state mutation request. Volumes and gains are thousandths of full
/// scale, already clamped to the valid range by the request handler.
#[derive(Debug)]
pub enum Command {
    /// Set a channel's volume in one mix.
    SetChannelVolume {
        /// Channel name.
        channel: String,
        /// Which mix.
        mix: MixType,
        /// Clamped volume.
        volume: u32,
    },
    /// Set a channel's mute state in one mix.
    SetChannelMute {
        /// Channel name.
        channel: String,
        /// Which mix.
        mix: MixType,
        /// New mute state.
        muted: bool,
    },
    /// Set a mix's master volume.
    SetMasterVolume {
        /// Which mix.
        mix: MixType,
        /// Clamped volume.
        volume: u32,
    },
    /// Set a mix's master mute state.
    SetMasterMute {
        /// Which mix.
        mix: MixType,
        /// New mute state.
        muted: bool,
    },
    /// Route applications matching a pattern to a channel.
    SetAppRoute {
        /// The pattern.
        app_pattern: String,
        /// The target channel.
        channel: String,
    },
    /// Remove an application route.
    RemoveAppRoute {
        /// The pattern.
        app_pattern: String,
    },
    /// Save the current state as a profile.
    SaveProfile {
        /// Profile name.
        name: String,
    },
    /// Load a saved profile.
    LoadProfile {
        /// Profile name.
        name: String,
    },
    /// Delete a profile.
    DeleteProfile {
        /// Profile name.
        name: String,
    },
    /// Set the microphone gain.
    SetMicGain {
        /// Clamped gain.
        gain: u32,
    },
    /// Set the microphone mute state.
    SetMicMute {
        /// New mute state.
        muted: bool,
    },
    /// Set the monitor mix's output device.
    SetMonitorOutput {
        /// The device's node name.
        device_name: String,
    },
    /// Run a reconciliation.
    Reconcile,
    /// Shut the daemon down.
    Shutdown,
}

} // verus!
