//! Error types of the library.

use vstd::prelude::*;

verus! {

/// Errors of the control plane's own logic.
#[derive(Debug)]
pub enum Error {
    /// The named channel does not exist.
    ChannelNotFound(String),
    /// The named profile does not exist.
    ProfileNotFound(String),
    /// The channel name is not acceptable.
    InvalidChannelName(String),
    /// The volume value (thousandths of full scale) is not acceptable.
    InvalidVolume(i64),
    /// A route pattern could not be used.
    RoutePatternError(String),
    /// The daemon is in a state that forbids the operation.
    StateError(String),
    /// A value could not be encoded or decoded.
    SerializationError(String),
}

/// Errors of the audio-server connection.
#[derive(Debug)]
pub enum PwError {
    /// Connecting to the audio server failed.
    ConnectionFailed(String),
    /// The server did not create a requested node.
    NodeCreationFailed(String),
    /// The server did not create a requested link.
    LinkCreationFailed(String),
    /// A node expected in the graph was not found.
    NodeNotFound(String),
    /// A port expected in the graph was not found.
    PortNotFound(String),
    /// The registry subscription failed.
    RegistryError(String),
    /// The server's event loop failed.
    MainLoopError(String),
    /// A required property was missing.
    PropertyNotFound(String),
    /// A volume or mute parameter could not be set.
    VolumeControlFailed(String),
}

} // verus!
