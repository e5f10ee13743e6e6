//! Typed requests to, and responses from, the audio-server runtime thread.
//!
//! The runtime thread owns the single-threaded connection to the audio
//! server; the rest of the process talks to it through these types over a
//! pair of channels.

use vstd::prelude::*;
use vstd::string::StringExecFns;
use crate::error::PwError;
use crate::strutil::all_digits;
use crate::strutil::digits_value;
use crate::strutil::u32_to_string;

verus! {

/// Properties for creating a virtual sink node.
#[derive(Debug)]
pub struct VirtualSinkProps {
    /// Node name (`ch-music`, `stream-mix`, ...).
    pub name: String,
    /// Human-readable description.
    pub description: String,
    /// Number of audio channels.
    pub channels: u32,
    /// Audio channel position labels (`FL,FR` or `MONO`).
    pub positions: String,
}

impl Clone for VirtualSinkProps {
    fn clone(&self) -> (r: Self)
        ensures
            r == *self,
    {
        VirtualSinkProps {
            name: self.name.clone(),
            description: self.description.clone(),
            channels: self.channels,
            positions: self.positions.clone(),
        }
    }
}

impl VirtualSinkProps {
    /// Properties for a stereo virtual sink.
    pub fn stereo(name: &str, description: &str) -> (r: Self)
        ensures
            r.name@ == name@,
            r.description@ == description@,
            r.channels == 2,
            r.positions@ == "FL,FR"@,
    {
        VirtualSinkProps {
            name: String::from_str(name),
            description: String::from_str(description),
            channels: 2,
            positions: String::from_str("FL,FR"),
        }
    }

    /// Properties for a mono virtual sink.
    pub fn mono(name: &str, description: &str) -> (r: Self)
        ensures
            r.name@ == name@,
            r.description@ == description@,
            r.channels == 1,
            r.positions@ == "MONO"@,
    {
        VirtualSinkProps {
            name: String::from_str(name),
            description: String::from_str(description),
            channels: 1,
            positions: String::from_str("MONO"),
        }
    }
}

/// What the server answered when a node was created: the id it assigned,
/// and the name it was asked for.
#[derive(Debug)]
pub struct CreatedNode {
    /// Server-assigned node id.
    pub id: u32,
    /// The node's name.
    pub name: String,
}

impl Clone for CreatedNode {
    fn clone(&self) -> (r: Self)
        ensures
            r == *self,
    {
        CreatedNode { id: self.id, name: self.name.clone() }
    }
}

/// A request to the runtime thread. Volumes are thousandths of full scale.
#[derive(Debug)]
pub enum FactoryRequest {
    /// Create a virtual sink.
    CreateSink(VirtualSinkProps),
    /// Create a volume-filter node: a sink that exposes a controllable
    /// volume parameter on its monitor path.
    CreateVolumeFilter {
        /// Node name.
        name: String,
        /// Human-readable description.
        description: String,
        /// Number of audio channels.
        channels: u32,
    },
    /// Create a link between two ports, named by port name.
    CreateLink {
        /// Source node id.
        output_node: u32,
        /// Source port name.
        output_port: String,
        /// Destination node id.
        input_node: u32,
        /// Destination port name.
        input_port: String,
    },
    /// Set the volume parameter of a node.
    SetNodeVolume {
        /// Node id.
        node_id: u32,
        /// Volume in thousandths of full scale.
        volume: u32,
    },
    /// Set the mute parameter of a node.
    SetNodeMute {
        /// Node id.
        node_id: u32,
        /// Whether the node is muted.
        muted: bool,
    },
    /// Destroy a node by id.
    DestroyNode(u32),
    /// Destroy a link by id.
    DestroyLink(u32),
    /// Stop the runtime thread.
    Shutdown,
}

/// A response from the runtime thread.
#[derive(Debug)]
pub enum FactoryResponse {
    /// A node was created.
    NodeCreated(CreatedNode),
    /// A link was created.
    LinkCreated {
        /// Server-assigned link id.
        id: u32,
    },
    /// A volume parameter was set.
    VolumeSet {
        /// The node whose volume was set.
        node_id: u32,
    },
    /// A mute parameter was set.
    MuteSet {
        /// The node whose mute was set.
        node_id: u32,
    },
    /// A node was destroyed.
    NodeDestroyed {
        /// The destroyed node's id.
        id: u32,
    },
    /// A link was destroyed.
    LinkDestroyed {
        /// The destroyed link's id.
        id: u32,
    },
    /// The operation failed.
    Error(String),
}

/// Interpret the runtime's answer to a node-creation request.
pub fn node_created_result(resp: FactoryResponse) -> (r: Result<CreatedNode, PwError>)
    ensures
        match resp {
            FactoryResponse::NodeCreated(n) => r == Ok::<CreatedNode, PwError>(n),
            FactoryResponse::Error(e) => r == Err::<CreatedNode, PwError>(
                PwError::NodeCreationFailed(e),
            ),
            _ => r matches Err(PwError::NodeCreationFailed(m)) && m@ == "unexpected response"@,
        },
{
    match resp {
        FactoryResponse::NodeCreated(n) => Ok(n),
        FactoryResponse::Error(e) => Err(PwError::NodeCreationFailed(e)),
        _ => Err(PwError::NodeCreationFailed(String::from_str("unexpected response"))),
    }
}

/// Interpret the runtime's answer to a link-creation request.
pub fn link_created_result(resp: FactoryResponse) -> (r: Result<u32, PwError>)
    ensures
        match resp {
            FactoryResponse::LinkCreated { id } => r == Ok::<u32, PwError>(id),
            FactoryResponse::Error(e) => r == Err::<u32, PwError>(PwError::LinkCreationFailed(e)),
            _ => r matches Err(PwError::LinkCreationFailed(m)) && m@ == "unexpected response"@,
        },
{
    match resp {
        FactoryResponse::LinkCreated { id } => Ok(id),
        FactoryResponse::Error(e) => Err(PwError::LinkCreationFailed(e)),
        _ => Err(PwError::LinkCreationFailed(String::from_str("unexpected response"))),
    }
}

/// Interpret the runtime's answer to a volume-change request.
pub fn volume_set_result(resp: FactoryResponse) -> (r: Result<(), PwError>)
    ensures
        match resp {
            FactoryResponse::VolumeSet { .. } => r is Ok,
            FactoryResponse::Error(e) => r == Err::<(), PwError>(PwError::VolumeControlFailed(e)),
            _ => r matches Err(PwError::VolumeControlFailed(m)) && m@ == "unexpected response"@,
        },
{
    match resp {
        FactoryResponse::VolumeSet { .. } => Ok(()),
        FactoryResponse::Error(e) => Err(PwError::VolumeControlFailed(e)),
        _ => Err(PwError::VolumeControlFailed(String::from_str("unexpected response"))),
    }
}

/// Interpret the runtime's answer to a mute-change request.
pub fn mute_set_result(resp: FactoryResponse) -> (r: Result<(), PwError>)
    ensures
        match resp {
            FactoryResponse::MuteSet { .. } => r is Ok,
            FactoryResponse::Error(e) => r == Err::<(), PwError>(PwError::VolumeControlFailed(e)),
            _ => r matches Err(PwError::VolumeControlFailed(m)) && m@ == "unexpected response"@,
        },
{
    match resp {
        FactoryResponse::MuteSet { .. } => Ok(()),
        FactoryResponse::Error(e) => Err(PwError::VolumeControlFailed(e)),
        _ => Err(PwError::VolumeControlFailed(String::from_str("unexpected response"))),
    }
}

/// Interpret the runtime's answer to a link-destruction request.
pub fn link_destroyed_result(resp: FactoryResponse) -> (r: Result<(), PwError>)
    ensures
        match resp {
            FactoryResponse::LinkDestroyed { .. } => r is Ok,
            FactoryResponse::Error(e) => r == Err::<(), PwError>(PwError::LinkCreationFailed(e)),
            _ => r matches Err(PwError::LinkCreationFailed(m)) && m@ == "unexpected response"@,
        },
{
    match resp {
        FactoryResponse::LinkDestroyed { .. } => Ok(()),
        FactoryResponse::Error(e) => Err(PwError::LinkCreationFailed(e)),
        _ => Err(PwError::LinkCreationFailed(String::from_str("unexpected response"))),
    }
}

/// Whether a property pair carries this key and this value.
pub open spec fn prop_pair(p: (String, String), key: Seq<char>, value: Seq<char>) -> bool {
    p.0@ == key && p.1@ == value
}

/// Whether a property pair carries this key and this number, rendered
/// in decimal.
pub open spec fn prop_pair_u32(p: (String, String), key: Seq<char>, value: u32) -> bool {
    p.0@ == key && all_digits(p.1@) && p.1@.len() >= 1 && digits_value(p.1@) == value
}

/// The property dictionary for creating a virtual sink with the
/// server's null-sink adapter: the factory and media class, the name,
/// description, channel layout, the managed marker, passivity, and no
/// auto-suspend; a volume filter additionally exposes monitor channel
/// volumes and carries the filter marker.
pub fn sink_properties(p: &VirtualSinkProps, volume_filter: bool) -> (r: Vec<(String, String)>)
    ensures
        r@.len() == (if volume_filter {
            11int
        } else {
            9int
        }),
        prop_pair(r@[0], "factory.name"@, "support.null-audio-sink"@),
        prop_pair(r@[1], "node.name"@, p.name@),
        prop_pair(r@[2], "node.description"@, p.description@),
        prop_pair(r@[3], "media.class"@, "Audio/Sink"@),
        prop_pair_u32(r@[4], "audio.channels"@, p.channels),
        prop_pair(r@[5], "audio.position"@, p.positions@),
        prop_pair(r@[6], "undertone.managed"@, "true"@),
        prop_pair(r@[7], "node.passive"@, "true"@),
        prop_pair(r@[8], "session.suspend-timeout-seconds"@, "0"@),
        volume_filter ==> prop_pair(r@[9], "monitor.channel-volumes"@, "true"@) && prop_pair(
            r@[10],
            "undertone.volume-filter"@,
            "true"@,
        ),
{
    let mut out: Vec<(String, String)> = Vec::new();
    out.push((String::from_str("factory.name"), String::from_str("support.null-audio-sink")));
    out.push((String::from_str("node.name"), p.name.clone()));
    out.push((String::from_str("node.description"), p.description.clone()));
    out.push((String::from_str("media.class"), String::from_str("Audio/Sink")));
    out.push((String::from_str("audio.channels"), u32_to_string(p.channels)));
    out.push((String::from_str("audio.position"), p.positions.clone()));
    out.push((String::from_str("undertone.managed"), String::from_str("true")));
    out.push((String::from_str("node.passive"), String::from_str("true")));
    out.push((String::from_str("session.suspend-timeout-seconds"), String::from_str("0")));
    if volume_filter {
        out.push((String::from_str("monitor.channel-volumes"), String::from_str("true")));
        out.push((String::from_str("undertone.volume-filter"), String::from_str("true")));
    }
    out
}

/// The property dictionary for creating a link with the server's link
/// factory: the endpoint node ids in decimal, the port names, and
/// lingering so the link survives a session handover.
pub fn link_properties(
    output_node: u32,
    output_port: &str,
    input_node: u32,
    input_port: &str,
) -> (r: Vec<(String, String)>)
    ensures
        r@.len() == 5,
        prop_pair_u32(r@[0], "link.output.node"@, output_node),
        prop_pair(r@[1], "link.output.port"@, output_port@),
        prop_pair_u32(r@[2], "link.input.node"@, input_node),
        prop_pair(r@[3], "link.input.port"@, input_port@),
        prop_pair(r@[4], "object.linger"@, "true"@),
{
    let mut out: Vec<(String, String)> = Vec::new();
    out.push((String::from_str("link.output.node"), u32_to_string(output_node)));
    out.push((String::from_str("link.output.port"), String::from_str(output_port)));
    out.push((String::from_str("link.input.node"), u32_to_string(input_node)));
    out.push((String::from_str("link.input.port"), String::from_str(input_port)));
    out.push((String::from_str("object.linger"), String::from_str("true")));
    out
}

} // verus!
