//! The graph cache: an in-memory mirror of the live audio-server graph.
//!
//! The cache is authoritative only for what was last observed; the audio
//! server remains the source of truth. Every mutation is idempotent on an
//! id collision (it overwrites).

use vstd::prelude::*;
use crate::seqtools::find_key_idx;
use crate::seqtools::lemma_find_key_idx;
use crate::seqtools::lemma_find_key_idx_exists;
use crate::seqtools::lemma_filter_step;
use crate::seqtools::lemma_remove_keeps_unique;
use crate::seqtools::lemma_upsert_keeps_unique;
use crate::strutil::spec_str_contains;
use crate::strutil::str_contains;
use crate::strutil::str_eq;
use crate::strutil::str_starts_with;

verus! {

/// A node of the audio graph, as observed. The properties this process
/// reads from the server's dictionary are carried as dedicated fields.
#[derive(Debug)]
pub struct NodeInfo {
    /// Object id assigned by the audio server.
    pub id: u32,
    /// Node name.
    pub name: String,
    /// Node description.
    pub description: Option<String>,
    /// Media class (`Audio/Sink`, `Stream/Output/Audio`, ...).
    pub media_class: Option<String>,
    /// Application name, for client nodes.
    pub application_name: Option<String>,
    /// Binary name, for client nodes.
    pub binary_name: Option<String>,
    /// Process id.
    pub pid: Option<u32>,
    /// Device serial number, for device nodes.
    pub device_serial: Option<String>,
    /// Device vendor id, for device nodes.
    pub device_vendor_id: Option<String>,
    /// Device product id, for device nodes.
    pub device_product_id: Option<String>,
    /// Whether this node is managed by this process.
    pub is_undertone_managed: bool,
}

/// Copy an option of a string with its contents.
pub fn clone_opt_string(s: &Option<String>) -> (r: Option<String>)
    ensures
        r == *s,
{
    match s {
        Some(v) => Some(v.clone()),
        None => None,
    }
}

impl Clone for NodeInfo {
    fn clone(&self) -> (r: Self)
        ensures
            r == *self,
    {
        NodeInfo {
            id: self.id,
            name: self.name.clone(),
            description: clone_opt_string(&self.description),
            media_class: clone_opt_string(&self.media_class),
            application_name: clone_opt_string(&self.application_name),
            binary_name: clone_opt_string(&self.binary_name),
            pid: self.pid,
            device_serial: clone_opt_string(&self.device_serial),
            device_vendor_id: clone_opt_string(&self.device_vendor_id),
            device_product_id: clone_opt_string(&self.device_product_id),
            is_undertone_managed: self.is_undertone_managed,
        }
    }
}

impl NodeInfo {
    /// Whether the media class marks an audio sink.
    pub open spec fn spec_is_sink(&self) -> bool {
        match self.media_class {
            Some(c) => spec_str_contains(c@, "Sink"@),
            None => false,
        }
    }

    /// Whether this node consumes audio.
    pub fn is_sink(&self) -> (r: bool)
        ensures
            r == self.spec_is_sink(),
    {
        match &self.media_class {
            Some(c) => str_contains(c.as_str(), "Sink"),
            None => false,
        }
    }

    /// Whether the media class marks an audio source.
    pub open spec fn spec_is_source(&self) -> bool {
        match self.media_class {
            Some(c) => spec_str_contains(c@, "Source"@),
            None => false,
        }
    }

    /// Whether this node produces audio.
    pub fn is_source(&self) -> (r: bool)
        ensures
            r == self.spec_is_source(),
    {
        match &self.media_class {
            Some(c) => str_contains(c.as_str(), "Source"),
            None => false,
        }
    }

    /// Whether the name marks the target capture device.
    pub open spec fn spec_is_wave3(&self) -> bool {
        ||| "wave3-"@.is_prefix_of(self.name@)
        ||| spec_str_contains(self.name@, "Elgato"@)
        ||| spec_str_contains(self.name@, "Wave:3"@)
    }

    /// Whether this node belongs to the target capture device.
    pub fn is_wave3(&self) -> (r: bool)
        ensures
            r == self.spec_is_wave3(),
    {
        str_starts_with(self.name.as_str(), "wave3-") || str_contains(self.name.as_str(), "Elgato")
            || str_contains(self.name.as_str(), "Wave:3")
    }

    /// Whether the name marks one of this process's channel sinks.
    pub open spec fn spec_is_undertone_channel(&self) -> bool {
        "ch-"@.is_prefix_of(self.name@)
    }

    /// Whether this node is one of this process's channel sinks.
    pub fn is_undertone_channel(&self) -> (r: bool)
        ensures
            r == self.spec_is_undertone_channel(),
    {
        str_starts_with(self.name.as_str(), "ch-")
    }

    /// Whether the name marks one of this process's mix nodes.
    pub open spec fn spec_is_undertone_mix(&self) -> bool {
        "stream-"@.is_prefix_of(self.name@) || "monitor-"@.is_prefix_of(self.name@)
    }

    /// Whether this node is one of this process's mix nodes.
    pub fn is_undertone_mix(&self) -> (r: bool)
        ensures
            r == self.spec_is_undertone_mix(),
    {
        str_starts_with(self.name.as_str(), "stream-") || str_starts_with(
            self.name.as_str(),
            "monitor-",
        )
    }

    /// Whether the media class equals this label exactly.
    fn media_class_is(&self, label: &str) -> (r: bool)
        ensures
            r == match self.media_class {
                Some(c) => c@ == label@,
                None => false,
            },
    {
        match &self.media_class {
            Some(c) => str_eq(c.as_str(), label),
            None => false,
        }
    }

    /// Whether this node is an unmanaged application audio stream.
    pub fn is_audio_client(&self) -> (r: bool)
        ensures
            r == spec_is_audio_client(*self),
    {
        self.media_class_is("Stream/Output/Audio") && !self.is_undertone_managed
            && !self.is_wave3()
    }

    /// Whether this node is a selectable physical output sink.
    pub fn is_output_device(&self) -> (r: bool)
        ensures
            r == spec_is_output_device(*self),
    {
        self.media_class_is("Audio/Sink") && !self.is_undertone_managed && !str_contains(
            self.name.as_str(),
            "null-sink",
        )
    }

    /// Whether this node looks like the target device's headphone sink.
    pub fn matches_wave3_sink(&self) -> (r: bool)
        ensures
            r == wave3_sink_match(*self),
    {
        let is_vendor = match &self.device_vendor_id {
            Some(v) => str_eq(v.as_str(), "0x0fd9"),
            None => false,
        };
        let is_product = match &self.device_product_id {
            Some(v) => str_eq(v.as_str(), "0x0070"),
            None => false,
        };
        let is_sink = self.media_class_is("Audio/Sink");
        let is_alsa = str_starts_with(self.name.as_str(), "alsa_output");
        let by_name = str_contains(self.name.as_str(), "Elgato") && str_contains(
            self.name.as_str(),
            "Wave",
        ) && is_sink;
        let by_id = is_vendor && is_product && is_sink;
        (by_id || by_name || (is_alsa && self.is_wave3())) && is_sink
    }

    /// Whether this node looks like the target device's microphone source.
    pub fn matches_wave3_source(&self) -> (r: bool)
        ensures
            r == wave3_source_match(*self),
    {
        let is_source = self.media_class_is("Audio/Source");
        let by_name = (str_contains(self.name.as_str(), "Elgato") || str_contains(
            self.name.as_str(),
            "Wave",
        )) && is_source;
        let is_alsa_input = str_starts_with(self.name.as_str(), "alsa_input");
        (by_name || (is_alsa_input && self.is_wave3())) && is_source
    }
}

/// Direction of a port.
#[derive(Debug, Clone, Copy, PartialEq, Eq, Structural)]
pub enum PortDirection {
    /// The port receives audio.
    Input,
    /// The port sends audio.
    Output,
}

/// A port of the audio graph, as observed.
#[derive(Debug)]
pub struct PortInfo {
    /// Object id assigned by the audio server.
    pub id: u32,
    /// Port name (`monitor_FL`, `playback_FR`, ...).
    pub name: String,
    /// Direction of the port.
    pub direction: PortDirection,
    /// Id of the node the port belongs to.
    pub node_id: u32,
    /// Audio channel position label (`FL`, `FR`, ...), when known.
    pub channel: Option<String>,
}

impl Clone for PortInfo {
    fn clone(&self) -> (r: Self)
        ensures
            r == *self,
    {
        PortInfo {
            id: self.id,
            name: self.name.clone(),
            direction: self.direction,
            node_id: self.node_id,
            channel: clone_opt_string(&self.channel),
        }
    }
}

/// State of a link.
#[derive(Debug, Clone, Copy, PartialEq, Eq, Structural)]
pub enum LinkState {
    /// The link is being set up.
    Init,
    /// The link is being negotiated.
    Negotiating,
    /// The link is allocating buffers.
    Allocating,
    /// The link is paused.
    Paused,
    /// The link is carrying audio.
    Active,
    /// The link failed.
    Error,
    /// The link is unlinked.
    Unlinked,
}

/// A link of the audio graph, as observed.
#[derive(Debug, Clone, Copy, PartialEq, Eq, Structural)]
pub struct LinkInfo {
    /// Object id assigned by the audio server.
    pub id: u32,
    /// Source node id.
    pub output_node: u32,
    /// Source port id.
    pub output_port: u32,
    /// Destination node id.
    pub input_node: u32,
    /// Destination port id.
    pub input_port: u32,
    /// Observed state of the link.
    pub state: LinkState,
    /// Whether this link is managed by this process.
    pub is_undertone_managed: bool,
}

/// Parameters for creating a link.
#[derive(Debug, Clone, Copy, PartialEq, Eq, Structural)]
pub struct LinkParams {
    /// Source node id.
    pub output_node: u32,
    /// Source port id.
    pub output_port: u32,
    /// Destination node id.
    pub input_node: u32,
    /// Destination port id.
    pub input_port: u32,
    /// Whether the link should outlive its creator.
    pub linger: bool,
}

impl LinkParams {
    /// Link parameters with lingering on, so the link survives a session
    /// handover.
    pub fn new(output_node: u32, output_port: u32, input_node: u32, input_port: u32) -> (r: Self)
        ensures
            r.output_node == output_node,
            r.output_port == output_port,
            r.input_node == input_node,
            r.input_port == input_port,
            r.linger,
    {
        LinkParams { output_node, output_port, input_node, input_port, linger: true }
    }
}

/// A record of an object this process asked the server to create:
/// its logical name and the id the server assigned.
#[derive(Debug)]
pub struct CreatedEntry {
    /// Logical name of the created object.
    pub name: String,
    /// Server-assigned id.
    pub id: u32,
}

impl Clone for CreatedEntry {
    fn clone(&self) -> (r: Self)
        ensures
            r == *self,
    {
        CreatedEntry { name: self.name.clone(), id: self.id }
    }
}

/// Key extractor for nodes by id.
pub open spec fn node_id_key() -> spec_fn(NodeInfo) -> u32 {
    |n: NodeInfo| n.id
}

/// Key extractor for ports by id.
pub open spec fn port_id_key() -> spec_fn(PortInfo) -> u32 {
    |p: PortInfo| p.id
}

/// Key extractor for links by id.
pub open spec fn link_id_key() -> spec_fn(LinkInfo) -> u32 {
    |l: LinkInfo| l.id
}

/// Key extractor for created-object records by name.
pub open spec fn created_name_key() -> spec_fn(CreatedEntry) -> Seq<char> {
    |e: CreatedEntry| e.name@
}

/// Key extractor for nodes by name.
pub open spec fn node_name_key() -> spec_fn(NodeInfo) -> Seq<char> {
    |n: NodeInfo| n.name@
}

/// Index of the node with this id, or `-1`.
pub open spec fn node_idx(nodes: Seq<NodeInfo>, id: u32) -> int {
    find_key_idx(nodes, node_id_key(), id)
}

/// The node with this id, if present.
pub open spec fn spec_find_node(nodes: Seq<NodeInfo>, id: u32) -> Option<NodeInfo> {
    let i = node_idx(nodes, id);
    if i >= 0 {
        Some(nodes[i])
    } else {
        None
    }
}

/// The first node with this name, if any.
pub open spec fn spec_find_node_by_name(nodes: Seq<NodeInfo>, name: Seq<char>) -> Option<
    NodeInfo,
> {
    let i = find_key_idx(nodes, node_name_key(), name);
    if i >= 0 {
        Some(nodes[i])
    } else {
        None
    }
}

/// Whether some node bears this name.
pub open spec fn node_name_present(nodes: Seq<NodeInfo>, name: Seq<char>) -> bool {
    exists|i: int| 0 <= i < nodes.len() && (#[trigger] nodes[i]).name@ == name
}

/// Index of the port with this id, or `-1`.
pub open spec fn port_idx(ports: Seq<PortInfo>, id: u32) -> int {
    find_key_idx(ports, port_id_key(), id)
}

/// Index of the link with this id, or `-1`.
pub open spec fn link_idx(links: Seq<LinkInfo>, id: u32) -> int {
    find_key_idx(links, link_id_key(), id)
}

/// The link with this id, if present.
pub open spec fn spec_find_link(links: Seq<LinkInfo>, id: u32) -> Option<LinkInfo> {
    let i = link_idx(links, id);
    if i >= 0 {
        Some(links[i])
    } else {
        None
    }
}

/// Index of the created-object record with this name, or `-1`.
pub open spec fn created_idx(entries: Seq<CreatedEntry>, name: Seq<char>) -> int {
    find_key_idx(entries, created_name_key(), name)
}

/// The recorded id under this name, if any.
pub open spec fn spec_created_id(entries: Seq<CreatedEntry>, name: Seq<char>) -> Option<u32> {
    let i = created_idx(entries, name);
    if i >= 0 {
        Some(entries[i].id)
    } else {
        None
    }
}

/// Whether a link connects the two node ids, in this direction.
pub open spec fn spec_has_link(links: Seq<LinkInfo>, output_node: u32, input_node: u32) -> bool {
    exists|i: int|
        0 <= i < links.len() && (#[trigger] links[i]).output_node == output_node
            && links[i].input_node == input_node
}

/// The port with this id, if present.
pub open spec fn spec_find_port(ports: Seq<PortInfo>, id: u32) -> Option<PortInfo> {
    let i = port_idx(ports, id);
    if i >= 0 {
        Some(ports[i])
    } else {
        None
    }
}

/// Predicate: the port belongs to this node.
pub open spec fn port_of_node(node_id: u32) -> spec_fn(PortInfo) -> bool {
    |p: PortInfo| p.node_id == node_id
}

/// Predicate: the port belongs to this node and has this direction.
pub open spec fn port_of_node_dir(node_id: u32, dir: PortDirection) -> spec_fn(PortInfo) -> bool {
    |p: PortInfo| p.node_id == node_id && p.direction == dir
}

/// Predicate: the port belongs to this node and bears this name.
pub open spec fn port_name_pred(node_id: u32, name: Seq<char>) -> spec_fn(PortInfo) -> bool {
    |p: PortInfo| p.node_id == node_id && p.name@ == name
}

/// Predicate: the port belongs to this node, has this direction and this
/// channel position label.
pub open spec fn port_channel_pred(node_id: u32, dir: PortDirection, channel: Seq<char>) -> spec_fn(
    PortInfo,
) -> bool {
    |p: PortInfo|
        p.node_id == node_id && p.direction == dir && match p.channel {
            Some(c) => c@ == channel,
            None => false,
        }
}

/// Predicate: the link touches this node, as source or destination.
pub open spec fn link_touches(node_id: u32) -> spec_fn(LinkInfo) -> bool {
    |l: LinkInfo| l.output_node == node_id || l.input_node == node_id
}

/// Whether this node is an unmanaged application audio stream.
pub open spec fn spec_is_audio_client(n: NodeInfo) -> bool {
    &&& match n.media_class {
        Some(c) => c@ == "Stream/Output/Audio"@,
        None => false,
    }
    &&& !n.is_undertone_managed
    &&& !n.spec_is_wave3()
}

/// Whether this node is a selectable physical output sink: an audio sink
/// that is not managed by this process and is not an internal null sink.
pub open spec fn spec_is_output_device(n: NodeInfo) -> bool {
    &&& match n.media_class {
        Some(c) => c@ == "Audio/Sink"@,
        None => false,
    }
    &&& !n.is_undertone_managed
    &&& !spec_str_contains(n.name@, "null-sink"@)
}

/// Whether this node is the target device's headphone sink, going by its
/// device ids or its name.
pub open spec fn wave3_sink_match(n: NodeInfo) -> bool {
    let is_vendor = match n.device_vendor_id {
        Some(v) => v@ == "0x0fd9"@,
        None => false,
    };
    let is_product = match n.device_product_id {
        Some(v) => v@ == "0x0070"@,
        None => false,
    };
    let is_sink = match n.media_class {
        Some(c) => c@ == "Audio/Sink"@,
        None => false,
    };
    let is_alsa = "alsa_output"@.is_prefix_of(n.name@);
    let by_name = spec_str_contains(n.name@, "Elgato"@) && spec_str_contains(n.name@, "Wave"@)
        && is_sink;
    let by_id = is_vendor && is_product && is_sink;
    (by_id || by_name || (is_alsa && n.spec_is_wave3())) && is_sink
}

/// Whether this node is the target device's microphone source.
pub open spec fn wave3_source_match(n: NodeInfo) -> bool {
    let is_source = match n.media_class {
        Some(c) => c@ == "Audio/Source"@,
        None => false,
    };
    let by_name = (spec_str_contains(n.name@, "Elgato"@) || spec_str_contains(n.name@, "Wave"@))
        && is_source;
    let is_alsa_input = "alsa_input"@.is_prefix_of(n.name@);
    (by_name || (is_alsa_input && n.spec_is_wave3())) && is_source
}

/// Predicate form of `wave3_sink_match`.
pub open spec fn wave3_sink_pred() -> spec_fn(NodeInfo) -> bool {
    |n: NodeInfo| wave3_sink_match(n)
}

/// Predicate form of `wave3_source_match`.
pub open spec fn wave3_source_pred() -> spec_fn(NodeInfo) -> bool {
    |n: NodeInfo| wave3_source_match(n)
}

/// Predicate: the node belongs to the target capture device.
pub open spec fn wave3_pred() -> spec_fn(NodeInfo) -> bool {
    |n: NodeInfo| n.spec_is_wave3()
}

/// Predicate form of `spec_is_audio_client`.
pub open spec fn audio_client_pred() -> spec_fn(NodeInfo) -> bool {
    |n: NodeInfo| spec_is_audio_client(n)
}

/// Predicate form of `spec_is_output_device`.
pub open spec fn output_device_pred() -> spec_fn(NodeInfo) -> bool {
    |n: NodeInfo| spec_is_output_device(n)
}

/// Predicate: the node is one of this process's channel sinks.
pub open spec fn undertone_channel_pred() -> spec_fn(NodeInfo) -> bool {
    |n: NodeInfo| n.spec_is_undertone_channel()
}

/// The target device's headphone sink, if observed: first the node named
/// `wave3-sink`, else the first node matching the device's ids or name.
pub open spec fn spec_find_wave3_sink(nodes: Seq<NodeInfo>) -> Option<NodeInfo> {
    if spec_find_node_by_name(nodes, "wave3-sink"@) is Some {
        spec_find_node_by_name(nodes, "wave3-sink"@)
    } else {
        let j = find_key_idx(nodes, wave3_sink_pred(), true);
        if j >= 0 {
            Some(nodes[j])
        } else {
            None
        }
    }
}

/// The target device's microphone source, if observed.
pub open spec fn spec_find_wave3_source(nodes: Seq<NodeInfo>) -> Option<NodeInfo> {
    if spec_find_node_by_name(nodes, "wave3-source"@) is Some {
        spec_find_node_by_name(nodes, "wave3-source"@)
    } else {
        let j = find_key_idx(nodes, wave3_source_pred(), true);
        if j >= 0 {
            Some(nodes[j])
        } else {
            None
        }
    }
}

/// Whether this link's endpoints resolve to these node and port names.
pub open spec fn link_matches_names(
    g: GraphView,
    l: LinkInfo,
    out_node: Seq<char>,
    out_port: Seq<char>,
    in_node: Seq<char>,
    in_port: Seq<char>,
) -> bool {
    &&& match spec_find_node(g.nodes, l.output_node) {
        Some(a) => a.name@ == out_node,
        None => false,
    }
    &&& match spec_find_port(g.ports, l.output_port) {
        Some(p) => p.name@ == out_port,
        None => false,
    }
    &&& match spec_find_node(g.nodes, l.input_node) {
        Some(b) => b.name@ == in_node,
        None => false,
    }
    &&& match spec_find_port(g.ports, l.input_port) {
        Some(q) => q.name@ == in_port,
        None => false,
    }
}

/// Whether some observed link resolves to these endpoint names.
pub open spec fn spec_link_present(
    g: GraphView,
    out_node: Seq<char>,
    out_port: Seq<char>,
    in_node: Seq<char>,
    in_port: Seq<char>,
) -> bool {
    exists|k: int|
        0 <= k < g.links.len() && link_matches_names(
            g,
            #[trigger] g.links[k],
            out_node,
            out_port,
            in_node,
            in_port,
        )
}

/// Law: the cache stays consistent under removal. After the node with
/// this id is forgotten, a lookup by the id returns absent, and — when
/// no other node bore its name — a lookup by its former name returns
/// absent too.
pub proof fn lemma_removed_node_absent(nodes: Seq<NodeInfo>, id: u32)
    requires
        forall|i: int, j: int|
            0 <= i < j < nodes.len() ==> (#[trigger] nodes[i]).id != (#[trigger] nodes[j]).id,
        node_idx(nodes, id) >= 0,
        forall|j: int|
            0 <= j < nodes.len() && j != node_idx(nodes, id) ==> (#[trigger] nodes[j]).name@
                != nodes[node_idx(nodes, id)].name@,
    ensures
        spec_find_node(nodes.remove(node_idx(nodes, id)), id) is None,
        spec_find_node_by_name(
            nodes.remove(node_idx(nodes, id)),
            nodes[node_idx(nodes, id)].name@,
        ) is None,
        !node_name_present(nodes.remove(node_idx(nodes, id)), nodes[node_idx(nodes, id)].name@),
{
    lemma_find_key_idx(nodes, node_id_key(), id);
    let i = node_idx(nodes, id);
    let nodes2 = nodes.remove(i);
    lemma_remove_keeps_unique(nodes, nodes2, node_id_key(), id);
    lemma_find_key_idx_exists(nodes2, node_id_key(), id);
    let name = nodes[i].name@;
    assert forall|j: int| 0 <= j < nodes2.len() implies node_name_key()(#[trigger] nodes2[j])
        != name by {
        let j0: int = if j < i {
            j
        } else {
            j + 1
        };
        assert(nodes2[j] == nodes[j0]);
    }
    lemma_find_key_idx_exists(nodes2, node_name_key(), name);
}

/// The ghost image of the cache: its five collections.
pub struct GraphView {
    /// Observed nodes.
    pub nodes: Seq<NodeInfo>,
    /// Observed ports.
    pub ports: Seq<PortInfo>,
    /// Observed links.
    pub links: Seq<LinkInfo>,
    /// Records of nodes this process created.
    pub created_nodes: Seq<CreatedEntry>,
    /// Records of links this process created.
    pub created_links: Seq<CreatedEntry>,
}

/// The in-memory mirror of the audio graph, with the created-objects
/// registry.
#[derive(Debug)]
pub struct GraphManager {
    nodes: Vec<NodeInfo>,
    ports: Vec<PortInfo>,
    links: Vec<LinkInfo>,
    created_nodes: Vec<CreatedEntry>,
    created_links: Vec<CreatedEntry>,
}

impl View for GraphManager {
    type V = GraphView;

    closed spec fn view(&self) -> GraphView {
        GraphView {
            nodes: self.nodes@,
            ports: self.ports@,
            links: self.links@,
            created_nodes: self.created_nodes@,
            created_links: self.created_links@,
        }
    }
}

impl GraphManager {
    /// Each collection is keyed: ids occur once, created names occur once.
    pub open spec fn wf(&self) -> bool {
        &&& forall|i: int, j: int|
            0 <= i < j < self@.nodes.len() ==> (#[trigger] self@.nodes[i]).id != (
            #[trigger] self@.nodes[j]).id
        &&& forall|i: int, j: int|
            0 <= i < j < self@.ports.len() ==> (#[trigger] self@.ports[i]).id != (
            #[trigger] self@.ports[j]).id
        &&& forall|i: int, j: int|
            0 <= i < j < self@.links.len() ==> (#[trigger] self@.links[i]).id != (
            #[trigger] self@.links[j]).id
        &&& forall|i: int, j: int|
            0 <= i < j < self@.created_nodes.len() ==> (#[trigger] self@.created_nodes[i]).name@
                != (#[trigger] self@.created_nodes[j]).name@
        &&& forall|i: int, j: int|
            0 <= i < j < self@.created_links.len() ==> (#[trigger] self@.created_links[i]).name@
                != (#[trigger] self@.created_links[j]).name@
    }

    /// An empty cache.
    pub fn new() -> (r: Self)
        ensures
            r@.nodes.len() == 0,
            r@.ports.len() == 0,
            r@.links.len() == 0,
            r@.created_nodes.len() == 0,
            r@.created_links.len() == 0,
            r.wf(),
    {
        GraphManager {
            nodes: Vec::new(),
            ports: Vec::new(),
            links: Vec::new(),
            created_nodes: Vec::new(),
            created_links: Vec::new(),
        }
    }

    /// Position of the node with this id, if observed.
    fn node_position(&self, id: u32) -> (r: Option<usize>)
        ensures
            match r {
                Some(i) => node_idx(self@.nodes, id) == i as int && i < self@.nodes.len(),
                None => node_idx(self@.nodes, id) < 0,
            },
    {
        let n: usize = self.nodes.len();
        let mut i: usize = 0;
        while i < n
            invariant
                n == self@.nodes.len(),
                i <= n,
                forall|k: int| 0 <= k < i ==> node_id_key()(#[trigger] self@.nodes[k]) != id,
            decreases n - i,
        {
            if self.nodes[i].id == id {
                proof {
                    lemma_find_key_idx(self@.nodes, node_id_key(), id);
                    assert(node_id_key()(self@.nodes[i as int]) == id);
                }
                return Some(i);
            }
            i += 1;
        }
        proof {
            lemma_find_key_idx(self@.nodes, node_id_key(), id);
        }
        None
    }

    /// Record a node, overwriting any record with the same id.
    pub fn add_node(&mut self, node: NodeInfo)
        ensures
            final(self)@.nodes == (if node_idx(old(self)@.nodes, node.id) >= 0 {
                old(self)@.nodes.update(node_idx(old(self)@.nodes, node.id), node)
            } else {
                old(self)@.nodes.push(node)
            }),
            final(self)@.ports == old(self)@.ports,
            final(self)@.links == old(self)@.links,
            final(self)@.created_nodes == old(self)@.created_nodes,
            final(self)@.created_links == old(self)@.created_links,
            old(self).wf() ==> final(self).wf(),
    {
        proof {
            lemma_find_key_idx(old(self)@.nodes, node_id_key(), node.id);
        }
        let ghost oldn = self@.nodes;
        match self.node_position(node.id) {
            Some(i) => {
                self.nodes.set(i, node);
                proof {
                    let ii = node_idx(oldn, node.id);
                    assert(oldn[ii].id == node.id);
                    if old(self).wf() {
                        assert forall|a: int, b: int|
                            0 <= a < b < self@.nodes.len() implies (#[trigger] self@.nodes[a]).id
                            != (#[trigger] self@.nodes[b]).id by {
                            assert(self@.nodes[a].id == if a == ii {
                                node.id
                            } else {
                                oldn[a].id
                            });
                            assert(self@.nodes[b].id == if b == ii {
                                node.id
                            } else {
                                oldn[b].id
                            });
                        }
                    }
                }
            },
            None => {
                self.nodes.push(node);
                proof {
                    if old(self).wf() {
                        assert forall|a: int, b: int|
                            0 <= a < b < self@.nodes.len() implies (#[trigger] self@.nodes[a]).id
                            != (#[trigger] self@.nodes[b]).id by {
                            if b == self@.nodes.len() - 1 {
                                assert(node_id_key()(oldn[a]) != node.id);
                            }
                        }
                    }
                }
            },
        }
    }

    /// Forget the node with this id, if observed. Afterwards a lookup by
    /// this id returns absent.
    pub fn remove_node(&mut self, id: u32)
        requires
            old(self).wf(),
        ensures
            final(self)@.nodes == (if node_idx(old(self)@.nodes, id) >= 0 {
                old(self)@.nodes.remove(node_idx(old(self)@.nodes, id))
            } else {
                old(self)@.nodes
            }),
            final(self)@.ports == old(self)@.ports,
            final(self)@.links == old(self)@.links,
            final(self)@.created_nodes == old(self)@.created_nodes,
            final(self)@.created_links == old(self)@.created_links,
            final(self).wf(),
            spec_find_node(final(self)@.nodes, id) is None,
    {
        proof {
            lemma_find_key_idx(old(self)@.nodes, node_id_key(), id);
        }
        let ghost oldn = self@.nodes;
        match self.node_position(id) {
            Some(i) => {
                self.nodes.remove(i);
                proof {
                    let ii = node_idx(oldn, id);
                    assert(oldn[ii].id == id);
                    assert forall|a: int, b: int|
                        0 <= a < b < self@.nodes.len() implies (#[trigger] self@.nodes[a]).id != (
                    #[trigger] self@.nodes[b]).id by {
                        let a0: int = if a < ii {
                            a
                        } else {
                            a + 1
                        };
                        let b0: int = if b < ii {
                            b
                        } else {
                            b + 1
                        };
                        assert(self@.nodes[a] == oldn[a0]);
                        assert(self@.nodes[b] == oldn[b0]);
                    }
                    assert forall|j: int| 0 <= j < self@.nodes.len() implies node_id_key()(
                        #[trigger] self@.nodes[j],
                    ) != id by {
                        let j0: int = if j < ii {
                            j
                        } else {
                            j + 1
                        };
                        assert(self@.nodes[j] == oldn[j0]);
                        if j0 < ii {
                            assert(oldn[j0].id != oldn[ii].id);
                        } else {
                            assert(oldn[ii].id != oldn[j0].id);
                        }
                    }
                    lemma_find_key_idx_exists(self@.nodes, node_id_key(), id);
                }
            },
            None => {
                proof {
                    lemma_find_key_idx_exists(self@.nodes, node_id_key(), id);
                }
            },
        }
    }

    /// The node with this id, if observed.
    pub fn get_node(&self, id: u32) -> (r: Option<NodeInfo>)
        ensures
            r == spec_find_node(self@.nodes, id),
    {
        match self.node_position(id) {
            Some(i) => Some(self.nodes[i].clone()),
            None => None,
        }
    }

    /// The first observed node with this name, if any.
    pub fn get_node_by_name(&self, name: &str) -> (r: Option<NodeInfo>)
        ensures
            r == spec_find_node_by_name(self@.nodes, name@),
    {
        let n: usize = self.nodes.len();
        let mut i: usize = 0;
        while i < n
            invariant
                n == self@.nodes.len(),
                i <= n,
                forall|k: int| 0 <= k < i ==> node_name_key()(#[trigger] self@.nodes[k]) != name@,
            decreases n - i,
        {
            if str_eq(self.nodes[i].name.as_str(), name) {
                proof {
                    lemma_find_key_idx(self@.nodes, node_name_key(), name@);
                    assert(node_name_key()(self@.nodes[i as int]) == name@);
                }
                return Some(self.nodes[i].clone());
            }
            i += 1;
        }
        proof {
            lemma_find_key_idx(self@.nodes, node_name_key(), name@);
        }
        None
    }

    /// Whether some observed node bears this name.
    pub fn has_node_named(&self, name: &str) -> (r: bool)
        ensures
            r == node_name_present(self@.nodes, name@),
    {
        proof {
            lemma_find_key_idx_exists(self@.nodes, node_name_key(), name@);
        }
        match self.get_node_by_name(name) {
            Some(_) => true,
            None => false,
        }
    }

    /// Every observed node.
    pub fn get_all_nodes(&self) -> (r: Vec<NodeInfo>)
        ensures
            r@ == self@.nodes,
    {
        let mut out: Vec<NodeInfo> = Vec::new();
        let n: usize = self.nodes.len();
        let mut i: usize = 0;
        while i < n
            invariant
                n == self@.nodes.len(),
                i <= n,
                out@.len() == i,
                forall|k: int| 0 <= k < i ==> out@[k] == self@.nodes[k],
            decreases n - i,
        {
            out.push(self.nodes[i].clone());
            i += 1;
        }
        proof {
            assert(out@ =~= self@.nodes);
        }
        out
    }

    /// Position of the port with this id, if observed.
    fn port_position(&self, id: u32) -> (r: Option<usize>)
        ensures
            match r {
                Some(i) => port_idx(self@.ports, id) == i as int && i < self@.ports.len(),
                None => port_idx(self@.ports, id) < 0,
            },
    {
        let n: usize = self.ports.len();
        let mut i: usize = 0;
        while i < n
            invariant
                n == self@.ports.len(),
                i <= n,
                forall|k: int| 0 <= k < i ==> port_id_key()(#[trigger] self@.ports[k]) != id,
            decreases n - i,
        {
            if self.ports[i].id == id {
                proof {
                    lemma_find_key_idx(self@.ports, port_id_key(), id);
                    assert(port_id_key()(self@.ports[i as int]) == id);
                }
                return Some(i);
            }
            i += 1;
        }
        proof {
            lemma_find_key_idx(self@.ports, port_id_key(), id);
        }
        None
    }

    /// Record a port, overwriting any record with the same id.
    pub fn add_port(&mut self, port: PortInfo)
        ensures
            final(self)@.ports == (if port_idx(old(self)@.ports, port.id) >= 0 {
                old(self)@.ports.update(port_idx(old(self)@.ports, port.id), port)
            } else {
                old(self)@.ports.push(port)
            }),
            final(self)@.nodes == old(self)@.nodes,
            final(self)@.links == old(self)@.links,
            final(self)@.created_nodes == old(self)@.created_nodes,
            final(self)@.created_links == old(self)@.created_links,
            old(self).wf() ==> final(self).wf(),
    {
        let ghost gport = port;
        match self.port_position(port.id) {
            Some(i) => {
                self.ports.set(i, port);
            },
            None => {
                self.ports.push(port);
            },
        }
        proof {
            if old(self).wf() {
                assert(self@.nodes == old(self)@.nodes);
                assert(self@.links == old(self)@.links);
                assert(self@.created_nodes == old(self)@.created_nodes);
                assert(self@.created_links == old(self)@.created_links);
                assert(port_id_key()(gport) == gport.id);
                lemma_upsert_keeps_unique(old(self)@.ports, self@.ports, port_id_key(), gport);
                assert(self.wf());
            }
        }
    }

    /// Forget the port with this id, if observed.
    pub fn remove_port(&mut self, id: u32)
        requires
            old(self).wf(),
        ensures
            final(self)@.ports == (if port_idx(old(self)@.ports, id) >= 0 {
                old(self)@.ports.remove(port_idx(old(self)@.ports, id))
            } else {
                old(self)@.ports
            }),
            final(self)@.nodes == old(self)@.nodes,
            final(self)@.links == old(self)@.links,
            final(self)@.created_nodes == old(self)@.created_nodes,
            final(self)@.created_links == old(self)@.created_links,
            final(self).wf(),
    {
        match self.port_position(id) {
            Some(i) => {
                self.ports.remove(i);
                proof {
                    assert(self@.nodes == old(self)@.nodes);
                    assert(self@.links == old(self)@.links);
                    assert(self@.created_nodes == old(self)@.created_nodes);
                    assert(self@.created_links == old(self)@.created_links);
                    lemma_remove_keeps_unique(old(self)@.ports, self@.ports, port_id_key(), id);
                    assert(self.wf());
                }
            },
            None => {},
        }
    }

    /// Record a link, overwriting any record with the same id.
    pub fn add_link(&mut self, link: LinkInfo)
        ensures
            final(self)@.links == (if link_idx(old(self)@.links, link.id) >= 0 {
                old(self)@.links.update(link_idx(old(self)@.links, link.id), link)
            } else {
                old(self)@.links.push(link)
            }),
            final(self)@.nodes == old(self)@.nodes,
            final(self)@.ports == old(self)@.ports,
            final(self)@.created_nodes == old(self)@.created_nodes,
            final(self)@.created_links == old(self)@.created_links,
            old(self).wf() ==> final(self).wf(),
    {
        let ghost glink = link;
        match self.link_position(link.id) {
            Some(i) => {
                self.links.set(i, link);
            },
            None => {
                self.links.push(link);
            },
        }
        proof {
            if old(self).wf() {
                assert(self@.nodes == old(self)@.nodes);
                assert(self@.ports == old(self)@.ports);
                assert(self@.created_nodes == old(self)@.created_nodes);
                assert(self@.created_links == old(self)@.created_links);
                assert(link_id_key()(glink) == glink.id);
                lemma_upsert_keeps_unique(old(self)@.links, self@.links, link_id_key(), glink);
                assert(self.wf());
            }
        }
    }

    /// Position of the link with this id, if observed.
    fn link_position(&self, id: u32) -> (r: Option<usize>)
        ensures
            match r {
                Some(i) => link_idx(self@.links, id) == i as int && i < self@.links.len(),
                None => link_idx(self@.links, id) < 0,
            },
    {
        let n: usize = self.links.len();
        let mut i: usize = 0;
        while i < n
            invariant
                n == self@.links.len(),
                i <= n,
                forall|k: int| 0 <= k < i ==> link_id_key()(#[trigger] self@.links[k]) != id,
            decreases n - i,
        {
            if self.links[i].id == id {
                proof {
                    lemma_find_key_idx(self@.links, link_id_key(), id);
                    assert(link_id_key()(self@.links[i as int]) == id);
                }
                return Some(i);
            }
            i += 1;
        }
        proof {
            lemma_find_key_idx(self@.links, link_id_key(), id);
        }
        None
    }

    /// Forget the link with this id, if observed.
    pub fn remove_link(&mut self, id: u32)
        requires
            old(self).wf(),
        ensures
            final(self)@.links == (if link_idx(old(self)@.links, id) >= 0 {
                old(self)@.links.remove(link_idx(old(self)@.links, id))
            } else {
                old(self)@.links
            }),
            final(self)@.nodes == old(self)@.nodes,
            final(self)@.ports == old(self)@.ports,
            final(self)@.created_nodes == old(self)@.created_nodes,
            final(self)@.created_links == old(self)@.created_links,
            final(self).wf(),
    {
        match self.link_position(id) {
            Some(i) => {
                self.links.remove(i);
                proof {
                    assert(self@.nodes == old(self)@.nodes);
                    assert(self@.ports == old(self)@.ports);
                    assert(self@.created_nodes == old(self)@.created_nodes);
                    assert(self@.created_links == old(self)@.created_links);
                    lemma_remove_keeps_unique(old(self)@.links, self@.links, link_id_key(), id);
                    assert(self.wf());
                }
            },
            None => {},
        }
    }

    /// The link with this id, if observed.
    pub fn get_link(&self, id: u32) -> (r: Option<LinkInfo>)
        ensures
            r == spec_find_link(self@.links, id),
    {
        match self.link_position(id) {
            Some(i) => Some(self.links[i]),
            None => None,
        }
    }

    /// Every observed link.
    pub fn get_all_links(&self) -> (r: Vec<LinkInfo>)
        ensures
            r@ == self@.links,
    {
        let mut out: Vec<LinkInfo> = Vec::new();
        let n: usize = self.links.len();
        let mut i: usize = 0;
        while i < n
            invariant
                n == self@.links.len(),
                i <= n,
                out@.len() == i,
                forall|k: int| 0 <= k < i ==> out@[k] == self@.links[k],
            decreases n - i,
        {
            out.push(self.links[i]);
            i += 1;
        }
        proof {
            assert(out@ =~= self@.links);
        }
        out
    }

    /// Whether some observed link runs from `output_node` to `input_node`.
    pub fn has_link(&self, output_node: u32, input_node: u32) -> (r: bool)
        ensures
            r == spec_has_link(self@.links, output_node, input_node),
    {
        let n: usize = self.links.len();
        let mut i: usize = 0;
        while i < n
            invariant
                n == self@.links.len(),
                i <= n,
                forall|k: int|
                    0 <= k < i ==> !((#[trigger] self@.links[k]).output_node == output_node
                        && self@.links[k].input_node == input_node),
            decreases n - i,
        {
            if self.links[i].output_node == output_node && self.links[i].input_node == input_node {
                return true;
            }
            i += 1;
        }
        false
    }

    /// All ports of this node.
    pub fn get_ports_for_node(&self, node_id: u32) -> (r: Vec<PortInfo>)
        ensures
            r@ == self@.ports.filter(port_of_node(node_id)),
    {
        let mut out: Vec<PortInfo> = Vec::new();
        let n: usize = self.ports.len();
        let mut i: usize = 0;
        proof {
            assert(self@.ports.subrange(0, 0).filter(port_of_node(node_id)) =~= Seq::<
                PortInfo,
            >::empty());
        }
        while i < n
            invariant
                n == self@.ports.len(),
                i <= n,
                out@ == self@.ports.subrange(0, i as int).filter(port_of_node(node_id)),
            decreases n - i,
        {
            proof {
                lemma_filter_step(self@.ports, port_of_node(node_id), i as int);
                assert(port_of_node(node_id)(self@.ports[i as int]) == (
                self@.ports[i as int].node_id == node_id));
            }
            if self.ports[i].node_id == node_id {
                out.push(self.ports[i].clone());
            }
            i += 1;
        }
        proof {
            assert(self@.ports.subrange(0, n as int) =~= self@.ports);
        }
        out
    }

    /// The ports of this node with this direction.
    fn ports_with_direction(&self, node_id: u32, dir: PortDirection) -> (r: Vec<PortInfo>)
        ensures
            r@ == self@.ports.filter(port_of_node_dir(node_id, dir)),
    {
        let mut out: Vec<PortInfo> = Vec::new();
        let n: usize = self.ports.len();
        let mut i: usize = 0;
        proof {
            assert(self@.ports.subrange(0, 0).filter(port_of_node_dir(node_id, dir)) =~= Seq::<
                PortInfo,
            >::empty());
        }
        while i < n
            invariant
                n == self@.ports.len(),
                i <= n,
                out@ == self@.ports.subrange(0, i as int).filter(port_of_node_dir(node_id, dir)),
            decreases n - i,
        {
            proof {
                lemma_filter_step(self@.ports, port_of_node_dir(node_id, dir), i as int);
                assert(port_of_node_dir(node_id, dir)(self@.ports[i as int]) == (
                self@.ports[i as int].node_id == node_id && self@.ports[i as int].direction
                    == dir));
            }
            if self.ports[i].node_id == node_id && self.ports[i].direction == dir {
                out.push(self.ports[i].clone());
            }
            i += 1;
        }
        proof {
            assert(self@.ports.subrange(0, n as int) =~= self@.ports);
        }
        out
    }

    /// The input ports of this node.
    pub fn get_input_ports(&self, node_id: u32) -> (r: Vec<PortInfo>)
        ensures
            r@ == self@.ports.filter(port_of_node_dir(node_id, PortDirection::Input)),
    {
        self.ports_with_direction(node_id, PortDirection::Input)
    }

    /// The output ports of this node (for a sink: its monitor ports).
    pub fn get_output_ports(&self, node_id: u32) -> (r: Vec<PortInfo>)
        ensures
            r@ == self@.ports.filter(port_of_node_dir(node_id, PortDirection::Output)),
    {
        self.ports_with_direction(node_id, PortDirection::Output)
    }

    /// The first port of this node bearing this name, if any.
    pub fn get_port_by_name(&self, node_id: u32, port_name: &str) -> (r: Option<PortInfo>)
        ensures
            ({
                let i = find_key_idx(self@.ports, port_name_pred(node_id, port_name@), true);
                r == (if i >= 0 {
                    Some(self@.ports[i])
                } else {
                    None::<PortInfo>
                })
            }),
    {
        let n: usize = self.ports.len();
        let mut i: usize = 0;
        while i < n
            invariant
                n == self@.ports.len(),
                i <= n,
                forall|k: int|
                    0 <= k < i ==> port_name_pred(node_id, port_name@)(
                        #[trigger] self@.ports[k],
                    ) != true,
            decreases n - i,
        {
            if self.ports[i].node_id == node_id && str_eq(self.ports[i].name.as_str(), port_name) {
                proof {
                    lemma_find_key_idx(self@.ports, port_name_pred(node_id, port_name@), true);
                    assert(port_name_pred(node_id, port_name@)(self@.ports[i as int]) == true);
                }
                return Some(self.ports[i].clone());
            }
            proof {
                assert(port_name_pred(node_id, port_name@)(self@.ports[i as int]) != true);
            }
            i += 1;
        }
        proof {
            lemma_find_key_idx(self@.ports, port_name_pred(node_id, port_name@), true);
        }
        None
    }

    /// The first port of this node with this direction and channel
    /// position label, if any.
    pub fn get_port_by_channel(&self, node_id: u32, direction: PortDirection, channel: &str) -> (r:
        Option<PortInfo>)
        ensures
            ({
                let i = find_key_idx(
                    self@.ports,
                    port_channel_pred(node_id, direction, channel@),
                    true,
                );
                r == (if i >= 0 {
                    Some(self@.ports[i])
                } else {
                    None::<PortInfo>
                })
            }),
    {
        let n: usize = self.ports.len();
        let mut i: usize = 0;
        while i < n
            invariant
                n == self@.ports.len(),
                i <= n,
                forall|k: int|
                    0 <= k < i ==> port_channel_pred(node_id, direction, channel@)(
                        #[trigger] self@.ports[k],
                    ) != true,
            decreases n - i,
        {
            let hit = self.ports[i].node_id == node_id && self.ports[i].direction == direction
                && match &self.ports[i].channel {
                Some(c) => str_eq(c.as_str(), channel),
                None => false,
            };
            proof {
                assert(port_channel_pred(node_id, direction, channel@)(self@.ports[i as int])
                    == hit);
            }
            if hit {
                proof {
                    lemma_find_key_idx(
                        self@.ports,
                        port_channel_pred(node_id, direction, channel@),
                        true,
                    );
                }
                return Some(self.ports[i].clone());
            }
            i += 1;
        }
        proof {
            lemma_find_key_idx(self@.ports, port_channel_pred(node_id, direction, channel@), true);
        }
        None
    }

    /// All links touching this node, as source or destination.
    pub fn get_links_for_node(&self, node_id: u32) -> (r: Vec<LinkInfo>)
        ensures
            r@ == self@.links.filter(link_touches(node_id)),
    {
        let mut out: Vec<LinkInfo> = Vec::new();
        let n: usize = self.links.len();
        let mut i: usize = 0;
        proof {
            assert(self@.links.subrange(0, 0).filter(link_touches(node_id)) =~= Seq::<
                LinkInfo,
            >::empty());
        }
        while i < n
            invariant
                n == self@.links.len(),
                i <= n,
                out@ == self@.links.subrange(0, i as int).filter(link_touches(node_id)),
            decreases n - i,
        {
            proof {
                lemma_filter_step(self@.links, link_touches(node_id), i as int);
                assert(link_touches(node_id)(self@.links[i as int]) == (
                self@.links[i as int].output_node == node_id || self@.links[i as int].input_node
                    == node_id));
            }
            if self.links[i].output_node == node_id || self.links[i].input_node == node_id {
                out.push(self.links[i]);
            }
            i += 1;
        }
        proof {
            assert(self@.links.subrange(0, n as int) =~= self@.links);
        }
        out
    }

    /// All nodes of the target capture device.
    pub fn get_wave3_nodes(&self) -> (r: Vec<NodeInfo>)
        ensures
            r@ == self@.nodes.filter(wave3_pred()),
    {
        let mut out: Vec<NodeInfo> = Vec::new();
        let n: usize = self.nodes.len();
        let mut i: usize = 0;
        proof {
            assert(self@.nodes.subrange(0, 0).filter(wave3_pred()) =~= Seq::<NodeInfo>::empty());
        }
        while i < n
            invariant
                n == self@.nodes.len(),
                i <= n,
                out@ == self@.nodes.subrange(0, i as int).filter(wave3_pred()),
            decreases n - i,
        {
            proof {
                lemma_filter_step(self@.nodes, wave3_pred(), i as int);
                assert(wave3_pred()(self@.nodes[i as int]) == self@.nodes[i as int].spec_is_wave3(
                ));
            }
            if self.nodes[i].is_wave3() {
                out.push(self.nodes[i].clone());
            }
            i += 1;
        }
        proof {
            assert(self@.nodes.subrange(0, n as int) =~= self@.nodes);
        }
        out
    }

    /// All of this process's channel sink nodes.
    pub fn get_undertone_channels(&self) -> (r: Vec<NodeInfo>)
        ensures
            r@ == self@.nodes.filter(undertone_channel_pred()),
    {
        let mut out: Vec<NodeInfo> = Vec::new();
        let n: usize = self.nodes.len();
        let mut i: usize = 0;
        proof {
            assert(self@.nodes.subrange(0, 0).filter(undertone_channel_pred()) =~= Seq::<
                NodeInfo,
            >::empty());
        }
        while i < n
            invariant
                n == self@.nodes.len(),
                i <= n,
                out@ == self@.nodes.subrange(0, i as int).filter(undertone_channel_pred()),
            decreases n - i,
        {
            proof {
                lemma_filter_step(self@.nodes, undertone_channel_pred(), i as int);
                assert(undertone_channel_pred()(self@.nodes[i as int]) == self@.nodes[
                    i as int
                ].spec_is_undertone_channel());
            }
            if self.nodes[i].is_undertone_channel() {
                out.push(self.nodes[i].clone());
            }
            i += 1;
        }
        proof {
            assert(self@.nodes.subrange(0, n as int) =~= self@.nodes);
        }
        out
    }

    /// All unmanaged application audio streams.
    pub fn get_audio_clients(&self) -> (r: Vec<NodeInfo>)
        ensures
            r@ == self@.nodes.filter(audio_client_pred()),
    {
        let mut out: Vec<NodeInfo> = Vec::new();
        let n: usize = self.nodes.len();
        let mut i: usize = 0;
        proof {
            assert(self@.nodes.subrange(0, 0).filter(audio_client_pred()) =~= Seq::<
                NodeInfo,
            >::empty());
        }
        while i < n
            invariant
                n == self@.nodes.len(),
                i <= n,
                out@ == self@.nodes.subrange(0, i as int).filter(audio_client_pred()),
            decreases n - i,
        {
            proof {
                lemma_filter_step(self@.nodes, audio_client_pred(), i as int);
                assert(audio_client_pred()(self@.nodes[i as int]) == spec_is_audio_client(
                    self@.nodes[i as int],
                ));
            }
            if self.nodes[i].is_audio_client() {
                out.push(self.nodes[i].clone());
            }
            i += 1;
        }
        proof {
            assert(self@.nodes.subrange(0, n as int) =~= self@.nodes);
        }
        out
    }

    /// All selectable physical output sinks.
    pub fn get_audio_output_devices(&self) -> (r: Vec<NodeInfo>)
        ensures
            r@ == self@.nodes.filter(output_device_pred()),
    {
        let mut out: Vec<NodeInfo> = Vec::new();
        let n: usize = self.nodes.len();
        let mut i: usize = 0;
        proof {
            assert(self@.nodes.subrange(0, 0).filter(output_device_pred()) =~= Seq::<
                NodeInfo,
            >::empty());
        }
        while i < n
            invariant
                n == self@.nodes.len(),
                i <= n,
                out@ == self@.nodes.subrange(0, i as int).filter(output_device_pred()),
            decreases n - i,
        {
            proof {
                lemma_filter_step(self@.nodes, output_device_pred(), i as int);
                assert(output_device_pred()(self@.nodes[i as int]) == spec_is_output_device(
                    self@.nodes[i as int],
                ));
            }
            if self.nodes[i].is_output_device() {
                out.push(self.nodes[i].clone());
            }
            i += 1;
        }
        proof {
            assert(self@.nodes.subrange(0, n as int) =~= self@.nodes);
        }
        out
    }

    /// Position of the first node matching the headphone-sink criteria.
    fn wave3_sink_position(&self) -> (r: Option<usize>)
        ensures
            ({
                let j = find_key_idx(self@.nodes, wave3_sink_pred(), true);
                match r {
                    Some(i) => j == i as int && i < self@.nodes.len(),
                    None => j < 0,
                }
            }),
    {
        let n: usize = self.nodes.len();
        let mut i: usize = 0;
        while i < n
            invariant
                n == self@.nodes.len(),
                i <= n,
                forall|k: int| 0 <= k < i ==> wave3_sink_pred()(#[trigger] self@.nodes[k]) != true,
            decreases n - i,
        {
            let hit = self.nodes[i].matches_wave3_sink();
            proof {
                assert(wave3_sink_pred()(self@.nodes[i as int]) == wave3_sink_match(
                    self@.nodes[i as int],
                ));
            }
            if hit {
                proof {
                    lemma_find_key_idx(self@.nodes, wave3_sink_pred(), true);
                }
                return Some(i);
            }
            i += 1;
        }
        proof {
            lemma_find_key_idx(self@.nodes, wave3_sink_pred(), true);
        }
        None
    }

    /// Find the target device's headphone sink: first under its
    /// conventional name, else by its device ids or name.
    pub fn find_wave3_sink(&self) -> (r: Option<NodeInfo>)
        ensures
            r == spec_find_wave3_sink(self@.nodes),
    {
        match self.get_node_by_name("wave3-sink") {
            Some(node) => Some(node),
            None => {
                match self.wave3_sink_position() {
                    Some(i) => Some(self.nodes[i].clone()),
                    None => None,
                }
            },
        }
    }

    /// Position of the first node matching the microphone-source criteria.
    fn wave3_source_position(&self) -> (r: Option<usize>)
        ensures
            ({
                let j = find_key_idx(self@.nodes, wave3_source_pred(), true);
                match r {
                    Some(i) => j == i as int && i < self@.nodes.len(),
                    None => j < 0,
                }
            }),
    {
        let n: usize = self.nodes.len();
        let mut i: usize = 0;
        while i < n
            invariant
                n == self@.nodes.len(),
                i <= n,
                forall|k: int|
                    0 <= k < i ==> wave3_source_pred()(#[trigger] self@.nodes[k]) != true,
            decreases n - i,
        {
            let hit = self.nodes[i].matches_wave3_source();
            proof {
                assert(wave3_source_pred()(self@.nodes[i as int]) == wave3_source_match(
                    self@.nodes[i as int],
                ));
            }
            if hit {
                proof {
                    lemma_find_key_idx(self@.nodes, wave3_source_pred(), true);
                }
                return Some(i);
            }
            i += 1;
        }
        proof {
            lemma_find_key_idx(self@.nodes, wave3_source_pred(), true);
        }
        None
    }

    /// Find the target device's microphone source: first under its
    /// conventional name, else by its name or device class.
    pub fn find_wave3_source(&self) -> (r: Option<NodeInfo>)
        ensures
            r == spec_find_wave3_source(self@.nodes),
    {
        match self.get_node_by_name("wave3-source") {
            Some(node) => Some(node),
            None => {
                match self.wave3_source_position() {
                    Some(i) => Some(self.nodes[i].clone()),
                    None => None,
                }
            },
        }
    }

    /// Whether a link with these endpoint names is observed.
    pub fn link_present_by_names(
        &self,
        out_node: &str,
        out_port: &str,
        in_node: &str,
        in_port: &str,
    ) -> (r: bool)
        ensures
            r == spec_link_present(self@, out_node@, out_port@, in_node@, in_port@),
    {
        let n: usize = self.links.len();
        let mut i: usize = 0;
        while i < n
            invariant
                n == self@.links.len(),
                i <= n,
                forall|k: int|
                    0 <= k < i ==> !link_matches_names(
                        self@,
                        #[trigger] self@.links[k],
                        out_node@,
                        out_port@,
                        in_node@,
                        in_port@,
                    ),
            decreases n - i,
        {
            let l = self.links[i];
            let out_ok = match self.get_node(l.output_node) {
                Some(a) => str_eq(a.name.as_str(), out_node),
                None => false,
            };
            let out_port_ok = match self.get_port(l.output_port) {
                Some(p) => str_eq(p.name.as_str(), out_port),
                None => false,
            };
            let in_ok = match self.get_node(l.input_node) {
                Some(b) => str_eq(b.name.as_str(), in_node),
                None => false,
            };
            let in_port_ok = match self.get_port(l.input_port) {
                Some(q) => str_eq(q.name.as_str(), in_port),
                None => false,
            };
            if out_ok && out_port_ok && in_ok && in_port_ok {
                return true;
            }
            i += 1;
        }
        false
    }

    /// The port with this id, if observed.
    pub fn get_port(&self, id: u32) -> (r: Option<PortInfo>)
        ensures
            r == spec_find_port(self@.ports, id),
    {
        match self.port_position(id) {
            Some(i) => Some(self.ports[i].clone()),
            None => None,
        }
    }

    /// Position of the created-node record with this name, if present.
    fn created_node_position(&self, name: &str) -> (r: Option<usize>)
        ensures
            match r {
                Some(i) => created_idx(self@.created_nodes, name@) == i as int && i
                    < self@.created_nodes.len(),
                None => created_idx(self@.created_nodes, name@) < 0,
            },
    {
        let n: usize = self.created_nodes.len();
        let mut i: usize = 0;
        while i < n
            invariant
                n == self@.created_nodes.len(),
                i <= n,
                forall|k: int|
                    0 <= k < i ==> created_name_key()(#[trigger] self@.created_nodes[k]) != name@,
            decreases n - i,
        {
            if str_eq(self.created_nodes[i].name.as_str(), name) {
                proof {
                    lemma_find_key_idx(self@.created_nodes, created_name_key(), name@);
                    assert(created_name_key()(self@.created_nodes[i as int]) == name@);
                }
                return Some(i);
            }
            i += 1;
        }
        proof {
            lemma_find_key_idx(self@.created_nodes, created_name_key(), name@);
        }
        None
    }

    /// Record that this process created a node under this logical name.
    pub fn record_created_node(&mut self, name: String, id: u32)
        ensures
            final(self)@.created_nodes == (if created_idx(old(self)@.created_nodes, name@) >= 0 {
                old(self)@.created_nodes.update(
                    created_idx(old(self)@.created_nodes, name@),
                    CreatedEntry { name, id },
                )
            } else {
                old(self)@.created_nodes.push(CreatedEntry { name, id })
            }),
            final(self)@.nodes == old(self)@.nodes,
            final(self)@.ports == old(self)@.ports,
            final(self)@.links == old(self)@.links,
            final(self)@.created_links == old(self)@.created_links,
            old(self).wf() ==> final(self).wf(),
            spec_created_id(final(self)@.created_nodes, name@) == Some(id),
    {
        let ghost gname = name@;
        let entry = CreatedEntry { name, id };
        let ghost gentry = entry;
        let pos = self.created_node_position(entry.name.as_str());
        match pos {
            Some(i) => {
                self.created_nodes.set(i, entry);
            },
            None => {
                self.created_nodes.push(entry);
            },
        }
        proof {
            assert(created_name_key()(gentry) == gname);
            if old(self).wf() {
                assert(self@.nodes == old(self)@.nodes);
                assert(self@.ports == old(self)@.ports);
                assert(self@.links == old(self)@.links);
                assert(self@.created_links == old(self)@.created_links);
                lemma_upsert_keeps_unique(
                    old(self)@.created_nodes,
                    self@.created_nodes,
                    created_name_key(),
                    gentry,
                );
                assert(self.wf());
            }
            lemma_find_key_idx(old(self)@.created_nodes, created_name_key(), gname);
            lemma_find_key_idx(self@.created_nodes, created_name_key(), gname);
            let io = created_idx(old(self)@.created_nodes, gname);
            let i2 = created_idx(self@.created_nodes, gname);
            if io >= 0 {
                assert(self@.created_nodes[io] == gentry);
                assert forall|j: int| 0 <= j < io implies created_name_key()(
                    #[trigger] self@.created_nodes[j],
                ) != gname by {
                    assert(self@.created_nodes[j] == old(self)@.created_nodes[j]);
                }
                assert(i2 == io);
            } else {
                let last = self@.created_nodes.len() - 1;
                assert(self@.created_nodes[last] == gentry);
                assert forall|j: int| 0 <= j < last implies created_name_key()(
                    #[trigger] self@.created_nodes[j],
                ) != gname by {
                    assert(self@.created_nodes[j] == old(self)@.created_nodes[j]);
                }
                assert(i2 == last);
            }
        }
    }

    /// Position of the created-link record with this name, if present.
    fn created_link_position(&self, name: &str) -> (r: Option<usize>)
        ensures
            match r {
                Some(i) => created_idx(self@.created_links, name@) == i as int && i
                    < self@.created_links.len(),
                None => created_idx(self@.created_links, name@) < 0,
            },
    {
        let n: usize = self.created_links.len();
        let mut i: usize = 0;
        while i < n
            invariant
                n == self@.created_links.len(),
                i <= n,
                forall|k: int|
                    0 <= k < i ==> created_name_key()(#[trigger] self@.created_links[k]) != name@,
            decreases n - i,
        {
            if str_eq(self.created_links[i].name.as_str(), name) {
                proof {
                    lemma_find_key_idx(self@.created_links, created_name_key(), name@);
                    assert(created_name_key()(self@.created_links[i as int]) == name@);
                }
                return Some(i);
            }
            i += 1;
        }
        proof {
            lemma_find_key_idx(self@.created_links, created_name_key(), name@);
        }
        None
    }

    /// Record that this process created a link under this description.
    pub fn record_created_link(&mut self, name: String, id: u32)
        ensures
            final(self)@.created_links == (if created_idx(old(self)@.created_links, name@) >= 0 {
                old(self)@.created_links.update(
                    created_idx(old(self)@.created_links, name@),
                    CreatedEntry { name, id },
                )
            } else {
                old(self)@.created_links.push(CreatedEntry { name, id })
            }),
            final(self)@.nodes == old(self)@.nodes,
            final(self)@.ports == old(self)@.ports,
            final(self)@.links == old(self)@.links,
            final(self)@.created_nodes == old(self)@.created_nodes,
            old(self).wf() ==> final(self).wf(),
            spec_created_id(final(self)@.created_links, name@) == Some(id),
    {
        let ghost gname = name@;
        let entry = CreatedEntry { name, id };
        let ghost gentry = entry;
        let pos = self.created_link_position(entry.name.as_str());
        match pos {
            Some(i) => {
                self.created_links.set(i, entry);
            },
            None => {
                self.created_links.push(entry);
            },
        }
        proof {
            assert(created_name_key()(gentry) == gname);
            if old(self).wf() {
                assert(self@.nodes == old(self)@.nodes);
                assert(self@.ports == old(self)@.ports);
                assert(self@.links == old(self)@.links);
                assert(self@.created_nodes == old(self)@.created_nodes);
                lemma_upsert_keeps_unique(
                    old(self)@.created_links,
                    self@.created_links,
                    created_name_key(),
                    gentry,
                );
                assert(self.wf());
            }
            lemma_find_key_idx(old(self)@.created_links, created_name_key(), gname);
            lemma_find_key_idx(self@.created_links, created_name_key(), gname);
            let io = created_idx(old(self)@.created_links, gname);
            let i2 = created_idx(self@.created_links, gname);
            if io >= 0 {
                assert(self@.created_links[io] == gentry);
                assert forall|j: int| 0 <= j < io implies created_name_key()(
                    #[trigger] self@.created_links[j],
                ) != gname by {
                    assert(self@.created_links[j] == old(self)@.created_links[j]);
                }
                assert(i2 == io);
            } else {
                let last = self@.created_links.len() - 1;
                assert(self@.created_links[last] == gentry);
                assert forall|j: int| 0 <= j < last implies created_name_key()(
                    #[trigger] self@.created_links[j],
                ) != gname by {
                    assert(self@.created_links[j] == old(self)@.created_links[j]);
                }
                assert(i2 == last);
            }
        }
    }

    /// The id of the node this process created under this name, if any.
    pub fn get_created_node_id(&self, name: &str) -> (r: Option<u32>)
        ensures
            r == spec_created_id(self@.created_nodes, name@),
    {
        match self.created_node_position(name) {
            Some(i) => Some(self.created_nodes[i].id),
            None => None,
        }
    }

    /// Whether this process recorded a created link under this description.
    pub fn has_created_link(&self, name: &str) -> (r: bool)
        ensures
            r == (spec_created_id(self@.created_links, name@) is Some),
    {
        match self.created_link_position(name) {
            Some(_) => true,
            None => false,
        }
    }

    /// Whether every one of the expected names has a created-node record.
    pub fn has_all_undertone_nodes(&self, expected: &[&str]) -> (r: bool)
        ensures
            r == (forall|k: int|
                0 <= k < expected@.len() ==> spec_created_id(
                    self@.created_nodes,
                    (#[trigger] expected@[k])@,
                ) is Some),
    {
        let n: usize = expected.len();
        let mut i: usize = 0;
        while i < n
            invariant
                n == expected@.len(),
                i <= n,
                forall|k: int|
                    0 <= k < i ==> spec_created_id(
                        self@.created_nodes,
                        (#[trigger] expected@[k])@,
                    ) is Some,
            decreases n - i,
        {
            match self.get_created_node_id(expected[i]) {
                Some(_) => {},
                None => {
                    return false;
                },
            }
            i += 1;
        }
        true
    }

    /// Every created-node record.
    pub fn get_created_nodes(&self) -> (r: Vec<CreatedEntry>)
        ensures
            r@ == self@.created_nodes,
    {
        let mut out: Vec<CreatedEntry> = Vec::new();
        let n: usize = self.created_nodes.len();
        let mut i: usize = 0;
        while i < n
            invariant
                n == self@.created_nodes.len(),
                i <= n,
                out@.len() == i,
                forall|k: int| 0 <= k < i ==> out@[k] == self@.created_nodes[k],
            decreases n - i,
        {
            out.push(self.created_nodes[i].clone());
            i += 1;
        }
        proof {
            assert(out@ =~= self@.created_nodes);
        }
        out
    }

    /// Every created-link record.
    pub fn get_created_links(&self) -> (r: Vec<CreatedEntry>)
        ensures
            r@ == self@.created_links,
    {
        let mut out: Vec<CreatedEntry> = Vec::new();
        let n: usize = self.created_links.len();
        let mut i: usize = 0;
        while i < n
            invariant
                n == self@.created_links.len(),
                i <= n,
                out@.len() == i,
                forall|k: int| 0 <= k < i ==> out@[k] == self@.created_links[k],
            decreases n - i,
        {
            out.push(self.created_links[i].clone());
            i += 1;
        }
        proof {
            assert(out@ =~= self@.created_links);
        }
        out
    }
}

} // verus!
