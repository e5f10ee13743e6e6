//! Ingestion of registry events: from raw property dictionaries to typed
//! records, cache updates and graph events.
//!
//! The audio-server thread observes *global added* and *global removed*
//! registry events and hands their raw form to these functions; they
//! build the typed records, update the cache, and synthesize the events
//! the event loop consumes: device detection by the conventional sink
//! name, and client detection by media class for unmanaged streams.

use vstd::prelude::*;
use vstd::string::StringExecFns;
use crate::graph::GraphManager;
use crate::graph::LinkInfo;
use crate::graph::LinkState;
use crate::graph::NodeInfo;
use crate::graph::PortDirection;
use crate::graph::PortInfo;
use crate::graph::link_idx;
use crate::graph::node_idx;
use crate::graph::port_idx;
use crate::graph::spec_find_node;
use crate::graph::spec_is_audio_client;
use crate::seqtools::find_key_idx;
use crate::seqtools::lemma_find_key_idx;
use crate::strutil::all_digits;
use crate::strutil::digits_value;
use crate::strutil::parse_u32;
use crate::strutil::str_eq;

verus! {

/// What kind of object a registry event concerns.
#[derive(Debug, Clone, Copy, PartialEq, Eq, Structural)]
pub enum ObjectKind {
    /// A node.
    Node,
    /// A port.
    Port,
    /// A link.
    Link,
    /// Anything else; ignored.
    Other,
}

/// A raw *global added* registry event: the object's id, kind, and
/// property dictionary in observation order.
#[derive(Debug)]
pub struct RegistryGlobal {
    /// Server-assigned object id.
    pub id: u32,
    /// Kind of object.
    pub kind: ObjectKind,
    /// Properties, key-value pairs.
    pub props: Vec<(String, String)>,
}

/// A typed event observed on the audio graph.
#[derive(Debug)]
pub enum GraphEvent {
    /// The connection to the audio server is up.
    Connected,
    /// The connection to the audio server was lost.
    Disconnected,
    /// A node appeared.
    NodeAdded(NodeInfo),
    /// A node went away.
    NodeRemoved {
        /// Its id.
        id: u32,
        /// Its last observed name.
        name: String,
    },
    /// A port appeared.
    PortAdded(PortInfo),
    /// A port went away.
    PortRemoved {
        /// Its id.
        id: u32,
    },
    /// A link appeared.
    LinkCreated {
        /// Its id.
        id: u32,
        /// Its source node id.
        output_node: u32,
        /// Its destination node id.
        input_node: u32,
    },
    /// A link went away.
    LinkRemoved {
        /// Its id.
        id: u32,
    },
    /// The target device appeared, with its serial number.
    Wave3Detected {
        /// Device serial number, or `unknown`.
        serial: String,
    },
    /// The target device went away.
    Wave3Removed,
    /// An unmanaged application audio stream appeared.
    ClientAppeared {
        /// Its node id.
        id: u32,
        /// Its application name, or its node name when unnamed.
        name: String,
        /// Its process id, when known.
        pid: Option<u32>,
    },
    /// An application audio stream went away.
    ClientDisappeared {
        /// Its node id.
        id: u32,
    },
}

/// Key extractor for property pairs.
pub open spec fn prop_key() -> spec_fn((String, String)) -> Seq<char> {
    |p: (String, String)| p.0@
}

/// The first value recorded under `key`, if any.
pub open spec fn spec_prop(props: Seq<(String, String)>, key: Seq<char>) -> Option<Seq<char>> {
    let i = find_key_idx(props, prop_key(), key);
    if i >= 0 {
        Some(props[i].1@)
    } else {
        None
    }
}

/// A string option seen as an option of its text.
pub open spec fn opt_view(o: Option<String>) -> Option<Seq<char>> {
    match o {
        Some(s) => Some(s@),
        None => None,
    }
}

/// Look up the first value recorded under `key`.
pub fn lookup_prop(props: &Vec<(String, String)>, key: &str) -> (r: Option<String>)
    ensures
        opt_view(r) == spec_prop(props@, key@),
{
    let n: usize = props.len();
    let mut i: usize = 0;
    while i < n
        invariant
            n == props@.len(),
            i <= n,
            forall|k: int| 0 <= k < i ==> prop_key()(#[trigger] props@[k]) != key@,
        decreases n - i,
    {
        if str_eq(props[i].0.as_str(), key) {
            proof {
                lemma_find_key_idx(props@, prop_key(), key@);
                assert(prop_key()(props@[i as int]) == key@);
            }
            return Some(props[i].1.clone());
        }
        i += 1;
    }
    proof {
        lemma_find_key_idx(props@, prop_key(), key@);
    }
    None
}

/// The value stored under `key`, or the text `unknown`.
fn prop_or_unknown(props: &Vec<(String, String)>, key: &str) -> (r: String)
    ensures
        match spec_prop(props@, key@) {
            Some(v) => r@ == v,
            None => r@ == "unknown"@,
        },
{
    match lookup_prop(props, key) {
        Some(v) => v,
        None => String::from_str("unknown"),
    }
}

/// The value stored under `key` parsed as a `u32`, when it is a plain
/// run of decimal digits in range.
fn prop_u32(props: &Vec<(String, String)>, key: &str) -> (r: Option<u32>)
    ensures
        match spec_prop(props@, key@) {
            Some(v) => r == (if v.len() > 0 && all_digits(v) && digits_value(v) <= u32::MAX {
                Some(digits_value(v) as u32)
            } else {
                None::<u32>
            }),
            None => r is None,
        },
{
    match lookup_prop(props, key) {
        Some(v) => {
            let parsed = parse_u32(v.as_str());
            proof {
                if parsed is Some {
                    assert(digits_value(v@) == parsed->0);
                }
            }
            parsed
        },
        None => None,
    }
}

/// The node name recorded in the properties, or `unknown`.
pub open spec fn spec_node_name(props: Seq<(String, String)>) -> Seq<char> {
    match spec_prop(props, "node.name"@) {
        Some(v) => v,
        None => "unknown"@,
    }
}

/// Whether the properties mark a node as managed by this process: the
/// marker property is authoritative; the managed name prefixes are
/// honoured as well.
pub open spec fn spec_is_managed(props: Seq<(String, String)>) -> bool {
    ||| spec_prop(props, "undertone.managed"@) is Some
    ||| "ch-"@.is_prefix_of(spec_node_name(props))
    ||| "stream-"@.is_prefix_of(spec_node_name(props))
    ||| "monitor-"@.is_prefix_of(spec_node_name(props))
}

/// An optional id, defaulting to zero when unreadable.
pub open spec fn unwrap_or_zero(v: Option<u32>) -> u32 {
    match v {
        Some(x) => x,
        None => 0u32,
    }
}

/// The value stored under `key` read as a `u32`: digits only, in range.
pub open spec fn spec_prop_u32(props: Seq<(String, String)>, key: Seq<char>) -> Option<u32> {
    match spec_prop(props, key) {
        Some(v) => if v.len() > 0 && all_digits(v) && digits_value(v) <= u32::MAX {
            Some(digits_value(v) as u32)
        } else {
            None
        },
        None => None,
    }
}

/// The value stored under `key`, or the text `unknown`.
pub open spec fn spec_prop_or_unknown(props: Seq<(String, String)>, key: Seq<char>) -> Seq<char> {
    match spec_prop(props, key) {
        Some(v) => v,
        None => "unknown"@,
    }
}

/// Whether `n` is exactly the node record read from these properties.
pub open spec fn node_record_matches(id: u32, props: Seq<(String, String)>, n: NodeInfo) -> bool {
    &&& n.id == id
    &&& n.name@ == spec_node_name(props)
    &&& opt_view(n.description) == spec_prop(props, "node.description"@)
    &&& opt_view(n.media_class) == spec_prop(props, "media.class"@)
    &&& opt_view(n.application_name) == spec_prop(props, "application.name"@)
    &&& opt_view(n.binary_name) == spec_prop(props, "application.process.binary"@)
    &&& n.pid == spec_prop_u32(props, "application.process.id"@)
    &&& opt_view(n.device_serial) == spec_prop(props, "device.serial"@)
    &&& opt_view(n.device_vendor_id) == spec_prop(props, "device.vendor.id"@)
    &&& opt_view(n.device_product_id) == spec_prop(props, "device.product.id"@)
    &&& n.is_undertone_managed == spec_is_managed(props)
}

/// Whether `p` is exactly the port record read from these properties.
pub open spec fn port_record_matches(id: u32, props: Seq<(String, String)>, p: PortInfo) -> bool {
    &&& p.id == id
    &&& p.name@ == spec_prop_or_unknown(props, "port.name"@)
    &&& p.direction == (match spec_prop(props, "port.direction"@) {
        Some(d) => if d == "in"@ {
            PortDirection::Input
        } else {
            PortDirection::Output
        },
        None => PortDirection::Output,
    })
    &&& p.node_id == (match spec_prop_u32(props, "node.id"@) {
        Some(v) => v,
        None => 0u32,
    })
    &&& opt_view(p.channel) == spec_prop(props, "audio.channel"@)
}

/// Build the typed node record from an observed property dictionary.
pub fn node_record_from_props(id: u32, props: &Vec<(String, String)>) -> (r: NodeInfo)
    ensures
        node_record_matches(id, props@, r),
{
    let name = prop_or_unknown(props, "node.name");
    let managed_prop = match lookup_prop(props, "undertone.managed") {
        Some(_) => true,
        None => false,
    };
    let managed = managed_prop || crate::strutil::str_starts_with(name.as_str(), "ch-")
        || crate::strutil::str_starts_with(name.as_str(), "stream-")
        || crate::strutil::str_starts_with(name.as_str(), "monitor-");
    NodeInfo {
        id,
        name,
        description: lookup_prop(props, "node.description"),
        media_class: lookup_prop(props, "media.class"),
        application_name: lookup_prop(props, "application.name"),
        binary_name: lookup_prop(props, "application.process.binary"),
        pid: prop_u32(props, "application.process.id"),
        device_serial: lookup_prop(props, "device.serial"),
        device_vendor_id: lookup_prop(props, "device.vendor.id"),
        device_product_id: lookup_prop(props, "device.product.id"),
        is_undertone_managed: managed,
    }
}

/// Build the typed port record from an observed property dictionary.
/// A missing direction is read as an output port.
pub fn port_record_from_props(id: u32, props: &Vec<(String, String)>) -> (r: PortInfo)
    ensures
        port_record_matches(id, props@, r),
{
    let name = prop_or_unknown(props, "port.name");
    let direction = match lookup_prop(props, "port.direction") {
        Some(d) => if str_eq(d.as_str(), "in") {
            PortDirection::Input
        } else {
            PortDirection::Output
        },
        None => PortDirection::Output,
    };
    let node_id = match prop_u32(props, "node.id") {
        Some(v) => v,
        None => 0,
    };
    PortInfo { id, name, direction, node_id, channel: lookup_prop(props, "audio.channel") }
}

/// Ingest one *global added* event: update the cache and produce the
/// typed events to publish, in order. A node yields its record, then
/// device detection under the conventional source name, then client
/// detection for unmanaged streams.
pub fn ingest_global(graph: &mut GraphManager, obj: &RegistryGlobal) -> (events: Vec<GraphEvent>)
    requires
        old(graph).wf(),
    ensures
        final(graph).wf(),
        obj.kind is Other ==> final(graph)@ == old(graph)@ && events@.len() == 0,
        obj.kind is Node ==> events@.len() >= 1 && (events@[0] matches GraphEvent::NodeAdded(n)
            && {
            &&& node_record_matches(obj.id, obj.props@, n)
            // the record is upserted into the cache
            &&& final(graph)@.nodes == (if node_idx(old(graph)@.nodes, obj.id) >= 0 {
                old(graph)@.nodes.update(node_idx(old(graph)@.nodes, obj.id), n)
            } else {
                old(graph)@.nodes.push(n)
            })
            &&& final(graph)@.ports == old(graph)@.ports
            &&& final(graph)@.links == old(graph)@.links
            &&& final(graph)@.created_nodes == old(graph)@.created_nodes
            &&& final(graph)@.created_links == old(graph)@.created_links
            // device detection, then client detection, exactly when they apply
            &&& ({
                let w = n.spec_is_wave3() && n.name@ == "wave3-source"@;
                let c = spec_is_audio_client(n);
                &&& events@.len() == 1 + (if w {
                    1int
                } else {
                    0int
                }) + (if c {
                    1int
                } else {
                    0int
                })
                &&& (w ==> (events@[1] matches GraphEvent::Wave3Detected { serial } && serial@
                    == spec_prop_or_unknown(obj.props@, "device.serial"@)))
                &&& (c ==> (events@.last() matches GraphEvent::ClientAppeared { id, name, pid }
                    && id == obj.id && pid == n.pid && name@ == (match n.application_name {
                    Some(a) => a@,
                    None => n.name@,
                })))
            })
        }),
        obj.kind is Port ==> events@.len() == 1 && (events@[0] matches GraphEvent::PortAdded(p)
            && {
            &&& port_record_matches(obj.id, obj.props@, p)
            &&& final(graph)@.ports == (if port_idx(old(graph)@.ports, obj.id) >= 0 {
                old(graph)@.ports.update(port_idx(old(graph)@.ports, obj.id), p)
            } else {
                old(graph)@.ports.push(p)
            })
            &&& final(graph)@.nodes == old(graph)@.nodes
            &&& final(graph)@.links == old(graph)@.links
            &&& final(graph)@.created_nodes == old(graph)@.created_nodes
            &&& final(graph)@.created_links == old(graph)@.created_links
        }),
        obj.kind is Link ==> events@.len() == 1 && (events@[0] matches GraphEvent::LinkCreated {
            id: lid,
            output_node,
            input_node,
        } && {
            let l = LinkInfo {
                id: obj.id,
                output_node,
                output_port: unwrap_or_zero(spec_prop_u32(obj.props@, "link.output.port"@)),
                input_node,
                input_port: unwrap_or_zero(spec_prop_u32(obj.props@, "link.input.port"@)),
                state: LinkState::Init,
                is_undertone_managed: false,
            };
            &&& lid == obj.id
            &&& output_node == unwrap_or_zero(spec_prop_u32(obj.props@, "link.output.node"@))
            &&& input_node == unwrap_or_zero(spec_prop_u32(obj.props@, "link.input.node"@))
            &&& final(graph)@.links == (if link_idx(old(graph)@.links, obj.id) >= 0 {
                old(graph)@.links.update(link_idx(old(graph)@.links, obj.id), l)
            } else {
                old(graph)@.links.push(l)
            })
            &&& final(graph)@.nodes == old(graph)@.nodes
            &&& final(graph)@.ports == old(graph)@.ports
            &&& final(graph)@.created_nodes == old(graph)@.created_nodes
            &&& final(graph)@.created_links == old(graph)@.created_links
        }),
{
    match obj.kind {
        ObjectKind::Node => {
            let node = node_record_from_props(obj.id, &obj.props);
            let mut events: Vec<GraphEvent> = Vec::new();
            let is_wave3_source = node.is_wave3() && str_eq(node.name.as_str(), "wave3-source");
            let is_client = node.is_audio_client();
            events.push(GraphEvent::NodeAdded(node.clone()));
            if is_wave3_source {
                let serial = prop_or_unknown(&obj.props, "device.serial");
                events.push(GraphEvent::Wave3Detected { serial });
            }
            if is_client {
                let client_name = match &node.application_name {
                    Some(a) => a.clone(),
                    None => node.name.clone(),
                };
                events.push(
                    GraphEvent::ClientAppeared { id: node.id, name: client_name, pid: node.pid },
                );
            }
            graph.add_node(node);
            events
        },
        ObjectKind::Port => {
            let port = port_record_from_props(obj.id, &obj.props);
            let mut events: Vec<GraphEvent> = Vec::new();
            events.push(GraphEvent::PortAdded(port.clone()));
            graph.add_port(port);
            events
        },
        ObjectKind::Link => {
            let output_node = match prop_u32(&obj.props, "link.output.node") {
                Some(v) => v,
                None => 0,
            };
            let input_node = match prop_u32(&obj.props, "link.input.node") {
                Some(v) => v,
                None => 0,
            };
            let output_port = match prop_u32(&obj.props, "link.output.port") {
                Some(v) => v,
                None => 0,
            };
            let input_port = match prop_u32(&obj.props, "link.input.port") {
                Some(v) => v,
                None => 0,
            };
            let link = LinkInfo {
                id: obj.id,
                output_node,
                output_port,
                input_node,
                input_port,
                state: LinkState::Init,
                is_undertone_managed: false,
            };
            let mut events: Vec<GraphEvent> = Vec::new();
            events.push(GraphEvent::LinkCreated { id: obj.id, output_node, input_node });
            graph.add_link(link);
            events
        },
        ObjectKind::Other => Vec::new(),
    }
}

/// Ingest one *global removed* event: forget the object and produce the
/// events to publish. A removed node named as the target device's
/// source additionally announces the device's departure, before the
/// node-removal event, as the device watcher expects.
pub fn ingest_global_removed(graph: &mut GraphManager, id: u32) -> (events: Vec<GraphEvent>)
    requires
        old(graph).wf(),
    ensures
        final(graph).wf(),
        spec_find_node(final(graph)@.nodes, id) is None,
        ({
            match spec_find_node(old(graph)@.nodes, id) {
                Some(n) => {
                    &&& events@.len() == (if n.name@ == "wave3-source"@ {
                        2int
                    } else {
                        1int
                    })
                    &&& (n.name@ == "wave3-source"@ ==> events@[0] is Wave3Removed)
                    &&& events@.last() matches GraphEvent::NodeRemoved { id: rid, name } && rid
                        == id && name@ == n.name@
                },
                None => {
                    if port_idx(old(graph)@.ports, id) >= 0 {
                        events@ =~= seq![GraphEvent::PortRemoved { id }]
                    } else {
                        events@ =~= seq![GraphEvent::LinkRemoved { id }]
                    }
                },
            }
        }),
{
    let mut events: Vec<GraphEvent> = Vec::new();
    match graph.get_node(id) {
        Some(node) => {
            if str_eq(node.name.as_str(), "wave3-source") {
                events.push(GraphEvent::Wave3Removed);
            }
            events.push(GraphEvent::NodeRemoved { id, name: node.name });
            graph.remove_node(id);
        },
        None => {
            match graph.get_port(id) {
                Some(_) => {
                    graph.remove_port(id);
                    events.push(GraphEvent::PortRemoved { id });
                },
                None => {
                    graph.remove_link(id);
                    events.push(GraphEvent::LinkRemoved { id });
                },
            }
        },
    }
    events
}

} // verus!
