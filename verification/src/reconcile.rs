//! The reconciler: a pure function from the desired channel set and the
//! observed graph to an ordered list of repair actions.
//!
//! The desired topology has, for each channel, one sink, one stream-path
//! volume filter and one monitor-path volume filter; three mix nodes; four
//! stereo link pairs per channel; one stereo pair from the stream mix to
//! the stream output; and, when the target device is present, one stereo
//! pair from the monitor mix to the target sink. Create actions are
//! emitted for whatever is missing, nodes before their links; a Destroy is
//! never emitted, so foreign objects are never touched; when the target
//! device is absent a warning action is emitted instead of a repair.

use vstd::prelude::*;
use vstd::string::StringExecFns;
use crate::channel::ChannelConfig;
use crate::factory::VirtualSinkProps;
use crate::graph::GraphManager;
use crate::graph::GraphView;
use crate::graph::NodeInfo;
use crate::graph::PortInfo;
use crate::graph::link_matches_names;
use crate::graph::node_id_key;
use crate::graph::node_idx;
use crate::graph::node_name_key;
use crate::graph::node_name_present;
use crate::graph::port_id_key;
use crate::graph::port_idx;
use crate::graph::spec_find_node;
use crate::graph::spec_find_port;
use crate::graph::spec_find_wave3_sink;
use crate::graph::spec_link_present;
use crate::graph::wave3_sink_match;
use crate::graph::wave3_sink_pred;
use crate::seqtools::find_key_idx;
use crate::seqtools::lemma_exists_extend;
use crate::seqtools::lemma_find_key_idx;
use crate::seqtools::lemma_find_key_idx_append;
use crate::seqtools::lemma_find_key_none_stable;
use crate::strutil::join3_str;

verus! {

/// A repair determined by the reconciler.
#[derive(Debug)]
pub enum ReconcileAction {
    /// Create a virtual sink node.
    CreateSink(VirtualSinkProps),
    /// Create a link, endpoints named by node and port name.
    CreateLink {
        /// Source node name.
        output_node: String,
        /// Source port name.
        output_port: String,
        /// Destination node name.
        input_node: String,
        /// Destination port name.
        input_port: String,
    },
    /// Destroy a node. The reconciler never emits this: foreign objects
    /// are left alone.
    DestroyNode(u32),
    /// Destroy a link. The reconciler never emits this.
    DestroyLink(u32),
    /// Report unexpected but non-repairable state.
    Warn(String),
}

impl Clone for ReconcileAction {
    fn clone(&self) -> (r: Self)
        ensures
            r == *self,
    {
        match self {
            ReconcileAction::CreateSink(p) => ReconcileAction::CreateSink(p.clone()),
            ReconcileAction::CreateLink { output_node, output_port, input_node, input_port } => {
                ReconcileAction::CreateLink {
                    output_node: output_node.clone(),
                    output_port: output_port.clone(),
                    input_node: input_node.clone(),
                    input_port: input_port.clone(),
                }
            },
            ReconcileAction::DestroyNode(id) => ReconcileAction::DestroyNode(*id),
            ReconcileAction::DestroyLink(id) => ReconcileAction::DestroyLink(*id),
            ReconcileAction::Warn(m) => ReconcileAction::Warn(m.clone()),
        }
    }
}

/// The name of a channel's sink node.
pub open spec fn sink_name(c: ChannelConfig) -> Seq<char> {
    "ch-"@ + c.name@
}

/// The description of a channel's sink node.
pub open spec fn sink_desc(c: ChannelConfig) -> Seq<char> {
    "Undertone: "@ + c.display_name@ + " Channel"@
}

/// The name of a channel's stream-path volume filter.
pub open spec fn stream_vol_name(c: ChannelConfig) -> Seq<char> {
    "ch-"@ + c.name@ + "-stream-vol"@
}

/// The description of a channel's stream-path volume filter.
pub open spec fn stream_vol_desc(c: ChannelConfig) -> Seq<char> {
    "Undertone: "@ + c.display_name@ + " Stream Volume"@
}

/// The name of a channel's monitor-path volume filter.
pub open spec fn monitor_vol_name(c: ChannelConfig) -> Seq<char> {
    "ch-"@ + c.name@ + "-monitor-vol"@
}

/// The description of a channel's monitor-path volume filter.
pub open spec fn monitor_vol_desc(c: ChannelConfig) -> Seq<char> {
    "Undertone: "@ + c.display_name@ + " Monitor Volume"@
}

/// Whether `p` is the stereo sink with this name and description.
pub open spec fn stereo_props_matches(
    name: Seq<char>,
    desc: Seq<char>,
    p: VirtualSinkProps,
) -> bool {
    p.name@ == name && p.description@ == desc && p.channels == 2 && p.positions@ == "FL,FR"@
}

/// Whether `p` is one of the desired sinks for these channels: a channel
/// sink, one of its two volume filters, or one of the three mix nodes.
pub open spec fn desired_sink(channels: Seq<ChannelConfig>, p: VirtualSinkProps) -> bool {
    ||| exists|c: int|
        0 <= c < channels.len() && stereo_props_matches(
            sink_name(#[trigger] channels[c]),
            sink_desc(channels[c]),
            p,
        )
    ||| exists|c: int|
        0 <= c < channels.len() && stereo_props_matches(
            stream_vol_name(#[trigger] channels[c]),
            stream_vol_desc(channels[c]),
            p,
        )
    ||| exists|c: int|
        0 <= c < channels.len() && stereo_props_matches(
            monitor_vol_name(#[trigger] channels[c]),
            monitor_vol_desc(channels[c]),
            p,
        )
    ||| stereo_props_matches("stream-mix"@, "Undertone: Stream Mix"@, p)
    ||| stereo_props_matches("stream-out"@, "Undertone: Stream Output"@, p)
    ||| stereo_props_matches("monitor-mix"@, "Undertone: Monitor Mix"@, p)
}

/// A desired link, endpoints named by node and port name.
pub struct LinkReq {
    /// Source node name.
    pub out_node: Seq<char>,
    /// Source port name.
    pub out_port: Seq<char>,
    /// Destination node name.
    pub in_node: Seq<char>,
    /// Destination port name.
    pub in_port: Seq<char>,
}

/// The desired links of one channel: its sink feeds both volume filters,
/// and each filter feeds its mix, left and right.
pub open spec fn channel_link(c: ChannelConfig, s: int) -> LinkReq {
    if s == 0 {
        LinkReq {
            out_node: sink_name(c),
            out_port: "monitor_FL"@,
            in_node: stream_vol_name(c),
            in_port: "playback_FL"@,
        }
    } else if s == 1 {
        LinkReq {
            out_node: sink_name(c),
            out_port: "monitor_FR"@,
            in_node: stream_vol_name(c),
            in_port: "playback_FR"@,
        }
    } else if s == 2 {
        LinkReq {
            out_node: stream_vol_name(c),
            out_port: "monitor_FL"@,
            in_node: "stream-mix"@,
            in_port: "playback_FL"@,
        }
    } else if s == 3 {
        LinkReq {
            out_node: stream_vol_name(c),
            out_port: "monitor_FR"@,
            in_node: "stream-mix"@,
            in_port: "playback_FR"@,
        }
    } else if s == 4 {
        LinkReq {
            out_node: sink_name(c),
            out_port: "monitor_FL"@,
            in_node: monitor_vol_name(c),
            in_port: "playback_FL"@,
        }
    } else if s == 5 {
        LinkReq {
            out_node: sink_name(c),
            out_port: "monitor_FR"@,
            in_node: monitor_vol_name(c),
            in_port: "playback_FR"@,
        }
    } else if s == 6 {
        LinkReq {
            out_node: monitor_vol_name(c),
            out_port: "monitor_FL"@,
            in_node: "monitor-mix"@,
            in_port: "playback_FL"@,
        }
    } else {
        LinkReq {
            out_node: monitor_vol_name(c),
            out_port: "monitor_FR"@,
            in_node: "monitor-mix"@,
            in_port: "playback_FR"@,
        }
    }
}

/// The stream mix feeds the stream output, left and right.
pub open spec fn base_link(s: int) -> LinkReq {
    if s == 0 {
        LinkReq {
            out_node: "stream-mix"@,
            out_port: "monitor_FL"@,
            in_node: "stream-out"@,
            in_port: "playback_FL"@,
        }
    } else {
        LinkReq {
            out_node: "stream-mix"@,
            out_port: "monitor_FR"@,
            in_node: "stream-out"@,
            in_port: "playback_FR"@,
        }
    }
}

/// The monitor mix feeds the target sink, left and right.
pub open spec fn target_link(target: Seq<char>, s: int) -> LinkReq {
    if s == 0 {
        LinkReq {
            out_node: "monitor-mix"@,
            out_port: "monitor_FL"@,
            in_node: target,
            in_port: "playback_FL"@,
        }
    } else {
        LinkReq {
            out_node: "monitor-mix"@,
            out_port: "monitor_FR"@,
            in_node: target,
            in_port: "playback_FR"@,
        }
    }
}

/// Whether `lr` is one of the desired links for these channels and this
/// target device.
pub open spec fn desired_link(
    channels: Seq<ChannelConfig>,
    target: Option<Seq<char>>,
    lr: LinkReq,
) -> bool {
    ||| exists|c: int, s: int|
        0 <= c < channels.len() && 0 <= s < 8 && lr == #[trigger] channel_link(channels[c], s)
    ||| lr == base_link(0)
    ||| lr == base_link(1)
    ||| (target matches Some(t) && (lr == target_link(t, 0) || lr == target_link(t, 1)))
}

/// Whether the graph lacks this link.
pub open spec fn link_req_missing(g: GraphView, lr: LinkReq) -> bool {
    !spec_link_present(g, lr.out_node, lr.out_port, lr.in_node, lr.in_port)
}

/// Predicate: the action creates a sink with this name.
pub open spec fn sink_emit_pred(name: Seq<char>) -> spec_fn(ReconcileAction) -> bool {
    |a: ReconcileAction|
        match a {
            ReconcileAction::CreateSink(p) => p.name@ == name,
            _ => false,
        }
}

/// The link request named by the action, if it is a link creation.
pub open spec fn act_link_req(a: ReconcileAction) -> Option<LinkReq> {
    match a {
        ReconcileAction::CreateLink { output_node, output_port, input_node, input_port } => Some(
            LinkReq {
                out_node: output_node@,
                out_port: output_port@,
                in_node: input_node@,
                in_port: input_port@,
            },
        ),
        _ => None,
    }
}

/// Predicate: the action creates this link.
pub open spec fn link_emit_pred(lr: LinkReq) -> spec_fn(ReconcileAction) -> bool {
    |a: ReconcileAction| act_link_req(a) == Some(lr)
}

/// Whether the actions create a sink with this name.
pub open spec fn emits_sink(acts: Seq<ReconcileAction>, name: Seq<char>) -> bool {
    exists|k: int| 0 <= k < acts.len() && sink_emit_pred(name)(#[trigger] acts[k])
}

/// Whether the actions create this link.
pub open spec fn emits_link(acts: Seq<ReconcileAction>, lr: LinkReq) -> bool {
    exists|k: int| 0 <= k < acts.len() && link_emit_pred(lr)(#[trigger] acts[k])
}

/// Whether the actions carry a warning.
pub open spec fn emits_warn(acts: Seq<ReconcileAction>) -> bool {
    exists|k: int| 0 <= k < acts.len() && (#[trigger] acts[k]) is Warn
}

/// The sink name an action creates, if it is a sink creation.
pub open spec fn act_sink_name(a: ReconcileAction) -> Option<Seq<char>> {
    match a {
        ReconcileAction::CreateSink(p) => Some(p.name@),
        _ => None,
    }
}

/// No two actions create the same object, and at most one warns: no two
/// sink creations share a name, no two link creations share endpoints,
/// and warnings do not repeat.
pub open spec fn no_duplicate_creations(acts: Seq<ReconcileAction>) -> bool {
    forall|k1: int, k2: int|
        #![trigger acts[k1], acts[k2]]
        0 <= k1 < k2 < acts.len() ==> {
            &&& (act_sink_name(acts[k1]) is None || act_sink_name(acts[k1]) != act_sink_name(
                acts[k2],
            ))
            &&& (act_link_req(acts[k1]) is None || act_link_req(acts[k1]) != act_link_req(
                acts[k2],
            ))
            &&& !(acts[k1] is Warn && acts[k2] is Warn)
        }
}

/// Appending an action that repeats no earlier creation or warning
/// keeps the list duplicate-free.
proof fn lemma_no_dup_push(acts0: Seq<ReconcileAction>, acts1: Seq<ReconcileAction>)
    requires
        no_duplicate_creations(acts0),
        acts1.len() == acts0.len() + 1,
        forall|k: int| 0 <= k < acts0.len() ==> acts1[k] == acts0[k],
        (act_sink_name(acts1.last()) matches Some(nm) ==> !emits_sink(acts0, nm)),
        (act_link_req(acts1.last()) matches Some(lr) ==> !emits_link(acts0, lr)),
        (acts1.last() is Warn ==> !emits_warn(acts0)),
    ensures
        no_duplicate_creations(acts1),
{
    assert forall|k1: int, k2: int|
        #![trigger acts1[k1], acts1[k2]]
        0 <= k1 < k2 < acts1.len() implies {
        &&& (act_sink_name(acts1[k1]) is None || act_sink_name(acts1[k1]) != act_sink_name(
            acts1[k2],
        ))
        &&& (act_link_req(acts1[k1]) is None || act_link_req(acts1[k1]) != act_link_req(
            acts1[k2],
        ))
        &&& !(acts1[k1] is Warn && acts1[k2] is Warn)
    } by {
        if k2 == acts0.len() {
            assert(acts1[k1] == acts0[k1]);
            if act_sink_name(acts1[k1]) is Some && act_sink_name(acts1[k1]) == act_sink_name(
                acts1[k2],
            ) {
                let nm = act_sink_name(acts1[k2])->0;
                assert(sink_emit_pred(nm)(acts0[k1]));
                assert(emits_sink(acts0, nm));
                assert(false);
            }
            if act_link_req(acts1[k1]) is Some && act_link_req(acts1[k1]) == act_link_req(
                acts1[k2],
            ) {
                let lr = act_link_req(acts1[k2])->0;
                assert(link_emit_pred(lr)(acts0[k1]));
                assert(emits_link(acts0, lr));
                assert(false);
            }
            if acts1[k1] is Warn && acts1[k2] is Warn {
                assert(emits_warn(acts0));
                assert(false);
            }
        }
    }
}

/// Whether a sink creation for this name is already planned.
fn sink_already_planned(acts: &Vec<ReconcileAction>, name: &str) -> (r: bool)
    ensures
        r == emits_sink(acts@, name@),
{
    let n: usize = acts.len();
    let mut i: usize = 0;
    while i < n
        invariant
            n == acts@.len(),
            i <= n,
            forall|k: int| 0 <= k < i ==> !sink_emit_pred(name@)(#[trigger] acts@[k]),
        decreases n - i,
    {
        let hit = match &acts[i] {
            ReconcileAction::CreateSink(p) => crate::strutil::str_eq(p.name.as_str(), name),
            _ => false,
        };
        proof {
            assert(sink_emit_pred(name@)(acts@[i as int]) == hit);
        }
        if hit {
            return true;
        }
        i += 1;
    }
    false
}

/// Whether a link creation with these endpoints is already planned.
fn link_already_planned(
    acts: &Vec<ReconcileAction>,
    out_node: &str,
    out_port: &str,
    in_node: &str,
    in_port: &str,
) -> (r: bool)
    ensures
        r == emits_link(
            acts@,
            (LinkReq {
                out_node: out_node@,
                out_port: out_port@,
                in_node: in_node@,
                in_port: in_port@,
            }),
        ),
{
    let ghost lr = LinkReq {
        out_node: out_node@,
        out_port: out_port@,
        in_node: in_node@,
        in_port: in_port@,
    };
    let n: usize = acts.len();
    let mut i: usize = 0;
    while i < n
        invariant
            n == acts@.len(),
            i <= n,
            lr == (LinkReq {
                out_node: out_node@,
                out_port: out_port@,
                in_node: in_node@,
                in_port: in_port@,
            }),
            forall|k: int| 0 <= k < i ==> !link_emit_pred(lr)(#[trigger] acts@[k]),
        decreases n - i,
    {
        match &acts[i] {
            ReconcileAction::CreateLink { output_node, output_port, input_node, input_port } => {
                let hit = crate::strutil::str_eq(output_node.as_str(), out_node)
                    && crate::strutil::str_eq(output_port.as_str(), out_port)
                    && crate::strutil::str_eq(input_node.as_str(), in_node)
                    && crate::strutil::str_eq(input_port.as_str(), in_port);
                proof {
                    assert(acts@[i as int] == (ReconcileAction::CreateLink {
                        output_node: *output_node,
                        output_port: *output_port,
                        input_node: *input_node,
                        input_port: *input_port,
                    }));
                    let here = LinkReq {
                        out_node: output_node@,
                        out_port: output_port@,
                        in_node: input_node@,
                        in_port: input_port@,
                    };
                    assert(act_link_req(acts@[i as int]) == Some(here));
                    if hit {
                        assert(here.out_node == lr.out_node && here.out_port == lr.out_port
                            && here.in_node == lr.in_node && here.in_port == lr.in_port);
                        assert(here == lr);
                        assert(link_emit_pred(lr)(acts@[i as int]));
                    } else {
                        if link_emit_pred(lr)(acts@[i as int]) {
                            assert(here == lr);
                            assert(false);
                        }
                    }
                }
                if hit {
                    return true;
                }
            },
            _ => {
                proof {
                    assert(!link_emit_pred(lr)(acts@[i as int]));
                }
            },
        }
        i += 1;
    }
    false
}

/// The target sink's name as the reconciler sees it, if the device is
/// observed.
pub open spec fn target_name(g: GraphView) -> Option<Seq<char>> {
    match spec_find_wave3_sink(g.nodes) {
        Some(t) => Some(t.name@),
        None => None,
    }
}

/// What a single emitted action may be: a creation of a desired, missing
/// object, or a warning about the absent target device. Never a Destroy.
pub open spec fn action_valid(
    channels: Seq<ChannelConfig>,
    g: GraphView,
    a: ReconcileAction,
) -> bool {
    match a {
        ReconcileAction::CreateSink(p) => desired_sink(channels, p) && !node_name_present(
            g.nodes,
            p.name@,
        ),
        ReconcileAction::CreateLink { .. } => {
            let lr = act_link_req(a)->0;
            desired_link(channels, target_name(g), lr) && link_req_missing(g, lr)
        },
        ReconcileAction::DestroyNode(_) => false,
        ReconcileAction::DestroyLink(_) => false,
        ReconcileAction::Warn(_) => spec_find_wave3_sink(g.nodes) is None,
    }
}

/// Everything `reconcile` promises of its result.
pub open spec fn reconcile_post(
    channels: Seq<ChannelConfig>,
    g: GraphView,
    acts: Seq<ReconcileAction>,
) -> bool {
    // Every action repairs a desired, missing object, or warns.
    &&& forall|k: int| 0 <= k < acts.len() ==> action_valid(channels, g, #[trigger] acts[k])
    // Every missing desired node is created.
    &&& forall|c: int|
        0 <= c < channels.len() && !node_name_present(g.nodes, sink_name(#[trigger] channels[c]))
            ==> emits_sink(acts, sink_name(channels[c]))
    &&& forall|c: int|
        0 <= c < channels.len() && !node_name_present(
            g.nodes,
            stream_vol_name(#[trigger] channels[c]),
        ) ==> emits_sink(acts, stream_vol_name(channels[c]))
    &&& forall|c: int|
        0 <= c < channels.len() && !node_name_present(
            g.nodes,
            monitor_vol_name(#[trigger] channels[c]),
        ) ==> emits_sink(acts, monitor_vol_name(channels[c]))
    &&& !node_name_present(g.nodes, "stream-mix"@) ==> emits_sink(acts, "stream-mix"@)
    &&& !node_name_present(g.nodes, "stream-out"@) ==> emits_sink(acts, "stream-out"@)
    &&& !node_name_present(g.nodes, "monitor-mix"@) ==> emits_sink(acts, "monitor-mix"@)
    // Every missing desired link is created.
    &&& forall|c: int, s: int|
        0 <= c < channels.len() && 0 <= s < 8 && link_req_missing(
            g,
            #[trigger] channel_link(channels[c], s),
        ) ==> emits_link(acts, channel_link(channels[c], s))
    &&& forall|s: int|
        0 <= s < 2 && link_req_missing(g, #[trigger] base_link(s)) ==> emits_link(
            acts,
            base_link(s),
        )
    &&& (target_name(g) matches Some(t) ==> forall|s: int|
        0 <= s < 2 && link_req_missing(g, #[trigger] target_link(t, s)) ==> emits_link(
            acts,
            target_link(t, s),
        ))
    // The absent target device is reported.
    &&& (target_name(g) is None ==> emits_warn(acts))
    // Nodes are created before links.
    &&& forall|k1: int, k2: int|
        #![trigger acts[k1], acts[k2]]
        0 <= k1 < k2 < acts.len() && acts[k1] is CreateLink ==> !(acts[k2] is CreateSink)
    // No object is created twice and at most one warning is emitted.
    &&& no_duplicate_creations(acts)
}

/// Whether `s2` keeps `s` unchanged as its prefix.
pub open spec fn extends(s: Seq<ReconcileAction>, s2: Seq<ReconcileAction>) -> bool {
    s.len() <= s2.len() && forall|k: int| 0 <= k < s.len() ==> s2[k] == s[k]
}

/// Which group of per-channel nodes a pass is creating.
#[derive(Clone, Copy)]
enum SinkGroup {
    /// The channel's sink itself.
    Sink,
    /// The channel's stream-path volume filter.
    StreamVol,
    /// The channel's monitor-path volume filter.
    MonitorVol,
}

/// The node name of this group for this channel.
spec fn group_node_name(grp: SinkGroup, c: ChannelConfig) -> Seq<char> {
    match grp {
        SinkGroup::Sink => sink_name(c),
        SinkGroup::StreamVol => stream_vol_name(c),
        SinkGroup::MonitorVol => monitor_vol_name(c),
    }
}

/// The node description of this group for this channel.
spec fn group_node_desc(grp: SinkGroup, c: ChannelConfig) -> Seq<char> {
    match grp {
        SinkGroup::Sink => sink_desc(c),
        SinkGroup::StreamVol => stream_vol_desc(c),
        SinkGroup::MonitorVol => monitor_vol_desc(c),
    }
}

/// Append a creation for each channel whose node of this group is absent.
fn add_missing_channel_nodes(
    grp: SinkGroup,
    channels: &[ChannelConfig],
    graph: &GraphManager,
    acts: &mut Vec<ReconcileAction>,
)
    requires
        no_duplicate_creations(old(acts)@),
    ensures
        no_duplicate_creations(final(acts)@),
        extends(old(acts)@, final(acts)@),
        forall|k: int|
            old(acts)@.len() <= k < final(acts)@.len() ==> action_valid(
                channels@,
                graph@,
                #[trigger] final(acts)@[k],
            ) && final(acts)@[k] is CreateSink,
        forall|c: int|
            0 <= c < channels@.len() && !node_name_present(
                graph@.nodes,
                group_node_name(grp, #[trigger] channels@[c]),
            ) ==> emits_sink(final(acts)@, group_node_name(grp, channels@[c])),
{
    let n: usize = channels.len();
    let mut c: usize = 0;
    while c < n
        invariant
            n == channels@.len(),
            c <= n,
            no_duplicate_creations(acts@),
            extends(old(acts)@, acts@),
            forall|k: int|
                old(acts)@.len() <= k < acts@.len() ==> action_valid(
                    channels@,
                    graph@,
                    #[trigger] acts@[k],
                ) && acts@[k] is CreateSink,
            forall|ci: int|
                0 <= ci < c && !node_name_present(
                    graph@.nodes,
                    group_node_name(grp, #[trigger] channels@[ci]),
                ) ==> emits_sink(acts@, group_node_name(grp, channels@[ci])),
        decreases n - c,
    {
        let ghost acts0 = acts@;
        let ch = &channels[c];
        let name: String = match grp {
            SinkGroup::Sink => ch.node_name(),
            SinkGroup::StreamVol => ch.stream_vol_node_name(),
            SinkGroup::MonitorVol => ch.monitor_vol_node_name(),
        };
        if !graph.has_node_named(name.as_str()) && !sink_already_planned(acts, name.as_str()) {
            let desc: String = match grp {
                SinkGroup::Sink => join3_str("Undertone: ", ch.display_name.as_str(), " Channel"),
                SinkGroup::StreamVol => join3_str(
                    "Undertone: ",
                    ch.display_name.as_str(),
                    " Stream Volume",
                ),
                SinkGroup::MonitorVol => join3_str(
                    "Undertone: ",
                    ch.display_name.as_str(),
                    " Monitor Volume",
                ),
            };
            let props = VirtualSinkProps {
                name,
                description: desc,
                channels: 2,
                positions: String::from_str("FL,FR"),
            };
            proof {
                assert(stereo_props_matches(
                    group_node_name(grp, channels@[c as int]),
                    group_node_desc(grp, channels@[c as int]),
                    props,
                ));
                assert(desired_sink(channels@, props));
            }
            acts.push(ReconcileAction::CreateSink(props));
            proof {
                assert(sink_emit_pred(group_node_name(grp, channels@[c as int]))(acts@[acts@.len()
                    - 1]));
                lemma_no_dup_push(acts0, acts@);
            }
        }
        proof {
            assert forall|ci: int|
                0 <= ci < c + 1 && !node_name_present(
                    graph@.nodes,
                    group_node_name(grp, #[trigger] channels@[ci]),
                ) implies emits_sink(acts@, group_node_name(grp, channels@[ci])) by {
                if ci < c {
                    lemma_exists_extend(
                        acts0,
                        acts@,
                        sink_emit_pred(group_node_name(grp, channels@[ci])),
                    );
                }
            }
        }
        c += 1;
    }
}

/// Append a creation for each absent mix node.
fn add_missing_mixes(channels: &[ChannelConfig], graph: &GraphManager, acts: &mut Vec<
    ReconcileAction,
>)
    requires
        no_duplicate_creations(old(acts)@),
    ensures
        no_duplicate_creations(final(acts)@),
        extends(old(acts)@, final(acts)@),
        forall|k: int|
            old(acts)@.len() <= k < final(acts)@.len() ==> action_valid(
                channels@,
                graph@,
                #[trigger] final(acts)@[k],
            ) && final(acts)@[k] is CreateSink,
        !node_name_present(graph@.nodes, "stream-mix"@) ==> emits_sink(
            final(acts)@,
            "stream-mix"@,
        ),
        !node_name_present(graph@.nodes, "stream-out"@) ==> emits_sink(
            final(acts)@,
            "stream-out"@,
        ),
        !node_name_present(graph@.nodes, "monitor-mix"@) ==> emits_sink(
            final(acts)@,
            "monitor-mix"@,
        ),
{
    let ghost acts0 = acts@;
    if !graph.has_node_named("stream-mix") && !sink_already_planned(acts, "stream-mix") {
        let props = VirtualSinkProps::stereo("stream-mix", "Undertone: Stream Mix");
        proof {
            assert(stereo_props_matches("stream-mix"@, "Undertone: Stream Mix"@, props));
        }
        acts.push(ReconcileAction::CreateSink(props));
        proof {
            assert(sink_emit_pred("stream-mix"@)(acts@[acts@.len() - 1]));
            lemma_no_dup_push(acts0, acts@);
        }
    }
    let ghost acts1 = acts@;
    if !graph.has_node_named("stream-out") && !sink_already_planned(acts, "stream-out") {
        let props = VirtualSinkProps::stereo("stream-out", "Undertone: Stream Output");
        proof {
            assert(stereo_props_matches("stream-out"@, "Undertone: Stream Output"@, props));
        }
        acts.push(ReconcileAction::CreateSink(props));
        proof {
            assert(sink_emit_pred("stream-out"@)(acts@[acts@.len() - 1]));
            lemma_no_dup_push(acts1, acts@);
        }
    }
    let ghost acts2 = acts@;
    if !graph.has_node_named("monitor-mix") && !sink_already_planned(acts, "monitor-mix") {
        let props = VirtualSinkProps::stereo("monitor-mix", "Undertone: Monitor Mix");
        proof {
            assert(stereo_props_matches("monitor-mix"@, "Undertone: Monitor Mix"@, props));
        }
        acts.push(ReconcileAction::CreateSink(props));
        proof {
            assert(sink_emit_pred("monitor-mix"@)(acts@[acts@.len() - 1]));
            lemma_no_dup_push(acts2, acts@);
        }
    }
    proof {
        if !node_name_present(graph@.nodes, "stream-mix"@) {
            lemma_exists_extend(acts1, acts2, sink_emit_pred("stream-mix"@));
            lemma_exists_extend(acts2, acts@, sink_emit_pred("stream-mix"@));
        }
        if !node_name_present(graph@.nodes, "stream-out"@) {
            lemma_exists_extend(acts2, acts@, sink_emit_pred("stream-out"@));
        }
    }
}

/// The endpoint names of one desired per-channel link.
fn channel_link_names(c: &ChannelConfig, s: usize) -> (r: (String, String, String, String))
    requires
        s < 8,
    ensures
        ({
            let lr = channel_link(*c, s as int);
            r.0@ == lr.out_node && r.1@ == lr.out_port && r.2@ == lr.in_node && r.3@ == lr.in_port
        }),
{
    if s == 0 {
        (
            c.node_name(),
            String::from_str("monitor_FL"),
            c.stream_vol_node_name(),
            String::from_str("playback_FL"),
        )
    } else if s == 1 {
        (
            c.node_name(),
            String::from_str("monitor_FR"),
            c.stream_vol_node_name(),
            String::from_str("playback_FR"),
        )
    } else if s == 2 {
        (
            c.stream_vol_node_name(),
            String::from_str("monitor_FL"),
            String::from_str("stream-mix"),
            String::from_str("playback_FL"),
        )
    } else if s == 3 {
        (
            c.stream_vol_node_name(),
            String::from_str("monitor_FR"),
            String::from_str("stream-mix"),
            String::from_str("playback_FR"),
        )
    } else if s == 4 {
        (
            c.node_name(),
            String::from_str("monitor_FL"),
            c.monitor_vol_node_name(),
            String::from_str("playback_FL"),
        )
    } else if s == 5 {
        (
            c.node_name(),
            String::from_str("monitor_FR"),
            c.monitor_vol_node_name(),
            String::from_str("playback_FR"),
        )
    } else if s == 6 {
        (
            c.monitor_vol_node_name(),
            String::from_str("monitor_FL"),
            String::from_str("monitor-mix"),
            String::from_str("playback_FL"),
        )
    } else {
        (
            c.monitor_vol_node_name(),
            String::from_str("monitor_FR"),
            String::from_str("monitor-mix"),
            String::from_str("playback_FR"),
        )
    }
}

/// Append a creation for each absent per-channel link.
fn add_missing_channel_links(
    channels: &[ChannelConfig],
    graph: &GraphManager,
    acts: &mut Vec<ReconcileAction>,
)
    requires
        no_duplicate_creations(old(acts)@),
    ensures
        no_duplicate_creations(final(acts)@),
        extends(old(acts)@, final(acts)@),
        forall|k: int|
            old(acts)@.len() <= k < final(acts)@.len() ==> action_valid(
                channels@,
                graph@,
                #[trigger] final(acts)@[k],
            ) && final(acts)@[k] is CreateLink,
        forall|c: int, s: int|
            0 <= c < channels@.len() && 0 <= s < 8 && link_req_missing(
                graph@,
                #[trigger] channel_link(channels@[c], s),
            ) ==> emits_link(final(acts)@, channel_link(channels@[c], s)),
{
    let n: usize = channels.len();
    let mut c: usize = 0;
    while c < n
        invariant
            n == channels@.len(),
            c <= n,
            no_duplicate_creations(acts@),
            extends(old(acts)@, acts@),
            forall|k: int|
                old(acts)@.len() <= k < acts@.len() ==> action_valid(
                    channels@,
                    graph@,
                    #[trigger] acts@[k],
                ) && acts@[k] is CreateLink,
            forall|ci: int, s: int|
                0 <= ci < c && 0 <= s < 8 && link_req_missing(
                    graph@,
                    #[trigger] channel_link(channels@[ci], s),
                ) ==> emits_link(acts@, channel_link(channels@[ci], s)),
        decreases n - c,
    {
        let mut s: usize = 0;
        while s < 8
            invariant
                n == channels@.len(),
                c < n,
                s <= 8,
                no_duplicate_creations(acts@),
                extends(old(acts)@, acts@),
                forall|k: int|
                    old(acts)@.len() <= k < acts@.len() ==> action_valid(
                        channels@,
                        graph@,
                        #[trigger] acts@[k],
                    ) && acts@[k] is CreateLink,
                forall|ci: int, si: int|
                    0 <= ci < c && 0 <= si < 8 && link_req_missing(
                        graph@,
                        #[trigger] channel_link(channels@[ci], si),
                    ) ==> emits_link(acts@, channel_link(channels@[ci], si)),
                forall|si: int|
                    0 <= si < s && link_req_missing(
                        graph@,
                        #[trigger] channel_link(channels@[c as int], si),
                    ) ==> emits_link(acts@, channel_link(channels@[c as int], si)),
            decreases 8 - s,
        {
            let ghost acts0 = acts@;
            let names = channel_link_names(&channels[c], s);
            if !graph.link_present_by_names(
                names.0.as_str(),
                names.1.as_str(),
                names.2.as_str(),
                names.3.as_str(),
            ) && !link_already_planned(
                acts,
                names.0.as_str(),
                names.1.as_str(),
                names.2.as_str(),
                names.3.as_str(),
            ) {
                let act = ReconcileAction::CreateLink {
                    output_node: names.0,
                    output_port: names.1,
                    input_node: names.2,
                    input_port: names.3,
                };
                proof {
                    assert(act_link_req(act) == Some(channel_link(channels@[c as int], s as int)));
                    assert(desired_link(
                        channels@,
                        target_name(graph@),
                        channel_link(channels@[c as int], s as int),
                    ));
                }
                acts.push(act);
                proof {
                    assert(link_emit_pred(channel_link(channels@[c as int], s as int))(
                        acts@[acts@.len() - 1],
                    ));
                    lemma_no_dup_push(acts0, acts@);
                }
            }
            proof {
                assert forall|ci: int, si: int|
                    0 <= ci < c && 0 <= si < 8 && link_req_missing(
                        graph@,
                        #[trigger] channel_link(channels@[ci], si),
                    ) implies emits_link(acts@, channel_link(channels@[ci], si)) by {
                    lemma_exists_extend(acts0, acts@, link_emit_pred(channel_link(channels@[ci], si)));
                }
                assert forall|si: int|
                    0 <= si < s + 1 && link_req_missing(
                        graph@,
                        #[trigger] channel_link(channels@[c as int], si),
                    ) implies emits_link(acts@, channel_link(channels@[c as int], si)) by {
                    if si < s {
                        lemma_exists_extend(
                            acts0,
                            acts@,
                            link_emit_pred(channel_link(channels@[c as int], si)),
                        );
                    }
                }
            }
            s += 1;
        }
        c += 1;
    }
}

/// Append a creation for each absent stream-mix to stream-out link.
fn add_missing_base_links(channels: &[ChannelConfig], graph: &GraphManager, acts: &mut Vec<
    ReconcileAction,
>)
    requires
        no_duplicate_creations(old(acts)@),
    ensures
        no_duplicate_creations(final(acts)@),
        extends(old(acts)@, final(acts)@),
        forall|k: int|
            old(acts)@.len() <= k < final(acts)@.len() ==> action_valid(
                channels@,
                graph@,
                #[trigger] final(acts)@[k],
            ) && final(acts)@[k] is CreateLink,
        forall|s: int|
            0 <= s < 2 && link_req_missing(graph@, #[trigger] base_link(s)) ==> emits_link(
                final(acts)@,
                base_link(s),
            ),
{
    let ghost acts0 = acts@;
    if !graph.link_present_by_names("stream-mix", "monitor_FL", "stream-out", "playback_FL")
        && !link_already_planned(acts, "stream-mix", "monitor_FL", "stream-out", "playback_FL") {
        let act = ReconcileAction::CreateLink {
            output_node: String::from_str("stream-mix"),
            output_port: String::from_str("monitor_FL"),
            input_node: String::from_str("stream-out"),
            input_port: String::from_str("playback_FL"),
        };
        proof {
            assert(act_link_req(act) == Some(base_link(0)));
        }
        acts.push(act);
        proof {
            assert(link_emit_pred(base_link(0))(acts@[acts@.len() - 1]));
            lemma_no_dup_push(acts0, acts@);
        }
    }
    let ghost acts1 = acts@;
    if !graph.link_present_by_names("stream-mix", "monitor_FR", "stream-out", "playback_FR")
        && !link_already_planned(acts, "stream-mix", "monitor_FR", "stream-out", "playback_FR") {
        let act = ReconcileAction::CreateLink {
            output_node: String::from_str("stream-mix"),
            output_port: String::from_str("monitor_FR"),
            input_node: String::from_str("stream-out"),
            input_port: String::from_str("playback_FR"),
        };
        proof {
            assert(act_link_req(act) == Some(base_link(1)));
        }
        acts.push(act);
        proof {
            assert(link_emit_pred(base_link(1))(acts@[acts@.len() - 1]));
            lemma_no_dup_push(acts1, acts@);
        }
    }
    proof {
        if link_req_missing(graph@, base_link(0)) {
            lemma_exists_extend(acts1, acts@, link_emit_pred(base_link(0)));
        }
        assert forall|s: int|
            0 <= s < 2 && link_req_missing(graph@, #[trigger] base_link(s)) implies emits_link(
            acts@,
            base_link(s),
        ) by {}
    }
}

/// Append creations for the monitor-mix to target-sink links, or a
/// warning when the target device is absent.
fn add_target_links_or_warn(channels: &[ChannelConfig], graph: &GraphManager, acts: &mut Vec<
    ReconcileAction,
>)
    requires
        no_duplicate_creations(old(acts)@),
        !emits_warn(old(acts)@),
    ensures
        no_duplicate_creations(final(acts)@),
        extends(old(acts)@, final(acts)@),
        forall|k: int|
            old(acts)@.len() <= k < final(acts)@.len() ==> action_valid(
                channels@,
                graph@,
                #[trigger] final(acts)@[k],
            ) && !(final(acts)@[k] is CreateSink),
        (target_name(graph@) matches Some(t) ==> forall|s: int|
            0 <= s < 2 && link_req_missing(graph@, #[trigger] target_link(t, s)) ==> emits_link(
                final(acts)@,
                target_link(t, s),
            )),
        target_name(graph@) is None ==> emits_warn(final(acts)@),
{
    match graph.find_wave3_sink() {
        Some(target) => {
            let ghost t = target.name@;
            let ghost acts0 = acts@;
            if !graph.link_present_by_names(
                "monitor-mix",
                "monitor_FL",
                target.name.as_str(),
                "playback_FL",
            ) && !link_already_planned(
                acts,
                "monitor-mix",
                "monitor_FL",
                target.name.as_str(),
                "playback_FL",
            ) {
                let act = ReconcileAction::CreateLink {
                    output_node: String::from_str("monitor-mix"),
                    output_port: String::from_str("monitor_FL"),
                    input_node: target.name.clone(),
                    input_port: String::from_str("playback_FL"),
                };
                proof {
                    assert(act_link_req(act) == Some(target_link(t, 0)));
                }
                acts.push(act);
                proof {
                    assert(link_emit_pred(target_link(t, 0))(acts@[acts@.len() - 1]));
                    lemma_no_dup_push(acts0, acts@);
                }
            }
            let ghost acts1 = acts@;
            if !graph.link_present_by_names(
                "monitor-mix",
                "monitor_FR",
                target.name.as_str(),
                "playback_FR",
            ) && !link_already_planned(
                acts,
                "monitor-mix",
                "monitor_FR",
                target.name.as_str(),
                "playback_FR",
            ) {
                let act = ReconcileAction::CreateLink {
                    output_node: String::from_str("monitor-mix"),
                    output_port: String::from_str("monitor_FR"),
                    input_node: target.name.clone(),
                    input_port: String::from_str("playback_FR"),
                };
                proof {
                    assert(act_link_req(act) == Some(target_link(t, 1)));
                }
                acts.push(act);
                proof {
                    assert(link_emit_pred(target_link(t, 1))(acts@[acts@.len() - 1]));
                    lemma_no_dup_push(acts1, acts@);
                }
            }
            proof {
                if link_req_missing(graph@, target_link(t, 0)) {
                    lemma_exists_extend(acts1, acts@, link_emit_pred(target_link(t, 0)));
                }
                assert forall|s: int|
                    0 <= s < 2 && link_req_missing(graph@, #[trigger] target_link(t, s)) implies
                    emits_link(acts@, target_link(t, s)) by {}
            }
        },
        None => {
            let ghost acts0 = acts@;
            acts.push(
                ReconcileAction::Warn(
                    String::from_str("target device sink not found - device may be disconnected"),
                ),
            );
            proof {
                assert(acts@[acts@.len() - 1] is Warn);
                lemma_no_dup_push(acts0, acts@);
            }
        },
    }
}

/// Compute the ordered repairs that bring the observed graph to the
/// desired topology: creations for missing nodes, then for missing links;
/// never a destruction; a warning when the target device is absent.
pub fn reconcile(channels: &[ChannelConfig], graph: &GraphManager) -> (r: Vec<ReconcileAction>)
    ensures
        reconcile_post(channels@, graph@, r@),
{
    let mut acts: Vec<ReconcileAction> = Vec::new();
    add_missing_channel_nodes(SinkGroup::Sink, channels, graph, &mut acts);
    let ghost a1 = acts@;
    add_missing_channel_nodes(SinkGroup::StreamVol, channels, graph, &mut acts);
    let ghost a2 = acts@;
    add_missing_channel_nodes(SinkGroup::MonitorVol, channels, graph, &mut acts);
    let ghost a3 = acts@;
    add_missing_mixes(channels, graph, &mut acts);
    let ghost a4 = acts@;
    proof {
        assert(extends(a1, a4));
        assert(extends(a2, a4));
        assert(forall|k: int| 0 <= k < a4.len() ==> (#[trigger] a4[k]) is CreateSink);
    }
    add_missing_channel_links(channels, graph, &mut acts);
    let ghost a5 = acts@;
    add_missing_base_links(channels, graph, &mut acts);
    let ghost a6 = acts@;
    proof {
        assert(extends(a4, a6));
        assert(!emits_warn(a6)) by {
            if emits_warn(a6) {
                let k = choose|k: int| 0 <= k < a6.len() && (#[trigger] a6[k]) is Warn;
                if k < a4.len() {
                    assert(a6[k] == a4[k]);
                } else if k < a5.len() {
                    assert(a6[k] == a5[k]);
                }
                assert(false);
            }
        }
    }
    add_target_links_or_warn(channels, graph, &mut acts);
    proof {
        assert(extends(a1, acts@));
        assert(extends(a2, acts@));
        assert(extends(a3, acts@));
        assert(extends(a4, acts@));
        assert(extends(a5, acts@));
        assert(extends(a6, acts@));
        assert forall|c: int|
            0 <= c < channels@.len() && !node_name_present(
                graph@.nodes,
                sink_name(#[trigger] channels@[c]),
            ) implies emits_sink(acts@, sink_name(channels@[c])) by {
            lemma_exists_extend(a1, acts@, sink_emit_pred(sink_name(channels@[c])));
        }
        assert forall|c: int|
            0 <= c < channels@.len() && !node_name_present(
                graph@.nodes,
                stream_vol_name(#[trigger] channels@[c]),
            ) implies emits_sink(acts@, stream_vol_name(channels@[c])) by {
            lemma_exists_extend(a2, acts@, sink_emit_pred(stream_vol_name(channels@[c])));
        }
        assert forall|c: int|
            0 <= c < channels@.len() && !node_name_present(
                graph@.nodes,
                monitor_vol_name(#[trigger] channels@[c]),
            ) implies emits_sink(acts@, monitor_vol_name(channels@[c])) by {
            lemma_exists_extend(a3, acts@, sink_emit_pred(monitor_vol_name(channels@[c])));
        }
        if !node_name_present(graph@.nodes, "stream-mix"@) {
            lemma_exists_extend(a4, acts@, sink_emit_pred("stream-mix"@));
        }
        if !node_name_present(graph@.nodes, "stream-out"@) {
            lemma_exists_extend(a4, acts@, sink_emit_pred("stream-out"@));
        }
        if !node_name_present(graph@.nodes, "monitor-mix"@) {
            lemma_exists_extend(a4, acts@, sink_emit_pred("monitor-mix"@));
        }
        assert forall|c: int, s: int|
            0 <= c < channels@.len() && 0 <= s < 8 && link_req_missing(
                graph@,
                #[trigger] channel_link(channels@[c], s),
            ) implies emits_link(acts@, channel_link(channels@[c], s)) by {
            lemma_exists_extend(a5, acts@, link_emit_pred(channel_link(channels@[c], s)));
        }
        assert forall|s: int|
            0 <= s < 2 && link_req_missing(graph@, #[trigger] base_link(s)) implies emits_link(
            acts@,
            base_link(s),
        ) by {
            lemma_exists_extend(a6, acts@, link_emit_pred(base_link(s)));
        }
        // every action is a repair of a missing desired object, or a warning
        assert forall|k: int| 0 <= k < acts@.len() implies action_valid(
            channels@,
            graph@,
            #[trigger] acts@[k],
        ) by {
            if k < a1.len() {
                assert(acts@[k] == a1[k]);
            } else if k < a2.len() {
                assert(acts@[k] == a2[k]);
            } else if k < a3.len() {
                assert(acts@[k] == a3[k]);
            } else if k < a4.len() {
                assert(acts@[k] == a4[k]);
            } else if k < a5.len() {
                assert(acts@[k] == a5[k]);
            } else if k < a6.len() {
                assert(acts@[k] == a6[k]);
            }
        }
        // ordering: everything below the node boundary is a sink creation,
        // everything above is not.
        assert forall|k1: int, k2: int|
            #![trigger acts@[k1], acts@[k2]]
            0 <= k1 < k2 < acts@.len() && acts@[k1] is CreateLink implies !(
        acts@[k2] is CreateSink) by {
            if k1 < a4.len() {
                assert(acts@[k1] == a4[k1]);
            }
            assert(k1 >= a4.len());
            if k2 < a5.len() {
                assert(acts@[k2] == a5[k2]);
            } else if k2 < a6.len() {
                assert(acts@[k2] == a6[k2]);
            }
        }
    }
    acts
}

/// Whether the graph already carries the whole desired topology and the
/// target device is present.
pub open spec fn spec_healthy(channels: Seq<ChannelConfig>, g: GraphView) -> bool {
    &&& forall|c: int|
        0 <= c < channels.len() ==> node_name_present(g.nodes, sink_name(#[trigger] channels[c]))
            && node_name_present(g.nodes, stream_vol_name(channels[c])) && node_name_present(
            g.nodes,
            monitor_vol_name(channels[c]),
        )
    &&& node_name_present(g.nodes, "stream-mix"@)
    &&& node_name_present(g.nodes, "stream-out"@)
    &&& node_name_present(g.nodes, "monitor-mix"@)
    &&& forall|c: int, s: int|
        0 <= c < channels.len() && 0 <= s < 8 ==> !link_req_missing(
            g,
            #[trigger] channel_link(channels[c], s),
        )
    &&& forall|s: int| 0 <= s < 2 ==> !link_req_missing(g, #[trigger] base_link(s))
    &&& (target_name(g) matches Some(t) ==> forall|s: int|
        0 <= s < 2 ==> !link_req_missing(g, #[trigger] target_link(t, s)))
    &&& target_name(g) is Some
}

/// Whether the graph needs no repair: the reconciler finds nothing to do.
pub fn is_healthy(channels: &[ChannelConfig], graph: &GraphManager) -> (r: bool)
    ensures
        r == spec_healthy(channels@, graph@),
{
    let acts = reconcile(channels, graph);
    let healthy = acts.len() == 0;
    proof {
        if healthy {
            assert forall|c: int| 0 <= c < channels@.len() implies node_name_present(
                graph@.nodes,
                sink_name(#[trigger] channels@[c]),
            ) && node_name_present(graph@.nodes, stream_vol_name(channels@[c]))
                && node_name_present(graph@.nodes, monitor_vol_name(channels@[c])) by {
                if !node_name_present(graph@.nodes, sink_name(channels@[c])) {
                    let k = choose|k: int|
                        0 <= k < acts@.len() && sink_emit_pred(sink_name(channels@[c]))(
                            #[trigger] acts@[k],
                        );
                    assert(false);
                }
                if !node_name_present(graph@.nodes, stream_vol_name(channels@[c])) {
                    let k = choose|k: int|
                        0 <= k < acts@.len() && sink_emit_pred(stream_vol_name(channels@[c]))(
                            #[trigger] acts@[k],
                        );
                    assert(false);
                }
                if !node_name_present(graph@.nodes, monitor_vol_name(channels@[c])) {
                    let k = choose|k: int|
                        0 <= k < acts@.len() && sink_emit_pred(monitor_vol_name(channels@[c]))(
                            #[trigger] acts@[k],
                        );
                    assert(false);
                }
            }
            assert(node_name_present(graph@.nodes, "stream-mix"@)) by {
                if !node_name_present(graph@.nodes, "stream-mix"@) {
                    let k = choose|k: int|
                        0 <= k < acts@.len() && sink_emit_pred("stream-mix"@)(#[trigger] acts@[k]);
                    assert(false);
                }
            }
            assert(node_name_present(graph@.nodes, "stream-out"@)) by {
                if !node_name_present(graph@.nodes, "stream-out"@) {
                    let k = choose|k: int|
                        0 <= k < acts@.len() && sink_emit_pred("stream-out"@)(#[trigger] acts@[k]);
                    assert(false);
                }
            }
            assert(node_name_present(graph@.nodes, "monitor-mix"@)) by {
                if !node_name_present(graph@.nodes, "monitor-mix"@) {
                    let k = choose|k: int|
                        0 <= k < acts@.len() && sink_emit_pred("monitor-mix"@)(
                            #[trigger] acts@[k],
                        );
                    assert(false);
                }
            }
            assert forall|c: int, s: int|
                0 <= c < channels@.len() && 0 <= s < 8 implies !link_req_missing(
                graph@,
                #[trigger] channel_link(channels@[c], s),
            ) by {
                if link_req_missing(graph@, channel_link(channels@[c], s)) {
                    let k = choose|k: int|
                        0 <= k < acts@.len() && link_emit_pred(channel_link(channels@[c], s))(
                            #[trigger] acts@[k],
                        );
                    assert(false);
                }
            }
            assert forall|s: int| 0 <= s < 2 implies !link_req_missing(
                graph@,
                #[trigger] base_link(s),
            ) by {
                if link_req_missing(graph@, base_link(s)) {
                    let k = choose|k: int|
                        0 <= k < acts@.len() && link_emit_pred(base_link(s))(#[trigger] acts@[k]);
                    assert(false);
                }
            }
            assert(target_name(graph@) is Some) by {
                if target_name(graph@) is None {
                    let k = choose|k: int| 0 <= k < acts@.len() && (#[trigger] acts@[k]) is Warn;
                    assert(false);
                }
            }
            if target_name(graph@) is Some {
                let t = target_name(graph@)->0;
                assert forall|s: int| 0 <= s < 2 implies !link_req_missing(
                    graph@,
                    #[trigger] target_link(t, s),
                ) by {
                    if link_req_missing(graph@, target_link(t, s)) {
                        let k = choose|k: int|
                            0 <= k < acts@.len() && link_emit_pred(target_link(t, s))(
                                #[trigger] acts@[k],
                            );
                        assert(false);
                    }
                }
            }
        } else {
            let a0 = acts@[0];
            assert(action_valid(channels@, graph@, a0));
            if spec_healthy(channels@, graph@) {
                match a0 {
                    ReconcileAction::CreateSink(p) => {
                        assert(!node_name_present(graph@.nodes, p.name@));
                        assert(false);
                    },
                    ReconcileAction::CreateLink { .. } => {
                        let lr = act_link_req(a0)->0;
                        assert(desired_link(channels@, target_name(graph@), lr));
                        assert(false);
                    },
                    ReconcileAction::Warn(_) => {
                        assert(false);
                    },
                    _ => {
                        assert(false);
                    },
                }
            }
        }
    }
    healthy
}

/// What it means for the repairs to have been applied successfully: the
/// graph keeps everything it had (creation only appends), every sink the
/// actions create now bears its name, every link the actions create is
/// now present, and the created virtual sinks are this process's own
/// null sinks, not the target device.
pub open spec fn applied(g: GraphView, acts: Seq<ReconcileAction>, g2: GraphView) -> bool {
    &&& g.nodes.len() <= g2.nodes.len()
    &&& forall|i: int| 0 <= i < g.nodes.len() ==> g2.nodes[i] == g.nodes[i]
    &&& g.ports.len() <= g2.ports.len()
    &&& forall|i: int| 0 <= i < g.ports.len() ==> g2.ports[i] == g.ports[i]
    &&& g.links.len() <= g2.links.len()
    &&& forall|i: int| 0 <= i < g.links.len() ==> g2.links[i] == g.links[i]
    &&& forall|name: Seq<char>| #[trigger] emits_sink(acts, name) ==> node_name_present(
        g2.nodes,
        name,
    )
    &&& forall|lr: LinkReq| #[trigger] emits_link(acts, lr) ==> spec_link_present(
        g2,
        lr.out_node,
        lr.out_port,
        lr.in_node,
        lr.in_port,
    )
    &&& forall|i: int|
        g.nodes.len() <= i < g2.nodes.len() ==> !wave3_sink_match(#[trigger] g2.nodes[i])
            && g2.nodes[i].name@ != "wave3-sink"@
}

/// A node found by id before the repairs is found unchanged after them.
proof fn lemma_find_node_stable(gn: Seq<NodeInfo>, g2n: Seq<NodeInfo>, id: u32)
    requires
        gn.len() <= g2n.len(),
        forall|i: int| 0 <= i < gn.len() ==> g2n[i] == gn[i],
        node_idx(gn, id) >= 0,
    ensures
        node_idx(g2n, id) == node_idx(gn, id),
        spec_find_node(g2n, id) == spec_find_node(gn, id),
{
    let t = g2n.subrange(gn.len() as int, g2n.len() as int);
    assert(g2n =~= gn + t);
    lemma_find_key_idx_append(gn, t, node_id_key(), id);
    lemma_find_key_idx(gn, node_id_key(), id);
}

/// A port found by id before the repairs is found unchanged after them.
proof fn lemma_find_port_stable(gp: Seq<PortInfo>, g2p: Seq<PortInfo>, id: u32)
    requires
        gp.len() <= g2p.len(),
        forall|i: int| 0 <= i < gp.len() ==> g2p[i] == gp[i],
        port_idx(gp, id) >= 0,
    ensures
        port_idx(g2p, id) == port_idx(gp, id),
        spec_find_port(g2p, id) == spec_find_port(gp, id),
{
    let t = g2p.subrange(gp.len() as int, g2p.len() as int);
    assert(g2p =~= gp + t);
    lemma_find_key_idx_append(gp, t, port_id_key(), id);
    lemma_find_key_idx(gp, port_id_key(), id);
}

/// A link present by names before the repairs is still present after.
proof fn lemma_link_present_stable(
    g: GraphView,
    g2: GraphView,
    on: Seq<char>,
    op: Seq<char>,
    inn: Seq<char>,
    ip: Seq<char>,
)
    requires
        g.nodes.len() <= g2.nodes.len(),
        forall|i: int| 0 <= i < g.nodes.len() ==> g2.nodes[i] == g.nodes[i],
        g.ports.len() <= g2.ports.len(),
        forall|i: int| 0 <= i < g.ports.len() ==> g2.ports[i] == g.ports[i],
        g.links.len() <= g2.links.len(),
        forall|i: int| 0 <= i < g.links.len() ==> g2.links[i] == g.links[i],
        spec_link_present(g, on, op, inn, ip),
    ensures
        spec_link_present(g2, on, op, inn, ip),
{
    let k = choose|k: int|
        0 <= k < g.links.len() && link_matches_names(g, #[trigger] g.links[k], on, op, inn, ip);
    let l = g.links[k];
    assert(g2.links[k] == l);
    lemma_find_key_idx(g.nodes, node_id_key(), l.output_node);
    lemma_find_key_idx(g.nodes, node_id_key(), l.input_node);
    lemma_find_key_idx(g.ports, port_id_key(), l.output_port);
    lemma_find_key_idx(g.ports, port_id_key(), l.input_port);
    lemma_find_node_stable(g.nodes, g2.nodes, l.output_node);
    lemma_find_node_stable(g.nodes, g2.nodes, l.input_node);
    lemma_find_port_stable(g.ports, g2.ports, l.output_port);
    lemma_find_port_stable(g.ports, g2.ports, l.input_port);
    assert(link_matches_names(g2, g2.links[k], on, op, inn, ip));
}

/// The target-sink search is unmoved by appending this process's own
/// virtual sinks.
proof fn lemma_wave3_sink_stable(gn: Seq<NodeInfo>, g2n: Seq<NodeInfo>)
    requires
        gn.len() <= g2n.len(),
        forall|i: int| 0 <= i < gn.len() ==> g2n[i] == gn[i],
        forall|i: int|
            gn.len() <= i < g2n.len() ==> !wave3_sink_match(#[trigger] g2n[i]) && g2n[i].name@
                != "wave3-sink"@,
    ensures
        spec_find_wave3_sink(g2n) == spec_find_wave3_sink(gn),
{
    let nkey = node_name_key();
    let wkey = wave3_sink_pred();
    let iname = find_key_idx(gn, nkey, "wave3-sink"@);
    if iname >= 0 {
        let t = g2n.subrange(gn.len() as int, g2n.len() as int);
        assert(g2n =~= gn + t);
        lemma_find_key_idx_append(gn, t, nkey, "wave3-sink"@);
        lemma_find_key_idx(gn, nkey, "wave3-sink"@);
    } else {
        assert forall|i: int| gn.len() <= i < g2n.len() implies nkey(#[trigger] g2n[i])
            != "wave3-sink"@ by {}
        lemma_find_key_none_stable(gn, g2n, nkey, "wave3-sink"@);
        let ipred = find_key_idx(gn, wkey, true);
        if ipred >= 0 {
            let t = g2n.subrange(gn.len() as int, g2n.len() as int);
            assert(g2n =~= gn + t);
            lemma_find_key_idx_append(gn, t, wkey, true);
            lemma_find_key_idx(gn, wkey, true);
        } else {
            assert forall|i: int| gn.len() <= i < g2n.len() implies wkey(#[trigger] g2n[i])
                != true by {}
            lemma_find_key_none_stable(gn, g2n, wkey, true);
        }
    }
}

/// Law: the reconciler is idempotent. If the repairs it computes are
/// applied successfully, a second run finds nothing to repair: at most a
/// warning about an absent target device remains, and when the target
/// device was present the second run returns no actions at all.
pub proof fn lemma_reconcile_idempotent(
    channels: Seq<ChannelConfig>,
    g: GraphView,
    acts: Seq<ReconcileAction>,
    g2: GraphView,
    acts2: Seq<ReconcileAction>,
)
    requires
        reconcile_post(channels, g, acts),
        applied(g, acts, g2),
        reconcile_post(channels, g2, acts2),
    ensures
        forall|k: int| 0 <= k < acts2.len() ==> (#[trigger] acts2[k]) is Warn,
        spec_find_wave3_sink(g.nodes) is Some ==> acts2.len() == 0,
{
    assert forall|k: int| 0 <= k < acts2.len() implies (#[trigger] acts2[k]) is Warn by {
        assert(action_valid(channels, g2, acts2[k]));
        match acts2[k] {
            ReconcileAction::CreateSink(p) => {
                lemma_desired_sink_present(channels, g, acts, g2, p);
                assert(false);
            },
            ReconcileAction::CreateLink { .. } => {
                let lr = act_link_req(acts2[k])->0;
                lemma_desired_link_present(channels, g, acts, g2, lr);
                assert(false);
            },
            ReconcileAction::DestroyNode(_) => {
                assert(false);
            },
            ReconcileAction::DestroyLink(_) => {
                assert(false);
            },
            ReconcileAction::Warn(_) => {},
        }
    }
    if spec_find_wave3_sink(g.nodes) is Some {
        lemma_wave3_sink_stable(g.nodes, g2.nodes);
        if acts2.len() > 0 {
            assert(acts2[0] is Warn);
            assert(action_valid(channels, g2, acts2[0]));
            assert(false);
        }
    }
}

/// After a successful application, every desired sink name is present.
proof fn lemma_desired_sink_present(
    channels: Seq<ChannelConfig>,
    g: GraphView,
    acts: Seq<ReconcileAction>,
    g2: GraphView,
    p: VirtualSinkProps,
)
    requires
        reconcile_post(channels, g, acts),
        applied(g, acts, g2),
        desired_sink(channels, p),
    ensures
        node_name_present(g2.nodes, p.name@),
{
    if exists|c: int|
        0 <= c < channels.len() && stereo_props_matches(
            sink_name(#[trigger] channels[c]),
            sink_desc(channels[c]),
            p,
        ) {
        let c = choose|c: int|
            0 <= c < channels.len() && stereo_props_matches(
                sink_name(#[trigger] channels[c]),
                sink_desc(channels[c]),
                p,
            );
        assert(p.name@ == sink_name(channels[c]));
    } else if exists|c: int|
        0 <= c < channels.len() && stereo_props_matches(
            stream_vol_name(#[trigger] channels[c]),
            stream_vol_desc(channels[c]),
            p,
        ) {
        let c = choose|c: int|
            0 <= c < channels.len() && stereo_props_matches(
                stream_vol_name(#[trigger] channels[c]),
                stream_vol_desc(channels[c]),
                p,
            );
        assert(p.name@ == stream_vol_name(channels[c]));
    } else if exists|c: int|
        0 <= c < channels.len() && stereo_props_matches(
            monitor_vol_name(#[trigger] channels[c]),
            monitor_vol_desc(channels[c]),
            p,
        ) {
        let c = choose|c: int|
            0 <= c < channels.len() && stereo_props_matches(
                monitor_vol_name(#[trigger] channels[c]),
                monitor_vol_desc(channels[c]),
                p,
            );
        assert(p.name@ == monitor_vol_name(channels[c]));
    }
    lemma_name_present_from(channels, g, acts, g2, p.name@);
}

/// A desired node name that is present in the old graph, or whose
/// creation the actions carry, is present in the new graph.
proof fn lemma_name_kept(g: GraphView, acts: Seq<ReconcileAction>, g2: GraphView, name: Seq<char>)
    requires
        applied(g, acts, g2),
        node_name_present(g.nodes, name) || emits_sink(acts, name),
    ensures
        node_name_present(g2.nodes, name),
{
    if node_name_present(g.nodes, name) {
        let i = choose|i: int| 0 <= i < g.nodes.len() && (#[trigger] g.nodes[i]).name@ == name;
        assert(g2.nodes[i] == g.nodes[i]);
    }
}

/// Case split over the kinds of desired sink, concluding presence.
proof fn lemma_name_present_from(
    channels: Seq<ChannelConfig>,
    g: GraphView,
    acts: Seq<ReconcileAction>,
    g2: GraphView,
    name: Seq<char>,
)
    requires
        reconcile_post(channels, g, acts),
        applied(g, acts, g2),
        (exists|c: int|
            0 <= c < channels.len() && (name == sink_name(#[trigger] channels[c]) || name
                == stream_vol_name(channels[c]) || name == monitor_vol_name(channels[c]))) || name
            == "stream-mix"@ || name == "stream-out"@ || name == "monitor-mix"@,
    ensures
        node_name_present(g2.nodes, name),
{
    if node_name_present(g.nodes, name) {
        lemma_name_kept(g, acts, g2, name);
    } else {
        if name == "stream-mix"@ || name == "stream-out"@ || name == "monitor-mix"@ {
            assert(emits_sink(acts, name));
        } else {
            let c = choose|c: int|
                0 <= c < channels.len() && (name == sink_name(#[trigger] channels[c]) || name
                    == stream_vol_name(channels[c]) || name == monitor_vol_name(channels[c]));
            assert(emits_sink(acts, name));
        }
        lemma_name_kept(g, acts, g2, name);
    }
}

/// After a successful application, every desired link is present in the
/// new graph, taking the target device of the new graph.
proof fn lemma_desired_link_present(
    channels: Seq<ChannelConfig>,
    g: GraphView,
    acts: Seq<ReconcileAction>,
    g2: GraphView,
    lr: LinkReq,
)
    requires
        reconcile_post(channels, g, acts),
        applied(g, acts, g2),
        desired_link(channels, target_name(g2), lr),
    ensures
        spec_link_present(g2, lr.out_node, lr.out_port, lr.in_node, lr.in_port),
{
    if exists|c: int, s: int|
        0 <= c < channels.len() && 0 <= s < 8 && lr == #[trigger] channel_link(channels[c], s) {
        let (c, s) = choose|c: int, s: int|
            0 <= c < channels.len() && 0 <= s < 8 && lr == #[trigger] channel_link(channels[c], s);
        if link_req_missing(g, lr) {
            assert(emits_link(acts, lr));
        }
        lemma_link_settled(g, acts, g2, lr);
    } else if lr == base_link(0) || lr == base_link(1) {
        if link_req_missing(g, lr) {
            assert(emits_link(acts, lr));
        }
        lemma_link_settled(g, acts, g2, lr);
    } else {
        // a target link for the target seen in the new graph
        let t2 = target_name(g2)->0;
        lemma_wave3_sink_stable(g.nodes, g2.nodes);
        let t = target_name(g)->0;
        assert(t == t2);
        if link_req_missing(g, lr) {
            assert(emits_link(acts, lr));
        }
        lemma_link_settled(g, acts, g2, lr);
    }
}

/// A link that was present before, or whose creation the actions carry,
/// is present after.
proof fn lemma_link_settled(g: GraphView, acts: Seq<ReconcileAction>, g2: GraphView, lr: LinkReq)
    requires
        applied(g, acts, g2),
        !link_req_missing(g, lr) || emits_link(acts, lr),
    ensures
        spec_link_present(g2, lr.out_node, lr.out_port, lr.in_node, lr.in_port),
{
    if !link_req_missing(g, lr) {
        lemma_link_present_stable(g, g2, lr.out_node, lr.out_port, lr.in_node, lr.in_port);
    }
}


} // verus!
