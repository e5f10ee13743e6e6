//! Planning of factory requests: what the daemon asks the runtime
//! thread to create, derived from channel names and the created-objects
//! registry.
//!
//! Node creation must come first; only the server's responses reveal the
//! assigned ids, which the registry records. Link planning then resolves
//! endpoint ids from the registry and the cache.

use vstd::prelude::*;
use vstd::string::StringExecFns;
use crate::error::PwError;
use crate::factory::FactoryRequest;
use crate::factory::VirtualSinkProps;
use crate::graph::GraphManager;
use crate::graph::GraphView;
use crate::graph::NodeInfo;
use crate::graph::spec_created_id;
use crate::graph::spec_find_node_by_name;
use crate::graph::undertone_channel_pred;
use crate::strutil::capitalize;
use crate::strutil::join3_str;
use crate::strutil::join_str;
use crate::strutil::spec_capitalize;

verus! {

/// The sink properties planned for one channel name.
pub open spec fn planned_sink(name: Seq<char>, p: VirtualSinkProps) -> bool {
    &&& p.name@ == "ch-"@ + name
    &&& p.description@ == "Undertone: "@ + spec_capitalize(name) + " Channel"@
    &&& p.channels == 2
    &&& p.positions@ == "FL,FR"@
}

/// One sink creation per channel name, in order.
pub fn plan_channel_sinks(channels: &Vec<String>) -> (r: Vec<VirtualSinkProps>)
    ensures
        r@.len() == channels@.len(),
        forall|i: int|
            0 <= i < r@.len() ==> planned_sink((#[trigger] channels@[i])@, r@[i]),
{
    let mut out: Vec<VirtualSinkProps> = Vec::new();
    let n: usize = channels.len();
    let mut i: usize = 0;
    while i < n
        invariant
            n == channels@.len(),
            i <= n,
            out@.len() == i,
            forall|k: int| 0 <= k < i ==> planned_sink((#[trigger] channels@[k])@, out@[k]),
        decreases n - i,
    {
        let name = join_str("ch-", channels[i].as_str());
        let cap = capitalize(channels[i].as_str());
        let desc = join3_str("Undertone: ", cap.as_str(), " Channel");
        out.push(
            VirtualSinkProps {
                name,
                description: desc,
                channels: 2,
                positions: String::from_str("FL,FR"),
            },
        );
        i += 1;
    }
    out
}

/// The three mix nodes, in creation order.
pub fn plan_mix_nodes() -> (r: Vec<VirtualSinkProps>)
    ensures
        r@.len() == 3,
        r@[0].name@ == "stream-mix"@ && r@[0].description@ == "Undertone: Stream Mix"@
            && r@[0].channels == 2 && r@[0].positions@ == "FL,FR"@,
        r@[1].name@ == "stream-out"@ && r@[1].description@ == "Undertone: Stream Output"@
            && r@[1].channels == 2 && r@[1].positions@ == "FL,FR"@,
        r@[2].name@ == "monitor-mix"@ && r@[2].description@ == "Undertone: Monitor Mix"@
            && r@[2].channels == 2 && r@[2].positions@ == "FL,FR"@,
{
    let mut out: Vec<VirtualSinkProps> = Vec::new();
    out.push(VirtualSinkProps::stereo("stream-mix", "Undertone: Stream Mix"));
    out.push(VirtualSinkProps::stereo("stream-out", "Undertone: Stream Output"));
    out.push(VirtualSinkProps::stereo("monitor-mix", "Undertone: Monitor Mix"));
    out
}

/// The volume-filter creation planned for one channel name and path.
pub open spec fn planned_filter(
    name: Seq<char>,
    path: Seq<char>,
    path_label: Seq<char>,
    req: FactoryRequest,
) -> bool {
    req matches FactoryRequest::CreateVolumeFilter { name: n, description: d, channels } && n@
        == "ch-"@ + name + path && d@ == "Undertone: "@ + spec_capitalize(name) + path_label
        && channels == 2
}

/// Two volume-filter creations per channel name: the stream path, then
/// the monitor path.
pub fn plan_channel_volume_filters(channels: &Vec<String>) -> (r: Vec<FactoryRequest>)
    ensures
        r@.len() == 2 * channels@.len(),
        forall|i: int|
            0 <= i < channels@.len() ==> planned_filter(
                (#[trigger] channels@[i])@,
                "-stream-vol"@,
                " Stream Volume"@,
                r@[2 * i],
            ) && planned_filter(
                channels@[i]@,
                "-monitor-vol"@,
                " Monitor Volume"@,
                r@[2 * i + 1],
            ),
{
    let mut out: Vec<FactoryRequest> = Vec::new();
    let n: usize = channels.len();
    let mut i: usize = 0;
    while i < n
        invariant
            n == channels@.len(),
            i <= n,
            out@.len() == 2 * i,
            forall|k: int|
                0 <= k < i ==> planned_filter(
                    (#[trigger] channels@[k])@,
                    "-stream-vol"@,
                    " Stream Volume"@,
                    out@[2 * k],
                ) && planned_filter(
                    channels@[k]@,
                    "-monitor-vol"@,
                    " Monitor Volume"@,
                    out@[2 * k + 1],
                ),
        decreases n - i,
    {
        let cap = capitalize(channels[i].as_str());
        out.push(
            FactoryRequest::CreateVolumeFilter {
                name: join_str("ch-", channels[i].as_str()).concat("-stream-vol"),
                description: join3_str("Undertone: ", cap.as_str(), " Stream Volume"),
                channels: 2,
            },
        );
        out.push(
            FactoryRequest::CreateVolumeFilter {
                name: join_str("ch-", channels[i].as_str()).concat("-monitor-vol"),
                description: join3_str("Undertone: ", cap.as_str(), " Monitor Volume"),
                channels: 2,
            },
        );
        i += 1;
    }
    out
}

/// One planned stereo pair: two link requests between the given node
/// ids, monitor ports to playback ports.
pub open spec fn planned_stereo_pair(
    out_id: u32,
    in_id: u32,
    left: FactoryRequest,
    right: FactoryRequest,
) -> bool {
    &&& (left matches FactoryRequest::CreateLink {
        output_node,
        output_port,
        input_node,
        input_port,
    } && output_node == out_id && output_port@ == "monitor_FL"@ && input_node == in_id
        && input_port@ == "playback_FL"@)
    &&& (right matches FactoryRequest::CreateLink {
        output_node,
        output_port,
        input_node,
        input_port,
    } && output_node == out_id && output_port@ == "monitor_FR"@ && input_node == in_id
        && input_port@ == "playback_FR"@)
}

/// Append a planned stereo pair between two node ids.
fn push_stereo_pair(reqs: &mut Vec<FactoryRequest>, out_id: u32, in_id: u32)
    ensures
        final(reqs)@.len() == old(reqs)@.len() + 2,
        forall|k: int| 0 <= k < old(reqs)@.len() ==> final(reqs)@[k] == old(reqs)@[k],
        planned_stereo_pair(
            out_id,
            in_id,
            final(reqs)@[final(reqs)@.len() - 2],
            final(reqs)@[final(reqs)@.len() - 1],
        ),
{
    reqs.push(
        FactoryRequest::CreateLink {
            output_node: out_id,
            output_port: String::from_str("monitor_FL"),
            input_node: in_id,
            input_port: String::from_str("playback_FL"),
        },
    );
    reqs.push(
        FactoryRequest::CreateLink {
            output_node: out_id,
            output_port: String::from_str("monitor_FR"),
            input_node: in_id,
            input_port: String::from_str("playback_FR"),
        },
    );
}

/// The ids a channel's link plan needs: the channel node itself and its
/// two volume filters from the created-objects registry.
pub open spec fn channel_filter_ids(g: GraphView, node: NodeInfo) -> Option<(u32, u32)> {
    let sv = spec_created_id(g.created_nodes, node.name@ + "-stream-vol"@);
    let mv = spec_created_id(g.created_nodes, node.name@ + "-monitor-vol"@);
    if sv is Some && mv is Some {
        Some((sv->0, mv->0))
    } else {
        None
    }
}

/// The eight link requests planned for one channel node.
pub open spec fn planned_channel_links(
    g: GraphView,
    node: NodeInfo,
    reqs: Seq<FactoryRequest>,
    base: int,
) -> bool {
    channel_filter_ids(g, node) matches Some((sv, mv)) && {
        &&& planned_stereo_pair(node.id, sv, reqs[base], reqs[base + 1])
        &&& planned_stereo_pair(sv, spec_created_id(g.created_nodes, "stream-mix"@)->0, reqs[base
            + 2], reqs[base + 3])
        &&& planned_stereo_pair(node.id, mv, reqs[base + 4], reqs[base + 5])
        &&& planned_stereo_pair(mv, spec_created_id(g.created_nodes, "monitor-mix"@)->0, reqs[base
            + 6], reqs[base + 7])
    }
}

/// Plan the links from every channel sink through its volume filters to
/// the two mixes: for each channel node, four stereo pairs. Fails when
/// the mixes or a channel's filters have no recorded creation.
pub fn plan_channel_to_mix_links(graph: &GraphManager) -> (r: Result<
    Vec<FactoryRequest>,
    PwError,
>)
    ensures
        r matches Ok(reqs) ==> {
            let chans = graph@.nodes.filter(undertone_channel_pred());
            &&& spec_created_id(graph@.created_nodes, "stream-mix"@) is Some
            &&& spec_created_id(graph@.created_nodes, "monitor-mix"@) is Some
            &&& reqs@.len() == 8 * chans.len()
            &&& forall|c: int|
                0 <= c < chans.len() ==> planned_channel_links(
                    graph@,
                    #[trigger] chans[c],
                    reqs@,
                    8 * c,
                )
        },
        r is Err ==> {
            ||| spec_created_id(graph@.created_nodes, "stream-mix"@) is None
            ||| spec_created_id(graph@.created_nodes, "monitor-mix"@) is None
            ||| exists|c: int|
                0 <= c < graph@.nodes.filter(undertone_channel_pred()).len()
                    && channel_filter_ids(
                    graph@,
                    #[trigger] graph@.nodes.filter(undertone_channel_pred())[c],
                ) is None
        },
{
    let stream_mix_id = match graph.get_created_node_id("stream-mix") {
        Some(id) => id,
        None => {
            return Err(PwError::NodeNotFound(String::from_str("stream-mix")));
        },
    };
    let monitor_mix_id = match graph.get_created_node_id("monitor-mix") {
        Some(id) => id,
        None => {
            return Err(PwError::NodeNotFound(String::from_str("monitor-mix")));
        },
    };
    let chans = graph.get_undertone_channels();
    let mut reqs: Vec<FactoryRequest> = Vec::new();
    let n: usize = chans.len();
    let mut c: usize = 0;
    while c < n
        invariant
            n == chans@.len(),
            chans@ == graph@.nodes.filter(undertone_channel_pred()),
            spec_created_id(graph@.created_nodes, "stream-mix"@) == Some(stream_mix_id),
            spec_created_id(graph@.created_nodes, "monitor-mix"@) == Some(monitor_mix_id),
            c <= n,
            reqs@.len() == 8 * c,
            forall|k: int|
                0 <= k < c ==> planned_channel_links(graph@, #[trigger] chans@[k], reqs@, 8 * k),
        decreases n - c,
    {
        let ghost reqs0 = reqs@;
        let stream_vol_name = join_str(chans[c].name.as_str(), "-stream-vol");
        let monitor_vol_name = join_str(chans[c].name.as_str(), "-monitor-vol");
        let stream_vol_id = match graph.get_created_node_id(stream_vol_name.as_str()) {
            Some(id) => id,
            None => {
                return Err(PwError::NodeNotFound(stream_vol_name));
            },
        };
        let monitor_vol_id = match graph.get_created_node_id(monitor_vol_name.as_str()) {
            Some(id) => id,
            None => {
                return Err(PwError::NodeNotFound(monitor_vol_name));
            },
        };
        let channel_id = chans[c].id;
        push_stereo_pair(&mut reqs, channel_id, stream_vol_id);
        push_stereo_pair(&mut reqs, stream_vol_id, stream_mix_id);
        push_stereo_pair(&mut reqs, channel_id, monitor_vol_id);
        push_stereo_pair(&mut reqs, monitor_vol_id, monitor_mix_id);
        proof {
            assert(channel_filter_ids(graph@, chans@[c as int]) == Some(
                (stream_vol_id, monitor_vol_id),
            ));
            assert(planned_channel_links(graph@, chans@[c as int], reqs@, 8 * c));
            assert forall|k: int| 0 <= k < c implies planned_channel_links(
                graph@,
                #[trigger] chans@[k],
                reqs@,
                8 * k,
            ) by {
                assert(forall|m: int| 0 <= m < reqs0.len() ==> reqs@[m] == reqs0[m]);
            }
        }
        c += 1;
    }
    Ok(reqs)
}

/// Plan the stereo pair from the monitor mix to the target device's
/// headphone sink. Fails when the monitor mix has no recorded creation
/// or the target sink is not observed.
pub fn plan_monitor_to_headphones(graph: &GraphManager) -> (r: Result<Vec<FactoryRequest>, PwError>)
    ensures
        r matches Ok(reqs) ==> {
            &&& spec_created_id(graph@.created_nodes, "monitor-mix"@) is Some
            &&& spec_find_node_by_name(graph@.nodes, "wave3-sink"@) is Some
            &&& reqs@.len() == 2
            &&& planned_stereo_pair(
                spec_created_id(graph@.created_nodes, "monitor-mix"@)->0,
                spec_find_node_by_name(graph@.nodes, "wave3-sink"@)->0.id,
                reqs@[0],
                reqs@[1],
            )
        },
        r is Err ==> spec_created_id(graph@.created_nodes, "monitor-mix"@) is None
            || spec_find_node_by_name(graph@.nodes, "wave3-sink"@) is None,
{
    let monitor_mix_id = match graph.get_created_node_id("monitor-mix") {
        Some(id) => id,
        None => {
            return Err(PwError::NodeNotFound(String::from_str("monitor-mix")));
        },
    };
    let target = match graph.get_node_by_name("wave3-sink") {
        Some(node) => node,
        None => {
            return Err(PwError::NodeNotFound(String::from_str("wave3-sink")));
        },
    };
    let mut reqs: Vec<FactoryRequest> = Vec::new();
    push_stereo_pair(&mut reqs, monitor_mix_id, target.id);
    Ok(reqs)
}

} // verus!
