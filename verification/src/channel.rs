//! Virtual audio channels and their state.

use vstd::prelude::*;
use vstd::string::StringExecFns;
use crate::VOLUME_SCALE;
use crate::valid_volume;
use crate::strutil::join_str;
use crate::strutil::join3_str;

verus! {

/// Configuration of a virtual audio channel.
#[derive(Debug)]
pub struct ChannelConfig {
    /// Internal name and stable key (`system`, `voice`, ...).
    pub name: String,
    /// Human-readable display name.
    pub display_name: String,
    /// Icon identifier.
    pub icon: Option<String>,
    /// Colour hex code.
    pub color: Option<String>,
    /// Ordering index in the mixer.
    pub sort_order: i32,
    /// Whether this channel is system-defined.
    pub is_system: bool,
}

impl Clone for ChannelConfig {
    fn clone(&self) -> (r: Self)
        ensures
            r == *self,
    {
        ChannelConfig {
            name: self.name.clone(),
            display_name: self.display_name.clone(),
            icon: match &self.icon {
                Some(s) => Some(s.clone()),
                None => None,
            },
            color: match &self.color {
                Some(s) => Some(s.clone()),
                None => None,
            },
            sort_order: self.sort_order,
            is_system: self.is_system,
        }
    }
}

impl ChannelConfig {
    /// A system-defined channel with the given key, display name and order.
    pub fn system(name: &str, display_name: &str, sort_order: i32) -> (r: Self)
        ensures
            r.name@ == name@,
            r.display_name@ == display_name@,
            r.icon is None,
            r.color is None,
            r.sort_order == sort_order,
            r.is_system,
    {
        ChannelConfig {
            name: String::from_str(name),
            display_name: String::from_str(display_name),
            icon: None,
            color: None,
            sort_order,
            is_system: true,
        }
    }

    /// The graph node name of this channel's sink.
    pub fn node_name(&self) -> (r: String)
        ensures
            r@ == "ch-"@ + self.name@,
    {
        join_str("ch-", self.name.as_str())
    }

    /// The graph node name of this channel's stream-path volume filter.
    pub fn stream_vol_node_name(&self) -> (r: String)
        ensures
            r@ == "ch-"@ + self.name@ + "-stream-vol"@,
    {
        join3_str("ch-", self.name.as_str(), "-stream-vol")
    }

    /// The graph node name of this channel's monitor-path volume filter.
    pub fn monitor_vol_node_name(&self) -> (r: String)
        ensures
            r@ == "ch-"@ + self.name@ + "-monitor-vol"@,
    {
        join3_str("ch-", self.name.as_str(), "-monitor-vol")
    }
}

/// The five system channels, in their mixer order.
pub fn default_channels() -> (r: Vec<ChannelConfig>)
    ensures
        r@.len() == 5,
        r@[0].name@ == "system"@ && r@[0].display_name@ == "System"@ && r@[0].sort_order == 0,
        r@[1].name@ == "voice"@ && r@[1].display_name@ == "Voice"@ && r@[1].sort_order == 1,
        r@[2].name@ == "music"@ && r@[2].display_name@ == "Music"@ && r@[2].sort_order == 2,
        r@[3].name@ == "browser"@ && r@[3].display_name@ == "Browser"@ && r@[3].sort_order == 3,
        r@[4].name@ == "game"@ && r@[4].display_name@ == "Game"@ && r@[4].sort_order == 4,
        forall|k: int|
            0 <= k < 5 ==> (#[trigger] r@[k]).is_system && r@[k].icon is None && r@[k].color
                is None,
{
    let mut v: Vec<ChannelConfig> = Vec::new();
    v.push(ChannelConfig::system("system", "System", 0));
    v.push(ChannelConfig::system("voice", "Voice", 1));
    v.push(ChannelConfig::system("music", "Music", 2));
    v.push(ChannelConfig::system("browser", "Browser", 3));
    v.push(ChannelConfig::system("game", "Game", 4));
    v
}

/// Runtime state of a channel. Volumes are thousandths of full scale.
#[derive(Debug)]
pub struct ChannelState {
    /// The channel's configuration.
    pub config: ChannelConfig,
    /// Volume in the stream mix.
    pub stream_volume: u32,
    /// Muted in the stream mix.
    pub stream_muted: bool,
    /// Volume in the monitor mix.
    pub monitor_volume: u32,
    /// Muted in the monitor mix.
    pub monitor_muted: bool,
    /// The id of this channel's sink node, once created.
    pub node_id: Option<u32>,
}

impl ChannelState {
    /// Both stored volumes lie within the valid range.
    pub open spec fn wf(&self) -> bool {
        valid_volume(self.stream_volume) && valid_volume(self.monitor_volume)
    }

    /// A fresh channel state: full volume, unmuted, no node yet.
    pub fn new(config: ChannelConfig) -> (r: Self)
        ensures
            r.config == config,
            r.stream_volume == VOLUME_SCALE,
            !r.stream_muted,
            r.monitor_volume == VOLUME_SCALE,
            !r.monitor_muted,
            r.node_id is None,
            r.wf(),
    {
        ChannelState {
            config,
            stream_volume: VOLUME_SCALE,
            stream_muted: false,
            monitor_volume: VOLUME_SCALE,
            monitor_muted: false,
            node_id: None,
        }
    }
}

impl Clone for ChannelState {
    fn clone(&self) -> (r: Self)
        ensures
            r == *self,
    {
        ChannelState {
            config: self.config.clone(),
            stream_volume: self.stream_volume,
            stream_muted: self.stream_muted,
            monitor_volume: self.monitor_volume,
            monitor_muted: self.monitor_muted,
            node_id: self.node_id,
        }
    }
}

/// Whether `chs` is exactly the freshly seeded channel list: the five
/// system channels in mixer order, at full volume, unmuted, without
/// graph nodes.
pub open spec fn is_default_channel_states(chs: Seq<ChannelState>) -> bool {
    &&& chs.len() == 5
    &&& chs[0].config.name@ == "system"@ && chs[0].config.display_name@ == "System"@
        && chs[0].config.sort_order == 0
    &&& chs[1].config.name@ == "voice"@ && chs[1].config.display_name@ == "Voice"@
        && chs[1].config.sort_order == 1
    &&& chs[2].config.name@ == "music"@ && chs[2].config.display_name@ == "Music"@
        && chs[2].config.sort_order == 2
    &&& chs[3].config.name@ == "browser"@ && chs[3].config.display_name@ == "Browser"@
        && chs[3].config.sort_order == 3
    &&& chs[4].config.name@ == "game"@ && chs[4].config.display_name@ == "Game"@
        && chs[4].config.sort_order == 4
    &&& forall|k: int|
        0 <= k < 5 ==> (#[trigger] chs[k]).config.is_system && chs[k].config.icon is None
            && chs[k].config.color is None && chs[k].stream_volume == VOLUME_SCALE
            && !chs[k].stream_muted && chs[k].monitor_volume == VOLUME_SCALE
            && !chs[k].monitor_muted && chs[k].node_id is None
}

/// A channel together with its store identity.
#[derive(Debug)]
pub struct Channel {
    /// Store key.
    pub id: i64,
    /// The channel's state.
    pub state: ChannelState,
}

impl Clone for Channel {
    fn clone(&self) -> (r: Self)
        ensures
            r == *self,
    {
        Channel { id: self.id, state: self.state.clone() }
    }
}

} // verus!
