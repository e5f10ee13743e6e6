//! The applier and the event-loop decisions: the single writer of
//! durable state.
//!
//! Commands are validated, applied to the in-memory state, persisted to
//! the store, turned into runtime requests, and answered with events.
//! Graph events drive the lifecycle state machine and application
//! routing. The surrounding process performs the requests and delivers
//! the events; every decision is made here.

use vstd::prelude::*;
use vstd::string::StringExecFns;
use crate::VOLUME_SCALE;
use crate::channel::ChannelState;
use crate::command::Command;
use crate::error::Error;
use crate::events::AppDiscoveredData;
use crate::events::ChannelMuteChangedData;
use crate::events::ChannelVolumeChangedData;
use crate::events::DeviceConnectedData;
use crate::events::EventOut;
use crate::factory::FactoryRequest;
use crate::graph::GraphManager;
use crate::graph::NodeInfo;
use crate::graph::PortDirection;
use crate::graph::clone_opt_string;
use crate::graph::spec_created_id;
use crate::graph::spec_find_node;
use crate::graph::spec_find_node_by_name;
use crate::messages::Request;
use crate::messages::Response;
use crate::mixer::MixType;
use crate::mixer::MixerState;
use crate::monitor::GraphEvent;
use crate::profile::ProfileChannel;
use crate::profile::profile_channel_of;
use crate::routing::RouteRule;
use crate::routing::PatternType;
use crate::routing::find_channel_for_app;
use crate::routing::spec_route;
use crate::server_logic::handle_request;
use crate::state::DaemonState;
use crate::store::Store;
use crate::store::channel_idx;
use crate::store::route_idx;
use crate::strutil::join3_str;
use crate::strutil::join_str;
use crate::strutil::str_eq;

verus! {

/// What applying a command asks of the surrounding process.
#[derive(Debug)]
pub struct ApplyOutcome {
    /// Whether the command validated and was applied.
    pub result: Result<(), Error>,
    /// Parameter requests for the runtime thread.
    pub requests: Vec<FactoryRequest>,
    /// Events to broadcast.
    pub events: Vec<EventOut>,
    /// Whether the daemon should shut down.
    pub shutdown: bool,
    /// Whether a reconciliation should run.
    pub needs_reconcile: bool,
    /// Whether the desired topology should be materialized from scratch.
    pub needs_topology: bool,
    /// Whether every channel's parameters should be pushed again.
    pub refresh_params: bool,
    /// A microphone gain to apply through the fallback control.
    pub mic_gain: Option<u32>,
    /// A microphone mute state to apply through the fallback control.
    pub mic_mute: Option<bool>,
}

/// The daemon's in-memory state: the single writer's view.
#[derive(Debug)]
pub struct Daemon {
    /// Lifecycle state.
    pub state: DaemonState,
    /// Whether the target device is connected.
    pub device_connected: bool,
    /// The target device's serial number, when connected.
    pub device_serial: Option<String>,
    /// Channel states.
    pub channels: Vec<ChannelState>,
    /// Routing rules.
    pub routes: Vec<RouteRule>,
    /// Mixer state.
    pub mixer: MixerState,
    /// Microphone mute state.
    pub mic_muted: bool,
    /// Name of the active profile.
    pub active_profile: String,
    /// Name of the monitor mix's output device.
    pub monitor_output: String,
    /// The persistent store's in-memory image.
    pub store: Store,
    /// The graph cache with the created-objects registry.
    pub graph: GraphManager,
}

/// Clamp a volume that may exceed full scale.
fn cap_volume(v: u32) -> (r: u32)
    ensures
        r == spec_cap(v),
{
    if v > VOLUME_SCALE {
        VOLUME_SCALE
    } else {
        v
    }
}

/// The clamped form of a possibly-too-large volume.
pub open spec fn spec_cap(v: u32) -> u32 {
    if v > VOLUME_SCALE {
        VOLUME_SCALE
    } else {
        v
    }
}

impl Daemon {
    /// Volumes are in range and the keyed collections are well formed.
    pub open spec fn wf(&self) -> bool {
        &&& forall|i: int| 0 <= i < self.channels@.len() ==> (#[trigger] self.channels@[i]).wf()
        &&& forall|i: int, j: int|
            0 <= i < j < self.channels@.len() ==> (#[trigger] self.channels@[i]).config.name@ != (
            #[trigger] self.channels@[j]).config.name@
        &&& self.mixer.wf()
        &&& self.store.wf()
        &&& crate::store::single_default(self.store@.profiles)
        &&& self.graph.wf()
    }

    /// An empty outcome to build on.
    fn outcome_ok() -> (r: ApplyOutcome)
        ensures
            r.result is Ok,
            r.requests@.len() == 0,
            r.events@.len() == 0,
            !r.shutdown,
            !r.needs_reconcile,
            !r.needs_topology,
            !r.refresh_params,
            r.mic_gain is None,
            r.mic_mute is None,
    {
        ApplyOutcome {
            result: Ok(()),
            requests: Vec::new(),
            events: Vec::new(),
            shutdown: false,
            needs_reconcile: false,
            needs_topology: false,
            refresh_params: false,
            mic_gain: None,
            mic_mute: None,
        }
    }

    /// A validation failure: nothing else happens.
    fn outcome_err(e: Error) -> (r: ApplyOutcome)
        ensures
            r.result == Err::<(), Error>(e),
            r.requests@.len() == 0,
            r.events@.len() == 0,
            !r.shutdown,
            !r.needs_reconcile,
            !r.needs_topology,
            !r.refresh_params,
            r.mic_gain is None,
            r.mic_mute is None,
    {
        ApplyOutcome {
            result: Err(e),
            requests: Vec::new(),
            events: Vec::new(),
            shutdown: false,
            needs_reconcile: false,
            needs_topology: false,
            refresh_params: false,
            mic_gain: None,
            mic_mute: None,
        }
    }

    /// Position of the channel with this name.
    fn channel_position(&self, name: &str) -> (r: Option<usize>)
        ensures
            match r {
                Some(i) => channel_idx(self.channels@, name@) == i as int && i
                    < self.channels@.len(),
                None => channel_idx(self.channels@, name@) < 0,
            },
    {
        let n: usize = self.channels.len();
        let mut i: usize = 0;
        while i < n
            invariant
                n == self.channels@.len(),
                i <= n,
                forall|k: int|
                    0 <= k < i ==> crate::store::chan_name_key()(#[trigger] self.channels@[k])
                        != name@,
            decreases n - i,
        {
            if str_eq(self.channels[i].config.name.as_str(), name) {
                proof {
                    crate::seqtools::lemma_find_key_idx(
                        self.channels@,
                        crate::store::chan_name_key(),
                        name@,
                    );
                    assert(crate::store::chan_name_key()(self.channels@[i as int]) == name@);
                }
                return Some(i);
            }
            i += 1;
        }
        proof {
            crate::seqtools::lemma_find_key_idx(
                self.channels@,
                crate::store::chan_name_key(),
                name@,
            );
        }
        None
    }

}



/// The fields no mutating command outside its own concern may touch.
pub open spec fn same_periphery(d0: Daemon, d: Daemon) -> bool {
    &&& d.device_connected == d0.device_connected
    &&& d.device_serial == d0.device_serial
    &&& d.mic_muted == d0.mic_muted
    &&& d.active_profile == d0.active_profile
    &&& d.monitor_output == d0.monitor_output
}

/// An outcome that raises no flag beyond its response, requests and events.
pub open spec fn no_side_signals(r: ApplyOutcome) -> bool {
    &&& !r.needs_reconcile && !r.needs_topology && !r.refresh_params
    &&& r.mic_gain is None && r.mic_mute is None
}

/// What persisting one channel's state does to the store: the named
/// channel's volumes and mutes now carry the given values; a name the
/// store does not know changes nothing.
pub open spec fn store_channel_saved(
    s0: crate::store::StoreView,
    channel: Seq<char>,
    cs: ChannelState,
    s: crate::store::StoreView,
) -> bool {
    &&& s.routes == s0.routes
    &&& s.profiles == s0.profiles
    &&& s.log == s0.log
    &&& ({
        let si = channel_idx(s0.channels, channel);
        if si >= 0 {
            &&& s.channels.len() == s0.channels.len()
            &&& forall|k: int| 0 <= k < s0.channels.len() && k != si ==> s.channels[k]
                == s0.channels[k]
            &&& s.channels[si].config == s0.channels[si].config
            &&& s.channels[si].node_id == s0.channels[si].node_id
            &&& s.channels[si].stream_volume == cs.stream_volume
            &&& s.channels[si].stream_muted == cs.stream_muted
            &&& s.channels[si].monitor_volume == cs.monitor_volume
            &&& s.channels[si].monitor_muted == cs.monitor_muted
        } else {
            s.channels == s0.channels
        }
    })
}

/// What persisting an application route does to the store: an upsert,
/// keyed by the pattern, of an exact-match rule at priority 100.
pub open spec fn store_route_saved(
    s0: crate::store::StoreView,
    app_pattern: Seq<char>,
    channel: Seq<char>,
    s: crate::store::StoreView,
) -> bool {
    &&& s.channels == s0.channels
    &&& s.profiles == s0.profiles
    &&& s.log == s0.log
    &&& ({
        let si = route_idx(s0.routes, app_pattern);
        let j: int = if si >= 0 {
            si
        } else {
            s0.routes.len() as int
        };
        &&& (si >= 0 ==> s.routes.len() == s0.routes.len())
        &&& (si < 0 ==> s.routes.len() == s0.routes.len() + 1)
        &&& forall|k: int| 0 <= k < s.routes.len() && k != j ==> s.routes[k] == s0.routes[k]
        &&& s.routes[j].pattern@ == app_pattern
        &&& s.routes[j].pattern_type is Exact
        &&& s.routes[j].channel@ == channel
        &&& s.routes[j].priority == 100
    })
}

/// What removing an application route does to the store.
pub open spec fn store_route_removed(
    s0: crate::store::StoreView,
    app_pattern: Seq<char>,
    s: crate::store::StoreView,
) -> bool {
    &&& s.channels == s0.channels
    &&& s.profiles == s0.profiles
    &&& s.log == s0.log
    &&& s.routes == (if route_idx(s0.routes, app_pattern) >= 0 {
        s0.routes.remove(route_idx(s0.routes, app_pattern))
    } else {
        s0.routes
    })
}

/// Everything `set_channel_volume` promises: the applier's contract for
/// a channel-volume command, from state `d0` to state `d`.
pub open spec fn set_channel_volume_post(
    d0: Daemon,
    channel: Seq<char>,
    mix: MixType,
    volume: u32,
    d: Daemon,
    r: ApplyOutcome,
) -> bool {
    &&& ({
        let i = channel_idx(d0.channels@, channel);
        let v = spec_cap(volume);
        if i >= 0 {
            &&& r.result is Ok
            &&& d.channels@.len() == d0.channels@.len()
            &&& forall|k: int|
                0 <= k < d0.channels@.len() && k != i ==> d.channels@[k] == d0.channels@[k]
            &&& d.channels@[i].config == d0.channels@[i].config
            &&& (mix is Stream ==> d.channels@[i].stream_volume == v && d.channels@[i].monitor_volume
                == d0.channels@[i].monitor_volume)
            &&& (mix is Monitor ==> d.channels@[i].monitor_volume == v && d.channels@[i].stream_volume
                == d0.channels@[i].stream_volume)
            &&& d.channels@[i].stream_muted == d0.channels@[i].stream_muted
            &&& d.channels@[i].monitor_muted == d0.channels@[i].monitor_muted
            &&& r.events@.len() == 1 && (r.events@[0] matches EventOut::ChannelVolumeChanged(ev)
                && ev.channel@ == channel && ev.mix == mix && ev.volume == v)
            &&& ({
                let fname = filter_name(channel, mix);
                match spec_created_id(d0.graph@.created_nodes, fname) {
                    Some(id) => r.requests@.len() == 1 && (r.requests@[0]
                        matches FactoryRequest::SetNodeVolume { node_id, volume: pv } && node_id
                        == id && pv == v),
                    None => r.requests@.len() == 0,
                }
            })
            &&& !r.shutdown
            &&& store_channel_saved(d0.store@, channel, d.channels@[i], d.store@)
        } else {
            &&& r.result matches Err(Error::ChannelNotFound(n)) && n@ == channel
            &&& d.channels@ == d0.channels@
            &&& d.store@ == d0.store@
            &&& r.requests@.len() == 0 && r.events@.len() == 0 && !r.shutdown
        }
    })
    &&& d.routes@ == d0.routes@
    &&& d.mixer == d0.mixer
    &&& d.state == d0.state
    &&& d.graph@ == d0.graph@
    &&& same_periphery(d0, d)
    &&& no_side_signals(r)
}

impl Daemon {
    /// Set one channel's volume in one mix: update the state, persist
    /// it, ask the runtime to set the filter node's parameter when its
    /// creation is recorded, and announce the change. An unknown channel
    /// is an error and changes nothing.
    pub fn set_channel_volume(&mut self, channel: &str, mix: MixType, volume: u32) -> (r:
        ApplyOutcome)
        requires
            old(self).wf(),
        ensures
            final(self).wf(),
            set_channel_volume_post(*old(self), channel@, mix, volume, *final(self), r),
    {
        let v = cap_volume(volume);
        match self.channel_position(channel) {
            Some(i) => {
                let updated = ChannelState {
                    config: self.channels[i].config.clone(),
                    stream_volume: if matches!(mix, MixType::Stream) {
                        v
                    } else {
                        self.channels[i].stream_volume
                    },
                    stream_muted: self.channels[i].stream_muted,
                    monitor_volume: if matches!(mix, MixType::Monitor) {
                        v
                    } else {
                        self.channels[i].monitor_volume
                    },
                    monitor_muted: self.channels[i].monitor_muted,
                    node_id: self.channels[i].node_id,
                };
                self.store.save_channel_state(channel, &updated);
                let ghost oldch = self.channels@;
                self.channels.set(i, updated);
                proof {
                    assert forall|a: int, b: int|
                        0 <= a < b < self.channels@.len() implies (
                    #[trigger] self.channels@[a]).config.name@ != (
                    #[trigger] self.channels@[b]).config.name@ by {
                        assert(self.channels@[a] == if a == i as int {
                            self.channels@[i as int]
                        } else {
                            oldch[a]
                        });
                        assert(self.channels@[b] == if b == i as int {
                            self.channels@[i as int]
                        } else {
                            oldch[b]
                        });
                        assert(self.channels@[i as int].config.name@ == oldch[i as int].config.name@);
                    }
                }
                let mut out = Self::outcome_ok();
                let fname = match mix {
                    MixType::Stream => join3_str("ch-", channel, "-stream-vol"),
                    MixType::Monitor => join3_str("ch-", channel, "-monitor-vol"),
                };
                match self.graph.get_created_node_id(fname.as_str()) {
                    Some(id) => {
                        out.requests.push(FactoryRequest::SetNodeVolume { node_id: id, volume: v });
                    },
                    None => {},
                }
                out.events.push(
                    EventOut::ChannelVolumeChanged(
                        ChannelVolumeChangedData {
                            channel: String::from_str(channel),
                            mix,
                            volume: v,
                        },
                    ),
                );
                out
            },
            None => Self::outcome_err(Error::ChannelNotFound(String::from_str(channel))),
        }
    }

    /// Set one channel's mute state in one mix. An unknown channel is an
    /// error and changes nothing.
    pub fn set_channel_mute(&mut self, channel: &str, mix: MixType, muted: bool) -> (r:
        ApplyOutcome)
        requires
            old(self).wf(),
        ensures
            final(self).wf(),
            set_channel_mute_post(*old(self), channel@, mix, muted, *final(self), r),
    {
        match self.channel_position(channel) {
            Some(i) => {
                let updated = ChannelState {
                    config: self.channels[i].config.clone(),
                    stream_volume: self.channels[i].stream_volume,
                    stream_muted: if matches!(mix, MixType::Stream) {
                        muted
                    } else {
                        self.channels[i].stream_muted
                    },
                    monitor_volume: self.channels[i].monitor_volume,
                    monitor_muted: if matches!(mix, MixType::Monitor) {
                        muted
                    } else {
                        self.channels[i].monitor_muted
                    },
                    node_id: self.channels[i].node_id,
                };
                self.store.save_channel_state(channel, &updated);
                let ghost oldch = self.channels@;
                self.channels.set(i, updated);
                proof {
                    assert forall|a: int, b: int|
                        0 <= a < b < self.channels@.len() implies (
                    #[trigger] self.channels@[a]).config.name@ != (
                    #[trigger] self.channels@[b]).config.name@ by {
                        assert(self.channels@[a] == if a == i as int {
                            self.channels@[i as int]
                        } else {
                            oldch[a]
                        });
                        assert(self.channels@[b] == if b == i as int {
                            self.channels@[i as int]
                        } else {
                            oldch[b]
                        });
                        assert(self.channels@[i as int].config.name@ == oldch[i as int].config.name@);
                    }
                }
                let mut out = Self::outcome_ok();
                let fname = match mix {
                    MixType::Stream => join3_str("ch-", channel, "-stream-vol"),
                    MixType::Monitor => join3_str("ch-", channel, "-monitor-vol"),
                };
                match self.graph.get_created_node_id(fname.as_str()) {
                    Some(id) => {
                        out.requests.push(FactoryRequest::SetNodeMute { node_id: id, muted });
                    },
                    None => {},
                }
                out.events.push(
                    EventOut::ChannelMuteChanged(
                        ChannelMuteChangedData { channel: String::from_str(channel), mix, muted },
                    ),
                );
                out
            },
            None => Self::outcome_err(Error::ChannelNotFound(String::from_str(channel))),
        }
    }
}

/// The volume-filter node name for a channel and mix.
pub open spec fn filter_name(channel: Seq<char>, mix: MixType) -> Seq<char> {
    match mix {
        MixType::Stream => "ch-"@ + channel + "-stream-vol"@,
        MixType::Monitor => "ch-"@ + channel + "-monitor-vol"@,
    }
}

/// Key extractor for saved channels by name.
pub open spec fn pc_name_key() -> spec_fn(ProfileChannel) -> Seq<char> {
    |pc: ProfileChannel| pc.name@
}

/// How one live channel looks after a profile was loaded over it: when
/// the profile saved a channel of this name, its clamped volumes and
/// its mutes are taken; otherwise the channel is unchanged. The
/// configuration and the node id always stay.
pub open spec fn loaded_channel(
    pcs: Seq<ProfileChannel>,
    before: ChannelState,
    after: ChannelState,
) -> bool {
    let pi = crate::seqtools::find_key_idx(pcs, pc_name_key(), before.config.name@);
    if pi >= 0 {
        &&& after.config == before.config
        &&& after.node_id == before.node_id
        &&& after.stream_volume == spec_cap(pcs[pi].stream_volume)
        &&& after.stream_muted == pcs[pi].stream_muted
        &&& after.monitor_volume == spec_cap(pcs[pi].monitor_volume)
        &&& after.monitor_muted == pcs[pi].monitor_muted
    } else {
        after == before
    }
}

/// The map from live channels to their saved form.
pub open spec fn profile_channel_fn() -> spec_fn(ChannelState) -> ProfileChannel {
    |cs: ChannelState| profile_channel_of(cs)
}

impl Daemon {
    /// Set a mix's master volume.
    pub fn set_master_volume(&mut self, mix: MixType, volume: u32) -> (r: ApplyOutcome)
        requires
            old(self).wf(),
        ensures
            final(self).wf(),
            set_master_volume_post(*old(self), mix, volume, *final(self), r),
    {
        let v = cap_volume(volume);
        match mix {
            MixType::Stream => {
                self.mixer.stream_master_volume = v;
            },
            MixType::Monitor => {
                self.mixer.monitor_master_volume = v;
            },
        }
        let mut out = Self::outcome_ok();
        out.events.push(EventOut::StateChanged);
        out
    }

    /// Set a mix's master mute state.
    pub fn set_master_mute(&mut self, mix: MixType, muted: bool) -> (r: ApplyOutcome)
        requires
            old(self).wf(),
        ensures
            final(self).wf(),
            set_master_mute_post(*old(self), mix, muted, *final(self), r),
    {
        match mix {
            MixType::Stream => {
                self.mixer.stream_master_muted = muted;
            },
            MixType::Monitor => {
                self.mixer.monitor_master_muted = muted;
            },
        }
        let mut out = Self::outcome_ok();
        out.events.push(EventOut::StateChanged);
        out
    }

    /// Position of the rule with this pattern.
    fn route_position(&self, pattern: &str) -> (r: Option<usize>)
        ensures
            match r {
                Some(i) => route_idx(self.routes@, pattern@) == i as int && i
                    < self.routes@.len(),
                None => route_idx(self.routes@, pattern@) < 0,
            },
    {
        let n: usize = self.routes.len();
        let mut i: usize = 0;
        while i < n
            invariant
                n == self.routes@.len(),
                i <= n,
                forall|k: int|
                    0 <= k < i ==> crate::store::route_pattern_key()(#[trigger] self.routes@[k])
                        != pattern@,
            decreases n - i,
        {
            if str_eq(self.routes[i].pattern.as_str(), pattern) {
                proof {
                    crate::seqtools::lemma_find_key_idx(
                        self.routes@,
                        crate::store::route_pattern_key(),
                        pattern@,
                    );
                    assert(crate::store::route_pattern_key()(self.routes@[i as int]) == pattern@);
                }
                return Some(i);
            }
            i += 1;
        }
        proof {
            crate::seqtools::lemma_find_key_idx(
                self.routes@,
                crate::store::route_pattern_key(),
                pattern@,
            );
        }
        None
    }

    /// Route applications matching a pattern to a channel: replace any
    /// rule with the same pattern by an exact-match rule at priority
    /// 100, persist it, and announce the change. An unknown channel is
    /// an error and changes nothing. Re-linking of matching live
    /// clients is planned separately with `plan_client_links` for each
    /// client `matching_clients` names.
    pub fn set_app_route(&mut self, app_pattern: &str, channel: &str) -> (r: ApplyOutcome)
        requires
            old(self).wf(),
        ensures
            final(self).wf(),
            set_app_route_post(*old(self), app_pattern@, channel@, *final(self), r),
    {
        match self.channel_position(channel) {
            Some(_) => {
                match self.route_position(app_pattern) {
                    Some(i) => {
                        self.routes.remove(i);
                    },
                    None => {},
                }
                let rule = RouteRule {
                    pattern: String::from_str(app_pattern),
                    pattern_type: PatternType::Exact,
                    channel: String::from_str(channel),
                    priority: 100,
                };
                self.store.save_route(&rule);
                proof {
                    crate::seqtools::lemma_find_key_idx(
                        old(self).store@.routes,
                        crate::store::route_pattern_key(),
                        app_pattern@,
                    );
                }
                self.routes.push(rule);
                let mut out = Self::outcome_ok();
                out.events.push(
                    EventOut::AppRouteChanged {
                        app_pattern: String::from_str(app_pattern),
                        channel: Some(String::from_str(channel)),
                    },
                );
                out
            },
            None => Self::outcome_err(Error::ChannelNotFound(String::from_str(channel))),
        }
    }

    /// Remove an application route by its pattern, from memory and from
    /// the store, and announce the change.
    pub fn remove_app_route(&mut self, app_pattern: &str) -> (r: ApplyOutcome)
        requires
            old(self).wf(),
        ensures
            final(self).wf(),
            remove_app_route_post(*old(self), app_pattern@, *final(self), r),
    {
        match self.route_position(app_pattern) {
            Some(i) => {
                self.routes.remove(i);
            },
            None => {},
        }
        self.store.delete_route(app_pattern);
        let mut out = Self::outcome_ok();
        out.events.push(
            EventOut::AppRouteChanged {
                app_pattern: String::from_str(app_pattern),
                channel: None,
            },
        );
        out
    }

    /// Build the profile that captures the current state under this
    /// name and default flag.
    fn build_profile(&self, name: &str, is_default: bool) -> (p: crate::profile::Profile)
        ensures
            p.name@ == name@,
            p.description is None,
            p.is_default == is_default,
            p.channels@ == self.channels@.map_values(profile_channel_fn()),
            p.routes@ == self.routes@,
            p.mixer == self.mixer,
    {
        let mut pcs: Vec<ProfileChannel> = Vec::new();
        let n: usize = self.channels.len();
        let mut i: usize = 0;
        while i < n
            invariant
                n == self.channels@.len(),
                i <= n,
                pcs@.len() == i,
                forall|k: int|
                    0 <= k < i ==> pcs@[k] == profile_channel_fn()(#[trigger] self.channels@[k]),
            decreases n - i,
        {
            pcs.push(ProfileChannel::of_state(&self.channels[i]));
            proof {
                assert(pcs@[i as int] == profile_channel_of(self.channels@[i as int]));
            }
            i += 1;
        }
        proof {
            assert(pcs@ =~= self.channels@.map_values(profile_channel_fn()));
        }
        crate::profile::Profile {
            name: String::from_str(name),
            description: None,
            is_default,
            channels: pcs,
            routes: crate::profile::clone_routes(&self.routes),
            mixer: self.mixer.clone(),
        }
    }

    /// Save the current state as a profile: an idempotent upsert under
    /// this name, keeping the default flag of a profile it replaces.
    pub fn save_profile_cmd(&mut self, name: &str) -> (r: ApplyOutcome)
        requires
            old(self).wf(),
        ensures
            final(self).wf(),
            save_profile_cmd_post(*old(self), name@, *final(self), r),
    {
        let keep_default = match self.store.load_profile(name) {
            Some(p) => p.is_default,
            None => false,
        };
        let profile = self.build_profile(name, keep_default);
        self.store.save_profile(&profile);
        proof {
            crate::seqtools::lemma_find_key_idx(
                old(self).store@.profiles,
                crate::store::profile_name_key(),
                name@,
            );
        }
        let mut out = Self::outcome_ok();
        out.events.push(EventOut::ProfileChanged { name: String::from_str(name) });
        out
    }

    /// Delete a profile: the default profile and unknown names fail and
    /// change nothing.
    pub fn delete_profile_cmd(&mut self, name: &str) -> (r: ApplyOutcome)
        requires
            old(self).wf(),
        ensures
            final(self).wf(),
            delete_profile_cmd_post(*old(self), name@, *final(self), r),
    {
        let deleted = self.store.delete_profile(name);
        proof {
            if deleted {
                let ps = old(self).store@.profiles;
                let ps2 = self.store@.profiles;
                crate::seqtools::lemma_find_key_idx(
                    ps,
                    crate::store::profile_name_key(),
                    name@,
                );
                let ii = crate::store::profile_idx(ps, name@);
                assert forall|a: int, b: int|
                    #![trigger ps2[a], ps2[b]]
                    0 <= a < b < ps2.len() implies !(ps2[a].is_default && ps2[b].is_default) by {
                    let a0: int = if a < ii {
                        a
                    } else {
                        a + 1
                    };
                    let b0: int = if b < ii {
                        b
                    } else {
                        b + 1
                    };
                    assert(ps2[a] == ps[a0]);
                    assert(ps2[b] == ps[b0]);
                }
            }
        }
        if deleted {
            let mut out = Self::outcome_ok();
            out.events.push(EventOut::ProfileChanged { name: String::from_str(name) });
            out
        } else {
            Self::outcome_err(Error::ProfileNotFound(String::from_str(name)))
        }
    }

    /// Set the microphone gain; the fallback control applies it.
    pub fn set_mic_gain(&mut self, gain: u32) -> (r: ApplyOutcome)
        requires
            old(self).wf(),
        ensures
            final(self).wf(),
            set_mic_gain_post(*old(self), gain, *final(self), r),
    {
        let v = cap_volume(gain);
        self.mixer.mic_stream_volume = v;
        let mut out = Self::outcome_ok();
        out.mic_gain = Some(v);
        out
    }

    /// Set the microphone mute state; the fallback control applies it.
    pub fn set_mic_mute(&mut self, muted: bool) -> (r: ApplyOutcome)
        requires
            old(self).wf(),
        ensures
            final(self).wf(),
            set_mic_mute_post(*old(self), muted, *final(self), r),
    {
        self.mic_muted = muted;
        let mut out = Self::outcome_ok();
        out.mic_mute = Some(muted);
        out.events.push(EventOut::MicMuteChanged { muted });
        out
    }

    /// Position of the saved channel with this name in a profile.
    fn pc_position(pcs: &Vec<ProfileChannel>, name: &str) -> (r: Option<usize>)
        ensures
            match r {
                Some(i) => crate::seqtools::find_key_idx(pcs@, pc_name_key(), name@) == i as int
                    && i < pcs@.len(),
                None => crate::seqtools::find_key_idx(pcs@, pc_name_key(), name@) < 0,
            },
    {
        let n: usize = pcs.len();
        let mut i: usize = 0;
        while i < n
            invariant
                n == pcs@.len(),
                i <= n,
                forall|k: int| 0 <= k < i ==> pc_name_key()(#[trigger] pcs@[k]) != name@,
            decreases n - i,
        {
            if str_eq(pcs[i].name.as_str(), name) {
                proof {
                    crate::seqtools::lemma_find_key_idx(pcs@, pc_name_key(), name@);
                    assert(pc_name_key()(pcs@[i as int]) == name@);
                }
                return Some(i);
            }
            i += 1;
        }
        proof {
            crate::seqtools::lemma_find_key_idx(pcs@, pc_name_key(), name@);
        }
        None
    }

    /// Load a saved profile: apply its channel states (clamped), its
    /// rules and its mixer state atomically to the in-memory state,
    /// make it active, and ask for every channel's parameters to be
    /// pushed again; the runtime updates that follow are best-effort.
    /// An unknown profile is an error and changes nothing.
    pub fn load_profile_cmd(&mut self, name: &str) -> (r: ApplyOutcome)
        requires
            old(self).wf(),
        ensures
            final(self).wf(),
            load_profile_cmd_post(*old(self), name@, *final(self), r),
    {
        match self.store.load_profile(name) {
            Some(p) => {
                let n: usize = self.channels.len();
                let mut k: usize = 0;
                while k < n
                    invariant
                        n == self.channels@.len(),
                        old(self).channels@.len() == n,
                        k <= n,
                        self.store@ == old(self).store@,
                        self.graph@ == old(self).graph@,
                        self.routes@ == old(self).routes@,
                        self.mixer == old(self).mixer,
                        self.state == old(self).state,
                        self.device_connected == old(self).device_connected,
                        self.device_serial == old(self).device_serial,
                        self.mic_muted == old(self).mic_muted,
                        self.active_profile == old(self).active_profile,
                        self.monitor_output == old(self).monitor_output,
                        crate::profile::profile_matches(p, old(self).store@.profiles[
                            crate::store::profile_idx(old(self).store@.profiles, name@)
                        ]),
                        crate::store::profile_idx(old(self).store@.profiles, name@) >= 0,
                        forall|j: int|
                            0 <= j < k ==> loaded_channel(
                                p.channels@,
                                old(self).channels@[j],
                                #[trigger] self.channels@[j],
                            ),
                        forall|j: int|
                            k <= j < n ==> #[trigger] self.channels@[j] == old(self).channels@[j],
                        forall|j: int|
                            0 <= j < n ==> (#[trigger] self.channels@[j]).config.name@ == old(
                                self,
                            ).channels@[j].config.name@,
                        forall|j: int| 0 <= j < n ==> (#[trigger] self.channels@[j]).wf(),
                    decreases n - k,
                {
                    match Self::pc_position(&p.channels, self.channels[k].config.name.as_str()) {
                        Some(pi) => {
                            let updated = ChannelState {
                                config: self.channels[k].config.clone(),
                                stream_volume: cap_volume(p.channels[pi].stream_volume),
                                stream_muted: p.channels[pi].stream_muted,
                                monitor_volume: cap_volume(p.channels[pi].monitor_volume),
                                monitor_muted: p.channels[pi].monitor_muted,
                                node_id: self.channels[k].node_id,
                            };
                            self.channels.set(k, updated);
                        },
                        None => {},
                    }
                    k += 1;
                }
                self.routes = crate::profile::clone_routes(&p.routes);
                self.mixer = MixerState {
                    stream_master_volume: cap_volume(p.mixer.stream_master_volume),
                    stream_master_muted: p.mixer.stream_master_muted,
                    monitor_master_volume: cap_volume(p.mixer.monitor_master_volume),
                    monitor_master_muted: p.mixer.monitor_master_muted,
                    mic_to_stream: p.mixer.mic_to_stream,
                    mic_stream_volume: cap_volume(p.mixer.mic_stream_volume),
                    mic_to_monitor: p.mixer.mic_to_monitor,
                    mic_monitor_volume: cap_volume(p.mixer.mic_monitor_volume),
                };
                self.active_profile = String::from_str(name);
                let mut out = Self::outcome_ok();
                out.refresh_params = true;
                out.events.push(EventOut::ProfileChanged { name: String::from_str(name) });
                out
            },
            None => Self::outcome_err(Error::ProfileNotFound(String::from_str(name))),
        }
    }

    /// Set the monitor mix's output device and ask for a reconciliation
    /// so its links move over.
    pub fn set_monitor_output(&mut self, device_name: &str) -> (r: ApplyOutcome)
        requires
            old(self).wf(),
        ensures
            final(self).wf(),
            set_monitor_output_post(*old(self), device_name@, *final(self), r),
    {
        self.monitor_output = String::from_str(device_name);
        let mut out = Self::outcome_ok();
        out.needs_reconcile = true;
        out.events.push(EventOut::StateChanged);
        out
    }
}

/// Whether a rule matches a client node: by application name, by binary
/// name, or by node name.
pub open spec fn client_rule_match(rule: RouteRule, n: NodeInfo) -> bool {
    ||| (n.application_name matches Some(a) && crate::routing::spec_rule_matches(rule, a@))
    ||| (n.binary_name matches Some(b) && crate::routing::spec_rule_matches(rule, b@))
    ||| crate::routing::spec_rule_matches(rule, n.name@)
}

/// Predicate: an unmanaged client stream this rule matches.
pub open spec fn matched_client_pred(rule: RouteRule) -> spec_fn(NodeInfo) -> bool {
    |n: NodeInfo| crate::graph::spec_is_audio_client(n) && client_rule_match(rule, n)
}

/// The id of a node, for mapping.
pub open spec fn node_id_fn() -> spec_fn(NodeInfo) -> u32 {
    |n: NodeInfo| n.id
}

/// The ids of the live client streams a rule matches, in cache order.
pub fn matching_clients(graph: &GraphManager, rule: &RouteRule) -> (r: Vec<u32>)
    ensures
        r@ == graph@.nodes.filter(matched_client_pred(*rule)).map_values(node_id_fn()),
{
    let nodes = graph.get_all_nodes();
    let mut out: Vec<u32> = Vec::new();
    let n: usize = nodes.len();
    let mut i: usize = 0;
    proof {
        assert(graph@.nodes.subrange(0, 0).filter(matched_client_pred(*rule)).map_values(
            node_id_fn(),
        ) =~= Seq::<u32>::empty());
    }
    while i < n
        invariant
            n == nodes@.len(),
            nodes@ == graph@.nodes,
            i <= n,
            out@ == graph@.nodes.subrange(0, i as int).filter(matched_client_pred(*rule)).map_values(
                node_id_fn(),
            ),
        decreases n - i,
    {
        let is_client = nodes[i].is_audio_client();
        let by_app = match &nodes[i].application_name {
            Some(a) => rule.matches(a.as_str()),
            None => false,
        };
        let by_bin = match &nodes[i].binary_name {
            Some(b) => rule.matches(b.as_str()),
            None => false,
        };
        let by_name = rule.matches(nodes[i].name.as_str());
        let hit = is_client && (by_app || by_bin || by_name);
        proof {
            crate::seqtools::lemma_filter_step(graph@.nodes, matched_client_pred(*rule), i as int);
            assert(matched_client_pred(*rule)(graph@.nodes[i as int]) == hit);
            let sub0 = graph@.nodes.subrange(0, i as int).filter(matched_client_pred(*rule));
            if hit {
                assert(sub0.push(graph@.nodes[i as int]).map_values(node_id_fn()) =~= sub0.map_values(
                    node_id_fn(),
                ).push(graph@.nodes[i as int].id));
            }
        }
        if hit {
            out.push(nodes[i].id);
        }
        i += 1;
    }
    proof {
        assert(graph@.nodes.subrange(0, n as int) =~= graph@.nodes);
    }
    out
}

/// The input ports of the named channel sink paired with a client's
/// output ports, up to stereo.
pub open spec fn client_links_ok(
    g: crate::graph::GraphView,
    client_id: u32,
    sink_name_seq: Seq<char>,
    reqs: Seq<FactoryRequest>,
) -> bool {
    spec_find_node_by_name(g.nodes, sink_name_seq) matches Some(sink) && {
        let outs = g.ports.filter(crate::graph::port_of_node_dir(client_id, PortDirection::Output));
        let ins = g.ports.filter(
            crate::graph::port_of_node_dir(sink.id, PortDirection::Input),
        );
        let m: int = if outs.len() < ins.len() {
            outs.len() as int
        } else {
            ins.len() as int
        };
        let m2: int = if m < 2 {
            m
        } else {
            2
        };
        &&& reqs.len() == m2
        &&& forall|j: int|
            0 <= j < m2 ==> ((#[trigger] reqs[j]) matches FactoryRequest::CreateLink {
                output_node,
                output_port,
                input_node,
                input_port,
            } && output_node == client_id && output_port@ == outs[j].name@ && input_node == sink.id
                && input_port@ == ins[j].name@)
    }
}

/// Plan a stereo pair of links from a client's output ports to a
/// channel sink's input ports, as far as both sides have ports. Fails
/// when the sink is not observed; a port still missing simply shortens
/// the plan, and the next reconciliation retries.
pub fn plan_client_links(graph: &GraphManager, client_id: u32, channel: &str) -> (r: Result<
    Vec<FactoryRequest>,
    crate::error::PwError,
>)
    ensures
        r matches Ok(reqs) ==> client_links_ok(graph@, client_id, "ch-"@ + channel@, reqs@),
        r is Err ==> spec_find_node_by_name(graph@.nodes, "ch-"@ + channel@) is None,
{
    let sink_name = join_str("ch-", channel);
    let sink = match graph.get_node_by_name(sink_name.as_str()) {
        Some(node) => node,
        None => {
            return Err(crate::error::PwError::NodeNotFound(sink_name));
        },
    };
    let outs = graph.get_output_ports(client_id);
    let ins = graph.get_input_ports(sink.id);
    let m0: usize = if outs.len() < ins.len() {
        outs.len()
    } else {
        ins.len()
    };
    let m: usize = if m0 < 2 {
        m0
    } else {
        2
    };
    let mut reqs: Vec<FactoryRequest> = Vec::new();
    let mut j: usize = 0;
    while j < m
        invariant
            m <= outs@.len() && m <= ins@.len(),
            outs@ == graph@.ports.filter(
                crate::graph::port_of_node_dir(client_id, PortDirection::Output),
            ),
            ins@ == graph@.ports.filter(
                crate::graph::port_of_node_dir(sink.id, PortDirection::Input),
            ),
            j <= m,
            reqs@.len() == j,
            forall|k: int|
                0 <= k < j ==> ((#[trigger] reqs@[k]) matches FactoryRequest::CreateLink {
                    output_node,
                    output_port,
                    input_node,
                    input_port,
                } && output_node == client_id && output_port@ == outs@[k].name@ && input_node
                    == sink.id && input_port@ == ins@[k].name@),
        decreases m - j,
    {
        reqs.push(
            FactoryRequest::CreateLink {
                output_node: client_id,
                output_port: outs[j].name.clone(),
                input_node: sink.id,
                input_port: ins[j].name.clone(),
            },
        );
        j += 1;
    }
    Ok(reqs)
}

impl Daemon {
    /// A daemon initialized from a fresh store: the five default
    /// channels, the default rules, the default profile, an empty graph
    /// cache, and the conventional target sink as monitor output.
    pub fn init() -> (r: Self)
        ensures
            r.wf(),
            r.state is Initializing,
            !r.device_connected,
            r.device_serial is None,
            crate::channel::is_default_channel_states(r.channels@),
            crate::routing::is_default_rules(r.routes@),
            r.channels@.len() == 5,
            r.routes@.len() == 9,
            !r.mic_muted,
            r.active_profile@ == "Default"@,
            r.monitor_output@ == "wave3-sink"@,
            r.graph@.nodes.len() == 0,
            r.graph@.created_nodes.len() == 0,
    {
        let store = Store::new();
        let channels = store.load_channels();
        let routes = store.load_routes();
        Daemon {
            state: DaemonState::Initializing,
            device_connected: false,
            device_serial: None,
            channels,
            routes,
            mixer: MixerState::default(),
            mic_muted: false,
            active_profile: String::from_str("Default"),
            monitor_output: String::from_str("wave3-sink"),
            store,
            graph: GraphManager::new(),
        }
    }

    /// Enter normal operation, once the surrounding process finished
    /// materializing or repairing the topology.
    pub fn set_running(&mut self)
        ensures
            final(self).state is Running,
            final(self).channels@ == old(self).channels@,
            final(self).routes@ == old(self).routes@,
            final(self).mixer == old(self).mixer,
            final(self).store@ == old(self).store@,
            final(self).graph@ == old(self).graph@,
            final(self).device_connected == old(self).device_connected,
            final(self).device_serial == old(self).device_serial,
            old(self).wf() ==> final(self).wf(),
    {
        self.state = DaemonState::Running;
    }

    /// Apply one command: the serialized mutation path. Each command's
    /// exact effect is restated here, variant by variant.
    pub fn apply_command(&mut self, cmd: Command) -> (r: ApplyOutcome)
        requires
            old(self).wf(),
        ensures
            final(self).wf(),
            apply_command_post(*old(self), cmd, *final(self), r),
    {
        match cmd {
            Command::SetChannelVolume { channel, mix, volume } => {
                self.set_channel_volume(channel.as_str(), mix, volume)
            },
            Command::SetChannelMute { channel, mix, muted } => {
                self.set_channel_mute(channel.as_str(), mix, muted)
            },
            Command::SetMasterVolume { mix, volume } => self.set_master_volume(mix, volume),
            Command::SetMasterMute { mix, muted } => self.set_master_mute(mix, muted),
            Command::SetAppRoute { app_pattern, channel } => {
                self.set_app_route(app_pattern.as_str(), channel.as_str())
            },
            Command::RemoveAppRoute { app_pattern } => {
                self.remove_app_route(app_pattern.as_str())
            },
            Command::SaveProfile { name } => self.save_profile_cmd(name.as_str()),
            Command::LoadProfile { name } => self.load_profile_cmd(name.as_str()),
            Command::DeleteProfile { name } => self.delete_profile_cmd(name.as_str()),
            Command::SetMicGain { gain } => self.set_mic_gain(gain),
            Command::SetMicMute { muted } => self.set_mic_mute(muted),
            Command::SetMonitorOutput { device_name } => {
                self.set_monitor_output(device_name.as_str())
            },
            Command::Reconcile => {
                self.state = DaemonState::Reconciling;
                let mut out = Self::outcome_ok();
                out.needs_reconcile = true;
                out
            },
            Command::Shutdown => {
                self.state = DaemonState::ShuttingDown;
                let mut out = Self::outcome_ok();
                out.shutdown = true;
                out
            },
        }
    }

    /// React to one observed graph event: drive the lifecycle state
    /// machine, route newly appeared clients, and plan the device
    /// links. The cache was already updated by ingestion.
    pub fn handle_graph_event(&mut self, ev: GraphEvent) -> (r: ApplyOutcome)
        requires
            old(self).wf(),
        ensures
            final(self).wf(),
            final(self).channels@ == old(self).channels@,
            final(self).routes@ == old(self).routes@,
            final(self).mixer == old(self).mixer,
            final(self).store@ == old(self).store@,
            final(self).graph@ == old(self).graph@,
            ev is Connected ==> {
                if old(self).state is Initializing {
                    final(self).state is CreatingNodes && r.needs_topology && !r.needs_reconcile
                } else {
                    final(self).state is Reconciling && r.needs_reconcile && !r.needs_topology
                }
            },
            ev is Disconnected ==> final(self).state is Error,
            (ev matches GraphEvent::Wave3Detected { serial } ==> {
                &&& final(self).device_connected
                &&& final(self).device_serial matches Some(sr) && sr@ == serial@
                &&& final(self).state is Running
                &&& r.events@.len() == 1 && (r.events@[0] matches EventOut::DeviceConnected(d)
                    && d.serial@ == serial@)
                &&& ({
                    let g = old(self).graph@;
                    if spec_created_id(g.created_links, "monitor-mix->wave3-sink:FL"@) is None
                        && spec_created_id(g.created_nodes, "monitor-mix"@) is Some
                        && spec_find_node_by_name(g.nodes, "wave3-sink"@) is Some {
                        r.requests@.len() == 2 && crate::plan::planned_stereo_pair(
                            spec_created_id(g.created_nodes, "monitor-mix"@)->0,
                            spec_find_node_by_name(g.nodes, "wave3-sink"@)->0.id,
                            r.requests@[0],
                            r.requests@[1],
                        )
                    } else {
                        r.requests@.len() == 0
                    }
                })
            }),
            ev is Wave3Removed ==> {
                &&& !final(self).device_connected
                &&& final(self).device_serial is None
                &&& final(self).state is DeviceDisconnected
                &&& r.events@.len() == 1 && r.events@[0] is DeviceDisconnected
            },
            (ev matches GraphEvent::ClientAppeared { id, name, pid } ==> {
                let binary = match spec_find_node(old(self).graph@.nodes, id) {
                    Some(n) => n.binary_name,
                    None => None,
                };
                let bview = match binary {
                    Some(b) => Some(b@),
                    None => None,
                };
                &&& final(self).state == old(self).state
                &&& r.events@.len() == 1 && (r.events@[0] matches EventOut::AppDiscovered(d)
                    && d.app_id == id && d.name@ == name@ && d.pid == pid && spec_route(
                    old(self).routes@,
                    name@,
                    bview,
                    d.channel@,
                ) && (spec_find_node_by_name(
                    old(self).graph@.nodes,
                    "ch-"@ + d.channel@,
                ) is Some ==> client_links_ok(
                    old(self).graph@,
                    id,
                    "ch-"@ + d.channel@,
                    r.requests@,
                )))
            }),
            (ev matches GraphEvent::ClientDisappeared { id } ==> r.events@.len() == 1 && (
            r.events@[0] matches EventOut::AppRemoved { app_id } && app_id == id)),
            (ev is NodeAdded || ev is NodeRemoved || ev is PortAdded || ev is PortRemoved
                || ev is LinkCreated || ev is LinkRemoved) ==> final(self).state == old(
                self,
            ).state && r.events@.len() == 0 && r.requests@.len() == 0,
            !r.shutdown,
    {
        match ev {
            GraphEvent::Connected => {
                let mut out = Self::outcome_ok();
                match &self.state {
                    DaemonState::Initializing => {
                        self.state = DaemonState::CreatingNodes;
                        out.needs_topology = true;
                    },
                    _ => {
                        self.state = DaemonState::Reconciling;
                        out.needs_reconcile = true;
                    },
                }
                out
            },
            GraphEvent::Disconnected => {
                self.state = DaemonState::Error(
                    String::from_str("audio server connection lost"),
                );
                Self::outcome_ok()
            },
            GraphEvent::Wave3Detected { serial } => {
                self.device_connected = true;
                self.device_serial = Some(serial.clone());
                self.state = DaemonState::Running;
                let mut out = Self::outcome_ok();
                if !self.graph.has_created_link("monitor-mix->wave3-sink:FL") {
                    match crate::plan::plan_monitor_to_headphones(&self.graph) {
                        Ok(reqs) => {
                            out.requests = reqs;
                        },
                        Err(_) => {},
                    }
                }
                out.events.push(
                    EventOut::DeviceConnected(DeviceConnectedData { serial }),
                );
                out
            },
            GraphEvent::Wave3Removed => {
                self.device_connected = false;
                self.device_serial = None;
                self.state = DaemonState::DeviceDisconnected;
                let mut out = Self::outcome_ok();
                out.events.push(EventOut::DeviceDisconnected);
                out
            },
            GraphEvent::ClientAppeared { id, name, pid } => {
                let binary = match self.graph.get_node(id) {
                    Some(n) => clone_opt_string(&n.binary_name),
                    None => None,
                };
                let target = match &binary {
                    Some(b) => find_channel_for_app(name.as_str(), Some(b.as_str()), self.routes.as_slice()),
                    None => find_channel_for_app(name.as_str(), None, self.routes.as_slice()),
                };
                let mut out = Self::outcome_ok();
                match plan_client_links(&self.graph, id, target.as_str()) {
                    Ok(reqs) => {
                        out.requests = reqs;
                    },
                    Err(_) => {},
                }
                out.events.push(
                    EventOut::AppDiscovered(
                        AppDiscoveredData { app_id: id, name, binary, pid, channel: target },
                    ),
                );
                out
            },
            GraphEvent::ClientDisappeared { id } => {
                let mut out = Self::outcome_ok();
                out.events.push(EventOut::AppRemoved { app_id: id });
                out
            },
            _ => Self::outcome_ok(),
        }
    }

    /// Answer a batch of requests from one client, applying their
    /// commands in arrival order.
    ///
    /// This is the serialized processing discipline: the response at
    /// each position answers the request at the same position against
    /// the state the earlier requests left behind, so a single client's
    /// responses come back in request order.
    pub fn process_requests(&mut self, requests: &Vec<Request>) -> (r: Vec<Response>)
        requires
            old(self).wf(),
        ensures
            final(self).wf(),
            r@.len() == requests@.len(),
            forall|i: int| 0 <= i < r@.len() ==> (#[trigger] r@[i]).id == requests@[i].id,
            process_trace(*old(self), requests@, r@, *final(self)),
    {
        let mut out: Vec<Response> = Vec::new();
        let n: usize = requests.len();
        let mut i: usize = 0;
        proof {
            assert(requests@.subrange(0, 0) =~= Seq::<Request>::empty());
            assert(out@ =~= Seq::<Response>::empty());
            assert(process_trace(*old(self), requests@.subrange(0, 0), out@, *self));
        }
        while i < n
            invariant
                n == requests@.len(),
                i <= n,
                self.wf(),
                out@.len() == i,
                forall|k: int| 0 <= k < i ==> (#[trigger] out@[k]).id == requests@[k].id,
                process_trace(*old(self), requests@.subrange(0, i as int), out@, *self),
            decreases n - i,
        {
            let ghost pre = *self;
            let ghost out0 = out@;
            let snapshot = self.snapshot();
            let hr = handle_request(&requests[i].method, &snapshot);
            let ghost ghr = hr;
            let ghost gsnap = snapshot;
            match hr.command {
                Some(cmd) => {
                    let outcome = self.apply_command(cmd);
                    proof {
                        let gout = outcome;
                        assert(apply_command_post(pre, ghr.command->0, *self, gout));
                    }
                },
                None => {},
            }
            out.push(Response { id: requests[i].id, result: hr.response });
            proof {
                assert(snapshot_of(pre, gsnap));
                assert(crate::server_logic::handle_request_post(
                    requests@[i as int].method,
                    gsnap,
                    ghr,
                ));
                assert(out@.last().id == requests@[i as int].id);
                assert(out@.last().result == ghr.response);
                assert(process_step(pre, requests@[i as int], out@.last(), *self));
                let sub1 = requests@.subrange(0, i + 1);
                assert(sub1.drop_last() =~= requests@.subrange(0, i as int));
                assert(sub1.last() == requests@[i as int]);
                assert(out@.drop_last() =~= out0);
                lemma_trace_snoc(
                    *old(self),
                    requests@.subrange(0, i as int),
                    out0,
                    pre,
                    requests@[i as int],
                    out@.last(),
                    *self,
                );
                assert(sub1 =~= requests@.subrange(0, i as int).push(requests@[i as int]));
                assert(out@ =~= out0.push(out@.last()));
                assert(process_trace(*old(self), sub1, out@, *self));
            }
            i += 1;
        }
        proof {
            assert(requests@.subrange(0, n as int) =~= requests@);
        }
        out
    }

    /// The daemon's observable state, for the query path.
    pub fn snapshot(&self) -> (r: crate::state::StateSnapshot)
        ensures
            r.state == self.state,
            r.device_connected == self.device_connected,
            r.device_serial == self.device_serial,
            r.channels@ == self.channels@,
            r.app_routes@.len() == 0,
            r.mixer == self.mixer,
            r.active_profile == self.active_profile,
            r.profiles@.len() == self.store@.profiles.len(),
            forall|i: int|
                0 <= i < r.profiles@.len() ==> (#[trigger] r.profiles@[i]).name@
                    == self.store@.profiles[i].name@ && r.profiles@[i].is_default
                    == self.store@.profiles[i].is_default,
            r.monitor_output == self.monitor_output,
            r.created_nodes@ == self.graph@.created_nodes,
            r.created_links@ == self.graph@.created_links,
            self.wf() ==> r.wf(),
    {
        let devices_raw = self.graph.get_audio_output_devices();
        let mut devices: Vec<crate::state::OutputDevice> = Vec::new();
        let n: usize = devices_raw.len();
        let mut i: usize = 0;
        while i < n
            invariant
                n == devices_raw@.len(),
                i <= n,
                devices@.len() == i,
            decreases n - i,
        {
            let desc = match &devices_raw[i].description {
                Some(d) => d.clone(),
                None => devices_raw[i].name.clone(),
            };
            devices.push(
                crate::state::OutputDevice {
                    name: devices_raw[i].name.clone(),
                    description: desc,
                    node_id: devices_raw[i].id,
                },
            );
            i += 1;
        }
        crate::state::StateSnapshot {
            state: self.state.clone(),
            device_connected: self.device_connected,
            device_serial: clone_opt_string(&self.device_serial),
            channels: crate::state::clone_channel_states(&self.channels),
            app_routes: Vec::new(),
            mixer: self.mixer.clone(),
            active_profile: self.active_profile.clone(),
            profiles: self.store.list_profiles(),
            output_devices: devices,
            monitor_output: self.monitor_output.clone(),
            created_nodes: self.graph.get_created_nodes(),
            created_links: self.graph.get_created_links(),
        }
    }
}

/// Everything `set_channel_mute` promises: the applier's contract for this
/// command, from state `d0` to state `d`.
pub open spec fn set_channel_mute_post(
    d0: Daemon,
    channel: Seq<char>,
    mix: MixType,
    muted: bool,
    d: Daemon,
    r: ApplyOutcome,
) -> bool {
    &&& ({
                let i = channel_idx(d0.channels@, channel);
                if i >= 0 {
                    &&& r.result is Ok
                    &&& d.channels@.len() == d0.channels@.len()
                    &&& forall|k: int|
                        0 <= k < d0.channels@.len() && k != i ==> d.channels@[k]
                            == d0.channels@[k]
                    &&& d.channels@[i].config == d0.channels@[i].config
                    &&& (mix is Stream ==> d.channels@[i].stream_muted == muted && d.channels@[i].monitor_muted == d0.channels@[i].monitor_muted)
                    &&& (mix is Monitor ==> d.channels@[i].monitor_muted == muted
                        && d.channels@[i].stream_muted == d0.channels@[i].stream_muted)
                    &&& d.channels@[i].stream_volume == d0.channels@[i].stream_volume
                    &&& d.channels@[i].monitor_volume == d0.channels@[i].monitor_volume
                    &&& r.events@.len() == 1 && (r.events@[0] matches EventOut::ChannelMuteChanged(
                        ev,
                    ) && ev.channel@ == channel && ev.mix == mix && ev.muted == muted)
                    &&& ({
                        let fname = filter_name(channel, mix);
                        match spec_created_id(d0.graph@.created_nodes, fname) {
                            Some(id) => r.requests@.len() == 1 && (r.requests@[0]
                                matches FactoryRequest::SetNodeMute { node_id, muted: pm }
                                && node_id == id && pm == muted),
                            None => r.requests@.len() == 0,
                        }
                    })
                    &&& !r.shutdown
                    &&& store_channel_saved(d0.store@, channel, d.channels@[i], d.store@)
                } else {
                    &&& r.result matches Err(Error::ChannelNotFound(n)) && n@ == channel
                    &&& d.channels@ == d0.channels@
                    &&& d.store@ == d0.store@
                    &&& r.requests@.len() == 0 && r.events@.len() == 0 && !r.shutdown
                }
            })
    &&& d.routes@ == d0.routes@
    &&& d.mixer == d0.mixer
    &&& d.state == d0.state
    &&& d.graph@ == d0.graph@
    &&& same_periphery(d0, d)
    &&& no_side_signals(r)
}

/// Everything `set_master_volume` promises: the applier's contract for this
/// command, from state `d0` to state `d`.
pub open spec fn set_master_volume_post(
    d0: Daemon,
    mix: MixType,
    volume: u32,
    d: Daemon,
    r: ApplyOutcome,
) -> bool {
    &&& r.result is Ok
    &&& (mix is Stream ==> d.mixer.stream_master_volume == spec_cap(volume) && d.mixer.monitor_master_volume == d0.mixer.monitor_master_volume)
    &&& (mix is Monitor ==> d.mixer.monitor_master_volume == spec_cap(volume)
                && d.mixer.stream_master_volume == d0.mixer.stream_master_volume)
    &&& d.mixer.stream_master_muted == d0.mixer.stream_master_muted
    &&& d.mixer.monitor_master_muted == d0.mixer.monitor_master_muted
    &&& d.channels@ == d0.channels@
    &&& d.routes@ == d0.routes@
    &&& d.store@ == d0.store@
    &&& d.graph@ == d0.graph@
    &&& d.state == d0.state
    &&& same_periphery(d0, d)
    &&& no_side_signals(r)
    &&& r.events@.len() == 1 && r.events@[0] is StateChanged
    &&& r.requests@.len() == 0 && !r.shutdown
}

/// Everything `set_master_mute` promises: the applier's contract for this
/// command, from state `d0` to state `d`.
pub open spec fn set_master_mute_post(
    d0: Daemon,
    mix: MixType,
    muted: bool,
    d: Daemon,
    r: ApplyOutcome,
) -> bool {
    &&& r.result is Ok
    &&& (mix is Stream ==> d.mixer.stream_master_muted == muted && d.mixer.monitor_master_muted == d0.mixer.monitor_master_muted)
    &&& (mix is Monitor ==> d.mixer.monitor_master_muted == muted && d.mixer.stream_master_muted == d0.mixer.stream_master_muted)
    &&& d.mixer.stream_master_volume == d0.mixer.stream_master_volume
    &&& d.mixer.monitor_master_volume == d0.mixer.monitor_master_volume
    &&& d.channels@ == d0.channels@
    &&& d.routes@ == d0.routes@
    &&& d.store@ == d0.store@
    &&& d.graph@ == d0.graph@
    &&& d.state == d0.state
    &&& same_periphery(d0, d)
    &&& no_side_signals(r)
    &&& r.events@.len() == 1 && r.events@[0] is StateChanged
    &&& r.requests@.len() == 0 && !r.shutdown
}

/// Everything `set_app_route` promises: the applier's contract for this
/// command, from state `d0` to state `d`.
pub open spec fn set_app_route_post(
    d0: Daemon,
    app_pattern: Seq<char>,
    channel: Seq<char>,
    d: Daemon,
    r: ApplyOutcome,
) -> bool {
    &&& d.channels@ == d0.channels@
    &&& d.mixer == d0.mixer
    &&& d.graph@ == d0.graph@
    &&& d.state == d0.state
    &&& ({
                if channel_idx(d0.channels@, channel) >= 0 {
                    &&& r.result is Ok
                    &&& ({
                        let base = if route_idx(d0.routes@, app_pattern) >= 0 {
                            d0.routes@.remove(route_idx(d0.routes@, app_pattern))
                        } else {
                            d0.routes@
                        };
                        &&& d.routes@.len() == base.len() + 1
                        &&& forall|k: int| 0 <= k < base.len() ==> d.routes@[k] == base[k]
                        &&& d.routes@.last().pattern@ == app_pattern
                        &&& d.routes@.last().pattern_type is Exact
                        &&& d.routes@.last().channel@ == channel
                        &&& d.routes@.last().priority == 100
                    })
                    &&& r.events@.len() == 1 && (r.events@[0] matches EventOut::AppRouteChanged {
                        app_pattern: p,
                        channel: c,
                    } && p@ == app_pattern && (c matches Some(cn) && cn@ == channel))
                    &&& store_route_saved(d0.store@, app_pattern, channel, d.store@)
                } else {
                    &&& r.result matches Err(Error::ChannelNotFound(n)) && n@ == channel
                    &&& d.routes@ == d0.routes@
                    &&& d.store@ == d0.store@
                    &&& r.events@.len() == 0
                }
            })
    &&& same_periphery(d0, d)
    &&& no_side_signals(r)
    &&& r.requests@.len() == 0 && !r.shutdown
}

/// Everything `remove_app_route` promises: the applier's contract for this
/// command, from state `d0` to state `d`.
pub open spec fn remove_app_route_post(
    d0: Daemon,
    app_pattern: Seq<char>,
    d: Daemon,
    r: ApplyOutcome,
) -> bool {
    &&& d.channels@ == d0.channels@
    &&& d.mixer == d0.mixer
    &&& d.graph@ == d0.graph@
    &&& d.state == d0.state
    &&& r.result is Ok
    &&& d.routes@ == (if route_idx(d0.routes@, app_pattern) >= 0 {
                d0.routes@.remove(route_idx(d0.routes@, app_pattern))
            } else {
                d0.routes@
            })
    &&& r.events@.len() == 1 && (r.events@[0] matches EventOut::AppRouteChanged {
                app_pattern: p,
                channel: c,
            } && p@ == app_pattern && c is None)
    &&& store_route_removed(d0.store@, app_pattern, d.store@)
    &&& same_periphery(d0, d)
    &&& no_side_signals(r)
    &&& r.requests@.len() == 0 && !r.shutdown
}

/// Everything `save_profile_cmd` promises: the applier's contract for this
/// command, from state `d0` to state `d`.
pub open spec fn save_profile_cmd_post(
    d0: Daemon,
    name: Seq<char>,
    d: Daemon,
    r: ApplyOutcome,
) -> bool {
    &&& d.channels@ == d0.channels@
    &&& d.routes@ == d0.routes@
    &&& d.mixer == d0.mixer
    &&& d.graph@ == d0.graph@
    &&& d.state == d0.state
    &&& r.result is Ok
    &&& ({
                let ps = d0.store@.profiles;
                let ps2 = d.store@.profiles;
                let i = crate::store::profile_idx(ps, name);
                let j: int = if i >= 0 {
                    i
                } else {
                    ps.len() as int
                };
                &&& (i >= 0 ==> ps2.len() == ps.len() && ps2[j].is_default == ps[i].is_default)
                &&& (i < 0 ==> ps2.len() == ps.len() + 1 && !ps2[j].is_default)
                &&& forall|k: int| 0 <= k < ps2.len() && k != j ==> ps2[k] == ps[k]
                &&& ps2[j].name@ == name
                &&& ps2[j].mixer == d0.mixer
                &&& ps2[j].routes@ == d0.routes@.filter(
                    crate::store::known_route_pred(d0.store@.channels),
                )
                &&& ps2[j].channels@ == d0.channels@.map_values(
                    profile_channel_fn(),
                ).filter(crate::store::known_channel_pred(d0.store@.channels))
            })
    &&& d.store@.channels == d0.store@.channels
    &&& d.store@.routes == d0.store@.routes
    &&& d.store@.log == d0.store@.log
    &&& same_periphery(d0, d)
    &&& no_side_signals(r)
    &&& r.events@.len() == 1 && (r.events@[0] matches EventOut::ProfileChanged { name: n }
                && n@ == name)
    &&& r.requests@.len() == 0 && !r.shutdown
}

/// Everything `load_profile_cmd` promises: the applier's contract for this
/// command, from state `d0` to state `d`.
pub open spec fn load_profile_cmd_post(
    d0: Daemon,
    name: Seq<char>,
    d: Daemon,
    r: ApplyOutcome,
) -> bool {
    &&& d.graph@ == d0.graph@
    &&& d.store@ == d0.store@
    &&& ({
                let li = crate::store::profile_idx(d0.store@.profiles, name);
                if li >= 0 {
                    let sp = d0.store@.profiles[li];
                    &&& r.result is Ok
                    &&& d.channels@.len() == d0.channels@.len()
                    &&& forall|k: int|
                        0 <= k < d0.channels@.len() ==> loaded_channel(
                            sp.channels@,
                            d0.channels@[k],
                            #[trigger] d.channels@[k],
                        )
                    &&& d.routes@ == sp.routes@
                    &&& d.mixer.stream_master_volume == spec_cap(
                        sp.mixer.stream_master_volume,
                    )
                    &&& d.mixer.monitor_master_volume == spec_cap(
                        sp.mixer.monitor_master_volume,
                    )
                    &&& d.mixer.stream_master_muted == sp.mixer.stream_master_muted
                    &&& d.mixer.monitor_master_muted == sp.mixer.monitor_master_muted
                    &&& d.active_profile@ == name
                    &&& r.refresh_params
                    &&& r.events@.len() == 1 && (r.events@[0] matches EventOut::ProfileChanged {
                        name: n,
                    } && n@ == name)
                } else {
                    &&& r.result matches Err(Error::ProfileNotFound(n)) && n@ == name
                    &&& d.channels@ == d0.channels@
                    &&& d.routes@ == d0.routes@
                    &&& d.mixer == d0.mixer
                    &&& d.active_profile == d0.active_profile
                    &&& !r.refresh_params
                    &&& r.events@.len() == 0
                }
            })
    &&& d.state == d0.state
    &&& d.device_connected == d0.device_connected
    &&& d.device_serial == d0.device_serial
    &&& d.mic_muted == d0.mic_muted
    &&& d.monitor_output == d0.monitor_output
    &&& !r.needs_reconcile && !r.needs_topology
    &&& r.mic_gain is None && r.mic_mute is None
    &&& r.requests@.len() == 0 && !r.shutdown
}

/// Everything `delete_profile_cmd` promises: the applier's contract for this
/// command, from state `d0` to state `d`.
pub open spec fn delete_profile_cmd_post(
    d0: Daemon,
    name: Seq<char>,
    d: Daemon,
    r: ApplyOutcome,
) -> bool {
    &&& d.channels@ == d0.channels@
    &&& d.routes@ == d0.routes@
    &&& d.mixer == d0.mixer
    &&& d.graph@ == d0.graph@
    &&& d.state == d0.state
    &&& crate::store::delete_profile_post(
                d0.store@,
                name,
                r.result is Ok,
                d.store@,
            )
    &&& (r.result is Ok ==> r.events@.len() == 1 && (r.events@[0]
                matches EventOut::ProfileChanged { name: n } && n@ == name))
    &&& (r.result is Err ==> r.events@.len() == 0)
    &&& same_periphery(d0, d)
    &&& no_side_signals(r)
    &&& r.requests@.len() == 0 && !r.shutdown
}

/// Everything `set_mic_gain` promises: the applier's contract for this
/// command, from state `d0` to state `d`.
pub open spec fn set_mic_gain_post(
    d0: Daemon,
    gain: u32,
    d: Daemon,
    r: ApplyOutcome,
) -> bool {
    &&& d.mixer.mic_stream_volume == spec_cap(gain)
    &&& d.mixer.stream_master_volume == d0.mixer.stream_master_volume
    &&& d.mixer.stream_master_muted == d0.mixer.stream_master_muted
    &&& d.mixer.monitor_master_volume == d0.mixer.monitor_master_volume
    &&& d.mixer.monitor_master_muted == d0.mixer.monitor_master_muted
    &&& d.mixer.mic_to_stream == d0.mixer.mic_to_stream
    &&& d.mixer.mic_to_monitor == d0.mixer.mic_to_monitor
    &&& d.mixer.mic_monitor_volume == d0.mixer.mic_monitor_volume
    &&& d.channels@ == d0.channels@
    &&& d.routes@ == d0.routes@
    &&& d.store@ == d0.store@
    &&& d.graph@ == d0.graph@
    &&& d.state == d0.state
    &&& same_periphery(d0, d)
    &&& r.result is Ok
    &&& r.mic_gain == Some(spec_cap(gain))
    &&& r.mic_mute is None
    &&& !r.needs_reconcile && !r.needs_topology && !r.refresh_params
    &&& r.requests@.len() == 0 && r.events@.len() == 0 && !r.shutdown
}

/// Everything `set_mic_mute` promises: the applier's contract for this
/// command, from state `d0` to state `d`.
pub open spec fn set_mic_mute_post(
    d0: Daemon,
    muted: bool,
    d: Daemon,
    r: ApplyOutcome,
) -> bool {
    &&& d.mic_muted == muted
    &&& d.channels@ == d0.channels@
    &&& d.routes@ == d0.routes@
    &&& d.mixer == d0.mixer
    &&& d.store@ == d0.store@
    &&& d.graph@ == d0.graph@
    &&& d.state == d0.state
    &&& d.device_connected == d0.device_connected
    &&& d.device_serial == d0.device_serial
    &&& d.active_profile == d0.active_profile
    &&& d.monitor_output == d0.monitor_output
    &&& r.result is Ok
    &&& r.mic_mute == Some(muted)
    &&& r.mic_gain is None
    &&& !r.needs_reconcile && !r.needs_topology && !r.refresh_params
    &&& r.events@.len() == 1 && (r.events@[0] matches EventOut::MicMuteChanged { muted: m }
                && m == muted)
    &&& r.requests@.len() == 0 && !r.shutdown
}

/// Everything `set_monitor_output` promises: the applier's contract for this
/// command, from state `d0` to state `d`.
pub open spec fn set_monitor_output_post(
    d0: Daemon,
    device_name: Seq<char>,
    d: Daemon,
    r: ApplyOutcome,
) -> bool {
    &&& d.monitor_output@ == device_name
    &&& d.channels@ == d0.channels@
    &&& d.routes@ == d0.routes@
    &&& d.mixer == d0.mixer
    &&& d.store@ == d0.store@
    &&& d.graph@ == d0.graph@
    &&& d.state == d0.state
    &&& d.device_connected == d0.device_connected
    &&& d.device_serial == d0.device_serial
    &&& d.mic_muted == d0.mic_muted
    &&& d.active_profile == d0.active_profile
    &&& r.result is Ok
    &&& r.needs_reconcile
    &&& !r.needs_topology && !r.refresh_params
    &&& r.mic_gain is None && r.mic_mute is None
    &&& r.events@.len() == 1 && r.events@[0] is StateChanged
    &&& r.requests@.len() == 0 && !r.shutdown
}

/// Everything `apply_command` promises, command by command: the selected
/// method's full postcondition.
pub open spec fn apply_command_post(d0: Daemon, cmd: Command, d: Daemon, r: ApplyOutcome) -> bool {
    match cmd {
                Command::SetChannelVolume { channel, mix, volume } => set_channel_volume_post(
                    d0,
                    channel@,
                    mix,
                    volume,
                    d,
                    r,
                ),
                Command::SetChannelMute { channel, mix, muted } => set_channel_mute_post(
                    d0,
                    channel@,
                    mix,
                    muted,
                    d,
                    r,
                ),
                Command::SetMasterVolume { mix, volume } => set_master_volume_post(
                    d0,
                    mix,
                    volume,
                    d,
                    r,
                ),
                Command::SetMasterMute { mix, muted } => set_master_mute_post(
                    d0,
                    mix,
                    muted,
                    d,
                    r,
                ),
                Command::SetAppRoute { app_pattern, channel } => set_app_route_post(
                    d0,
                    app_pattern@,
                    channel@,
                    d,
                    r,
                ),
                Command::RemoveAppRoute { app_pattern } => remove_app_route_post(
                    d0,
                    app_pattern@,
                    d,
                    r,
                ),
                Command::SaveProfile { name } => save_profile_cmd_post(
                    d0,
                    name@,
                    d,
                    r,
                ),
                Command::LoadProfile { name } => load_profile_cmd_post(
                    d0,
                    name@,
                    d,
                    r,
                ),
                Command::DeleteProfile { name } => delete_profile_cmd_post(
                    d0,
                    name@,
                    d,
                    r,
                ),
                Command::SetMicGain { gain } => set_mic_gain_post(
                    d0,
                    gain,
                    d,
                    r,
                ),
                Command::SetMicMute { muted } => set_mic_mute_post(
                    d0,
                    muted,
                    d,
                    r,
                ),
                Command::SetMonitorOutput { device_name } => set_monitor_output_post(
                    d0,
                    device_name@,
                    d,
                    r,
                ),
                Command::Reconcile => reconcile_cmd_post(d0, d, r),
                Command::Shutdown => shutdown_cmd_post(d0, d, r),
            }
}

/// Whether `snap` is a snapshot of daemon state `d`.
pub open spec fn snapshot_of(d: Daemon, snap: crate::state::StateSnapshot) -> bool {
    &&& snap.state == d.state
    &&& snap.device_connected == d.device_connected
    &&& snap.device_serial == d.device_serial
    &&& snap.channels@ == d.channels@
    &&& snap.app_routes@.len() == 0
    &&& snap.mixer == d.mixer
    &&& snap.active_profile == d.active_profile
    &&& snap.profiles@.len() == d.store@.profiles.len()
    &&& forall|i: int|
        0 <= i < snap.profiles@.len() ==> (#[trigger] snap.profiles@[i]).name@
            == d.store@.profiles[i].name@ && snap.profiles@[i].is_default
            == d.store@.profiles[i].is_default
    &&& snap.monitor_output == d.monitor_output
    &&& snap.created_nodes@ == d.graph@.created_nodes
    &&& snap.created_links@ == d.graph@.created_links
}

/// One serialized processing step: a snapshot of `d0` is taken, the
/// request is handled against it, the response carries the request's id
/// and the handler's answer, and the returned command (if any) is
/// applied, taking the state to `d1`.
pub open spec fn process_step(d0: Daemon, req: Request, resp: Response, d1: Daemon) -> bool {
    exists|snap: crate::state::StateSnapshot, hr: crate::server_logic::HandleResult|
        {
            &&& snapshot_of(d0, snap)
            &&& #[trigger] crate::server_logic::handle_request_post(req.method, snap, hr)
            &&& resp.id == req.id
            &&& resp.result == hr.response
            &&& match hr.command {
                Some(cmd) => exists|out: ApplyOutcome|
                    #[trigger] apply_command_post(d0, cmd, d1, out),
                None => d1 == d0,
            }
        }
}

/// The serialized processing of a request batch: position by position,
/// each response answers its request against the state the earlier
/// requests left behind.
pub open spec fn process_trace(
    d0: Daemon,
    reqs: Seq<Request>,
    resps: Seq<Response>,
    dn: Daemon,
) -> bool
    decreases reqs.len(),
{
    if reqs.len() == 0 {
        dn == d0 && resps.len() == 0
    } else {
        &&& resps.len() == reqs.len()
        &&& exists|dmid: Daemon|
            process_trace(d0, reqs.drop_last(), resps.drop_last(), dmid) && #[trigger] process_step(
                dmid,
                reqs.last(),
                resps.last(),
                dn,
            )
    }
}

/// Extending a serialized trace by one processed request.
proof fn lemma_trace_snoc(
    d0: Daemon,
    reqs: Seq<Request>,
    resps: Seq<Response>,
    dmid: Daemon,
    req: Request,
    resp: Response,
    dn: Daemon,
)
    requires
        process_trace(d0, reqs, resps, dmid),
        resps.len() == reqs.len(),
        process_step(dmid, req, resp, dn),
    ensures
        process_trace(d0, reqs.push(req), resps.push(resp), dn),
{
    reveal_with_fuel(process_trace, 2);
    let reqs2 = reqs.push(req);
    let resps2 = resps.push(resp);
    assert(reqs2.drop_last() =~= reqs);
    assert(resps2.drop_last() =~= resps);
    assert(reqs2.last() == req);
    assert(resps2.last() == resp);
    assert(process_trace(d0, reqs2.drop_last(), resps2.drop_last(), dmid));
    assert(process_step(dmid, reqs2.last(), resps2.last(), dn));
    assert(exists|dm: Daemon|
        #[trigger] process_trace(d0, reqs2.drop_last(), resps2.drop_last(), dm) && process_step(
            dm,
            reqs2.last(),
            resps2.last(),
            dn,
        ));
}

/// Everything the `Reconcile` command promises: the state moves to
/// reconciling, a reconciliation is requested, and nothing else changes.
pub open spec fn reconcile_cmd_post(d0: Daemon, d: Daemon, r: ApplyOutcome) -> bool {
    &&& d.state is Reconciling
    &&& d.device_connected == d0.device_connected
    &&& d.device_serial == d0.device_serial
    &&& d.channels@ == d0.channels@
    &&& d.routes@ == d0.routes@
    &&& d.mixer == d0.mixer
    &&& d.mic_muted == d0.mic_muted
    &&& d.active_profile == d0.active_profile
    &&& d.monitor_output == d0.monitor_output
    &&& d.store@ == d0.store@
    &&& d.graph@ == d0.graph@
    &&& r.result is Ok
    &&& r.requests@.len() == 0 && r.events@.len() == 0
    &&& !r.shutdown && r.needs_reconcile && !r.needs_topology && !r.refresh_params
    &&& r.mic_gain is None && r.mic_mute is None
}

/// Everything the `Shutdown` command promises: the state moves to
/// shutting down, the process is told to stop, and nothing else changes.
pub open spec fn shutdown_cmd_post(d0: Daemon, d: Daemon, r: ApplyOutcome) -> bool {
    &&& d.state is ShuttingDown
    &&& d.device_connected == d0.device_connected
    &&& d.device_serial == d0.device_serial
    &&& d.channels@ == d0.channels@
    &&& d.routes@ == d0.routes@
    &&& d.mixer == d0.mixer
    &&& d.mic_muted == d0.mic_muted
    &&& d.active_profile == d0.active_profile
    &&& d.monitor_output == d0.monitor_output
    &&& d.store@ == d0.store@
    &&& d.graph@ == d0.graph@
    &&& r.result is Ok
    &&& r.requests@.len() == 0 && r.events@.len() == 0
    &&& r.shutdown && !r.needs_reconcile && !r.needs_topology && !r.refresh_params
    &&& r.mic_gain is None && r.mic_mute is None
}

} // verus!
