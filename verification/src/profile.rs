//! Profiles: named snapshots of the mixer configuration.

use vstd::prelude::*;
use vstd::string::StringExecFns;
use crate::channel::ChannelState;
use crate::graph::clone_opt_string;
use crate::mixer::MixerState;
use crate::mixer::is_default_mixer;
use crate::routing::RouteRule;
use crate::routing::default_routes;
use crate::valid_volume;

verus! {

/// One channel's saved state inside a profile.
#[derive(Debug)]
pub struct ProfileChannel {
    /// Channel name.
    pub name: String,
    /// Stream-mix volume, thousandths of full scale.
    pub stream_volume: u32,
    /// Stream-mix muted.
    pub stream_muted: bool,
    /// Monitor-mix volume, thousandths of full scale.
    pub monitor_volume: u32,
    /// Monitor-mix muted.
    pub monitor_muted: bool,
}

impl Clone for ProfileChannel {
    fn clone(&self) -> (r: Self)
        ensures
            r == *self,
    {
        ProfileChannel {
            name: self.name.clone(),
            stream_volume: self.stream_volume,
            stream_muted: self.stream_muted,
            monitor_volume: self.monitor_volume,
            monitor_muted: self.monitor_muted,
        }
    }
}

/// The saved form of a channel's live state, as a value.
pub open spec fn profile_channel_of(cs: ChannelState) -> ProfileChannel {
    ProfileChannel {
        name: cs.config.name,
        stream_volume: cs.stream_volume,
        stream_muted: cs.stream_muted,
        monitor_volume: cs.monitor_volume,
        monitor_muted: cs.monitor_muted,
    }
}

impl ProfileChannel {
    /// Both stored volumes lie within the valid range.
    pub open spec fn wf(&self) -> bool {
        valid_volume(self.stream_volume) && valid_volume(self.monitor_volume)
    }

    /// The saved form of a channel's live state.
    pub fn of_state(state: &ChannelState) -> (r: Self)
        ensures
            r == profile_channel_of(*state),
            r.name@ == state.config.name@,
            r.stream_volume == state.stream_volume,
            r.stream_muted == state.stream_muted,
            r.monitor_volume == state.monitor_volume,
            r.monitor_muted == state.monitor_muted,
    {
        ProfileChannel {
            name: state.config.name.clone(),
            stream_volume: state.stream_volume,
            stream_muted: state.stream_muted,
            monitor_volume: state.monitor_volume,
            monitor_muted: state.monitor_muted,
        }
    }
}

/// A short description of a profile.
#[derive(Debug)]
pub struct ProfileSummary {
    /// Profile name.
    pub name: String,
    /// Whether this is the default profile.
    pub is_default: bool,
    /// Optional description.
    pub description: Option<String>,
}

impl Clone for ProfileSummary {
    fn clone(&self) -> (r: Self)
        ensures
            r == *self,
    {
        ProfileSummary {
            name: self.name.clone(),
            is_default: self.is_default,
            description: clone_opt_string(&self.description),
        }
    }
}

/// A saved mixer profile.
#[derive(Debug)]
pub struct Profile {
    /// Profile name.
    pub name: String,
    /// Optional description.
    pub description: Option<String>,
    /// Whether this is the default profile. Exactly one stored profile
    /// carries this flag, and it cannot be deleted.
    pub is_default: bool,
    /// Saved channel states.
    pub channels: Vec<ProfileChannel>,
    /// Saved routing rules.
    pub routes: Vec<RouteRule>,
    /// Saved mixer state.
    pub mixer: MixerState,
}

/// Whether two profiles agree on every observed field.
pub open spec fn profile_matches(a: Profile, b: Profile) -> bool {
    &&& a.name@ == b.name@
    &&& a.description == b.description
    &&& a.is_default == b.is_default
    &&& a.channels@ == b.channels@
    &&& a.routes@ == b.routes@
    &&& a.mixer == b.mixer
}

/// Copy a list of saved channel states.
pub fn clone_profile_channels(v: &Vec<ProfileChannel>) -> (r: Vec<ProfileChannel>)
    ensures
        r@ == v@,
{
    let mut out: Vec<ProfileChannel> = Vec::new();
    let n: usize = v.len();
    let mut i: usize = 0;
    while i < n
        invariant
            n == v@.len(),
            i <= n,
            out@.len() == i,
            forall|k: int| 0 <= k < i ==> out@[k] == v@[k],
        decreases n - i,
    {
        out.push(v[i].clone());
        i += 1;
    }
    proof {
        assert(out@ =~= v@);
    }
    out
}

/// Copy a list of routing rules.
pub fn clone_routes(v: &Vec<RouteRule>) -> (r: Vec<RouteRule>)
    ensures
        r@ == v@,
{
    let mut out: Vec<RouteRule> = Vec::new();
    let n: usize = v.len();
    let mut i: usize = 0;
    while i < n
        invariant
            n == v@.len(),
            i <= n,
            out@.len() == i,
            forall|k: int| 0 <= k < i ==> out@[k] == v@[k],
        decreases n - i,
    {
        out.push(v[i].clone());
        i += 1;
    }
    proof {
        assert(out@ =~= v@);
    }
    out
}

impl Clone for Profile {
    /// The copy agrees with the source value on every observed field.
    fn clone(&self) -> (r: Self)
        ensures
            profile_matches(r, *self),
    {
        Profile {
            name: self.name.clone(),
            description: clone_opt_string(&self.description),
            is_default: self.is_default,
            channels: clone_profile_channels(&self.channels),
            routes: clone_routes(&self.routes),
            mixer: self.mixer.clone(),
        }
    }
}

impl Profile {
    /// Every saved volume lies within the valid range.
    pub open spec fn wf(&self) -> bool {
        &&& forall|i: int| 0 <= i < self.channels@.len() ==> (#[trigger] self.channels@[i]).wf()
        &&& self.mixer.wf()
    }

    /// An empty profile with this name.
    pub fn new(name: &str) -> (r: Self)
        ensures
            r.name@ == name@,
            r.description is None,
            !r.is_default,
            r.channels@.len() == 0,
            r.routes@.len() == 0,
            is_default_mixer(r.mixer),
            r.wf(),
    {
        Profile {
            name: String::from_str(name),
            description: None,
            is_default: false,
            channels: Vec::new(),
            routes: Vec::new(),
            mixer: MixerState::default(),
        }
    }

    /// The seeded default profile, with the default routing rules.
    pub fn default_profile() -> (r: Self)
        ensures
            r.name@ == "Default"@,
            r.description matches Some(d) && d@ == "Default mixer configuration"@,
            r.is_default,
            r.channels@.len() == 0,
            r.routes@.len() == 9,
            is_default_mixer(r.mixer),
            r.wf(),
    {
        Profile {
            name: String::from_str("Default"),
            description: Some(String::from_str("Default mixer configuration")),
            is_default: true,
            channels: Vec::new(),
            routes: default_routes(),
            mixer: MixerState::default(),
        }
    }
}

} // verus!
