//! The persistent store's behaviour, modelled in memory.
//!
//! The store holds the channels with their saved state, the routing
//! rules, the profiles, and an event log. It is seeded with the five
//! default channels, the default routing rules and the default profile.
//! Writes are idempotent upserts; the default profile cannot be deleted.
//! An ordinary relational database performs the same operations on disk
//! outside the library, mirroring these.

use vstd::prelude::*;
use vstd::string::StringExecFns;
use crate::channel::ChannelState;
use crate::channel::default_channels;
use crate::profile::Profile;
use crate::profile::ProfileChannel;
use crate::profile::ProfileSummary;
use crate::profile::clone_routes;
use crate::profile::profile_matches;
use crate::routing::RouteRule;
use crate::routing::default_routes;
use crate::seqtools::find_key_idx;
use crate::seqtools::lemma_filter_step;
use crate::seqtools::lemma_find_key_idx;
use crate::seqtools::lemma_remove_keeps_unique;
use crate::seqtools::lemma_upsert_keeps_unique;
use crate::strutil::str_eq;
use crate::graph::clone_opt_string;

verus! {

/// One line of the store's event log.
#[derive(Debug)]
pub struct LogEntry {
    /// Severity label.
    pub level: String,
    /// Component that logged.
    pub source: String,
    /// Log message.
    pub message: String,
    /// Optional structured payload.
    pub data: Option<String>,
}

impl Clone for LogEntry {
    fn clone(&self) -> (r: Self)
        ensures
            r == *self,
    {
        LogEntry {
            level: self.level.clone(),
            source: self.source.clone(),
            message: self.message.clone(),
            data: clone_opt_string(&self.data),
        }
    }
}

/// Key extractor for channels by name.
pub open spec fn chan_name_key() -> spec_fn(ChannelState) -> Seq<char> {
    |cs: ChannelState| cs.config.name@
}

/// Key extractor for rules by pattern.
pub open spec fn route_pattern_key() -> spec_fn(RouteRule) -> Seq<char> {
    |r: RouteRule| r.pattern@
}

/// Key extractor for profiles by name.
pub open spec fn profile_name_key() -> spec_fn(Profile) -> Seq<char> {
    |p: Profile| p.name@
}

/// Predicate: the profile carries the default flag.
pub open spec fn default_flag_pred() -> spec_fn(Profile) -> bool {
    |p: Profile| p.is_default
}

/// The data model's default-profile invariant: at most one stored
/// profile carries the default flag. The store itself, like the
/// database surface it models, accepts writes that set the flag freely;
/// the applier maintains this invariant, carried by `Daemon::wf`.
pub open spec fn single_default(ps: Seq<Profile>) -> bool {
    forall|i: int, j: int|
        #![trigger ps[i], ps[j]]
        0 <= i < j < ps.len() ==> !(ps[i].is_default && ps[j].is_default)
}

/// Law: under the single-default invariant, the profile carrying the
/// default flag is unique.
pub proof fn lemma_single_default_unique(ps: Seq<Profile>, i: int, j: int)
    requires
        single_default(ps),
        0 <= i < ps.len(),
        0 <= j < ps.len(),
        ps[i].is_default,
        ps[j].is_default,
    ensures
        i == j,
{
}

/// Index of the channel with this name, or `-1`.
pub open spec fn channel_idx(chs: Seq<ChannelState>, name: Seq<char>) -> int {
    find_key_idx(chs, chan_name_key(), name)
}

/// Index of the rule with this pattern, or `-1`.
pub open spec fn route_idx(rs: Seq<RouteRule>, pattern: Seq<char>) -> int {
    find_key_idx(rs, route_pattern_key(), pattern)
}

/// Index of the profile with this name, or `-1`.
pub open spec fn profile_idx(ps: Seq<Profile>, name: Seq<char>) -> int {
    find_key_idx(ps, profile_name_key(), name)
}

/// Predicate: this saved channel names a channel the store knows.
pub open spec fn known_channel_pred(chs: Seq<ChannelState>) -> spec_fn(ProfileChannel) -> bool {
    |pc: ProfileChannel| channel_idx(chs, pc.name@) >= 0
}

/// Predicate: this rule routes to a channel the store knows.
pub open spec fn known_route_pred(chs: Seq<ChannelState>) -> spec_fn(RouteRule) -> bool {
    |r: RouteRule| channel_idx(chs, r.channel@) >= 0
}

/// The ghost image of the store.
pub struct StoreView {
    /// Channels with their saved state.
    pub channels: Seq<ChannelState>,
    /// Routing rules.
    pub routes: Seq<RouteRule>,
    /// Saved profiles.
    pub profiles: Seq<Profile>,
    /// Event log, oldest first.
    pub log: Seq<LogEntry>,
}

/// The in-memory store.
#[derive(Debug)]
pub struct Store {
    channels: Vec<ChannelState>,
    routes: Vec<RouteRule>,
    profiles: Vec<Profile>,
    log: Vec<LogEntry>,
}

impl View for Store {
    type V = StoreView;

    closed spec fn view(&self) -> StoreView {
        StoreView {
            channels: self.channels@,
            routes: self.routes@,
            profiles: self.profiles@,
            log: self.log@,
        }
    }
}

/// What a stored profile keeps of a saved one: everything, except that
/// saved channels and routes naming unknown channels are dropped.
pub open spec fn stored_profile_matches(
    st: Profile,
    p: Profile,
    chs: Seq<ChannelState>,
) -> bool {
    &&& st.name@ == p.name@
    &&& st.description == p.description
    &&& st.is_default == p.is_default
    &&& st.channels@ == p.channels@.filter(known_channel_pred(chs))
    &&& st.routes@ == p.routes@.filter(known_route_pred(chs))
    &&& st.mixer == p.mixer
}

/// What `save_profile` does to the profile list: an idempotent upsert of
/// the stored form of the profile, keyed by name.
pub open spec fn save_profile_post(s: StoreView, p: Profile, s2: StoreView) -> bool {
    &&& s2.channels == s.channels
    &&& s2.routes == s.routes
    &&& s2.log == s.log
    &&& ({
        let i = profile_idx(s.profiles, p.name@);
        let j: int = if i >= 0 {
            i
        } else {
            s.profiles.len() as int
        };
        &&& (i >= 0 ==> s2.profiles.len() == s.profiles.len())
        &&& (i < 0 ==> s2.profiles.len() == s.profiles.len() + 1)
        &&& forall|k: int| 0 <= k < s2.profiles.len() && k != j ==> s2.profiles[k] == s.profiles[k]
        &&& stored_profile_matches(s2.profiles[j], p, s.channels)
    })
}

/// What `load_profile` returns: the stored profile under this name.
pub open spec fn load_profile_post(s: StoreView, name: Seq<char>, r: Option<Profile>) -> bool {
    let i = profile_idx(s.profiles, name);
    if i >= 0 {
        r matches Some(q) && profile_matches(q, s.profiles[i])
    } else {
        r is None
    }
}

/// What `delete_profile` does: nothing for a missing or default profile,
/// removal otherwise; it returns whether a profile was removed.
pub open spec fn delete_profile_post(s: StoreView, name: Seq<char>, r: bool, s2: StoreView) -> bool {
    &&& s2.channels == s.channels
    &&& s2.routes == s.routes
    &&& s2.log == s.log
    &&& ({
        let i = profile_idx(s.profiles, name);
        if i >= 0 && !s.profiles[i].is_default {
            r == true && s2.profiles == s.profiles.remove(i)
        } else {
            r == false && s2.profiles == s.profiles
        }
    })
}

impl Store {
    /// Channel names, rule patterns and profile names each occur once.
    pub open spec fn wf(&self) -> bool {
        &&& forall|i: int, j: int|
            0 <= i < j < self@.channels.len() ==> (#[trigger] self@.channels[i]).config.name@ != (
            #[trigger] self@.channels[j]).config.name@
        &&& forall|i: int, j: int|
            0 <= i < j < self@.routes.len() ==> (#[trigger] self@.routes[i]).pattern@ != (
            #[trigger] self@.routes[j]).pattern@
        &&& forall|i: int, j: int|
            0 <= i < j < self@.profiles.len() ==> (#[trigger] self@.profiles[i]).name@ != (
            #[trigger] self@.profiles[j]).name@
    }

    /// A store seeded with the five default channels, the default
    /// routing rules and the default profile.
    pub fn new() -> (r: Self)
        ensures
            crate::channel::is_default_channel_states(r@.channels),
            crate::routing::is_default_rules(r@.routes),
            r@.profiles.len() == 1,
            r@.profiles[0].name@ == "Default"@ && r@.profiles[0].is_default,
            single_default(r@.profiles),
            r@.log.len() == 0,
            r.wf(),
    {
        let configs = default_channels();
        let mut channels: Vec<ChannelState> = Vec::new();
        let n: usize = configs.len();
        let mut i: usize = 0;
        while i < n
            invariant
                n == configs@.len(),
                i <= n,
                channels@.len() == i,
                forall|k: int|
                    0 <= k < i ==> (#[trigger] channels@[k]).config == configs@[k] && channels@[
                        k
                    ].stream_volume == crate::VOLUME_SCALE && !channels@[k].stream_muted
                        && channels@[k].monitor_volume == crate::VOLUME_SCALE && !channels@[
                        k
                    ].monitor_muted && channels@[k].node_id is None,
            decreases n - i,
        {
            channels.push(ChannelState::new(configs[i].clone()));
            i += 1;
        }
        let mut profiles: Vec<Profile> = Vec::new();
        profiles.push(Profile::default_profile());
        let r = Store { channels, routes: default_routes(), profiles, log: Vec::new() };
        proof {
            reveal_strlit("system");
            reveal_strlit("voice");
            reveal_strlit("music");
            reveal_strlit("browser");
            reveal_strlit("game");
            reveal_strlit("discord");
            reveal_strlit("zoom");
            reveal_strlit("teams");
            reveal_strlit("spotify");
            reveal_strlit("rhythmbox");
            reveal_strlit("firefox");
            reveal_strlit("chromium");
            reveal_strlit("chrome");
            reveal_strlit("steam");
            assert("system"@ != "voice"@) by {
                assert("system"@.len() != "voice"@.len());
            }
            assert("system"@ != "music"@) by {
                assert("system"@.len() != "music"@.len());
            }
            assert("system"@ != "browser"@) by {
                assert("system"@.len() != "browser"@.len());
            }
            assert("system"@ != "game"@) by {
                assert("system"@.len() != "game"@.len());
            }
            assert("voice"@ != "music"@) by {
                assert("voice"@[0] != "music"@[0]);
            }
            assert("voice"@ != "browser"@) by {
                assert("voice"@.len() != "browser"@.len());
            }
            assert("voice"@ != "game"@) by {
                assert("voice"@.len() != "game"@.len());
            }
            assert("music"@ != "browser"@) by {
                assert("music"@.len() != "browser"@.len());
            }
            assert("music"@ != "game"@) by {
                assert("music"@.len() != "game"@.len());
            }
            assert("browser"@ != "game"@) by {
                assert("browser"@.len() != "game"@.len());
            }
            assert("discord"@ != "zoom"@) by {
                assert("discord"@.len() != "zoom"@.len());
            }
            assert("discord"@ != "teams"@) by {
                assert("discord"@.len() != "teams"@.len());
            }
            assert("discord"@ != "spotify"@) by {
                assert("discord"@[0] != "spotify"@[0]);
            }
            assert("discord"@ != "rhythmbox"@) by {
                assert("discord"@.len() != "rhythmbox"@.len());
            }
            assert("discord"@ != "firefox"@) by {
                assert("discord"@[0] != "firefox"@[0]);
            }
            assert("discord"@ != "chromium"@) by {
                assert("discord"@.len() != "chromium"@.len());
            }
            assert("discord"@ != "chrome"@) by {
                assert("discord"@.len() != "chrome"@.len());
            }
            assert("discord"@ != "steam"@) by {
                assert("discord"@.len() != "steam"@.len());
            }
            assert("zoom"@ != "teams"@) by {
                assert("zoom"@.len() != "teams"@.len());
            }
            assert("zoom"@ != "spotify"@) by {
                assert("zoom"@.len() != "spotify"@.len());
            }
            assert("zoom"@ != "rhythmbox"@) by {
                assert("zoom"@.len() != "rhythmbox"@.len());
            }
            assert("zoom"@ != "firefox"@) by {
                assert("zoom"@.len() != "firefox"@.len());
            }
            assert("zoom"@ != "chromium"@) by {
                assert("zoom"@.len() != "chromium"@.len());
            }
            assert("zoom"@ != "chrome"@) by {
                assert("zoom"@.len() != "chrome"@.len());
            }
            assert("zoom"@ != "steam"@) by {
                assert("zoom"@.len() != "steam"@.len());
            }
            assert("teams"@ != "spotify"@) by {
                assert("teams"@.len() != "spotify"@.len());
            }
            assert("teams"@ != "rhythmbox"@) by {
                assert("teams"@.len() != "rhythmbox"@.len());
            }
            assert("teams"@ != "firefox"@) by {
                assert("teams"@.len() != "firefox"@.len());
            }
            assert("teams"@ != "chromium"@) by {
                assert("teams"@.len() != "chromium"@.len());
            }
            assert("teams"@ != "chrome"@) by {
                assert("teams"@.len() != "chrome"@.len());
            }
            assert("teams"@ != "steam"@) by {
                assert("teams"@[0] != "steam"@[0]);
            }
            assert("spotify"@ != "rhythmbox"@) by {
                assert("spotify"@.len() != "rhythmbox"@.len());
            }
            assert("spotify"@ != "firefox"@) by {
                assert("spotify"@[0] != "firefox"@[0]);
            }
            assert("spotify"@ != "chromium"@) by {
                assert("spotify"@.len() != "chromium"@.len());
            }
            assert("spotify"@ != "chrome"@) by {
                assert("spotify"@.len() != "chrome"@.len());
            }
            assert("spotify"@ != "steam"@) by {
                assert("spotify"@.len() != "steam"@.len());
            }
            assert("rhythmbox"@ != "firefox"@) by {
                assert("rhythmbox"@.len() != "firefox"@.len());
            }
            assert("rhythmbox"@ != "chromium"@) by {
                assert("rhythmbox"@.len() != "chromium"@.len());
            }
            assert("rhythmbox"@ != "chrome"@) by {
                assert("rhythmbox"@.len() != "chrome"@.len());
            }
            assert("rhythmbox"@ != "steam"@) by {
                assert("rhythmbox"@.len() != "steam"@.len());
            }
            assert("firefox"@ != "chromium"@) by {
                assert("firefox"@.len() != "chromium"@.len());
            }
            assert("firefox"@ != "chrome"@) by {
                assert("firefox"@.len() != "chrome"@.len());
            }
            assert("firefox"@ != "steam"@) by {
                assert("firefox"@.len() != "steam"@.len());
            }
            assert("chromium"@ != "chrome"@) by {
                assert("chromium"@.len() != "chrome"@.len());
            }
            assert("chromium"@ != "steam"@) by {
                assert("chromium"@.len() != "steam"@.len());
            }
            assert("chrome"@ != "steam"@) by {
                assert("chrome"@.len() != "steam"@.len());
            }
            assert(r.wf());
        }
        r
    }

    /// Position of the channel with this name, if stored.
    fn channel_position(&self, name: &str) -> (r: Option<usize>)
        ensures
            match r {
                Some(i) => channel_idx(self@.channels, name@) == i as int && i
                    < self@.channels.len(),
                None => channel_idx(self@.channels, name@) < 0,
            },
    {
        let n: usize = self.channels.len();
        let mut i: usize = 0;
        while i < n
            invariant
                n == self@.channels.len(),
                i <= n,
                forall|k: int|
                    0 <= k < i ==> chan_name_key()(#[trigger] self@.channels[k]) != name@,
            decreases n - i,
        {
            if str_eq(self.channels[i].config.name.as_str(), name) {
                proof {
                    lemma_find_key_idx(self@.channels, chan_name_key(), name@);
                    assert(chan_name_key()(self@.channels[i as int]) == name@);
                }
                return Some(i);
            }
            i += 1;
        }
        proof {
            lemma_find_key_idx(self@.channels, chan_name_key(), name@);
        }
        None
    }

    /// Every stored channel with its saved state.
    pub fn load_channels(&self) -> (r: Vec<ChannelState>)
        ensures
            r@ == self@.channels,
    {
        let mut out: Vec<ChannelState> = Vec::new();
        let n: usize = self.channels.len();
        let mut i: usize = 0;
        while i < n
            invariant
                n == self@.channels.len(),
                i <= n,
                out@.len() == i,
                forall|k: int| 0 <= k < i ==> out@[k] == self@.channels[k],
            decreases n - i,
        {
            out.push(self.channels[i].clone());
            i += 1;
        }
        proof {
            assert(out@ =~= self@.channels);
        }
        out
    }

    /// Save a channel's volumes and mutes under its name. A name the
    /// store does not know changes nothing.
    pub fn save_channel_state(&mut self, channel_name: &str, state: &ChannelState)
        requires
            old(self).wf(),
        ensures
            final(self).wf(),
            final(self)@.routes == old(self)@.routes,
            final(self)@.profiles == old(self)@.profiles,
            final(self)@.log == old(self)@.log,
            ({
                let i = channel_idx(old(self)@.channels, channel_name@);
                if i >= 0 {
                    &&& final(self)@.channels.len() == old(self)@.channels.len()
                    &&& forall|k: int|
                        0 <= k < old(self)@.channels.len() && k != i
                            ==> final(self)@.channels[k] == old(self)@.channels[k]
                    &&& final(self)@.channels[i].config == old(self)@.channels[i].config
                    &&& final(self)@.channels[i].node_id == old(self)@.channels[i].node_id
                    &&& final(self)@.channels[i].stream_volume == state.stream_volume
                    &&& final(self)@.channels[i].stream_muted == state.stream_muted
                    &&& final(self)@.channels[i].monitor_volume == state.monitor_volume
                    &&& final(self)@.channels[i].monitor_muted == state.monitor_muted
                } else {
                    final(self)@.channels == old(self)@.channels
                }
            }),
    {
        match self.channel_position(channel_name) {
            Some(i) => {
                let updated = ChannelState {
                    config: self.channels[i].config.clone(),
                    stream_volume: state.stream_volume,
                    stream_muted: state.stream_muted,
                    monitor_volume: state.monitor_volume,
                    monitor_muted: state.monitor_muted,
                    node_id: self.channels[i].node_id,
                };
                self.channels.set(i, updated);
                proof {
                    assert forall|a: int, b: int|
                        0 <= a < b < self@.channels.len() implies (
                    #[trigger] self@.channels[a]).config.name@ != (
                    #[trigger] self@.channels[b]).config.name@ by {
                        let ii = channel_idx(old(self)@.channels, channel_name@);
                        assert(self@.channels[a] == if a == ii {
                            self@.channels[ii]
                        } else {
                            old(self)@.channels[a]
                        });
                        assert(self@.channels[b] == if b == ii {
                            self@.channels[ii]
                        } else {
                            old(self)@.channels[b]
                        });
                        assert(self@.channels[ii].config.name@ == old(
                            self,
                        )@.channels[ii].config.name@);
                    }
                }
            },
            None => {},
        }
    }

    /// Every stored routing rule, in storage order. The router's winner
    /// is fixed by priority and insertion position, not by the order of
    /// this list.
    pub fn load_routes(&self) -> (r: Vec<RouteRule>)
        ensures
            r@ == self@.routes,
    {
        clone_routes(&self.routes)
    }

    /// Position of the rule with this pattern, if stored.
    fn route_position(&self, pattern: &str) -> (r: Option<usize>)
        ensures
            match r {
                Some(i) => route_idx(self@.routes, pattern@) == i as int && i < self@.routes.len(),
                None => route_idx(self@.routes, pattern@) < 0,
            },
    {
        let n: usize = self.routes.len();
        let mut i: usize = 0;
        while i < n
            invariant
                n == self@.routes.len(),
                i <= n,
                forall|k: int|
                    0 <= k < i ==> route_pattern_key()(#[trigger] self@.routes[k]) != pattern@,
            decreases n - i,
        {
            if str_eq(self.routes[i].pattern.as_str(), pattern) {
                proof {
                    lemma_find_key_idx(self@.routes, route_pattern_key(), pattern@);
                    assert(route_pattern_key()(self@.routes[i as int]) == pattern@);
                }
                return Some(i);
            }
            i += 1;
        }
        proof {
            lemma_find_key_idx(self@.routes, route_pattern_key(), pattern@);
        }
        None
    }

    /// Add or update a routing rule, keyed by its pattern.
    pub fn save_route(&mut self, rule: &RouteRule)
        requires
            old(self).wf(),
        ensures
            final(self).wf(),
            final(self)@.channels == old(self)@.channels,
            final(self)@.profiles == old(self)@.profiles,
            final(self)@.log == old(self)@.log,
            final(self)@.routes == (if route_idx(old(self)@.routes, rule.pattern@) >= 0 {
                old(self)@.routes.update(route_idx(old(self)@.routes, rule.pattern@), *rule)
            } else {
                old(self)@.routes.push(*rule)
            }),
    {
        let copy = rule.clone();
        let ghost gcopy = copy;
        match self.route_position(copy.pattern.as_str()) {
            Some(i) => {
                self.routes.set(i, copy);
            },
            None => {
                self.routes.push(copy);
            },
        }
        proof {
            assert(route_pattern_key()(gcopy) == rule.pattern@);
            assert(self@.channels == old(self)@.channels);
            assert(self@.profiles == old(self)@.profiles);
            lemma_upsert_keeps_unique(
                old(self)@.routes,
                self@.routes,
                route_pattern_key(),
                gcopy,
            );
            assert(self.wf());
        }
    }

    /// Delete the rule with this pattern, if stored.
    pub fn delete_route(&mut self, pattern: &str)
        requires
            old(self).wf(),
        ensures
            final(self).wf(),
            final(self)@.channels == old(self)@.channels,
            final(self)@.profiles == old(self)@.profiles,
            final(self)@.log == old(self)@.log,
            final(self)@.routes == (if route_idx(old(self)@.routes, pattern@) >= 0 {
                old(self)@.routes.remove(route_idx(old(self)@.routes, pattern@))
            } else {
                old(self)@.routes
            }),
    {
        match self.route_position(pattern) {
            Some(i) => {
                self.routes.remove(i);
                proof {
                    assert(self@.channels == old(self)@.channels);
                    assert(self@.profiles == old(self)@.profiles);
                    lemma_remove_keeps_unique(
                        old(self)@.routes,
                        self@.routes,
                        route_pattern_key(),
                        pattern@,
                    );
                    assert(self.wf());
                }
            },
            None => {},
        }
    }

    /// Record an event in the log.
    pub fn log_event(&mut self, level: &str, source: &str, message: &str, data: Option<&str>)
        ensures
            final(self)@.channels == old(self)@.channels,
            final(self)@.routes == old(self)@.routes,
            final(self)@.profiles == old(self)@.profiles,
            final(self)@.log.len() == old(self)@.log.len() + 1,
            forall|k: int| 0 <= k < old(self)@.log.len() ==> final(self)@.log[k] == old(
                self,
            )@.log[k],
            final(self)@.log.last().level@ == level@,
            final(self)@.log.last().source@ == source@,
            final(self)@.log.last().message@ == message@,
            old(self).wf() ==> final(self).wf(),
    {
        let entry = LogEntry {
            level: String::from_str(level),
            source: String::from_str(source),
            message: String::from_str(message),
            data: match data {
                Some(d) => Some(String::from_str(d)),
                None => None,
            },
        };
        self.log.push(entry);
    }

    /// Position of the profile with this name, if stored.
    fn profile_position(&self, name: &str) -> (r: Option<usize>)
        ensures
            match r {
                Some(i) => profile_idx(self@.profiles, name@) == i as int && i
                    < self@.profiles.len(),
                None => profile_idx(self@.profiles, name@) < 0,
            },
    {
        let n: usize = self.profiles.len();
        let mut i: usize = 0;
        while i < n
            invariant
                n == self@.profiles.len(),
                i <= n,
                forall|k: int|
                    0 <= k < i ==> profile_name_key()(#[trigger] self@.profiles[k]) != name@,
            decreases n - i,
        {
            if str_eq(self.profiles[i].name.as_str(), name) {
                proof {
                    lemma_find_key_idx(self@.profiles, profile_name_key(), name@);
                    assert(profile_name_key()(self@.profiles[i as int]) == name@);
                }
                return Some(i);
            }
            i += 1;
        }
        proof {
            lemma_find_key_idx(self@.profiles, profile_name_key(), name@);
        }
        None
    }

    /// A short description of every stored profile, in storage order.
    pub fn list_profiles(&self) -> (r: Vec<ProfileSummary>)
        ensures
            r@.len() == self@.profiles.len(),
            forall|i: int|
                0 <= i < r@.len() ==> (#[trigger] r@[i]).name@ == self@.profiles[i].name@ && r@[
                    i
                ].is_default == self@.profiles[i].is_default && r@[i].description
                    == self@.profiles[i].description,
    {
        let mut out: Vec<ProfileSummary> = Vec::new();
        let n: usize = self.profiles.len();
        let mut i: usize = 0;
        while i < n
            invariant
                n == self@.profiles.len(),
                i <= n,
                out@.len() == i,
                forall|k: int|
                    0 <= k < i ==> (#[trigger] out@[k]).name@ == self@.profiles[k].name@ && out@[
                        k
                    ].is_default == self@.profiles[k].is_default && out@[k].description
                        == self@.profiles[k].description,
            decreases n - i,
        {
            out.push(
                ProfileSummary {
                    name: self.profiles[i].name.clone(),
                    is_default: self.profiles[i].is_default,
                    description: clone_opt_string(&self.profiles[i].description),
                },
            );
            i += 1;
        }
        out
    }

    /// Keep only the saved channels that name a known channel.
    fn filter_profile_channels(&self, v: &Vec<ProfileChannel>) -> (r: Vec<ProfileChannel>)
        ensures
            r@ == v@.filter(known_channel_pred(self@.channels)),
    {
        let mut out: Vec<ProfileChannel> = Vec::new();
        let n: usize = v.len();
        let mut i: usize = 0;
        proof {
            assert(v@.subrange(0, 0).filter(known_channel_pred(self@.channels)) =~= Seq::<
                ProfileChannel,
            >::empty());
        }
        while i < n
            invariant
                n == v@.len(),
                i <= n,
                out@ == v@.subrange(0, i as int).filter(known_channel_pred(self@.channels)),
            decreases n - i,
        {
            let keep = match self.channel_position(v[i].name.as_str()) {
                Some(_) => true,
                None => false,
            };
            proof {
                lemma_filter_step(v@, known_channel_pred(self@.channels), i as int);
                assert(known_channel_pred(self@.channels)(v@[i as int]) == keep);
            }
            if keep {
                out.push(v[i].clone());
            }
            i += 1;
        }
        proof {
            assert(v@.subrange(0, n as int) =~= v@);
        }
        out
    }

    /// Keep only the rules that route to a known channel.
    fn filter_profile_routes(&self, v: &Vec<RouteRule>) -> (r: Vec<RouteRule>)
        ensures
            r@ == v@.filter(known_route_pred(self@.channels)),
    {
        let mut out: Vec<RouteRule> = Vec::new();
        let n: usize = v.len();
        let mut i: usize = 0;
        proof {
            assert(v@.subrange(0, 0).filter(known_route_pred(self@.channels)) =~= Seq::<
                RouteRule,
            >::empty());
        }
        while i < n
            invariant
                n == v@.len(),
                i <= n,
                out@ == v@.subrange(0, i as int).filter(known_route_pred(self@.channels)),
            decreases n - i,
        {
            let keep = match self.channel_position(v[i].channel.as_str()) {
                Some(_) => true,
                None => false,
            };
            proof {
                lemma_filter_step(v@, known_route_pred(self@.channels), i as int);
                assert(known_route_pred(self@.channels)(v@[i as int]) == keep);
            }
            if keep {
                out.push(v[i].clone());
            }
            i += 1;
        }
        proof {
            assert(v@.subrange(0, n as int) =~= v@);
        }
        out
    }

    /// Save a profile: an idempotent upsert keyed by its name. Saved
    /// channels and rules that name channels the store does not know are
    /// dropped.
    pub fn save_profile(&mut self, profile: &Profile)
        requires
            old(self).wf(),
        ensures
            final(self).wf(),
            save_profile_post(old(self)@, *profile, final(self)@),
    {
        let stored = Profile {
            name: profile.name.clone(),
            description: clone_opt_string(&profile.description),
            is_default: profile.is_default,
            channels: self.filter_profile_channels(&profile.channels),
            routes: self.filter_profile_routes(&profile.routes),
            mixer: profile.mixer.clone(),
        };
        let ghost gstored = stored;
        let pos = self.profile_position(stored.name.as_str());
        match pos {
            Some(i) => {
                self.profiles.set(i, stored);
            },
            None => {
                self.profiles.push(stored);
            },
        }
        proof {
            assert(profile_name_key()(gstored) == profile.name@);
            assert(self@.channels == old(self)@.channels);
            assert(self@.routes == old(self)@.routes);
            assert(self@.log == old(self)@.log);
            lemma_upsert_keeps_unique(
                old(self)@.profiles,
                self@.profiles,
                profile_name_key(),
                gstored,
            );
            assert(self.wf());
            let i = profile_idx(old(self)@.profiles, profile.name@);
            let j: int = if i >= 0 {
                i
            } else {
                old(self)@.profiles.len() as int
            };
            assert(self@.profiles[j] == gstored);
            assert(stored_profile_matches(gstored, *profile, old(self)@.channels));
        }
    }

    /// Load the stored profile under this name, if any.
    pub fn load_profile(&self, name: &str) -> (r: Option<Profile>)
        ensures
            load_profile_post(self@, name@, r),
    {
        match self.profile_position(name) {
            Some(i) => Some(self.profiles[i].clone()),
            None => None,
        }
    }

    /// Delete the profile with this name. The default profile, or a name
    /// the store does not know, deletes nothing; the result says whether
    /// a profile was removed.
    pub fn delete_profile(&mut self, name: &str) -> (r: bool)
        requires
            old(self).wf(),
        ensures
            final(self).wf(),
            delete_profile_post(old(self)@, name@, r, final(self)@),
    {
        match self.profile_position(name) {
            Some(i) => {
                if self.profiles[i].is_default {
                    return false;
                }
                self.profiles.remove(i);
                proof {
                    assert(self@.channels == old(self)@.channels);
                    assert(self@.routes == old(self)@.routes);
                    assert(self@.log == old(self)@.log);
                    lemma_remove_keeps_unique(
                        old(self)@.profiles,
                        self@.profiles,
                        profile_name_key(),
                        name@,
                    );
                    assert(self.wf());
                }
                true
            },
            None => false,
        }
    }

    /// The name of the first stored profile carrying the default flag.
    pub fn get_default_profile(&self) -> (r: Option<String>)
        ensures
            ({
                let i = find_key_idx(self@.profiles, default_flag_pred(), true);
                match r {
                    Some(n) => i >= 0 && n@ == self@.profiles[i].name@,
                    None => i < 0,
                }
            }),
    {
        let n: usize = self.profiles.len();
        let mut i: usize = 0;
        while i < n
            invariant
                n == self@.profiles.len(),
                i <= n,
                forall|k: int|
                    0 <= k < i ==> default_flag_pred()(#[trigger] self@.profiles[k]) != true,
            decreases n - i,
        {
            if self.profiles[i].is_default {
                proof {
                    lemma_find_key_idx(self@.profiles, default_flag_pred(), true);
                    assert(default_flag_pred()(self@.profiles[i as int]) == true);
                }
                return Some(self.profiles[i].name.clone());
            }
            i += 1;
        }
        proof {
            lemma_find_key_idx(self@.profiles, default_flag_pred(), true);
        }
        None
    }
}

/// Law: the default profile cannot be deleted. When the named profile
/// carries the default flag, `delete_profile` reports failure and the
/// profile list is unchanged.
pub proof fn lemma_default_profile_undeletable(
    s: StoreView,
    s2: StoreView,
    name: Seq<char>,
    r: bool,
)
    requires
        delete_profile_post(s, name, r, s2),
        profile_idx(s.profiles, name) >= 0,
        s.profiles[profile_idx(s.profiles, name)].is_default,
    ensures
        r == false,
        s2.profiles == s.profiles,
{
}

/// Law: a profile round trip is exact. Saving a profile whose saved
/// channels and rules all name channels the store knows, then loading it
/// back by name, returns a profile equal to it on every observed field.
pub proof fn lemma_profile_round_trip(
    s: StoreView,
    s2: StoreView,
    p: Profile,
    r: Option<Profile>,
)
    requires
        forall|i: int, j: int|
            0 <= i < j < s.profiles.len() ==> (#[trigger] s.profiles[i]).name@ != (
            #[trigger] s.profiles[j]).name@,
        forall|i: int|
            0 <= i < p.channels@.len() ==> channel_idx(
                s.channels,
                (#[trigger] p.channels@[i]).name@,
            ) >= 0,
        forall|i: int|
            0 <= i < p.routes@.len() ==> channel_idx(s.channels, (#[trigger] p.routes@[i]).channel@)
                >= 0,
        save_profile_post(s, p, s2),
        load_profile_post(s2, p.name@, r),
    ensures
        r matches Some(q) && q.name@ == p.name@ && q.description == p.description && q.is_default
            == p.is_default && q.channels@ == p.channels@ && q.routes@ == p.routes@ && q.mixer
            == p.mixer,
{
    crate::seqtools::lemma_filter_all(p.channels@, known_channel_pred(s.channels));
    crate::seqtools::lemma_filter_all(p.routes@, known_route_pred(s.channels));
    let i = profile_idx(s.profiles, p.name@);
    let j: int = if i >= 0 {
        i
    } else {
        s.profiles.len() as int
    };
    lemma_find_key_idx(s.profiles, profile_name_key(), p.name@);
    // the saved profile is the first bearing its name in the new list
    assert(s2.profiles[j].name@ == p.name@);
    assert forall|k: int| 0 <= k < j implies profile_name_key()(#[trigger] s2.profiles[k])
        != p.name@ by {
        assert(s2.profiles[k] == s.profiles[k]);
    }
    lemma_find_key_idx(s2.profiles, profile_name_key(), p.name@);
    let i2 = profile_idx(s2.profiles, p.name@);
    if i2 < 0 {
        assert(profile_name_key()(s2.profiles[j]) == p.name@);
        assert(false);
    }
    if i2 < j {
        assert(profile_name_key()(s2.profiles[i2]) != p.name@);
        assert(false);
    }
    if i2 > j {
        assert(profile_name_key()(s2.profiles[j]) == p.name@);
        assert(false);
    }
    assert(i2 == j);
}

} // verus!
