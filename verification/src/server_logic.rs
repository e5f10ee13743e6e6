//! The request handler: pure logic from a method and a state snapshot
//! to a response and, for mutations, a command for the applier.
//!
//! Queries answer from the snapshot. Mutations validate first — an
//! unknown channel or device yields an error and no command — then
//! return the acknowledged (clamped) values together with the command
//! that the event loop will apply.

use vstd::prelude::*;
use crate::clamp_volume;
use crate::clamped;
use crate::command::Command;
use crate::graph::CreatedEntry;
use crate::graph::clone_opt_string;
use crate::messages::ErrorInfo;
use crate::messages::Method;
use crate::messages::Reply;
use crate::profile::ProfileSummary;
use crate::routing::AppRoute;
use crate::seqtools::find_key_idx;
use crate::seqtools::lemma_find_key_idx;
use crate::state::OutputDevice;
use crate::state::StateSnapshot;
use crate::state::clone_channel_states;
use crate::store::chan_name_key;
use crate::store::channel_idx;
use crate::strutil::join_str;
use crate::strutil::str_eq;

verus! {

/// The outcome of handling one request: the response payload, and the
/// command the event loop should apply, if any.
#[derive(Debug)]
pub struct HandleResult {
    /// What is sent back to the client.
    pub response: Result<Reply, ErrorInfo>,
    /// The mutation to apply, for mutating methods that validated.
    pub command: Option<Command>,
}

/// Key extractor for output devices by name.
pub open spec fn device_name_key() -> spec_fn(OutputDevice) -> Seq<char> {
    |d: OutputDevice| d.name@
}

/// Index of the output device with this name, or `-1`.
pub open spec fn device_idx(ds: Seq<OutputDevice>, name: Seq<char>) -> int {
    find_key_idx(ds, device_name_key(), name)
}

/// Key extractor for profile summaries by name.
pub open spec fn summary_name_key() -> spec_fn(ProfileSummary) -> Seq<char> {
    |p: ProfileSummary| p.name@
}

/// Index of the profile summary with this name, or `-1`.
pub open spec fn summary_idx(ps: Seq<ProfileSummary>, name: Seq<char>) -> int {
    find_key_idx(ps, summary_name_key(), name)
}

/// Whether two snapshots agree on every field.
pub open spec fn snapshot_matches(a: StateSnapshot, b: StateSnapshot) -> bool {
    &&& a.state == b.state
    &&& a.device_connected == b.device_connected
    &&& a.device_serial == b.device_serial
    &&& a.channels@ == b.channels@
    &&& a.app_routes@ == b.app_routes@
    &&& a.mixer == b.mixer
    &&& a.active_profile == b.active_profile
    &&& a.profiles@ == b.profiles@
    &&& a.output_devices@ == b.output_devices@
    &&& a.monitor_output == b.monitor_output
    &&& a.created_nodes@ == b.created_nodes@
    &&& a.created_links@ == b.created_links@
}

/// An error response's expected shape.
pub open spec fn is_not_found(r: Result<Reply, ErrorInfo>, prefix: Seq<char>, name: Seq<char>) -> bool {
    r matches Err(e) && e.code == 404 && e.message@ == prefix + name
}

/// What `handle_request` promises, method by method.
pub open spec fn handle_request_post(m: Method, st: StateSnapshot, hr: HandleResult) -> bool {
    match m {
        Method::GetState => hr.command is None && (hr.response matches Ok(Reply::State(s))
            && snapshot_matches(s, st)),
        Method::GetChannels => hr.command is None && (hr.response matches Ok(Reply::Channels(v))
            && v@ == st.channels@),
        Method::GetChannel { name } => hr.command is None && {
            let i = channel_idx(st.channels@, name@);
            if i >= 0 {
                hr.response matches Ok(Reply::Channel(c)) && c == st.channels@[i]
            } else {
                is_not_found(hr.response, "Channel not found: "@, name@)
            }
        },
        Method::GetApps => hr.command is None && (hr.response matches Ok(Reply::Apps(v)) && v@
            == st.app_routes@),
        Method::GetProfiles => hr.command is None && (hr.response matches Ok(Reply::Profiles(v))
            && v@ == st.profiles@),
        Method::GetProfile { name } => hr.command is None && {
            let i = summary_idx(st.profiles@, name@);
            if i >= 0 {
                hr.response matches Ok(Reply::Profile(p)) && p == st.profiles@[i]
            } else {
                is_not_found(hr.response, "Profile not found: "@, name@)
            }
        },
        Method::GetDeviceStatus => hr.command is None && (hr.response matches Ok(
            Reply::DeviceStatus { connected, serial },
        ) && connected == st.device_connected && serial == st.device_serial),
        Method::GetDiagnostics => hr.command is None && (hr.response matches Ok(
            Reply::Diagnostics { state, created_nodes, created_links },
        ) && state == st.state && created_nodes == st.created_nodes@.len() && created_links
            == st.created_links@.len()),
        Method::SetChannelVolume { channel, mix, volume } => {
            if channel_idx(st.channels@, channel@) >= 0 {
                &&& hr.response matches Ok(Reply::VolumeAck { volume: v }) && v == clamped(volume)
                &&& hr.command matches Some(Command::SetChannelVolume { channel: c, mix: x, volume: v })
                    && c@ == channel@ && x == mix && v == clamped(volume)
            } else {
                is_not_found(hr.response, "Channel not found: "@, channel@) && hr.command is None
            }
        },
        Method::SetChannelMute { channel, mix, muted } => {
            if channel_idx(st.channels@, channel@) >= 0 {
                &&& hr.response matches Ok(Reply::MuteAck { muted: b }) && b == muted
                &&& hr.command matches Some(Command::SetChannelMute { channel: c, mix: x, muted: b })
                    && c@ == channel@ && x == mix && b == muted
            } else {
                is_not_found(hr.response, "Channel not found: "@, channel@) && hr.command is None
            }
        },
        Method::SetMasterVolume { mix, volume } => {
            &&& hr.response matches Ok(Reply::VolumeAck { volume: v }) && v == clamped(volume)
            &&& hr.command matches Some(Command::SetMasterVolume { mix: x, volume: v }) && x == mix
                && v == clamped(volume)
        },
        Method::SetMasterMute { mix, muted } => {
            &&& hr.response matches Ok(Reply::MuteAck { muted: b }) && b == muted
            &&& hr.command matches Some(Command::SetMasterMute { mix: x, muted: b }) && x == mix
                && b == muted
        },
        Method::SetAppRoute { app_pattern, channel } => {
            if channel_idx(st.channels@, channel@) >= 0 {
                &&& hr.response matches Ok(Reply::Ack)
                &&& hr.command matches Some(Command::SetAppRoute { app_pattern: p, channel: c })
                    && p@ == app_pattern@ && c@ == channel@
            } else {
                is_not_found(hr.response, "Channel not found: "@, channel@) && hr.command is None
            }
        },
        Method::RemoveAppRoute { app_pattern } => {
            &&& hr.response matches Ok(Reply::Ack)
            &&& hr.command matches Some(Command::RemoveAppRoute { app_pattern: p }) && p@
                == app_pattern@
        },
        Method::SaveProfile { name } => {
            &&& hr.response matches Ok(Reply::Ack)
            &&& hr.command matches Some(Command::SaveProfile { name: n }) && n@ == name@
        },
        Method::LoadProfile { name } => {
            &&& hr.response matches Ok(Reply::Ack)
            &&& hr.command matches Some(Command::LoadProfile { name: n }) && n@ == name@
        },
        Method::DeleteProfile { name } => {
            &&& hr.response matches Ok(Reply::Ack)
            &&& hr.command matches Some(Command::DeleteProfile { name: n }) && n@ == name@
        },
        Method::SetMicGain { gain } => {
            &&& hr.response matches Ok(Reply::GainAck { gain: g }) && g == clamped(gain)
            &&& hr.command matches Some(Command::SetMicGain { gain: g }) && g == clamped(gain)
        },
        Method::SetMicMute { muted } => {
            &&& hr.response matches Ok(Reply::MuteAck { muted: b }) && b == muted
            &&& hr.command matches Some(Command::SetMicMute { muted: b }) && b == muted
        },
        Method::GetOutputDevices => hr.command is None && (hr.response matches Ok(
            Reply::OutputDevices { devices, current },
        ) && devices@ == st.output_devices@ && current == st.monitor_output),
        Method::SetMonitorOutput { device_name } => {
            if device_idx(st.output_devices@, device_name@) >= 0 {
                &&& hr.response matches Ok(Reply::MonitorOutputAck { device }) && device@
                    == device_name@
                &&& hr.command matches Some(Command::SetMonitorOutput { device_name: d }) && d@
                    == device_name@
            } else {
                is_not_found(hr.response, "Output device not found: "@, device_name@)
                    && hr.command is None
            }
        },
        Method::Subscribe { .. } => hr.command is None && hr.response matches Ok(Reply::Ack),
        Method::Unsubscribe { .. } => hr.command is None && hr.response matches Ok(Reply::Ack),
        Method::Shutdown => hr.response matches Ok(Reply::Ack) && hr.command matches Some(
            Command::Shutdown,
        ),
        Method::Reconcile => hr.response matches Ok(Reply::Ack) && hr.command matches Some(
            Command::Reconcile,
        ),
    }
}

/// Position of the channel with this name in the snapshot.
fn snapshot_channel_position(st: &StateSnapshot, name: &str) -> (r: Option<usize>)
    ensures
        match r {
            Some(i) => channel_idx(st.channels@, name@) == i as int && i < st.channels@.len(),
            None => channel_idx(st.channels@, name@) < 0,
        },
{
    let n: usize = st.channels.len();
    let mut i: usize = 0;
    while i < n
        invariant
            n == st.channels@.len(),
            i <= n,
            forall|k: int| 0 <= k < i ==> chan_name_key()(#[trigger] st.channels@[k]) != name@,
        decreases n - i,
    {
        if str_eq(st.channels[i].config.name.as_str(), name) {
            proof {
                lemma_find_key_idx(st.channels@, chan_name_key(), name@);
                assert(chan_name_key()(st.channels@[i as int]) == name@);
            }
            return Some(i);
        }
        i += 1;
    }
    proof {
        lemma_find_key_idx(st.channels@, chan_name_key(), name@);
    }
    None
}

/// Position of the profile summary with this name in the snapshot.
fn summary_position(st: &StateSnapshot, name: &str) -> (r: Option<usize>)
    ensures
        match r {
            Some(i) => summary_idx(st.profiles@, name@) == i as int && i < st.profiles@.len(),
            None => summary_idx(st.profiles@, name@) < 0,
        },
{
    let n: usize = st.profiles.len();
    let mut i: usize = 0;
    while i < n
        invariant
            n == st.profiles@.len(),
            i <= n,
            forall|k: int| 0 <= k < i ==> summary_name_key()(#[trigger] st.profiles@[k]) != name@,
        decreases n - i,
    {
        if str_eq(st.profiles[i].name.as_str(), name) {
            proof {
                lemma_find_key_idx(st.profiles@, summary_name_key(), name@);
                assert(summary_name_key()(st.profiles@[i as int]) == name@);
            }
            return Some(i);
        }
        i += 1;
    }
    proof {
        lemma_find_key_idx(st.profiles@, summary_name_key(), name@);
    }
    None
}

/// Position of the output device with this name in the snapshot.
fn device_position(st: &StateSnapshot, name: &str) -> (r: Option<usize>)
    ensures
        match r {
            Some(i) => device_idx(st.output_devices@, name@) == i as int && i
                < st.output_devices@.len(),
            None => device_idx(st.output_devices@, name@) < 0,
        },
{
    let n: usize = st.output_devices.len();
    let mut i: usize = 0;
    while i < n
        invariant
            n == st.output_devices@.len(),
            i <= n,
            forall|k: int|
                0 <= k < i ==> device_name_key()(#[trigger] st.output_devices@[k]) != name@,
        decreases n - i,
    {
        if str_eq(st.output_devices[i].name.as_str(), name) {
            proof {
                lemma_find_key_idx(st.output_devices@, device_name_key(), name@);
                assert(device_name_key()(st.output_devices@[i as int]) == name@);
            }
            return Some(i);
        }
        i += 1;
    }
    proof {
        lemma_find_key_idx(st.output_devices@, device_name_key(), name@);
    }
    None
}

/// A 404 for an unknown channel.
fn channel_not_found(channel: &str) -> (r: HandleResult)
    ensures
        is_not_found(r.response, "Channel not found: "@, channel@),
        r.command is None,
{
    HandleResult {
        response: Err(ErrorInfo { code: 404, message: join_str("Channel not found: ", channel) }),
        command: None,
    }
}

/// Copy the application routes.
fn clone_app_routes(v: &Vec<AppRoute>) -> (r: Vec<AppRoute>)
    ensures
        r@ == v@,
{
    let mut out: Vec<AppRoute> = Vec::new();
    let n: usize = v.len();
    let mut i: usize = 0;
    while i < n
        invariant
            n == v@.len(),
            i <= n,
            out@.len() == i,
            forall|k: int| 0 <= k < i ==> out@[k] == v@[k],
        decreases n - i,
    {
        out.push(v[i].clone());
        i += 1;
    }
    proof {
        assert(out@ =~= v@);
    }
    out
}

/// Copy the profile summaries.
fn clone_summaries(v: &Vec<ProfileSummary>) -> (r: Vec<ProfileSummary>)
    ensures
        r@ == v@,
{
    let mut out: Vec<ProfileSummary> = Vec::new();
    let n: usize = v.len();
    let mut i: usize = 0;
    while i < n
        invariant
            n == v@.len(),
            i <= n,
            out@.len() == i,
            forall|k: int| 0 <= k < i ==> out@[k] == v@[k],
        decreases n - i,
    {
        out.push(v[i].clone());
        i += 1;
    }
    proof {
        assert(out@ =~= v@);
    }
    out
}

/// Copy the output devices.
fn clone_devices(v: &Vec<OutputDevice>) -> (r: Vec<OutputDevice>)
    ensures
        r@ == v@,
{
    let mut out: Vec<OutputDevice> = Vec::new();
    let n: usize = v.len();
    let mut i: usize = 0;
    while i < n
        invariant
            n == v@.len(),
            i <= n,
            out@.len() == i,
            forall|k: int| 0 <= k < i ==> out@[k] == v@[k],
        decreases n - i,
    {
        out.push(v[i].clone());
        i += 1;
    }
    proof {
        assert(out@ =~= v@);
    }
    out
}

/// Copy the created-object records.
fn clone_created(v: &Vec<CreatedEntry>) -> (r: Vec<CreatedEntry>)
    ensures
        r@ == v@,
{
    let mut out: Vec<CreatedEntry> = Vec::new();
    let n: usize = v.len();
    let mut i: usize = 0;
    while i < n
        invariant
            n == v@.len(),
            i <= n,
            out@.len() == i,
            forall|k: int| 0 <= k < i ==> out@[k] == v@[k],
        decreases n - i,
    {
        out.push(v[i].clone());
        i += 1;
    }
    proof {
        assert(out@ =~= v@);
    }
    out
}

/// Copy a full snapshot.
fn clone_snapshot(st: &StateSnapshot) -> (r: StateSnapshot)
    ensures
        snapshot_matches(r, *st),
{
    StateSnapshot {
        state: st.state.clone(),
        device_connected: st.device_connected,
        device_serial: clone_opt_string(&st.device_serial),
        channels: clone_channel_states(&st.channels),
        app_routes: clone_app_routes(&st.app_routes),
        mixer: st.mixer.clone(),
        active_profile: st.active_profile.clone(),
        profiles: clone_summaries(&st.profiles),
        output_devices: clone_devices(&st.output_devices),
        monitor_output: st.monitor_output.clone(),
        created_nodes: clone_created(&st.created_nodes),
        created_links: clone_created(&st.created_links),
    }
}

/// Handle one request against the current snapshot: validate, build the
/// response, and hand back the command to apply, if any.
pub fn handle_request(method: &Method, state: &StateSnapshot) -> (r: HandleResult)
    ensures
        handle_request_post(*method, *state, r),
{
    match method {
        Method::GetState => HandleResult {
            response: Ok(Reply::State(clone_snapshot(state))),
            command: None,
        },
        Method::GetChannels => HandleResult {
            response: Ok(Reply::Channels(clone_channel_states(&state.channels))),
            command: None,
        },
        Method::GetChannel { name } => {
            match snapshot_channel_position(state, name.as_str()) {
                Some(i) => HandleResult {
                    response: Ok(Reply::Channel(state.channels[i].clone())),
                    command: None,
                },
                None => channel_not_found(name.as_str()),
            }
        },
        Method::GetApps => HandleResult {
            response: Ok(Reply::Apps(clone_app_routes(&state.app_routes))),
            command: None,
        },
        Method::GetProfiles => HandleResult {
            response: Ok(Reply::Profiles(clone_summaries(&state.profiles))),
            command: None,
        },
        Method::GetProfile { name } => {
            match summary_position(state, name.as_str()) {
                Some(i) => HandleResult {
                    response: Ok(Reply::Profile(state.profiles[i].clone())),
                    command: None,
                },
                None => HandleResult {
                    response: Err(
                        ErrorInfo {
                            code: 404,
                            message: join_str("Profile not found: ", name.as_str()),
                        },
                    ),
                    command: None,
                },
            }
        },
        Method::GetDeviceStatus => HandleResult {
            response: Ok(
                Reply::DeviceStatus {
                    connected: state.device_connected,
                    serial: clone_opt_string(&state.device_serial),
                },
            ),
            command: None,
        },
        Method::GetDiagnostics => HandleResult {
            response: Ok(
                Reply::Diagnostics {
                    state: state.state.clone(),
                    created_nodes: state.created_nodes.len(),
                    created_links: state.created_links.len(),
                },
            ),
            command: None,
        },
        Method::SetChannelVolume { channel, mix, volume } => {
            match snapshot_channel_position(state, channel.as_str()) {
                Some(_) => {
                    let v = clamp_volume(*volume);
                    HandleResult {
                        response: Ok(Reply::VolumeAck { volume: v }),
                        command: Some(
                            Command::SetChannelVolume {
                                channel: channel.clone(),
                                mix: *mix,
                                volume: v,
                            },
                        ),
                    }
                },
                None => channel_not_found(channel.as_str()),
            }
        },
        Method::SetChannelMute { channel, mix, muted } => {
            match snapshot_channel_position(state, channel.as_str()) {
                Some(_) => HandleResult {
                    response: Ok(Reply::MuteAck { muted: *muted }),
                    command: Some(
                        Command::SetChannelMute {
                            channel: channel.clone(),
                            mix: *mix,
                            muted: *muted,
                        },
                    ),
                },
                None => channel_not_found(channel.as_str()),
            }
        },
        Method::SetMasterVolume { mix, volume } => {
            let v = clamp_volume(*volume);
            HandleResult {
                response: Ok(Reply::VolumeAck { volume: v }),
                command: Some(Command::SetMasterVolume { mix: *mix, volume: v }),
            }
        },
        Method::SetMasterMute { mix, muted } => HandleResult {
            response: Ok(Reply::MuteAck { muted: *muted }),
            command: Some(Command::SetMasterMute { mix: *mix, muted: *muted }),
        },
        Method::SetAppRoute { app_pattern, channel } => {
            match snapshot_channel_position(state, channel.as_str()) {
                Some(_) => HandleResult {
                    response: Ok(Reply::Ack),
                    command: Some(
                        Command::SetAppRoute {
                            app_pattern: app_pattern.clone(),
                            channel: channel.clone(),
                        },
                    ),
                },
                None => channel_not_found(channel.as_str()),
            }
        },
        Method::RemoveAppRoute { app_pattern } => HandleResult {
            response: Ok(Reply::Ack),
            command: Some(Command::RemoveAppRoute { app_pattern: app_pattern.clone() }),
        },
        Method::SaveProfile { name } => HandleResult {
            response: Ok(Reply::Ack),
            command: Some(Command::SaveProfile { name: name.clone() }),
        },
        Method::LoadProfile { name } => HandleResult {
            response: Ok(Reply::Ack),
            command: Some(Command::LoadProfile { name: name.clone() }),
        },
        Method::DeleteProfile { name } => HandleResult {
            response: Ok(Reply::Ack),
            command: Some(Command::DeleteProfile { name: name.clone() }),
        },
        Method::SetMicGain { gain } => {
            let g = clamp_volume(*gain);
            HandleResult {
                response: Ok(Reply::GainAck { gain: g }),
                command: Some(Command::SetMicGain { gain: g }),
            }
        },
        Method::SetMicMute { muted } => HandleResult {
            response: Ok(Reply::MuteAck { muted: *muted }),
            command: Some(Command::SetMicMute { muted: *muted }),
        },
        Method::GetOutputDevices => HandleResult {
            response: Ok(
                Reply::OutputDevices {
                    devices: clone_devices(&state.output_devices),
                    current: state.monitor_output.clone(),
                },
            ),
            command: None,
        },
        Method::SetMonitorOutput { device_name } => {
            match device_position(state, device_name.as_str()) {
                Some(_) => HandleResult {
                    response: Ok(Reply::MonitorOutputAck { device: device_name.clone() }),
                    command: Some(Command::SetMonitorOutput { device_name: device_name.clone() }),
                },
                None => HandleResult {
                    response: Err(
                        ErrorInfo {
                            code: 404,
                            message: join_str("Output device not found: ", device_name.as_str()),
                        },
                    ),
                    command: None,
                },
            }
        },
        Method::Subscribe { .. } => HandleResult { response: Ok(Reply::Ack), command: None },
        Method::Unsubscribe { .. } => HandleResult { response: Ok(Reply::Ack), command: None },
        Method::Shutdown => HandleResult {
            response: Ok(Reply::Ack),
            command: Some(Command::Shutdown),
        },
        Method::Reconcile => HandleResult {
            response: Ok(Reply::Ack),
            command: Some(Command::Reconcile),
        },
    }
}

} // verus!
