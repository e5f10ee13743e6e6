//! Events the daemon broadcasts to its clients, and the subscription
//! filter.

use vstd::prelude::*;
use crate::mixer::MixType;

verus! {

/// The kinds of event a client can subscribe to.
#[derive(Debug, Clone, Copy, PartialEq, Eq, Hash, Structural)]
pub enum EventType {
    /// The daemon's lifecycle state changed.
    StateChanged,
    /// A channel's volume changed.
    ChannelVolumeChanged,
    /// A channel's mute state changed.
    ChannelMuteChanged,
    /// Audio levels were updated.
    LevelsUpdated,
    /// An application route changed.
    AppRouteChanged,
    /// A new application audio stream was discovered.
    AppDiscovered,
    /// An application audio stream went away.
    AppRemoved,
    /// The target device connected.
    DeviceConnected,
    /// The target device disconnected.
    DeviceDisconnected,
    /// The microphone's mute state changed.
    MicMuteChanged,
    /// The active profile changed.
    ProfileChanged,
    /// An error occurred.
    Error,
}

/// Payload of a channel-volume change.
#[derive(Debug)]
pub struct ChannelVolumeChangedData {
    /// Channel name.
    pub channel: String,
    /// Which mix changed.
    pub mix: MixType,
    /// New volume, thousandths of full scale.
    pub volume: u32,
}

impl Clone for ChannelVolumeChangedData {
    fn clone(&self) -> (r: Self)
        ensures
            r == *self,
    {
        ChannelVolumeChangedData {
            channel: self.channel.clone(),
            mix: self.mix,
            volume: self.volume,
        }
    }
}

/// Payload of a channel-mute change.
#[derive(Debug)]
pub struct ChannelMuteChangedData {
    /// Channel name.
    pub channel: String,
    /// Which mix changed.
    pub mix: MixType,
    /// New mute state.
    pub muted: bool,
}

impl Clone for ChannelMuteChangedData {
    fn clone(&self) -> (r: Self)
        ensures
            r == *self,
    {
        ChannelMuteChangedData { channel: self.channel.clone(), mix: self.mix, muted: self.muted }
    }
}

/// Payload of an application discovery.
#[derive(Debug)]
pub struct AppDiscoveredData {
    /// The application's node id.
    pub app_id: u32,
    /// Its application name.
    pub name: String,
    /// Its binary name, when known.
    pub binary: Option<String>,
    /// Its process id, when known.
    pub pid: Option<u32>,
    /// The channel it was routed to.
    pub channel: String,
}

impl Clone for AppDiscoveredData {
    fn clone(&self) -> (r: Self)
        ensures
            r == *self,
    {
        AppDiscoveredData {
            app_id: self.app_id,
            name: self.name.clone(),
            binary: crate::graph::clone_opt_string(&self.binary),
            pid: self.pid,
            channel: self.channel.clone(),
        }
    }
}

/// Payload of a device connection.
#[derive(Debug)]
pub struct DeviceConnectedData {
    /// The device's serial number.
    pub serial: String,
}

impl Clone for DeviceConnectedData {
    fn clone(&self) -> (r: Self)
        ensures
            r == *self,
    {
        DeviceConnectedData { serial: self.serial.clone() }
    }
}

/// Payload of an error event.
#[derive(Debug)]
pub struct ErrorData {
    /// Error code.
    pub code: i32,
    /// Human-readable message.
    pub message: String,
    /// Component that failed.
    pub source: String,
}

impl Clone for ErrorData {
    fn clone(&self) -> (r: Self)
        ensures
            r == *self,
    {
        ErrorData { code: self.code, message: self.message.clone(), source: self.source.clone() }
    }
}

/// A typed event the daemon emits towards its clients.
#[derive(Debug)]
pub enum EventOut {
    /// The daemon's lifecycle state changed.
    StateChanged,
    /// A channel's volume changed.
    ChannelVolumeChanged(ChannelVolumeChangedData),
    /// A channel's mute state changed.
    ChannelMuteChanged(ChannelMuteChangedData),
    /// An application route changed.
    AppRouteChanged {
        /// The route's pattern.
        app_pattern: String,
        /// The channel routed to, or `None` when the route was removed.
        channel: Option<String>,
    },
    /// A new application audio stream was discovered and routed.
    AppDiscovered(AppDiscoveredData),
    /// An application audio stream went away.
    AppRemoved {
        /// Its node id.
        app_id: u32,
    },
    /// The target device connected.
    DeviceConnected(DeviceConnectedData),
    /// The target device disconnected.
    DeviceDisconnected,
    /// The microphone's mute state changed.
    MicMuteChanged {
        /// New mute state.
        muted: bool,
    },
    /// The active profile changed.
    ProfileChanged {
        /// The profile's name.
        name: String,
    },
    /// An error occurred.
    Error(ErrorData),
}

impl EventOut {
    /// The subscription type of this event.
    pub fn event_type(&self) -> (r: EventType)
        ensures
            r == self.spec_event_type(),
    {
        match self {
            EventOut::StateChanged => EventType::StateChanged,
            EventOut::ChannelVolumeChanged(_) => EventType::ChannelVolumeChanged,
            EventOut::ChannelMuteChanged(_) => EventType::ChannelMuteChanged,
            EventOut::AppRouteChanged { .. } => EventType::AppRouteChanged,
            EventOut::AppDiscovered(_) => EventType::AppDiscovered,
            EventOut::AppRemoved { .. } => EventType::AppRemoved,
            EventOut::DeviceConnected(_) => EventType::DeviceConnected,
            EventOut::DeviceDisconnected => EventType::DeviceDisconnected,
            EventOut::MicMuteChanged { .. } => EventType::MicMuteChanged,
            EventOut::ProfileChanged { .. } => EventType::ProfileChanged,
            EventOut::Error(_) => EventType::Error,
        }
    }

    /// The subscription type of this event, in specifications.
    pub open spec fn spec_event_type(&self) -> EventType {
        match self {
            EventOut::StateChanged => EventType::StateChanged,
            EventOut::ChannelVolumeChanged(_) => EventType::ChannelVolumeChanged,
            EventOut::ChannelMuteChanged(_) => EventType::ChannelMuteChanged,
            EventOut::AppRouteChanged { .. } => EventType::AppRouteChanged,
            EventOut::AppDiscovered(_) => EventType::AppDiscovered,
            EventOut::AppRemoved { .. } => EventType::AppRemoved,
            EventOut::DeviceConnected(_) => EventType::DeviceConnected,
            EventOut::DeviceDisconnected => EventType::DeviceDisconnected,
            EventOut::MicMuteChanged { .. } => EventType::MicMuteChanged,
            EventOut::ProfileChanged { .. } => EventType::ProfileChanged,
            EventOut::Error(_) => EventType::Error,
        }
    }
}

/// Whether an event of this type is delivered to a client with these
/// subscriptions: an empty subscription set receives every event.
pub open spec fn spec_should_deliver(subs: Seq<EventType>, ev: EventType) -> bool {
    subs.len() == 0 || subs.contains(ev)
}

/// Decide whether to deliver an event of this type to a client with
/// these subscriptions.
pub fn should_deliver(subs: &Vec<EventType>, ev: EventType) -> (r: bool)
    ensures
        r == spec_should_deliver(subs@, ev),
{
    if subs.len() == 0 {
        return true;
    }
    let n: usize = subs.len();
    let mut i: usize = 0;
    while i < n
        invariant
            n == subs@.len(),
            i <= n,
            forall|k: int| 0 <= k < i ==> subs@[k] != ev,
        decreases n - i,
    {
        if subs[i] == ev {
            assert(subs@.contains(ev));
            return true;
        }
        i += 1;
    }
    assert(!subs@.contains(ev));
    false
}

} // verus!
