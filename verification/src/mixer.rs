//! Mix types and mixer state.

use vstd::prelude::*;
use crate::VOLUME_SCALE;
use crate::valid_volume;

verus! {

/// One of the two downstream mixes.
#[derive(Debug, Clone, Copy, PartialEq, Eq, Hash, Structural)]
pub enum MixType {
    /// Stream mix: captured by recording or streaming software.
    Stream,
    /// Monitor mix: local headphone playback.
    Monitor,
}

impl MixType {
    /// The node-name prefix for this mix's nodes.
    pub fn node_prefix(&self) -> (r: &'static str)
        ensures
            *self is Stream ==> r@ == "stream-"@,
            *self is Monitor ==> r@ == "monitor-"@,
    {
        match self {
            MixType::Stream => "stream-",
            MixType::Monitor => "monitor-",
        }
    }
}

/// Master state of the mixer. Volumes are thousandths of full scale.
#[derive(Debug)]
pub struct MixerState {
    /// Master volume for the stream mix.
    pub stream_master_volume: u32,
    /// Master mute for the stream mix.
    pub stream_master_muted: bool,
    /// Master volume for the monitor mix.
    pub monitor_master_volume: u32,
    /// Master mute for the monitor mix.
    pub monitor_master_muted: bool,
    /// Whether the microphone is included in the stream mix.
    pub mic_to_stream: bool,
    /// Microphone level in the stream mix.
    pub mic_stream_volume: u32,
    /// Whether the microphone is included in the monitor mix (sidetone).
    pub mic_to_monitor: bool,
    /// Microphone level in the monitor mix.
    pub mic_monitor_volume: u32,
}

impl MixerState {
    /// All stored volumes lie within the valid range.
    pub open spec fn wf(&self) -> bool {
        &&& valid_volume(self.stream_master_volume)
        &&& valid_volume(self.monitor_master_volume)
        &&& valid_volume(self.mic_stream_volume)
        &&& valid_volume(self.mic_monitor_volume)
    }
}

impl Clone for MixerState {
    fn clone(&self) -> (r: Self)
        ensures
            r == *self,
    {
        MixerState {
            stream_master_volume: self.stream_master_volume,
            stream_master_muted: self.stream_master_muted,
            monitor_master_volume: self.monitor_master_volume,
            monitor_master_muted: self.monitor_master_muted,
            mic_to_stream: self.mic_to_stream,
            mic_stream_volume: self.mic_stream_volume,
            mic_to_monitor: self.mic_to_monitor,
            mic_monitor_volume: self.mic_monitor_volume,
        }
    }
}

/// The seeded mixer state: both masters at full scale and unmuted; the
/// microphone feeds the stream mix at full scale and is absent from the
/// monitor mix.
pub open spec fn is_default_mixer(m: MixerState) -> bool {
    &&& m.stream_master_volume == VOLUME_SCALE
    &&& !m.stream_master_muted
    &&& m.monitor_master_volume == VOLUME_SCALE
    &&& !m.monitor_master_muted
    &&& m.mic_to_stream
    &&& m.mic_stream_volume == VOLUME_SCALE
    &&& !m.mic_to_monitor
    &&& m.mic_monitor_volume == 0
}

impl Default for MixerState {
    /// Both masters at full scale and unmuted; microphone feeds the
    /// stream mix at full scale and is absent from the monitor mix.
    fn default() -> (r: Self)
        ensures
            is_default_mixer(r),
            r.wf(),
    {
        MixerState {
            stream_master_volume: VOLUME_SCALE,
            stream_master_muted: false,
            monitor_master_volume: VOLUME_SCALE,
            monitor_master_muted: false,
            mic_to_stream: true,
            mic_stream_volume: VOLUME_SCALE,
            mic_to_monitor: false,
            mic_monitor_volume: 0,
        }
    }
}

} // verus!
