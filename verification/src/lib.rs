//! Undertone: a per-user audio routing control plane.
//!
//! The library models the daemon's control logic: five virtual channels,
//! two downstream mixes (stream and monitor) with independent per-channel
//! volume and mute, pattern-based routing of applications to channels,
//! snapshotable profiles, a mirror of the live audio graph, and a
//! reconciler that self-heals the desired topology.
//!
//! Volumes are stored as integers in thousandths of full scale, so that
//! the clamping invariant (every stored volume lies between 0 and full
//! scale) is machine-checked.

use vstd::prelude::*;

pub mod channel;
pub mod command;
pub mod engine;
pub mod error;
pub mod events;
pub mod factory;
pub mod graph;
pub mod hid;
pub mod messages;
pub mod mixer;
pub mod monitor;
pub mod plan;
pub mod profile;
pub mod reconcile;
pub mod routing;
pub mod seqtools;
pub mod server_logic;
pub mod session;
pub mod state;
pub mod store;
pub mod strutil;

verus! {

/// Full scale for volume values: volumes are thousandths in `0 ..= VOLUME_SCALE`.
pub const VOLUME_SCALE: u32 = 1000;

/// A volume value is valid when it does not exceed full scale.
pub open spec fn valid_volume(v: u32) -> bool {
    v <= VOLUME_SCALE
}

/// Clamp an incoming volume (thousandths, possibly negative or too large)
/// to the valid range.
pub fn clamp_volume(v: i64) -> (r: u32)
    ensures
        valid_volume(r),
        r == clamped(v),
{
    if v < 0 {
        0
    } else if v > VOLUME_SCALE as i64 {
        VOLUME_SCALE
    } else {
        v as u32
    }
}

/// What `clamp_volume` returns: the nearest point of `[0, VOLUME_SCALE]`.
pub open spec fn clamped(v: i64) -> u32 {
    if v < 0 {
        0u32
    } else if v > VOLUME_SCALE as i64 {
        VOLUME_SCALE
    } else {
        v as u32
    }
}

} // verus!
