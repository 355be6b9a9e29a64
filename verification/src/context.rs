//! Shared playback state: transport flags, volume, speed, and the
//! elapsed-position counter that the periodic sampler advances.

use vstd::prelude::*;

verus! {

/// State shared between the control side and the render side of the player.
///
/// Volume and speed are kept in hundredths, so `100` stands for the neutral
/// factor `1.0`; the meaningful volume range is `0..=200` (that is,
/// `0.0..=2.0`). The position counter `progress_ms` is an approximation: the
/// sampler advances it by a fixed increment on each tick rather than deriving
/// it from rendered frames.
///
/// This is a plain data container: every field is independently readable and
/// writable, and no field validates its value. Callers are responsible for
/// clamping (the controller keeps volume within `0..=200` and speed nonzero).
#[derive(Clone, Copy, Debug, PartialEq, Eq, Structural)]
pub struct PlaybackContext {
    /// Gates advancement and audible output.
    pub paused: bool,
    /// One-shot drain signal asking the live render session to terminate
    /// early; cleared at the start of each new session.
    pub stopped: bool,
    /// Gain multiplier in hundredths; `100` is unfiltered input.
    pub volume: u8,
    /// Playback-rate multiplier in hundredths; `100` is normal speed.
    pub speed: u32,
    /// Approximate elapsed position within the current track, advanced in
    /// fixed increments by the sampler.
    pub progress_ms: u64,
    /// Fixed cadence at which the sampler re-reads this context.
    pub sample_interval_ms: u64,
}

impl PlaybackContext {
    /// The state a controller starts from: not paused, not stopped, neutral
    /// volume and speed, position zero, a five-millisecond sampling cadence.
    pub open spec fn initial() -> PlaybackContext {
        PlaybackContext {
            paused: false,
            stopped: false,
            volume: 100,
            speed: 100,
            progress_ms: 0,
            sample_interval_ms: 5,
        }
    }

    /// Builds the initial context.
    pub fn new() -> (r: PlaybackContext)
        ensures
            r == PlaybackContext::initial(),
    {
        PlaybackContext {
            paused: false,
            stopped: false,
            volume: 100,
            speed: 100,
            progress_ms: 0,
            sample_interval_ms: 5,
        }
    }
}

} // verus!
