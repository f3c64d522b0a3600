//! Timeline state: tempo and play mode, owned by the application and read by
//! the metronome engine each frame.

#[allow(unused_imports)]
use vstd::prelude::*;

verus! {

/// Play mode of the timeline.
#[derive(Debug, Copy, Clone, PartialEq, Eq, Structural)]
pub enum TimelineState {
    Playing,
    Paused,
    Stopped,
}

/// Tempo and play mode of the timeline.
///
/// `bpm` is the tempo in beat cycles per minute.  A tempo of 0 while
/// `Playing` is a configuration error: the metronome does not advance and
/// reports a recoverable warning instead of failing.
#[derive(Debug, Copy, Clone, PartialEq, Eq, Structural)]
pub struct TimelineSettings {
    pub bpm: u64,
    pub state: TimelineState,
}

impl Default for TimelineSettings {
    /// 120 beats per minute, stopped.
    fn default() -> (r: Self)
        ensures
            r.bpm == 120,
            r.state == TimelineState::Stopped,
    {
        TimelineSettings { bpm: 120, state: TimelineState::Stopped }
    }
}

/// The settings the metronome saw on the previous frame, retained so that
/// transitions (such as a fresh start after a stop) can be detected.
#[derive(Debug, Copy, Clone, PartialEq, Eq, Structural)]
pub struct LastTimelineSettings {
    pub inner: TimelineSettings,
}

impl Default for LastTimelineSettings {
    fn default() -> (r: Self)
        ensures
            r.inner.bpm == 120,
            r.inner.state == TimelineState::Stopped,
    {
        LastTimelineSettings { inner: TimelineSettings::default() }
    }
}

} // verus!
