//! The metronome engine: converts elapsed wall-clock time into beat
//! position and detects which subdivisions were crossed during a frame.
//!
//! Positions are measured in ticks ([`TICKS_PER_BEAT`] per beat cycle).
//! Advancing by `delta_micros` microseconds at tempo `bpm` advances exactly
//! `delta_micros * bpm` ticks, so the conversion from wall-clock time to
//! musical time is exact.

#[allow(unused_imports)]
use vstd::prelude::*;

use crate::subdivision::BeatEvent;
use crate::subdivision::TICKS_PER_BEAT;
use crate::timeline::LastTimelineSettings;
use crate::timeline::TimelineSettings;
use crate::timeline::TimelineState;

verus! {

/// The length, in ticks, against which boundary crossings of `e` are
/// detected.  `Whole` has table length 0, which would make the crossing
/// formula divide by zero; it is special-cased to fire on every beat-cycle
/// boundary, i.e. with a crossing length of one whole beat cycle.
pub open spec fn crossing_ticks(e: BeatEvent) -> u64 {
    if e == BeatEvent::Whole {
        TICKS_PER_BEAT
    } else {
        e.subdivision()
    }
}

/// A boundary of `e` lies strictly between consecutive frames at tick
/// positions `prev` and `cur` (more precisely, in the half-open interval
/// `(prev, cur]` scaled by the crossing length).
pub open spec fn crosses(prev: int, cur: int, e: BeatEvent) -> bool {
    prev / (crossing_ticks(e) as int) < cur / (crossing_ticks(e) as int)
}

/// The emission priority of `e`: its index in the fixed coarsest-first
/// order in which coinciding crossings are delivered.
pub open spec fn priority(e: BeatEvent) -> int {
    match e {
        BeatEvent::Whole => 0,
        BeatEvent::Half => 1,
        BeatEvent::Quarter => 2,
        BeatEvent::Eighth => 3,
        BeatEvent::Sixteenth => 4,
        BeatEvent::HalfTriplet => 5,
        BeatEvent::QuarterTriplet => 6,
        BeatEvent::EighthTriplet => 7,
        BeatEvent::SixteenthTriplet => 8,
    }
}

/// The subdivision with emission priority `i`.
pub open spec fn subdivision_at(i: int) -> BeatEvent {
    if i == 0 {
        BeatEvent::Whole
    } else if i == 1 {
        BeatEvent::Half
    } else if i == 2 {
        BeatEvent::Quarter
    } else if i == 3 {
        BeatEvent::Eighth
    } else if i == 4 {
        BeatEvent::Sixteenth
    } else if i == 5 {
        BeatEvent::HalfTriplet
    } else if i == 6 {
        BeatEvent::QuarterTriplet
    } else if i == 7 {
        BeatEvent::EighthTriplet
    } else {
        BeatEvent::SixteenthTriplet
    }
}

/// The crossed subdivisions among the first `n` priorities, in priority
/// order, one entry per crossed subdivision.
pub open spec fn events_prefix(prev: int, cur: int, n: int) -> Seq<BeatEvent>
    decreases n,
{
    if n <= 0 {
        Seq::empty()
    } else if crosses(prev, cur, subdivision_at(n - 1)) {
        events_prefix(prev, cur, n - 1).push(subdivision_at(n - 1))
    } else {
        events_prefix(prev, cur, n - 1)
    }
}

/// All subdivisions crossed between tick positions `prev` and `cur`, in the
/// fixed priority order, one entry per crossed subdivision.
pub open spec fn frame_events(prev: int, cur: int) -> Seq<BeatEvent> {
    events_prefix(prev, cur, 9)
}

/// The beat position, in ticks, after one frame at settings `s` lasting
/// `delta_micros` microseconds, starting from position `pos`.  Entering
/// `Stopped` clears the accumulator, so a later start is a fresh timeline;
/// `Paused` retains the position; `Playing` accumulates
/// `delta_micros * bpm` ticks (none when `bpm` is 0, the tempo
/// configuration error).
pub open spec fn next_position(pos: u64, s: TimelineSettings, delta_micros: u64) -> int {
    match s.state {
        TimelineState::Stopped => 0,
        TimelineState::Paused => pos as int,
        TimelineState::Playing => pos + s.bpm * delta_micros,
    }
}

fn at_priority(i: usize) -> (e: BeatEvent)
    requires
        i < 9,
    ensures
        e == subdivision_at(i as int),
{
    if i == 0 {
        BeatEvent::Whole
    } else if i == 1 {
        BeatEvent::Half
    } else if i == 2 {
        BeatEvent::Quarter
    } else if i == 3 {
        BeatEvent::Eighth
    } else if i == 4 {
        BeatEvent::Sixteenth
    } else if i == 5 {
        BeatEvent::HalfTriplet
    } else if i == 6 {
        BeatEvent::QuarterTriplet
    } else if i == 7 {
        BeatEvent::EighthTriplet
    } else {
        BeatEvent::SixteenthTriplet
    }
}

fn crossing_len(e: BeatEvent) -> (t: u64)
    ensures
        t == crossing_ticks(e),
        t > 0,
{
    match e {
        BeatEvent::Whole => TICKS_PER_BEAT,
        _ => e.to_subdivision(),
    }
}

/// The subdivisions crossed between tick positions `prev` and `cur`, in
/// priority order.  Detection is presence-of-crossing, not
/// count-of-crossings: even if a large frame skips several boundaries of
/// the same subdivision, that subdivision appears exactly once.
pub fn crossed_events(prev: u64, cur: u64) -> (v: Vec<BeatEvent>)
    ensures
        v@ == frame_events(prev as int, cur as int),
{
    let mut v: Vec<BeatEvent> = Vec::new();
    for i in 0..9usize
        invariant
            v@ == events_prefix(prev as int, cur as int, i as int),
    {
        let e = at_priority(i);
        let len = crossing_len(e);
        if prev / len < cur / len {
            v.push(e);
        }
    }
    v
}

/// Law: stopping and then starting again resets the accumulated beat
/// position.  Whatever position the timeline had, after a frame in
/// `Stopped` and a following frame in `Playing` the position is exactly
/// what the playing frame accumulated from zero.
pub proof fn lemma_stop_then_play_resets(
    pos: u64,
    stopped: TimelineSettings,
    playing: TimelineSettings,
    dt1: u64,
    dt2: u64,
)
    requires
        stopped.state == TimelineState::Stopped,
        playing.state == TimelineState::Playing,
    ensures
        next_position(pos, stopped, dt1) == 0,
        next_position(next_position(pos, stopped, dt1) as u64, playing, dt2) == playing.bpm * dt2,
{
}

/// Law: pausing preserves the accumulated beat position.  A frame in
/// `Paused` leaves the position unchanged, and a following frame in
/// `Playing` resumes accumulating from that same position.
pub proof fn lemma_pause_then_play_preserves(
    pos: u64,
    paused: TimelineSettings,
    playing: TimelineSettings,
    dt1: u64,
    dt2: u64,
)
    requires
        paused.state == TimelineState::Paused,
        playing.state == TimelineState::Playing,
    ensures
        next_position(pos, paused, dt1) == pos,
        next_position(next_position(pos, paused, dt1) as u64, playing, dt2) == pos + playing.bpm
            * dt2,
{
}

proof fn lemma_priority_of_subdivision_at(n: int)
    requires
        0 <= n < 9,
    ensures
        priority(subdivision_at(n)) == n,
{
}

proof fn lemma_subdivision_at_of_priority(e: BeatEvent)
    ensures
        subdivision_at(priority(e)) == e,
        0 <= priority(e) < 9,
{
}

proof fn lemma_events_prefix_props(prev: int, cur: int, n: int)
    requires
        0 <= n <= 9,
    ensures
        forall|k: int|
            0 <= k < events_prefix(prev, cur, n).len() ==> crosses(
                prev,
                cur,
                #[trigger] events_prefix(prev, cur, n)[k],
            ) && 0 <= priority(events_prefix(prev, cur, n)[k]) < n,
        forall|k1: int, k2: int|
            0 <= k1 < k2 < events_prefix(prev, cur, n).len() ==> priority(
                #[trigger] events_prefix(prev, cur, n)[k1],
            ) < priority(#[trigger] events_prefix(prev, cur, n)[k2]),
        forall|e: BeatEvent|
            priority(e) < n && crosses(prev, cur, e) ==> events_prefix(prev, cur, n).contains(e),
    decreases n,
{
    if n > 0 {
        lemma_events_prefix_props(prev, cur, n - 1);
        let s = events_prefix(prev, cur, n);
        let s0 = events_prefix(prev, cur, n - 1);
        let last_sub = subdivision_at(n - 1);
        lemma_priority_of_subdivision_at(n - 1);
        if crosses(prev, cur, last_sub) {
            assert(s == s0.push(last_sub));
            assert(s[s0.len() as int] == last_sub);
            assert forall|e: BeatEvent| priority(e) < n && crosses(prev, cur, e) implies s.contains(
                e,
            ) by {
                lemma_subdivision_at_of_priority(e);
                if priority(e) < n - 1 {
                    let k = choose|k: int| 0 <= k < s0.len() && s0[k] == e;
                    assert(s[k] == e);
                } else {
                    assert(e == last_sub);
                    assert(s[s0.len() as int] == e);
                }
            }
        } else {
            assert forall|e: BeatEvent| priority(e) < n && crosses(prev, cur, e) implies s.contains(
                e,
            ) by {
                lemma_subdivision_at_of_priority(e);
                assert(priority(e) != n - 1);
            }
        }
    }
}

/// Law: the events of one frame are exactly the crossed subdivisions,
/// delivered coarsest-first.  Every emitted event crossed a boundary
/// between `prev` and `cur`; the emission priorities are strictly
/// increasing, so each subdivision appears at most once and coinciding
/// crossings come in the fixed priority order; and every crossed
/// subdivision is emitted.
pub proof fn lemma_frame_events_ordered(prev: int, cur: int)
    ensures
        forall|k: int|
            0 <= k < frame_events(prev, cur).len() ==> crosses(
                prev,
                cur,
                #[trigger] frame_events(prev, cur)[k],
            ),
        forall|k1: int, k2: int|
            0 <= k1 < k2 < frame_events(prev, cur).len() ==> priority(
                #[trigger] frame_events(prev, cur)[k1],
            ) < priority(#[trigger] frame_events(prev, cur)[k2]),
        forall|e: BeatEvent| crosses(prev, cur, e) ==> frame_events(prev, cur).contains(e),
{
    lemma_events_prefix_props(prev, cur, 9);
    assert forall|e: BeatEvent| crosses(prev, cur, e) implies frame_events(prev, cur).contains(
        e,
    ) by {
        lemma_subdivision_at_of_priority(e);
    }
}

/// What one frame of the metronome produced: the crossed-subdivision
/// notifications in priority order, and whether the tempo configuration
/// was invalid (zero beats per minute while playing), in which case the
/// timeline did not advance.
pub struct MetronomeFrame {
    pub events: Vec<BeatEvent>,
    pub bpm_warning: bool,
}

/// The metronome engine: the accumulated beat position in ticks, and the
/// settings seen on the previous frame.
///
/// Single-writer: the engine is advanced only by [`Metronome::update`],
/// called once per frame by the host loop.
pub struct Metronome {
    pub position: u64,
    pub last: LastTimelineSettings,
}

impl Default for Metronome {
    /// A fresh timeline: position 0, default settings snapshot.
    fn default() -> (r: Self)
        ensures
            r.position == 0,
            r.last.inner.bpm == 120,
            r.last.inner.state == TimelineState::Stopped,
    {
        Metronome { position: 0, last: LastTimelineSettings::default() }
    }
}

impl Metronome {
    /// Advance the timeline by one frame of `delta_micros` microseconds
    /// under `settings`, and report the subdivisions crossed.
    ///
    /// While `Playing` the position advances by `delta_micros * bpm` ticks
    /// and one event is emitted per crossed subdivision, coarsest first;
    /// a zero tempo advances nothing and raises the warning instead.
    /// `Paused` retains the position; `Stopped` clears it, so the next
    /// start accumulates from zero.  No events are emitted unless playing.
    pub fn update(&mut self, settings: &TimelineSettings, delta_micros: u64) -> (out:
        MetronomeFrame)
        requires
            settings.state == TimelineState::Playing ==> old(self).position + settings.bpm
                * delta_micros <= u64::MAX,
        ensures
            final(self).position == next_position(old(self).position, *settings, delta_micros),
            final(self).last.inner == *settings,
            settings.state == TimelineState::Playing ==> out.events@ == frame_events(
                old(self).position as int,
                next_position(old(self).position, *settings, delta_micros),
            ),
            settings.state != TimelineState::Playing ==> out.events@ == Seq::<BeatEvent>::empty(),
            out.bpm_warning <==> (settings.state == TimelineState::Playing && settings.bpm == 0),
    {
        let bpm_warning = settings.state == TimelineState::Playing && settings.bpm == 0;
        let mut events: Vec<BeatEvent> = Vec::new();
        match settings.state {
            TimelineState::Stopped => {
                self.position = 0;
            },
            TimelineState::Paused => {},
            TimelineState::Playing => {
                let prev = self.position;
                let cur = prev + settings.bpm * delta_micros;
                self.position = cur;
                events = crossed_events(prev, cur);
            },
        }
        self.last = LastTimelineSettings { inner: *settings };
        MetronomeFrame { events, bpm_warning }
    }
}

} // verus!
