//! The subdivision table: a bidirectional mapping between rhythmic
//! subdivisions and their lengths, measured in timeline ticks.

#[allow(unused_imports)]
use vstd::prelude::*;

verus! {

/// Number of timeline ticks in one beat cycle.
///
/// With this scale, advancing by `dt` microseconds at `bpm` beats per minute
/// advances exactly `dt * bpm` ticks (`dt / 1_000_000 * bpm / 60` beats), and
/// every subdivision length below is a whole number of ticks.
pub const TICKS_PER_BEAT: u64 = 60_000_000;

/// A rhythmic subdivision of the beat cycle, emitted as a notification when
/// playback crosses one of its boundaries.
#[derive(Debug, Copy, Clone, PartialEq, Eq, Hash, Structural)]
pub enum BeatEvent {
    Whole,
    Half,
    Quarter,
    Eighth,
    Sixteenth,
    HalfTriplet,
    QuarterTriplet,
    EighthTriplet,
    SixteenthTriplet,
}

impl BeatEvent {
    /// The canonical length of this subdivision, in ticks.
    ///
    /// `Whole` maps to 0: in the table it stands for "no subdivision, the
    /// full beat-cycle boundary"; the metronome special-cases it with a
    /// crossing length of a whole beat cycle.
    pub open spec fn subdivision(self) -> u64 {
        match self {
            BeatEvent::Whole => 0,
            BeatEvent::Half => TICKS_PER_BEAT / 2,
            BeatEvent::Quarter => TICKS_PER_BEAT / 4,
            BeatEvent::Eighth => TICKS_PER_BEAT / 8,
            BeatEvent::Sixteenth => TICKS_PER_BEAT / 16,
            BeatEvent::HalfTriplet => TICKS_PER_BEAT / 3,
            BeatEvent::QuarterTriplet => TICKS_PER_BEAT / 6,
            BeatEvent::EighthTriplet => TICKS_PER_BEAT / 12,
            BeatEvent::SixteenthTriplet => TICKS_PER_BEAT / 24,
        }
    }

    /// Variant-to-length lookup.
    pub fn to_subdivision(&self) -> (t: u64)
        ensures
            t == self.subdivision(),
    {
        match self {
            BeatEvent::Whole => 0,
            BeatEvent::Half => TICKS_PER_BEAT / 2,
            BeatEvent::Quarter => TICKS_PER_BEAT / 4,
            BeatEvent::Eighth => TICKS_PER_BEAT / 8,
            BeatEvent::Sixteenth => TICKS_PER_BEAT / 16,
            BeatEvent::HalfTriplet => TICKS_PER_BEAT / 3,
            BeatEvent::QuarterTriplet => TICKS_PER_BEAT / 6,
            BeatEvent::EighthTriplet => TICKS_PER_BEAT / 12,
            BeatEvent::SixteenthTriplet => TICKS_PER_BEAT / 24,
        }
    }

    /// The variant whose canonical length equals `sub` exactly, if any.
    pub open spec fn subdivision_of(sub: u64) -> Option<BeatEvent> {
        if sub == BeatEvent::Whole.subdivision() {
            Some(BeatEvent::Whole)
        } else if sub == BeatEvent::Half.subdivision() {
            Some(BeatEvent::Half)
        } else if sub == BeatEvent::Quarter.subdivision() {
            Some(BeatEvent::Quarter)
        } else if sub == BeatEvent::Eighth.subdivision() {
            Some(BeatEvent::Eighth)
        } else if sub == BeatEvent::Sixteenth.subdivision() {
            Some(BeatEvent::Sixteenth)
        } else if sub == BeatEvent::HalfTriplet.subdivision() {
            Some(BeatEvent::HalfTriplet)
        } else if sub == BeatEvent::QuarterTriplet.subdivision() {
            Some(BeatEvent::QuarterTriplet)
        } else if sub == BeatEvent::EighthTriplet.subdivision() {
            Some(BeatEvent::EighthTriplet)
        } else if sub == BeatEvent::SixteenthTriplet.subdivision() {
            Some(BeatEvent::SixteenthTriplet)
        } else {
            None
        }
    }

    /// Length-to-variant lookup: exact equality against the canonical
    /// constants only, no tolerance matching.
    pub fn from_subdivision(sub: u64) -> (r: Option<BeatEvent>)
        ensures
            r == Self::subdivision_of(sub),
    {
        if sub == BeatEvent::Whole.to_subdivision() {
            Some(BeatEvent::Whole)
        } else if sub == BeatEvent::Half.to_subdivision() {
            Some(BeatEvent::Half)
        } else if sub == BeatEvent::Quarter.to_subdivision() {
            Some(BeatEvent::Quarter)
        } else if sub == BeatEvent::Eighth.to_subdivision() {
            Some(BeatEvent::Eighth)
        } else if sub == BeatEvent::Sixteenth.to_subdivision() {
            Some(BeatEvent::Sixteenth)
        } else if sub == BeatEvent::HalfTriplet.to_subdivision() {
            Some(BeatEvent::HalfTriplet)
        } else if sub == BeatEvent::QuarterTriplet.to_subdivision() {
            Some(BeatEvent::QuarterTriplet)
        } else if sub == BeatEvent::EighthTriplet.to_subdivision() {
            Some(BeatEvent::EighthTriplet)
        } else if sub == BeatEvent::SixteenthTriplet.to_subdivision() {
            Some(BeatEvent::SixteenthTriplet)
        } else {
            None
        }
    }
}

/// Law: the two lookups round-trip.  For every subdivision `e`, looking up
/// the canonical length of `e` yields `Some(e)` again.
pub proof fn lemma_subdivision_round_trip(e: BeatEvent)
    ensures
        BeatEvent::subdivision_of(e.subdivision()) == Some(e),
{
}

/// Law: a length that is not one of the canonical constants is rejected.
pub proof fn lemma_subdivision_of_non_canonical(sub: u64)
    requires
        forall|e: BeatEvent| #[trigger] e.subdivision() != sub,
    ensures
        BeatEvent::subdivision_of(sub) is None,
{
    assert(BeatEvent::Whole.subdivision() != sub);
    assert(BeatEvent::Half.subdivision() != sub);
    assert(BeatEvent::Quarter.subdivision() != sub);
    assert(BeatEvent::Eighth.subdivision() != sub);
    assert(BeatEvent::Sixteenth.subdivision() != sub);
    assert(BeatEvent::HalfTriplet.subdivision() != sub);
    assert(BeatEvent::QuarterTriplet.subdivision() != sub);
    assert(BeatEvent::EighthTriplet.subdivision() != sub);
    assert(BeatEvent::SixteenthTriplet.subdivision() != sub);
}

} // verus!
