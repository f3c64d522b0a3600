use beat_audio::metronome::Metronome;
use beat_audio::subdivision::BeatEvent;
use beat_audio::timeline::TimelineSettings;
use beat_audio::timeline::TimelineState;

fn playing(bpm: u64) -> TimelineSettings {
    TimelineSettings { bpm, state: TimelineState::Playing }
}

fn paused(bpm: u64) -> TimelineSettings {
    TimelineSettings { bpm, state: TimelineState::Paused }
}

fn stopped(bpm: u64) -> TimelineSettings {
    TimelineSettings { bpm, state: TimelineState::Stopped }
}

#[test]
fn quarter_fires_four_times_over_one_beat_in_small_steps() {
    // At 120 bpm, 0.5 s is one beat cycle; advanced in 10 steps of 50 ms,
    // the quarter boundary is crossed at 0.25, 0.5, 0.75 and 1.0 beats.
    let mut m = Metronome::default();
    let settings = playing(120);
    let mut quarters = 0;
    for _ in 0..10 {
        let out = m.update(&settings, 50_000);
        quarters += out.events.iter().filter(|e| **e == BeatEvent::Quarter).count();
    }
    assert_eq!(quarters, 4);
    assert_eq!(m.position, 60_000_000);
}

#[test]
fn quarter_fires_once_per_frame_even_over_a_large_step() {
    // One 0.5 s frame at 120 bpm skips over four quarter boundaries, but
    // detection is presence-of-crossing: the event is emitted exactly once.
    let mut m = Metronome::default();
    let out = m.update(&playing(120), 500_000);
    let quarters = out.events.iter().filter(|e| **e == BeatEvent::Quarter).count();
    assert_eq!(quarters, 1);
}

#[test]
fn whole_beat_frame_emits_every_subdivision_in_priority_order() {
    let mut m = Metronome::default();
    let out = m.update(&playing(120), 500_000);
    assert_eq!(
        out.events,
        vec![
            BeatEvent::Whole,
            BeatEvent::Half,
            BeatEvent::Quarter,
            BeatEvent::Eighth,
            BeatEvent::Sixteenth,
            BeatEvent::HalfTriplet,
            BeatEvent::QuarterTriplet,
            BeatEvent::EighthTriplet,
            BeatEvent::SixteenthTriplet,
        ]
    );
}

#[test]
fn half_is_emitted_before_quarter_when_both_cross() {
    // A frame from 0 to half a beat crosses the half boundary and two
    // quarter boundaries; the half event is delivered first.
    let mut m = Metronome::default();
    let out = m.update(&playing(120), 250_000);
    let half_at = out.events.iter().position(|e| *e == BeatEvent::Half);
    let quarter_at = out.events.iter().position(|e| *e == BeatEvent::Quarter);
    assert!(half_at.is_some());
    assert!(quarter_at.is_some());
    assert!(half_at.unwrap() < quarter_at.unwrap());
    // The coarsest subdivision of the frame, a whole-cycle boundary, was
    // not crossed.
    assert!(!out.events.contains(&BeatEvent::Whole));
}

#[test]
fn stop_then_play_resets_position() {
    let mut m = Metronome::default();
    m.update(&playing(120), 250_000);
    assert_eq!(m.position, 30_000_000);
    m.update(&stopped(120), 16_000);
    assert_eq!(m.position, 0);
    m.update(&playing(120), 100_000);
    assert_eq!(m.position, 12_000_000);
}

#[test]
fn pause_then_play_preserves_position() {
    let mut m = Metronome::default();
    m.update(&playing(120), 250_000);
    assert_eq!(m.position, 30_000_000);
    let out = m.update(&paused(120), 16_000);
    assert_eq!(m.position, 30_000_000);
    assert!(out.events.is_empty());
    m.update(&playing(120), 100_000);
    assert_eq!(m.position, 42_000_000);
}

#[test]
fn zero_bpm_while_playing_warns_and_does_not_advance() {
    let mut m = Metronome::default();
    m.update(&playing(120), 100_000);
    let out = m.update(&playing(0), 100_000);
    assert!(out.bpm_warning);
    assert!(out.events.is_empty());
    assert_eq!(m.position, 12_000_000);
}

#[test]
fn no_events_unless_playing() {
    let mut m = Metronome::default();
    let out_stopped = m.update(&stopped(120), 500_000);
    assert!(out_stopped.events.is_empty());
    assert!(!out_stopped.bpm_warning);
    let out_paused = m.update(&paused(0), 500_000);
    assert!(out_paused.events.is_empty());
    assert!(!out_paused.bpm_warning);
}

#[test]
fn bpm_change_while_playing_keeps_position_and_changes_rate() {
    let mut m = Metronome::default();
    m.update(&playing(120), 100_000);
    assert_eq!(m.position, 12_000_000);
    m.update(&playing(60), 100_000);
    assert_eq!(m.position, 18_000_000);
}

#[test]
fn last_settings_snapshot_tracks_previous_frame() {
    let mut m = Metronome::default();
    assert_eq!(m.last.inner.state, TimelineState::Stopped);
    m.update(&playing(90), 1_000);
    assert_eq!(m.last.inner, playing(90));
    m.update(&paused(90), 1_000);
    assert_eq!(m.last.inner, paused(90));
}
