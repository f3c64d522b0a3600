//! Beat-synchronized audio timeline controller.
//!
//! The crate drives a musical clock: it converts elapsed wall-clock time into
//! a beat position, detects which rhythmic subdivisions were crossed during a
//! frame, and emits one notification per crossed subdivision in a fixed
//! priority order.  Around the clock it mediates playback commands
//! (play / pause / stop, looped or one-shot, per logical channel) into an
//! underlying mixing backend: commands are queued, drained once per frame,
//! and the states the backend reports are reconciled into a registry of
//! instance handles that the application can query.
//!
//! Musical time is held in integer ticks: one beat cycle is
//! [`subdivision::TICKS_PER_BEAT`] ticks, chosen so that advancing by `dt`
//! microseconds at `bpm` beats per minute advances exactly `dt * bpm` ticks,
//! and so that every subdivision length is a whole number of ticks.

pub mod audio;
pub mod metronome;
pub mod stream;
pub mod subdivision;
pub mod timeline;
