//! The frame-loop side of the streaming bridge: per stream kind, the
//! generators the application has registered and the backend has not yet
//! taken over.
//!
//! A generator is opaque here: once drained it is handed to the backend's
//! streaming sink, which pulls one sample frame per output sample on its
//! own real-time thread.  Generators must therefore own all their mutable
//! state; nothing in this crate touches one after the hand-off.

#[allow(unused_imports)]
use vstd::prelude::*;

verus! {

/// The registration queue for one kind of streamed-audio generator.
///
/// Single-writer: the application registers generators between frames and
/// the host drains them once per frame, in registration order.
pub struct StreamedAudio<T> {
    pub streams: Vec<T>,
}

impl<T> Default for StreamedAudio<T> {
    /// No generators registered.
    fn default() -> (r: Self)
        ensures
            r.streams@ == Seq::<T>::empty(),
    {
        StreamedAudio { streams: Vec::new() }
    }
}

impl<T> StreamedAudio<T> {
    /// Register `generator`, to be handed to the backend's streaming sink
    /// on the next frame.
    pub fn stream(&mut self, generator: T)
        ensures
            final(self).streams@ == old(self).streams@.push(generator),
    {
        self.streams.push(generator);
    }

    /// Remove and return every registered generator, in registration
    /// order, for the hand-off to the backend.
    pub fn drain_streams(&mut self) -> (v: Vec<T>)
        ensures
            v@ == old(self).streams@,
            final(self).streams@ == Seq::<T>::empty(),
    {
        let mut drained: Vec<T> = Vec::new();
        core::mem::swap(&mut drained, &mut self.streams);
        drained
    }
}

} // verus!
