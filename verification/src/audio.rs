//! Playback commands, the channel registry, and per-frame reconciliation.
//!
//! The application records playback intents (play, stop, pause, resume,
//! volume and panning changes) against a logical channel; each intent is
//! appended to a command queue and, for plays, a provisional instance
//! handle is returned immediately.  Once per frame the host drains the
//! queue, performs the corresponding backend calls, and feeds the backend's
//! answers back through the `apply_*` functions, which reconcile the
//! registry's view of every instance.  The backend itself is outside this
//! crate: only the decisions about queue and registry state live here, and
//! they are exact for every possible backend answer.

#[allow(unused_imports)]
use vstd::prelude::*;

verus! {

/// Lifecycle state of one playback instance.
///
/// `Queued` from command issue until the backend confirms, then `Playing`,
/// `Paused` or `Stopped`.  `Stopped` is terminal: a reconciled record never
/// leaves it, and eviction may then drop the record.
#[derive(Debug, Copy, Clone, PartialEq, Eq, Structural)]
pub enum PlaybackState {
    Queued,
    Playing,
    Paused,
    Stopped,
}

/// A logical playback channel, identified by a caller-chosen key.
/// Channel 0 is the default channel.  Channels are created lazily on
/// first reference and never destroyed.
#[derive(Debug, Copy, Clone, PartialEq, Eq, Hash, Structural)]
pub struct AudioChannel {
    pub id: u64,
}

impl AudioChannel {
    pub fn new(id: u64) -> (c: Self)
        ensures
            c.id == id,
    {
        AudioChannel { id }
    }
}

impl Default for AudioChannel {
    /// The default channel.
    fn default() -> (c: Self)
        ensures
            c.id == 0,
    {
        AudioChannel { id: 0 }
    }
}

/// An opaque reference to decoded audio.  The core never inspects the
/// samples; it only hands the reference on to the backend.
#[derive(Debug, Copy, Clone, PartialEq, Eq, Hash, Structural)]
pub struct AudioSource {
    pub id: u64,
}

impl AudioSource {
    pub fn new(id: u64) -> (s: Self)
        ensures
            s.id == id,
    {
        AudioSource { id }
    }
}

/// Identifier of one in-flight playback instance.  Handles are issued from
/// a monotone counter and are never reused for a different instance.
#[derive(Debug, Copy, Clone, PartialEq, Eq, Hash, Structural)]
pub struct InstanceHandle {
    pub id: u64,
}

/// A recorded playback intent, queued until the next reconciliation pass.
#[derive(Debug, Copy, Clone, PartialEq, Eq, Structural)]
pub enum AudioCommand {
    Play { source: AudioSource, channel: AudioChannel, looped: bool, handle: InstanceHandle },
    Stop { channel: AudioChannel },
    Pause { channel: AudioChannel },
    Resume { channel: AudioChannel },
    SetVolume { channel: AudioChannel, level_permille: u64 },
    SetPanning { channel: AudioChannel, pan_permille: i64 },
}

/// The registry's record of one playback instance.
#[derive(Debug, Copy, Clone, PartialEq, Eq, Structural)]
pub struct InstanceRecord {
    pub handle: InstanceHandle,
    pub channel: AudioChannel,
    pub looped: bool,
    pub state: PlaybackState,
}

/// Channel-level parameters, created lazily when a channel's volume or
/// panning is first set.  Volume is in thousandths of full scale
/// (0 ..= 1000); panning in thousandths from hard left (-1000) to hard
/// right (1000).
#[derive(Debug, Copy, Clone, PartialEq, Eq, Structural)]
pub struct ChannelState {
    pub channel: AudioChannel,
    pub volume_permille: u64,
    pub pan_permille: i64,
}

/// What the backend answered to a play command: the instance started, it
/// is not yet started (stays queued), or the call failed (for example the
/// device is unavailable), which marks the instance stopped without
/// aborting the rest of the frame's queue.
#[derive(Debug, Copy, Clone, PartialEq, Eq, Structural)]
pub enum BackendPlayResult {
    Started,
    Pending,
    Failed,
}

/// A channel-wide play-state change to reconcile onto every instance the
/// channel currently owns.
#[derive(Debug, Copy, Clone, PartialEq, Eq, Structural)]
pub enum ChannelOp {
    Stop,
    Pause,
    Resume,
}

/// Volume clamped to the accepted range: out-of-range values are clamped,
/// not rejected.
pub open spec fn clamped_volume(permille: u64) -> u64 {
    if permille > 1000 {
        1000
    } else {
        permille
    }
}

/// Panning clamped to the accepted range: out-of-range values are clamped,
/// not rejected.
pub open spec fn clamped_panning(permille: i64) -> i64 {
    if permille > 1000 {
        1000
    } else if permille < -1000 {
        -1000i64
    } else {
        permille
    }
}

/// The instance state after the backend's answer to a play command is
/// reconciled: started instances play, pending ones stay as they were,
/// failed ones are stopped.
pub open spec fn play_result_state(result: BackendPlayResult, prev: PlaybackState) -> PlaybackState {
    match result {
        BackendPlayResult::Started => PlaybackState::Playing,
        BackendPlayResult::Pending => prev,
        BackendPlayResult::Failed => PlaybackState::Stopped,
    }
}

/// `r` with its state replaced.
pub open spec fn record_with_state(r: InstanceRecord, st: PlaybackState) -> InstanceRecord {
    InstanceRecord { handle: r.handle, channel: r.channel, looped: r.looped, state: st }
}

/// How one registry record changes when the backend's answer for `handle`
/// is reconciled: only the record of `handle` changes, and only its state.
pub open spec fn play_result_update(
    r: InstanceRecord,
    handle: InstanceHandle,
    result: BackendPlayResult,
) -> InstanceRecord {
    if r.handle == handle {
        record_with_state(r, play_result_state(result, r.state))
    } else {
        r
    }
}

/// The instance state after a polled backend state is reconciled:
/// `Stopped` is terminal and never left; otherwise the backend's report
/// stands.
pub open spec fn polled_state(prev: PlaybackState, reported: PlaybackState) -> PlaybackState {
    if prev == PlaybackState::Stopped {
        PlaybackState::Stopped
    } else {
        reported
    }
}

/// How one registry record changes when a polled state for `handle` is
/// reconciled.
pub open spec fn poll_update(
    r: InstanceRecord,
    handle: InstanceHandle,
    reported: PlaybackState,
) -> InstanceRecord {
    if r.handle == handle {
        record_with_state(r, polled_state(r.state, reported))
    } else {
        r
    }
}

/// The instance state after a channel-wide operation: stop stops any
/// instance, pause affects only playing ones, resume only paused ones.
pub open spec fn channel_op_state(op: ChannelOp, prev: PlaybackState) -> PlaybackState {
    match op {
        ChannelOp::Stop => PlaybackState::Stopped,
        ChannelOp::Pause => if prev == PlaybackState::Playing {
            PlaybackState::Paused
        } else {
            prev
        },
        ChannelOp::Resume => if prev == PlaybackState::Paused {
            PlaybackState::Playing
        } else {
            prev
        },
    }
}

/// How one registry record changes under a channel-wide operation: only
/// records of that channel change, and only their state.
pub open spec fn channel_op_update(
    r: InstanceRecord,
    channel: AudioChannel,
    op: ChannelOp,
) -> InstanceRecord {
    if r.channel == channel {
        record_with_state(r, channel_op_state(op, r.state))
    } else {
        r
    }
}

/// An evicted record: stopped and not looped.  Looped instances persist in
/// the registry until explicitly stopped and reconciled.
pub open spec fn evicted(r: InstanceRecord) -> bool {
    r.state == PlaybackState::Stopped && !r.looped
}

/// The first `n` records of `s` with the evicted ones removed, in order.
pub open spec fn retained_prefix(s: Seq<InstanceRecord>, n: int) -> Seq<InstanceRecord>
    decreases n,
{
    if n <= 0 {
        Seq::empty()
    } else if evicted(s[n - 1]) {
        retained_prefix(s, n - 1)
    } else {
        retained_prefix(s, n - 1).push(s[n - 1])
    }
}

/// `s` with the evicted records removed, in order.
pub open spec fn retained(s: Seq<InstanceRecord>) -> Seq<InstanceRecord> {
    retained_prefix(s, s.len() as int)
}

/// The handles of the first `n` records of `s` that belong to `channel`,
/// in order.
pub open spec fn channel_handles_prefix(
    s: Seq<InstanceRecord>,
    channel: AudioChannel,
    n: int,
) -> Seq<InstanceHandle>
    decreases n,
{
    if n <= 0 {
        Seq::empty()
    } else if s[n - 1].channel == channel {
        channel_handles_prefix(s, channel, n - 1).push(s[n - 1].handle)
    } else {
        channel_handles_prefix(s, channel, n - 1)
    }
}

/// The handles currently owned by `channel`, in registration order.
pub open spec fn channel_handles_of(s: Seq<InstanceRecord>, channel: AudioChannel) -> Seq<
    InstanceHandle,
> {
    channel_handles_prefix(s, channel, s.len() as int)
}

/// The application-facing audio API and the registry it feeds: the queue
/// of pending commands, the records of all tracked playback instances,
/// the lazily created channel parameters, and the handle counter.
///
/// Single-writer: commands are enqueued by the application between frames,
/// and the registry is mutated only by the frame's reconciliation pass
/// through the `apply_*` and `evict_stopped` functions.
pub struct Audio {
    pub commands: Vec<AudioCommand>,
    pub instances: Vec<InstanceRecord>,
    pub channels: Vec<ChannelState>,
    pub next_handle: u64,
}

impl Audio {
    /// Well-formed registry: instance handles are pairwise distinct and
    /// below the handle counter (so fresh handles are never reused), and
    /// channel parameters hold at most one entry per channel.
    pub open spec fn wf(self) -> bool {
        &&& forall|i: int, j: int|
            0 <= i < j < self.instances@.len() ==> self.instances@[i].handle.id
                != self.instances@[j].handle.id
        &&& forall|i: int|
            0 <= i < self.instances@.len() ==> (#[trigger] self.instances@[i]).handle.id
                < self.next_handle
        &&& forall|i: int, j: int|
            0 <= i < j < self.channels@.len() ==> self.channels@[i].channel
                != self.channels@[j].channel
    }
}

impl Default for Audio {
    /// An empty registry: no commands, no instances, no channel
    /// parameters, first handle 0.
    fn default() -> (a: Self)
        ensures
            a.commands@ == Seq::<AudioCommand>::empty(),
            a.instances@ == Seq::<InstanceRecord>::empty(),
            a.channels@ == Seq::<ChannelState>::empty(),
            a.next_handle == 0,
            a.wf(),
    {
        Audio { commands: Vec::new(), instances: Vec::new(), channels: Vec::new(), next_handle: 0 }
    }
}

/// What a play command leaves behind: the command is appended to the
/// queue, a provisional `Queued` record for the fresh handle `h` is
/// appended to the registry, the handle counter advances, and nothing
/// else changes.
pub open spec fn plays_queued(
    pre: Audio,
    post: Audio,
    source: AudioSource,
    channel: AudioChannel,
    looped: bool,
    h: InstanceHandle,
) -> bool {
    &&& h.id == pre.next_handle
    &&& post.next_handle == pre.next_handle + 1
    &&& post.commands@ == pre.commands@.push(
        AudioCommand::Play { source, channel, looped, handle: h },
    )
    &&& post.instances@ == pre.instances@.push(
        InstanceRecord { handle: h, channel, looped, state: PlaybackState::Queued },
    )
    &&& post.channels@ == pre.channels@
}

impl Audio {
    fn enqueue_play(
        &mut self,
        source: AudioSource,
        channel: AudioChannel,
        looped: bool,
    ) -> (h: InstanceHandle)
        requires
            old(self).next_handle < u64::MAX,
            old(self).wf(),
        ensures
            plays_queued(*old(self), *final(self), source, channel, looped, h),
            final(self).wf(),
    {
        let h = InstanceHandle { id: self.next_handle };
        self.next_handle = self.next_handle + 1;
        self.commands.push(AudioCommand::Play { source, channel, looped, handle: h });
        self.instances.push(
            InstanceRecord { handle: h, channel, looped, state: PlaybackState::Queued },
        );
        proof {
            let s0 = old(self).instances@;
            let s1 = self.instances@;
            assert forall|i: int, j: int| 0 <= i < j < s1.len() implies s1[i].handle.id
                != s1[j].handle.id by {
                if j < s0.len() {
                    assert(s1[i] == s0[i] && s1[j] == s0[j]);
                } else {
                    assert(s1[i] == s0[i]);
                }
            }
        }
        h
    }

    /// Queue a one-shot play on the default channel; the returned handle
    /// is provisionally `Queued` until reconciliation.
    pub fn play(&mut self, source: AudioSource) -> (h: InstanceHandle)
        requires
            old(self).next_handle < u64::MAX,
            old(self).wf(),
        ensures
            plays_queued(*old(self), *final(self), source, AudioChannel { id: 0 }, false, h),
            final(self).wf(),
    {
        self.enqueue_play(source, AudioChannel::default(), false)
    }

    /// Queue a looped play on the default channel.
    pub fn play_looped(&mut self, source: AudioSource) -> (h: InstanceHandle)
        requires
            old(self).next_handle < u64::MAX,
            old(self).wf(),
        ensures
            plays_queued(*old(self), *final(self), source, AudioChannel { id: 0 }, true, h),
            final(self).wf(),
    {
        self.enqueue_play(source, AudioChannel::default(), true)
    }

    /// Queue a one-shot play on `channel`.
    pub fn play_in_channel(&mut self, source: AudioSource, channel: AudioChannel) -> (h:
        InstanceHandle)
        requires
            old(self).next_handle < u64::MAX,
            old(self).wf(),
        ensures
            plays_queued(*old(self), *final(self), source, channel, false, h),
            final(self).wf(),
    {
        self.enqueue_play(source, channel, false)
    }

    /// Queue a looped play on `channel`.
    pub fn play_looped_in_channel(&mut self, source: AudioSource, channel: AudioChannel) -> (h:
        InstanceHandle)
        requires
            old(self).next_handle < u64::MAX,
            old(self).wf(),
        ensures
            plays_queued(*old(self), *final(self), source, channel, true, h),
            final(self).wf(),
    {
        self.enqueue_play(source, channel, true)
    }
}

/// What enqueueing the non-play command `cmd` leaves behind: the command
/// is appended and nothing else changes.
pub open spec fn command_queued(pre: Audio, post: Audio, cmd: AudioCommand) -> bool {
    &&& post.commands@ == pre.commands@.push(cmd)
    &&& post.instances@ == pre.instances@
    &&& post.channels@ == pre.channels@
    &&& post.next_handle == pre.next_handle
}

impl Audio {
    /// Queue a stop of every instance in `channel`.
    pub fn stop_channel(&mut self, channel: AudioChannel)
        ensures
            command_queued(*old(self), *final(self), AudioCommand::Stop { channel }),
            old(self).wf() ==> final(self).wf(),
    {
        self.commands.push(AudioCommand::Stop { channel });
    }

    /// Queue a stop of every instance in the default channel.
    pub fn stop(&mut self)
        ensures
            command_queued(
                *old(self),
                *final(self),
                AudioCommand::Stop { channel: AudioChannel { id: 0 } },
            ),
            old(self).wf() ==> final(self).wf(),
    {
        self.stop_channel(AudioChannel::default())
    }

    /// Queue a pause of every playing instance in `channel`.
    pub fn pause_channel(&mut self, channel: AudioChannel)
        ensures
            command_queued(*old(self), *final(self), AudioCommand::Pause { channel }),
            old(self).wf() ==> final(self).wf(),
    {
        self.commands.push(AudioCommand::Pause { channel });
    }

    /// Queue a pause of every playing instance in the default channel.
    pub fn pause(&mut self)
        ensures
            command_queued(
                *old(self),
                *final(self),
                AudioCommand::Pause { channel: AudioChannel { id: 0 } },
            ),
            old(self).wf() ==> final(self).wf(),
    {
        self.pause_channel(AudioChannel::default())
    }

    /// Queue a resume of every paused instance in `channel`.
    pub fn resume_channel(&mut self, channel: AudioChannel)
        ensures
            command_queued(*old(self), *final(self), AudioCommand::Resume { channel }),
            old(self).wf() ==> final(self).wf(),
    {
        self.commands.push(AudioCommand::Resume { channel });
    }

    /// Queue a resume of every paused instance in the default channel.
    pub fn resume(&mut self)
        ensures
            command_queued(
                *old(self),
                *final(self),
                AudioCommand::Resume { channel: AudioChannel { id: 0 } },
            ),
            old(self).wf() ==> final(self).wf(),
    {
        self.resume_channel(AudioChannel::default())
    }

    /// Queue a volume change for `channel`.  The level is in thousandths
    /// of full scale; out-of-range values are clamped, not rejected.
    pub fn set_volume_in_channel(&mut self, permille: u64, channel: AudioChannel)
        ensures
            command_queued(
                *old(self),
                *final(self),
                AudioCommand::SetVolume { channel, level_permille: clamped_volume(permille) },
            ),
            old(self).wf() ==> final(self).wf(),
    {
        let level = if permille > 1000 {
            1000
        } else {
            permille
        };
        self.commands.push(AudioCommand::SetVolume { channel, level_permille: level });
    }

    /// Queue a volume change for the default channel.
    pub fn set_volume(&mut self, permille: u64)
        ensures
            command_queued(
                *old(self),
                *final(self),
                AudioCommand::SetVolume {
                    channel: AudioChannel { id: 0 },
                    level_permille: clamped_volume(permille),
                },
            ),
            old(self).wf() ==> final(self).wf(),
    {
        self.set_volume_in_channel(permille, AudioChannel::default())
    }

    /// Queue a panning change for `channel`.  The position is in
    /// thousandths from hard left (-1000) to hard right (1000);
    /// out-of-range values are clamped, not rejected.
    pub fn set_panning_in_channel(&mut self, permille: i64, channel: AudioChannel)
        ensures
            command_queued(
                *old(self),
                *final(self),
                AudioCommand::SetPanning { channel, pan_permille: clamped_panning(permille) },
            ),
            old(self).wf() ==> final(self).wf(),
    {
        let pan = if permille > 1000 {
            1000
        } else if permille < -1000 {
            -1000
        } else {
            permille
        };
        self.commands.push(AudioCommand::SetPanning { channel, pan_permille: pan });
    }

    /// Queue a panning change for the default channel.
    pub fn set_panning(&mut self, permille: i64)
        ensures
            command_queued(
                *old(self),
                *final(self),
                AudioCommand::SetPanning {
                    channel: AudioChannel { id: 0 },
                    pan_permille: clamped_panning(permille),
                },
            ),
            old(self).wf() ==> final(self).wf(),
    {
        self.set_panning_in_channel(permille, AudioChannel::default())
    }

    /// Remove and return every queued command, in submission order.  The
    /// host performs the backend call for each and reports the answers
    /// back through the `apply_*` functions; a failing call never stops
    /// the drain of the remaining commands.
    pub fn drain_commands(&mut self) -> (cmds: Vec<AudioCommand>)
        ensures
            cmds@ == old(self).commands@,
            final(self).commands@ == Seq::<AudioCommand>::empty(),
            final(self).instances@ == old(self).instances@,
            final(self).channels@ == old(self).channels@,
            final(self).next_handle == old(self).next_handle,
            old(self).wf() ==> final(self).wf(),
    {
        let mut drained: Vec<AudioCommand> = Vec::new();
        core::mem::swap(&mut drained, &mut self.commands);
        drained
    }
}

/// What reconciling the backend's answer to the play command for `handle`
/// leaves behind: every record is updated by [`play_result_update`] (so
/// only the record of `handle` changes, and only its state) and nothing
/// else changes.
pub open spec fn play_result_applied(
    pre: Audio,
    post: Audio,
    handle: InstanceHandle,
    result: BackendPlayResult,
) -> bool {
    &&& post.instances@.len() == pre.instances@.len()
    &&& forall|j: int|
        0 <= j < pre.instances@.len() ==> post.instances@[j] == play_result_update(
            pre.instances@[j],
            handle,
            result,
        )
    &&& post.commands@ == pre.commands@
    &&& post.channels@ == pre.channels@
    &&& post.next_handle == pre.next_handle
}

/// What reconciling a polled backend state for `handle` leaves behind.
pub open spec fn poll_applied(
    pre: Audio,
    post: Audio,
    handle: InstanceHandle,
    reported: PlaybackState,
) -> bool {
    &&& post.instances@.len() == pre.instances@.len()
    &&& forall|j: int|
        0 <= j < pre.instances@.len() ==> post.instances@[j] == poll_update(
            pre.instances@[j],
            handle,
            reported,
        )
    &&& post.commands@ == pre.commands@
    &&& post.channels@ == pre.channels@
    &&& post.next_handle == pre.next_handle
}

/// What reconciling a channel-wide stop, pause or resume leaves behind.
pub open spec fn channel_op_applied(
    pre: Audio,
    post: Audio,
    channel: AudioChannel,
    op: ChannelOp,
) -> bool {
    &&& post.instances@.len() == pre.instances@.len()
    &&& forall|j: int|
        0 <= j < pre.instances@.len() ==> post.instances@[j] == channel_op_update(
            pre.instances@[j],
            channel,
            op,
        )
    &&& post.commands@ == pre.commands@
    &&& post.channels@ == pre.channels@
    &&& post.next_handle == pre.next_handle
}

impl Audio {
    /// Reconcile the backend's answer to the play command for `handle`:
    /// `Started` marks the instance playing, `Pending` leaves it queued,
    /// and `Failed` (a backend failure, such as an unavailable device)
    /// marks it stopped.  Every other record, the queue and the channel
    /// parameters are untouched, so one failing instance never affects
    /// the rest of the frame's reconciliation.
    pub fn apply_play_result(&mut self, handle: InstanceHandle, result: BackendPlayResult)
        ensures
            play_result_applied(*old(self), *final(self), handle, result),
            old(self).wf() ==> final(self).wf(),
    {
        let n = self.instances.len();
        for i in 0..n
            invariant
                n == self.instances.len(),
                self.instances@.len() == old(self).instances@.len(),
                self.commands@ == old(self).commands@,
                self.channels@ == old(self).channels@,
                self.next_handle == old(self).next_handle,
                forall|j: int| i <= j < n ==> self.instances@[j] == old(self).instances@[j],
                forall|j: int|
                    0 <= j < i ==> self.instances@[j] == play_result_update(
                        old(self).instances@[j],
                        handle,
                        result,
                    ),
        {
            let rec = self.instances[i];
            if rec.handle.id == handle.id {
                let st = match result {
                    BackendPlayResult::Started => PlaybackState::Playing,
                    BackendPlayResult::Pending => rec.state,
                    BackendPlayResult::Failed => PlaybackState::Stopped,
                };
                self.instances[i] = InstanceRecord {
                    handle: rec.handle,
                    channel: rec.channel,
                    looped: rec.looped,
                    state: st,
                };
            }
        }
    }

    /// Reconcile the live state the backend reported for `handle`.
    /// `Stopped` records are terminal and keep their state whatever is
    /// reported; every other record of `handle` takes the reported state.
    pub fn apply_backend_state(&mut self, handle: InstanceHandle, reported: PlaybackState)
        ensures
            poll_applied(*old(self), *final(self), handle, reported),
            old(self).wf() ==> final(self).wf(),
    {
        let n = self.instances.len();
        for i in 0..n
            invariant
                n == self.instances.len(),
                self.instances@.len() == old(self).instances@.len(),
                self.commands@ == old(self).commands@,
                self.channels@ == old(self).channels@,
                self.next_handle == old(self).next_handle,
                forall|j: int| i <= j < n ==> self.instances@[j] == old(self).instances@[j],
                forall|j: int|
                    0 <= j < i ==> self.instances@[j] == poll_update(
                        old(self).instances@[j],
                        handle,
                        reported,
                    ),
        {
            let rec = self.instances[i];
            if rec.handle.id == handle.id {
                let st = if rec.state == PlaybackState::Stopped {
                    PlaybackState::Stopped
                } else {
                    reported
                };
                self.instances[i] = InstanceRecord {
                    handle: rec.handle,
                    channel: rec.channel,
                    looped: rec.looped,
                    state: st,
                };
            }
        }
    }

    /// Reconcile a channel-wide stop, pause or resume onto every instance
    /// `channel` currently owns.  A channel with no instances is left
    /// entirely unchanged: the operation is a no-op, not an error.
    pub fn apply_channel_op(&mut self, channel: AudioChannel, op: ChannelOp)
        ensures
            channel_op_applied(*old(self), *final(self), channel, op),
            old(self).wf() ==> final(self).wf(),
    {
        let n = self.instances.len();
        for i in 0..n
            invariant
                n == self.instances.len(),
                self.instances@.len() == old(self).instances@.len(),
                self.commands@ == old(self).commands@,
                self.channels@ == old(self).channels@,
                self.next_handle == old(self).next_handle,
                forall|j: int| i <= j < n ==> self.instances@[j] == old(self).instances@[j],
                forall|j: int|
                    0 <= j < i ==> self.instances@[j] == channel_op_update(
                        old(self).instances@[j],
                        channel,
                        op,
                    ),
        {
            let rec = self.instances[i];
            if rec.channel.id == channel.id {
                let st = match op {
                    ChannelOp::Stop => PlaybackState::Stopped,
                    ChannelOp::Pause => if rec.state == PlaybackState::Playing {
                        PlaybackState::Paused
                    } else {
                        rec.state
                    },
                    ChannelOp::Resume => if rec.state == PlaybackState::Paused {
                        PlaybackState::Playing
                    } else {
                        rec.state
                    },
                };
                self.instances[i] = InstanceRecord {
                    handle: rec.handle,
                    channel: rec.channel,
                    looped: rec.looped,
                    state: st,
                };
            }
        }
    }

    fn find_channel(&self, channel: AudioChannel) -> (r: Option<usize>)
        ensures
            match r {
                Some(i) => i < self.channels@.len() && self.channels@[i as int].channel == channel,
                None => forall|j: int|
                    0 <= j < self.channels@.len() ==> self.channels@[j].channel != channel,
            },
    {
        let n = self.channels.len();
        for i in 0..n
            invariant
                n == self.channels.len(),
                forall|j: int| 0 <= j < i ==> self.channels@[j].channel != channel,
        {
            if self.channels[i].channel.id == channel.id {
                return Some(i);
            }
        }
        None
    }
}

/// What reconciling a volume change leaves behind: the channel's entry
/// takes the clamped level (and keeps its panning); a channel seen for
/// the first time is created with the clamped level and centered panning.
/// Instances, the queue and the handle counter are untouched.
pub open spec fn channel_volume_applied(
    pre: Audio,
    post: Audio,
    channel: AudioChannel,
    permille: u64,
) -> bool {
    &&& post.instances@ == pre.instances@
    &&& post.commands@ == pre.commands@
    &&& post.next_handle == pre.next_handle
    &&& if exists|j: int| 0 <= j < pre.channels@.len() && pre.channels@[j].channel == channel {
        &&& post.channels@.len() == pre.channels@.len()
        &&& forall|j: int|
            0 <= j < pre.channels@.len() ==> post.channels@[j] == (
            if pre.channels@[j].channel == channel {
                ChannelState {
                    channel,
                    volume_permille: clamped_volume(permille),
                    pan_permille: pre.channels@[j].pan_permille,
                }
            } else {
                pre.channels@[j]
            })
    } else {
        post.channels@ == pre.channels@.push(
            ChannelState {
                channel,
                volume_permille: clamped_volume(permille),
                pan_permille: 0,
            },
        )
    }
}

/// What reconciling a panning change leaves behind, symmetric to
/// [`channel_volume_applied`]: a fresh channel is created with full
/// volume and the clamped panning.
pub open spec fn channel_panning_applied(
    pre: Audio,
    post: Audio,
    channel: AudioChannel,
    permille: i64,
) -> bool {
    &&& post.instances@ == pre.instances@
    &&& post.commands@ == pre.commands@
    &&& post.next_handle == pre.next_handle
    &&& if exists|j: int| 0 <= j < pre.channels@.len() && pre.channels@[j].channel == channel {
        &&& post.channels@.len() == pre.channels@.len()
        &&& forall|j: int|
            0 <= j < pre.channels@.len() ==> post.channels@[j] == (
            if pre.channels@[j].channel == channel {
                ChannelState {
                    channel,
                    volume_permille: pre.channels@[j].volume_permille,
                    pan_permille: clamped_panning(permille),
                }
            } else {
                pre.channels@[j]
            })
    } else {
        post.channels@ == pre.channels@.push(
            ChannelState {
                channel,
                volume_permille: 1000,
                pan_permille: clamped_panning(permille),
            },
        )
    }
}

impl Audio {
    /// Reconcile a drained volume command into the channel parameters,
    /// creating the channel on first reference.
    pub fn apply_channel_volume(&mut self, channel: AudioChannel, permille: u64)
        requires
            old(self).wf(),
        ensures
            channel_volume_applied(*old(self), *final(self), channel, permille),
            final(self).wf(),
    {
        let level = if permille > 1000 {
            1000
        } else {
            permille
        };
        match self.find_channel(channel) {
            Some(i) => {
                let c = self.channels[i];
                self.channels[i] = ChannelState {
                    channel: c.channel,
                    volume_permille: level,
                    pan_permille: c.pan_permille,
                };
                proof {
                    assert forall|j: int|
                        0 <= j < old(self).channels@.len() implies self.channels@[j] == (
                        if old(self).channels@[j].channel == channel {
                            ChannelState {
                                channel,
                                volume_permille: clamped_volume(permille),
                                pan_permille: old(self).channels@[j].pan_permille,
                            }
                        } else {
                            old(self).channels@[j]
                        }) by {
                        if j != i as int && old(self).channels@[j].channel == channel {
                            assert(false);
                        }
                    }
                }
            },
            None => {
                self.channels.push(
                    ChannelState { channel, volume_permille: level, pan_permille: 0 },
                );
                proof {
                    let s0 = old(self).channels@;
                    let s1 = self.channels@;
                    assert forall|i: int, j: int| 0 <= i < j < s1.len() implies s1[i].channel
                        != s1[j].channel by {
                        if j < s0.len() {
                            assert(s1[i] == s0[i] && s1[j] == s0[j]);
                        } else {
                            assert(s1[i] == s0[i]);
                        }
                    }
                }
            },
        }
    }

    /// Reconcile a drained panning command into the channel parameters,
    /// creating the channel on first reference.
    pub fn apply_channel_panning(&mut self, channel: AudioChannel, permille: i64)
        requires
            old(self).wf(),
        ensures
            channel_panning_applied(*old(self), *final(self), channel, permille),
            final(self).wf(),
    {
        let pan = if permille > 1000 {
            1000
        } else if permille < -1000 {
            -1000
        } else {
            permille
        };
        match self.find_channel(channel) {
            Some(i) => {
                let c = self.channels[i];
                self.channels[i] = ChannelState {
                    channel: c.channel,
                    volume_permille: c.volume_permille,
                    pan_permille: pan,
                };
                proof {
                    assert forall|j: int|
                        0 <= j < old(self).channels@.len() implies self.channels@[j] == (
                        if old(self).channels@[j].channel == channel {
                            ChannelState {
                                channel,
                                volume_permille: old(self).channels@[j].volume_permille,
                                pan_permille: clamped_panning(permille),
                            }
                        } else {
                            old(self).channels@[j]
                        }) by {
                        if j != i as int && old(self).channels@[j].channel == channel {
                            assert(false);
                        }
                    }
                }
            },
            None => {
                self.channels.push(
                    ChannelState { channel, volume_permille: 1000, pan_permille: pan },
                );
                proof {
                    let s0 = old(self).channels@;
                    let s1 = self.channels@;
                    assert forall|i: int, j: int| 0 <= i < j < s1.len() implies s1[i].channel
                        != s1[j].channel by {
                        if j < s0.len() {
                            assert(s1[i] == s0[i] && s1[j] == s0[j]);
                        } else {
                            assert(s1[i] == s0[i]);
                        }
                    }
                }
            },
        }
    }

    /// The channel's current volume and panning, in thousandths, with the
    /// defaults (full volume, centered) for a channel that was never set.
    pub fn channel_settings(&self, channel: AudioChannel) -> (r: (u64, i64))
        ensures
            (exists|j: int| 0 <= j < self.channels@.len() && self.channels@[j].channel == channel)
                ==> exists|j: int|
                0 <= j < self.channels@.len() && self.channels@[j].channel == channel && r == (
                self.channels@[j].volume_permille,
                self.channels@[j].pan_permille,
            ),
            (forall|j: int| 0 <= j < self.channels@.len() ==> self.channels@[j].channel != channel)
                ==> r == (1000u64, 0i64),
    {
        match self.find_channel(channel) {
            Some(i) => {
                let c = self.channels[i];
                (c.volume_permille, c.pan_permille)
            },
            None => (1000, 0),
        }
    }

    /// The handles currently owned by `channel`, in registration order.
    pub fn channel_handles(&self, channel: AudioChannel) -> (v: Vec<InstanceHandle>)
        ensures
            v@ == channel_handles_of(self.instances@, channel),
    {
        let n = self.instances.len();
        let mut v: Vec<InstanceHandle> = Vec::new();
        for i in 0..n
            invariant
                n == self.instances.len(),
                v@ == channel_handles_prefix(self.instances@, channel, i as int),
        {
            let rec = self.instances[i];
            if rec.channel.id == channel.id {
                v.push(rec.handle);
            }
        }
        v
    }

    /// The registry's view of the instance behind `handle`: its state, or
    /// `None` for a handle that is unknown or already evicted (an explicit
    /// answer, not an error).
    pub fn state_of(&self, handle: InstanceHandle) -> (r: Option<PlaybackState>)
        ensures
            match r {
                Some(st) => exists|i: int|
                    0 <= i < self.instances@.len() && self.instances@[i].handle == handle
                        && self.instances@[i].state == st,
                None => forall|i: int|
                    0 <= i < self.instances@.len() ==> self.instances@[i].handle != handle,
            },
    {
        let n = self.instances.len();
        for i in 0..n
            invariant
                n == self.instances.len(),
                forall|j: int| 0 <= j < i ==> self.instances@[j].handle != handle,
        {
            let rec = self.instances[i];
            if rec.handle.id == handle.id {
                return Some(rec.state);
            }
        }
        None
    }
}

proof fn lemma_retained_prefix_wf(s: Seq<InstanceRecord>, n: int, bound: u64)
    requires
        0 <= n <= s.len(),
        forall|i: int, j: int| 0 <= i < j < s.len() ==> s[i].handle.id != s[j].handle.id,
        forall|i: int| 0 <= i < s.len() ==> (#[trigger] s[i]).handle.id < bound,
    ensures
        forall|k: int|
            0 <= k < retained_prefix(s, n).len() ==> exists|i: int|
                0 <= i < n && #[trigger] retained_prefix(s, n)[k] == s[i],
        forall|k1: int, k2: int|
            0 <= k1 < k2 < retained_prefix(s, n).len() ==> retained_prefix(s, n)[k1].handle.id
                != retained_prefix(s, n)[k2].handle.id,
        forall|k: int|
            0 <= k < retained_prefix(s, n).len() ==> (#[trigger] retained_prefix(
                s,
                n,
            )[k]).handle.id < bound,
    decreases n,
{
    if n > 0 {
        lemma_retained_prefix_wf(s, n - 1, bound);
        let prev = retained_prefix(s, n - 1);
        let curr = retained_prefix(s, n);
        if !evicted(s[n - 1]) {
            assert(curr == prev.push(s[n - 1]));
            assert forall|k: int| 0 <= k < curr.len() implies exists|i: int|
                0 <= i < n && #[trigger] curr[k] == s[i] by {
                if k < prev.len() {
                    assert(curr[k] == prev[k]);
                    let i = choose|i: int| 0 <= i < n - 1 && prev[k] == s[i];
                    assert(curr[k] == s[i]);
                } else {
                    assert(curr[k] == s[n - 1]);
                }
            }
            assert forall|k1: int, k2: int| 0 <= k1 < k2 < curr.len() implies curr[k1].handle.id
                != curr[k2].handle.id by {
                if k2 < prev.len() {
                    assert(curr[k1] == prev[k1] && curr[k2] == prev[k2]);
                } else {
                    assert(curr[k2] == s[n - 1]);
                    assert(curr[k1] == prev[k1]);
                    let i = choose|i: int| 0 <= i < n - 1 && prev[k1] == s[i];
                    assert(s[i].handle.id != s[n - 1].handle.id);
                }
            }
        }
    }
}

impl Audio {
    /// Drop every record that is stopped and not looped; looped instances
    /// persist in the registry until explicitly stopped.  The surviving
    /// records keep their relative order, and nothing else changes.
    pub fn evict_stopped(&mut self)
        ensures
            final(self).instances@ == retained(old(self).instances@),
            final(self).commands@ == old(self).commands@,
            final(self).channels@ == old(self).channels@,
            final(self).next_handle == old(self).next_handle,
            old(self).wf() ==> final(self).wf(),
    {
        let n = self.instances.len();
        let mut kept: Vec<InstanceRecord> = Vec::new();
        for i in 0..n
            invariant
                n == self.instances.len(),
                self.instances@ == old(self).instances@,
                kept@ == retained_prefix(self.instances@, i as int),
        {
            let rec = self.instances[i];
            if !(rec.state == PlaybackState::Stopped && !rec.looped) {
                kept.push(rec);
            }
        }
        self.instances = kept;
        proof {
            if old(self).wf() {
                lemma_retained_prefix_wf(
                    old(self).instances@,
                    old(self).instances@.len() as int,
                    old(self).next_handle,
                );
            }
        }
    }
}

/// Law: a handle returned by a play command reads back as `Queued` until
/// reconciliation.  In a well-formed registry the fresh handle belongs to
/// exactly the record the play appended, so any record found for it — and
/// therefore any state a query reports for it — is `Queued`.
pub proof fn lemma_play_then_query_is_queued(
    pre: Audio,
    post: Audio,
    source: AudioSource,
    channel: AudioChannel,
    looped: bool,
    h: InstanceHandle,
)
    requires
        pre.wf(),
        plays_queued(pre, post, source, channel, looped, h),
    ensures
        exists|i: int| 0 <= i < post.instances@.len() && post.instances@[i].handle == h,
        forall|i: int|
            0 <= i < post.instances@.len() && post.instances@[i].handle == h
                ==> post.instances@[i].state == PlaybackState::Queued,
{
    let s0 = pre.instances@;
    let s1 = post.instances@;
    assert(s1[s0.len() as int].handle == h);
    assert forall|i: int| 0 <= i < s1.len() && s1[i].handle == h implies s1[i].state
        == PlaybackState::Queued by {
        if i < s0.len() {
            assert(s1[i] == s0[i]);
            assert(s0[i].handle.id < pre.next_handle);
        }
    }
}

/// Law: a play confirmed by the backend in the same frame's
/// reconciliation pass reads back as `Playing`: after the play and the
/// reconciled `Started` answer, the handle's record exists and it — and
/// therefore any state a query reports for it — is `Playing`.
pub proof fn lemma_play_reconciled_then_query_is_playing(
    pre: Audio,
    mid: Audio,
    post: Audio,
    source: AudioSource,
    channel: AudioChannel,
    looped: bool,
    h: InstanceHandle,
)
    requires
        pre.wf(),
        plays_queued(pre, mid, source, channel, looped, h),
        play_result_applied(mid, post, h, BackendPlayResult::Started),
    ensures
        exists|i: int| 0 <= i < post.instances@.len() && post.instances@[i].handle == h,
        forall|i: int|
            0 <= i < post.instances@.len() && post.instances@[i].handle == h
                ==> post.instances@[i].state == PlaybackState::Playing,
{
    let k = pre.instances@.len() as int;
    assert(mid.instances@[k].handle == h);
    assert(post.instances@[k] == play_result_update(
        mid.instances@[k],
        h,
        BackendPlayResult::Started,
    ));
    lemma_started_handle_plays(mid, post, h);
}

/// Law: once the backend confirms the start of `handle`, its record — and
/// therefore any state a query reports for it — is `Playing`.
pub proof fn lemma_started_handle_plays(pre: Audio, post: Audio, h: InstanceHandle)
    requires
        play_result_applied(pre, post, h, BackendPlayResult::Started),
    ensures
        forall|i: int|
            0 <= i < post.instances@.len() && post.instances@[i].handle == h
                ==> post.instances@[i].state == PlaybackState::Playing,
{
}

/// Law: a backend failure on play leaves the handle's record — and
/// therefore any state a query reports for it — `Stopped`, while every
/// other record, the remaining queue and the channel parameters are
/// exactly what they were: one failing instance never affects the rest of
/// the frame.
pub proof fn lemma_failed_handle_stops(pre: Audio, post: Audio, h: InstanceHandle)
    requires
        play_result_applied(pre, post, h, BackendPlayResult::Failed),
    ensures
        forall|i: int|
            0 <= i < post.instances@.len() && post.instances@[i].handle == h
                ==> post.instances@[i].state == PlaybackState::Stopped,
        forall|i: int|
            0 <= i < pre.instances@.len() && pre.instances@[i].handle != h
                ==> post.instances@[i] == pre.instances@[i],
        post.commands@ == pre.commands@,
        post.channels@ == pre.channels@,
{
}

/// Law: a channel-wide operation on a channel with no instances changes
/// nothing at all — stopping an idle channel is a no-op, not an error.
pub proof fn lemma_channel_op_without_instances_is_noop(
    pre: Audio,
    post: Audio,
    channel: AudioChannel,
    op: ChannelOp,
)
    requires
        channel_op_applied(pre, post, channel, op),
        forall|j: int| 0 <= j < pre.instances@.len() ==> pre.instances@[j].channel != channel,
    ensures
        post.instances@ == pre.instances@,
        post.commands@ == pre.commands@,
        post.channels@ == pre.channels@,
        post.next_handle == pre.next_handle,
{
    assert(post.instances@ =~= pre.instances@);
}

} // verus!
