use beat_audio::audio::Audio;
use beat_audio::audio::AudioChannel;
use beat_audio::audio::AudioCommand;
use beat_audio::audio::AudioSource;
use beat_audio::audio::BackendPlayResult;
use beat_audio::audio::ChannelOp;
use beat_audio::audio::PlaybackState;

#[test]
fn play_is_queued_until_reconciled_then_playing() {
    let mut audio = Audio::default();
    let handle = audio.play(AudioSource::new(1));
    assert_eq!(audio.state_of(handle), Some(PlaybackState::Queued));
    // One reconciliation pass with a healthy backend.
    let commands = audio.drain_commands();
    assert_eq!(commands.len(), 1);
    audio.apply_play_result(handle, BackendPlayResult::Started);
    assert_eq!(audio.state_of(handle), Some(PlaybackState::Playing));
}

#[test]
fn pending_backend_answer_leaves_instance_queued() {
    let mut audio = Audio::default();
    let handle = audio.play(AudioSource::new(1));
    audio.drain_commands();
    audio.apply_play_result(handle, BackendPlayResult::Pending);
    assert_eq!(audio.state_of(handle), Some(PlaybackState::Queued));
}

#[test]
fn backend_failure_stops_instance_and_spares_the_rest() {
    let mut audio = Audio::default();
    let first = audio.play(AudioSource::new(1));
    let second = audio.play(AudioSource::new(2));
    let commands = audio.drain_commands();
    assert_eq!(commands.len(), 2);
    // The first backend call fails; the queue drain continues and the
    // second command is still processed.
    audio.apply_play_result(first, BackendPlayResult::Failed);
    audio.apply_play_result(second, BackendPlayResult::Started);
    assert_eq!(audio.state_of(first), Some(PlaybackState::Stopped));
    assert_eq!(audio.state_of(second), Some(PlaybackState::Playing));
}

#[test]
fn handles_are_distinct_and_never_reused() {
    let mut audio = Audio::default();
    let a = audio.play(AudioSource::new(1));
    let b = audio.play_looped(AudioSource::new(1));
    assert_ne!(a, b);
    audio.apply_play_result(a, BackendPlayResult::Failed);
    audio.evict_stopped();
    let c = audio.play(AudioSource::new(1));
    assert_ne!(a, c);
    assert_ne!(b, c);
}

#[test]
fn stopping_an_idle_channel_is_a_noop() {
    let mut audio = Audio::default();
    let busy = AudioChannel::new(1);
    let idle = AudioChannel::new(2);
    let handle = audio.play_in_channel(AudioSource::new(1), busy);
    audio.drain_commands();
    audio.apply_play_result(handle, BackendPlayResult::Started);
    let instances_before = audio.instances.clone();
    let channels_before = audio.channels.clone();
    audio.apply_channel_op(idle, ChannelOp::Stop);
    assert_eq!(audio.instances, instances_before);
    assert_eq!(audio.channels, channels_before);
    assert_eq!(audio.state_of(handle), Some(PlaybackState::Playing));
}

#[test]
fn channel_stop_pause_resume_reach_only_that_channel() {
    let mut audio = Audio::default();
    let one = AudioChannel::new(1);
    let two = AudioChannel::new(2);
    let in_one = audio.play_in_channel(AudioSource::new(1), one);
    let in_two = audio.play_in_channel(AudioSource::new(2), two);
    audio.drain_commands();
    audio.apply_play_result(in_one, BackendPlayResult::Started);
    audio.apply_play_result(in_two, BackendPlayResult::Started);
    audio.apply_channel_op(one, ChannelOp::Pause);
    assert_eq!(audio.state_of(in_one), Some(PlaybackState::Paused));
    assert_eq!(audio.state_of(in_two), Some(PlaybackState::Playing));
    audio.apply_channel_op(one, ChannelOp::Resume);
    assert_eq!(audio.state_of(in_one), Some(PlaybackState::Playing));
    audio.apply_channel_op(two, ChannelOp::Stop);
    assert_eq!(audio.state_of(in_one), Some(PlaybackState::Playing));
    assert_eq!(audio.state_of(in_two), Some(PlaybackState::Stopped));
}

#[test]
fn pause_leaves_queued_instances_queued() {
    let mut audio = Audio::default();
    let channel = AudioChannel::new(3);
    let handle = audio.play_in_channel(AudioSource::new(1), channel);
    audio.apply_channel_op(channel, ChannelOp::Pause);
    assert_eq!(audio.state_of(handle), Some(PlaybackState::Queued));
}

#[test]
fn commands_drain_in_submission_order() {
    let mut audio = Audio::default();
    let channel = AudioChannel::new(4);
    let source = AudioSource::new(9);
    let handle = audio.play_looped_in_channel(source, channel);
    audio.stop_channel(channel);
    audio.set_volume_in_channel(250, channel);
    let commands = audio.drain_commands();
    assert_eq!(
        commands,
        vec![
            AudioCommand::Play { source, channel, looped: true, handle },
            AudioCommand::Stop { channel },
            AudioCommand::SetVolume { channel, level_permille: 250 },
        ]
    );
    assert!(audio.drain_commands().is_empty());
}

#[test]
fn default_channel_commands_target_channel_zero() {
    let mut audio = Audio::default();
    audio.stop();
    audio.pause();
    audio.resume();
    audio.set_volume(700);
    audio.set_panning(-300);
    let zero = AudioChannel::new(0);
    let commands = audio.drain_commands();
    assert_eq!(
        commands,
        vec![
            AudioCommand::Stop { channel: zero },
            AudioCommand::Pause { channel: zero },
            AudioCommand::Resume { channel: zero },
            AudioCommand::SetVolume { channel: zero, level_permille: 700 },
            AudioCommand::SetPanning { channel: zero, pan_permille: -300 },
        ]
    );
}

#[test]
fn out_of_range_volume_and_panning_are_clamped() {
    let mut audio = Audio::default();
    let channel = AudioChannel::new(5);
    audio.set_volume_in_channel(5_000, channel);
    audio.set_panning_in_channel(-5_000, channel);
    audio.set_panning_in_channel(5_000, channel);
    let commands = audio.drain_commands();
    assert_eq!(
        commands,
        vec![
            AudioCommand::SetVolume { channel, level_permille: 1_000 },
            AudioCommand::SetPanning { channel, pan_permille: -1_000 },
            AudioCommand::SetPanning { channel, pan_permille: 1_000 },
        ]
    );
}

#[test]
fn channels_are_created_lazily_with_defaults() {
    let mut audio = Audio::default();
    let channel = AudioChannel::new(6);
    // Never-set channels read as full volume, centered.
    assert_eq!(audio.channel_settings(channel), (1_000, 0));
    audio.apply_channel_panning(channel, -250);
    assert_eq!(audio.channel_settings(channel), (1_000, -250));
    audio.apply_channel_volume(channel, 400);
    assert_eq!(audio.channel_settings(channel), (400, -250));
    // Reconciling a clamped-out-of-range level stores the clamped value.
    audio.apply_channel_volume(channel, 9_999);
    assert_eq!(audio.channel_settings(channel), (1_000, -250));
}

#[test]
fn eviction_drops_stopped_one_shots_and_keeps_looped_instances() {
    let mut audio = Audio::default();
    let channel = AudioChannel::new(7);
    let one_shot = audio.play_in_channel(AudioSource::new(1), channel);
    let looped = audio.play_looped_in_channel(AudioSource::new(2), channel);
    let alive = audio.play_in_channel(AudioSource::new(3), channel);
    audio.drain_commands();
    audio.apply_play_result(one_shot, BackendPlayResult::Started);
    audio.apply_play_result(looped, BackendPlayResult::Started);
    audio.apply_play_result(alive, BackendPlayResult::Started);
    // The backend reports natural completion of the one-shot and an
    // explicit stop of the looped instance.
    audio.apply_backend_state(one_shot, PlaybackState::Stopped);
    audio.apply_channel_op(channel, ChannelOp::Stop);
    audio.apply_play_result(alive, BackendPlayResult::Started);
    audio.evict_stopped();
    // The one-shot is gone; the looped instance persists in the registry.
    assert_eq!(audio.state_of(one_shot), None);
    assert_eq!(audio.state_of(looped), Some(PlaybackState::Stopped));
}

#[test]
fn stopped_is_terminal_under_polling() {
    let mut audio = Audio::default();
    let handle = audio.play(AudioSource::new(1));
    audio.drain_commands();
    audio.apply_play_result(handle, BackendPlayResult::Failed);
    assert_eq!(audio.state_of(handle), Some(PlaybackState::Stopped));
    // A late backend report cannot revive a stopped instance.
    audio.apply_backend_state(handle, PlaybackState::Playing);
    assert_eq!(audio.state_of(handle), Some(PlaybackState::Stopped));
}

#[test]
fn unknown_handle_reads_as_none() {
    let mut audio = Audio::default();
    audio.play(AudioSource::new(1));
    let unknown = beat_audio::audio::InstanceHandle { id: 999 };
    assert_eq!(audio.state_of(unknown), None);
}

#[test]
fn channel_handles_lists_only_that_channel_in_order() {
    let mut audio = Audio::default();
    let one = AudioChannel::new(1);
    let two = AudioChannel::new(2);
    let a = audio.play_in_channel(AudioSource::new(1), one);
    let b = audio.play_in_channel(AudioSource::new(2), two);
    let c = audio.play_looped_in_channel(AudioSource::new(3), one);
    assert_eq!(audio.channel_handles(one), vec![a, c]);
    assert_eq!(audio.channel_handles(two), vec![b]);
    assert!(audio.channel_handles(AudioChannel::new(3)).is_empty());
}
