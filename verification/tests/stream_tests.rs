use beat_audio::stream::StreamedAudio;

#[derive(Debug, Clone, PartialEq)]
struct SquareWave {
    period_micros: u64,
    phase: u64,
}

#[test]
fn generators_drain_in_registration_order() {
    let mut streamed: StreamedAudio<SquareWave> = StreamedAudio::default();
    streamed.stream(SquareWave { period_micros: 2_273, phase: 0 });
    streamed.stream(SquareWave { period_micros: 1_136, phase: 7 });
    let drained = streamed.drain_streams();
    assert_eq!(
        drained,
        vec![
            SquareWave { period_micros: 2_273, phase: 0 },
            SquareWave { period_micros: 1_136, phase: 7 },
        ]
    );
    assert!(streamed.streams.is_empty());
}

#[test]
fn draining_twice_yields_nothing_new() {
    let mut streamed: StreamedAudio<u32> = StreamedAudio::default();
    streamed.stream(5);
    assert_eq!(streamed.drain_streams(), vec![5]);
    assert!(streamed.drain_streams().is_empty());
    streamed.stream(6);
    assert_eq!(streamed.drain_streams(), vec![6]);
}
