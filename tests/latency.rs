use loopback::latency::{latency_frames, latency_samples, primed_channel, SetupError, StreamConfig};
use loopback::lifecycle::{advance, InvalidTransition, StreamEvent, StreamState};

#[test]
fn latency_frames_at_150_ms() {
    assert_eq!(latency_frames(150_000, 48_000), 7200);
}

#[test]
fn latency_frames_truncates() {
    assert_eq!(latency_frames(1, 48_000), 0);
    assert_eq!(latency_frames(20_833, 48_000), 999);
    assert_eq!(latency_frames(0, 48_000), 0);
    assert_eq!(latency_frames(u32::MAX, u32::MAX), 18_446_744_065_119);
}

#[test]
fn latency_samples_counts_every_channel() {
    let config = StreamConfig { sample_rate: 44_100, channel_count: 2 };
    assert_eq!(latency_samples(&config, 150_000), 13_230);
    let wide = StreamConfig { sample_rate: u32::MAX, channel_count: u16::MAX };
    assert_eq!(latency_samples(&wide, u32::MAX), 18_446_744_065_119 * 65_535);
}

#[test]
fn end_to_end_48k_mono_150_ms() {
    let config = StreamConfig { sample_rate: 48_000, channel_count: 1 };
    assert_eq!(latency_frames(150_000, config.sample_rate), 7200);
    assert_eq!(latency_samples(&config, 150_000), 7200);
    let mut ch = match primed_channel(&config, 150_000) {
        Ok(ch) => ch,
        Err(e) => panic!("setup failed: {:?}", e),
    };
    assert_eq!(ch.capacity(), 14_400);
    assert_eq!(ch.len(), 7200);

    let mut drained = 0;
    let mut out = [1u32; 512];
    while drained + 512 <= 7200 {
        assert!(!ch.playback(&mut out));
        assert!(out.iter().all(|&s| s == 0));
        drained += 512;
    }
    let mut rest = vec![1u32; 7200 - drained];
    assert!(!ch.playback(&mut rest));
    assert!(rest.iter().all(|&s| s == 0));
    assert_eq!(ch.len(), 0);

    let batch: Vec<u32> = (0..512).map(|i| (i as f32 / 512.0).to_bits()).collect();
    assert!(!ch.capture(&batch));
    let mut played = [0u32; 512];
    assert!(!ch.playback(&mut played));
    assert_eq!(played.to_vec(), batch);
}

#[test]
fn primed_channel_holds_depth_in_silence() {
    let config = StreamConfig { sample_rate: 1000, channel_count: 2 };
    let mut ch = primed_channel(&config, 2_500).unwrap();
    // 2.5 frames truncate to 2, then count both channels.
    assert_eq!(latency_samples(&config, 2_500), 4);
    assert_eq!(ch.capacity(), 8);
    assert_eq!(ch.len(), 4);
    let mut out = [7u32; 6];
    assert!(ch.playback(&mut out));
    assert_eq!(out, [0, 0, 0, 0, 0, 0]);
}

#[test]
fn too_much_latency_is_refused() {
    let config = StreamConfig { sample_rate: 192_000, channel_count: 64 };
    assert_eq!(primed_channel(&config, 60_000_000).err(), Some(SetupError::LatencyTooLarge));
}

#[test]
fn run_goes_through_its_stages_in_order() {
    let s = advance(StreamState::Configured, StreamEvent::ChannelPrimed).unwrap();
    assert_eq!(s, StreamState::Primed);
    let s = advance(s, StreamEvent::StreamsStarted).unwrap();
    assert_eq!(s, StreamState::Running);
    let s = advance(s, StreamEvent::StreamsStopped).unwrap();
    assert_eq!(s, StreamState::Stopped);
}

#[test]
fn stopped_run_admits_nothing() {
    for event in [StreamEvent::ChannelPrimed, StreamEvent::StreamsStarted, StreamEvent::StreamsStopped] {
        assert_eq!(
            advance(StreamState::Stopped, event),
            Err(InvalidTransition { from: StreamState::Stopped, event })
        );
    }
    assert!(advance(StreamState::Configured, StreamEvent::StreamsStarted).is_err());
    assert!(advance(StreamState::Primed, StreamEvent::ChannelPrimed).is_err());
}
