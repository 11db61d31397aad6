use flowstt::audio_stream::{
    check_source, device_index_for_id, AudioStreamControl, MixerOutput, PairMixer, StreamStart, FALLBACK_SAMPLE_RATE,
};
use flowstt::types::AudioSourceType;

fn pairs(o: MixerOutput<i32>) -> Vec<(i32, i32)> {
    match o {
        MixerOutput::Pairs(p) => p,
        MixerOutput::Nothing => vec![],
        MixerOutput::Direct(_) => panic!("unexpected direct output"),
    }
}

#[test]
fn single_stream_passes_through() {
    let mut m = PairMixer::new();
    assert_eq!(m.channels(), 2);
    m.set_num_streams(1);
    match m.push_stream1(&vec![1, 2, 3]) {
        MixerOutput::Direct(v) => assert_eq!(v, vec![1, 2, 3]),
        _ => panic!("expected direct output"),
    }
    assert!(matches!(m.push_stream2(&vec![4]), MixerOutput::Nothing));
}

#[test]
fn two_streams_pair_in_order() {
    let mut m = PairMixer::new();
    m.set_num_streams(2);
    m.set_channels(1);
    assert!(pairs(m.push_stream1(&vec![1, 2, 3])).is_empty());
    assert_eq!(pairs(m.push_stream2(&vec![10, 20])), vec![(1, 10), (2, 20)]);
    assert_eq!(pairs(m.push_stream2(&vec![30, 40])), vec![(3, 30)]);
    assert_eq!(pairs(m.push_stream1(&vec![4, 5])), vec![(4, 40)]);
    m.set_num_streams(2);
    assert!(pairs(m.push_stream2(&vec![50])).is_empty());
}

#[test]
fn stream_device_rules() {
    let mut c: AudioStreamControl<f32> = AudioStreamControl::new();
    assert_eq!(c.begin_stream("0"), Ok(StreamStart::NeedsStart));
    c.mark_stream_started("0".to_string(), 44100, 2);
    assert_eq!(c.begin_stream("0"), Ok(StreamStart::AlreadyRunning));
    assert_eq!(c.begin_stream("1"), Err("Cannot change device while stream is active".to_string()));
    assert!(c.maybe_stop_stream());
    assert!(c.stop_signal);
    assert!(c.current_device_id.is_none());
}

#[test]
fn monitoring_and_recording() {
    let mut c: AudioStreamControl<i16> = AudioStreamControl::new();
    assert_eq!(c.set_processing_enabled(true), Some(FALLBACK_SAMPLE_RATE));
    assert!(c.check_start_monitor(AudioSourceType::Input, false).is_ok());
    c.mark_stream_started("0".to_string(), 16000, 1);
    c.enable_monitoring(AudioSourceType::Input);
    assert_eq!(c.check_start_monitor(AudioSourceType::Input, false), Err("Already monitoring".to_string()));
    assert_eq!(c.set_processing_enabled(true), Some(16000));
    assert!(c.enable_recording(AudioSourceType::Input) == false);
    assert_eq!(c.route_samples(&vec![1, 2]), (true, true));
    assert_eq!(c.check_start_recording(AudioSourceType::Input, false), Err("Already recording".to_string()));
    let raw = c.stop_recording(true).ok().unwrap();
    assert_eq!(raw.samples, vec![1, 2]);
    assert_eq!(raw.sample_rate, 16000);
    assert!(c.is_monitoring);
    assert_eq!(c.stop_recording(false).err(), Some("No audio recorded".to_string()));
    assert!(c.stop_signal);
    assert_eq!(c.stop_monitor(), (true, false));
}

#[test]
fn mixed_source_is_refused() {
    assert_eq!(
        check_source(AudioSourceType::Mixed, false),
        Err("System device ID required for Mixed mode".to_string())
    );
    assert_eq!(
        check_source(AudioSourceType::Mixed, true),
        Err("Mixed mode is not currently supported. System audio capture requires additional setup on Linux.".to_string())
    );
    assert_eq!(check_source(AudioSourceType::System, false), Ok(()));
}

#[test]
fn device_id_lookup() {
    assert_eq!(device_index_for_id("0", 2), Ok(0));
    assert_eq!(device_index_for_id("1", 2), Ok(1));
    assert_eq!(device_index_for_id("2", 2), Err("Device not found".to_string()));
    assert_eq!(device_index_for_id("mic", 2), Err("Invalid device ID".to_string()));
    assert_eq!(device_index_for_id("-1", 2), Err("Invalid device ID".to_string()));
}
