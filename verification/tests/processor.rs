use flowstt::engine::{frontend_event_name, EngineEventKind};
use flowstt::processor::{
    change_event, peak_window_size, FrameFiller,
    find_lookback_start, scan_onset, FrameFeatures, LookbackBuffer, SpeechStateChange,
    SpeechStateMachine, SpeechTimings,
};

fn frame(voiced: bool, whisper: bool, transient: bool, below: bool) -> FrameFeatures {
    FrameFeatures {
        len: 480,
        is_transient: transient,
        is_voiced: voiced,
        is_whisper: whisper,
        below_word_break_threshold: below,
    }
}

fn detector() -> SpeechStateMachine {
    let mut d = SpeechStateMachine::new(SpeechTimings::with_defaults(48000));
    d.step(frame(false, false, false, false));
    d
}

#[test]
fn default_timings_at_48khz() {
    let t = SpeechTimings::with_defaults(48000);
    assert_eq!(t.voiced_onset_samples, 3840);
    assert_eq!(t.whisper_onset_samples, 5760);
    assert_eq!(t.hold_samples, 14400);
    assert_eq!(t.onset_grace_samples, 1440);
    assert_eq!(t.min_word_break_samples, 720);
    assert_eq!(t.max_word_break_samples, 9600);
    assert_eq!(t.recent_speech_window_samples, 4800);
    assert_eq!(t.lookback_capacity, 9600);
    assert_eq!(t.samples_to_ms(48000), 1000);
    assert_eq!(t.samples_to_ms(480), 10);
}

#[test]
fn first_frame_only_initializes() {
    let mut d = SpeechStateMachine::new(SpeechTimings::with_defaults(48000));
    let out = d.step(frame(true, false, false, false));
    assert!(!out.speech_started);
    assert!(d.initialized);
    assert_eq!(d.voiced_onset_count, 0);
}

#[test]
fn voiced_onset_confirms_after_80ms() {
    let mut d = detector();
    for _ in 0..7 {
        assert!(!d.step(frame(true, false, false, false)).speech_started);
    }
    let out = d.step(frame(true, false, false, false));
    assert!(out.speech_started);
    assert!(d.is_speaking);
    assert_eq!(d.speech_sample_count, 3840);
    d.mark_speech_started(1000, 20);
    assert_eq!(d.take_state_change(), SpeechStateChange::Started { lookback_samples: 1000 });
    assert_eq!(d.take_state_change(), SpeechStateChange::Unchanged);
}

#[test]
fn whisper_onset_needs_120ms() {
    let mut d = detector();
    for _ in 0..11 {
        assert!(!d.step(frame(false, true, false, false)).speech_started);
    }
    assert!(d.step(frame(false, true, false, false)).speech_started);
}

#[test]
fn transient_resets_onset_and_never_starts_speech() {
    let mut d = detector();
    for _ in 0..5 {
        d.step(frame(true, false, false, false));
    }
    let out = d.step(frame(true, false, true, false));
    assert!(!out.speech_started);
    assert!(!d.is_speaking);
    assert_eq!(d.voiced_onset_count, 0);
    assert!(!d.is_pending_voiced);
}

#[test]
fn brief_dip_within_grace_keeps_onset() {
    let mut d = detector();
    for _ in 0..4 {
        d.step(frame(true, false, false, false));
    }
    d.step(frame(false, false, false, false));
    assert!(d.is_pending_voiced);
    assert_eq!(d.voiced_onset_count, 1920);
    for _ in 0..3 {
        d.step(frame(false, false, false, false));
    }
    assert!(!d.is_pending_voiced);
    assert_eq!(d.voiced_onset_count, 0);
}

#[test]
fn speech_ends_after_hold_and_reports_duration() {
    let mut d = detector();
    for _ in 0..8 {
        d.step(frame(true, false, false, false));
    }
    assert!(d.is_speaking);
    for _ in 0..29 {
        let out = d.step(frame(false, false, false, false));
        assert!(!out.reset_amplitude_average);
    }
    let out = d.step(frame(false, false, false, false));
    assert!(out.reset_amplitude_average);
    assert!(!d.is_speaking);
    assert_eq!(*d.peek_state_change(), SpeechStateChange::Ended { duration_ms: 80 });
}

#[test]
fn word_break_is_reported_when_speech_resumes() {
    let mut d = detector();
    for _ in 0..8 {
        d.step(frame(true, false, false, false));
    }
    for _ in 0..3 {
        d.step(frame(false, false, false, true));
    }
    assert!(d.last_is_word_break);
    assert!(d.peek_word_break_event().is_none());
    let out = d.step(frame(true, false, false, false));
    assert!(out.update_amplitude_average);
    let e = d.take_word_break_event().unwrap();
    assert_eq!(e.offset_ms, 80);
    assert_eq!(e.gap_duration_ms, 30);
    assert!(d.take_word_break_event().is_none());
}

#[test]
fn lookback_buffer_keeps_latest_samples_in_order() {
    let mut b = LookbackBuffer::new(4, 0u32);
    b.push(&vec![1, 2, 3]);
    assert_eq!(b.contents_in_order(), vec![1, 2, 3]);
    b.push(&vec![4, 5, 6]);
    assert_eq!(b.contents_in_order(), vec![3, 4, 5, 6]);
    b.push(&vec![7]);
    assert_eq!(b.contents_in_order(), vec![4, 5, 6, 7]);
}

#[test]
fn onset_scan_finds_start_of_nearest_loud_run() {
    let mut loud = vec![false; 512];
    for i in 256..512 {
        loud[i] = true;
    }
    assert_eq!(scan_onset(&loud), 256);
    let quiet = vec![false; 300];
    assert_eq!(scan_onset(&quiet), 300);
    let mut gap = vec![false; 512];
    gap[10] = true;
    gap[400] = true;
    assert_eq!(scan_onset(&gap), 384);
    assert_eq!(scan_onset(&vec![]), 0);
}

#[test]
fn lookback_start_applies_margin_and_offset() {
    let buffer: Vec<u32> = (0..2048).collect();
    let mut loud = vec![false; 2048];
    for i in 1536..2048 {
        loud[i] = true;
    }
    let (samples, offset_ms) = find_lookback_start(&buffer, &loud, 16000);
    assert_eq!(samples.len(), 2048 - (1536 - 320));
    assert_eq!(samples[0], 1216);
    assert_eq!(offset_ms, (832u64 * 1000 / 16000) as u32);
    let (none, zero) = find_lookback_start::<u32>(&vec![], &vec![], 16000);
    assert!(none.is_empty());
    assert_eq!(zero, 0);
}

#[test]
fn frames_fill_and_restart() {
    let mut f: FrameFiller<i32> = FrameFiller::new(4);
    assert_eq!(f.push_batch(&[1, 2]), None);
    assert_eq!(f.push_batch(&[3, 4, 5, 6]), Some(vec![1, 2, 3, 4]));
    assert_eq!(f.push_batch(&[7]), None);
    assert_eq!(f.push_batch(&[8, 9, 10]), Some(vec![7, 8, 9, 10]));
    assert_eq!(f.push_batch(&[]), None);
    assert_eq!(f.push_batch(&[11, 12, 13, 14, 15]), Some(vec![11, 12, 13, 14]));
}

#[test]
fn waveform_windows() {
    assert_eq!(peak_window_size(640, 64), 10);
    assert_eq!(peak_window_size(100, 64), 1);
    assert_eq!(peak_window_size(0, 64), 1);
}

#[test]
fn state_changes_are_announced_as_speech_events() {
    assert_eq!(change_event(&SpeechStateChange::Unchanged), None);
    let started = change_event(&SpeechStateChange::Started { lookback_samples: 10 });
    assert_eq!(started, Some(EngineEventKind::SpeechStarted));
    assert_eq!(frontend_event_name(started.unwrap()), "speech-started");
    let ended = change_event(&SpeechStateChange::Ended { duration_ms: 300 });
    assert_eq!(frontend_event_name(ended.unwrap()), "speech-ended");
}
