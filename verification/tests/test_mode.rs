use flowstt::test_mode::{
    accept_listing, begin_test_run, extra_wait_step, finish_test_run, is_test_mode,
    is_test_run_active, is_wav_file, pause_after, set_test_mode, wav_files, ExtraWaitAction,
    FileOutcome, TestModeFlags, TestRunTally, WaitAction, WaitEvent, WaitState,
};

#[test]
fn run_requires_test_mode_and_no_run_in_progress() {
    let mut f = TestModeFlags::new();
    assert_eq!(begin_test_run(&mut f), Err("Test mode is not active".to_string()));
    set_test_mode(&mut f, true);
    assert!(is_test_mode(&f));
    assert!(begin_test_run(&mut f).is_ok());
    assert!(is_test_run_active(&f));
    assert_eq!(begin_test_run(&mut f), Err("A test run is already in progress".to_string()));
    finish_test_run(&mut f);
    assert!(!is_test_run_active(&f));
}

#[test]
fn wav_files_are_picked_by_extension() {
    assert!(is_wav_file("a.wav", true));
    assert!(is_wav_file("b.WAV", true));
    assert!(!is_wav_file("a.wav", false));
    assert!(!is_wav_file(".wav", true));
    assert!(!is_wav_file("wav", true));
    assert!(!is_wav_file("a.wav.txt", true));
    let entries = vec![
        ("one.wav".to_string(), true),
        ("notes.txt".to_string(), true),
        ("dir.wav".to_string(), false),
        ("two.Wav".to_string(), true),
    ];
    assert_eq!(wav_files(&entries), vec!["one.wav".to_string(), "two.Wav".to_string()]);
}

#[test]
fn listing_errors_end_the_run() {
    let mut f = TestModeFlags::new();
    set_test_mode(&mut f, true);
    begin_test_run(&mut f).unwrap();
    let r = accept_listing(&mut f, Err("denied".to_string()));
    assert_eq!(r, Err("Failed to read directory: denied".to_string()));
    assert!(!is_test_run_active(&f));
    begin_test_run(&mut f).unwrap();
    let r = accept_listing(&mut f, Ok(vec![("a.txt".to_string(), true)]));
    assert_eq!(r, Err("No WAV files found in the selected directory".to_string()));
    assert!(!is_test_run_active(&f));
    begin_test_run(&mut f).unwrap();
    let r = accept_listing(&mut f, Ok(vec![("a.wav".to_string(), true)]));
    assert_eq!(r, Ok(vec!["a.wav".to_string()]));
    assert!(is_test_run_active(&f));
    let r = accept_listing(
        &mut f,
        Ok(vec![
            ("b.wav".to_string(), true),
            ("notes.txt".to_string(), true),
            ("a.WAV".to_string(), true),
            ("c.wav".to_string(), false),
            ("a.wav".to_string(), true),
        ]),
    );
    assert_eq!(r, Ok(vec!["a.WAV".to_string(), "a.wav".to_string(), "b.wav".to_string()]));
}

#[test]
fn waiting_for_a_transcription() {
    let mut w = WaitState::new();
    assert_eq!(w.step(WaitEvent::Other), WaitAction::KeepWaiting);
    assert_eq!(w.step(WaitEvent::Empty), WaitAction::SleepAndPoll);
    assert_eq!(w.step(WaitEvent::SpeechEnded), WaitAction::KeepWaiting);
    assert_eq!(w.step(WaitEvent::Empty), WaitAction::WaitForTranscription);
    w.after_extra_wait(false);
    assert_eq!(w.outcome(), FileOutcome::NoSpeech);
    let mut w = WaitState::new();
    assert_eq!(w.step(WaitEvent::TranscriptionComplete), WaitAction::Finish);
    assert_eq!(w.outcome(), FileOutcome::Transcribed);
    assert_eq!(WaitState::new().outcome(), FileOutcome::TimedOut);
    let mut w = WaitState::new();
    assert_eq!(w.step(WaitEvent::Closed), WaitAction::Abort);
    assert_eq!(w.step(WaitEvent::Lagged), WaitAction::KeepWaiting);
    assert_eq!(extra_wait_step(WaitEvent::TranscriptionComplete), ExtraWaitAction::Received);
    assert_eq!(extra_wait_step(WaitEvent::Empty), ExtraWaitAction::SleepAndPoll);
    assert_eq!(extra_wait_step(WaitEvent::Closed), ExtraWaitAction::GiveUp);
    assert_eq!(extra_wait_step(WaitEvent::SpeechEnded), ExtraWaitAction::KeepWaiting);
}

#[test]
fn run_tally_and_pauses() {
    let mut t = TestRunTally::new();
    t.record(FileOutcome::Transcribed);
    t.record(FileOutcome::TimedOut);
    t.record(FileOutcome::Skipped);
    t.record(FileOutcome::NoSpeech);
    t.record(FileOutcome::Transcribed);
    assert_eq!(t, TestRunTally { success_count: 2, timeout_count: 1, skip_count: 1 });
    assert!(pause_after(0, 2));
    assert!(!pause_after(1, 2));
}
