use flowstt::history::{history_entry_id, is_expired_recording, to_client_entries, HistoryEntry, TranscriptionHistory};

fn entry(id: &str, wav: Option<&str>) -> HistoryEntry {
    HistoryEntry {
        id: id.to_string(),
        text: format!("text {}", id),
        timestamp: "2024-01-01T00:00:00+00:00".to_string(),
        wav_path: wav.map(|s| s.to_string()),
    }
}

#[test]
fn add_and_delete_entries() {
    let mut h = TranscriptionHistory::with_entries("h.json".to_string(), vec![entry("a", None)]);
    let e = h.add_entry("b".to_string(), "hello".to_string(), Some("b.wav".to_string()));
    assert_eq!(e.id, "b");
    assert_eq!(e.text, "hello");
    assert!(!e.timestamp.is_empty());
    assert_eq!(h.get_entries().len(), 2);
    assert_eq!(h.get_entries()[1].id, "b");
    let removed = h.delete_entry("b").unwrap();
    assert_eq!(removed.wav_path.as_deref(), Some("b.wav"));
    assert!(h.delete_entry("b").is_none());
    assert_eq!(h.get_entries().len(), 1);
    assert_eq!(h.history_path, "h.json");
}

#[test]
fn delete_takes_first_match_only() {
    let mut h = TranscriptionHistory::with_entries(
        "h".to_string(),
        vec![entry("x", Some("1")), entry("y", None), entry("x", Some("2"))],
    );
    let removed = h.delete_entry("x").unwrap();
    assert_eq!(removed.wav_path.as_deref(), Some("1"));
    assert_eq!(h.get_entries().len(), 2);
    assert_eq!(h.get_entries()[0].id, "y");
    assert_eq!(h.get_entries()[1].id, "x");
}

#[test]
fn missing_recordings_are_forgotten() {
    let mut h = TranscriptionHistory::with_entries(
        "h".to_string(),
        vec![entry("a", Some("a.wav")), entry("b", Some("b.wav")), entry("c", None)],
    );
    h.clear_missing_recordings(&vec![false, true, false]);
    assert!(h.get_entries()[0].wav_path.is_none());
    assert_eq!(h.get_entries()[0].text, "text a");
    assert_eq!(h.get_entries()[1].wav_path.as_deref(), Some("b.wav"));
    assert!(h.get_entries()[2].wav_path.is_none());
}

#[test]
fn expired_recordings() {
    assert!(is_expired_recording("x.wav", Some(10), 5));
    assert!(!is_expired_recording("x.wav", Some(5), 5));
    assert!(!is_expired_recording("x.WAV", Some(10), 5));
    assert!(!is_expired_recording("x.txt", Some(10), 5));
    assert!(!is_expired_recording(".wav", Some(10), 5));
    assert!(!is_expired_recording("x.wav", None, 5));
}

#[test]
fn client_entries_copy_fields() {
    let v = to_client_entries(&[entry("a", Some("p"))]);
    assert_eq!(v.len(), 1);
    assert_eq!(v[0].id, "a");
    assert_eq!(v[0].text, "text a");
    assert_eq!(v[0].wav_path.as_deref(), Some("p"));
}

#[test]
fn entry_ids_are_time_and_hex_suffix() {
    assert_eq!(history_entry_id(1700000000123, 0xdeadbeef), "1700000000123-deadbeef");
    assert_eq!(history_entry_id(0, 0), "0-00000000");
    assert_eq!(history_entry_id(42, 0xA), "42-0000000a");
    assert_eq!(history_entry_id(u128::MAX, u32::MAX), format!("{}-{:08x}", u128::MAX, u32::MAX));
}

#[test]
fn added_entry_is_stamped_in_rfc3339_utc() {
    let mut h = TranscriptionHistory::with_entries("h.json".to_string(), vec![]);
    let e = h.add_entry("c".to_string(), "hi".to_string(), None);
    let ts = e.timestamp.as_bytes();
    assert!(e.timestamp.ends_with("+00:00"));
    assert_eq!(ts[4], b'-');
    assert_eq!(ts[7], b'-');
    assert_eq!(ts[10], b'T');
    assert_eq!(ts[13], b':');
    assert_eq!(ts[16], b':');
    for i in [0usize, 1, 2, 3, 5, 6, 8, 9, 11, 12, 14, 15, 17, 18] {
        assert!(ts[i].is_ascii_digit());
    }
    let frac = ts.len() - 25;
    assert!(frac == 0 || frac == 4 || frac == 7 || frac == 10);
    assert_eq!(h.get_entries()[0].timestamp, e.timestamp);
}
