use flowstt::requests::Request;

#[test]
fn empty_source_ids_are_refused() {
    let r = Request::SetSources { source1_id: Some(String::new()), source2_id: None };
    assert_eq!(r.validate(), Err("source1_id cannot be empty".to_string()));
    let r = Request::SetSources { source1_id: Some("1".to_string()), source2_id: Some(String::new()) };
    assert_eq!(r.validate(), Err("source2_id cannot be empty".to_string()));
    let r = Request::SetSources { source1_id: None, source2_id: None };
    assert_eq!(r.validate(), Ok(()));
}

#[test]
fn empty_device_id_is_refused() {
    let r = Request::TestAudioDevice { device_id: String::new() };
    assert_eq!(r.validate(), Err("device_id cannot be empty".to_string()));
    let r = Request::TestAudioDevice { device_id: "3".to_string() };
    assert_eq!(r.validate(), Ok(()));
    assert_eq!(Request::Ping.validate(), Ok(()));
    assert_eq!(Request::DeleteHistoryEntry { id: String::new() }.validate(), Ok(()));
}
