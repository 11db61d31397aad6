use flowstt::device_names::{
    input_devices_from_names, is_monitor_source, make_monitor_display_name, monitor_marker_in,
    system_devices_from_names,
};
use flowstt::pw_devices::{node_device, plan_capture, DeviceRegistry};
use flowstt::types::AudioSourceType;

#[test]
fn monitor_sources_are_recognized() {
    assert!(is_monitor_source("Monitor of Built-in Audio"));
    assert!(is_monitor_source("alsa_output.pci.analog-stereo.MONITOR"));
    assert!(is_monitor_source("Loopback device"));
    assert!(!is_monitor_source("USB Microphone"));
}

#[test]
fn monitor_display_names() {
    assert_eq!(make_monitor_display_name("Monitor of Built-in Speakers"), "Built-in Speakers");
    assert_eq!(
        make_monitor_display_name("alsa_output.usb-Kingston_HyperX_QuadCast_S_4100-00.analog-stereo.monitor"),
        "Kingston HyperX QuadCast S 4100 (analog stereo)"
    );
    assert_eq!(
        make_monitor_display_name("alsa_output.pci-0000_00_1f.3.analog-stereo.monitor"),
        "Speakers"
    );
    assert_eq!(
        make_monitor_display_name("alsa_output.pci-0000_01_00.1.hdmi-stereo-extra1.monitor"),
        "HDMI 2"
    );
    assert_eq!(
        make_monitor_display_name("alsa_output.pci-0000_01_00.1.hdmi-stereo.monitor"),
        "HDMI"
    );
    assert_eq!(
        make_monitor_display_name("alsa_output.pci-x.iec958-stereo.monitor"),
        "iec958-stereo"
    );
    assert_eq!(make_monitor_display_name("bluez_sink.AA_BB.a2dp-sink.monitor"), "a2dp sink");
    assert_eq!(make_monitor_display_name("plain.monitor"), "plain");
    assert_eq!(make_monitor_display_name("Speakers"), "Speakers");
}

#[test]
fn device_lists_from_host_names() {
    let names = vec![
        Some("Mic".to_string()),
        Some("Monitor of Speakers".to_string()),
        None,
    ];
    let inputs = input_devices_from_names(&names);
    assert_eq!(inputs.len(), 2);
    assert_eq!(inputs[0].id, "0");
    assert_eq!(inputs[0].name, "Mic");
    assert_eq!(inputs[1].id, "2");
    assert_eq!(inputs[1].name, "Unknown Device 2");
    assert_eq!(inputs[1].source_type, AudioSourceType::Input);
    let systems = system_devices_from_names(&names);
    assert_eq!(systems.len(), 1);
    assert_eq!(systems[0].id, "1");
    assert_eq!(systems[0].name, "Speakers");
    assert_eq!(systems[0].source_type, AudioSourceType::System);
}

#[test]
fn pipewire_nodes_become_devices() {
    let d = node_device(40, Some("Audio/Source".to_string()), Some("mic0".to_string()), None).unwrap();
    assert_eq!(d.name, "mic0");
    assert_eq!(d.source_type, AudioSourceType::Input);
    let d = node_device(41, Some("Audio/Sink".to_string()), None, Some("Speakers".to_string())).unwrap();
    assert_eq!(d.name, "Speakers (Monitor)");
    assert_eq!(d.source_type, AudioSourceType::System);
    let d = node_device(42, Some("Audio/Source".to_string()), None, None).unwrap();
    assert_eq!(d.name, "Unknown");
    assert!(node_device(43, Some("Video/Source".to_string()), None, None).is_none());
    assert!(node_device(44, None, None, None).is_none());
}

#[test]
fn registry_tracks_nodes_and_plans_streams() {
    let mut reg = DeviceRegistry::new();
    assert_eq!(reg.add_node(1, Some("Audio/Source".to_string()), None, Some("Mic".to_string())), (true, false));
    assert_eq!(reg.add_node(2, Some("Audio/Sink".to_string()), None, Some("Out".to_string())), (false, true));
    assert_eq!(reg.add_node(2, Some("Audio/Sink".to_string()), None, Some("Out2".to_string())), (false, true));
    assert_eq!(reg.add_node(3, Some("Midi".to_string()), None, None), (false, false));
    assert_eq!(reg.add_node(4, Some("Audio/Source".to_string()), Some("usb".to_string()), None), (true, false));
    assert_eq!(reg.add_node(1, Some("Audio/Source".to_string()), None, Some("Mic A".to_string())), (true, false));
    let mut names: Vec<(u32, String)> = reg.input_devices().iter().map(|d| (d.id, d.name.clone())).collect();
    names.sort();
    assert_eq!(names, vec![(1, "Mic A".to_string()), (4, "usb".to_string())]);
    let out: Vec<(u32, String)> = reg.system_devices().iter().map(|d| (d.id, d.name.clone())).collect();
    assert_eq!(out, vec![(2, "Out2 (Monitor)".to_string())]);
    assert!(reg.is_sink(2));
    assert!(!reg.is_sink(1));
    let (count, plans) = plan_capture(&reg, Some(1), Some(2));
    assert_eq!(count, 2);
    assert_eq!(plans[0].name, "stt-input-capture-1");
    assert!(!plans[0].capture_sink);
    assert_eq!(plans[1].name, "stt-system-capture-2");
    assert!(plans[1].capture_sink);
    assert_eq!(plan_capture(&reg, None, None).0, 0);
    assert_eq!(reg.remove_node(2), (false, true));
    assert!(!reg.is_sink(2));
    assert_eq!(reg.remove_node(2), (false, false));
    assert_eq!(reg.remove_node(1), (true, false));
    let ids: Vec<u32> = reg.input_devices().iter().map(|d| d.id).collect();
    assert_eq!(ids, vec![4]);
}

#[test]
fn monitor_markers_in_lower_case_names() {
    assert!(monitor_marker_in("monitor of speakers"));
    assert!(monitor_marker_in("wasapi loopback"));
    assert!(!monitor_marker_in("Monitor of speakers"));
    assert!(!monitor_marker_in("usb microphone"));
    assert!(is_monitor_source("Monitor of Speakers"));
}
