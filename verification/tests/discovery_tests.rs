use rusty_daw_io::discovery::{
    refresh_audio_server, refresh_midi_server, AudioServerInfo, AudioServerScan, MidiServerInfo,
    MidiServerScan,
};

fn strings(v: &[&str]) -> Vec<String> {
    v.iter().map(|s| s.to_string()).collect()
}

#[test]
fn unreachable_audio_server_reports_unavailable() {
    let mut server = AudioServerInfo::new();
    refresh_audio_server(&mut server, None);
    assert!(!server.available);
    assert!(server.devices.is_empty());
}

#[test]
fn unreachable_midi_server_reports_unavailable() {
    let mut server = MidiServerInfo::new();
    refresh_midi_server(&mut server, None);
    assert!(!server.available);
    assert!(server.in_devices.is_empty());
    assert!(server.out_devices.is_empty());
}

#[test]
fn device_without_outputs_is_unavailable() {
    let mut server = AudioServerInfo::new();
    let scan = AudioServerScan {
        in_ports: strings(&["system:capture_1", "system:capture_2"]),
        out_ports: strings(&[]),
        sample_rate: 48000,
        buffer_size: 512,
    };
    refresh_audio_server(&mut server, Some(scan));
    assert!(!server.available);
    assert!(server.devices.is_empty());
}

#[test]
fn conventional_ports_pick_the_defaults() {
    let mut server = AudioServerInfo::new();
    let scan = AudioServerScan {
        in_ports: strings(&["other:in", "system:capture_1"]),
        out_ports: strings(&["system:playback_1", "system:playback_2"]),
        sample_rate: 44100,
        buffer_size: 256,
    };
    refresh_audio_server(&mut server, Some(scan));
    assert!(server.available);
    assert_eq!(server.devices.len(), 1);
    let d = &server.devices[0];
    assert_eq!(d.name, "Jack Device");
    assert_eq!(d.default_in_port, 1);
    assert_eq!(d.default_out_port_left, 0);
    assert_eq!(d.default_out_port_right, 1);
    assert_eq!(d.sample_rates, vec![44100]);
    assert_eq!(d.buffer_size_range.min, 256);
    assert_eq!(d.buffer_size_range.max, 256);
    assert_eq!(d.default_sample_rate_index, 0);
    assert_eq!(d.default_buffer_size, 256);
}

#[test]
fn unconventional_stereo_falls_back_to_first_two_ports() {
    let mut server = AudioServerInfo::new();
    let scan = AudioServerScan {
        in_ports: strings(&["a", "b"]),
        out_ports: strings(&["left", "right", "sub"]),
        sample_rate: 48000,
        buffer_size: 128,
    };
    refresh_audio_server(&mut server, Some(scan));
    let d = &server.devices[0];
    assert_eq!(d.default_in_port, 0);
    assert_eq!(d.default_out_port_left, 0);
    assert_eq!(d.default_out_port_right, 1);
}

#[test]
fn mono_device_uses_same_port_for_left_and_right() {
    let mut server = AudioServerInfo::new();
    let scan = AudioServerScan {
        in_ports: strings(&[]),
        out_ports: strings(&["mono_out"]),
        sample_rate: 48000,
        buffer_size: 64,
    };
    refresh_audio_server(&mut server, Some(scan));
    let d = &server.devices[0];
    assert_eq!(d.default_out_port_left, 0);
    assert_eq!(d.default_out_port_right, 0);
}

#[test]
fn midi_default_skips_the_virtual_through_port() {
    let mut server = MidiServerInfo::new();
    let scan = MidiServerScan {
        in_ports: strings(&["system:midi_capture_1", "system:midi_capture_2"]),
        out_ports: strings(&["system:midi_playback_1"]),
    };
    refresh_midi_server(&mut server, Some(scan));
    assert!(server.available);
    assert_eq!(server.in_devices.len(), 2);
    assert_eq!(server.in_devices[1].name, "system:midi_capture_2");
    assert_eq!(server.out_devices.len(), 1);
    assert_eq!(server.default_in_port, 1);
}

#[test]
fn midi_default_falls_back_to_first_port() {
    let mut server = MidiServerInfo::new();
    let scan = MidiServerScan {
        in_ports: strings(&["controller:out_a", "controller:out_b"]),
        out_ports: strings(&[]),
    };
    refresh_midi_server(&mut server, Some(scan));
    assert_eq!(server.default_in_port, 0);
}
