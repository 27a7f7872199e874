use rusty_daw_io::config::{AudioBusConfig, Config, MidiControllerConfig};
use rusty_daw_io::names::{client_port_name, decimal_string};
use rusty_daw_io::stream::{negotiate_stream, SpawnRtThreadError};

fn strings(v: &[&str]) -> Vec<String> {
    v.iter().map(|s| s.to_string()).collect()
}

fn bus(id: &str, ports: &[&str]) -> AudioBusConfig {
    AudioBusConfig { id: id.to_string(), system_ports: strings(ports) }
}

fn empty_config() -> Config {
    Config {
        audio_in_busses: Vec::new(),
        audio_out_busses: Vec::new(),
        midi_in_controllers: Vec::new(),
        midi_out_controllers: Vec::new(),
        midi_server: None,
    }
}

#[test]
fn decimal_formatting_is_exact() {
    assert_eq!(decimal_string(0), "0");
    assert_eq!(decimal_string(7), "7");
    assert_eq!(decimal_string(12), "12");
    assert_eq!(decimal_string(305), "305");
}

#[test]
fn client_port_names_follow_bus_and_position() {
    assert_eq!(client_port_name(&"mic".to_string(), 1), "mic_1");
    assert_eq!(client_port_name(&"speaker_out".to_string(), 12), "speaker_out_12");
}

#[test]
fn valid_config_negotiates_a_full_plan() {
    let mut config = empty_config();
    config.audio_in_busses.push(bus("mic", &["system:capture_1", "system:capture_2"]));
    config.audio_out_busses.push(bus("speakers", &["system:playback_1", "system:playback_2"]));
    let sys_in = strings(&["system:capture_1", "system:capture_2"]);
    let sys_out = strings(&["system:playback_1", "system:playback_2"]);
    let plan = negotiate_stream(&config, &sys_in, &sys_out, 48000, 512, None).unwrap();

    assert_eq!(plan.client_name, "rusty-daw-io");
    assert_eq!(plan.stream_info.server_name, "Jack");
    assert_eq!(plan.stream_info.sample_rate, 48000);
    assert_eq!(plan.stream_info.max_audio_buffer_size, 512);

    assert_eq!(plan.stream_info.audio_in.len(), 1);
    let b = &plan.stream_info.audio_in[0];
    assert_eq!(b.id_name, "mic");
    assert_eq!(b.id_index.0, 0);
    assert_eq!(b.system_device, "Jack");
    assert!(b.system_half_duplex_device.is_none());
    assert_eq!(b.system_ports, sys_in);
    assert_eq!(b.channels, 2);

    assert_eq!(plan.audio_in_port_names, vec!["mic_1", "mic_2"]);
    assert_eq!(plan.audio_in_connect_to, sys_in);
    assert_eq!(plan.audio_out_port_names, vec!["speakers_1", "speakers_2"]);
    assert_eq!(plan.audio_out_connect_to, sys_out);

    assert!(plan.stream_info.midi_in.is_empty());
    assert!(plan.stream_info.midi_out.is_empty());
}

#[test]
fn caller_client_name_is_kept() {
    let config = empty_config();
    let none: Vec<String> = Vec::new();
    let plan =
        negotiate_stream(&config, &none, &none, 44100, 256, Some("my-daw".to_string())).unwrap();
    assert_eq!(plan.client_name, "my-daw");
}

#[test]
fn empty_bus_is_rejected_with_its_name() {
    let mut config = empty_config();
    config.audio_out_busses.push(bus("speakers", &[]));
    let sys = strings(&["system:playback_1"]);
    let err = match negotiate_stream(&config, &Vec::new(), &sys, 48000, 512, None) {
        Err(e) => e,
        Ok(_) => panic!("expected an error"),
    };
    match err {
        SpawnRtThreadError::NoSystemPortsGiven(name) => assert_eq!(name, "speakers"),
        other => panic!("unexpected error: {:?}", other.message()),
    }
}

#[test]
fn unknown_port_is_rejected_with_port_and_bus() {
    let mut config = empty_config();
    config.audio_in_busses.push(bus("mic", &["system:capture_1", "system:capture_9"]));
    let sys_in = strings(&["system:capture_1", "system:capture_2"]);
    let err = match negotiate_stream(&config, &sys_in, &Vec::new(), 48000, 512, None) {
        Err(e) => e,
        Ok(_) => panic!("expected an error"),
    };
    match err {
        SpawnRtThreadError::SystemPortNotFound(port, busname) => {
            assert_eq!(port, "system:capture_9");
            assert_eq!(busname, "mic");
        },
        other => panic!("unexpected error: {:?}", other.message()),
    }
}

#[test]
fn first_failing_bus_wins_and_inputs_are_checked_before_outputs() {
    let mut config = empty_config();
    config.audio_in_busses.push(bus("mic", &["missing_port"]));
    config.audio_out_busses.push(bus("speakers", &[]));
    let err = match negotiate_stream(&config, &Vec::new(), &Vec::new(), 48000, 512, None) {
        Err(e) => e,
        Ok(_) => panic!("expected an error"),
    };
    match err {
        SpawnRtThreadError::SystemPortNotFound(port, busname) => {
            assert_eq!(port, "missing_port");
            assert_eq!(busname, "mic");
        },
        other => panic!("unexpected error: {:?}", other.message()),
    }
}

#[test]
fn midi_controllers_register_only_for_this_backend() {
    let mut config = empty_config();
    config.midi_server = Some("Jack".to_string());
    config.midi_in_controllers.push(MidiControllerConfig {
        id: "pads".to_string(),
        system_port: "system:midi_capture_2".to_string(),
    });
    config.midi_out_controllers.push(MidiControllerConfig {
        id: "lights".to_string(),
        system_port: "system:midi_playback_1".to_string(),
    });
    let plan =
        negotiate_stream(&config, &Vec::new(), &Vec::new(), 48000, 512, None).unwrap();
    assert_eq!(plan.stream_info.midi_in.len(), 1);
    assert_eq!(plan.stream_info.midi_in[0].id_name, "pads");
    assert_eq!(plan.stream_info.midi_in[0].id_index.0, 0);
    assert_eq!(plan.stream_info.midi_in[0].system_port, "system:midi_capture_2");
    assert_eq!(plan.midi_in_port_names, vec!["pads"]);
    assert_eq!(plan.midi_in_connect_to, vec!["system:midi_capture_2"]);
    assert_eq!(plan.midi_out_port_names, vec!["lights"]);
    assert_eq!(plan.midi_out_connect_to, vec!["system:midi_playback_1"]);

    let mut other = config;
    other.midi_server = Some("ALSA".to_string());
    let plan2 = negotiate_stream(&other, &Vec::new(), &Vec::new(), 48000, 512, None).unwrap();
    assert!(plan2.stream_info.midi_in.is_empty());
    assert!(plan2.stream_info.midi_out.is_empty());
    assert!(plan2.midi_in_port_names.is_empty());
}
