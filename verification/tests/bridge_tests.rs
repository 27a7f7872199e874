use rusty_daw_io::audio::AudioBusBuffer;
use rusty_daw_io::bridge::{RtBridge, RtProcessHandler};
use rusty_daw_io::midi::{MidiControllerBuffer, RawMidi};
use rusty_daw_io::stream::{AudioBus, DeviceIndex, MidiController, StreamInfo};

fn audio_bus(id: &str, index: usize, ports: &[&str]) -> AudioBus {
    AudioBus {
        id_name: id.to_string(),
        id_index: DeviceIndex(index),
        system_device: "Jack".to_string(),
        system_half_duplex_device: None,
        system_ports: ports.iter().map(|s| s.to_string()).collect(),
        channels: ports.len() as u16,
    }
}

fn midi_controller(id: &str, index: usize, port: &str) -> MidiController {
    MidiController {
        id_name: id.to_string(),
        id_index: DeviceIndex(index),
        system_port: port.to_string(),
    }
}

fn stream_info(in_busses: Vec<AudioBus>, out_busses: Vec<AudioBus>, midi: bool) -> StreamInfo {
    StreamInfo {
        server_name: "Jack".to_string(),
        audio_in: in_busses,
        audio_out: out_busses,
        midi_in: if midi { vec![midi_controller("pads", 0, "system:midi_capture_2")] } else { Vec::new() },
        midi_out: if midi { vec![midi_controller("lights", 0, "system:midi_playback_1")] } else { Vec::new() },
        sample_rate: 48000,
        max_audio_buffer_size: 8,
    }
}

/// Copies every input channel to the matching output channel and records
/// what the process context looked like on entry.
struct CopyHandler {
    initialized: bool,
    outputs_were_cleared: bool,
    midi_out_was_empty: bool,
    midi_in_seen: Vec<Vec<u8>>,
    push_midi_out: bool,
}

impl CopyHandler {
    fn new() -> CopyHandler {
        CopyHandler {
            initialized: false,
            outputs_were_cleared: true,
            midi_out_was_empty: true,
            midi_in_seen: Vec::new(),
            push_midi_out: false,
        }
    }
}

impl RtProcessHandler<f32> for CopyHandler {
    fn init(&mut self, _stream_info: &StreamInfo) {
        self.initialized = true;
    }

    fn process(
        &mut self,
        audio_in: &Vec<AudioBusBuffer<f32>>,
        audio_out: &mut Vec<AudioBusBuffer<f32>>,
        audio_frames: usize,
        midi_in: &Vec<MidiControllerBuffer>,
        midi_out: &mut Vec<MidiControllerBuffer>,
        _sample_rate: u32,
    ) {
        self.outputs_were_cleared = audio_out.iter().all(|bus| {
            bus.frames == audio_frames.min(bus.max_frames)
                && bus
                    .channel_buffers
                    .iter()
                    .all(|ch| ch.len() == bus.frames && ch.iter().all(|s| *s == 0.0))
        });
        self.midi_out_was_empty = midi_out.iter().all(|m| m.len() == 0);
        self.midi_in_seen = midi_in
            .iter()
            .flat_map(|m| m.events().iter().map(|e| e.data().clone()))
            .collect();
        for (bi, in_bus) in audio_in.iter().enumerate() {
            if bi < audio_out.len() {
                for (ci, chan) in in_bus.channel_buffers.iter().enumerate() {
                    if ci < audio_out[bi].channel_buffers.len() {
                        let n = chan.len().min(audio_out[bi].channel_buffers[ci].len());
                        audio_out[bi].channel_buffers[ci][..n].copy_from_slice(&chan[..n]);
                    }
                }
            }
        }
        if self.push_midi_out && !midi_out.is_empty() {
            midi_out[0].push_raw(5, &[0xF8]).unwrap();
        }
    }
}

#[test]
fn round_trip_preserves_every_sample() {
    let info = stream_info(
        vec![audio_bus("mic", 0, &["c1", "c2"])],
        vec![audio_bus("speakers", 0, &["p1", "p2"])],
        false,
    );
    let mut bridge = RtBridge::new(CopyHandler::new(), info, 0.0f32);
    assert!(bridge.rt_process_handler.initialized);
    let in_ports = vec![vec![0.1f32, 0.2, 0.3, 0.4], vec![0.5f32, 0.6, 0.7, 0.8]];
    let mut out_ports = vec![vec![9.0f32; 4], vec![9.0f32; 4]];
    let frames = bridge.process(&in_ports, &Vec::new(), &mut out_ports);
    assert_eq!(frames, 4);
    assert_eq!(out_ports, in_ports);
}

#[test]
fn outputs_and_midi_out_are_cleared_every_period() {
    let info = stream_info(
        vec![audio_bus("mic", 0, &["c1"])],
        vec![audio_bus("speakers", 0, &["p1"])],
        true,
    );
    let mut bridge = RtBridge::new(CopyHandler::new(), info, 0.0f32);
    bridge.rt_process_handler.push_midi_out = true;
    let in_ports = vec![vec![1.0f32, 2.0, 3.0]];
    let mut out_ports = vec![vec![0.0f32; 3]];
    let no_midi = vec![Vec::<RawMidi>::new()];
    bridge.process(&in_ports, &no_midi, &mut out_ports);
    assert!(bridge.rt_process_handler.outputs_were_cleared);
    assert!(bridge.rt_process_handler.midi_out_was_empty);
    assert_eq!(bridge.midi_out_buffers[0].len(), 1);

    // The second period starts cleared although the first left output
    // samples and a queued MIDI-out event behind.
    let in2 = vec![vec![4.0f32, 5.0, 6.0]];
    let mut out2 = vec![vec![7.0f32; 3]];
    bridge.process(&in2, &no_midi, &mut out2);
    assert!(bridge.rt_process_handler.outputs_were_cleared);
    assert!(bridge.rt_process_handler.midi_out_was_empty);
    assert_eq!(out2, in2);
}

#[test]
fn output_only_stream_takes_frames_from_the_first_output_port() {
    let info = stream_info(Vec::new(), vec![audio_bus("speakers", 0, &["p1"])], false);
    let mut bridge = RtBridge::new(CopyHandler::new(), info, 0.0f32);
    let mut out_ports = vec![vec![3.0f32; 6]];
    let frames = bridge.process(&Vec::new(), &Vec::new(), &mut out_ports);
    assert_eq!(frames, 6);
    // Nothing was copied in, so the cleared output was written back.
    assert_eq!(out_ports, vec![vec![0.0f32; 6]]);
}

#[test]
fn oversized_period_copies_only_up_to_capacity() {
    let info = stream_info(
        vec![audio_bus("mic", 0, &["c1"])],
        vec![audio_bus("speakers", 0, &["p1"])],
        false,
    );
    let mut bridge = RtBridge::new(CopyHandler::new(), info, 0.0f32);
    // The negotiated maximum is 8 frames; the server reports 12.
    let in_ports = vec![(0..12).map(|i| i as f32).collect::<Vec<f32>>()];
    let mut out_ports = vec![vec![-1.0f32; 12]];
    bridge.process(&in_ports, &Vec::new(), &mut out_ports);
    assert_eq!(bridge.audio_in_buffers[0].frames, 8);
    assert_eq!(&out_ports[0][..8], &in_ports[0][..8]);
    // The port's tail past the capacity keeps what the server provided.
    assert_eq!(&out_ports[0][8..], &[-1.0f32; 4]);
}

#[test]
fn midi_deliveries_reach_the_process_function_in_order() {
    let info = stream_info(
        vec![audio_bus("mic", 0, &["c1"])],
        vec![audio_bus("speakers", 0, &["p1"])],
        true,
    );
    let mut bridge = RtBridge::new(CopyHandler::new(), info, 0.0f32);
    let deliveries = vec![vec![
        RawMidi { time: 0, bytes: vec![0x90, 60, 100] },
        RawMidi { time: 3, bytes: vec![] },
        RawMidi { time: 5, bytes: vec![0x80, 60, 0] },
    ]];
    let in_ports = vec![vec![0.0f32; 4]];
    let mut out_ports = vec![vec![0.0f32; 4]];
    bridge.process(&in_ports, &deliveries, &mut out_ports);
    assert_eq!(
        bridge.rt_process_handler.midi_in_seen,
        vec![vec![0x90, 60, 100], vec![0x80, 60, 0]]
    );
}
