use rusty_daw_io::audio::AudioBusBuffer;
use rusty_daw_io::midi::{
    MidiControllerBuffer, MidiPushError, RawMidi, MAX_MIDI_BUFFER_EVENTS, MAX_MIDI_DATA_BYTES,
};

#[test]
fn new_bus_buffer_has_the_requested_shape() {
    let buf: AudioBusBuffer<f32> = AudioBusBuffer::new(2, 512, 0.0);
    assert_eq!(buf.channel_buffers.len(), 2);
    assert_eq!(buf.frames, 0);
    assert_eq!(buf.max_frames, 512);
}

#[test]
fn clear_and_resize_zeroes_whatever_was_left() {
    let mut buf: AudioBusBuffer<f32> = AudioBusBuffer::new(2, 8, 0.0);
    buf.channel_buffers[0] = vec![1.0, 2.0, 3.0];
    buf.channel_buffers[1] = vec![4.0; 8];
    buf.clear_and_resize(4);
    assert_eq!(buf.frames, 4);
    assert_eq!(buf.channel_buffers[0], vec![0.0; 4]);
    assert_eq!(buf.channel_buffers[1], vec![0.0; 4]);
}

#[test]
fn clear_and_resize_never_grows_past_capacity() {
    let mut buf: AudioBusBuffer<f32> = AudioBusBuffer::new(1, 8, 0.0);
    buf.clear_and_resize(100);
    assert_eq!(buf.frames, 8);
    assert_eq!(buf.channel_buffers[0].len(), 8);
}

#[test]
fn push_rejects_malformed_payloads() {
    let mut buf = MidiControllerBuffer::new();
    let empty: Vec<u8> = Vec::new();
    assert_eq!(buf.push_raw(0, &empty), Err(MidiPushError::MalformedData));
    let oversized = vec![0u8; MAX_MIDI_DATA_BYTES + 1];
    assert_eq!(buf.push_raw(0, &oversized), Err(MidiPushError::MalformedData));
    assert_eq!(buf.len(), 0);
}

#[test]
fn push_accepts_a_note_and_keeps_its_bytes() {
    let mut buf = MidiControllerBuffer::new();
    assert_eq!(buf.push_raw(3, &[0x90, 60, 100]), Ok(()));
    assert_eq!(buf.len(), 1);
    let events = buf.events();
    assert_eq!(events[0].delta_frames, 3);
    assert_eq!(events[0].data(), &vec![0x90, 60, 100]);
    buf.clear();
    assert_eq!(buf.len(), 0);
}

#[test]
fn full_buffer_rejects_further_events() {
    let mut buf = MidiControllerBuffer::new();
    for i in 0..MAX_MIDI_BUFFER_EVENTS {
        assert_eq!(buf.push_raw(i as u32, &[0x80]), Ok(()));
    }
    assert_eq!(buf.push_raw(999, &[0x80]), Err(MidiPushError::BufferFull));
    assert_eq!(buf.len(), MAX_MIDI_BUFFER_EVENTS);
}

#[test]
fn overflowing_period_keeps_the_first_events_in_order() {
    let delivered: Vec<RawMidi> = (0..MAX_MIDI_BUFFER_EVENTS + 40)
        .map(|i| RawMidi { time: i as u32, bytes: vec![0x90, (i % 128) as u8] })
        .collect();
    let mut buf = MidiControllerBuffer::new();
    buf.fill_from(&delivered);
    assert_eq!(buf.len(), MAX_MIDI_BUFFER_EVENTS);
    let events = buf.events();
    for i in 0..MAX_MIDI_BUFFER_EVENTS {
        assert_eq!(events[i].delta_frames, i as u32);
        assert_eq!(events[i].data(), &vec![0x90, (i % 128) as u8]);
    }
}

#[test]
fn malformed_deliveries_are_dropped_individually() {
    let delivered = vec![
        RawMidi { time: 0, bytes: vec![0x90, 60] },
        RawMidi { time: 1, bytes: vec![] },
        RawMidi { time: 2, bytes: vec![0x80, 60] },
    ];
    let mut buf = MidiControllerBuffer::new();
    buf.fill_from(&delivered);
    assert_eq!(buf.len(), 2);
    assert_eq!(buf.events()[0].delta_frames, 0);
    assert_eq!(buf.events()[1].delta_frames, 2);
}
