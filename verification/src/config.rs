use vstd::prelude::*;

verus! {

/// A requested audio bus: an identifying name and the ordered system ports
/// its channels bind to.
pub struct AudioBusConfig {
    pub id: String,
    pub system_ports: Vec<String>,
}

/// A requested MIDI controller: an identifying name and its single system
/// port.
pub struct MidiControllerConfig {
    pub id: String,
    pub system_port: String,
}

/// The application-supplied stream configuration. `midi_server` names the
/// backend that should own the MIDI controllers; the controllers are
/// registered here only when it names this backend.
pub struct Config {
    pub audio_in_busses: Vec<AudioBusConfig>,
    pub audio_out_busses: Vec<AudioBusConfig>,
    pub midi_in_controllers: Vec<MidiControllerConfig>,
    pub midi_out_controllers: Vec<MidiControllerConfig>,
    pub midi_server: Option<String>,
}

} // verus!
