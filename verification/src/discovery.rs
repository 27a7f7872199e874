use vstd::prelude::*;
use vstd::string::StringExecFns;
use crate::BufferSizeRange;

verus! {

/// Everything the caller needs to know about one audio device: its port
/// names, the fixed sample rate and buffer size, and the default-port
/// choices made for it.
pub struct AudioDeviceInfo {
    pub name: String,
    pub in_ports: Vec<String>,
    pub out_ports: Vec<String>,
    pub sample_rates: Vec<u32>,
    pub buffer_size_range: BufferSizeRange,
    pub default_in_port: usize,
    pub default_out_port_left: usize,
    pub default_out_port_right: usize,
    pub default_sample_rate_index: usize,
    pub default_buffer_size: u32,
}

/// The audio side of a discovery result. `available` is true only when the
/// server was reachable and playback is possible.
pub struct AudioServerInfo {
    pub available: bool,
    pub devices: Vec<AudioDeviceInfo>,
}

impl AudioServerInfo {
    pub fn new() -> (r: AudioServerInfo)
        ensures
            !r.available,
            r.devices@.len() == 0,
    {
        AudioServerInfo { available: false, devices: Vec::new() }
    }
}

/// A MIDI endpoint, identified by its system port name.
pub struct MidiDeviceInfo {
    pub name: String,
}

/// The MIDI side of a discovery result.
pub struct MidiServerInfo {
    pub available: bool,
    pub in_devices: Vec<MidiDeviceInfo>,
    pub out_devices: Vec<MidiDeviceInfo>,
    pub default_in_port: usize,
}

impl MidiServerInfo {
    pub fn new() -> (r: MidiServerInfo)
        ensures
            !r.available,
            r.in_devices@.len() == 0,
            r.out_devices@.len() == 0,
            r.default_in_port == 0,
    {
        MidiServerInfo {
            available: false,
            in_devices: Vec::new(),
            out_devices: Vec::new(),
            default_in_port: 0,
        }
    }
}

/// What one transient look at a reachable audio server yields: the system
/// port names by direction and the server's fixed rate and period size.
pub struct AudioServerScan {
    pub in_ports: Vec<String>,
    pub out_ports: Vec<String>,
    pub sample_rate: u32,
    pub buffer_size: u32,
}

/// What one transient look at a reachable MIDI server yields.
pub struct MidiServerScan {
    pub in_ports: Vec<String>,
    pub out_ports: Vec<String>,
}

/// `target` first occurs in `ports` at index `i`.
pub open spec fn found_at(ports: Seq<Seq<char>>, target: Seq<char>, i: int) -> bool {
    &&& 0 <= i < ports.len()
    &&& ports[i] == target
    &&& forall|j: int| 0 <= j < i ==> ports[j] != target
}

/// The default-port heuristic: the index of the first port named `target`,
/// or `fallback` when no port has that name.
pub open spec fn default_port_index(ports: Seq<Seq<char>>, target: Seq<char>, fallback: int) -> int {
    if exists|i: int| found_at(ports, target, i) {
        choose|i: int| found_at(ports, target, i)
    } else {
        fallback
    }
}

/// The fallback index for the right output channel: the second port on a
/// stereo device, the only port on a mono one, index 0 otherwise.
pub open spec fn right_fallback(count: int) -> int {
    if count >= 2 {
        1
    } else {
        0
    }
}

/// Finds the first port whose name equals `target`.
fn find_port_index(ports: &Vec<String>, target: &String) -> (r: Option<usize>)
    ensures
        match r {
            Some(i) => found_at(ports.deep_view(), target@, i as int),
            None => forall|j: int| 0 <= j < ports.deep_view().len() ==> ports.deep_view()[j] != target@,
        },
{
    let ghost views = ports.deep_view();
    proof {
        assert(views.len() == ports@.len());
    }
    let n = ports.len();
    let mut i: usize = 0;
    while i < n
        invariant
            n == ports@.len(),
            views == ports.deep_view(),
            i <= n,
            forall|j: int| 0 <= j < i ==> views[j] != target@,
        decreases n - i,
    {
        proof {
            assert(views[i as int] == ports@[i as int]@);
        }
        if ports[i] == *target {
            return Some(i);
        }
        i += 1;
    }
    None
}

proof fn lemma_found_at_unique(ports: Seq<Seq<char>>, target: Seq<char>, i: int, j: int)
    requires
        found_at(ports, target, i),
        found_at(ports, target, j),
    ensures
        i == j,
{
}

/// The index of the first port named `target`, with `fallback` when absent.
fn default_port(ports: &Vec<String>, target: &String, fallback: usize) -> (r: usize)
    ensures
        r == default_port_index(ports.deep_view(), target@, fallback as int),
{
    match find_port_index(ports, target) {
        Some(i) => {
            proof {
                let k = choose|k: int| found_at(ports.deep_view(), target@, k);
                lemma_found_at_unique(ports.deep_view(), target@, i as int, k);
            }
            i
        },
        None => {
            proof {
                assert(!exists|k: int| found_at(ports.deep_view(), target@, k));
            }
            fallback
        },
    }
}

/// The discovery result an audio scan must produce. An unreachable server
/// (`scan == None`) and a server without output ports both leave the server
/// marked unavailable with no devices; otherwise there is exactly one
/// device, carrying the scanned ports and the default-port choices.
pub open spec fn audio_refresh_ok(server: AudioServerInfo, scan: Option<AudioServerScan>) -> bool {
    match scan {
        None => !server.available && server.devices@.len() == 0,
        Some(s) => {
            if s.out_ports@.len() == 0 {
                !server.available && server.devices@.len() == 0
            } else {
                &&& server.available
                &&& server.devices@.len() == 1
                &&& server.devices@[0].name@ == "Jack Device"@
                &&& server.devices@[0].in_ports.deep_view() == s.in_ports.deep_view()
                &&& server.devices@[0].out_ports.deep_view() == s.out_ports.deep_view()
                &&& server.devices@[0].sample_rates@ == seq![s.sample_rate]
                &&& server.devices@[0].buffer_size_range.min == s.buffer_size
                &&& server.devices@[0].buffer_size_range.max == s.buffer_size
                &&& server.devices@[0].default_in_port == default_port_index(
                    s.in_ports.deep_view(),
                    "system:capture_1"@,
                    0,
                )
                &&& server.devices@[0].default_out_port_left == default_port_index(
                    s.out_ports.deep_view(),
                    "system:playback_1"@,
                    0,
                )
                &&& server.devices@[0].default_out_port_right == default_port_index(
                    s.out_ports.deep_view(),
                    "system:playback_2"@,
                    right_fallback(s.out_ports@.len() as int),
                )
                &&& server.devices@[0].default_sample_rate_index == 0
                &&& server.devices@[0].default_buffer_size == s.buffer_size
            }
        },
    }
}

/// Rebuilds `server` from one scan of the audio server; `None` means the
/// server was unreachable. Unreachability is a reported state, never an
/// error, and a server with no playback ports is reported unavailable too.
pub fn refresh_audio_server(server: &mut AudioServerInfo, scan: Option<AudioServerScan>)
    ensures
        audio_refresh_ok(*final(server), scan),
{
    server.devices = Vec::new();
    match scan {
        None => {
            server.available = false;
        },
        Some(s) => {
            if s.out_ports.len() == 0 {
                server.available = false;
            } else {
                let target_in = String::from_str("system:capture_1");
                let target_left = String::from_str("system:playback_1");
                let target_right = String::from_str("system:playback_2");
                let default_in_port = default_port(&s.in_ports, &target_in, 0);
                let default_out_port_left = default_port(&s.out_ports, &target_left, 0);
                let fallback: usize = if s.out_ports.len() >= 2 {
                    1
                } else {
                    0
                };
                let default_out_port_right = default_port(&s.out_ports, &target_right, fallback);
                let mut sample_rates: Vec<u32> = Vec::new();
                sample_rates.push(s.sample_rate);
                let device = AudioDeviceInfo {
                    name: String::from_str("Jack Device"),
                    in_ports: s.in_ports,
                    out_ports: s.out_ports,
                    sample_rates,
                    buffer_size_range: BufferSizeRange::single(s.buffer_size),
                    default_in_port,
                    default_out_port_left,
                    default_out_port_right,
                    default_sample_rate_index: 0,
                    default_buffer_size: s.buffer_size,
                };
                server.devices.push(device);
                server.available = true;
            }
        },
    }
}

/// The discovery result a MIDI scan must produce: one device per scanned
/// port, and the default input pointed at the second hardware capture port
/// (the first is conventionally a virtual through-port), falling back to
/// index 0.
pub open spec fn midi_refresh_ok(server: MidiServerInfo, scan: Option<MidiServerScan>) -> bool {
    match scan {
        None => {
            &&& !server.available
            &&& server.in_devices@.len() == 0
            &&& server.out_devices@.len() == 0
        },
        Some(s) => {
            &&& server.available
            &&& server.in_devices@.len() == s.in_ports@.len()
            &&& forall|i: int|
                0 <= i < s.in_ports@.len() ==> server.in_devices@[i].name@ == s.in_ports.deep_view()[i]
            &&& server.out_devices@.len() == s.out_ports@.len()
            &&& forall|i: int|
                0 <= i < s.out_ports@.len() ==> server.out_devices@[i].name@ == s.out_ports.deep_view()[i]
            &&& server.default_in_port == default_port_index(
                s.in_ports.deep_view(),
                "system:midi_capture_2"@,
                0,
            )
        },
    }
}

/// Rebuilds `server` from one scan of the MIDI server; `None` means the
/// server was unreachable, again a reported state rather than an error.
pub fn refresh_midi_server(server: &mut MidiServerInfo, scan: Option<MidiServerScan>)
    ensures
        midi_refresh_ok(*final(server), scan),
{
    server.in_devices = Vec::new();
    server.out_devices = Vec::new();
    match scan {
        None => {
            server.available = false;
        },
        Some(s) => {
            let n_in = s.in_ports.len();
            let mut i: usize = 0;
            while i < n_in
                invariant
                    n_in == s.in_ports@.len(),
                    i <= n_in,
                    server.in_devices@.len() == i,
                    server.out_devices@.len() == 0,
                    forall|j: int|
                        0 <= j < i ==> server.in_devices@[j].name@ == s.in_ports.deep_view()[j],
                decreases n_in - i,
            {
                proof {
                    assert(s.in_ports.deep_view()[i as int] == s.in_ports@[i as int]@);
                }
                server.in_devices.push(MidiDeviceInfo { name: s.in_ports[i].clone() });
                i += 1;
            }
            let n_out = s.out_ports.len();
            let mut k: usize = 0;
            while k < n_out
                invariant
                    n_out == s.out_ports@.len(),
                    k <= n_out,
                    server.out_devices@.len() == k,
                    server.in_devices@.len() == s.in_ports@.len(),
                    forall|j: int|
                        0 <= j < s.in_ports@.len() ==> server.in_devices@[j].name@
                            == s.in_ports.deep_view()[j],
                    forall|j: int|
                        0 <= j < k ==> server.out_devices@[j].name@ == s.out_ports.deep_view()[j],
                decreases n_out - k,
            {
                proof {
                    assert(s.out_ports.deep_view()[k as int] == s.out_ports@[k as int]@);
                }
                server.out_devices.push(MidiDeviceInfo { name: s.out_ports[k].clone() });
                k += 1;
            }
            let target = String::from_str("system:midi_capture_2");
            server.default_in_port = default_port(&s.in_ports, &target, 0);
            server.available = true;
        },
    }
}

/// On a device with exactly one output port the default left and right
/// output choices coincide: both heuristics land on index 0, whether or not
/// the single port carries a conventional playback name.
pub proof fn lemma_mono_device_defaults_coincide(out_ports: Seq<Seq<char>>)
    requires
        out_ports.len() == 1,
    ensures
        default_port_index(out_ports, "system:playback_1"@, 0) == 0,
        default_port_index(out_ports, "system:playback_2"@, right_fallback(out_ports.len() as int))
            == 0,
{
    if exists|i: int| found_at(out_ports, "system:playback_1"@, i) {
        let i = choose|i: int| found_at(out_ports, "system:playback_1"@, i);
        assert(i == 0);
    }
    if exists|i: int| found_at(out_ports, "system:playback_2"@, i) {
        let i = choose|i: int| found_at(out_ports, "system:playback_2"@, i);
        assert(i == 0);
    }
}

} // verus!
