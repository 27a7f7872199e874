use vstd::prelude::*;
use vstd::string::StringExecFns;
use crate::config::{AudioBusConfig, Config, MidiControllerConfig};
use crate::names::{client_port_name, port_name_seq};

verus! {

/// The position of a bus or controller in its configuration list.
#[derive(Clone, Copy, Debug)]
pub struct DeviceIndex(pub usize);

impl DeviceIndex {
    pub fn new(index: usize) -> (r: DeviceIndex)
        ensures
            r.0 == index,
    {
        DeviceIndex(index)
    }
}

/// A negotiated audio bus: one client port per bound system port, treated
/// as one multi-channel unit.
#[derive(Clone)]
pub struct AudioBus {
    pub id_name: String,
    pub id_index: DeviceIndex,
    pub system_device: String,
    pub system_half_duplex_device: Option<String>,
    pub system_ports: Vec<String>,
    pub channels: u16,
}

/// A negotiated MIDI controller bound to a single system port.
#[derive(Clone)]
pub struct MidiController {
    pub id_name: String,
    pub id_index: DeviceIndex,
    pub system_port: String,
}

/// Everything fixed for the life of a stream: the negotiated buses and
/// controllers, the server's sample rate, and the largest period size the
/// server will ever deliver.
#[derive(Clone)]
pub struct StreamInfo {
    pub server_name: String,
    pub audio_in: Vec<AudioBus>,
    pub audio_out: Vec<AudioBus>,
    pub midi_in: Vec<MidiController>,
    pub midi_out: Vec<MidiController>,
    pub sample_rate: u32,
    pub max_audio_buffer_size: u32,
}

/// Why a spawn attempt was rejected.
#[derive(Debug)]
pub enum SpawnRtThreadError {
    /// The named bus listed no system ports.
    NoSystemPortsGiven(String),
    /// The named system port (first field) requested by the named bus
    /// (second field) is not present on the server.
    SystemPortNotFound(String, String),
    /// The server refused a connection, registration or activation call;
    /// the payload describes the failure.
    PlatformSpecific(String),
}

/// The mathematical shape of a `SpawnRtThreadError`.
pub enum SpawnErrorView {
    NoSystemPortsGiven { bus: Seq<char> },
    SystemPortNotFound { port: Seq<char>, bus: Seq<char> },
    PlatformSpecific { msg: Seq<char> },
}

impl View for SpawnRtThreadError {
    type V = SpawnErrorView;

    open spec fn view(&self) -> SpawnErrorView {
        match self {
            SpawnRtThreadError::NoSystemPortsGiven(bus) => SpawnErrorView::NoSystemPortsGiven {
                bus: bus@,
            },
            SpawnRtThreadError::SystemPortNotFound(port, bus) => SpawnErrorView::SystemPortNotFound {
                port: port@,
                bus: bus@,
            },
            SpawnRtThreadError::PlatformSpecific(msg) => SpawnErrorView::PlatformSpecific {
                msg: msg@,
            },
        }
    }
}

impl SpawnRtThreadError {
    /// A short human-readable description of the error.
    pub fn message(&self) -> (r: String)
        ensures
            r@ == match self@ {
                SpawnErrorView::NoSystemPortsGiven { bus } => "no system ports given for bus "@
                    + bus,
                SpawnErrorView::SystemPortNotFound { port, bus } => "system port "@ + port
                    + " not found for bus "@ + bus,
                SpawnErrorView::PlatformSpecific { msg } => msg,
            },
    {
        match self {
            SpawnRtThreadError::NoSystemPortsGiven(bus) => {
                let mut m = String::from_str("no system ports given for bus ");
                m.append(bus.as_str());
                m
            },
            SpawnRtThreadError::SystemPortNotFound(port, bus) => {
                let mut m = String::from_str("system port ");
                m.append(port.as_str());
                m.append(" not found for bus ");
                m.append(bus.as_str());
                m
            },
            SpawnRtThreadError::PlatformSpecific(msg) => msg.clone(),
        }
    }
}

/// `p` occurs among the system port names `sys`.
pub open spec fn port_listed(sys: Seq<Seq<char>>, p: Seq<char>) -> bool {
    exists|i: int| 0 <= i < sys.len() && sys[i] == p
}

/// Position `i` holds the first port of `ports` that the server does not
/// list.
pub open spec fn missing_at(ports: Seq<Seq<char>>, sys: Seq<Seq<char>>, i: int) -> bool {
    &&& 0 <= i < ports.len()
    &&& !port_listed(sys, ports[i])
    &&& forall|j: int| 0 <= j < i ==> port_listed(sys, #[trigger] ports[j])
}

/// The configuration error one bus produces against the server's port
/// list, if any: an empty port list first, then the first unknown port.
pub open spec fn bus_error(bus: AudioBusConfig, sys: Seq<Seq<char>>) -> Option<SpawnErrorView> {
    if bus.system_ports@.len() == 0 {
        Some(SpawnErrorView::NoSystemPortsGiven { bus: bus.id@ })
    } else if exists|i: int| missing_at(bus.system_ports.deep_view(), sys, i) {
        let i = choose|i: int| missing_at(bus.system_ports.deep_view(), sys, i);
        Some(
            SpawnErrorView::SystemPortNotFound {
                port: bus.system_ports.deep_view()[i],
                bus: bus.id@,
            },
        )
    } else {
        None
    }
}

/// Position `b` holds the first bus of `busses` that fails validation.
pub open spec fn bad_bus_at(busses: Seq<AudioBusConfig>, sys: Seq<Seq<char>>, b: int) -> bool {
    &&& 0 <= b < busses.len()
    &&& bus_error(busses[b], sys) is Some
    &&& forall|j: int| 0 <= j < b ==> bus_error(#[trigger] busses[j], sys) is None
}

/// The first validation error among `busses`, if any.
pub open spec fn busses_error(busses: Seq<AudioBusConfig>, sys: Seq<Seq<char>>) -> Option<
    SpawnErrorView,
> {
    if exists|b: int| bad_bus_at(busses, sys, b) {
        bus_error(busses[choose|b: int| bad_bus_at(busses, sys, b)], sys)
    } else {
        None
    }
}

/// The configuration error a whole spawn attempt reports: input buses are
/// validated before output buses, in declaration order.
pub open spec fn spawn_validation_error(
    config: Config,
    sys_in: Seq<Seq<char>>,
    sys_out: Seq<Seq<char>>,
) -> Option<SpawnErrorView> {
    match busses_error(config.audio_in_busses@, sys_in) {
        Some(e) => Some(e),
        None => busses_error(config.audio_out_busses@, sys_out),
    }
}

/// The client port names one bus claims: the bus name suffixed with each
/// 1-based channel position.
pub open spec fn bus_port_names(bus: AudioBusConfig) -> Seq<Seq<char>> {
    Seq::new(bus.system_ports@.len(), |c: int| port_name_seq(bus.id@, (c + 1) as nat))
}

/// The flat list of client port names the first `b` buses claim, bus by
/// bus and channel by channel.
pub open spec fn flat_port_names(busses: Seq<AudioBusConfig>, b: int) -> Seq<Seq<char>>
    decreases b,
{
    if b <= 0 {
        Seq::<Seq<char>>::empty()
    } else {
        flat_port_names(busses, b - 1) + bus_port_names(busses[b - 1])
    }
}

/// The flat list of system ports the first `b` buses bind to, in the same
/// order as `flat_port_names`.
pub open spec fn flat_connect_ports(busses: Seq<AudioBusConfig>, b: int) -> Seq<Seq<char>>
    decreases b,
{
    if b <= 0 {
        Seq::<Seq<char>>::empty()
    } else {
        flat_connect_ports(busses, b - 1) + busses[b - 1].system_ports.deep_view()
    }
}

/// The negotiated buses carry the configuration over unchanged: same
/// order, positional indices, one channel per bound system port.
pub open spec fn busses_built(cfg: Seq<AudioBusConfig>, built: Seq<AudioBus>) -> bool {
    &&& built.len() == cfg.len()
    &&& forall|b: int|
        0 <= b < cfg.len() ==> {
            &&& (#[trigger] built[b]).id_name == cfg[b].id
            &&& built[b].id_index.0 == b
            &&& built[b].system_device@ == "Jack"@
            &&& built[b].system_half_duplex_device is None
            &&& built[b].system_ports@ == cfg[b].system_ports@
            &&& built[b].channels == cfg[b].system_ports@.len()
        }
}

/// The flat lists of client port names and of the system ports they are
/// to be connected to are exactly the buses' claims, in declaration order.
pub open spec fn port_names_built(
    cfg: Seq<AudioBusConfig>,
    names: Seq<Seq<char>>,
    connect: Seq<Seq<char>>,
) -> bool {
    &&& names == flat_port_names(cfg, cfg.len() as int)
    &&& connect == flat_connect_ports(cfg, cfg.len() as int)
}

/// Whether the MIDI controllers belong to this backend: true exactly when
/// the configured MIDI server identity is "Jack".
pub open spec fn midi_owned_here(config: Config) -> bool {
    match config.midi_server {
        Some(name) => name@ == "Jack"@,
        None => false,
    }
}

/// The negotiated controllers, their client port names (the controller
/// names themselves) and connection targets; all empty when the MIDI
/// server identity names another backend.
pub open spec fn controllers_built(
    cfg: Seq<MidiControllerConfig>,
    built: Seq<MidiController>,
    names: Seq<Seq<char>>,
    connect: Seq<Seq<char>>,
    active: bool,
) -> bool {
    if active {
        &&& built.len() == cfg.len()
        &&& names.len() == cfg.len()
        &&& connect.len() == cfg.len()
        &&& forall|i: int|
            0 <= i < cfg.len() ==> {
                &&& (#[trigger] built[i]).id_name == cfg[i].id
                &&& built[i].id_index.0 == i
                &&& built[i].system_port == cfg[i].system_port
                &&& names[i] == cfg[i].id@
                &&& connect[i] == cfg[i].system_port@
            }
    } else {
        built.len() == 0 && names.len() == 0 && connect.len() == 0
    }
}

/// The client identity a spawn uses: the caller's, or this library's
/// conventional name.
pub open spec fn client_name_view(use_client_name: Option<String>) -> Seq<char> {
    match use_client_name {
        Some(name) => name@,
        None => "rusty-daw-io"@,
    }
}

/// Everything a spawn has decided before the server is touched: the stream
/// description, and for every client port its requested name and the
/// system port it is to be auto-connected to. Registration happens only
/// from a plan, so a rejected configuration registers nothing.
pub struct SpawnPlan {
    pub client_name: String,
    pub stream_info: StreamInfo,
    pub audio_in_port_names: Vec<String>,
    pub audio_in_connect_to: Vec<String>,
    pub audio_out_port_names: Vec<String>,
    pub audio_out_connect_to: Vec<String>,
    pub midi_in_port_names: Vec<String>,
    pub midi_in_connect_to: Vec<String>,
    pub midi_out_port_names: Vec<String>,
    pub midi_out_connect_to: Vec<String>,
}

proof fn lemma_missing_at_unique(ports: Seq<Seq<char>>, sys: Seq<Seq<char>>, i: int, j: int)
    requires
        missing_at(ports, sys, i),
        missing_at(ports, sys, j),
    ensures
        i == j,
{
}

proof fn lemma_bad_bus_unique(busses: Seq<AudioBusConfig>, sys: Seq<Seq<char>>, b1: int, b2: int)
    requires
        bad_bus_at(busses, sys, b1),
        bad_bus_at(busses, sys, b2),
    ensures
        b1 == b2,
{
}

/// Whether the server lists a port with this name.
fn contains_port(sys: &Vec<String>, port: &String) -> (r: bool)
    ensures
        r == port_listed(sys.deep_view(), port@),
{
    let n = sys.len();
    let mut i: usize = 0;
    while i < n
        invariant
            n == sys@.len(),
            i <= n,
            forall|j: int| 0 <= j < i ==> sys.deep_view()[j] != port@,
        decreases n - i,
    {
        proof {
            assert(sys.deep_view()[i as int] == sys@[i as int]@);
        }
        if sys[i] == *port {
            proof {
                assert(sys.deep_view()[i as int] == port@);
            }
            return true;
        }
        i += 1;
    }
    proof {
        assert(forall|j: int| 0 <= j < sys.deep_view().len() ==> sys.deep_view()[j] != port@);
    }
    false
}

/// Copies a list of port names.
fn clone_string_vec(v: &Vec<String>) -> (r: Vec<String>)
    ensures
        r@ == v@,
{
    let n = v.len();
    let mut r: Vec<String> = Vec::new();
    let mut i: usize = 0;
    while i < n
        invariant
            n == v@.len(),
            i <= n,
            r@ =~= v@.subrange(0, i as int),
        decreases n - i,
    {
        r.push(v[i].clone());
        i += 1;
    }
    proof {
        assert(r@ =~= v@);
    }
    r
}

/// Validates one direction's buses against the server's port list and, on
/// success, builds the negotiated buses together with the flat client-port
/// name and connection lists.
fn build_busses(busses: &Vec<AudioBusConfig>, sys: &Vec<String>) -> (r: Result<
    (Vec<AudioBus>, Vec<String>, Vec<String>),
    SpawnRtThreadError,
>)
    requires
        forall|b: int|
            0 <= b < busses@.len() ==> (#[trigger] busses@[b]).system_ports@.len() <= u16::MAX,
    ensures
        match r {
            Ok(built) => {
                &&& busses_error(busses@, sys.deep_view()) is None
                &&& busses_built(busses@, built.0@)
                &&& port_names_built(busses@, built.1.deep_view(), built.2.deep_view())
            },
            Err(e) => busses_error(busses@, sys.deep_view()) == Some(e@),
        },
{
    let ghost sysv = sys.deep_view();
    let mut built: Vec<AudioBus> = Vec::new();
    let mut names: Vec<String> = Vec::new();
    let mut connect: Vec<String> = Vec::new();
    let n = busses.len();
    let mut b: usize = 0;
    while b < n
        invariant
            n == busses@.len(),
            b <= n,
            sysv == sys.deep_view(),
            forall|b2: int|
                0 <= b2 < busses@.len() ==> (#[trigger] busses@[b2]).system_ports@.len()
                    <= u16::MAX,
            forall|j: int| 0 <= j < b ==> bus_error(#[trigger] busses@[j], sysv) is None,
            built@.len() == b,
            forall|j: int|
                0 <= j < b ==> {
                    &&& (#[trigger] built@[j]).id_name == busses@[j].id
                    &&& built@[j].id_index.0 == j
                    &&& built@[j].system_device@ == "Jack"@
                    &&& built@[j].system_half_duplex_device is None
                    &&& built@[j].system_ports@ == busses@[j].system_ports@
                    &&& built@[j].channels == busses@[j].system_ports@.len()
                },
            names.deep_view() == flat_port_names(busses@, b as int),
            connect.deep_view() == flat_connect_ports(busses@, b as int),
        decreases n - b,
    {
        let bus = &busses[b];
        let n_ports = bus.system_ports.len();
        if n_ports == 0 {
            let e = SpawnRtThreadError::NoSystemPortsGiven(bus.id.clone());
            proof {
                assert(bad_bus_at(busses@, sysv, b as int));
                let b2 = choose|b2: int| bad_bus_at(busses@, sysv, b2);
                lemma_bad_bus_unique(busses@, sysv, b as int, b2);
            }
            return Err(e);
        }
        let ghost names_at_bus_start = names.deep_view();
        let ghost connect_at_bus_start = connect.deep_view();
        let mut c: usize = 0;
        while c < n_ports
            invariant
                n_ports == bus.system_ports@.len(),
                n_ports > 0,
                c <= n_ports,
                bus == busses@[b as int],
                b < busses@.len(),
                n == busses@.len(),
                sysv == sys.deep_view(),
                names_at_bus_start == flat_port_names(busses@, b as int),
                connect_at_bus_start == flat_connect_ports(busses@, b as int),
                forall|j: int| 0 <= j < b ==> bus_error(#[trigger] busses@[j], sysv) is None,
                names.deep_view() =~= names_at_bus_start + bus_port_names(busses@[b as int]).take(
                    c as int,
                ),
                connect.deep_view() =~= connect_at_bus_start
                    + bus.system_ports.deep_view().take(c as int),
                forall|k: int|
                    0 <= k < c ==> port_listed(sysv, #[trigger] bus.system_ports.deep_view()[k]),
            decreases n_ports - c,
        {
            let port = &bus.system_ports[c];
            proof {
                assert(bus.system_ports.deep_view()[c as int] == bus.system_ports@[c as int]@);
            }
            if !contains_port(sys, port) {
                let e = SpawnRtThreadError::SystemPortNotFound(port.clone(), bus.id.clone());
                proof {
                    assert(missing_at(bus.system_ports.deep_view(), sysv, c as int));
                    let i2 = choose|i2: int| missing_at(bus.system_ports.deep_view(), sysv, i2);
                    lemma_missing_at_unique(bus.system_ports.deep_view(), sysv, c as int, i2);
                    assert(bus_error(busses@[b as int], sysv) == Some(
                        SpawnErrorView::SystemPortNotFound {
                            port: bus.system_ports.deep_view()[c as int],
                            bus: bus.id@,
                        },
                    ));
                    assert(bad_bus_at(busses@, sysv, b as int));
                    let b2 = choose|b2: int| bad_bus_at(busses@, sysv, b2);
                    lemma_bad_bus_unique(busses@, sysv, b as int, b2);
                }
                return Err(e);
            }
            let ghost pre_names = names.deep_view();
            let ghost pre_connect = connect.deep_view();
            let name = client_port_name(&bus.id, c + 1);
            names.push(name);
            connect.push(port.clone());
            proof {
                assert(names.deep_view() =~= pre_names.push(name@));
                assert(connect.deep_view() =~= pre_connect.push(port@));
                assert(names.deep_view() =~= names_at_bus_start + bus_port_names(
                    busses@[b as int],
                ).take(c as int + 1));
                assert(connect.deep_view() =~= connect_at_bus_start
                    + bus.system_ports.deep_view().take(c as int + 1));
            }
            c += 1;
        }
        proof {
            if exists|i: int| missing_at(bus.system_ports.deep_view(), sysv, i) {
                let i = choose|i: int| missing_at(bus.system_ports.deep_view(), sysv, i);
                assert(port_listed(sysv, bus.system_ports.deep_view()[i]));
            }
            assert(bus_error(busses@[b as int], sysv) is None);
            assert(bus_port_names(busses@[b as int]).take(n_ports as int) =~= bus_port_names(
                busses@[b as int],
            ));
            assert(bus.system_ports.deep_view().take(n_ports as int)
                =~= bus.system_ports.deep_view());
            assert(names.deep_view() =~= flat_port_names(busses@, b as int + 1));
            assert(connect.deep_view() =~= flat_connect_ports(busses@, b as int + 1));
        }
        let channels_usize = bus.system_ports.len();
        let system_ports = clone_string_vec(&bus.system_ports);
        built.push(
            AudioBus {
                id_name: bus.id.clone(),
                id_index: DeviceIndex(b),
                system_device: String::from_str("Jack"),
                system_half_duplex_device: None,
                system_ports,
                channels: channels_usize as u16,
            },
        );
        b += 1;
    }
    proof {
        if exists|b2: int| bad_bus_at(busses@, sysv, b2) {
            let b2 = choose|b2: int| bad_bus_at(busses@, sysv, b2);
            assert(bus_error(busses@[b2], sysv) is None);
        }
        assert(busses_error(busses@, sysv) is None);
    }
    Ok((built, names, connect))
}

/// Builds the negotiated MIDI controllers and their client-port name and
/// connection lists. Controllers cannot fail validation; their client
/// ports are named after the controllers themselves.
fn build_controllers(controllers: &Vec<MidiControllerConfig>) -> (r: (
    Vec<MidiController>,
    Vec<String>,
    Vec<String>,
))
    ensures
        controllers_built(controllers@, r.0@, r.1.deep_view(), r.2.deep_view(), true),
{
    let mut built: Vec<MidiController> = Vec::new();
    let mut names: Vec<String> = Vec::new();
    let mut connect: Vec<String> = Vec::new();
    let n = controllers.len();
    let mut i: usize = 0;
    while i < n
        invariant
            n == controllers@.len(),
            i <= n,
            built@.len() == i,
            names@.len() == i,
            connect@.len() == i,
            forall|j: int|
                0 <= j < i ==> {
                    &&& (#[trigger] built@[j]).id_name == controllers@[j].id
                    &&& built@[j].id_index.0 == j
                    &&& built@[j].system_port == controllers@[j].system_port
                },
            forall|j: int| 0 <= j < i ==> #[trigger] names.deep_view()[j] == controllers@[j].id@,
            forall|j: int|
                0 <= j < i ==> #[trigger] connect.deep_view()[j] == controllers@[j].system_port@,
        decreases n - i,
    {
        let controller = &controllers[i];
        built.push(
            MidiController {
                id_name: controller.id.clone(),
                id_index: DeviceIndex(i),
                system_port: controller.system_port.clone(),
            },
        );
        let ghost pre_names = names.deep_view();
        let ghost pre_names_vec = names@;
        let ghost pre_connect = connect.deep_view();
        let ghost pre_connect_vec = connect@;
        names.push(controller.id.clone());
        connect.push(controller.system_port.clone());
        proof {
            assert forall|j: int| 0 <= j <= i implies names.deep_view()[j]
                == controllers@[j].id@ by {
                assert(names.deep_view()[j] == names@[j]@);
                if j < i {
                    assert(names@[j] == pre_names_vec[j]);
                    assert(pre_names[j] == pre_names_vec[j]@);
                }
            }
            assert forall|j: int| 0 <= j <= i implies connect.deep_view()[j]
                == controllers@[j].system_port@ by {
                assert(connect.deep_view()[j] == connect@[j]@);
                if j < i {
                    assert(connect@[j] == pre_connect_vec[j]);
                    assert(pre_connect[j] == pre_connect_vec[j]@);
                }
            }
        }
        i += 1;
    }
    (built, names, connect)
}

/// Negotiates a stream: validates every configured bus against the
/// server's current port lists and, when all are valid, decides everything
/// a spawn will do — the stream description, the deterministic client port
/// names, and the auto-connection targets. Nothing is registered on a
/// rejected configuration: a plan is the only path to registration.
pub fn negotiate_stream(
    config: &Config,
    system_audio_in_ports: &Vec<String>,
    system_audio_out_ports: &Vec<String>,
    sample_rate: u32,
    max_audio_buffer_size: u32,
    use_client_name: Option<String>,
) -> (r: Result<SpawnPlan, SpawnRtThreadError>)
    requires
        forall|b: int|
            0 <= b < config.audio_in_busses@.len() ==> (#[trigger] config.audio_in_busses@[b]).system_ports@.len()
                <= u16::MAX,
        forall|b: int|
            0 <= b < config.audio_out_busses@.len() ==> (#[trigger] config.audio_out_busses@[b]).system_ports@.len()
                <= u16::MAX,
    ensures
        match r {
            Ok(plan) => {
                &&& spawn_validation_error(
                    *config,
                    system_audio_in_ports.deep_view(),
                    system_audio_out_ports.deep_view(),
                ) is None
                &&& plan.client_name@ == client_name_view(use_client_name)
                &&& plan.stream_info.server_name@ == "Jack"@
                &&& plan.stream_info.sample_rate == sample_rate
                &&& plan.stream_info.max_audio_buffer_size == max_audio_buffer_size
                &&& busses_built(config.audio_in_busses@, plan.stream_info.audio_in@)
                &&& busses_built(config.audio_out_busses@, plan.stream_info.audio_out@)
                &&& port_names_built(
                    config.audio_in_busses@,
                    plan.audio_in_port_names.deep_view(),
                    plan.audio_in_connect_to.deep_view(),
                )
                &&& port_names_built(
                    config.audio_out_busses@,
                    plan.audio_out_port_names.deep_view(),
                    plan.audio_out_connect_to.deep_view(),
                )
                &&& controllers_built(
                    config.midi_in_controllers@,
                    plan.stream_info.midi_in@,
                    plan.midi_in_port_names.deep_view(),
                    plan.midi_in_connect_to.deep_view(),
                    midi_owned_here(*config),
                )
                &&& controllers_built(
                    config.midi_out_controllers@,
                    plan.stream_info.midi_out@,
                    plan.midi_out_port_names.deep_view(),
                    plan.midi_out_connect_to.deep_view(),
                    midi_owned_here(*config),
                )
            },
            Err(e) => spawn_validation_error(
                *config,
                system_audio_in_ports.deep_view(),
                system_audio_out_ports.deep_view(),
            ) == Some(e@),
        },
{
    let client_name = match use_client_name {
        Some(name) => name,
        None => String::from_str("rusty-daw-io"),
    };
    let (audio_in_busses, audio_in_port_names, audio_in_connect_to) = match build_busses(
        &config.audio_in_busses,
        system_audio_in_ports,
    ) {
        Ok(built) => built,
        Err(e) => {
            return Err(e);
        },
    };
    let (audio_out_busses, audio_out_port_names, audio_out_connect_to) = match build_busses(
        &config.audio_out_busses,
        system_audio_out_ports,
    ) {
        Ok(built) => built,
        Err(e) => {
            return Err(e);
        },
    };
    let midi_here = match &config.midi_server {
        Some(name) => {
            let jack_name = String::from_str("Jack");
            *name == jack_name
        },
        None => false,
    };
    let (midi_in_controllers, midi_in_port_names, midi_in_connect_to) = if midi_here {
        build_controllers(&config.midi_in_controllers)
    } else {
        (Vec::new(), Vec::new(), Vec::new())
    };
    let (midi_out_controllers, midi_out_port_names, midi_out_connect_to) = if midi_here {
        build_controllers(&config.midi_out_controllers)
    } else {
        (Vec::new(), Vec::new(), Vec::new())
    };
    let stream_info = StreamInfo {
        server_name: String::from_str("Jack"),
        audio_in: audio_in_busses,
        audio_out: audio_out_busses,
        midi_in: midi_in_controllers,
        midi_out: midi_out_controllers,
        sample_rate,
        max_audio_buffer_size,
    };
    Ok(
        SpawnPlan {
            client_name,
            stream_info,
            audio_in_port_names,
            audio_in_connect_to,
            audio_out_port_names,
            audio_out_connect_to,
            midi_in_port_names,
            midi_in_connect_to,
            midi_out_port_names,
            midi_out_connect_to,
        },
    )
}

} // verus!
