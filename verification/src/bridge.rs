use vstd::prelude::*;
use crate::audio::{
    captured, captured_vec, channel_views, clamp, merged_vec, silence_vec, write_back,
    AudioBusBuffer,
};
use crate::midi::{accepted, MidiControllerBuffer, RawMidi};
use crate::stream::StreamInfo;

verus! {

/// The application's real-time behaviour, implemented by the caller and
/// injected at spawn time. `init` runs once, off the real-time path, with
/// the negotiated stream description; `process` runs once per period with
/// the period's input buffers, the cleared output buffers, the frame count
/// and the sample rate, and may populate the outputs.
pub trait RtProcessHandler<S>: Sized {
    fn init(&mut self, stream_info: &StreamInfo);

    fn process(
        &mut self,
        audio_in: &Vec<AudioBusBuffer<S>>,
        audio_out: &mut Vec<AudioBusBuffer<S>>,
        audio_frames: usize,
        midi_in: &Vec<MidiControllerBuffer>,
        midi_out: &mut Vec<MidiControllerBuffer>,
        sample_rate: u32,
    );
}

/// The sample sequences a list of port buffers holds.
pub open spec fn views_of<S>(v: Seq<Vec<S>>) -> Seq<Seq<S>> {
    Seq::new(v.len(), |i: int| v[i]@)
}

/// How many channels the buses before bus `b` hold.
pub open spec fn channels_before<S>(bufs: Seq<AudioBusBuffer<S>>, b: int) -> int
    decreases b,
{
    if b <= 0 {
        0
    } else {
        channels_before(bufs, b - 1) + bufs[b - 1].channel_buffers@.len()
    }
}

/// The channels of the first `b` buses, flattened in bus order: the fixed
/// positional port-to-channel mapping of the stream.
pub open spec fn flat_channel_views<S>(bufs: Seq<AudioBusBuffer<S>>, b: int) -> Seq<Seq<S>>
    decreases b,
{
    if b <= 0 {
        Seq::<Seq<S>>::empty()
    } else {
        flat_channel_views(bufs, b - 1) + channel_views(bufs[b - 1])
    }
}

/// Every input port captured to capacity `max`.
pub open spec fn captured_all<S>(ports: Seq<Seq<S>>, max: int) -> Seq<Seq<S>> {
    Seq::new(ports.len(), |p: int| captured(ports[p], max))
}

/// Every output port overwritten by its channel, position by position;
/// ports beyond the available channels keep the server's contents.
pub open spec fn write_back_all<S>(chans: Seq<Seq<S>>, ports: Seq<Seq<S>>) -> Seq<Seq<S>> {
    Seq::new(
        ports.len(),
        |p: int|
            if p < chans.len() {
                write_back(chans[p], ports[p])
            } else {
                ports[p]
            },
    )
}

pub proof fn lemma_channels_before_mono<S>(bufs: Seq<AudioBusBuffer<S>>, b1: int, b2: int)
    requires
        0 <= b1 <= b2,
    ensures
        channels_before(bufs, b1) <= channels_before(bufs, b2),
        channels_before(bufs, b1) >= 0,
    decreases b2 - b1 + b1,
{
    if b1 > 0 {
        lemma_channels_before_mono(bufs, b1 - 1, b1 - 1);
    }
    if b1 < b2 {
        lemma_channels_before_mono(bufs, b1, b2 - 1);
    }
}

pub proof fn lemma_flat_len<S>(bufs: Seq<AudioBusBuffer<S>>, b: int)
    requires
        0 <= b,
    ensures
        flat_channel_views(bufs, b).len() == channels_before(bufs, b),
    decreases b,
{
    if b > 0 {
        lemma_flat_len(bufs, b - 1);
    }
}

/// The flat channel at position `channels_before(b) + c` is channel `c` of
/// bus `b`.
pub proof fn lemma_flat_index<S>(bufs: Seq<AudioBusBuffer<S>>, n: int, b: int, c: int)
    requires
        0 <= b < n <= bufs.len(),
        0 <= c < bufs[b].channel_buffers@.len(),
    ensures
        channels_before(bufs, b) + c < channels_before(bufs, n),
        0 <= channels_before(bufs, b) + c,
        flat_channel_views(bufs, n)[channels_before(bufs, b) + c] == bufs[b].channel_buffers@[c]@,
    decreases n,
{
    lemma_channels_before_mono(bufs, b, b);
    lemma_flat_len(bufs, n - 1);
    if b == n - 1 {
        assert(flat_channel_views(bufs, n) == flat_channel_views(bufs, n - 1) + channel_views(
            bufs[n - 1],
        ));
    } else {
        lemma_flat_index(bufs, n - 1, b, c);
        lemma_channels_before_mono(bufs, b + 1, n - 1);
    }
}

/// Two buffer lists that agree bus by bus below `b` flatten alike.
proof fn lemma_flat_prefix_agree<S>(
    s1: Seq<AudioBusBuffer<S>>,
    s2: Seq<AudioBusBuffer<S>>,
    b: int,
)
    requires
        forall|j: int| 0 <= j < b ==> s1[j] == s2[j],
    ensures
        flat_channel_views(s1, b) == flat_channel_views(s2, b),
        channels_before(s1, b) == channels_before(s2, b),
    decreases b,
{
    if b > 0 {
        lemma_flat_prefix_agree(s1, s2, b - 1);
    }
}

/// Reads every input port into its bus's channel buffer, in the fixed
/// positional order established at negotiation: channel `c` of bus `b`
/// reads the port at flat position `channels_before(b) + c`, truncated to
/// the shared capacity `max`; each bus's frame count records its last
/// port's (clamped) length, and the returned frame count is the last
/// bus's. Buffer shapes, capacities and silence values are untouched.
pub fn collect_audio_inputs<S: Copy>(
    bufs: &mut Vec<AudioBusBuffer<S>>,
    ports: &Vec<Vec<S>>,
    max: usize,
) -> (frames: usize)
    requires
        forall|b: int| 0 <= b < old(bufs)@.len() ==> (#[trigger] old(bufs)@[b]).max_frames == max,
        forall|b: int|
            0 <= b < old(bufs)@.len() ==> (#[trigger] old(bufs)@[b]).channel_buffers@.len() >= 1,
        ports@.len() == channels_before(old(bufs)@, old(bufs)@.len() as int),
    ensures
        final(bufs)@.len() == old(bufs)@.len(),
        forall|b: int|
            0 <= b < old(bufs)@.len() ==> {
                &&& (#[trigger] final(bufs)@[b]).channel_buffers@.len() == old(
                    bufs,
                )@[b].channel_buffers@.len()
                &&& final(bufs)@[b].max_frames == max
                &&& final(bufs)@[b].silence == old(bufs)@[b].silence
                &&& final(bufs)@[b].wf()
                &&& final(bufs)@[b].frames == clamp(
                    views_of(ports@)[channels_before(old(bufs)@, b + 1) - 1].len() as int,
                    max as int,
                )
            },
        flat_channel_views(final(bufs)@, final(bufs)@.len() as int) == captured_all(
            views_of(ports@),
            max as int,
        ),
        frames as int == (if old(bufs)@.len() > 0 {
            final(bufs)@[old(bufs)@.len() - 1].frames as int
        } else {
            0
        }),
{
    let n = bufs.len();
    let plen = ports.len();
    let mut frames: usize = 0;
    let mut p: usize = 0;
    let mut b: usize = 0;
    while b < n
        invariant
            n == bufs@.len(),
            n == old(bufs)@.len(),
            plen == ports@.len(),
            b <= n,
            forall|j: int| 0 <= j < n ==> (#[trigger] old(bufs)@[j]).max_frames == max,
            forall|j: int|
                0 <= j < n ==> (#[trigger] old(bufs)@[j]).channel_buffers@.len() >= 1,
            ports@.len() == channels_before(old(bufs)@, n as int),
            p as int == channels_before(old(bufs)@, b as int),
            forall|j: int| b <= j < n ==> bufs@[j] == old(bufs)@[j],
            forall|j: int|
                0 <= j < b ==> {
                    &&& (#[trigger] bufs@[j]).channel_buffers@.len() == old(
                        bufs,
                    )@[j].channel_buffers@.len()
                    &&& bufs@[j].max_frames == max
                    &&& bufs@[j].silence == old(bufs)@[j].silence
                    &&& bufs@[j].wf()
                    &&& bufs@[j].frames == clamp(
                        views_of(ports@)[channels_before(old(bufs)@, j + 1) - 1].len() as int,
                        max as int,
                    )
                },
            flat_channel_views(bufs@, b as int) =~= captured_all(views_of(ports@), max as int).take(
                p as int,
            ),
            b > 0 ==> frames as int == bufs@[b - 1].frames,
            b == 0 ==> frames == 0,
        decreases n - b,
    {
        proof {
            lemma_channels_before_mono(old(bufs)@, b as int, b as int);
            lemma_channels_before_mono(old(bufs)@, b as int + 1, n as int);
            assert(channels_before(old(bufs)@, b as int + 1) == channels_before(
                old(bufs)@,
                b as int,
            ) + old(bufs)@[b as int].channel_buffers@.len());
        }
        let count = bufs[b].channel_buffers.len();
        let maxf = bufs[b].max_frames;
        let silence = bufs[b].silence;
        let mut chans: Vec<Vec<S>> = Vec::new();
        let mut bus_frames: usize = 0;
        let mut c: usize = 0;
        while c < count
            invariant
                b < n,
                n == old(bufs)@.len(),
                count == old(bufs)@[b as int].channel_buffers@.len(),
                maxf == max,
                plen == ports@.len(),
                ports@.len() == channels_before(old(bufs)@, n as int),
                p as int == channels_before(old(bufs)@, b as int),
                p + count <= plen,
                c <= count,
                chans@.len() == c,
                forall|k: int|
                    0 <= k < c ==> (#[trigger] chans@[k])@ == captured(
                        views_of(ports@)[p + k],
                        max as int,
                    ),
                forall|k: int| 0 <= k < c ==> (#[trigger] chans@[k])@.len() <= max,
                c > 0 ==> bus_frames as int == clamp(
                    views_of(ports@)[p + c - 1].len() as int,
                    max as int,
                ),
                c == 0 ==> bus_frames == 0,
            decreases count - c,
        {
            let port = &ports[p + c];
            let v = captured_vec(port, maxf);
            proof {
                assert(views_of(ports@)[p + c as int] == ports@[p + c as int]@);
                assert(v@.len() == clamp(port@.len() as int, max as int));
            }
            bus_frames = v.len();
            chans.push(v);
            c += 1;
        }
        let ghost pre = bufs@;
        let new_buf = AudioBusBuffer {
            channel_buffers: chans,
            frames: bus_frames,
            max_frames: maxf,
            silence,
        };
        bufs.set(b, new_buf);
        frames = bus_frames;
        proof {
            lemma_flat_prefix_agree(bufs@, pre, b as int);
            assert(flat_channel_views(bufs@, b as int + 1) == flat_channel_views(bufs@, b as int)
                + channel_views(bufs@[b as int]));
            assert(channel_views(bufs@[b as int]) =~= captured_all(
                views_of(ports@),
                max as int,
            ).subrange(p as int, p + count as int));
            assert(flat_channel_views(bufs@, b as int + 1) =~= captured_all(
                views_of(ports@),
                max as int,
            ).take(p + count as int));
        }
        p = p + count;
        b += 1;
    }
    proof {
        assert(flat_channel_views(bufs@, n as int) =~= captured_all(views_of(ports@), max as int));
    }
    frames
}

/// Clears every output bus to silence at the period's frame count,
/// whatever the previous period's application code left in the buffers.
pub fn prepare_audio_outputs<S: Copy>(bufs: &mut Vec<AudioBusBuffer<S>>, frames: usize)
    ensures
        final(bufs)@.len() == old(bufs)@.len(),
        forall|b: int|
            0 <= b < old(bufs)@.len() ==> {
                &&& (#[trigger] final(bufs)@[b]).channel_buffers@.len() == old(
                    bufs,
                )@[b].channel_buffers@.len()
                &&& final(bufs)@[b].max_frames == old(bufs)@[b].max_frames
                &&& final(bufs)@[b].silence == old(bufs)@[b].silence
                &&& channel_views(final(bufs)@[b]) == Seq::new(
                    old(bufs)@[b].channel_buffers@.len(),
                    |c: int|
                        crate::audio::cleared(
                            frames as int,
                            old(bufs)@[b].max_frames as int,
                            old(bufs)@[b].silence,
                        ),
                )
                &&& final(bufs)@[b].frames == clamp(frames as int, old(bufs)@[b].max_frames as int)
                &&& final(bufs)@[b].wf()
            },
{
    let n = bufs.len();
    let mut b: usize = 0;
    while b < n
        invariant
            n == bufs@.len(),
            n == old(bufs)@.len(),
            b <= n,
            forall|j: int| b <= j < n ==> bufs@[j] == old(bufs)@[j],
            forall|j: int|
                0 <= j < b ==> {
                    &&& (#[trigger] bufs@[j]).channel_buffers@.len() == old(
                        bufs,
                    )@[j].channel_buffers@.len()
                    &&& bufs@[j].max_frames == old(bufs)@[j].max_frames
                    &&& bufs@[j].silence == old(bufs)@[j].silence
                    &&& channel_views(bufs@[j]) == Seq::new(
                        old(bufs)@[j].channel_buffers@.len(),
                        |c: int|
                            crate::audio::cleared(
                                frames as int,
                                old(bufs)@[j].max_frames as int,
                                old(bufs)@[j].silence,
                            ),
                    )
                    &&& bufs@[j].frames == clamp(frames as int, old(bufs)@[j].max_frames as int)
                    &&& bufs@[j].wf()
                },
        decreases n - b,
    {
        let count = bufs[b].channel_buffers.len();
        let maxf = bufs[b].max_frames;
        let silence = bufs[b].silence;
        let len = if frames <= maxf {
            frames
        } else {
            maxf
        };
        let mut chans: Vec<Vec<S>> = Vec::new();
        let mut c: usize = 0;
        while c < count
            invariant
                c <= count,
                chans@.len() == c,
                len as int == clamp(frames as int, maxf as int),
                len <= maxf,
                forall|k: int|
                    0 <= k < c ==> (#[trigger] chans@[k])@ == crate::audio::cleared(
                        frames as int,
                        maxf as int,
                        silence,
                    ),
            decreases count - c,
        {
            let v = silence_vec(len, silence);
            chans.push(v);
            c += 1;
        }
        bufs.set(
            b,
            AudioBusBuffer { channel_buffers: chans, frames: len, max_frames: maxf, silence },
        );
        proof {
            assert(channel_views(bufs@[b as int]) =~= Seq::new(
                old(bufs)@[b as int].channel_buffers@.len(),
                |c: int|
                    crate::audio::cleared(
                        frames as int,
                        old(bufs)@[b as int].max_frames as int,
                        old(bufs)@[b as int].silence,
                    ),
            ));
        }
        b += 1;
    }
}

/// Clears each MIDI-in controller buffer and refills it with the events
/// the server delivered for its port this period, in order, dropping only
/// what a push refuses.
pub fn collect_midi_inputs(bufs: &mut Vec<MidiControllerBuffer>, delivered: &Vec<Vec<RawMidi>>)
    requires
        delivered@.len() == old(bufs)@.len(),
    ensures
        final(bufs)@.len() == old(bufs)@.len(),
        forall|i: int|
            0 <= i < old(bufs)@.len() ==> {
                &&& (#[trigger] final(bufs)@[i]).wf()
                &&& final(bufs)@[i]@ == accepted(delivered@[i].deep_view())
            },
{
    let n = bufs.len();
    let mut i: usize = 0;
    while i < n
        invariant
            n == bufs@.len(),
            n == old(bufs)@.len(),
            delivered@.len() == n,
            i <= n,
            forall|j: int|
                0 <= j < i ==> (#[trigger] bufs@[j]).wf() && bufs@[j]@ == accepted(
                    delivered@[j].deep_view(),
                ),
        decreases n - i,
    {
        let nb = MidiControllerBuffer::from_delivered(&delivered[i]);
        bufs.set(i, nb);
        i += 1;
    }
}

/// Empties every MIDI-out controller buffer, whatever the previous
/// period's application code left in it.
pub fn clear_midi_outputs(bufs: &mut Vec<MidiControllerBuffer>)
    ensures
        final(bufs)@.len() == old(bufs)@.len(),
        forall|i: int|
            0 <= i < old(bufs)@.len() ==> (#[trigger] final(bufs)@[i])@.len() == 0
                && final(bufs)@[i].wf(),
{
    let n = bufs.len();
    let mut i: usize = 0;
    while i < n
        invariant
            n == bufs@.len(),
            n == old(bufs)@.len(),
            i <= n,
            forall|j: int| 0 <= j < i ==> (#[trigger] bufs@[j])@.len() == 0 && bufs@[j].wf(),
        decreases n - i,
    {
        let nb = MidiControllerBuffer::new();
        bufs.set(i, nb);
        i += 1;
    }
}

/// Writes every output bus channel back over its server port buffer, in
/// the same fixed positional order the inputs were read in: flat channel
/// `p` overwrites port `p` up to the shorter of the two lengths, leaving
/// the port's tail as the server provided it. Ports beyond the available
/// channels, and channels beyond the available ports, are left alone.
pub fn flush_audio_outputs<S: Copy>(bufs: &Vec<AudioBusBuffer<S>>, ports: &mut Vec<Vec<S>>)
    ensures
        final(ports)@.len() == old(ports)@.len(),
        views_of(final(ports)@) == write_back_all(
            flat_channel_views(bufs@, bufs@.len() as int),
            views_of(old(ports)@),
        ),
{
    let ghost target = write_back_all(
        flat_channel_views(bufs@, bufs@.len() as int),
        views_of(old(ports)@),
    );
    let n = bufs.len();
    let plen = ports.len();
    let mut p: usize = 0;
    let mut b: usize = 0;
    while b < n
        invariant
            n == bufs@.len(),
            plen == ports@.len(),
            plen == old(ports)@.len(),
            target == write_back_all(
                flat_channel_views(bufs@, n as int),
                views_of(old(ports)@),
            ),
            b <= n,
            p as int == clamp(channels_before(bufs@, b as int), plen as int),
            p <= plen,
            forall|j: int| p <= j < plen ==> ports@[j] == old(ports)@[j],
            forall|j: int| 0 <= j < p ==> (#[trigger] ports@[j])@ == target[j],
        decreases n - b,
    {
        let count = bufs[b].channel_buffers.len();
        let mut c: usize = 0;
        while c < count
            invariant
                b < n,
                n == bufs@.len(),
                count == bufs@[b as int].channel_buffers@.len(),
                plen == ports@.len(),
                plen == old(ports)@.len(),
                target == write_back_all(
                    flat_channel_views(bufs@, n as int),
                    views_of(old(ports)@),
                ),
                c <= count,
                channels_before(bufs@, b as int) >= 0,
                p as int == clamp(channels_before(bufs@, b as int) + c as int, plen as int),
                p <= plen,
                forall|j: int| p <= j < plen ==> ports@[j] == old(ports)@[j],
                forall|j: int| 0 <= j < p ==> (#[trigger] ports@[j])@ == target[j],
            decreases count - c,
        {
            if p < plen {
                proof {
                    lemma_flat_index(bufs@, n as int, b as int, c as int);
                    lemma_flat_len(bufs@, n as int);
                    assert(views_of(old(ports)@)[p as int] == old(ports)@[p as int]@);
                }
                let merged = merged_vec(&bufs[b].channel_buffers[c], &ports[p]);
                ports.set(p, merged);
                proof {
                    assert(ports@[p as int]@ == target[p as int]);
                }
                p += 1;
            }
            c += 1;
        }
        proof {
            assert(channels_before(bufs@, b as int + 1) == channels_before(bufs@, b as int)
                + count);
        }
        b += 1;
    }
    proof {
        lemma_flat_len(bufs@, n as int);
        assert(views_of(ports@) =~= target);
    }
}

/// Every channel of a round-tripped period survives unchanged: when the
/// input and output port lists have the same shape and every port's
/// length fits the capacity, capturing the inputs and writing the same
/// sequences straight back yields the inputs, port for port. This is the
/// per-period guarantee for an application that copies input to output
/// over buses of equal channel count.
pub proof fn lemma_period_round_trip<S>(in_ports: Seq<Seq<S>>, out_ports: Seq<Seq<S>>, max: int)
    requires
        out_ports.len() == in_ports.len(),
        forall|p: int| 0 <= p < in_ports.len() ==> (#[trigger] in_ports[p]).len() <= max,
        forall|p: int|
            0 <= p < in_ports.len() ==> (#[trigger] out_ports[p]).len() == in_ports[p].len(),
    ensures
        write_back_all(captured_all(in_ports, max), out_ports) == in_ports,
{
    assert forall|p: int| 0 <= p < in_ports.len() implies write_back_all(
        captured_all(in_ports, max),
        out_ports,
    )[p] == in_ports[p] by {
        crate::audio::lemma_round_trip(in_ports[p], out_ports[p], max);
    }
    assert(write_back_all(captured_all(in_ports, max), out_ports) =~= in_ports);
}

/// The per-period state of an active stream: the application's handler and
/// the pre-allocated bus and controller buffers it processes.
pub struct RtBridge<S, P> {
    pub rt_process_handler: P,
    pub audio_in_buffers: Vec<AudioBusBuffer<S>>,
    pub audio_out_buffers: Vec<AudioBusBuffer<S>>,
    pub midi_in_buffers: Vec<MidiControllerBuffer>,
    pub midi_out_buffers: Vec<MidiControllerBuffer>,
    pub stream_info: StreamInfo,
    pub max_audio_buffer_size: usize,
}

impl<S: Copy, P: RtProcessHandler<S>> RtBridge<S, P> {
    /// The input buffers keep the negotiated shape and the shared
    /// capacity, so every period can be collected.
    pub open spec fn inputs_wf(self) -> bool {
        &&& forall|b: int|
            0 <= b < self.audio_in_buffers@.len() ==> (#[trigger] self.audio_in_buffers@[b]).max_frames
                == self.max_audio_buffer_size
        &&& forall|b: int|
            0 <= b < self.audio_in_buffers@.len() ==> (#[trigger] self.audio_in_buffers@[b]).channel_buffers@.len()
                >= 1
    }

    /// Allocates one bus buffer per bus and one controller buffer per
    /// controller, all pre-sized before the real-time path starts, and
    /// runs the application's one-time `init` hook with the stream
    /// description.
    pub fn new(rt_process_handler: P, stream_info: StreamInfo, silence: S) -> (r: RtBridge<S, P>)
        requires
            forall|b: int|
                0 <= b < stream_info.audio_in@.len() ==> (#[trigger] stream_info.audio_in@[b]).channels
                    >= 1,
            forall|b: int|
                0 <= b < stream_info.audio_out@.len() ==> (#[trigger] stream_info.audio_out@[b]).channels
                    >= 1,
        ensures
            r.stream_info == stream_info,
            r.max_audio_buffer_size == stream_info.max_audio_buffer_size,
            r.audio_in_buffers@.len() == stream_info.audio_in@.len(),
            forall|b: int|
                0 <= b < stream_info.audio_in@.len() ==> {
                    &&& (#[trigger] r.audio_in_buffers@[b]).channel_buffers@.len()
                        == stream_info.audio_in@[b].channels
                    &&& r.audio_in_buffers@[b].max_frames == stream_info.max_audio_buffer_size
                    &&& r.audio_in_buffers@[b].silence == silence
                },
            r.audio_out_buffers@.len() == stream_info.audio_out@.len(),
            forall|b: int|
                0 <= b < stream_info.audio_out@.len() ==> {
                    &&& (#[trigger] r.audio_out_buffers@[b]).channel_buffers@.len()
                        == stream_info.audio_out@[b].channels
                    &&& r.audio_out_buffers@[b].max_frames == stream_info.max_audio_buffer_size
                    &&& r.audio_out_buffers@[b].silence == silence
                },
            r.midi_in_buffers@.len() == stream_info.midi_in@.len(),
            forall|i: int|
                0 <= i < stream_info.midi_in@.len() ==> (#[trigger] r.midi_in_buffers@[i])@.len()
                    == 0 && r.midi_in_buffers@[i].wf(),
            r.midi_out_buffers@.len() == stream_info.midi_out@.len(),
            forall|i: int|
                0 <= i < stream_info.midi_out@.len() ==> (#[trigger] r.midi_out_buffers@[i])@.len()
                    == 0 && r.midi_out_buffers@[i].wf(),
            r.inputs_wf(),
    {
        let mut rt_process_handler = rt_process_handler;
        rt_process_handler.init(&stream_info);
        let max = stream_info.max_audio_buffer_size;
        let mut audio_in_buffers: Vec<AudioBusBuffer<S>> = Vec::new();
        let n_in = stream_info.audio_in.len();
        let mut b: usize = 0;
        while b < n_in
            invariant
                n_in == stream_info.audio_in@.len(),
                b <= n_in,
                forall|j: int|
                    0 <= j < n_in ==> (#[trigger] stream_info.audio_in@[j]).channels >= 1,
                audio_in_buffers@.len() == b,
                forall|j: int|
                    0 <= j < b ==> {
                        &&& (#[trigger] audio_in_buffers@[j]).channel_buffers@.len()
                            == stream_info.audio_in@[j].channels
                        &&& audio_in_buffers@[j].max_frames == max
                        &&& audio_in_buffers@[j].silence == silence
                    },
            decreases n_in - b,
        {
            audio_in_buffers.push(
                AudioBusBuffer::new(stream_info.audio_in[b].channels, max, silence),
            );
            b += 1;
        }
        let mut audio_out_buffers: Vec<AudioBusBuffer<S>> = Vec::new();
        let n_out = stream_info.audio_out.len();
        let mut b2: usize = 0;
        while b2 < n_out
            invariant
                n_out == stream_info.audio_out@.len(),
                b2 <= n_out,
                forall|j: int|
                    0 <= j < n_out ==> (#[trigger] stream_info.audio_out@[j]).channels >= 1,
                audio_out_buffers@.len() == b2,
                forall|j: int|
                    0 <= j < b2 ==> {
                        &&& (#[trigger] audio_out_buffers@[j]).channel_buffers@.len()
                            == stream_info.audio_out@[j].channels
                        &&& audio_out_buffers@[j].max_frames == max
                        &&& audio_out_buffers@[j].silence == silence
                    },
            decreases n_out - b2,
        {
            audio_out_buffers.push(
                AudioBusBuffer::new(stream_info.audio_out[b2].channels, max, silence),
            );
            b2 += 1;
        }
        let mut midi_in_buffers: Vec<MidiControllerBuffer> = Vec::new();
        let n_mi = stream_info.midi_in.len();
        let mut i: usize = 0;
        while i < n_mi
            invariant
                i <= n_mi,
                midi_in_buffers@.len() == i,
                forall|j: int|
                    0 <= j < i ==> (#[trigger] midi_in_buffers@[j])@.len() == 0
                        && midi_in_buffers@[j].wf(),
            decreases n_mi - i,
        {
            midi_in_buffers.push(MidiControllerBuffer::new());
            i += 1;
        }
        let mut midi_out_buffers: Vec<MidiControllerBuffer> = Vec::new();
        let n_mo = stream_info.midi_out.len();
        let mut k: usize = 0;
        while k < n_mo
            invariant
                k <= n_mo,
                midi_out_buffers@.len() == k,
                forall|j: int|
                    0 <= j < k ==> (#[trigger] midi_out_buffers@[j])@.len() == 0
                        && midi_out_buffers@[j].wf(),
            decreases n_mo - k,
        {
            midi_out_buffers.push(MidiControllerBuffer::new());
            k += 1;
        }
        RtBridge {
            rt_process_handler,
            audio_in_buffers,
            audio_out_buffers,
            midi_in_buffers,
            midi_out_buffers,
            stream_info,
            max_audio_buffer_size: max as usize,
        }
    }

    /// One period: collect the inputs in fixed port order, determine the
    /// frame count (from the first output port when there are no input
    /// buses), clear the outputs, collect the MIDI deliveries, run the
    /// application's process function exactly once, and write whatever it
    /// left in the output buffers back over the output ports. The MIDI-out
    /// buffers afterwards hold what the application queued, for the caller
    /// to write out.
    pub fn process(
        &mut self,
        audio_in_ports: &Vec<Vec<S>>,
        midi_in_events: &Vec<Vec<RawMidi>>,
        audio_out_ports: &mut Vec<Vec<S>>,
    ) -> (frames: usize)
        requires
            old(self).inputs_wf(),
            audio_in_ports@.len() == channels_before(
                old(self).audio_in_buffers@,
                old(self).audio_in_buffers@.len() as int,
            ),
            midi_in_events@.len() == old(self).midi_in_buffers@.len(),
        ensures
            final(self).stream_info == old(self).stream_info,
            final(self).max_audio_buffer_size == old(self).max_audio_buffer_size,
            final(self).inputs_wf(),
            final(self).audio_in_buffers@.len() == old(self).audio_in_buffers@.len(),
            flat_channel_views(
                final(self).audio_in_buffers@,
                final(self).audio_in_buffers@.len() as int,
            ) == captured_all(views_of(audio_in_ports@), old(self).max_audio_buffer_size as int),
            final(self).midi_in_buffers@.len() == old(self).midi_in_buffers@.len(),
            forall|i: int|
                0 <= i < old(self).midi_in_buffers@.len()
                    ==> (#[trigger] final(self).midi_in_buffers@[i])@ == accepted(
                    midi_in_events@[i].deep_view(),
                ),
            final(audio_out_ports)@.len() == old(audio_out_ports)@.len(),
            views_of(final(audio_out_ports)@) == write_back_all(
                flat_channel_views(
                    final(self).audio_out_buffers@,
                    final(self).audio_out_buffers@.len() as int,
                ),
                views_of(old(audio_out_ports)@),
            ),
            frames as int == (if old(self).audio_in_buffers@.len() > 0 {
                clamp(
                    views_of(audio_in_ports@)[audio_in_ports@.len() - 1].len() as int,
                    old(self).max_audio_buffer_size as int,
                )
            } else if old(audio_out_ports)@.len() > 0 {
                old(audio_out_ports)@[0]@.len() as int
            } else {
                0
            }),
    {
        let max = self.max_audio_buffer_size;
        let mut frames = collect_audio_inputs(&mut self.audio_in_buffers, audio_in_ports, max);
        if self.audio_in_buffers.len() == 0 {
            if audio_out_ports.len() > 0 {
                frames = audio_out_ports[0].len();
            }
        } else {
            proof {
                lemma_channels_before_mono(
                    old(self).audio_in_buffers@,
                    old(self).audio_in_buffers@.len() as int - 1,
                    old(self).audio_in_buffers@.len() as int,
                );
                assert(channels_before(
                    old(self).audio_in_buffers@,
                    old(self).audio_in_buffers@.len() as int,
                ) == channels_before(
                    old(self).audio_in_buffers@,
                    old(self).audio_in_buffers@.len() as int - 1,
                ) + old(self).audio_in_buffers@.last().channel_buffers@.len());
            }
        }
        prepare_audio_outputs(&mut self.audio_out_buffers, frames);
        collect_midi_inputs(&mut self.midi_in_buffers, midi_in_events);
        clear_midi_outputs(&mut self.midi_out_buffers);
        let sample_rate = self.stream_info.sample_rate;
        self.rt_process_handler.process(
            &self.audio_in_buffers,
            &mut self.audio_out_buffers,
            frames,
            &self.midi_in_buffers,
            &mut self.midi_out_buffers,
            sample_rate,
        );
        flush_audio_outputs(&self.audio_out_buffers, audio_out_ports);
        frames
    }
}

} // verus!
