use vstd::prelude::*;

verus! {

/// `l` limited to the capacity `max`.
pub open spec fn clamp(l: int, max: int) -> int {
    if l <= max {
        l
    } else {
        max
    }
}

/// What reading one server port buffer leaves in a channel buffer: the
/// port's samples, truncated to the pre-allocated capacity so the copy can
/// never run past it.
pub open spec fn captured<S>(port: Seq<S>, max: int) -> Seq<S> {
    port.take(clamp(port.len() as int, max))
}

/// What clearing a channel for a period of `frames` frames leaves in it:
/// silence, with the logical length again limited to the capacity.
pub open spec fn cleared<S>(frames: int, max: int, silence: S) -> Seq<S> {
    Seq::new(clamp(frames, max) as nat, |i: int| silence)
}

/// What writing a channel back over one server port buffer leaves there:
/// the channel's samples up to the shorter of the two lengths, with the
/// port's own tail kept as the server provided it.
pub open spec fn write_back<S>(chan: Seq<S>, port: Seq<S>) -> Seq<S> {
    Seq::new(
        port.len(),
        |i: int|
            if i < clamp(chan.len() as int, port.len() as int) {
                chan[i]
            } else {
                port[i]
            },
    )
}

/// One bus's worth of per-channel sample buffers. Each channel is
/// pre-allocated to `max_frames` samples and only logically resized per
/// period; `frames` is the current period's logical length.
pub struct AudioBusBuffer<S> {
    pub channel_buffers: Vec<Vec<S>>,
    pub frames: usize,
    pub max_frames: usize,
    pub silence: S,
}

/// The mathematical contents of a bus buffer: one sample sequence per
/// channel, in channel order.
pub open spec fn channel_views<S>(buf: AudioBusBuffer<S>) -> Seq<Seq<S>> {
    Seq::new(buf.channel_buffers@.len(), |c: int| buf.channel_buffers@[c]@)
}

/// Builds a vector holding `len` copies of `silence`.
pub fn silence_vec<S: Copy>(len: usize, silence: S) -> (r: Vec<S>)
    ensures
        r@ == Seq::new(len as nat, |i: int| silence),
{
    let mut r: Vec<S> = Vec::new();
    let mut i: usize = 0;
    while i < len
        invariant
            i <= len,
            r@ =~= Seq::new(i as nat, |j: int| silence),
        decreases len - i,
    {
        r.push(silence);
        i += 1;
    }
    proof {
        assert(r@ =~= Seq::new(len as nat, |i: int| silence));
    }
    r
}

/// Copies a port buffer, truncated to the capacity `max`.
pub fn captured_vec<S: Copy>(port: &Vec<S>, max: usize) -> (r: Vec<S>)
    ensures
        r@ == captured(port@, max as int),
{
    let n = if port.len() <= max {
        port.len()
    } else {
        max
    };
    let mut r: Vec<S> = Vec::new();
    let mut i: usize = 0;
    while i < n
        invariant
            n <= port@.len(),
            i <= n,
            r@ =~= port@.take(i as int),
        decreases n - i,
    {
        r.push(port[i]);
        i += 1;
    }
    proof {
        assert(r@ =~= captured(port@, max as int));
    }
    r
}

/// Merges a channel over a port buffer: the channel's prefix, the port's
/// tail, and the port's length.
pub fn merged_vec<S: Copy>(chan: &Vec<S>, port: &Vec<S>) -> (r: Vec<S>)
    ensures
        r@ == write_back(chan@, port@),
{
    let n = port.len();
    let k = if chan.len() <= n {
        chan.len()
    } else {
        n
    };
    let mut r: Vec<S> = Vec::new();
    let mut i: usize = 0;
    while i < n
        invariant
            n == port@.len(),
            k == clamp(chan@.len() as int, n as int),
            i <= n,
            r@.len() == i,
            forall|j: int|
                0 <= j < i ==> r@[j] == (if j < k {
                    chan@[j]
                } else {
                    port@[j]
                }),
        decreases n - i,
    {
        if i < k {
            r.push(chan[i]);
        } else {
            r.push(port[i]);
        }
        i += 1;
    }
    proof {
        assert(r@ =~= write_back(chan@, port@));
    }
    r
}

impl<S: Copy> AudioBusBuffer<S> {
    /// All channels share one logical length that never exceeds the
    /// capacity.
    pub open spec fn wf(self) -> bool {
        &&& self.frames <= self.max_frames
        &&& forall|c: int|
            0 <= c < self.channel_buffers@.len() ==> (#[trigger] self.channel_buffers@[c])@.len()
                <= self.max_frames
    }

    /// A buffer of `channels` empty channels with capacity
    /// `max_buffer_size`.
    pub fn new(channels: u16, max_buffer_size: u32, silence: S) -> (r: AudioBusBuffer<S>)
        requires
            channels >= 1,
        ensures
            r.channel_buffers@.len() == channels,
            forall|c: int| 0 <= c < channels ==> (#[trigger] r.channel_buffers@[c])@.len() == 0,
            r.frames == 0,
            r.max_frames == max_buffer_size,
            r.silence == silence,
            r.wf(),
    {
        let mut channel_buffers: Vec<Vec<S>> = Vec::new();
        let mut c: usize = 0;
        let n = channels as usize;
        while c < n
            invariant
                c <= n,
                channel_buffers@.len() == c,
                forall|j: int| 0 <= j < c ==> (#[trigger] channel_buffers@[j])@.len() == 0,
            decreases n - c,
        {
            channel_buffers.push(Vec::new());
            c += 1;
        }
        AudioBusBuffer {
            channel_buffers,
            frames: 0,
            max_frames: max_buffer_size as usize,
            silence,
        }
    }

    /// Clears every channel to silence and logically resizes the bus to
    /// the period's frame count, whatever the previous period left in it.
    pub fn clear_and_resize(&mut self, frames: usize)
        ensures
            final(self).channel_buffers@.len() == old(self).channel_buffers@.len(),
            channel_views(*final(self)) == Seq::new(
                old(self).channel_buffers@.len(),
                |c: int| cleared(frames as int, old(self).max_frames as int, old(self).silence),
            ),
            final(self).frames == clamp(frames as int, old(self).max_frames as int),
            final(self).max_frames == old(self).max_frames,
            final(self).silence == old(self).silence,
            final(self).wf(),
    {
        let len = if frames <= self.max_frames {
            frames
        } else {
            self.max_frames
        };
        let n = self.channel_buffers.len();
        let mut c: usize = 0;
        while c < n
            invariant
                n == self.channel_buffers@.len(),
                c <= n,
                self.max_frames == old(self).max_frames,
                self.silence == old(self).silence,
                self.frames == old(self).frames,
                len == clamp(frames as int, self.max_frames as int),
                forall|j: int|
                    c <= j < n ==> self.channel_buffers@[j] == old(self).channel_buffers@[j],
                forall|j: int|
                    0 <= j < c ==> (#[trigger] self.channel_buffers@[j])@ == cleared(
                        frames as int,
                        self.max_frames as int,
                        self.silence,
                    ),
            decreases n - c,
        {
            let v = silence_vec(len, self.silence);
            self.channel_buffers.set(c, v);
            c += 1;
        }
        self.frames = len;
        proof {
            assert(channel_views(*self) =~= Seq::new(
                old(self).channel_buffers@.len(),
                |c: int| cleared(frames as int, old(self).max_frames as int, old(self).silence),
            ));
        }
    }
}

/// Capturing a port and writing the channel straight back restores the
/// port exactly: when a period's frame count fits the negotiated capacity
/// and an output port has the same length as the input port, an
/// application that copies its input to its output unchanged puts the
/// input's samples on the output port, sample for sample.
pub proof fn lemma_round_trip<S>(input: Seq<S>, out_port: Seq<S>, max: int)
    requires
        input.len() <= max,
        out_port.len() == input.len(),
    ensures
        write_back(captured(input, max), out_port) == input,
{
    assert(write_back(captured(input, max), out_port) =~= input);
}

} // verus!
