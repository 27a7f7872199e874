use vstd::prelude::*;
use vstd::slice::slice_to_vec;

verus! {

/// The most payload bytes one event may carry.
pub const MAX_MIDI_DATA_BYTES: usize = 8;

/// How many events one controller buffer holds per period.
pub const MAX_MIDI_BUFFER_EVENTS: usize = 256;

/// A payload a controller buffer accepts: non-empty and no longer than
/// `MAX_MIDI_DATA_BYTES`.
pub open spec fn valid_payload(bytes: Seq<u8>) -> bool {
    1 <= bytes.len() <= MAX_MIDI_DATA_BYTES
}

/// One raw event as the server delivered it: a timestamp relative to the
/// period start and the raw payload bytes.
pub struct RawMidi {
    pub time: u32,
    pub bytes: Vec<u8>,
}

impl View for RawMidi {
    type V = (u32, Seq<u8>);

    open spec fn view(&self) -> (u32, Seq<u8>) {
        (self.time, self.bytes@)
    }
}

impl DeepView for RawMidi {
    type V = (u32, Seq<u8>);

    open spec fn deep_view(&self) -> (u32, Seq<u8>) {
        self.view()
    }
}

/// One buffered event: a timestamp relative to the period start and a
/// bounded payload.
pub struct MidiEvent {
    pub delta_frames: u32,
    data: Vec<u8>,
}

impl View for MidiEvent {
    type V = (u32, Seq<u8>);

    closed spec fn view(&self) -> (u32, Seq<u8>) {
        (self.delta_frames, self.data@)
    }
}

impl DeepView for MidiEvent {
    type V = (u32, Seq<u8>);

    open spec fn deep_view(&self) -> (u32, Seq<u8>) {
        self.view()
    }
}

impl MidiEvent {
    /// The payload bytes.
    pub fn data(&self) -> (r: &Vec<u8>)
        ensures
            r@ == self@.1,
    {
        &self.data
    }

    pub open spec fn wf(self) -> bool {
        valid_payload(self@.1)
    }
}

/// Why one push was refused; the event is dropped, nothing else changes.
#[derive(Clone, Copy, Debug, PartialEq, Eq, Structural)]
pub enum MidiPushError {
    /// The payload was empty or longer than `MAX_MIDI_DATA_BYTES`.
    MalformedData,
    /// The buffer already holds `MAX_MIDI_BUFFER_EVENTS` events.
    BufferFull,
}

/// What a sequence of raw deliveries leaves in a cleared buffer: the valid
/// events in delivery order, each accepted only while the buffer still has
/// room, so an overflowing period keeps the earliest events.
pub open spec fn accepted(evts: Seq<(u32, Seq<u8>)>) -> Seq<(u32, Seq<u8>)>
    decreases evts.len(),
{
    if evts.len() == 0 {
        Seq::<(u32, Seq<u8>)>::empty()
    } else {
        let pre = accepted(evts.drop_last());
        if valid_payload(evts.last().1) && pre.len() < MAX_MIDI_BUFFER_EVENTS {
            pre.push(evts.last())
        } else {
            pre
        }
    }
}

pub proof fn lemma_accepted_len(evts: Seq<(u32, Seq<u8>)>)
    ensures
        accepted(evts).len() <= MAX_MIDI_BUFFER_EVENTS,
        accepted(evts).len() <= evts.len(),
    decreases evts.len(),
{
    if evts.len() > 0 {
        lemma_accepted_len(evts.drop_last());
    }
}

/// A fixed-capacity, time-ordered sequence of raw MIDI events, cleared and
/// refilled every period. Its view is the sequence of buffered
/// (timestamp, payload) pairs.
pub struct MidiControllerBuffer {
    events: Vec<MidiEvent>,
}

impl View for MidiControllerBuffer {
    type V = Seq<(u32, Seq<u8>)>;

    closed spec fn view(&self) -> Seq<(u32, Seq<u8>)> {
        self.events.deep_view()
    }
}

impl MidiControllerBuffer {
    pub closed spec fn wf(self) -> bool {
        &&& self.events@.len() <= MAX_MIDI_BUFFER_EVENTS
        &&& forall|i: int| 0 <= i < self.events@.len() ==> (#[trigger] self.events@[i]).wf()
    }

    /// An empty buffer.
    pub fn new() -> (r: MidiControllerBuffer)
        ensures
            r@.len() == 0,
            r.wf(),
    {
        MidiControllerBuffer { events: Vec::new() }
    }

    /// How many events are buffered.
    pub fn len(&self) -> (r: usize)
        ensures
            r == self@.len(),
    {
        self.events.len()
    }

    /// Drops all buffered events.
    pub fn clear(&mut self)
        ensures
            final(self)@.len() == 0,
            final(self).wf(),
    {
        self.events.clear();
    }

    /// The buffered events, oldest first.
    pub fn events(&self) -> (r: &Vec<MidiEvent>)
        ensures
            r.deep_view() == self@,
    {
        &self.events
    }

    /// Appends one raw event. A malformed payload or a full buffer drops
    /// exactly this event and reports why; the buffer never changes on a
    /// refusal.
    pub fn push_raw(&mut self, time: u32, bytes: &[u8]) -> (r: Result<(), MidiPushError>)
        requires
            old(self).wf(),
        ensures
            final(self).wf(),
            ({
                if !valid_payload(bytes@) {
                    r == Result::<(), MidiPushError>::Err(MidiPushError::MalformedData)
                        && final(self)@ == old(self)@
                } else if old(self)@.len() >= MAX_MIDI_BUFFER_EVENTS {
                    r == Result::<(), MidiPushError>::Err(MidiPushError::BufferFull)
                        && final(self)@ == old(self)@
                } else {
                    r == Result::<(), MidiPushError>::Ok(())
                        && final(self)@ == old(self)@.push((time, bytes@))
                }
            }),
    {
        if bytes.len() == 0 || bytes.len() > MAX_MIDI_DATA_BYTES {
            proof {
                assert(final(self)@ =~= old(self)@);
            }
            return Err(MidiPushError::MalformedData);
        }
        if self.events.len() >= MAX_MIDI_BUFFER_EVENTS {
            proof {
                assert(final(self)@ =~= old(self)@);
            }
            return Err(MidiPushError::BufferFull);
        }
        let data = slice_to_vec(bytes);
        self.events.push(MidiEvent { delta_frames: time, data });
        proof {
            assert(final(self)@ =~= old(self)@.push((time, bytes@)));
        }
        Ok(())
    }

    /// The buffer a period's deliveries leave behind: every delivered
    /// event pushed in order into an empty buffer, dropping (only) those
    /// that a push refuses, so it holds exactly `accepted` of the
    /// deliveries.
    pub fn from_delivered(delivered: &Vec<RawMidi>) -> (r: MidiControllerBuffer)
        ensures
            r.wf(),
            r@ == accepted(delivered.deep_view()),
    {
        let mut buf = MidiControllerBuffer::new();
        let n = delivered.len();
        let mut i: usize = 0;
        while i < n
            invariant
                n == delivered@.len(),
                i <= n,
                buf.wf(),
                buf@ == accepted(delivered.deep_view().take(i as int)),
            decreases n - i,
        {
            proof {
                lemma_accepted_len(delivered.deep_view().take(i as int));
                assert(delivered.deep_view()[i as int] == delivered@[i as int]@);
            }
            let ev = &delivered[i];
            let _ = buf.push_raw(ev.time, ev.bytes.as_slice());
            proof {
                let t = delivered.deep_view().take(i + 1);
                assert(t.drop_last() =~= delivered.deep_view().take(i as int));
                assert(t.last() == delivered.deep_view()[i as int]);
                assert(buf@ =~= accepted(t));
            }
            i += 1;
        }
        proof {
            assert(delivered.deep_view().take(n as int) =~= delivered.deep_view());
        }
        buf
    }

    /// Clears the buffer and refills it from a period's deliveries.
    pub fn fill_from(&mut self, delivered: &Vec<RawMidi>)
        ensures
            final(self).wf(),
            final(self)@ == accepted(delivered.deep_view()),
    {
        *self = MidiControllerBuffer::from_delivered(delivered);
    }
}

/// When every delivered payload is valid, a period's deliveries are kept
/// in order and only the excess beyond the buffer's capacity is dropped:
/// the buffer holds exactly the first `MAX_MIDI_BUFFER_EVENTS` deliveries
/// (all of them, when they fit).
pub proof fn lemma_overflow_drops_only_excess(evts: Seq<(u32, Seq<u8>)>)
    requires
        forall|i: int| 0 <= i < evts.len() ==> valid_payload((#[trigger] evts[i]).1),
    ensures
        evts.len() <= MAX_MIDI_BUFFER_EVENTS ==> accepted(evts) == evts,
        evts.len() > MAX_MIDI_BUFFER_EVENTS ==> accepted(evts) == evts.take(
            MAX_MIDI_BUFFER_EVENTS as int,
        ),
    decreases evts.len(),
{
    if evts.len() > 0 {
        lemma_overflow_drops_only_excess(evts.drop_last());
        lemma_accepted_len(evts.drop_last());
        if evts.len() <= MAX_MIDI_BUFFER_EVENTS {
            assert(evts.drop_last().len() <= MAX_MIDI_BUFFER_EVENTS);
            assert(accepted(evts) =~= evts);
        } else if evts.len() == MAX_MIDI_BUFFER_EVENTS + 1 {
            assert(accepted(evts.drop_last()) == evts.drop_last());
            assert(accepted(evts) =~= evts.take(MAX_MIDI_BUFFER_EVENTS as int));
        } else {
            assert(accepted(evts.drop_last()) == evts.drop_last().take(
                MAX_MIDI_BUFFER_EVENTS as int,
            ));
            assert(accepted(evts) =~= evts.take(MAX_MIDI_BUFFER_EVENTS as int));
        }
    } else {
        assert(accepted(evts) =~= evts);
    }
}

} // verus!
