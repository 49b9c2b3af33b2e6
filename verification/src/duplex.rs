//! Simultaneous input/output audio processing: the errors of duplex streams, and how the output
//! side tells the input side the sample rate it runs at.
use vstd::prelude::*;

verus! {

#[verifier::external_type_specification]
#[verifier::external_body]
#[verifier::reject_recursive_types(T)]
pub struct ExProducer<T>(rtrb::Producer<T>);

#[verifier::external_type_specification]
#[verifier::external_body]
#[verifier::reject_recursive_types(T)]
pub struct ExConsumer<T>(rtrb::Consumer<T>);

/// The capacity of the ring buffer a producer writes to (`Producer::buffer().capacity()`): the
/// most values it holds at once, fixed when it was made.
pub uninterp spec fn producer_capacity(p: rtrb::Producer<u32>) -> nat;

/// The capacity of the ring buffer a consumer reads from (`Consumer::buffer().capacity()`).
pub uninterp spec fn consumer_capacity(c: rtrb::Consumer<u32>) -> nat;

/// The values written into the ring buffer through a producer so far, oldest first.
pub uninterp spec fn producer_written(p: rtrb::Producer<u32>) -> Seq<u32>;

/// `rtrb::RingBuffer::new`: the two ends of a new ring buffer with room for `capacity` values,
/// nothing written yet. Its storage is a `Vec` of that capacity, which must stay within
/// `isize::MAX` bytes (else `Vec::with_capacity` panics).
/// That both ends refer to the same ring buffer is left unsaid: rtrb tells ring buffers apart
/// by address only.
#[verifier::external_body]
fn ring_buffer_u32(capacity: usize) -> (r: (rtrb::Producer<u32>, rtrb::Consumer<u32>))
    requires
        capacity * 4 <= isize::MAX,
    ensures
        producer_capacity(r.0) == capacity,
        consumer_capacity(r.1) == capacity,
        producer_written(r.0) == Seq::<u32>::empty(),
{
    rtrb::RingBuffer::new(capacity)
}

/// `rtrb::Producer::push`: whether the value was queued. When it was, `value` is written at the
/// tail; when the ring buffer is full nothing is written. The ring buffer holds at most the
/// values written through the producer, so it can only be full, and the push refused, once at
/// least `capacity` values were written. Beyond that, whether it is full depends on what the
/// consumer has taken, so that is left unsaid. The ring buffer keeps its capacity.
#[verifier::external_body]
fn push_u32(producer: &mut rtrb::Producer<u32>, value: u32) -> (r: bool)
    ensures
        producer_capacity(*final(producer)) == producer_capacity(*old(producer)),
        producer_written(*final(producer)) == if r {
            producer_written(*old(producer)).push(value)
        } else {
            producer_written(*old(producer))
        },
        !r ==> producer_written(*old(producer)).len() >= producer_capacity(*old(producer)),
{
    producer.push(value).is_ok()
}

/// Represents errors that can occur during duplex stream operations.
#[derive(Debug)]
pub enum DuplexCallbackError<InputError, OutputError> {
    /// No input channels given
    NoInputChannels,
    /// An error occurred in the input stream
    InputError(InputError),
    /// An error occurred in the output stream
    OutputError(OutputError),
}

/// The output side of a duplex stream: the sample rate it last told the input side, and the
/// channel it tells it through.
pub struct SamplerateSender {
    send_samplerate: rtrb::Producer<u32>,
    current_samplerate: u32,
    handed: Ghost<Seq<u32>>,
}

impl SamplerateSender {
    /// The sample rate last told to the input side (zero before any).
    pub closed spec fn spec_current(&self) -> u32 {
        self.current_samplerate
    }

    /// Every sample rate handed to the channel, oldest first, whether the channel took it or
    /// not.
    pub closed spec fn spec_handed(&self) -> Seq<u32> {
        self.handed@
    }

    /// The producer end of the channel the sample rate is told through.
    pub closed spec fn spec_channel(&self) -> rtrb::Producer<u32> {
        self.send_samplerate
    }

    /// A sender on the given channel that has told nothing yet.
    pub fn new(send_samplerate: rtrb::Producer<u32>) -> (r: SamplerateSender)
        ensures
            r.spec_current() == 0,
            r.spec_channel() == send_samplerate,
            r.spec_handed() == Seq::<u32>::empty(),
    {
        SamplerateSender { send_samplerate, current_samplerate: 0, handed: Ghost(Seq::empty()) }
    }

    /// The sample rate last told to the input side.
    pub fn current(&self) -> (r: u32)
        ensures
            r == self.spec_current(),
    {
        self.current_samplerate
    }

    /// Record the outcome of telling the input side `samplerate` through the channel: when it
    /// was queued (`pushed`), it is now the sample rate last told. Returns `pushed`.
    pub fn record_push(&mut self, samplerate: u32, pushed: bool) -> (sent: bool)
        ensures
            sent == pushed,
            final(self).spec_channel() == old(self).spec_channel(),
            final(self).spec_handed() == old(self).spec_handed(),
            final(self).spec_current() == if pushed {
                samplerate
            } else {
                old(self).spec_current()
            },
    {
        if pushed {
            self.current_samplerate = samplerate;
        }
        pushed
    }

    /// Tell the input side that the output runs at `samplerate`, when that differs from what it
    /// was last told; returns whether it was told now. When it is the same, nothing is pushed
    /// and nothing changes. Otherwise `samplerate` is handed to the channel, whose capacity
    /// stays, and the outcome is recorded as `record_push` does: when it was written it is the
    /// rate last told; it is refused only when the channel is full (which needs at least its
    /// capacity written), and then nothing is written and the next call tries again.
    pub fn update(&mut self, samplerate: u32) -> (sent: bool)
        ensures
            samplerate == old(self).spec_current() ==> !sent && *final(self) == *old(self),
            samplerate != old(self).spec_current() ==> final(self).spec_handed() == old(
                self,
            ).spec_handed().push(samplerate),
            samplerate != old(self).spec_current() && !sent ==> producer_written(
                old(self).spec_channel(),
            ).len() >= producer_capacity(old(self).spec_channel()),
            samplerate != old(self).spec_current() && producer_written(
                old(self).spec_channel(),
            ).len() < producer_capacity(old(self).spec_channel()) ==> sent,
            producer_capacity(final(self).spec_channel()) == producer_capacity(
                old(self).spec_channel(),
            ),
            producer_written(final(self).spec_channel()) == if sent {
                producer_written(old(self).spec_channel()).push(samplerate)
            } else {
                producer_written(old(self).spec_channel())
            },
            final(self).spec_current() == if sent {
                samplerate
            } else {
                old(self).spec_current()
            },
    {
        if samplerate == self.current_samplerate {
            return false;
        }
        self.handed = Ghost(self.handed@.push(samplerate));
        let pushed = push_u32(&mut self.send_samplerate, samplerate);
        self.record_push(samplerate, pushed)
    }
}

/// A new sample rate channel between the two sides of a duplex stream, with room for one value:
/// the output side's sender, which has told nothing yet, and the input side's end.
pub fn samplerate_link() -> (r: (SamplerateSender, rtrb::Consumer<u32>))
    ensures
        r.0.spec_current() == 0,
        producer_capacity(r.0.spec_channel()) == 1,
        consumer_capacity(r.1) == 1,
        producer_written(r.0.spec_channel()) == Seq::<u32>::empty(),
        r.0.spec_handed() == Seq::<u32>::empty(),
{
    let (tx, rx) = ring_buffer_u32(1);
    (SamplerateSender::new(tx), rx)
}

} // verus!
