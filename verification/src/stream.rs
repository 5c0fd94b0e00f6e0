//! The frame type and the bounded frame queue that connects the sample
//! generator to the hardware-driven consumer.
//!
//! Amplitudes travel through this module as the raw bit patterns of IEEE-754
//! single-precision numbers, held in plain integers. The queue and all of the
//! bookkeeping around it are therefore reasoned about over integer sequences;
//! only the code at the device boundary interprets the bits as amplitudes.
//! Silence is the all-zero pattern, which is also the bit pattern of the
//! amplitude zero.

use vstd::arithmetic::div_mod::lemma_fundamental_div_mod_converse;
use vstd::prelude::*;

use crossbeam::queue::ArrayQueue;

verus! {

/// A buffer size that keeps latency tolerable at common sample rates while
/// leaving a cushion of roughly one hardware callback's worth of frames.
pub const REASONABLE_BUFFER_SIZE: usize = 2048;

/// The largest capacity a [`SampleQueue`] may be created with. Above this,
/// rounding the capacity up to a power of two would overflow inside the
/// underlying queue.
pub const MAX_QUEUE_CAPACITY: usize = usize::MAX / 2;

/// One frame of two-channel audio: the left and right amplitudes as IEEE-754
/// single-precision bit patterns.
#[derive(Clone, Copy, Debug, PartialEq, Eq, Structural)]
pub struct StereoSample {
    pub left: u32,
    pub right: u32,
}

impl Default for StereoSample {
    /// The default frame is silence on both channels.
    fn default() -> (s: Self)
        ensures
            s == StereoSample::silence(),
    {
        StereoSample { left: 0, right: 0 }
    }
}

impl StereoSample {
    /// The silent frame: amplitude zero on both channels.
    pub open spec fn silence() -> StereoSample {
        StereoSample { left: 0, right: 0 }
    }

    /// Builds the silent frame.
    pub fn new_silence() -> (s: Self)
        ensures
            s == StereoSample::silence(),
    {
        StereoSample { left: 0, right: 0 }
    }

    /// Duplicates one amplitude onto both channels, the shape every frame the
    /// synthesizer emits has.
    pub open spec fn spec_from_mono(amplitude: u32) -> StereoSample {
        StereoSample { left: amplitude, right: amplitude }
    }

    /// Builds a frame that carries the same amplitude on both channels.
    pub fn from_mono(amplitude: u32) -> (s: Self)
        ensures
            s == StereoSample::spec_from_mono(amplitude),
    {
        StereoSample { left: amplitude, right: amplitude }
    }

    /// The frame packed into one integer: the left channel in the high half,
    /// the right channel in the low half.
    pub open spec fn packed(self) -> u64 {
        ((self.left as u64) * 0x1_0000_0000 + (self.right as u64)) as u64
    }

    /// Packs the frame into one integer.
    pub fn pack(self) -> (bits: u64)
        ensures
            bits == self.packed(),
    {
        (self.left as u64) * 0x1_0000_0000 + (self.right as u64)
    }

    /// The frame whose packed form is `bits`.
    pub open spec fn unpacked(bits: u64) -> StereoSample {
        StereoSample { left: (bits / 0x1_0000_0000) as u32, right: (bits % 0x1_0000_0000) as u32 }
    }

    /// Recovers a frame from its packed form.
    pub fn unpack(bits: u64) -> (s: Self)
        ensures
            s == StereoSample::unpacked(bits),
    {
        StereoSample { left: (bits / 0x1_0000_0000) as u32, right: (bits % 0x1_0000_0000) as u32 }
    }

    /// Packing is lossless: unpacking the packed form of any frame gives the
    /// frame back, and the silent frame packs to the all-zero pattern.
    pub proof fn lemma_pack_roundtrip(self)
        ensures
            StereoSample::unpacked(self.packed()) == self,
            StereoSample::silence().packed() == 0,
    {
        lemma_fundamental_div_mod_converse(
            self.packed() as int,
            0x1_0000_0000,
            self.left as int,
            self.right as int,
        );
    }
}

/// The sample formats an output device may negotiate, mirroring what the
/// device layer can report.
#[derive(Clone, Copy, Debug, PartialEq, Eq, Structural)]
pub enum SampleFormat {
    SignedInt8,
    SignedInt16,
    SignedInt32,
    SignedInt64,
    UnsignedInt8,
    UnsignedInt16,
    UnsignedInt32,
    UnsignedInt64,
    Float32,
    Float64,
}

/// Decides whether a stream can be built for a negotiated sample format.
/// Only 32-bit floating point is implemented; every other format is a fatal
/// setup path by design, never a silent conversion fallback.
pub fn format_is_implemented(format: SampleFormat) -> (ok: bool)
    ensures
        ok <==> format == SampleFormat::Float32,
{
    match format {
        SampleFormat::Float32 => true,
        _ => false,
    }
}

/// What the underlying bounded queue holds, oldest first.
pub uninterp spec fn array_queue_frames(q: ArrayQueue<u64>) -> Seq<u64>;

/// The capacity the underlying bounded queue was created with.
pub uninterp spec fn array_queue_capacity(q: ArrayQueue<u64>) -> nat;

#[verifier::external_type_specification]
#[verifier::external_body]
#[verifier::reject_recursive_types(T)]
pub struct ExArrayQueue<T>(ArrayQueue<T>);

/// Relies on crossbeam's `ArrayQueue::new`: it creates an empty queue of the
/// given capacity, and panics when the capacity is zero or too large to round
/// up to a power of two, so those capacities are excluded here.
#[verifier::external_body]
fn frames_new(capacity: usize) -> (q: ArrayQueue<u64>)
    requires
        1 <= capacity <= usize::MAX / 2,
    ensures
        array_queue_frames(q) == Seq::<u64>::empty(),
        array_queue_capacity(q) == capacity,
{
    ArrayQueue::new(capacity)
}

/// Relies on crossbeam's `ArrayQueue::force_push`: it appends the value, and
/// when the queue is full it first evicts and returns the oldest entry. It
/// never blocks and never fails.
#[verifier::external_body]
fn frames_force_push(q: &mut ArrayQueue<u64>, value: u64) -> (evicted: Option<u64>)
    ensures
        array_queue_capacity(*final(q)) == array_queue_capacity(*old(q)),
        array_queue_frames(*old(q)).len() < array_queue_capacity(*old(q)) ==> {
            &&& array_queue_frames(*final(q)) == array_queue_frames(*old(q)).push(value)
            &&& evicted is None
        },
        array_queue_frames(*old(q)).len() >= array_queue_capacity(*old(q)) ==> {
            &&& array_queue_frames(*final(q)) == array_queue_frames(*old(q)).skip(1).push(value)
            &&& evicted == Some(array_queue_frames(*old(q)).first())
        },
{
    q.force_push(value)
}

/// Relies on crossbeam's `ArrayQueue::pop`: it removes and returns the oldest
/// entry, or returns nothing when the queue is empty. It never blocks.
#[verifier::external_body]
fn frames_pop(q: &mut ArrayQueue<u64>) -> (popped: Option<u64>)
    ensures
        array_queue_capacity(*final(q)) == array_queue_capacity(*old(q)),
        array_queue_frames(*old(q)).len() == 0 ==> {
            &&& array_queue_frames(*final(q)) == array_queue_frames(*old(q))
            &&& popped is None
        },
        array_queue_frames(*old(q)).len() > 0 ==> {
            &&& array_queue_frames(*final(q)) == array_queue_frames(*old(q)).skip(1)
            &&& popped == Some(array_queue_frames(*old(q)).first())
        },
{
    q.pop()
}

/// Relies on crossbeam's `ArrayQueue::len`: it returns the number of entries
/// currently in the queue.
#[verifier::external_body]
fn frames_len(q: &ArrayQueue<u64>) -> (n: usize)
    ensures
        n == array_queue_frames(*q).len(),
{
    q.len()
}

/// Relies on crossbeam's `ArrayQueue::capacity`: it returns the capacity the
/// queue was created with.
#[verifier::external_body]
fn frames_capacity(q: &ArrayQueue<u64>) -> (n: usize)
    ensures
        n == array_queue_capacity(*q),
{
    q.capacity()
}

/// One force-push: the new value goes to the back, and when the queue is
/// already full the oldest entry is evicted to make room.
pub open spec fn force_pushed(s: Seq<u64>, cap: nat, value: u64) -> Seq<u64> {
    if s.len() < cap {
        s.push(value)
    } else {
        s.skip(1).push(value)
    }
}

/// Repeated force-pushes of `values`, oldest first, into a queue that holds
/// `s` and was created with capacity `cap`.
pub open spec fn force_pushed_all(s: Seq<u64>, cap: nat, values: Seq<u64>) -> Seq<u64>
    decreases values.len(),
{
    if values.len() == 0 {
        s
    } else {
        force_pushed(force_pushed_all(s, cap, values.drop_last()), cap, values.last())
    }
}

/// Pushing one more value after a run of force-pushes is the same as extending
/// the run by that value.
pub proof fn lemma_force_pushed_all_snoc(s: Seq<u64>, cap: nat, values: Seq<u64>, v: u64)
    ensures
        force_pushed_all(s, cap, values.push(v)) == force_pushed(
            force_pushed_all(s, cap, values),
            cap,
            v,
        ),
{
    assert(values.push(v).drop_last() =~= values);
}

/// A run of force-pushes keeps a sliding window: afterwards the queue holds
/// the last `cap` of the old contents followed by the pushed values, in
/// order — everything older has been evicted.
pub proof fn lemma_force_push_window(s: Seq<u64>, cap: nat, values: Seq<u64>)
    requires
        1 <= cap,
        s.len() <= cap,
    ensures
        ({
            let total = s.len() + values.len();
            let kept = if total <= cap { total as int } else { cap as int };
            force_pushed_all(s, cap, values) == (s + values).skip(total - kept)
        }),
    decreases values.len(),
{
    let total = s.len() + values.len();
    let kept: int = if total <= cap { total as int } else { cap as int };
    if values.len() == 0 {
        assert((s + values).skip(0) =~= s);
    } else {
        let prior = values.drop_last();
        let v = values.last();
        lemma_force_push_window(s, cap, prior);
        let sub_total = s.len() + prior.len();
        let sub_kept: int = if sub_total <= cap { sub_total as int } else { cap as int };
        let run = force_pushed_all(s, cap, prior);
        assert(run.len() == sub_kept);
        if sub_kept < cap {
            assert(force_pushed_all(s, cap, values) == run.push(v));
            assert(run.push(v) =~= (s + values).skip(total - kept));
        } else {
            assert(force_pushed_all(s, cap, values) == run.skip(1).push(v));
            assert(run.skip(1).push(v) =~= (s + values).skip(total - kept));
        }
    }
}

/// After at least `cap` sequential force-pushes into a queue of capacity
/// `cap`, the queue is exactly full and holds exactly the last `cap` pushed
/// values, in push order.
pub proof fn lemma_force_push_keeps_last(s: Seq<u64>, cap: nat, values: Seq<u64>)
    requires
        1 <= cap,
        s.len() <= cap,
        values.len() >= cap,
    ensures
        force_pushed_all(s, cap, values).len() == cap,
        force_pushed_all(s, cap, values) == values.skip(values.len() - cap),
{
    lemma_force_push_window(s, cap, values);
    let total = s.len() + values.len();
    assert(force_pushed_all(s, cap, values) =~= values.skip(values.len() - cap));
}

/// A bounded FIFO of packed stereo frames with the two policies the real-time
/// path needs: pushing into a full queue evicts the oldest frame instead of
/// blocking, and popping from an empty queue yields silence instead of
/// blocking.
pub struct SampleQueue {
    frames: ArrayQueue<u64>,
}

impl SampleQueue {
    /// What the queue holds, oldest first, as packed frames.
    pub closed spec fn contents(self) -> Seq<u64> {
        array_queue_frames(self.frames)
    }

    /// The fixed capacity the queue was created with.
    pub closed spec fn cap(self) -> nat {
        array_queue_capacity(self.frames)
    }

    /// Every queue this module hands out satisfies this: the capacity is in
    /// the range the constructor accepts, and the length never exceeds it.
    pub open spec fn wf(self) -> bool {
        &&& 1 <= self.cap() <= usize::MAX / 2
        &&& self.contents().len() <= self.cap()
    }

    /// Creates an empty queue with the given fixed capacity.
    pub fn new(capacity: usize) -> (q: Self)
        requires
            1 <= capacity <= MAX_QUEUE_CAPACITY,
        ensures
            q.wf(),
            q.contents() == Seq::<u64>::empty(),
            q.cap() == capacity,
    {
        SampleQueue { frames: frames_new(capacity) }
    }

    /// Inserts a frame without ever blocking or failing: when the queue is
    /// full, the oldest unread frame is evicted to make room.
    pub fn push_or_evict(&mut self, sample: StereoSample)
        requires
            old(self).wf(),
        ensures
            final(self).wf(),
            final(self).cap() == old(self).cap(),
            final(self).contents() == force_pushed(
                old(self).contents(),
                old(self).cap(),
                sample.packed(),
            ),
    {
        let _ = frames_force_push(&mut self.frames, sample.pack());
    }

    /// Removes and returns the oldest frame without ever blocking: an empty
    /// queue yields the silent frame and stays empty.
    pub fn pop(&mut self) -> (sample: StereoSample)
        requires
            old(self).wf(),
        ensures
            final(self).wf(),
            final(self).cap() == old(self).cap(),
            old(self).contents().len() == 0 ==> {
                &&& sample == StereoSample::silence()
                &&& final(self).contents() == old(self).contents()
            },
            old(self).contents().len() > 0 ==> {
                &&& sample == StereoSample::unpacked(old(self).contents().first())
                &&& final(self).contents() == old(self).contents().skip(1)
            },
    {
        match frames_pop(&mut self.frames) {
            Some(bits) => StereoSample::unpack(bits),
            None => StereoSample::new_silence(),
        }
    }

    /// Fills one output buffer's worth of frames, the way the hardware
    /// callback does: each slot takes the oldest queued frame, and once the
    /// queue runs dry the remaining slots take silence. Never blocks.
    pub fn drain(&mut self, frame_count: usize) -> (out: Vec<StereoSample>)
        requires
            old(self).wf(),
        ensures
            final(self).wf(),
            final(self).cap() == old(self).cap(),
            out@.len() == frame_count,
            ({
                let served = if frame_count <= old(self).contents().len() {
                    frame_count as int
                } else {
                    old(self).contents().len() as int
                };
                &&& final(self).contents() == old(self).contents().skip(served)
                &&& forall|i: int|
                    0 <= i < served ==> out@[i] == StereoSample::unpacked(
                        #[trigger] old(self).contents()[i],
                    )
                &&& forall|i: int|
                    served <= i < frame_count ==> #[trigger] out@[i] == StereoSample::silence()
            }),
    {
        let ghost initial = self.contents();
        let ghost served: int = if frame_count <= initial.len() {
            frame_count as int
        } else {
            initial.len() as int
        };
        let mut out: Vec<StereoSample> = Vec::new();
        let mut i: usize = 0;
        while i < frame_count
            invariant
                self.wf(),
                self.cap() == old(self).cap(),
                i <= frame_count,
                out@.len() == i,
                i <= initial.len() ==> self.contents() == initial.skip(i as int),
                i > initial.len() ==> self.contents() == initial.skip(initial.len() as int),
                forall|j: int|
                    0 <= j < i && j < initial.len() ==> out@[j] == StereoSample::unpacked(
                        #[trigger] initial[j],
                    ),
                forall|j: int|
                    initial.len() <= j < i ==> #[trigger] out@[j] == StereoSample::silence(),
            decreases frame_count - i,
        {
            proof {
                if i < initial.len() {
                    assert(initial.skip(i as int).len() > 0);
                    assert(initial.skip(i as int).first() == initial[i as int]);
                    assert(initial.skip(i as int).skip(1) =~= initial.skip(i as int + 1));
                }
            }
            let sample = self.pop();
            out.push(sample);
            i = i + 1;
        }
        proof {
            if frame_count > initial.len() {
                assert(self.contents() == initial.skip(initial.len() as int));
            }
        }
        out
    }

    /// Returns how many frames the queue currently holds.
    pub fn len(&self) -> (n: usize)
        ensures
            n == self.contents().len(),
    {
        frames_len(&self.frames)
    }

    /// Returns the fixed capacity of the queue.
    pub fn capacity(&self) -> (n: usize)
        ensures
            n == self.cap(),
    {
        frames_capacity(&self.frames)
    }
}

} // verus!
