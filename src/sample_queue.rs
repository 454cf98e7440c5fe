//! Fixed-capacity FIFO of audio samples between the capture and playback callbacks.
//!
//! A sample is carried as the bit pattern of its single-precision amplitude: the
//! queue never looks inside a sample, it only keeps samples in order.
use vstd::prelude::*;
use ringbuf::traits::{Consumer, Producer, Split};
use ringbuf::{HeapCons, HeapProd, HeapRb};

verus! {

/// The bit pattern of a silent sample (an amplitude of +0.0).
pub const SILENCE: u32 = 0;

/// A heap ring buffer of `ringbuf`, owned whole (neither end handed out yet).
#[verifier::external_body]
pub struct SampleRing {
    rb: HeapRb<u32>,
}

/// The producer end of a `ringbuf` heap ring buffer that has been split.
#[verifier::external_body]
pub struct ProducerEnd {
    prod: HeapProd<u32>,
}

/// The consumer end of a `ringbuf` heap ring buffer that has been split.
#[verifier::external_body]
pub struct ConsumerEnd {
    cons: HeapCons<u32>,
}

/// The samples held by a ring buffer, oldest first.
pub uninterp spec fn ring_items(r: SampleRing) -> Seq<u32>;

/// The capacity that a ring buffer was made with.
pub uninterp spec fn ring_capacity(r: SampleRing) -> nat;

/// Relies on `HeapRb::new`: an empty ring buffer with room for `capacity` items
/// (it panics on a zero capacity).
#[verifier::external_body]
fn ring_new(capacity: usize) -> (r: SampleRing)
    requires
        capacity > 0,
    ensures
        ring_items(r) == Seq::<u32>::empty(),
        ring_capacity(r) == capacity,
{
    SampleRing { rb: HeapRb::new(capacity) }
}

/// Relies on `Producer::try_push` of `HeapRb`: appends the item unless the buffer
/// is full, in which case the buffer is left as it was.
#[verifier::external_body]
fn ring_push(r: &mut SampleRing, s: u32) -> (accepted: bool)
    ensures
        ring_capacity(*final(r)) == ring_capacity(*old(r)),
        accepted == (ring_items(*old(r)).len() < ring_capacity(*old(r))),
        accepted ==> ring_items(*final(r)) == ring_items(*old(r)).push(s),
        !accepted ==> ring_items(*final(r)) == ring_items(*old(r)),
{
    r.rb.try_push(s).is_ok()
}

/// Relies on `Consumer::try_pop` of `HeapRb`: removes and returns the oldest
/// item, or `None` when the buffer is empty.
#[verifier::external_body]
fn ring_pop(r: &mut SampleRing) -> (s: Option<u32>)
    ensures
        ring_capacity(*final(r)) == ring_capacity(*old(r)),
        ring_items(*old(r)).len() == 0 ==> s is None && ring_items(*final(r)) == ring_items(*old(r)),
        ring_items(*old(r)).len() > 0 ==> s == Some(ring_items(*old(r))[0])
            && ring_items(*final(r)) == ring_items(*old(r)).drop_first(),
{
    r.rb.try_pop()
}

/// Relies on `Split::split` of `HeapRb`: hands out the two ends of the buffer.
#[verifier::external_body]
fn ring_split(r: SampleRing) -> (ends: (ProducerEnd, ConsumerEnd)) {
    let (prod, cons) = r.rb.split();
    (ProducerEnd { prod }, ConsumerEnd { cons })
}

/// Relies on `Producer::try_push` of a split producer end: whether the sample
/// is taken depends on what the consumer end has removed meanwhile.
#[verifier::external_body]
fn end_push(p: &mut ProducerEnd, s: u32) -> (accepted: bool) {
    p.prod.try_push(s).is_ok()
}

/// Relies on `Consumer::try_pop` of a split consumer end: what comes out depends
/// on what the producer end has added meanwhile.
#[verifier::external_body]
fn end_pop(c: &mut ConsumerEnd) -> (s: Option<u32>) {
    c.cons.try_pop()
}

/// The contents after offering `s` to a queue holding `items` with room for `capacity`.
pub open spec fn after_push(items: Seq<u32>, capacity: nat, s: u32) -> Seq<u32> {
    if items.len() < capacity {
        items.push(s)
    } else {
        items
    }
}

/// The contents after one pop from a queue holding `items`.
pub open spec fn after_pop(items: Seq<u32>) -> Seq<u32> {
    if items.len() == 0 {
        items
    } else {
        items.drop_first()
    }
}

/// What one pop from a queue holding `items` yields.
pub open spec fn popped(items: Seq<u32>) -> Option<u32> {
    if items.len() == 0 {
        None
    } else {
        Some(items[0])
    }
}

/// One operation on a queue, as the laws below replay them.
pub enum QueueOp {
    Push(u32),
    Pop,
}

/// What replaying a sequence of operations leaves and yields.
pub struct QueueTrace {
    /// The contents afterwards.
    pub items: Seq<u32>,
    /// The samples that pushes got in, in order.
    pub accepted: Seq<u32>,
    /// The samples that pops returned, in order.
    pub delivered: Seq<u32>,
    /// How many pushes found the queue full.
    pub overflows: nat,
}

/// Replays `ops` on a queue holding `items` with room for `capacity`.
pub open spec fn replay(items: Seq<u32>, capacity: nat, ops: Seq<QueueOp>) -> QueueTrace
    decreases ops.len(),
{
    if ops.len() == 0 {
        QueueTrace { items, accepted: Seq::empty(), delivered: Seq::empty(), overflows: 0 }
    } else {
        let t = replay(items, capacity, ops.drop_last());
        match ops.last() {
            QueueOp::Push(s) => if t.items.len() < capacity {
                QueueTrace { items: after_push(t.items, capacity, s), accepted: t.accepted.push(s), ..t }
            } else {
                QueueTrace { overflows: t.overflows + 1, ..t }
            },
            QueueOp::Pop => match popped(t.items) {
                Some(s) => QueueTrace { items: after_pop(t.items), delivered: t.delivered.push(s), ..t },
                None => t,
            },
        }
    }
}

/// The operations that push each of `samples` in turn.
pub open spec fn pushes(samples: Seq<u32>) -> Seq<QueueOp> {
    Seq::new(samples.len(), |i: int| QueueOp::Push(samples[i]))
}

/// Whatever the interleaving of pushes and pops, the samples that come out are
/// the samples that went in, in the order they went in, each at most once:
/// what was queued at the start followed by every accepted sample equals what
/// was delivered followed by what is still queued. The queue never holds more
/// than its capacity.
pub proof fn lemma_fifo_order(items: Seq<u32>, capacity: nat, ops: Seq<QueueOp>)
    requires
        items.len() <= capacity,
    ensures
        items + replay(items, capacity, ops).accepted
            == replay(items, capacity, ops).delivered + replay(items, capacity, ops).items,
        replay(items, capacity, ops).items.len() <= capacity,
    decreases ops.len(),
{
    if ops.len() > 0 {
        lemma_fifo_order(items, capacity, ops.drop_last());
        let t = replay(items, capacity, ops.drop_last());
        let r = replay(items, capacity, ops);
        match ops.last() {
            QueueOp::Push(s) => {
                if t.items.len() < capacity {
                    assert(items + r.accepted =~= (items + t.accepted).push(s));
                    assert(r.delivered + r.items =~= (t.delivered + t.items).push(s));
                }
            },
            QueueOp::Pop => {
                if t.items.len() > 0 {
                    assert(r.delivered + r.items =~= t.delivered + t.items);
                }
            },
        }
    }
}

/// Pushing `capacity + k` samples (k > 0) into an empty queue keeps exactly the
/// first `capacity` of them, in order, and reports the other `k` as overflow.
pub proof fn lemma_overflow_keeps_first(capacity: nat, samples: Seq<u32>)
    requires
        samples.len() > capacity,
    ensures
        replay(Seq::empty(), capacity, pushes(samples)).items == samples.take(capacity as int),
        replay(Seq::empty(), capacity, pushes(samples)).overflows == samples.len() - capacity,
{
    lemma_pushes_from_empty(capacity, samples);
}

proof fn lemma_pushes_from_empty(capacity: nat, samples: Seq<u32>)
    ensures
        samples.len() <= capacity ==> replay(Seq::empty(), capacity, pushes(samples)).items == samples,
        samples.len() <= capacity ==> replay(Seq::empty(), capacity, pushes(samples)).overflows == 0,
        samples.len() > capacity ==> replay(Seq::empty(), capacity, pushes(samples)).items
            == samples.take(capacity as int),
        samples.len() > capacity ==> replay(Seq::empty(), capacity, pushes(samples)).overflows
            == samples.len() - capacity,
    decreases samples.len(),
{
    if samples.len() > 0 {
        let prefix = samples.drop_last();
        lemma_pushes_from_empty(capacity, prefix);
        assert(pushes(samples).drop_last() =~= pushes(prefix));
        if samples.len() <= capacity {
            assert(prefix.push(samples.last()) =~= samples);
        } else if samples.len() == capacity + 1 {
            assert(prefix =~= samples.take(capacity as int));
        } else {
            assert(prefix.take(capacity as int) =~= samples.take(capacity as int));
        }
    } else {
        assert(samples =~= Seq::<u32>::empty());
    }
}

/// A bounded FIFO of samples, owned whole: one owner pushes and pops.
/// `split` hands its two ends to the two audio callbacks.
pub struct SampleQueue {
    ring: SampleRing,
    capacity: usize,
}

impl SampleQueue {
    /// The buffered samples, oldest first.
    pub closed spec fn view(&self) -> Seq<u32> {
        ring_items(self.ring)
    }

    /// The number of samples the queue can hold.
    pub closed spec fn capacity_spec(&self) -> nat {
        self.capacity as nat
    }

    /// The ring buffer was made with this queue's capacity and holds no more.
    pub closed spec fn wf(&self) -> bool {
        &&& self.capacity > 0
        &&& ring_capacity(self.ring) == self.capacity
        &&& ring_items(self.ring).len() <= self.capacity
    }

    /// An empty queue with room for `capacity` samples.
    pub fn new(capacity: usize) -> (q: SampleQueue)
        requires
            capacity > 0,
        ensures
            q.wf(),
            q@ == Seq::<u32>::empty(),
            q.capacity_spec() == capacity,
    {
        SampleQueue { ring: ring_new(capacity), capacity }
    }

    /// A queue with room for `capacity` samples that already holds `cushion`
    /// silent samples (or is full of them, if `cushion` exceeds the capacity),
    /// so that playback does not start on an underrun.
    pub fn with_cushion(capacity: usize, cushion: usize) -> (q: SampleQueue)
        requires
            capacity > 0,
        ensures
            q.wf(),
            q.capacity_spec() == capacity,
            q@ == Seq::new(if cushion < capacity { cushion as nat } else { capacity as nat }, |i: int| SILENCE),
    {
        let mut q = SampleQueue::new(capacity);
        let fill: usize = if cushion < capacity { cushion } else { capacity };
        let mut i: usize = 0;
        while i < fill
            invariant
                fill <= capacity,
                i <= fill,
                q.wf(),
                q.capacity_spec() == capacity,
                q@ == Seq::new(i as nat, |k: int| SILENCE),
            decreases fill - i,
        {
            let ok = q.push(SILENCE);
            assert(ok);
            assert(q@ =~= Seq::new((i + 1) as nat, |k: int| SILENCE));
            i = i + 1;
        }
        q
    }

    /// The number of samples the queue can hold.
    pub fn capacity(&self) -> (r: usize)
        requires
            self.wf(),
        ensures
            r == self.capacity_spec(),
    {
        self.capacity
    }

    /// Offers one sample. It is kept (and `true` returned) when there is room;
    /// on a full queue it is dropped and `false` returned. Never blocks.
    pub fn push(&mut self, s: u32) -> (accepted: bool)
        requires
            old(self).wf(),
        ensures
            final(self).wf(),
            final(self).capacity_spec() == old(self).capacity_spec(),
            accepted == (old(self)@.len() < old(self).capacity_spec()),
            final(self)@ == after_push(old(self)@, old(self).capacity_spec(), s),
    {
        ring_push(&mut self.ring, s)
    }

    /// Takes the oldest sample, or `None` when the queue is empty. Never blocks.
    pub fn pop(&mut self) -> (s: Option<u32>)
        requires
            old(self).wf(),
        ensures
            final(self).wf(),
            final(self).capacity_spec() == old(self).capacity_spec(),
            s == popped(old(self)@),
            final(self)@ == after_pop(old(self)@),
    {
        ring_pop(&mut self.ring)
    }

    /// Hands out the producer end and the consumer end, each to be owned by one
    /// audio callback.
    pub fn split(self) -> (ends: (SampleProducer, SampleConsumer))
        requires
            self.wf(),
        ensures
            ends.0.dropped_spec() == 0,
            ends.1.underruns_spec() == 0,
    {
        let (prod, cons) = ring_split(self.ring);
        (SampleProducer { end: prod, dropped: 0 }, SampleConsumer { end: cons, underruns: 0 })
    }
}

/// The input side of a split queue, with a count of the samples it had to drop.
pub struct SampleProducer {
    end: ProducerEnd,
    dropped: u64,
}

impl SampleProducer {
    /// The samples dropped on overflow so far.
    pub closed spec fn dropped_spec(&self) -> nat {
        self.dropped as nat
    }

    /// Offers one sample; a sample that finds the queue full is dropped and
    /// counted. Never blocks.
    pub fn push(&mut self, s: u32) -> (accepted: bool)
        ensures
            final(self).dropped_spec() == if accepted || old(self).dropped_spec() == u64::MAX {
                old(self).dropped_spec()
            } else {
                old(self).dropped_spec() + 1
            },
    {
        let accepted = end_push(&mut self.end, s);
        if !accepted && self.dropped < u64::MAX {
            self.dropped = self.dropped + 1;
        }
        accepted
    }

    /// How many samples were dropped on overflow (saturating).
    pub fn dropped(&self) -> (r: u64)
        ensures
            r == self.dropped_spec(),
    {
        self.dropped
    }
}

/// The output side of a split queue, with a count of the underruns it met.
pub struct SampleConsumer {
    end: ConsumerEnd,
    underruns: u64,
}

impl SampleConsumer {
    /// The pops that found the queue empty so far.
    pub closed spec fn underruns_spec(&self) -> nat {
        self.underruns as nat
    }

    /// Takes the oldest sample, or `None` when the queue is empty. Never blocks.
    pub fn pop(&mut self) -> (s: Option<u32>)
        ensures
            final(self).underruns_spec() == old(self).underruns_spec(),
    {
        end_pop(&mut self.end)
    }

    /// Takes the oldest sample; on an empty queue yields silence and counts an
    /// underrun. Never blocks.
    pub fn pop_or_silence(&mut self) -> (r: (u32, bool))
        ensures
            !r.1 ==> r.0 == SILENCE,
            final(self).underruns_spec() == if r.1 || old(self).underruns_spec() == u64::MAX {
                old(self).underruns_spec()
            } else {
                old(self).underruns_spec() + 1
            },
    {
        match end_pop(&mut self.end) {
            Some(s) => (s, true),
            None => {
                if self.underruns < u64::MAX {
                    self.underruns = self.underruns + 1;
                }
                (SILENCE, false)
            },
        }
    }

    /// How many pops found the queue empty (saturating).
    pub fn underruns(&self) -> (r: u64)
        ensures
            r == self.underruns_spec(),
    {
        self.underruns
    }
}

} // verus!
