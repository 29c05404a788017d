//! The bounded producer/consumer sample pipeline.
//!
//! A fixed-capacity FIFO ring buffer of samples.  The producer never
//! blocks: when the queue is full, the oldest entry is discarded before
//! the new one is admitted (latest data wins).  The consumer drains in
//! FIFO order.  The eviction step keeps every operation allocation-free
//! and bounded-time.

use vstd::prelude::*;

use crate::sample::SensorData;

verus! {

/// Capacity the firmware sizes the pipeline with.
pub const PIPELINE_CAPACITY: usize = 100;

/// Index `base + offset` wrapped once around a ring of size `cap`.
pub open spec fn spec_wrap_index(base: int, offset: int, cap: int) -> int {
    if base + offset < cap {
        base + offset
    } else {
        base + offset - cap
    }
}

/// Bounded FIFO queue of samples with drop-oldest-on-full eviction.
///
/// The view is the sequence of queued samples, oldest first.
pub struct SamplePipeline {
    buf: Vec<SensorData>,
    head: usize,
    len: usize,
}

impl View for SamplePipeline {
    type V = Seq<SensorData>;

    closed spec fn view(&self) -> Seq<SensorData> {
        Seq::new(
            self.len as nat,
            |i: int| self.buf@[spec_wrap_index(self.head as int, i, self.buf@.len() as int)],
        )
    }
}

impl SamplePipeline {
    /// The fixed number of samples the pipeline can hold.
    pub closed spec fn spec_capacity(&self) -> int {
        self.buf@.len() as int
    }

    /// The storage is fully allocated and the cursors are in range.
    pub closed spec fn wf(&self) -> bool {
        &&& self.buf@.len() > 0
        &&& (self.head as int) < self.buf@.len()
        &&& self.len <= self.buf@.len()
    }

    /// A well-formed pipeline has a positive capacity and never holds
    /// more samples than it.
    pub proof fn lemma_len_bounded(&self)
        requires
            self.wf(),
        ensures
            self@.len() <= self.spec_capacity(),
            0 < self.spec_capacity(),
    {
    }

    /// A fresh, empty pipeline of the given capacity.
    pub fn new(capacity: usize) -> (r: SamplePipeline)
        requires
            capacity > 0,
        ensures
            r.wf(),
            r.spec_capacity() == capacity,
            r@ == Seq::<SensorData>::empty(),
    {
        let mut buf: Vec<SensorData> = Vec::new();
        let mut i: usize = 0;
        while i < capacity
            invariant
                i <= capacity,
                buf@.len() == i,
            decreases capacity - i,
        {
            buf.push(SensorData::zero());
            i = i + 1;
        }
        let r = SamplePipeline { buf, head: 0, len: 0 };
        proof {
            assert(r@ =~= Seq::<SensorData>::empty());
        }
        r
    }

    /// Number of samples currently queued.
    pub fn len(&self) -> (r: usize)
        ensures
            r == self@.len(),
    {
        self.len
    }

    /// Whether the next push would evict the oldest entry.
    pub fn is_full(&self) -> (r: bool)
        requires
            self.wf(),
        ensures
            r == (self@.len() == self.spec_capacity()),
    {
        self.len == self.buf.len()
    }

    /// Whether nothing is queued.
    pub fn is_empty(&self) -> (r: bool)
        ensures
            r == (self@.len() == 0),
    {
        self.len == 0
    }

    /// `base + offset` wrapped once around the storage, computed without
    /// overflow.
    fn wrap_index(&self, base: usize, offset: usize) -> (r: usize)
        requires
            self.wf(),
            base < self.spec_capacity(),
            offset <= self.spec_capacity(),
        ensures
            r == spec_wrap_index(base as int, offset as int, self.spec_capacity()),
            r < self.spec_capacity(),
    {
        let cap = self.buf.len();
        if offset >= cap - base {
            offset - (cap - base)
        } else {
            base + offset
        }
    }

    /// Enqueues one sample.  On a full queue this drops exactly the
    /// oldest entry and admits the new one; the queue never exceeds its
    /// capacity and never blocks the producer.
    pub fn push(&mut self, d: SensorData)
        requires
            old(self).wf(),
        ensures
            final(self).wf(),
            final(self).spec_capacity() == old(self).spec_capacity(),
            old(self)@.len() < old(self).spec_capacity() ==> final(self)@ == old(self)@.push(d),
            old(self)@.len() == old(self).spec_capacity() ==> final(self)@ == old(self)@.drop_first().push(d),
            final(self)@.len() <= final(self).spec_capacity(),
    {
        let ghost pre = *self;
        if self.len == self.buf.len() {
            // evict the oldest entry before inserting
            self.head = self.wrap_index(self.head, 1);
            self.len = self.len - 1;
        }
        let idx = self.wrap_index(self.head, self.len);
        self.buf[idx] = d;
        self.len = self.len + 1;
        proof {
            let cap = pre.spec_capacity();
            if pre@.len() < cap {
                assert(self@ =~= pre@.push(d));
            } else {
                assert forall|i: int| 0 <= i < cap - 1 implies self@[i] == pre@[i + 1] by {
                    assert(spec_wrap_index(self.head as int, i, cap)
                        == spec_wrap_index(pre.head as int, i + 1, cap));
                }
                assert(self@ =~= pre@.drop_first().push(d));
            }
        }
    }

    /// Dequeues the oldest sample, `None` when the queue is empty.
    /// Retained entries leave in exactly the order they were enqueued.
    pub fn pop(&mut self) -> (r: Option<SensorData>)
        requires
            old(self).wf(),
        ensures
            final(self).wf(),
            final(self).spec_capacity() == old(self).spec_capacity(),
            old(self)@.len() == 0 ==> r is None && final(self)@ == old(self)@,
            old(self)@.len() > 0 ==> r == Some(old(self)@[0])
                && final(self)@ == old(self)@.drop_first(),
    {
        let ghost pre = *self;
        if self.len == 0 {
            return None;
        }
        let d = self.buf[self.head];
        self.head = self.wrap_index(self.head, 1);
        self.len = self.len - 1;
        proof {
            let cap = pre.spec_capacity();
            assert forall|i: int| 0 <= i < self@.len() implies self@[i] == pre@[i + 1] by {
                assert(spec_wrap_index(self.head as int, i, cap)
                    == spec_wrap_index(pre.head as int, i + 1, cap));
            }
            assert(self@ =~= pre@.drop_first());
        }
        Some(d)
    }

    /// Dequeues up to `max` samples, oldest first: the whole queue when it
    /// holds fewer.
    pub fn drain(&mut self, max: usize) -> (batch: Vec<SensorData>)
        requires
            old(self).wf(),
        ensures
            final(self).wf(),
            final(self).spec_capacity() == old(self).spec_capacity(),
            batch@.len() == if old(self)@.len() < max {
                old(self)@.len() as int
            } else {
                max as int
            },
            batch@ == old(self)@.take(batch@.len() as int),
            final(self)@ == old(self)@.skip(batch@.len() as int),
    {
        let ghost pre = *self;
        let mut batch: Vec<SensorData> = Vec::new();
        let mut taken: usize = 0;
        let count = if self.len() < max {
            self.len()
        } else {
            max
        };
        while taken < count
            invariant
                taken <= count,
                count <= pre@.len(),
                self.wf(),
                self.spec_capacity() == pre.spec_capacity(),
                batch@.len() == taken,
                batch@ == pre@.take(taken as int),
                self@ == pre@.skip(taken as int),
            decreases count - taken,
        {
            let d = self.pop();
            match d {
                Some(v) => {
                    batch.push(v);
                },
                None => {
                    proof {
                        assert(false);
                    }
                },
            }
            taken = taken + 1;
            proof {
                assert(batch@ =~= pre@.take(taken as int));
                assert(self@ =~= pre@.skip(taken as int));
            }
        }
        batch
    }
}

} // verus!
