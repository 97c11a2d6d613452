//! A bounded single-producer/single-consumer sample queue. The producer
//! never blocks: pushing into a full buffer drops the sample (the engine's
//! deliberate lossy-backpressure policy). The consumer never blocks either:
//! draining more than is queued pads the remainder with silence.

use vstd::prelude::*;

verus! {

/// Index of logical slot `i` (counted from the oldest element) inside the
/// backing storage, for a queue whose oldest element sits at `head`. Valid
/// for `0 <= i <= cap` with `head < cap`: the wrap-around subtraction stays
/// in range.
pub open spec fn ring_index(head: int, i: int, cap: int) -> int {
    if i < cap - head {
        head + i
    } else {
        i - (cap - head)
    }
}

/// Fixed-capacity circular queue decoupling the decode rate from the output
/// consumption rate.
pub struct RingBuffer<T> {
    buf: Vec<T>,
    head: usize,
    len: usize,
}

impl<T: Copy> View for RingBuffer<T> {
    type V = Seq<T>;

    /// The queued samples, oldest first.
    closed spec fn view(&self) -> Seq<T> {
        Seq::new(
            self.len as nat,
            |i: int| self.buf@[ring_index(self.head as int, i, self.buf.len() as int)],
        )
    }
}

impl<T: Copy> RingBuffer<T> {
    /// Internal consistency: non-empty storage, the head inside it, and no
    /// more queued than fits.
    pub closed spec fn wf(self) -> bool {
        &&& self.buf.len() >= 1
        &&& self.head < self.buf.len()
        &&& self.len <= self.buf.len()
    }

    /// How many samples the buffer can hold at once.
    pub closed spec fn spec_capacity(self) -> nat {
        self.buf.len() as nat
    }

    /// An empty buffer holding up to `capacity` samples. `fill` only
    /// initializes the backing storage; it is never observable.
    pub fn with_capacity(capacity: usize, fill: T) -> (rb: RingBuffer<T>)
        requires
            capacity >= 1,
        ensures
            rb.wf(),
            rb.spec_capacity() == capacity,
            rb@ == Seq::<T>::empty(),
    {
        let rb = RingBuffer { buf: vec![fill; capacity], head: 0, len: 0 };
        proof {
            assert(rb@ =~= Seq::<T>::empty());
        }
        rb
    }

    /// How many samples the buffer can hold at once.
    pub fn capacity(&self) -> (c: usize)
        requires
            self.wf(),
        ensures
            c == self.spec_capacity(),
    {
        self.buf.len()
    }

    /// How many samples are queued right now.
    pub fn len(&self) -> (n: usize)
        requires
            self.wf(),
        ensures
            n == self@.len(),
    {
        self.len
    }

    /// Produce one sample. On a full buffer the sample is dropped and the
    /// queue is left unchanged — the producer never blocks.
    pub fn push(&mut self, sample: T) -> (accepted: bool)
        requires
            old(self).wf(),
        ensures
            final(self).wf(),
            final(self).spec_capacity() == old(self).spec_capacity(),
            accepted == (old(self)@.len() < old(self).spec_capacity()),
            accepted ==> final(self)@ == old(self)@.push(sample),
            !accepted ==> final(self)@ == old(self)@,
    {
        if self.len == self.buf.len() {
            return false;
        }
        let cap = self.buf.len();
        let idx = if self.len < cap - self.head {
            self.head + self.len
        } else {
            self.len - (cap - self.head)
        };
        self.buf.set(idx, sample);
        self.len = self.len + 1;
        proof {
            assert(self@ =~= old(self)@.push(sample));
        }
        true
    }

    /// Consume the oldest sample, if any. The consumer never blocks.
    pub fn pop(&mut self) -> (sample: Option<T>)
        requires
            old(self).wf(),
        ensures
            final(self).wf(),
            final(self).spec_capacity() == old(self).spec_capacity(),
            old(self)@.len() == 0 ==> sample is None && final(self)@ == old(self)@,
            old(self)@.len() > 0 ==> sample == Some(old(self)@[0]) && final(self)@ == old(
                self,
            )@.skip(1),
    {
        if self.len == 0 {
            return None;
        }
        let sample = self.buf[self.head];
        self.head = if self.head + 1 == self.buf.len() {
            0
        } else {
            self.head + 1
        };
        self.len = self.len - 1;
        proof {
            assert(self@ =~= old(self)@.skip(1));
        }
        Some(sample)
    }

    /// Drain exactly `requested` samples for the output callback: the queued
    /// samples come out oldest first, and if fewer are available than
    /// requested the remainder is `silence` — underrun degrades silently,
    /// it never blocks and never errors.
    pub fn pop_chunk(&mut self, requested: usize, silence: T) -> (out: Vec<T>)
        requires
            old(self).wf(),
        ensures
            final(self).wf(),
            final(self).spec_capacity() == old(self).spec_capacity(),
            out@.len() == requested,
            ({
                let drained = if old(self)@.len() < requested {
                    old(self)@.len() as int
                } else {
                    requested as int
                };
                &&& forall|j: int| 0 <= j < drained ==> out@[j] == old(self)@[j]
                &&& forall|j: int| drained <= j < requested ==> out@[j] == silence
                &&& final(self)@ == old(self)@.skip(drained)
            }),
    {
        let drained = if self.len < requested {
            self.len
        } else {
            requested
        };
        let mut out: Vec<T> = Vec::new();
        let mut i: usize = 0;
        while i < drained
            invariant
                i <= drained,
                drained <= requested,
                drained <= old(self)@.len(),
                self.wf(),
                self.spec_capacity() == old(self).spec_capacity(),
                self@ == old(self)@.skip(i as int),
                out@.len() == i,
                forall|j: int| 0 <= j < i ==> out@[j] == old(self)@[j],
            decreases drained - i,
        {
            proof {
                assert(self@.len() == old(self)@.len() - i);
                assert(self@[0] == old(self)@[i as int]);
            }
            let sample = self.pop();
            if let Some(sample) = sample {
                out.push(sample);
            }
            proof {
                assert(self@ =~= old(self)@.skip(i + 1));
            }
            i = i + 1;
        }
        while out.len() < requested
            invariant
                drained <= out@.len() <= requested,
                self.wf(),
                self.spec_capacity() == old(self).spec_capacity(),
                self@ == old(self)@.skip(drained as int),
                forall|j: int| 0 <= j < drained ==> out@[j] == old(self)@[j],
                forall|j: int| drained <= j < out@.len() ==> out@[j] == silence,
            decreases requested - out@.len(),
        {
            out.push(silence);
        }
        out
    }
}

/// The buffer the engine allocates for one stream: room for two seconds of
/// interleaved samples at the device's rate and channel count.
pub fn ring_capacity_samples(sample_rate: u32, channels: u32) -> (n: u64)
    requires
        1 <= sample_rate <= crate::decode::MAX_SAMPLE_RATE,
        1 <= channels <= 1024,
    ensures
        n == sample_rate * channels * 2,
        n >= 2,
{
    proof {
        assert(sample_rate * channels * 2 <= (crate::decode::MAX_SAMPLE_RATE as int) * 1024 * 2)
            by (nonlinear_arith)
            requires
                sample_rate <= crate::decode::MAX_SAMPLE_RATE,
                channels <= 1024,
                1 <= sample_rate,
                1 <= channels,
        ;
        assert(sample_rate * channels * 2 >= 2) by (nonlinear_arith)
            requires
                1 <= sample_rate,
                1 <= channels,
        ;
    }
    (sample_rate as u64) * (channels as u64) * 2
}

} // verus!
