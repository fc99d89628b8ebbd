//! Bounded hand-off buffer for captured audio samples.
//!
//! The capture side calls `produce` once per sample and must never block:
//! on overflow the newest sample is dropped and `produce` reports the loss.
//! The session loop calls `drain_up_to` once per tick and takes the oldest
//! samples in capture order.
//!
//! A mono sample is carried as the raw bit pattern of the capture format's
//! 32-bit float, so the buffer and the session never do float arithmetic;
//! the capture and transcription edges convert bit patterns to floats.

use vstd::prelude::*;

verus! {

/// Fixed-capacity first-in-first-out buffer of samples.
pub struct SampleBuffer {
    samples: Vec<u32>,
    capacity: usize,
}

impl View for SampleBuffer {
    type V = Seq<u32>;

    closed spec fn view(&self) -> Seq<u32> {
        self.samples@
    }
}

impl SampleBuffer {
    /// The buffer never holds more samples than this.
    pub closed spec fn spec_capacity(&self) -> int {
        self.capacity as int
    }

    /// The buffer holds no more samples than its capacity.
    pub open spec fn wf(&self) -> bool {
        self@.len() <= self.spec_capacity()
    }

    /// An empty buffer that will hold at most `capacity` samples.
    pub fn new(capacity: usize) -> (r: SampleBuffer)
        ensures
            r.wf(),
            r@ == Seq::<u32>::empty(),
            r.spec_capacity() == capacity,
    {
        SampleBuffer { samples: Vec::new(), capacity }
    }

    /// Number of samples waiting to be drained.
    pub fn len(&self) -> (r: usize)
        ensures
            r == self@.len(),
    {
        self.samples.len()
    }

    /// The capacity the buffer was created with.
    pub fn capacity(&self) -> (r: usize)
        ensures
            r == self.spec_capacity(),
    {
        self.capacity
    }

    /// Appends one sample; on overflow the sample is dropped and the
    /// buffer is unchanged. Returns whether the sample was kept.
    pub fn produce(&mut self, sample: u32) -> (kept: bool)
        requires
            old(self).wf(),
        ensures
            final(self).wf(),
            final(self).spec_capacity() == old(self).spec_capacity(),
            kept == (old(self)@.len() < old(self).spec_capacity()),
            kept ==> final(self)@ == old(self)@.push(sample),
            !kept ==> final(self)@ == old(self)@,
    {
        if self.samples.len() < self.capacity {
            self.samples.push(sample);
            true
        } else {
            false
        }
    }

    /// Removes and returns the oldest `n` samples, or all of them when
    /// fewer are waiting, in the order they were produced.
    pub fn drain_up_to(&mut self, n: usize) -> (r: Vec<u32>)
        requires
            old(self).wf(),
        ensures
            final(self).wf(),
            final(self).spec_capacity() == old(self).spec_capacity(),
            r@ == old(self)@.take(vstd::math::min(n as int, old(self)@.len() as int)),
            final(self)@ == old(self)@.skip(
                vstd::math::min(n as int, old(self)@.len() as int),
            ),
    {
        let take = if n < self.samples.len() {
            n
        } else {
            self.samples.len()
        };
        let mut r: Vec<u32> = Vec::new();
        let mut i: usize = 0;
        while i < take
            invariant
                0 <= i <= take,
                take <= old(self)@.len(),
                old(self).wf(),
                self.capacity == old(self).capacity,
                self.samples@ == old(self)@.skip(i as int),
                r@ == old(self)@.take(i as int),
            decreases take - i,
        {
            let s = self.samples.remove(0);
            r.push(s);
            proof {
                assert(self.samples@ =~= old(self)@.skip(i + 1));
                assert(r@ =~= old(self)@.take(i + 1));
            }
            i = i + 1;
        }
        proof {
            assert(take as int == vstd::math::min(n as int, old(self)@.len() as int));
        }
        r
    }
}

} // verus!
