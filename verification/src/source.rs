//! The sample source: the render pipeline's view of the audio
//! peripheral's receive path.
//!
//! On the board the peripheral busy-polls a ready flag and then reads one
//! value per conversion cycle, alternating between the two channels of
//! the stereo microphone; samples arrive strictly in order and nothing
//! above the hardware FIFO buffers or reorders them. The model keeps
//! exactly that interface: a stream of values in arrival order and a
//! position that only moves forward, one value per read. The polling wait
//! itself stays outside the library; here a read requires that the stream
//! still holds the values it will return, which is the model's counterpart
//! of blocking until the hardware signals data.

use vstd::prelude::*;

use crate::constants::BATCH_LEN;

verus! {

/// A stereo sample stream in arrival order, consumed front to back.
pub struct SampleSource {
    samples: Vec<i16>,
    next: usize,
}

impl SampleSource {
    /// The read position never passes the end of the stream.
    pub closed spec fn wf(&self) -> bool {
        self.next <= self.samples@.len()
    }

    /// The whole stream, consumed and pending values alike.
    pub closed spec fn stream(&self) -> Seq<i16> {
        self.samples@
    }

    /// How many values have been consumed so far.
    pub closed spec fn position(&self) -> int {
        self.next as int
    }

    /// How many values are still pending.
    pub open spec fn spec_remaining(&self) -> int {
        self.stream().len() - self.position()
    }

    /// A source that will deliver exactly the given values, in order.
    pub fn new(samples: Vec<i16>) -> (s: SampleSource)
        ensures
            s.wf(),
            s.stream() == samples@,
            s.position() == 0,
    {
        SampleSource { samples, next: 0 }
    }

    /// How many values are still pending.
    pub fn remaining(&self) -> (n: usize)
        requires
            self.wf(),
        ensures
            n == self.spec_remaining(),
    {
        self.samples.len() - self.next
    }

    /// Reads one value: the next sample the hardware delivers. On the
    /// board this blocks on the ready flag; the model instead requires
    /// that a value is pending.
    pub fn next_sample(&mut self) -> (s: i16)
        requires
            old(self).wf(),
            old(self).spec_remaining() >= 1,
        ensures
            final(self).wf(),
            final(self).stream() == old(self).stream(),
            final(self).position() == old(self).position() + 1,
            s == old(self).stream()[old(self).position()],
    {
        let n = self.samples.len();
        let s = self.samples[self.next];
        assert(self.next < n);
        self.next = self.next + 1;
        s
    }

    /// Reads a full batch of `BATCH_LEN` samples by repeating the
    /// poll-and-read cycle. With `interleave` the batch holds both
    /// channels in arrival order; without it only one channel's value of
    /// each conversion cycle, so every other element of the stream.
    #[verifier::loop_isolation(false)]
    pub fn fill_batch(&mut self, interleave: bool) -> (batch: Vec<i16>)
        requires
            old(self).wf(),
            old(self).spec_remaining() >= if interleave {
                BATCH_LEN as int
            } else {
                2 * BATCH_LEN
            },
        ensures
            final(self).wf(),
            final(self).stream() == old(self).stream(),
            batch@.len() == BATCH_LEN,
            interleave ==> final(self).position() == old(self).position() + BATCH_LEN,
            !interleave ==> final(self).position() == old(self).position() + 2 * BATCH_LEN,
            forall|i: int|
                0 <= i < BATCH_LEN ==> batch@[i] == old(self).stream()[old(self).position() + (if interleave {
                    i
                } else {
                    2 * i
                })],
    {
        let mut batch: Vec<i16> = Vec::new();
        let mut i: usize = 0;
        while i < BATCH_LEN
            invariant
                i <= BATCH_LEN,
                batch@.len() == i,
                self.samples@ == old(self).samples@,
                self.next == old(self).next + (if interleave {
                    i as int
                } else {
                    2 * i
                }),
                forall|j: int|
                    0 <= j < i ==> batch@[j] == old(self).stream()[old(self).position()
                        + (if interleave {
                        j
                    } else {
                        2 * j
                    })],
            decreases BATCH_LEN - i,
        {
            let n = self.samples.len();
            batch.push(self.samples[self.next]);
            assert(self.next as int + 2 <= n || (interleave && self.next < n));
            self.next = self.next + if interleave {
                1
            } else {
                2
            };
            i = i + 1;
        }
        batch
    }
}

} // verus!
