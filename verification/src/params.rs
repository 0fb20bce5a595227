//! The shared per-tick parameter block handed to the active visualizer.

use vstd::prelude::*;

use crate::constants::SPECTRUM_LEN;

verus! {

/// The spectrum: a fixed sequence of `SPECTRUM_LEN` magnitude values,
/// one per frequency-like bucket.
///
/// Refresh policy: the spectrum is written only by visualizers that
/// consume samples (each states in its contract which buckets it
/// updates); visualizers that merely render it leave it unchanged, and it
/// is not cleared when the active visualizer changes.
pub struct VizParameter {
    spectrum: Vec<i16>,
}

impl VizParameter {
    /// The spectrum always holds exactly `SPECTRUM_LEN` buckets.
    pub closed spec fn wf(&self) -> bool {
        self.spectrum@.len() == SPECTRUM_LEN
    }

    /// The bucket values, in bucket order.
    pub closed spec fn spec_spectrum(&self) -> Seq<i16> {
        self.spectrum@
    }

    /// A fresh parameter block with every bucket set to one.
    pub fn new() -> (p: VizParameter)
        ensures
            p.wf(),
            forall|i: int| 0 <= i < SPECTRUM_LEN ==> p.spec_spectrum()[i] == 1,
    {
        let mut spectrum: Vec<i16> = Vec::new();
        let mut i: usize = 0;
        while i < SPECTRUM_LEN
            invariant
                i <= SPECTRUM_LEN,
                spectrum@.len() == i,
                forall|j: int| 0 <= j < i ==> spectrum@[j] == 1,
            decreases SPECTRUM_LEN - i,
        {
            spectrum.push(1);
            i = i + 1;
        }
        VizParameter { spectrum }
    }

    /// The value of bucket `i`.
    pub fn bucket(&self, i: usize) -> (v: i16)
        requires
            self.wf(),
            i < SPECTRUM_LEN,
        ensures
            v == self.spec_spectrum()[i as int],
    {
        self.spectrum[i]
    }

    /// Writes bucket `i`.
    pub fn set_bucket(&mut self, i: usize, v: i16)
        requires
            old(self).wf(),
            i < SPECTRUM_LEN,
        ensures
            final(self).wf(),
            final(self).spec_spectrum() == old(self).spec_spectrum().update(i as int, v),
    {
        self.spectrum[i] = v;
    }
}

} // verus!
