//! The visualization strategies and their common dispatch.
//!
//! Every strategy is invoked through the same tick interface: it may
//! consume samples from the sample source, may read or write the shared
//! parameter block, and issues drawing commands against the surface.
//! Exactly one strategy is active at a time; the dispatch is a tagged
//! sum over the known kinds, so that each arm's exact behaviour is
//! stated by that strategy's own transition relation.

pub mod default_visualizer;
pub mod direct_mic_batch_vz;
pub mod direct_mic_visualizer;
pub mod energy_visualizer;
pub mod sliding_sound_wave_points_vz;
pub mod sliding_sound_wave_vz;

use vstd::prelude::*;

use crate::constants::BATCH_LEN;
use crate::params::VizParameter;
use crate::source::SampleSource;
use crate::surface::Surface;
use crate::visuals::default_visualizer::DefaultVisualizer;
use crate::visuals::direct_mic_batch_vz::DirectMicBatchVisualizer;
use crate::visuals::direct_mic_visualizer::DirectMicVisualizer;
use crate::visuals::energy_visualizer::EnergyVisualizer;
use crate::visuals::sliding_sound_wave_points_vz::SlidingSoundWavePointsVisualizer;
use crate::visuals::sliding_sound_wave_vz::SlidingSoundWaveVisualizer;

verus! {

/// The active visualization strategy: one of the known kinds, each with
/// its own private state.
pub enum Visualizer {
    DirectMic(Box<DirectMicVisualizer>),
    DirectMicBatch(Box<DirectMicBatchVisualizer>),
    DefaultViz(Box<DefaultVisualizer>),
    Energy(Box<EnergyVisualizer>),
    SlidingWave(Box<SlidingSoundWaveVisualizer>),
    SlidingWavePoints(Box<SlidingSoundWavePointsVisualizer>),
}

impl Visualizer {
    /// The active strategy's own state is well formed.
    pub open spec fn wf(&self) -> bool {
        match self {
            Visualizer::DirectMic(v) => v.wf(),
            Visualizer::DirectMicBatch(v) => v.wf(),
            Visualizer::DefaultViz(_) => true,
            Visualizer::Energy(_) => true,
            Visualizer::SlidingWave(v) => v.wf(),
            Visualizer::SlidingWavePoints(v) => v.wf(),
        }
    }

    /// How many stream values one tick of this strategy consumes.
    pub open spec fn spec_samples_needed(&self) -> int {
        match self {
            Visualizer::DirectMic(_) => 1,
            Visualizer::DirectMicBatch(_) => 2 * BATCH_LEN as int,
            Visualizer::DefaultViz(_) => 0,
            Visualizer::Energy(_) => 1,
            Visualizer::SlidingWave(_) => 1,
            Visualizer::SlidingWavePoints(_) => 1,
        }
    }

    /// How many stream values one tick of this strategy consumes.
    pub fn samples_needed(&self) -> (n: usize)
        ensures
            n == self.spec_samples_needed(),
    {
        match self {
            Visualizer::DirectMic(_) => 1,
            Visualizer::DirectMicBatch(_) => 2 * BATCH_LEN,
            Visualizer::DefaultViz(_) => 0,
            Visualizer::Energy(_) => 1,
            Visualizer::SlidingWave(_) => 1,
            Visualizer::SlidingWavePoints(_) => 1,
        }
    }

    /// What one tick of the active strategy does: the kind stays the
    /// same and the kind's own transition relation holds; strategies
    /// that ignore the parameter block or the sample source leave them
    /// unchanged.
    pub open spec fn draw_transition(
        pre: Visualizer,
        post: Visualizer,
        spre: Surface,
        spost: Surface,
        qpre: SampleSource,
        qpost: SampleSource,
        ppre: VizParameter,
        ppost: VizParameter,
    ) -> bool {
        match (pre, post) {
            (Visualizer::DirectMic(a), Visualizer::DirectMic(b)) =>
                DirectMicVisualizer::draw_transition(
                *a,
                *b,
                spre,
                spost,
                qpre,
                qpost,
                ppre,
                ppost,
            ),
            (Visualizer::DirectMicBatch(a), Visualizer::DirectMicBatch(b)) =>
                DirectMicBatchVisualizer::draw_transition(*a, *b, spre, spost, qpre, qpost)
                && ppost == ppre,
            (Visualizer::DefaultViz(a), Visualizer::DefaultViz(b)) =>
                DefaultVisualizer::draw_transition(*a, *b, spre, spost, ppre) && qpost == qpre
                && ppost == ppre,
            (Visualizer::Energy(a), Visualizer::Energy(b)) => EnergyVisualizer::draw_transition(
                *a,
                *b,
                spre,
                spost,
                qpre,
                qpost,
            ) && ppost == ppre,
            (Visualizer::SlidingWave(a), Visualizer::SlidingWave(b)) =>
                SlidingSoundWaveVisualizer::draw_transition(*a, *b, spre, spost, qpre, qpost)
                && ppost == ppre,
            (Visualizer::SlidingWavePoints(a), Visualizer::SlidingWavePoints(b)) =>
                SlidingSoundWavePointsVisualizer::draw_transition(
                *a,
                *b,
                spre,
                spost,
                qpre,
                qpost,
            ) && ppost == ppre,
            _ => false,
        }
    }

    /// One tick of the active strategy.
    pub fn draw(
        &mut self,
        surface: &mut Surface,
        source: &mut SampleSource,
        param: &mut VizParameter,
    )
        requires
            old(self).wf(),
            old(surface).wf(),
            old(source).wf(),
            old(param).wf(),
            old(source).spec_remaining() >= old(self).spec_samples_needed(),
        ensures
            final(self).wf(),
            final(surface).wf(),
            final(source).wf(),
            final(param).wf(),
            Self::draw_transition(
                *old(self),
                *final(self),
                *old(surface),
                *final(surface),
                *old(source),
                *final(source),
                *old(param),
                *final(param),
            ),
    {
        match self {
            Visualizer::DirectMic(v) => v.draw(surface, source, param),
            Visualizer::DirectMicBatch(v) => v.draw(surface, source, param),
            Visualizer::DefaultViz(v) => v.draw(surface, source, param),
            Visualizer::Energy(v) => v.draw(surface, source, param),
            Visualizer::SlidingWave(v) => v.draw(surface, source, param),
            Visualizer::SlidingWavePoints(v) => v.draw(surface, source, param),
        }
    }
}

} // verus!
