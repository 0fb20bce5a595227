//! The energy visualizer: one filled circle at a fixed center whose
//! radius follows the magnitude of the current sample.

use vstd::prelude::*;

use crate::constants::BLUE;
use crate::constants::CIRCLE_X;
use crate::constants::CIRCLE_Y;
use crate::params::VizParameter;
use crate::source::SampleSource;
use crate::surface::DrawCmd;
use crate::surface::Surface;
use crate::surface::sample_magnitude;

verus! {

/// Radius drawn for a sample: the magnitude scaled down so that the
/// largest sample's circle still fits around the fixed center. Never
/// negative, and at most 128.
pub open spec fn radius_of(s: i16) -> int {
    sample_magnitude(s) / 256
}

/// The drawn radius is never negative and always fits around the fixed
/// center, whatever the sample.
pub proof fn lemma_radius_in_range(s: i16)
    ensures
        0 <= radius_of(s) <= 128,
{
}

/// Tracks the previously drawn radius across ticks, so that a shrinking
/// circle erases its old footprint by a full clear before redrawing.
pub struct EnergyVisualizer {
    last_radius: u16,
}

impl EnergyVisualizer {
    /// The radius drawn on the previous tick; zero before the first one.
    pub closed spec fn spec_last_radius(&self) -> int {
        self.last_radius as int
    }

    /// A fresh energy visualizer that has drawn nothing yet.
    pub fn new() -> (v: Box<EnergyVisualizer>)
        ensures
            v.spec_last_radius() == 0,
    {
        Box::new(EnergyVisualizer { last_radius: 0 })
    }

    /// The radius drawn on the previous tick.
    pub fn last_radius(&self) -> (r: u16)
        ensures
            r as int == self.spec_last_radius(),
    {
        self.last_radius
    }

    /// What one tick does: one sample is consumed; when the new circle is
    /// smaller than the previous one the screen is cleared first, since
    /// the new disc would not cover the old footprint; then exactly one
    /// filled circle with the new radius is drawn at the fixed center,
    /// and the radius is retained for the next tick.
    pub open spec fn draw_transition(
        pre: EnergyVisualizer,
        post: EnergyVisualizer,
        spre: Surface,
        spost: Surface,
        qpre: SampleSource,
        qpost: SampleSource,
    ) -> bool {
        let s = qpre.stream()[qpre.position()];
        let r = radius_of(s);
        &&& qpost.stream() == qpre.stream()
        &&& qpost.position() == qpre.position() + 1
        &&& post.spec_last_radius() == r
        &&& spost.wf()
        &&& spost.spec_background() == spre.spec_background()
        &&& spost.spec_commands() == spre.spec_commands() + (if r < pre.spec_last_radius() {
            seq![DrawCmd::Clear]
        } else {
            Seq::<DrawCmd>::empty()
        }) + seq![
            DrawCmd::FillCircle { x: CIRCLE_X, y: CIRCLE_Y, radius: r as u16, color: BLUE },
        ]
    }

    /// One tick of the energy visualizer. The parameter block is read by
    /// other strategies only; this one leaves it unchanged.
    pub fn draw(
        &mut self,
        surface: &mut Surface,
        source: &mut SampleSource,
        param: &mut VizParameter,
    )
        requires
            old(surface).wf(),
            old(source).wf(),
            old(source).spec_remaining() >= 1,
        ensures
            Self::draw_transition(
                *old(self),
                *final(self),
                *old(surface),
                *final(surface),
                *old(source),
                *final(source),
            ),
            final(source).wf(),
            *final(param) == *old(param),
    {
        let s = source.next_sample();
        let mag: u32 = if s < 0 {
            (-(s as i32)) as u32
        } else {
            s as u32
        };
        let r: u16 = (mag / 256) as u16;
        assert(r == radius_of(s));
        assert(r <= 128);
        if r < self.last_radius {
            surface.clear();
        }
        surface.fill_circle(CIRCLE_X, CIRCLE_Y, r, BLUE);
        self.last_radius = r;
        proof {
            assert(surface.spec_commands() =~= old(surface).spec_commands() + (if radius_of(s)
                < old(self).spec_last_radius() {
                seq![DrawCmd::Clear]
            } else {
                Seq::<DrawCmd>::empty()
            }) + seq![
                DrawCmd::FillCircle {
                    x: CIRCLE_X,
                    y: CIRCLE_Y,
                    radius: radius_of(s) as u16,
                    color: BLUE,
                },
            ]);
        }
    }
}

} // verus!
