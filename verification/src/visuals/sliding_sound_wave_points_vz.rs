//! The sliding sound wave points visualizer: a one-dimensional trace of
//! samples drawn as single points across the horizontal axis, one sample
//! per tick. Unlike the bar variant, the trace persists across wraps:
//! reaching the right edge only moves the cursor back to the left, and
//! old points stay until they are overdrawn.

use vstd::prelude::*;

use crate::constants::WHITE;
use crate::constants::X_MAX;
use crate::params::VizParameter;
use crate::source::SampleSource;
use crate::surface::DrawCmd;
use crate::surface::Surface;
use crate::surface::sample_magnitude;

verus! {

/// The vertical center of the point drawn for a sample: the display's
/// midline, offset downward for a negative sample and upward for a
/// non-negative one, scaled so that every sample stays on screen.
pub open spec fn point_center(s: i16) -> int {
    if s < 0 {
        136 + sample_magnitude(s) / 256
    } else {
        136 - sample_magnitude(s) / 256
    }
}

/// The cursor after drawing one point at column `p`: two columns to the
/// right, back to the left edge when the next point would no longer fit.
pub open spec fn point_step(p: int) -> int {
    if p + 3 >= X_MAX as int {
        1
    } else {
        p + 2
    }
}

/// Carries the horizontal cursor across ticks.
pub struct SlidingSoundWavePointsVisualizer {
    current_pos: u16,
}

impl SlidingSoundWavePointsVisualizer {
    /// The column the next point is drawn at.
    pub closed spec fn spec_current_pos(&self) -> int {
        self.current_pos as int
    }

    /// The cursor keeps one column of margin on either edge, so that a
    /// point of radius one always fits.
    pub open spec fn wf(&self) -> bool {
        1 <= self.spec_current_pos() <= X_MAX as int - 2
    }

    /// A fresh points visualizer with its cursor at the left edge.
    pub fn new() -> (v: Box<SlidingSoundWavePointsVisualizer>)
        ensures
            v.wf(),
            v.spec_current_pos() == 1,
    {
        Box::new(SlidingSoundWavePointsVisualizer { current_pos: 1 })
    }

    /// The column the next point is drawn at.
    pub fn current_pos(&self) -> (p: u16)
        ensures
            p as int == self.spec_current_pos(),
    {
        self.current_pos
    }

    /// What one tick does: one sample is consumed, one point for it is
    /// drawn at the cursor's column, and the cursor advances. Nothing is
    /// ever cleared: the trace persists across wraps.
    pub open spec fn draw_transition(
        pre: SlidingSoundWavePointsVisualizer,
        post: SlidingSoundWavePointsVisualizer,
        spre: Surface,
        spost: Surface,
        qpre: SampleSource,
        qpost: SampleSource,
    ) -> bool {
        let s = qpre.stream()[qpre.position()];
        &&& qpost.stream() == qpre.stream()
        &&& qpost.position() == qpre.position() + 1
        &&& post.spec_current_pos() == point_step(pre.spec_current_pos())
        &&& spost.wf()
        &&& spost.spec_background() == spre.spec_background()
        &&& spost.spec_commands() == spre.spec_commands().push(
            DrawCmd::FillCircle {
                x: pre.spec_current_pos() as u16,
                y: point_center(s) as u16,
                radius: 1,
                color: WHITE,
            },
        )
    }

    /// One tick of the points visualizer.
    pub fn draw(
        &mut self,
        surface: &mut Surface,
        source: &mut SampleSource,
        param: &mut VizParameter,
    )
        requires
            old(self).wf(),
            old(surface).wf(),
            old(source).wf(),
            old(source).spec_remaining() >= 1,
        ensures
            final(self).wf(),
            Self::draw_transition(
                *old(self),
                *final(self),
                *old(surface),
                *final(surface),
                *old(source),
                *final(source),
            ),
            final(source).wf(),
            *final(param) == *old(param),
    {
        let s = source.next_sample();
        let mag: u32 = if s < 0 {
            (-(s as i32)) as u32
        } else {
            s as u32
        };
        let off: u16 = (mag / 256) as u16;
        let y: u16 = if s < 0 {
            136 + off
        } else {
            136 - off
        };
        surface.fill_circle(self.current_pos, y, 1, WHITE);
        self.current_pos = if self.current_pos + 3 >= X_MAX {
            1
        } else {
            self.current_pos + 2
        };
    }
}

} // verus!
