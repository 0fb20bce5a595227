//! The sliding sound wave visualizer: a one-dimensional trace of sample
//! magnitudes drawn as bars across the horizontal axis, one sample per
//! tick. The trace is periodically reset: whenever the cursor runs into
//! the wrap margin the screen is cleared and the trace restarts at the
//! left edge.

use vstd::prelude::*;

use crate::constants::GREEN;
use crate::constants::X_MAX;
use crate::constants::Y_MAX;
use crate::params::VizParameter;
use crate::source::SampleSource;
use crate::surface::Surface;
use crate::visuals::direct_mic_batch_vz::lemma_slots_bounds;
use crate::visuals::direct_mic_batch_vz::lemma_step_preserves;
use crate::visuals::direct_mic_batch_vz::step_cmds;
use crate::visuals::direct_mic_batch_vz::step_pos;
use crate::visuals::direct_mic_batch_vz::wrap_threshold;

verus! {

/// Carries the horizontal cursor and the bar width across ticks; the
/// cursor walks exactly as the batch visualizer's does, one bar per
/// tick instead of one batch per tick.
pub struct SlidingSoundWaveVisualizer {
    current_pos: u16,
    bar_width: u16,
}

impl SlidingSoundWaveVisualizer {
    /// The cursor the next bar is drawn at.
    pub closed spec fn spec_current_pos(&self) -> int {
        self.current_pos as int
    }

    /// The width of each bar.
    pub closed spec fn spec_bar_width(&self) -> int {
        self.bar_width as int
    }

    /// Two bars fit the display, and the cursor is a reachable position.
    pub open spec fn wf(&self) -> bool {
        &&& 1 <= self.spec_bar_width() <= 240
        &&& 0 <= self.spec_current_pos() <= wrap_threshold(self.spec_bar_width())
        &&& self.spec_current_pos() % self.spec_bar_width() == 0
    }

    /// A fresh sliding wave visualizer with its cursor at the left edge.
    pub fn new(bar_width: u16) -> (v: Box<SlidingSoundWaveVisualizer>)
        requires
            1 <= bar_width <= 240,
        ensures
            v.wf(),
            v.spec_current_pos() == 0,
            v.spec_bar_width() == bar_width,
    {
        proof {
            lemma_step_preserves(0, bar_width as int);
        }
        Box::new(SlidingSoundWaveVisualizer { current_pos: 0, bar_width })
    }

    /// The cursor the next bar is drawn at.
    pub fn current_pos(&self) -> (p: u16)
        ensures
            p as int == self.spec_current_pos(),
    {
        self.current_pos
    }

    /// What one tick does: one sample is consumed; on a wrap the screen
    /// is cleared and the cursor resets; then the sample's bar is drawn
    /// and the cursor advances by one bar width.
    pub open spec fn draw_transition(
        pre: SlidingSoundWaveVisualizer,
        post: SlidingSoundWaveVisualizer,
        spre: Surface,
        spost: Surface,
        qpre: SampleSource,
        qpost: SampleSource,
    ) -> bool {
        let s = qpre.stream()[qpre.position()];
        &&& qpost.stream() == qpre.stream()
        &&& qpost.position() == qpre.position() + 1
        &&& post.spec_bar_width() == pre.spec_bar_width()
        &&& post.spec_current_pos() == step_pos(pre.spec_current_pos(), pre.spec_bar_width())
        &&& spost.wf()
        &&& spost.spec_background() == spre.spec_background()
        &&& spost.spec_commands() == spre.spec_commands() + step_cmds(
            s,
            pre.spec_current_pos(),
            pre.spec_bar_width(),
            GREEN,
        )
    }

    /// One tick of the sliding wave visualizer.
    pub fn draw(
        &mut self,
        surface: &mut Surface,
        source: &mut SampleSource,
        param: &mut VizParameter,
    )
        requires
            old(self).wf(),
            old(surface).wf(),
            old(source).wf(),
            old(source).spec_remaining() >= 1,
        ensures
            final(self).wf(),
            Self::draw_transition(
                *old(self),
                *final(self),
                *old(surface),
                *final(surface),
                *old(source),
                *final(source),
            ),
            final(source).wf(),
            *final(param) == *old(param),
    {
        let s = source.next_sample();
        let w = self.bar_width;
        proof {
            lemma_slots_bounds(w as int);
            lemma_step_preserves(self.spec_current_pos(), w as int);
        }
        if self.current_pos + 2 * w >= X_MAX {
            self.current_pos = 0;
            surface.clear();
        }
        surface.draw_signed_bar(s, self.current_pos, w, Y_MAX, GREEN);
        self.current_pos = self.current_pos + w;
        proof {
            assert(surface.spec_commands() =~= old(surface).spec_commands() + step_cmds(
                s,
                old(self).spec_current_pos(),
                w as int,
                GREEN,
            ));
        }
    }
}

} // verus!
