//! The direct microphone visualizer: one sample per tick, written into
//! one spectrum bucket and rendered immediately as one bar.

use vstd::prelude::*;

use crate::constants::BUCKET_WIDTH;
use crate::constants::SPECTRUM_LEN;
use crate::constants::WHITE;
use crate::constants::Y_MAX;
use crate::params::VizParameter;
use crate::source::SampleSource;
use crate::surface::DrawCmd;
use crate::surface::Surface;

verus! {

/// Carries a cursor across ticks, advanced modulo the sample source's
/// channel count, so that successive samples rotate through the first
/// `num_channels` buckets.
pub struct DirectMicVisualizer {
    current_pos: u16,
    num_channels: u16,
}

impl DirectMicVisualizer {
    /// The channel count stays within the spectrum and the cursor stays
    /// within the channel count.
    pub open spec fn wf(&self) -> bool {
        &&& 1 <= self.spec_num_channels() <= SPECTRUM_LEN
        &&& self.spec_current_pos() < self.spec_num_channels()
    }

    /// The bucket the next sample will be written to.
    pub closed spec fn spec_current_pos(&self) -> int {
        self.current_pos as int
    }

    /// How many channels the cursor rotates through.
    pub closed spec fn spec_num_channels(&self) -> int {
        self.num_channels as int
    }

    /// A fresh direct-mic visualizer starting at the first bucket.
    pub fn new(num_channels: u16) -> (v: Box<DirectMicVisualizer>)
        requires
            1 <= num_channels <= SPECTRUM_LEN,
        ensures
            v.wf(),
            v.spec_current_pos() == 0,
            v.spec_num_channels() == num_channels,
    {
        Box::new(DirectMicVisualizer { current_pos: 0, num_channels })
    }

    /// The bucket the next sample will be written to.
    pub fn current_pos(&self) -> (p: u16)
        ensures
            p as int == self.spec_current_pos(),
    {
        self.current_pos
    }

    /// What one tick does: one sample is consumed and written into the
    /// cursor's bucket, one bar for it is drawn at that bucket's slot,
    /// and the cursor advances modulo the channel count.
    pub open spec fn draw_transition(
        pre: DirectMicVisualizer,
        post: DirectMicVisualizer,
        spre: Surface,
        spost: Surface,
        qpre: SampleSource,
        qpost: SampleSource,
        ppre: VizParameter,
        ppost: VizParameter,
    ) -> bool {
        let s = qpre.stream()[qpre.position()];
        &&& qpost.stream() == qpre.stream()
        &&& qpost.position() == qpre.position() + 1
        &&& ppost.wf()
        &&& ppost.spec_spectrum() == ppre.spec_spectrum().update(pre.spec_current_pos(), s)
        &&& post.spec_num_channels() == pre.spec_num_channels()
        &&& post.spec_current_pos() == (pre.spec_current_pos() + 1) % pre.spec_num_channels()
        &&& spost.wf()
        &&& spost.spec_background() == spre.spec_background()
        &&& spost.spec_commands() == spre.spec_commands().push(
            DrawCmd::SignedBar {
                value: s,
                x: (pre.spec_current_pos() * BUCKET_WIDTH as int) as u16,
                width: BUCKET_WIDTH,
                baseline: Y_MAX,
                color: WHITE,
            },
        )
    }

    /// One tick of the direct-mic visualizer.
    pub fn draw(
        &mut self,
        surface: &mut Surface,
        source: &mut SampleSource,
        param: &mut VizParameter,
    )
        requires
            old(self).wf(),
            old(surface).wf(),
            old(source).wf(),
            old(source).spec_remaining() >= 1,
            old(param).wf(),
        ensures
            final(self).wf(),
            Self::draw_transition(
                *old(self),
                *final(self),
                *old(surface),
                *final(surface),
                *old(source),
                *final(source),
                *old(param),
                *final(param),
            ),
            final(source).wf(),
    {
        let s = source.next_sample();
        param.set_bucket(self.current_pos as usize, s);
        surface.draw_signed_bar(s, self.current_pos * BUCKET_WIDTH, BUCKET_WIDTH, Y_MAX, WHITE);
        self.current_pos = (self.current_pos + 1) % self.num_channels;
    }
}

} // verus!
