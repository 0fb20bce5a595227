//! The default visualizer: the whole spectrum rendered as adjacent bars
//! in a foreground color over a freshly cleared background.

use vstd::prelude::*;

use crate::constants::BUCKET_WIDTH;
use crate::constants::SPECTRUM_LEN;
use crate::constants::Y_MAX;
use crate::params::VizParameter;
use crate::source::SampleSource;
use crate::surface::DrawCmd;
use crate::surface::Surface;

verus! {

/// The bar drawn for bucket `i` of a spectrum: one signed bar of bucket
/// width, at the bucket's own horizontal slot, in the foreground color.
pub open spec fn bucket_bar(spectrum: Seq<i16>, c1: u16, i: int) -> DrawCmd {
    DrawCmd::SignedBar {
        value: spectrum[i],
        x: (i * BUCKET_WIDTH as int) as u16,
        width: BUCKET_WIDTH,
        baseline: Y_MAX,
        color: c1,
    }
}

/// Stateless beyond its two colors: foreground for the bars, background
/// for the clear that precedes them.
pub struct DefaultVisualizer {
    color1: u16,
    color2: u16,
}

impl DefaultVisualizer {
    /// The foreground color the bars are drawn in.
    pub closed spec fn spec_color1(&self) -> u16 {
        self.color1
    }

    /// The background color set and cleared to before the bars.
    pub closed spec fn spec_color2(&self) -> u16 {
        self.color2
    }

    /// A default visualizer with the given foreground and background.
    pub fn new(color1: u16, color2: u16) -> (v: Box<DefaultVisualizer>)
        ensures
            v.spec_color1() == color1,
            v.spec_color2() == color2,
    {
        Box::new(DefaultVisualizer { color1, color2 })
    }

    /// What one tick does: the background is set and the screen cleared,
    /// then exactly one bar per bucket is drawn, in bucket order, each in
    /// the foreground color. No sample is consumed and the spectrum is
    /// only read.
    pub open spec fn draw_transition(
        pre: DefaultVisualizer,
        post: DefaultVisualizer,
        spre: Surface,
        spost: Surface,
        ppre: VizParameter,
    ) -> bool {
        &&& post == pre
        &&& spost.wf()
        &&& spost.spec_background() == pre.spec_color2()
        &&& spost.spec_commands() == spre.spec_commands() + seq![
            DrawCmd::SetBackground { color: pre.spec_color2() },
            DrawCmd::Clear,
        ] + Seq::new(
            SPECTRUM_LEN as nat,
            |i: int| bucket_bar(ppre.spec_spectrum(), pre.spec_color1(), i),
        )
    }

    /// The bar commands of one tick: rendering adds, after the
    /// background change and the clear, exactly one bar per bucket, in
    /// bucket order zero to fifteen, each carrying that bucket's value
    /// and the foreground color.
    pub proof fn lemma_draw_bars_in_order(
        pre: DefaultVisualizer,
        post: DefaultVisualizer,
        spre: Surface,
        spost: Surface,
        ppre: VizParameter,
    )
        requires
            Self::draw_transition(pre, post, spre, spost, ppre),
        ensures
            spost.spec_commands().len() == spre.spec_commands().len() + 2 + SPECTRUM_LEN,
            spost.spec_commands()[spre.spec_commands().len() as int] == (DrawCmd::SetBackground {
                color: pre.spec_color2(),
            }),
            spost.spec_commands()[spre.spec_commands().len() + 1int] == DrawCmd::Clear,
            forall|i: int|
                0 <= i < SPECTRUM_LEN ==> spost.spec_commands()[spre.spec_commands().len() + 2int
                    + i]
                    == (DrawCmd::SignedBar {
                    value: ppre.spec_spectrum()[i],
                    x: (i * BUCKET_WIDTH as int) as u16,
                    width: BUCKET_WIDTH,
                    baseline: Y_MAX,
                    color: pre.spec_color1(),
                }),
    {
    }

    /// One tick of the default visualizer.
    #[verifier::loop_isolation(false)]
    pub fn draw(
        &mut self,
        surface: &mut Surface,
        source: &mut SampleSource,
        param: &mut VizParameter,
    )
        requires
            old(surface).wf(),
            old(param).wf(),
        ensures
            Self::draw_transition(
                *old(self),
                *final(self),
                *old(surface),
                *final(surface),
                *old(param),
            ),
            *final(source) == *old(source),
            *final(param) == *old(param),
    {
        surface.set_background(self.color2);
        surface.clear();
        let ghost head = old(surface).spec_commands() + seq![
            DrawCmd::SetBackground { color: self.color2 },
            DrawCmd::Clear,
        ];
        proof {
            assert(surface.spec_commands() =~= head);
        }
        let mut i: usize = 0;
        while i < SPECTRUM_LEN
            invariant
                i <= SPECTRUM_LEN,
                surface.wf(),
                surface.spec_background() == self.color2,
                surface.spec_commands() =~= head + Seq::new(
                    i as nat,
                    |j: int| bucket_bar(param.spec_spectrum(), self.color1, j),
                ),
            decreases SPECTRUM_LEN - i,
        {
            let v = param.bucket(i);
            surface.draw_signed_bar(v, (i as u16) * BUCKET_WIDTH, BUCKET_WIDTH, Y_MAX, self.color1);
            proof {
                assert(surface.spec_commands() =~= head + Seq::new(
                    (i + 1) as nat,
                    |j: int| bucket_bar(param.spec_spectrum(), self.color1, j),
                ));
            }
            i = i + 1;
        }
        proof {
            assert(surface.spec_commands() =~= old(surface).spec_commands() + seq![
                DrawCmd::SetBackground { color: self.color2 },
                DrawCmd::Clear,
            ] + Seq::new(
                SPECTRUM_LEN as nat,
                |j: int| bucket_bar(param.spec_spectrum(), self.color1, j),
            ));
        }
    }
}

} // verus!
