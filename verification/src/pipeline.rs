//! The render loop's state: the surface, the sample source, the shared
//! parameter block, and exactly one active visualizer, each owned
//! exclusively for the whole run.
//!
//! Construction is the loop's init step: clear the screen, set a black
//! background, take the chosen strategy. After that the loop only ever
//! repeats `tick`; on the board it does so forever, so the loop itself —
//! together with everything that blocks on hardware — stays outside the
//! library, and callers drive `tick` as fast as samples arrive.

use vstd::prelude::*;

use crate::constants::BLACK;
use crate::constants::SPECTRUM_LEN;
use crate::params::VizParameter;
use crate::source::SampleSource;
use crate::surface::DrawCmd;
use crate::surface::Surface;
use crate::visuals::Visualizer;

verus! {

/// One render pipeline: everything a run owns.
pub struct Pipeline {
    surface: Surface,
    source: SampleSource,
    param: VizParameter,
    visualizer: Visualizer,
}

impl Pipeline {
    /// The surface as the commands so far have left it.
    pub closed spec fn spec_surface(&self) -> Surface {
        self.surface
    }

    /// The sample stream and how far it has been consumed.
    pub closed spec fn spec_source(&self) -> SampleSource {
        self.source
    }

    /// The shared parameter block.
    pub closed spec fn spec_param(&self) -> VizParameter {
        self.param
    }

    /// The active strategy and its private state.
    pub closed spec fn spec_visualizer(&self) -> Visualizer {
        self.visualizer
    }

    /// Every owned component is well formed.
    pub open spec fn wf(&self) -> bool {
        &&& self.spec_surface().wf()
        &&& self.spec_source().wf()
        &&& self.spec_param().wf()
        &&& self.spec_visualizer().wf()
    }

    /// The init step: a fresh surface is cleared and given a black
    /// background, the parameter block starts with every bucket at one,
    /// and the given stream and strategy are taken over.
    pub fn new(source: SampleSource, visualizer: Visualizer) -> (p: Pipeline)
        requires
            source.wf(),
            visualizer.wf(),
        ensures
            p.wf(),
            p.spec_source() == source,
            p.spec_visualizer() == visualizer,
            forall|i: int| 0 <= i < SPECTRUM_LEN ==> p.spec_param().spec_spectrum()[i] == 1,
            p.spec_surface().spec_background() == BLACK,
            p.spec_surface().spec_commands() == seq![
                DrawCmd::Clear,
                DrawCmd::SetBackground { color: BLACK },
            ],
            forall|x: int, y: int|
                crate::surface::on_screen(x, y) ==> #[trigger] p.spec_surface().pix(x, y)
                    == BLACK,
    {
        let mut surface = Surface::new();
        surface.clear();
        let ghost cleared = surface;
        surface.set_background(BLACK);
        proof {
            assert(surface.spec_commands() =~= seq![
                DrawCmd::Clear,
                DrawCmd::SetBackground { color: BLACK },
            ]);
            assert forall|x: int, y: int| crate::surface::on_screen(x, y) implies surface.pix(
                x,
                y,
            ) == BLACK by {
                assert(cleared.pix(x, y) == BLACK);
            }
        }
        let param = VizParameter::new();
        Pipeline { surface, source, param, visualizer }
    }

    /// How many stream values are still pending.
    pub fn samples_remaining(&self) -> (n: usize)
        requires
            self.wf(),
        ensures
            n == self.spec_source().spec_remaining(),
    {
        self.source.remaining()
    }

    /// How many stream values the next tick would consume.
    pub fn samples_needed(&self) -> (n: usize)
        ensures
            n == self.spec_visualizer().spec_samples_needed(),
    {
        self.visualizer.samples_needed()
    }

    /// One step of the running state: the active strategy consumes its
    /// samples and issues its drawing commands, as its own transition
    /// relation states.
    pub fn tick(&mut self)
        requires
            old(self).wf(),
            old(self).spec_source().spec_remaining() >= old(
                self,
            ).spec_visualizer().spec_samples_needed(),
        ensures
            final(self).wf(),
            Visualizer::draw_transition(
                old(self).spec_visualizer(),
                final(self).spec_visualizer(),
                old(self).spec_surface(),
                final(self).spec_surface(),
                old(self).spec_source(),
                final(self).spec_source(),
                old(self).spec_param(),
                final(self).spec_param(),
            ),
    {
        self.visualizer.draw(&mut self.surface, &mut self.source, &mut self.param);
    }

    /// A borrow of the surface, for reading pixels and commands.
    pub fn surface(&self) -> (s: &Surface)
        ensures
            *s == self.spec_surface(),
    {
        &self.surface
    }
}

} // verus!
