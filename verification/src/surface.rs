//! The drawing surface: a framebuffer of 16-bit packed colors together
//! with the raster primitives the visualizers use.
//!
//! Besides the pixel grid the surface keeps the list of drawing commands
//! it has carried out, in order. The commands are what a visualizer's
//! contract speaks of; the pixel clauses say what each single command does
//! to the visible state. The surface does not bounds-check on its own:
//! every primitive requires its geometry to lie inside the fixed
//! coordinate space, and callers clamp their parameters first.

use vstd::prelude::*;

use crate::constants::PIXEL_COUNT;
use crate::constants::X_MAX;
use crate::constants::Y_MAX;

verus! {

/// One raster operation carried out by the surface.
#[derive(Clone, Copy, Debug, PartialEq, Eq, Structural)]
pub enum DrawCmd {
    /// Fill the whole surface with the background color.
    Clear,
    /// Set the persistent clear color.
    SetBackground { color: u16 },
    /// Draw a filled disc.
    FillCircle { x: u16, y: u16, radius: u16, color: u16 },
    /// Draw a vertical bar whose height scales with `value` and whose
    /// direction from the baseline encodes the sign of `value`.
    SignedBar { value: i16, x: u16, width: u16, baseline: u16, color: u16 },
}

/// Magnitude of a signed sample, as a mathematical integer.
pub open spec fn sample_magnitude(v: i16) -> int {
    if v < 0 {
        -(v as int)
    } else {
        v as int
    }
}

/// Height in pixels of the bar drawn for `value`: the magnitude scaled
/// down so that the largest sample still fits the display's height.
pub open spec fn bar_height(value: i16) -> int {
    sample_magnitude(value) / 128
}

/// Whether the pixel `(x, y)` lies on the display.
pub open spec fn on_screen(x: int, y: int) -> bool {
    0 <= x < X_MAX as int && 0 <= y < Y_MAX as int
}

/// Whether the pixel `(x, y)` belongs to the filled disc of radius `r`
/// around `(cx, cy)`. A radius of zero covers nothing.
pub open spec fn circle_covers(cx: int, cy: int, r: int, x: int, y: int) -> bool {
    r > 0 && (x - cx) * (x - cx) + (y - cy) * (y - cy) <= r * r
}

/// Whether the pixel `(x, y)` belongs to the signed bar for `value`
/// over columns `x0 .. x0 + w`: above the baseline for a non-negative
/// value, below it for a negative one.
pub open spec fn bar_covers(value: i16, x0: int, w: int, baseline: int, x: int, y: int) -> bool {
    &&& x0 <= x < x0 + w
    &&& if value >= 0 {
        baseline - bar_height(value) <= y < baseline
    } else {
        baseline <= y < baseline + bar_height(value)
    }
}

/// The framebuffer model: one 16-bit color per pixel, the persistent
/// background color, and the log of commands carried out so far.
pub struct Surface {
    background: u16,
    pixels: Vec<u16>,
    commands: Vec<DrawCmd>,
}

impl Surface {
    /// The surface holds exactly one color per pixel of the display.
    pub closed spec fn wf(&self) -> bool {
        self.pixels@.len() == PIXEL_COUNT
    }

    /// The persistent clear color.
    pub closed spec fn spec_background(&self) -> u16 {
        self.background
    }

    /// The pixel grid, row by row.
    pub closed spec fn spec_pixels(&self) -> Seq<u16> {
        self.pixels@
    }

    /// The commands carried out so far, oldest first.
    pub closed spec fn spec_commands(&self) -> Seq<DrawCmd> {
        self.commands@
    }

    /// The color of the pixel at `(x, y)`.
    pub open spec fn pix(&self, x: int, y: int) -> u16 {
        self.spec_pixels()[y * (X_MAX as int) + x]
    }

    /// A fresh surface: black pixels, black background, nothing drawn yet.
    pub fn new() -> (s: Surface)
        ensures
            s.wf(),
            s.spec_background() == 0,
            s.spec_commands() == Seq::<DrawCmd>::empty(),
            forall|x: int, y: int| on_screen(x, y) ==> #[trigger] s.pix(x, y) == 0,
    {
        let mut pixels: Vec<u16> = Vec::new();
        let mut i: usize = 0;
        while i < PIXEL_COUNT
            invariant
                i <= PIXEL_COUNT,
                pixels@.len() == i,
                forall|j: int| 0 <= j < i ==> pixels@[j] == 0,
            decreases PIXEL_COUNT - i,
        {
            pixels.push(0);
            i = i + 1;
        }
        Surface { background: 0, pixels, commands: Vec::new() }
    }

    /// What `set_background` does: the clear color changes, the pixels
    /// stay, and the command is recorded.
    pub open spec fn set_background_transition(pre: Surface, post: Surface, color: u16) -> bool {
        &&& post.wf()
        &&& post.spec_background() == color
        &&& post.spec_pixels() == pre.spec_pixels()
        &&& post.spec_commands() == pre.spec_commands().push(DrawCmd::SetBackground { color })
    }

    /// Sets the persistent clear color used by `clear`.
    pub fn set_background(&mut self, color: u16)
        requires
            old(self).wf(),
        ensures
            Self::set_background_transition(*old(self), *final(self), color),
    {
        self.background = color;
        self.commands.push(DrawCmd::SetBackground { color });
    }

    /// What `clear` does: every pixel takes the background color, the
    /// background stays, and the command is recorded.
    pub open spec fn clear_transition(pre: Surface, post: Surface) -> bool {
        &&& post.wf()
        &&& post.spec_background() == pre.spec_background()
        &&& post.spec_commands() == pre.spec_commands().push(DrawCmd::Clear)
        &&& forall|x: int, y: int|
            on_screen(x, y) ==> #[trigger] post.pix(x, y) == pre.spec_background()
    }

    /// Fills the whole surface with the background color.
    #[verifier::loop_isolation(false)]
    pub fn clear(&mut self)
        requires
            old(self).wf(),
        ensures
            Self::clear_transition(*old(self), *final(self)),
    {
        let bg = self.background;
        let mut i: usize = 0;
        while i < PIXEL_COUNT
            invariant
                i <= PIXEL_COUNT,
                self.background == old(self).background,
                self.commands@ == old(self).commands@,
                self.pixels@.len() == PIXEL_COUNT,
                forall|j: int| 0 <= j < i ==> self.pixels@[j] == bg,
            decreases PIXEL_COUNT - i,
        {
            self.pixels[i] = bg;
            i = i + 1;
        }
        self.commands.push(DrawCmd::Clear);
    }

    /// What `fill_circle` does: pixels on the disc take `color`, all
    /// others stay, and the command is recorded.
    pub open spec fn fill_circle_transition(
        pre: Surface,
        post: Surface,
        x: u16,
        y: u16,
        radius: u16,
        color: u16,
    ) -> bool {
        &&& post.wf()
        &&& post.spec_background() == pre.spec_background()
        &&& post.spec_commands() == pre.spec_commands().push(
            DrawCmd::FillCircle { x, y, radius, color },
        )
        &&& forall|px: int, py: int|
            on_screen(px, py) ==> #[trigger] post.pix(px, py) == (if circle_covers(
                x as int,
                y as int,
                radius as int,
                px,
                py,
            ) {
                color
            } else {
                pre.pix(px, py)
            })
    }

    /// Draws a filled disc of the given radius around `(x, y)`. The disc
    /// must lie on the display; a radius of zero draws nothing.
    #[verifier::loop_isolation(false)]
    pub fn fill_circle(&mut self, x: u16, y: u16, radius: u16, color: u16)
        requires
            old(self).wf(),
            radius <= x,
            x + radius < X_MAX,
            radius <= y,
            y + radius < Y_MAX,
        ensures
            Self::fill_circle_transition(*old(self), *final(self), x, y, radius, color),
    {
        self.commands.push(DrawCmd::FillCircle { x, y, radius, color });
        if radius == 0 {
            return ;
        }
        let y0 = y - radius;
        let y1 = y + radius;
        let x0 = x - radius;
        let x1 = x + radius;
        proof {
            lemma_circle_inside_box(x as int, y as int, radius as int);
        }
        let mut yy = y0;
        while yy <= y1
            invariant
                y0 <= yy <= y1 + 1,
                self.background == old(self).background,
                self.commands@ == old(self).commands@.push(
                    DrawCmd::FillCircle { x, y, radius, color },
                ),
                self.pixels@.len() == PIXEL_COUNT,
                forall|px: int, py: int|
                    on_screen(px, py) ==> self.pix(px, py) == (if py < yy && circle_covers(
                        x as int,
                        y as int,
                        radius as int,
                        px,
                        py,
                    ) {
                        color
                    } else {
                        old(self).pix(px, py)
                    }),
            decreases y1 + 1 - yy,
        {
            proof {
                lemma_circle_inside_box(x as int, y as int, radius as int);
            }
            let mut xx = x0;
            while xx <= x1
                invariant
                    x0 <= xx <= x1 + 1,
                    y0 <= yy <= y1,
                    self.background == old(self).background,
                    self.commands@ == old(self).commands@.push(
                        DrawCmd::FillCircle { x, y, radius, color },
                    ),
                    self.pixels@.len() == PIXEL_COUNT,
                    forall|px: int, py: int|
                        on_screen(px, py) ==> self.pix(px, py) == (if (py < yy || (py == yy && px
                            < xx)) && circle_covers(x as int, y as int, radius as int, px, py) {
                            color
                        } else {
                            old(self).pix(px, py)
                        }),
                decreases x1 + 1 - xx,
            {
                let dx: i32 = xx as i32 - x as i32;
                let dy: i32 = yy as i32 - y as i32;
                proof {
                    assert(0 <= dx as int * dx as int <= 480 * 480 && 0 <= dy as int * dy as int
                        <= 480 * 480 && 0 <= radius as int * radius as int <= 480 * 480)
                        by (nonlinear_arith)
                        requires
                            -480 <= dx as int <= 480,
                            -480 <= dy as int <= 480,
                            0 <= radius as int <= 480,
                    ;
                }
                if dx * dx + dy * dy <= (radius as i32) * (radius as i32) {
                    let idx: usize = (yy as usize) * 480 + (xx as usize);
                    self.pixels[idx] = color;
                }
                xx = xx + 1;
            }
            yy = yy + 1;
        }
        proof {
            lemma_circle_inside_box(x as int, y as int, radius as int);
        }
    }

    /// What `draw_signed_bar` does: pixels on the bar take `color`, all
    /// others stay, and the command is recorded.
    pub open spec fn signed_bar_transition(
        pre: Surface,
        post: Surface,
        value: i16,
        x: u16,
        width: u16,
        baseline: u16,
        color: u16,
    ) -> bool {
        &&& post.wf()
        &&& post.spec_background() == pre.spec_background()
        &&& post.spec_commands() == pre.spec_commands().push(
            DrawCmd::SignedBar { value, x, width, baseline, color },
        )
        &&& forall|px: int, py: int|
            on_screen(px, py) ==> #[trigger] post.pix(px, py) == (if bar_covers(
                value,
                x as int,
                width as int,
                baseline as int,
                px,
                py,
            ) {
                color
            } else {
                pre.pix(px, py)
            })
    }

    /// Draws a vertical bar over columns `x .. x + width`: upward from
    /// the baseline for a non-negative `value`, downward for a negative
    /// one, with a height proportional to the magnitude of `value`. The
    /// bar is clipped to the display at the top and at the bottom.
    #[verifier::loop_isolation(false)]
    pub fn draw_signed_bar(&mut self, value: i16, x: u16, width: u16, baseline: u16, color: u16)
        requires
            old(self).wf(),
            x + width <= X_MAX,
            baseline <= Y_MAX,
        ensures
            Self::signed_bar_transition(*old(self), *final(self), value, x, width, baseline, color),
    {
        self.commands.push(DrawCmd::SignedBar { value, x, width, baseline, color });
        let mag: u32 = if value < 0 {
            (-(value as i32)) as u32
        } else {
            value as u32
        };
        let h: u16 = (mag / 128) as u16;
        let y0: u16;
        let y1: u16;
        if value >= 0 {
            y0 = if h > baseline {
                0
            } else {
                baseline - h
            };
            y1 = baseline;
        } else {
            y0 = baseline;
            y1 = if baseline + h > Y_MAX {
                Y_MAX
            } else {
                baseline + h
            };
        }
        let mut yy = y0;
        while yy < y1
            invariant
                y0 <= yy <= y1,
                self.background == old(self).background,
                self.commands@ == old(self).commands@.push(
                    DrawCmd::SignedBar { value, x, width, baseline, color },
                ),
                self.pixels@.len() == PIXEL_COUNT,
                forall|px: int, py: int|
                    on_screen(px, py) ==> self.pix(px, py) == (if y0 <= py < yy && x as int <= px
                        < x as int + width as int {
                        color
                    } else {
                        old(self).pix(px, py)
                    }),
            decreases y1 - yy,
        {
            let mut xx = x;
            while xx < x + width
                invariant
                    x <= xx <= x + width,
                    y0 <= yy < y1,
                    self.background == old(self).background,
                    self.commands@ == old(self).commands@.push(
                        DrawCmd::SignedBar { value, x, width, baseline, color },
                    ),
                    self.pixels@.len() == PIXEL_COUNT,
                    forall|px: int, py: int|
                        on_screen(px, py) ==> self.pix(px, py) == (if (y0 <= py < yy && x as int
                            <= px < x as int + width as int) || (py == yy && x as int <= px < xx) {
                            color
                        } else {
                            old(self).pix(px, py)
                        }),
                decreases x + width - xx,
            {
                let idx: usize = (yy as usize) * 480 + (xx as usize);
                self.pixels[idx] = color;
                xx = xx + 1;
            }
            yy = yy + 1;
        }
    }

    /// The color of the pixel at `(x, y)`.
    pub fn pixel(&self, x: u16, y: u16) -> (p: u16)
        requires
            self.wf(),
            x < X_MAX,
            y < Y_MAX,
        ensures
            p == self.pix(x as int, y as int),
    {
        self.pixels[(y as usize) * 480 + (x as usize)]
    }

    /// The persistent clear color.
    pub fn background_color(&self) -> (c: u16)
        ensures
            c == self.spec_background(),
    {
        self.background
    }

    /// How many commands the surface has carried out.
    pub fn command_count(&self) -> (n: usize)
        ensures
            n == self.spec_commands().len(),
    {
        self.commands.len()
    }

    /// The `i`-th command carried out, oldest first.
    pub fn command_at(&self, i: usize) -> (c: DrawCmd)
        requires
            i < self.spec_commands().len(),
        ensures
            c == self.spec_commands()[i as int],
    {
        self.commands[i]
    }
}

/// From a bounded square to a bounded factor: if `a * a <= r * r` for a
/// non-negative `r`, then `a` lies between `-r` and `r`.
proof fn lemma_square_bound(a: int, r: int)
    requires
        0 <= r,
        a * a <= r * r,
    ensures
        -r <= a <= r,
{
    assert(-r <= a <= r) by (nonlinear_arith)
        requires
            0 <= r,
            a * a <= r * r,
    ;
}

/// Every pixel of the disc of radius `r` around `(cx, cy)` lies in the
/// square of side `2 * r` around the center.
proof fn lemma_circle_inside_box(cx: int, cy: int, r: int)
    ensures
        forall|px: int, py: int|
            circle_covers(cx, cy, r, px, py) ==> cx - r <= px <= cx + r && cy - r <= py <= cy + r,
{
    assert forall|px: int, py: int| circle_covers(cx, cy, r, px, py) implies cx - r <= px <= cx + r
        && cy - r <= py <= cy + r by {
        assert((px - cx) * (px - cx) <= r * r && (py - cy) * (py - cy) <= r * r)
            by (nonlinear_arith)
            requires
                (px - cx) * (px - cx) + (py - cy) * (py - cy) <= r * r,
        ;
        lemma_square_bound(px - cx, r);
        lemma_square_bound(py - cy, r);
    }
}

/// Clearing is idempotent on the visible state: a second clear leaves
/// the pixels and the background exactly as the first clear left them.
pub proof fn lemma_clear_idempotent(a: Surface, b: Surface, c: Surface)
    requires
        Surface::clear_transition(a, b),
        Surface::clear_transition(b, c),
    ensures
        c.spec_background() == b.spec_background(),
        forall|x: int, y: int| on_screen(x, y) ==> c.pix(x, y) == b.pix(x, y),
{
}

/// A circle of radius zero covers no pixel: the command is recorded, but
/// every pixel keeps its prior color.
pub proof fn lemma_fill_circle_zero_radius(pre: Surface, post: Surface, x: u16, y: u16, color: u16)
    requires
        Surface::fill_circle_transition(pre, post, x, y, 0, color),
    ensures
        forall|px: int, py: int| on_screen(px, py) ==> post.pix(px, py) == pre.pix(px, py),
{
}

} // verus!
