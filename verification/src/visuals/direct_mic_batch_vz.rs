//! The batch direct microphone visualizer: each tick pulls a fixed batch
//! of samples and draws one bar per sample at an advancing horizontal
//! cursor. When the cursor together with two bar widths would exceed the
//! horizontal extent, the screen is cleared and the cursor resets to
//! zero before the batch continues — a full-screen wrap that can happen
//! in the middle of a batch.

use vstd::arithmetic::div_mod::lemma_add_mod_noop;
use vstd::arithmetic::div_mod::lemma_fundamental_div_mod;
use vstd::arithmetic::div_mod::lemma_mod_bound;
use vstd::arithmetic::div_mod::lemma_mod_multiples_vanish;
use vstd::arithmetic::mul::lemma_mul_inequality;
use vstd::prelude::*;

use crate::constants::BATCH_LEN;
use crate::constants::RED;
use crate::constants::X_MAX;
use crate::constants::Y_MAX;
use crate::params::VizParameter;
use crate::source::SampleSource;
use crate::surface::DrawCmd;
use crate::surface::Surface;

verus! {

/// Whether a bar drawn from cursor `p` with bar width `w` runs into the
/// wrap margin: the cursor plus two bar widths reaches the horizontal
/// extent.
pub open spec fn wraps(p: int, w: int) -> bool {
    p + 2 * w >= X_MAX as int
}

/// The cursor after drawing one bar from cursor `p`: on a wrap the
/// screen restarts at zero and the bar lands there, so the cursor moves
/// to `w`; otherwise it advances by `w`.
pub open spec fn step_pos(p: int, w: int) -> int {
    if wraps(p, w) {
        w
    } else {
        p + w
    }
}

/// The cursor after drawing one bar for each of `n` samples.
pub open spec fn run_pos(p: int, w: int, n: nat) -> int
    decreases n,
{
    if n == 0 {
        p
    } else {
        run_pos(step_pos(p, w), w, (n - 1) as nat)
    }
}

/// The bar drawn for one sample at cursor `p`.
pub open spec fn batch_bar(v: i16, p: int, w: int, c: u16) -> DrawCmd {
    DrawCmd::SignedBar { value: v, x: p as u16, width: w as u16, baseline: Y_MAX, color: c }
}

/// The commands one sample adds: a clear first when the cursor wraps,
/// then its bar at the (possibly reset) cursor.
pub open spec fn step_cmds(v: i16, p: int, w: int, c: u16) -> Seq<DrawCmd> {
    if wraps(p, w) {
        seq![DrawCmd::Clear, batch_bar(v, 0, w, c)]
    } else {
        seq![batch_bar(v, p, w, c)]
    }
}

/// The commands a whole batch adds, sample by sample.
pub open spec fn batch_cmds(p: int, w: int, c: u16, samples: Seq<i16>) -> Seq<DrawCmd>
    decreases samples.len(),
{
    if samples.len() == 0 {
        Seq::<DrawCmd>::empty()
    } else {
        step_cmds(samples[0], p, w, c) + batch_cmds(step_pos(p, w), w, c, samples.drop_first())
    }
}

/// How many bars of width `w` fit before the wrap margin. From cursor
/// zero, exactly this many bars are drawn before the first wrap.
pub open spec fn wrap_slots(w: int) -> int {
    if X_MAX as int - 2 * w <= 0 {
        1
    } else {
        (X_MAX as int - 2 * w + w - 1) / w
    }
}

/// The wrap threshold in pixels: the reachable cursor positions are the
/// multiples of `w` up to this value, and the cursor, taken modulo it,
/// advances by `w` per bar.
pub open spec fn wrap_threshold(w: int) -> int {
    wrap_slots(w) * w
}

/// Placement of the wrap threshold: it is at least one bar width, below
/// the horizontal extent, and the least multiple of `w` at or past the
/// wrap margin.
pub proof fn lemma_slots_bounds(w: int)
    requires
        1 <= w <= 240,
    ensures
        w <= wrap_threshold(w) < X_MAX as int,
        X_MAX as int - 2 * w <= wrap_threshold(w),
        wrap_threshold(w) - w < X_MAX as int - 2 * w || X_MAX as int - 2 * w <= 0,
        wrap_threshold(w) % w == 0,
{
    let a = X_MAX as int - 2 * w;
    if a <= 0 {
        assert(wrap_slots(w) == 1);
        assert(wrap_threshold(w) == 1 * w);
        lemma_mod_multiples_vanish(1, 0, w);
        assert(w * 1 + 0 == 1 * w);
    } else {
        let q = (a + w - 1) / w;
        lemma_fundamental_div_mod(a + w - 1, w);
        lemma_mod_bound(a + w - 1, w);
        assert(a + w - 1 == w * q + (a + w - 1) % w);
        assert(wrap_threshold(w) == q * w);
        assert(w * q == q * w) by (nonlinear_arith);
        assert(q * w >= a);
        assert(q >= 1) by (nonlinear_arith)
            requires
                w >= 1,
                w * q >= 1,
        ;
        lemma_mul_inequality(1, q, w);
        assert(1 * w == w) by (nonlinear_arith);
        lemma_mod_multiples_vanish(q, 0, w);
    }
}

/// One bar preserves the cursor's shape — a multiple of `w` no larger
/// than the wrap threshold — and advances it by `w` modulo the
/// threshold.
pub proof fn lemma_step_preserves(p: int, w: int)
    requires
        1 <= w <= 240,
        0 <= p <= wrap_threshold(w),
        p % w == 0,
    ensures
        0 <= step_pos(p, w) <= wrap_threshold(w),
        step_pos(p, w) % w == 0,
        step_pos(p, w) % wrap_threshold(w) == (p + w) % wrap_threshold(w),
{
    let t = wrap_threshold(w);
    let a = X_MAX as int - 2 * w;
    lemma_slots_bounds(w);
    lemma_fundamental_div_mod(p, w);
    assert(p == w * (p / w));
    if p < t {
        // Below the threshold the cursor is at most one bar width short
        // of it, because both are multiples of the width.
        let k = p / w;
        assert(k * w == w * k) by (nonlinear_arith);
        if k >= wrap_slots(w) {
            lemma_mul_inequality(wrap_slots(w), k, w);
            assert(false);
        }
        lemma_mul_inequality(k, wrap_slots(w) - 1, w);
        assert((wrap_slots(w) - 1) * w == wrap_slots(w) * w - w) by (nonlinear_arith);
        assert(p <= t - w);
    }
    if wraps(p, w) {
        // A wrapping cursor is either the threshold itself or — only
        // when two bars never fit — the transient initial zero.
        if a > 0 {
            assert(p == t);
        } else {
            assert(wrap_slots(w) == 1);
            assert(t == 1 * w);
            assert(1 * w == w) by (nonlinear_arith);
            assert(p == 0 || p == t);
        }
        if p == t {
            lemma_mod_multiples_vanish(1, w, t);
            assert(t * 1 + w == p + w);
        }
        lemma_mod_multiples_vanish(0, w, w);
    } else {
        lemma_mod_multiples_vanish(1, p, w);
        assert(w * 1 + p == p + w);
    }
}

/// After `n` bars with bar width `w`, the horizontal cursor, taken
/// modulo the wrap threshold, has advanced from its initial value by
/// `n` bar widths — the closed form of the batch's wrap-and-reset walk.
pub proof fn lemma_batch_cursor_advance(p: int, w: int, n: nat)
    requires
        1 <= w <= 240,
        0 <= p <= wrap_threshold(w),
        p % w == 0,
    ensures
        0 <= run_pos(p, w, n) <= wrap_threshold(w),
        run_pos(p, w, n) % w == 0,
        run_pos(p, w, n) % wrap_threshold(w) == (p + n * w) % wrap_threshold(w),
    decreases n,
{
    let t = wrap_threshold(w);
    lemma_slots_bounds(w);
    if n == 0 {
        assert(n * w == 0) by (nonlinear_arith)
            requires
                n == 0,
        ;
    } else {
        let s = step_pos(p, w);
        lemma_step_preserves(p, w);
        lemma_batch_cursor_advance(s, w, (n - 1) as nat);
        let c = (n - 1) as nat * w;
        lemma_add_mod_noop(s, c, t);
        lemma_add_mod_noop(p + w, c, t);
        assert(run_pos(p, w, n) % t == (s + c) % t);
        assert((s % t + c % t) % t == ((p + w) % t + c % t) % t);
        assert(p + w + c == p + n * w) by (nonlinear_arith)
            requires
                n >= 1,
                c == (n - 1) as nat * w,
        ;
    }
}

/// Appending one sample to a batch appends that sample's commands, drawn
/// at the cursor the batch ends with.
proof fn lemma_run_pos_snoc(p: int, w: int, n: nat)
    ensures
        run_pos(p, w, (n + 1) as nat) == step_pos(run_pos(p, w, n), w),
    decreases n,
{
    if n == 0 {
        assert(run_pos(p, w, 1) == run_pos(step_pos(p, w), w, 0));
    } else {
        lemma_run_pos_snoc(step_pos(p, w), w, (n - 1) as nat);
        assert(run_pos(p, w, (n + 1) as nat) == run_pos(step_pos(p, w), w, n));
        assert(run_pos(p, w, n) == run_pos(step_pos(p, w), w, (n - 1) as nat));
    }
}

proof fn lemma_batch_cmds_snoc(p: int, w: int, c: u16, s: Seq<i16>, v: i16)
    ensures
        batch_cmds(p, w, c, s.push(v)) == batch_cmds(p, w, c, s) + step_cmds(
            v,
            run_pos(p, w, s.len()),
            w,
            c,
        ),
    decreases s.len(),
{
    if s.len() == 0 {
        assert(s.push(v).drop_first() =~= Seq::<i16>::empty());
        assert(s.push(v)[0] == v);
        assert(batch_cmds(p, w, c, s.push(v)) == step_cmds(v, p, w, c) + batch_cmds(
            step_pos(p, w),
            w,
            c,
            Seq::<i16>::empty(),
        ));
        assert(batch_cmds(step_pos(p, w), w, c, Seq::<i16>::empty()) == Seq::<DrawCmd>::empty());
        assert(run_pos(p, w, 0) == p);
        assert(batch_cmds(p, w, c, s.push(v)) =~= batch_cmds(p, w, c, s) + step_cmds(
            v,
            run_pos(p, w, s.len()),
            w,
            c,
        ));
    } else {
        assert(s.push(v)[0] == s[0]);
        assert(s.push(v).drop_first() =~= s.drop_first().push(v));
        lemma_batch_cmds_snoc(step_pos(p, w), w, c, s.drop_first(), v);
        assert(run_pos(p, w, s.len()) == run_pos(step_pos(p, w), w, (s.len() - 1) as nat));
        assert(s.drop_first().len() == s.len() - 1);
        assert(batch_cmds(p, w, c, s.push(v)) == step_cmds(s[0], p, w, c) + batch_cmds(
            step_pos(p, w),
            w,
            c,
            s.drop_first().push(v),
        ));
        assert(batch_cmds(p, w, c, s) == step_cmds(s[0], p, w, c) + batch_cmds(
            step_pos(p, w),
            w,
            c,
            s.drop_first(),
        ));
        assert(batch_cmds(p, w, c, s.push(v)) =~= batch_cmds(p, w, c, s) + step_cmds(
            v,
            run_pos(p, w, s.len()),
            w,
            c,
        ));
    }
}

/// The samples one batch read hands over: one channel's value of each
/// conversion cycle, so every other element of the stream from the
/// current position.
pub open spec fn batch_of(stream: Seq<i16>, pos: int) -> Seq<i16> {
    Seq::new(BATCH_LEN as nat, |i: int| stream[pos + 2 * i])
}

/// Carries the horizontal cursor and the bar width across ticks.
pub struct DirectMicBatchVisualizer {
    current_pos: u16,
    bar_width: u16,
}

impl DirectMicBatchVisualizer {
    /// The cursor the next bar is drawn at.
    pub closed spec fn spec_current_pos(&self) -> int {
        self.current_pos as int
    }

    /// The width of each bar.
    pub closed spec fn spec_bar_width(&self) -> int {
        self.bar_width as int
    }

    /// Two bars fit the display, and the cursor is a reachable position:
    /// a multiple of the bar width no larger than the wrap threshold.
    pub open spec fn wf(&self) -> bool {
        &&& 1 <= self.spec_bar_width() <= 240
        &&& 0 <= self.spec_current_pos() <= wrap_threshold(self.spec_bar_width())
        &&& self.spec_current_pos() % self.spec_bar_width() == 0
    }

    /// A fresh batch visualizer with its cursor at the left edge. The
    /// bar width must leave room for at least two bars, so that the wrap
    /// policy and not the display edge bounds every bar.
    pub fn new(bar_width: u16) -> (v: Box<DirectMicBatchVisualizer>)
        requires
            1 <= bar_width <= 240,
        ensures
            v.wf(),
            v.spec_current_pos() == 0,
            v.spec_bar_width() == bar_width,
    {
        proof {
            lemma_slots_bounds(bar_width as int);
        }
        Box::new(DirectMicBatchVisualizer { current_pos: 0, bar_width })
    }

    /// The cursor the next bar is drawn at.
    pub fn current_pos(&self) -> (p: u16)
        ensures
            p as int == self.spec_current_pos(),
    {
        self.current_pos
    }

    /// The width of each bar.
    pub fn bar_width(&self) -> (w: u16)
        ensures
            w as int == self.spec_bar_width(),
    {
        self.bar_width
    }

    /// Draws one bar per sample, wrapping as the spec functions above
    /// describe: the cursor ends at `run_pos`, and exactly the commands
    /// of `batch_cmds` are issued, in order.
    #[verifier::loop_isolation(false)]
    pub fn draw_batch(&mut self, surface: &mut Surface, samples: &Vec<i16>)
        requires
            old(self).wf(),
            old(surface).wf(),
        ensures
            final(self).wf(),
            final(self).spec_bar_width() == old(self).spec_bar_width(),
            final(self).spec_current_pos() == run_pos(
                old(self).spec_current_pos(),
                old(self).spec_bar_width(),
                samples@.len(),
            ),
            final(surface).wf(),
            final(surface).spec_background() == old(surface).spec_background(),
            final(surface).spec_commands() == old(surface).spec_commands() + batch_cmds(
                old(self).spec_current_pos(),
                old(self).spec_bar_width(),
                RED,
                samples@,
            ),
    {
        let w = self.bar_width;
        let ghost p0 = old(self).spec_current_pos();
        let mut i: usize = 0;
        while i < samples.len()
            invariant
                i <= samples@.len(),
                self.bar_width == old(self).bar_width,
                self.wf(),
                self.spec_current_pos() == run_pos(p0, w as int, i as nat),
                surface.wf(),
                surface.spec_background() == old(surface).spec_background(),
                surface.spec_commands() == old(surface).spec_commands() + batch_cmds(
                    p0,
                    w as int,
                    RED,
                    samples@.take(i as int),
                ),
            decreases samples@.len() - i,
        {
            let v = samples[i];
            proof {
                lemma_slots_bounds(w as int);
                lemma_step_preserves(self.spec_current_pos(), w as int);
                lemma_run_pos_snoc(p0, w as int, i as nat);
                lemma_batch_cmds_snoc(p0, w as int, RED, samples@.take(i as int), v);
                assert(samples@.take(i as int).push(v) =~= samples@.take(i + 1));
            }
            if self.current_pos + 2 * w >= X_MAX {
                self.current_pos = 0;
                surface.clear();
            }
            surface.draw_signed_bar(v, self.current_pos, w, Y_MAX, RED);
            self.current_pos = self.current_pos + w;
            i = i + 1;
        }
        proof {
            assert(samples@.take(samples@.len() as int) =~= samples@);
        }
    }

    /// What one tick does: a full batch of one channel's samples is
    /// pulled — advancing the stream by two values per sample — and
    /// drawn bar by bar with the wrap policy above.
    pub open spec fn draw_transition(
        pre: DirectMicBatchVisualizer,
        post: DirectMicBatchVisualizer,
        spre: Surface,
        spost: Surface,
        qpre: SampleSource,
        qpost: SampleSource,
    ) -> bool {
        let samples = batch_of(qpre.stream(), qpre.position());
        &&& qpost.stream() == qpre.stream()
        &&& qpost.position() == qpre.position() + 2 * BATCH_LEN
        &&& post.spec_bar_width() == pre.spec_bar_width()
        &&& post.spec_current_pos() == run_pos(
            pre.spec_current_pos(),
            pre.spec_bar_width(),
            BATCH_LEN as nat,
        )
        &&& spost.wf()
        &&& spost.spec_background() == spre.spec_background()
        &&& spost.spec_commands() == spre.spec_commands() + batch_cmds(
            pre.spec_current_pos(),
            pre.spec_bar_width(),
            RED,
            samples,
        )
    }

    /// One tick of the batch visualizer.
    pub fn draw(
        &mut self,
        surface: &mut Surface,
        source: &mut SampleSource,
        param: &mut VizParameter,
    )
        requires
            old(self).wf(),
            old(surface).wf(),
            old(source).wf(),
            old(source).spec_remaining() >= 2 * BATCH_LEN,
        ensures
            final(self).wf(),
            Self::draw_transition(
                *old(self),
                *final(self),
                *old(surface),
                *final(surface),
                *old(source),
                *final(source),
            ),
            final(source).wf(),
            *final(param) == *old(param),
    {
        let batch = source.fill_batch(false);
        proof {
            assert(batch@ =~= batch_of(old(source).stream(), old(source).position()));
        }
        self.draw_batch(surface, &batch);
    }
}

} // verus!
