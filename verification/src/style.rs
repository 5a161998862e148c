//! The five render styles and the timer-driven cycle through them.
use vstd::prelude::*;

verus! {

use crate::STYLE_DWELL_MILLI;

/// One of the five ways a sampled field value is turned into a glyph.
#[derive(Clone, Copy, PartialEq, Eq, Structural, Debug)]
pub enum RenderMode {
    /// Ten-level density ramp.
    Gradient,
    /// Outline only: edge detection against the four grid neighbors.
    Contour,
    /// Three-level threshold staircase.
    Solid,
    /// 2x2 sub-pixel supersampling mapped to shading blocks.
    Blocks,
    /// Seven-level ladder separating outside, skin and core zones.
    Gooey,
}

impl RenderMode {
    /// The cyclic successor of a style: after the last style the cycle
    /// wraps back to the first.
    pub open spec fn next_spec(self) -> RenderMode {
        match self {
            RenderMode::Gradient => RenderMode::Contour,
            RenderMode::Contour => RenderMode::Solid,
            RenderMode::Solid => RenderMode::Blocks,
            RenderMode::Blocks => RenderMode::Gooey,
            RenderMode::Gooey => RenderMode::Gradient,
        }
    }

    /// Display name of the style.
    pub open spec fn name_spec(self) -> Seq<char> {
        match self {
            RenderMode::Gradient => "Gradient"@,
            RenderMode::Contour => "Contour"@,
            RenderMode::Solid => "Solid"@,
            RenderMode::Blocks => "Blocks"@,
            RenderMode::Gooey => "Gooey"@,
        }
    }

    /// Cyclic successor used when the style timer expires.
    pub fn next(self) -> (r: Self)
        ensures
            r == self.next_spec(),
    {
        match self {
            RenderMode::Gradient => RenderMode::Contour,
            RenderMode::Contour => RenderMode::Solid,
            RenderMode::Solid => RenderMode::Blocks,
            RenderMode::Blocks => RenderMode::Gooey,
            RenderMode::Gooey => RenderMode::Gradient,
        }
    }

    /// Display name, for status lines composed outside the library.
    pub fn name(self) -> (r: &'static str)
        ensures
            r@ == self.name_spec(),
    {
        match self {
            RenderMode::Gradient => "Gradient",
            RenderMode::Contour => "Contour",
            RenderMode::Solid => "Solid",
            RenderMode::Blocks => "Blocks",
            RenderMode::Gooey => "Gooey",
        }
    }
}

/// Applying the cyclic successor five times returns to the same style.
pub proof fn lemma_next_cycles_after_five(mode: RenderMode)
    ensures
        mode.next_spec().next_spec().next_spec().next_spec().next_spec() == mode,
{
}

/// One advance of the style state machine: the timer grows by `dt`; when
/// it reaches the dwell time it resets to zero and the style moves to its
/// cyclic successor.
pub open spec fn style_step(mode: RenderMode, timer: int, dt: int) -> (RenderMode, int) {
    if timer + dt >= STYLE_DWELL_MILLI {
        (mode.next_spec(), 0)
    } else {
        (mode, timer + dt)
    }
}

/// The style state machine run over a whole sequence of time steps.
pub open spec fn run_style_steps(mode: RenderMode, timer: int, steps: Seq<int>) -> (
    RenderMode,
    int,
)
    decreases steps.len(),
{
    if steps.len() == 0 {
        (mode, timer)
    } else {
        let (m2, t2) = style_step(mode, timer, steps[0]);
        run_style_steps(m2, t2, steps.drop_first())
    }
}

/// Sum of a sequence of time steps.
pub open spec fn sum_steps(steps: Seq<int>) -> int
    decreases steps.len(),
{
    if steps.len() == 0 {
        0
    } else {
        steps[0] + sum_steps(steps.drop_first())
    }
}

/// All steps in a sequence are positive.
pub open spec fn all_positive(steps: Seq<int>) -> bool {
    forall|i: int| 0 <= i < steps.len() ==> steps[i] > 0
}

/// A nonempty sequence of positive steps has a positive sum.
proof fn lemma_sum_positive(steps: Seq<int>)
    requires
        all_positive(steps),
        steps.len() > 0,
    ensures
        sum_steps(steps) > 0,
    decreases steps.len(),
{
    assert(steps[0] > 0);
    if steps.len() > 1 {
        assert(all_positive(steps.drop_first()));
        lemma_sum_positive(steps.drop_first());
    } else {
        assert(steps.drop_first().len() == 0);
        assert(sum_steps(steps.drop_first()) == 0);
    }
}

/// Advancing by positive steps that together make up exactly one dwell
/// time fires exactly one transition, at the last step: the style ends at
/// its cyclic successor with the timer back at zero. In particular, a
/// scene that starts in one style becomes the next style after exactly
/// 5.0 simulated seconds, however those seconds are split into steps.
pub proof fn lemma_dwell_advances_once(mode: RenderMode, timer: int, steps: Seq<int>)
    requires
        all_positive(steps),
        0 <= timer < STYLE_DWELL_MILLI,
        timer + sum_steps(steps) == STYLE_DWELL_MILLI,
    ensures
        run_style_steps(mode, timer, steps) == (mode.next_spec(), 0int),
    decreases steps.len(),
{
    if steps.len() == 0 {
        assert(sum_steps(steps) == 0);
        assert(false);
    }
    let d = steps[0];
    assert(d > 0);
    let rest = steps.drop_first();
    assert(all_positive(rest));
    assert(sum_steps(steps) == d + sum_steps(rest));
    if timer + d >= STYLE_DWELL_MILLI {
        if rest.len() > 0 {
            lemma_sum_positive(rest);
        }
        assert(rest.len() == 0);
        assert(timer + d == STYLE_DWELL_MILLI);
        assert(style_step(mode, timer, d) == (mode.next_spec(), 0int));
        assert(run_style_steps(mode.next_spec(), 0, rest) == (mode.next_spec(), 0int));
        assert(run_style_steps(mode, timer, steps) == (mode.next_spec(), 0int));
    } else {
        lemma_dwell_advances_once(mode, timer + d, rest);
    }
}

/// Running the state machine over a concatenation is running it over the
/// first part and then the second.
pub proof fn lemma_run_style_steps_concat(
    mode: RenderMode,
    timer: int,
    s1: Seq<int>,
    s2: Seq<int>,
)
    ensures
        run_style_steps(mode, timer, s1 + s2) == {
            let (m2, t2) = run_style_steps(mode, timer, s1);
            run_style_steps(m2, t2, s2)
        },
    decreases s1.len(),
{
    if s1.len() == 0 {
        assert(s1 + s2 =~= s2);
    } else {
        let (m2, t2) = style_step(mode, timer, s1[0]);
        assert((s1 + s2).drop_first() =~= s1.drop_first() + s2);
        lemma_run_style_steps_concat(m2, t2, s1.drop_first(), s2);
    }
}

/// Five dwell periods in a row, each made of positive steps summing to
/// exactly the dwell time, bring the style back to where it started: a
/// scene that starts in a style returns to it after 25.0 simulated
/// seconds split that way.
pub proof fn lemma_full_cycle_returns(
    mode: RenderMode,
    s1: Seq<int>,
    s2: Seq<int>,
    s3: Seq<int>,
    s4: Seq<int>,
    s5: Seq<int>,
)
    requires
        all_positive(s1) && sum_steps(s1) == STYLE_DWELL_MILLI,
        all_positive(s2) && sum_steps(s2) == STYLE_DWELL_MILLI,
        all_positive(s3) && sum_steps(s3) == STYLE_DWELL_MILLI,
        all_positive(s4) && sum_steps(s4) == STYLE_DWELL_MILLI,
        all_positive(s5) && sum_steps(s5) == STYLE_DWELL_MILLI,
    ensures
        run_style_steps(mode, 0, s1 + s2 + s3 + s4 + s5) == (mode, 0int),
{
    let m1 = mode.next_spec();
    let m2 = m1.next_spec();
    let m3 = m2.next_spec();
    let m4 = m3.next_spec();
    lemma_dwell_advances_once(mode, 0, s1);
    lemma_dwell_advances_once(m1, 0, s2);
    lemma_dwell_advances_once(m2, 0, s3);
    lemma_dwell_advances_once(m3, 0, s4);
    lemma_dwell_advances_once(m4, 0, s5);
    lemma_run_style_steps_concat(mode, 0, s1, s2);
    lemma_run_style_steps_concat(mode, 0, s1 + s2, s3);
    lemma_run_style_steps_concat(mode, 0, s1 + s2 + s3, s4);
    lemma_run_style_steps_concat(mode, 0, s1 + s2 + s3 + s4, s5);
    lemma_next_cycles_after_five(mode);
}

} // verus!
