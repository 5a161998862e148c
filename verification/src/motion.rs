//! Per-source motion: each source follows an elliptical path around the
//! grid center, described by an angular frequency, a phase offset and an
//! elliptical radius per axis. The horizontal axis is driven by cosine
//! and the vertical axis by sine, so a zero phase gives a plain orbit;
//! the wobbling center source is expressed with a three-quarter-turn
//! horizontal phase, which turns its cosine into a sine.
use vstd::prelude::*;

verus! {

use crate::COORD_LIMIT_MILLI;
use crate::TIME_LIMIT_MILLI;
use crate::trig::HALF_PI_MILLI;
use crate::trig::cos_milli;
use crate::trig::cos_milli_spec;
use crate::trig::lemma_sin_milli_bounds;
use crate::trig::sin_milli;
use crate::trig::sin_milli_spec;

/// Grid center, horizontal, in milli grid units: half the grid width.
pub const CENTER_X_MILLI: i64 = 40000;

/// Grid center, vertical, in milli grid units: half the grid height.
pub const CENTER_Y_MILLI: i64 = 17500;

/// Largest angular frequency (milli radians per second) the animation
/// arithmetic is proved free of overflow for.
pub const FREQ_LIMIT_MILLI: i64 = 1000000;

/// Largest phase offset (milli radians) the animation arithmetic is
/// proved free of overflow for.
pub const PHASE_LIMIT_MILLI: i64 = 1000000;

/// Largest elliptical radius (milli grid units) that keeps source
/// centers within the coordinate limit.
pub const MOTION_RADIUS_LIMIT_MILLI: i64 = 900000;

/// The elliptical path of one source: frequency, phase and radius for
/// each axis.
#[derive(Clone, Copy, PartialEq, Eq, Structural, Debug)]
pub struct MotionProfile {
    /// Horizontal angular frequency, milli radians per second.
    pub freq_x: i64,
    /// Horizontal phase offset, milli radians.
    pub phase_x: i64,
    /// Horizontal elliptical radius, milli grid units.
    pub radius_x: i64,
    /// Vertical angular frequency, milli radians per second.
    pub freq_y: i64,
    /// Vertical phase offset, milli radians.
    pub phase_y: i64,
    /// Vertical elliptical radius, milli grid units.
    pub radius_y: i64,
}

impl MotionProfile {
    /// Bounds under which the animation arithmetic is free of overflow.
    pub open spec fn wf(self) -> bool {
        &&& 0 <= self.freq_x <= FREQ_LIMIT_MILLI
        &&& 0 <= self.phase_x <= PHASE_LIMIT_MILLI
        &&& 0 <= self.radius_x <= MOTION_RADIUS_LIMIT_MILLI
        &&& 0 <= self.freq_y <= FREQ_LIMIT_MILLI
        &&& 0 <= self.phase_y <= PHASE_LIMIT_MILLI
        &&& 0 <= self.radius_y <= MOTION_RADIUS_LIMIT_MILLI
    }
}

/// Phase angle of an axis at simulated time `t` (milliseconds): the
/// frequency times the time in seconds, plus the phase offset, in milli
/// radians.
pub open spec fn angle_spec(freq: int, phase: int, t: int) -> int {
    t * freq / 1000 + phase
}

/// A sine or cosine value (milli units) scaled by an elliptical radius
/// (milli grid units), rounded toward zero.
pub open spec fn scale_offset_spec(trig: int, radius: int) -> int {
    if trig >= 0 {
        trig * radius / 1000
    } else {
        -((-trig) * radius / 1000)
    }
}

/// Horizontal position of a source with the given profile at time `t`.
pub open spec fn position_x_spec(p: MotionProfile, t: int) -> int {
    CENTER_X_MILLI + scale_offset_spec(
        cos_milli_spec(angle_spec(p.freq_x as int, p.phase_x as int, t)),
        p.radius_x as int,
    )
}

/// Vertical position of a source with the given profile at time `t`.
pub open spec fn position_y_spec(p: MotionProfile, t: int) -> int {
    CENTER_Y_MILLI + scale_offset_spec(
        sin_milli_spec(angle_spec(p.freq_y as int, p.phase_y as int, t)),
        p.radius_y as int,
    )
}

/// The scaled offset of a bounded trig value stays within the elliptical
/// radius.
proof fn lemma_scale_offset_bounds(trig: int, radius: int)
    requires
        -1000 <= trig <= 1000,
        0 <= radius <= MOTION_RADIUS_LIMIT_MILLI,
    ensures
        -radius <= scale_offset_spec(trig, radius) <= radius,
{
    if trig >= 0 {
        assert(0 <= trig * radius <= 1000 * radius) by (nonlinear_arith)
            requires
                0 <= trig <= 1000,
                0 <= radius,
        ;
        assert(trig * radius / 1000 <= 1000 * radius / 1000);
        assert(1000 * radius / 1000 == radius);
    } else {
        assert(0 <= (-trig) * radius <= 1000 * radius) by (nonlinear_arith)
            requires
                -1000 <= trig < 0,
                0 <= radius,
        ;
        assert((-trig) * radius / 1000 <= 1000 * radius / 1000);
        assert(1000 * radius / 1000 == radius);
    }
}

/// Positions under a well-formed profile stay within the coordinate
/// limit at every admissible time.
pub proof fn lemma_position_in_range(p: MotionProfile, t: int)
    requires
        p.wf(),
        0 <= t <= TIME_LIMIT_MILLI,
    ensures
        -COORD_LIMIT_MILLI <= position_x_spec(p, t) <= COORD_LIMIT_MILLI,
        -COORD_LIMIT_MILLI <= position_y_spec(p, t) <= COORD_LIMIT_MILLI,
{
    let ax = angle_spec(p.freq_x as int, p.phase_x as int, t);
    let ay = angle_spec(p.freq_y as int, p.phase_y as int, t);
    lemma_angle_bounds(p.freq_x as int, p.phase_x as int, t);
    lemma_angle_bounds(p.freq_y as int, p.phase_y as int, t);
    lemma_sin_milli_bounds(ax + HALF_PI_MILLI);
    lemma_sin_milli_bounds(ay);
    lemma_scale_offset_bounds(cos_milli_spec(ax), p.radius_x as int);
    lemma_scale_offset_bounds(sin_milli_spec(ay), p.radius_y as int);
}

/// Angles under a well-formed profile are non-negative and bounded.
proof fn lemma_angle_bounds(freq: int, phase: int, t: int)
    requires
        0 <= freq <= FREQ_LIMIT_MILLI,
        0 <= phase <= PHASE_LIMIT_MILLI,
        0 <= t <= TIME_LIMIT_MILLI,
    ensures
        0 <= angle_spec(freq, phase, t) <= 2000000000000000000,
{
    assert(0 <= t * freq <= 1000000000000000000) by (nonlinear_arith)
        requires
            0 <= t <= TIME_LIMIT_MILLI,
            0 <= freq <= FREQ_LIMIT_MILLI,
            TIME_LIMIT_MILLI == 1000000000000,
            FREQ_LIMIT_MILLI == 1000000,
    ;
    assert(t * freq / 1000 <= 1000000000000000000);
    assert(t * freq / 1000 >= 0);
}

/// One axis' scaled trig offset, evaluated in integer arithmetic.
fn scaled_offset(trig: i64, radius: i64) -> (r: i64)
    requires
        -1000 <= trig <= 1000,
        0 <= radius <= MOTION_RADIUS_LIMIT_MILLI,
    ensures
        r == scale_offset_spec(trig as int, radius as int),
        -radius <= r <= radius,
{
    proof {
        lemma_scale_offset_bounds(trig as int, radius as int);
    }
    if trig >= 0 {
        proof {
            assert(0 <= trig * radius <= 1000 * radius) by (nonlinear_arith)
                requires
                    0 <= trig <= 1000,
                    0 <= radius,
            ;
        }
        trig * radius / 1000
    } else {
        proof {
            assert(0 <= (-(trig as int)) * radius <= 1000 * radius) by (nonlinear_arith)
                requires
                    -1000 <= trig < 0,
                    0 <= radius,
            ;
        }
        -((-trig) * radius / 1000)
    }
}

/// The phase angle of one axis at time `t`, in integer arithmetic.
fn axis_angle(freq: i64, phase: i64, t: i64) -> (a: i64)
    requires
        0 <= freq <= FREQ_LIMIT_MILLI,
        0 <= phase <= PHASE_LIMIT_MILLI,
        0 <= t <= TIME_LIMIT_MILLI,
    ensures
        a == angle_spec(freq as int, phase as int, t as int),
        0 <= a <= 2000000000000000000,
{
    proof {
        lemma_angle_bounds(freq as int, phase as int, t as int);
        assert(0 <= t * freq <= 1000000000000000000) by (nonlinear_arith)
            requires
                0 <= t <= TIME_LIMIT_MILLI,
                0 <= freq <= FREQ_LIMIT_MILLI,
                TIME_LIMIT_MILLI == 1000000000000,
                FREQ_LIMIT_MILLI == 1000000,
        ;
    }
    t * freq / 1000 + phase
}

/// Position of a source with the given profile at simulated time `t`
/// (milliseconds), in milli grid units.
pub fn position_at(p: &MotionProfile, t: i64) -> (pos: (i64, i64))
    requires
        p.wf(),
        0 <= t <= TIME_LIMIT_MILLI,
    ensures
        pos.0 == position_x_spec(*p, t as int),
        pos.1 == position_y_spec(*p, t as int),
        -COORD_LIMIT_MILLI <= pos.0 <= COORD_LIMIT_MILLI,
        -COORD_LIMIT_MILLI <= pos.1 <= COORD_LIMIT_MILLI,
{
    proof {
        lemma_position_in_range(*p, t as int);
    }
    let ax = axis_angle(p.freq_x, p.phase_x, t);
    let ay = axis_angle(p.freq_y, p.phase_y, t);
    let cx = cos_milli(ax);
    let sy = sin_milli(ay);
    let x = CENTER_X_MILLI + scaled_offset(cx, p.radius_x);
    let y = CENTER_Y_MILLI + scaled_offset(sy, p.radius_y);
    (x, y)
}

} // verus!
