//! Influence sources ("blobs") and the scalar field they blend into.
//!
//! A single source contributes `radius^2 / dist^2`, where the horizontal
//! part of the squared distance is divided by the square of the aspect
//! ratio correction; a query point within a small epsilon of the center
//! gets a large finite sentinel instead. The field at a point is the sum
//! of the contributions of all sources, so it is non-negative everywhere
//! and grows as sources approach.
use vstd::prelude::*;

verus! {

use vstd::arithmetic::div_mod::lemma_div_is_ordered_by_denominator;
use vstd::seq_lib::to_multiset_remove;
use crate::COORD_LIMIT_MILLI;
use crate::EPSILON_DIST_SQ_MICRO;
use crate::INFLUENCE_LIMIT_MILLI;
use crate::MAX_SOURCE_COUNT;
use crate::FIELD_LIMIT_MILLI;
use crate::RADIUS_LIMIT_MILLI;
use crate::SENTINEL_INFLUENCE_MILLI;

/// One circular influence source, in milli grid units.
#[derive(Clone, Copy, PartialEq, Eq, Structural, Debug)]
pub struct Blob {
    /// Horizontal center coordinate, milli grid units.
    pub x: i64,
    /// Vertical center coordinate, milli grid units.
    pub y: i64,
    /// Radius controlling falloff strength, milli grid units.
    pub radius: i64,
}

impl Blob {
    /// Bounds under which all field arithmetic is free of overflow.
    pub open spec fn wf(self) -> bool {
        &&& -COORD_LIMIT_MILLI <= self.x <= COORD_LIMIT_MILLI
        &&& -COORD_LIMIT_MILLI <= self.y <= COORD_LIMIT_MILLI
        &&& 0 <= self.radius <= RADIUS_LIMIT_MILLI
    }

    /// A new source at the given center with the given radius.
    pub fn new(x: i64, y: i64, radius: i64) -> (b: Blob)
        ensures
            b == (Blob { x, y, radius }),
    {
        Blob { x, y, radius }
    }

    /// Contribution of this source at a query point; method form of
    /// [`influence_at`].
    pub fn field_at(&self, px: i64, py: i64) -> (r: i64)
        requires
            self.wf(),
            in_query_range(px as int, py as int),
        ensures
            r == influence_spec(*self, px as int, py as int),
            0 <= r <= INFLUENCE_LIMIT_MILLI,
    {
        influence_at(self, px, py)
    }
}

/// Query points the field arithmetic is proved free of overflow for.
pub open spec fn in_query_range(px: int, py: int) -> bool {
    &&& -COORD_LIMIT_MILLI <= px <= COORD_LIMIT_MILLI
    &&& -COORD_LIMIT_MILLI <= py <= COORD_LIMIT_MILLI
}

/// Squared distance from a source center to a query point, in micro grid
/// units, with the horizontal axis compressed by the aspect ratio: the
/// horizontal term is divided by the square of the correction factor.
pub open spec fn dist_sq_spec(b: Blob, px: int, py: int) -> int {
    (px - b.x) * (px - b.x) / 4 + (py - b.y) * (py - b.y)
}

/// Contribution of one source at a query point, in milli units: the
/// sentinel within epsilon of the center, `radius^2 / dist^2` elsewhere
/// (the factor 1000 converts the dimensionless ratio to milli units).
pub open spec fn influence_spec(b: Blob, px: int, py: int) -> int {
    if dist_sq_spec(b, px, py) < EPSILON_DIST_SQ_MICRO {
        SENTINEL_INFLUENCE_MILLI as int
    } else {
        (b.radius * b.radius * 1000) / dist_sq_spec(b, px, py)
    }
}

/// Total field of a list of sources at a query point: the sum of their
/// influences.
pub open spec fn field_spec(bs: Seq<Blob>, px: int, py: int) -> int
    decreases bs.len(),
{
    if bs.len() == 0 {
        0
    } else {
        influence_spec(bs[0], px, py) + field_spec(bs.drop_first(), px, py)
    }
}

/// All sources in a list satisfy the arithmetic bounds.
pub open spec fn all_wf(bs: Seq<Blob>) -> bool {
    forall|i: int| 0 <= i < bs.len() ==> (#[trigger] bs[i]).wf()
}

/// The squared distance is non-negative and bounded.
proof fn lemma_dist_sq_bounds(b: Blob, px: int, py: int)
    requires
        b.wf(),
        in_query_range(px, py),
    ensures
        0 <= dist_sq_spec(b, px, py) <= 5000000000000,
{
    let dx = px - b.x;
    let dy = py - b.y;
    assert(0 <= dx * dx <= 4000000000000) by (nonlinear_arith)
        requires
            -2000000 <= dx <= 2000000,
    ;
    assert(0 <= dy * dy <= 4000000000000) by (nonlinear_arith)
        requires
            -2000000 <= dy <= 2000000,
    ;
    assert(0 <= dx * dx / 4 <= 1000000000000);
}

/// A single influence is non-negative and bounded.
pub proof fn lemma_influence_bounds(b: Blob, px: int, py: int)
    requires
        b.wf(),
        in_query_range(px, py),
    ensures
        0 <= influence_spec(b, px, py) <= INFLUENCE_LIMIT_MILLI,
{
    lemma_dist_sq_bounds(b, px, py);
    let d = dist_sq_spec(b, px, py);
    if d >= EPSILON_DIST_SQ_MICRO {
        let num = b.radius * b.radius * 1000;
        assert(0 <= b.radius * b.radius <= 10000000000) by (nonlinear_arith)
            requires
                0 <= b.radius <= 100000,
        ;
        assert(num == (b.radius * b.radius) * 1000);
        assert(0 <= num <= 10000000000000);
        assert(num / d >= 0);
        lemma_div_is_ordered_by_denominator(num, 100, d);
        assert(num / 100 <= 100000000000);
    }
}

/// The field of a list of in-bounds sources is non-negative and bounded
/// by the per-source limit times the source count.
pub proof fn lemma_field_bounds(bs: Seq<Blob>, px: int, py: int)
    requires
        all_wf(bs),
        in_query_range(px, py),
    ensures
        0 <= field_spec(bs, px, py) <= bs.len() * INFLUENCE_LIMIT_MILLI,
    decreases bs.len(),
{
    if bs.len() == 0 {
    } else {
        lemma_influence_bounds(bs[0], px, py);
        assert(all_wf(bs.drop_first()));
        lemma_field_bounds(bs.drop_first(), px, py);
        assert((bs.len() - 1) * INFLUENCE_LIMIT_MILLI + INFLUENCE_LIMIT_MILLI == bs.len()
            * INFLUENCE_LIMIT_MILLI) by (nonlinear_arith);
    }
}

/// Contribution of one source at a query point.
pub fn influence_at(b: &Blob, px: i64, py: i64) -> (r: i64)
    requires
        b.wf(),
        in_query_range(px as int, py as int),
    ensures
        r == influence_spec(*b, px as int, py as int),
        0 <= r <= INFLUENCE_LIMIT_MILLI,
{
    proof {
        lemma_dist_sq_bounds(*b, px as int, py as int);
        lemma_influence_bounds(*b, px as int, py as int);
    }
    let dx: i64 = px - b.x;
    let dy: i64 = py - b.y;
    proof {
        assert(0 <= dx * dx <= 4000000000000) by (nonlinear_arith)
            requires
                -2000000 <= dx <= 2000000,
        ;
        assert(0 <= dy * dy <= 4000000000000) by (nonlinear_arith)
            requires
                -2000000 <= dy <= 2000000,
        ;
    }
    let dist_sq: i64 = dx * dx / 4 + dy * dy;
    if dist_sq < EPSILON_DIST_SQ_MICRO {
        SENTINEL_INFLUENCE_MILLI
    } else {
        proof {
            assert(0 <= b.radius * b.radius <= 10000000000) by (nonlinear_arith)
                requires
                    0 <= b.radius <= 100000,
            ;
        }
        b.radius * b.radius * 1000 / dist_sq
    }
}

/// Total field of a list of sources at a query point.
pub fn field_at(bs: &Vec<Blob>, px: i64, py: i64) -> (r: i64)
    requires
        all_wf(bs@),
        bs@.len() <= MAX_SOURCE_COUNT,
        in_query_range(px as int, py as int),
    ensures
        r == field_spec(bs@, px as int, py as int),
        0 <= r <= FIELD_LIMIT_MILLI,
{
    proof {
        lemma_field_bounds(bs@, px as int, py as int);
        assert(bs@.subrange(0, bs@.len() as int) =~= bs@);
    }
    let mut total: i64 = 0;
    let mut i: usize = 0;
    while i < bs.len()
        invariant
            all_wf(bs@),
            bs@.len() <= MAX_SOURCE_COUNT,
            in_query_range(px as int, py as int),
            0 <= i <= bs.len(),
            field_spec(bs@, px as int, py as int) == total + field_spec(
                bs@.subrange(i as int, bs@.len() as int),
                px as int,
                py as int,
            ),
            0 <= total <= i * INFLUENCE_LIMIT_MILLI,
        decreases bs.len() - i,
    {
        let b = bs[i];
        proof {
            lemma_influence_bounds(b, px as int, py as int);
            let rest = bs@.subrange(i as int, bs@.len() as int);
            assert(rest[0] == bs@[i as int]);
            assert(rest.drop_first() =~= bs@.subrange(i as int + 1, bs@.len() as int));
            lemma_field_bounds(rest, px as int, py as int);
            assert(i * INFLUENCE_LIMIT_MILLI + INFLUENCE_LIMIT_MILLI == (i + 1)
                * INFLUENCE_LIMIT_MILLI) by (nonlinear_arith);
            assert((i as int) * INFLUENCE_LIMIT_MILLI <= 1000 * INFLUENCE_LIMIT_MILLI)
                by (nonlinear_arith)
                requires
                    0 <= i <= 1000,
            ;
        }
        let inf = influence_at(&b, px, py);
        total = total + inf;
        i = i + 1;
    }
    proof {
        assert(bs@.subrange(bs@.len() as int, bs@.len() as int) =~= Seq::<Blob>::empty());
        assert((bs@.len() as int) * INFLUENCE_LIMIT_MILLI <= 1000 * INFLUENCE_LIMIT_MILLI)
            by (nonlinear_arith)
            requires
                0 <= bs@.len() <= 1000,
        ;
    }
    total
}

/// At its own center a source contributes exactly the epsilon-clamp
/// sentinel value.
pub proof fn lemma_influence_at_center(b: Blob)
    ensures
        influence_spec(b, b.x as int, b.y as int) == SENTINEL_INFLUENCE_MILLI,
{
}

/// Moving a query point so that its compressed squared distance to a
/// source does not decrease (and stays at least epsilon) never increases
/// that source's influence: influence falls off monotonically with
/// distance.
pub proof fn lemma_influence_antitone(b: Blob, px1: int, py1: int, px2: int, py2: int)
    requires
        b.wf(),
        EPSILON_DIST_SQ_MICRO <= dist_sq_spec(b, px1, py1) <= dist_sq_spec(b, px2, py2),
    ensures
        influence_spec(b, px2, py2) <= influence_spec(b, px1, py1),
{
    let num = b.radius * b.radius * 1000;
    assert(0 <= b.radius * b.radius) by (nonlinear_arith)
        requires
            0 <= b.radius,
    ;
    lemma_div_is_ordered_by_denominator(
        num,
        dist_sq_spec(b, px1, py1),
        dist_sq_spec(b, px2, py2),
    );
}

/// Moving a query point so that its distance to every source does not
/// decrease (each staying at least epsilon away) never increases the
/// total field: far from all sources the field falls off monotonically.
pub proof fn lemma_field_antitone(bs: Seq<Blob>, px1: int, py1: int, px2: int, py2: int)
    requires
        all_wf(bs),
        forall|i: int|
            0 <= i < bs.len() ==> EPSILON_DIST_SQ_MICRO <= dist_sq_spec(
                #[trigger] bs[i],
                px1,
                py1,
            ) <= dist_sq_spec(bs[i], px2, py2),
    ensures
        field_spec(bs, px2, py2) <= field_spec(bs, px1, py1),
    decreases bs.len(),
{
    if bs.len() > 0 {
        lemma_influence_antitone(bs[0], px1, py1, px2, py2);
        assert(all_wf(bs.drop_first()));
        assert(forall|i: int|
            0 <= i < bs.drop_first().len() ==> #[trigger] bs.drop_first()[i] == bs[i + 1]);
        lemma_field_antitone(bs.drop_first(), px1, py1, px2, py2);
    }
}

/// Removing one source subtracts exactly its influence from the field.
proof fn lemma_field_remove(bs: Seq<Blob>, i: int, px: int, py: int)
    requires
        0 <= i < bs.len(),
    ensures
        field_spec(bs, px, py) == influence_spec(bs[i], px, py) + field_spec(
            bs.remove(i),
            px,
            py,
        ),
    decreases bs.len(),
{
    if i == 0 {
        assert(bs.remove(0) =~= bs.drop_first());
    } else {
        let tail = bs.drop_first();
        lemma_field_remove(tail, i - 1, px, py);
        assert(bs.remove(i)[0] == bs[0]);
        assert(bs.remove(i).drop_first() =~= tail.remove(i - 1));
    }
}

/// Two lists holding the same sources in any order produce the same
/// field at every query point: summation order does not matter.
pub proof fn lemma_field_permutation(bs1: Seq<Blob>, bs2: Seq<Blob>, px: int, py: int)
    requires
        bs1.to_multiset() == bs2.to_multiset(),
    ensures
        field_spec(bs1, px, py) == field_spec(bs2, px, py),
    decreases bs1.len(),
{
    bs1.to_multiset_ensures();
    bs2.to_multiset_ensures();
    if bs1.len() == 0 {
        assert(bs2.to_multiset().len() == 0);
        assert(bs2.len() == 0);
    } else {
        let b = bs1[0];
        assert(bs1.to_multiset().count(b) > 0);
        assert(bs2.to_multiset().count(b) > 0);
        assert(bs2.contains(b));
        let j = choose|j: int| 0 <= j < bs2.len() && bs2[j] == b;
        lemma_field_remove(bs1, 0, px, py);
        lemma_field_remove(bs2, j, px, py);
        assert(bs1.remove(0) =~= bs1.drop_first());
        to_multiset_remove(bs1, 0);
        to_multiset_remove(bs2, j);
        lemma_field_permutation(bs1.drop_first(), bs2.remove(j), px, py);
    }
}

} // verus!
