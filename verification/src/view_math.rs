//! Exact-arithmetic model of the pan/zoom transform.
//!
//! The interactive transform of the view is plain rational arithmetic:
//! every update is built from sums, differences, products and quotients
//! of dyadic inputs (cursor positions, viewport extents, scale, offset,
//! zoom factor).  This module carries that arithmetic out exactly, on
//! fractions of 128-bit integers, and proves the transform's invariants:
//! that a zoom keeps the world point under the cursor fixed, that the
//! zoom factor moves the scale strictly and keeps it positive, and that
//! a pan whose total delta is zero restores the starting offset exactly.
//!
//! A fraction is carried unreduced, with a positive denominator.  The
//! spec-level combinators (`q_add`, `q_mul`, ...) work on unbounded
//! integer pairs; the executable functions compute the same pairs in
//! `i128` and therefore ask, as machine limits, that each intermediate
//! product stays inside `i128`.

use vstd::arithmetic::mul::lemma_mul_strictly_positive;
use vstd::prelude::*;

verus! {

/// An exact fraction: `num / den` with `den > 0`, not reduced.
#[derive(Debug, Clone, Copy, PartialEq, Eq, Structural)]
pub struct Rat {
    pub num: i128,
    pub den: i128,
}

impl View for Rat {
    type V = (int, int);

    open spec fn view(&self) -> (int, int) {
        (self.num as int, self.den as int)
    }
}

/// A 2-D point or extent with exact fraction components.
#[derive(Debug, Clone, Copy, PartialEq, Eq, Structural)]
pub struct RatVec2 {
    pub x: Rat,
    pub y: Rat,
}

/// A well-formed fraction has a positive denominator.
pub open spec fn q_wf(a: (int, int)) -> bool {
    0 < a.1
}

/// Whether `x` lies inside the `i128` range.
pub open spec fn fits(x: int) -> bool {
    -0x8000_0000_0000_0000_0000_0000_0000_0000 <= x
        <= 0x7fff_ffff_ffff_ffff_ffff_ffff_ffff_ffff
}

/// Sum of two fractions.
pub open spec fn q_add(a: (int, int), b: (int, int)) -> (int, int) {
    (a.0 * b.1 + b.0 * a.1, a.1 * b.1)
}

/// Difference of two fractions.
pub open spec fn q_sub(a: (int, int), b: (int, int)) -> (int, int) {
    (a.0 * b.1 - b.0 * a.1, a.1 * b.1)
}

/// Negation of a fraction.
pub open spec fn q_neg(a: (int, int)) -> (int, int) {
    (-a.0, a.1)
}

/// Product of two fractions.
pub open spec fn q_mul(a: (int, int), b: (int, int)) -> (int, int) {
    (a.0 * b.0, a.1 * b.1)
}

/// Quotient of two fractions, keeping the denominator positive.
pub open spec fn q_div(a: (int, int), b: (int, int)) -> (int, int)
    recommends
        b.0 != 0,
{
    if b.0 > 0 {
        (a.0 * b.1, a.1 * b.0)
    } else {
        (-(a.0 * b.1), a.1 * -b.0)
    }
}

/// Half of a fraction.
pub open spec fn q_half(a: (int, int)) -> (int, int) {
    (a.0, a.1 * 2)
}

/// The larger of two fractions.
pub open spec fn q_max(a: (int, int), b: (int, int)) -> (int, int) {
    if q_lt(a, b) {
        b
    } else {
        a
    }
}

/// Value equality of fractions, by cross-multiplication.
pub open spec fn q_eq(a: (int, int), b: (int, int)) -> bool {
    a.0 * b.1 == b.0 * a.1
}

/// Strict order on fractions with positive denominators.
pub open spec fn q_lt(a: (int, int), b: (int, int)) -> bool
    recommends
        q_wf(a),
        q_wf(b),
{
    a.0 * b.1 < b.0 * a.1
}

/// The machine limits under which two fractions can be added in `i128`.
pub open spec fn add_fits(a: (int, int), b: (int, int)) -> bool {
    fits(a.0 * b.1) && fits(b.0 * a.1) && fits(a.0 * b.1 + b.0 * a.1) && fits(a.1 * b.1)
}

/// The machine limits under which two fractions can be subtracted in `i128`.
pub open spec fn sub_fits(a: (int, int), b: (int, int)) -> bool {
    fits(a.0 * b.1) && fits(b.0 * a.1) && fits(a.0 * b.1 - b.0 * a.1) && fits(a.1 * b.1)
}

/// The machine limits under which two fractions can be multiplied in `i128`.
pub open spec fn mul_fits(a: (int, int), b: (int, int)) -> bool {
    fits(a.0 * b.0) && fits(a.1 * b.1)
}

/// The machine limits under which one fraction can be divided by another
/// in `i128`.
pub open spec fn div_fits(a: (int, int), b: (int, int)) -> bool {
    fits(a.0 * b.1) && fits(-(a.0 * b.1)) && fits(a.1 * b.0) && fits(a.1 * -b.0)
}

/// The machine limits under which two fractions can be compared in `i128`.
pub open spec fn cmp_fits(a: (int, int), b: (int, int)) -> bool {
    fits(a.0 * b.1) && fits(b.0 * a.1)
}

impl Rat {
    /// The fraction `n / 1`.
    pub fn from_int(n: i64) -> (r: Rat)
        ensures
            r@ == (n as int, 1int),
            q_wf(r@),
    {
        Rat { num: n as i128, den: 1 }
    }

    /// The fraction `num / den`, with the sign moved to the numerator.
    pub fn from_ratio(num: i64, den: i64) -> (r: Rat)
        requires
            den != 0,
        ensures
            r@ == if den > 0 {
                (num as int, den as int)
            } else {
                (-(num as int), -(den as int))
            },
            q_wf(r@),
    {
        if den > 0 {
            Rat { num: num as i128, den: den as i128 }
        } else {
            Rat { num: -(num as i128), den: -(den as i128) }
        }
    }
}

/// Adds two fractions exactly.
pub fn rat_add(a: Rat, b: Rat) -> (r: Rat)
    requires
        q_wf(a@),
        q_wf(b@),
        add_fits(a@, b@),
    ensures
        r@ == q_add(a@, b@),
        q_wf(r@),
{
    proof {
        lemma_mul_strictly_positive(a.den as int, b.den as int);
    }
    Rat { num: a.num * b.den + b.num * a.den, den: a.den * b.den }
}

/// Subtracts two fractions exactly.
pub fn rat_sub(a: Rat, b: Rat) -> (r: Rat)
    requires
        q_wf(a@),
        q_wf(b@),
        sub_fits(a@, b@),
    ensures
        r@ == q_sub(a@, b@),
        q_wf(r@),
{
    proof {
        lemma_mul_strictly_positive(a.den as int, b.den as int);
    }
    Rat { num: a.num * b.den - b.num * a.den, den: a.den * b.den }
}

/// Negates a fraction exactly.
pub fn rat_neg(a: Rat) -> (r: Rat)
    requires
        q_wf(a@),
        fits(-a@.0),
    ensures
        r@ == q_neg(a@),
        q_wf(r@),
{
    Rat { num: -a.num, den: a.den }
}

/// Multiplies two fractions exactly.
pub fn rat_mul(a: Rat, b: Rat) -> (r: Rat)
    requires
        q_wf(a@),
        q_wf(b@),
        mul_fits(a@, b@),
    ensures
        r@ == q_mul(a@, b@),
        q_wf(r@),
{
    proof {
        lemma_mul_strictly_positive(a.den as int, b.den as int);
    }
    Rat { num: a.num * b.num, den: a.den * b.den }
}

/// Divides one fraction by another exactly, keeping the denominator
/// positive.
pub fn rat_div(a: Rat, b: Rat) -> (r: Rat)
    requires
        q_wf(a@),
        q_wf(b@),
        b@.0 != 0,
        div_fits(a@, b@),
    ensures
        r@ == q_div(a@, b@),
        q_wf(r@),
{
    if b.num > 0 {
        proof {
            lemma_mul_strictly_positive(a.den as int, b.num as int);
        }
        Rat { num: a.num * b.den, den: a.den * b.num }
    } else {
        proof {
            lemma_mul_strictly_positive(a.den as int, -(b.num as int));
        }
        Rat { num: -(a.num * b.den), den: a.den * -b.num }
    }
}

/// Compares two fractions: `a < b`.
pub fn rat_lt(a: Rat, b: Rat) -> (r: bool)
    requires
        q_wf(a@),
        q_wf(b@),
        cmp_fits(a@, b@),
    ensures
        r == q_lt(a@, b@),
{
    a.num * b.den < b.num * a.den
}

/// Tests two fractions for equal value.
pub fn rat_eq(a: Rat, b: Rat) -> (r: bool)
    requires
        q_wf(a@),
        q_wf(b@),
        cmp_fits(a@, b@),
    ensures
        r == q_eq(a@, b@),
{
    a.num * b.den == b.num * a.den
}

/// Converts a line-unit scroll amount to its pixel equivalent, at the
/// fixed twelve pixels per scrolled line.
pub fn lines_to_pixels(lines: Rat) -> (r: Rat)
    requires
        q_wf(lines@),
        fits(lines@.0 * 12),
    ensures
        r@ == q_mul(lines@, (12int, 1int)),
        q_wf(r@),
{
    Rat { num: lines.num * 12, den: lines.den }
}

/// Pixels per world unit of a viewport: half its larger extent.
pub fn pixels_per_unit(viewport: RatVec2) -> (r: Rat)
    requires
        q_wf(viewport.x@),
        q_wf(viewport.y@),
        cmp_fits(viewport.x@, viewport.y@),
        fits(viewport.x@.1 * 2),
        fits(viewport.y@.1 * 2),
    ensures
        r@ == q_half(q_max(viewport.x@, viewport.y@)),
        q_wf(r@),
        0 < viewport.x@.0 && 0 < viewport.y@.0 ==> 0 < r@.0,
{
    let m: Rat = if rat_lt(viewport.x, viewport.y) {
        viewport.y
    } else {
        viewport.x
    };
    Rat { num: m.num, den: m.den * 2 }
}

/// Guard for a degenerate viewport: a zero-sized or inverted rectangle
/// would make the pixels-per-unit ratio zero, so the frame's pan/zoom
/// update is skipped instead of propagating a division by zero into the
/// view state.
pub fn viewport_usable(viewport: RatVec2) -> (r: bool)
    requires
        q_wf(viewport.x@),
        q_wf(viewport.y@),
    ensures
        r == (0 < viewport.x@.0 && 0 < viewport.y@.0),
{
    viewport.x.num > 0 && viewport.y.num > 0
}

/// The model of one pan axis: the offset recomputed from the drag-start
/// anchor, `start + (delta / pixels_per_unit) * scale`.
pub open spec fn q_pan_axis(
    start: (int, int),
    delta: (int, int),
    ppu: (int, int),
    scale: (int, int),
) -> (int, int) {
    q_add(start, q_mul(q_div(delta, ppu), scale))
}

/// The machine limits of one pan axis.
pub open spec fn pan_axis_fits(
    start: (int, int),
    delta: (int, int),
    ppu: (int, int),
    scale: (int, int),
) -> bool {
    div_fits(delta, ppu) && mul_fits(q_div(delta, ppu), scale) && add_fits(
        start,
        q_mul(q_div(delta, ppu), scale),
    )
}

/// Recomputes the view offset of a drag from its fixed anchor: the total
/// screen delta since the drag started is divided by the pixels-per-unit
/// ratio, scaled by the current scale and added to the offset captured at
/// the drag start.  The y axis is flipped, screen y growing downward and
/// world y upward.
pub fn pan_offset(start_offset: RatVec2, total_delta: RatVec2, ppu: Rat, scale: Rat) -> (r:
    RatVec2)
    requires
        q_wf(start_offset.x@),
        q_wf(start_offset.y@),
        q_wf(total_delta.x@),
        q_wf(total_delta.y@),
        q_wf(ppu@),
        q_wf(scale@),
        ppu@.0 != 0,
        fits(-total_delta.y@.0),
        pan_axis_fits(start_offset.x@, total_delta.x@, ppu@, scale@),
        pan_axis_fits(start_offset.y@, q_neg(total_delta.y@), ppu@, scale@),
    ensures
        r.x@ == q_pan_axis(start_offset.x@, total_delta.x@, ppu@, scale@),
        r.y@ == q_pan_axis(start_offset.y@, q_neg(total_delta.y@), ppu@, scale@),
        q_wf(r.x@),
        q_wf(r.y@),
{
    let dx: Rat = rat_mul(rat_div(total_delta.x, ppu), scale);
    let dy: Rat = rat_mul(rat_div(rat_neg(total_delta.y), ppu), scale);
    RatVec2 { x: rat_add(start_offset.x, dx), y: rat_add(start_offset.y, dy) }
}

/// The model of one axis of the cursor's viewport-normalized position:
/// the cursor centered on the viewport and divided by pixels-per-unit,
/// with the y axis flipped.
pub open spec fn q_norm_axis(c: (int, int), extent: (int, int), ppu: (int, int), flip: bool) -> (
    int,
    int,
) {
    let centered = q_sub(c, q_half(extent));
    if flip {
        q_div(q_neg(centered), ppu)
    } else {
        q_div(centered, ppu)
    }
}

/// The machine limits of one normalized-cursor axis.
pub open spec fn norm_axis_fits(c: (int, int), extent: (int, int), ppu: (int, int)) -> bool {
    fits(extent.1 * 2) && sub_fits(c, q_half(extent)) && fits(-q_sub(c, q_half(extent)).0)
        && div_fits(q_sub(c, q_half(extent)), ppu) && div_fits(q_neg(q_sub(c, q_half(extent))), ppu)
}

/// The cursor's position in viewport-normalized coordinates: centered on
/// the viewport, y flipped, and scaled to world units per pixel.
/// Multiplying by the scale and adding the offset then yields the world
/// point under the cursor.
pub fn cursor_normalized(cursor: RatVec2, viewport: RatVec2, ppu: Rat) -> (r: RatVec2)
    requires
        q_wf(cursor.x@),
        q_wf(cursor.y@),
        q_wf(viewport.x@),
        q_wf(viewport.y@),
        q_wf(ppu@),
        ppu@.0 != 0,
        norm_axis_fits(cursor.x@, viewport.x@, ppu@),
        norm_axis_fits(cursor.y@, viewport.y@, ppu@),
    ensures
        r.x@ == q_norm_axis(cursor.x@, viewport.x@, ppu@, false),
        r.y@ == q_norm_axis(cursor.y@, viewport.y@, ppu@, true),
        q_wf(r.x@),
        q_wf(r.y@),
{
    let half_x: Rat = Rat { num: viewport.x.num, den: viewport.x.den * 2 };
    let half_y: Rat = Rat { num: viewport.y.num, den: viewport.y.den * 2 };
    let cx: Rat = rat_sub(cursor.x, half_x);
    let cy: Rat = rat_sub(cursor.y, half_y);
    RatVec2 { x: rat_div(cx, ppu), y: rat_div(rat_neg(cy), ppu) }
}

/// The scale after a zoom: the old scale times the zoom factor.
pub open spec fn q_zoom_scale(scale: (int, int), factor: (int, int)) -> (int, int) {
    q_mul(scale, factor)
}

/// The world point under a cursor: its normalized position times the
/// scale, plus the offset.
pub open spec fn q_world(n: (int, int), scale: (int, int), offset: (int, int)) -> (int, int) {
    q_add(q_mul(n, scale), offset)
}

/// The offset after a zoom: chosen so that the world point that was
/// under the cursor before the scale change is under it afterwards too.
pub open spec fn q_zoom_offset(
    n: (int, int),
    scale: (int, int),
    offset: (int, int),
    factor: (int, int),
) -> (int, int) {
    q_sub(q_world(n, scale, offset), q_mul(n, q_zoom_scale(scale, factor)))
}

/// The machine limits of one zoom axis.
pub open spec fn zoom_axis_fits(
    n: (int, int),
    scale: (int, int),
    offset: (int, int),
    factor: (int, int),
) -> bool {
    mul_fits(n, scale) && add_fits(q_mul(n, scale), offset) && mul_fits(scale, factor) && mul_fits(
        n,
        q_zoom_scale(scale, factor),
    ) && sub_fits(q_world(n, scale, offset), q_mul(n, q_zoom_scale(scale, factor)))
}

/// One zoom update: multiplies the scale by the factor and solves for
/// the offset that keeps the world point under the cursor fixed, exactly
/// as [`lemma_zoom_keeps_cursor_world`] proves it does.
pub fn zoom_step(scale: Rat, offset: RatVec2, cursor_norm: RatVec2, factor: Rat) -> (r: (
    Rat,
    RatVec2,
))
    requires
        q_wf(scale@),
        q_wf(offset.x@),
        q_wf(offset.y@),
        q_wf(cursor_norm.x@),
        q_wf(cursor_norm.y@),
        q_wf(factor@),
        mul_fits(scale@, factor@),
        zoom_axis_fits(cursor_norm.x@, scale@, offset.x@, factor@),
        zoom_axis_fits(cursor_norm.y@, scale@, offset.y@, factor@),
    ensures
        r.0@ == q_zoom_scale(scale@, factor@),
        r.1.x@ == q_zoom_offset(cursor_norm.x@, scale@, offset.x@, factor@),
        r.1.y@ == q_zoom_offset(cursor_norm.y@, scale@, offset.y@, factor@),
        q_wf(r.0@),
        q_wf(r.1.x@),
        q_wf(r.1.y@),
{
    let world_x: Rat = rat_add(rat_mul(cursor_norm.x, scale), offset.x);
    let world_y: Rat = rat_add(rat_mul(cursor_norm.y, scale), offset.y);
    let new_scale: Rat = rat_mul(scale, factor);
    let off_x: Rat = rat_sub(world_x, rat_mul(cursor_norm.x, new_scale));
    let off_y: Rat = rat_sub(world_y, rat_mul(cursor_norm.y, new_scale));
    (new_scale, RatVec2 { x: off_x, y: off_y })
}

/// Zoom invariant: for any cursor position, scale, offset and zoom
/// factor, the world point computed from the cursor under the new scale
/// and offset is the same point as under the old scale and offset.  In
/// this exact model the two are equal outright; the floating-point
/// evaluation of the same formulas agrees to rounding error.
pub proof fn lemma_zoom_keeps_cursor_world(
    n: (int, int),
    scale: (int, int),
    offset: (int, int),
    factor: (int, int),
)
    requires
        q_wf(n),
        q_wf(scale),
        q_wf(offset),
        q_wf(factor),
    ensures
        q_eq(
            q_world(n, q_zoom_scale(scale, factor), q_zoom_offset(n, scale, offset, factor)),
            q_world(n, scale, offset),
        ),
{
    let ns2 = q_mul(n, q_zoom_scale(scale, factor));
    let world = q_world(n, scale, offset);
    assert(q_world(n, q_zoom_scale(scale, factor), q_zoom_offset(n, scale, offset, factor))
        == q_add(ns2, q_sub(world, ns2)));
    assert(q_eq(q_add(ns2, q_sub(world, ns2)), world)) by (nonlinear_arith);
}

/// Zoom monotonicity: a factor below one strictly shrinks a positive
/// scale, a factor above one strictly grows it, and the scale stays
/// strictly positive either way.  The factor `2^(-pixels / 50)` that the
/// scroll handler feeds in lies below one exactly when the scroll is
/// positive and above one exactly when it is negative.
pub proof fn lemma_zoom_monotonic(scale: (int, int), factor: (int, int))
    requires
        q_wf(scale),
        q_wf(factor),
        0 < scale.0,
        0 < factor.0,
    ensures
        q_lt(factor, (1int, 1int)) ==> q_lt(q_zoom_scale(scale, factor), scale),
        q_lt((1int, 1int), factor) ==> q_lt(scale, q_zoom_scale(scale, factor)),
        0 < q_zoom_scale(scale, factor).0,
        0 < q_zoom_scale(scale, factor).1,
{
    assert(0 < scale.0 * factor.0) by (nonlinear_arith)
        requires
            0 < scale.0,
            0 < factor.0,
    ;
    assert(0 < scale.1 * factor.1) by (nonlinear_arith)
        requires
            0 < scale.1,
            0 < factor.1,
    ;
    assert(factor.0 < factor.1 ==> scale.0 * factor.0 * scale.1 < scale.0 * (scale.1 * factor.1))
        by (nonlinear_arith)
        requires
            0 < scale.0,
            0 < scale.1,
    ;
    assert(factor.1 < factor.0 ==> scale.0 * (scale.1 * factor.1) < scale.0 * factor.0 * scale.1)
        by (nonlinear_arith)
        requires
            0 < scale.0,
            0 < scale.1,
    ;
}

/// Pan anchoring: a pan step whose total delta is zero — in particular,
/// a drag that has returned to its starting screen position, whose delta
/// is `a - a` — yields exactly the offset captured at the drag start.
pub proof fn lemma_pan_anchoring(
    start: (int, int),
    cursor: (int, int),
    ppu: (int, int),
    scale: (int, int),
)
    requires
        q_wf(start),
        q_wf(cursor),
        q_wf(ppu),
        q_wf(scale),
        ppu.0 != 0,
    ensures
        q_sub(cursor, cursor).0 == 0,
        q_eq(q_pan_axis(start, q_sub(cursor, cursor), ppu, scale), start),
{
    let delta = q_sub(cursor, cursor);
    let d = q_mul(q_div(delta, ppu), scale);
    assert(d.0 == 0) by (nonlinear_arith)
        requires
            delta.0 == 0,
            d == q_mul(q_div(delta, ppu), scale),
    ;
    assert(q_eq(q_add(start, d), start)) by (nonlinear_arith)
        requires
            d.0 == 0,
    ;
}

} // verus!
