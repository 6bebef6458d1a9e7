//! Points and vectors on the pitch.
//!
//! Sums and products come from the given operations on numbers; distances, headings and length
//! limits are handed in.
use crate::decimals::{D0, D0_5};
use crate::meaning::{bounded, decimals_are_read, is_faithful, reads_quotients, stands_at};
use crate::number::{
    apply, at_bits, clamp_to, clamped_to, is_operation, num, outcome, Real64,
};
use crate::pitch::Vec2;
use vstd::prelude::*;

verus! {

/// Both coordinates are finite.
pub open spec fn is_finite_point(v: Vec2) -> bool {
    v.x.finite() && v.y.finite()
}

pub fn finite_point(v: Vec2) -> (b: bool)
    ensures
        b == is_finite_point(v),
{
    v.x.is_finite() && v.y.is_finite()
}

/// The distance of two points.
pub open spec fn distance_of<D: Fn(Vec2, Vec2) -> Real64>(distance: D, a: Vec2, b: Vec2) -> Real64 {
    choose|r: Real64| call_ensures(distance, (a, b), r)
}

/// The distance takes all points, depends on nothing else, and is a number for finite points.
pub open spec fn is_distance<D: Fn(Vec2, Vec2) -> Real64>(distance: D) -> bool {
    &&& forall|a: Vec2, b: Vec2| #[trigger] call_requires(distance, (a, b))
    &&& forall|a: Vec2, b: Vec2, r: Real64| #[trigger]
        call_ensures(distance, (a, b), r) ==> r == distance_of(distance, a, b) && (is_finite_point(a)
            && is_finite_point(b) ==> !r.nan())
}

/// Measures a distance.
pub fn measure<D: Fn(Vec2, Vec2) -> Real64>(distance: &D, a: Vec2, b: Vec2) -> (r: Real64)
    requires
        is_distance(*distance),
    ensures
        r == distance_of(*distance, a, b),
        is_finite_point(a) && is_finite_point(b) ==> !r.nan(),
{
    let r: Real64 = distance(a, b);
    assert(call_ensures(*distance, (a, b), r));
    r
}

/// The origin.
pub open spec fn origin() -> Vec2 {
    Vec2 { x: num(D0), y: num(D0) }
}

/// The length of a vector: how far its tip is from the origin.
pub open spec fn size_of<D: Fn(Vec2, Vec2) -> Real64>(distance: D, v: Vec2) -> Real64 {
    distance_of(distance, v, origin())
}

/// Measures a vector.
pub fn measure_size<D: Fn(Vec2, Vec2) -> Real64>(distance: &D, v: Vec2) -> (r: Real64)
    requires
        is_distance(*distance),
    ensures
        r == size_of(*distance, v),
{
    measure(distance, v, Vec2 { x: at_bits(D0), y: at_bits(D0) })
}

/// What a heading gives for a vector.
pub open spec fn heading_of<U: Fn(Vec2) -> Vec2>(unit: U, v: Vec2) -> Vec2 {
    choose|r: Vec2| call_ensures(unit, (v,), r)
}

/// The heading takes all vectors and depends on nothing else.
pub open spec fn is_heading<U: Fn(Vec2) -> Vec2>(unit: U) -> bool {
    &&& forall|v: Vec2| #[trigger] call_requires(unit, (v,))
    &&& forall|v: Vec2, r: Vec2| #[trigger] call_ensures(unit, (v,), r) ==> r == heading_of(unit, v)
}

/// Takes the heading of a vector.
pub fn head_for<U: Fn(Vec2) -> Vec2>(unit: &U, v: Vec2) -> (r: Vec2)
    requires
        is_heading(*unit),
    ensures
        r == heading_of(*unit, v),
{
    let r: Vec2 = unit(v);
    assert(call_ensures(*unit, (v,), r));
    r
}

/// What a limit on lengths gives for a vector and a length.
pub open spec fn limited_by<L: Fn(Vec2, Real64) -> Vec2>(limit: L, v: Vec2, size: Real64) -> Vec2 {
    choose|r: Vec2| call_ensures(limit, (v, size), r)
}

/// The limit takes all vectors and lengths and depends on nothing else.
pub open spec fn is_limit<L: Fn(Vec2, Real64) -> Vec2>(limit: L) -> bool {
    &&& forall|v: Vec2, size: Real64| #[trigger] call_requires(limit, (v, size))
    &&& forall|v: Vec2, size: Real64, r: Vec2| #[trigger]
        call_ensures(limit, (v, size), r) ==> r == limited_by(limit, v, size)
}

/// Limits the length of a vector.
pub fn limit_size<L: Fn(Vec2, Real64) -> Vec2>(limit: &L, v: Vec2, size: Real64) -> (r: Vec2)
    requires
        is_limit(*limit),
    ensures
        r == limited_by(*limit, v, size),
{
    let r: Vec2 = limit(v, size);
    assert(call_ensures(*limit, (v, size), r));
    r
}

/// One vector after the other.
pub open spec fn joined<P: Fn(Real64, Real64) -> Real64>(plus: P, a: Vec2, b: Vec2) -> Vec2 {
    Vec2 { x: outcome(plus, a.x, b.x), y: outcome(plus, a.y, b.y) }
}

pub fn join<P: Fn(Real64, Real64) -> Real64>(a: Vec2, b: Vec2, plus: &P) -> (r: Vec2)
    requires
        is_operation(*plus),
    ensures
        r == joined(*plus, a, b),
{
    Vec2 { x: apply(plus, a.x, b.x), y: apply(plus, a.y, b.y) }
}

/// The vector from one point to another.
pub open spec fn way<P: Fn(Real64, Real64) -> Real64>(plus: P, from: Vec2, to: Vec2) -> Vec2 {
    Vec2 { x: outcome(plus, to.x, from.x.negated()), y: outcome(plus, to.y, from.y.negated()) }
}

pub fn find_way<P: Fn(Real64, Real64) -> Real64>(from: Vec2, to: Vec2, plus: &P) -> (r: Vec2)
    requires
        is_operation(*plus),
    ensures
        r == way(*plus, from, to),
{
    Vec2 { x: apply(plus, to.x, from.x.negate()), y: apply(plus, to.y, from.y.negate()) }
}

/// A vector by a factor.
pub open spec fn stretched<M: Fn(Real64, Real64) -> Real64>(
    times: M,
    v: Vec2,
    factor: Real64,
) -> Vec2 {
    Vec2 { x: outcome(times, v.x, factor), y: outcome(times, v.y, factor) }
}

pub fn stretch<M: Fn(Real64, Real64) -> Real64>(v: Vec2, factor: Real64, times: &M) -> (r: Vec2)
    requires
        is_operation(*times),
    ensures
        r == stretched(*times, v, factor),
{
    Vec2 { x: apply(times, v.x, factor), y: apply(times, v.y, factor) }
}

/// A vector by a divisor.
pub open spec fn divided<Q: Fn(Real64, Real64) -> Real64>(
    over: Q,
    v: Vec2,
    divisor: Real64,
) -> Vec2 {
    Vec2 { x: outcome(over, v.x, divisor), y: outcome(over, v.y, divisor) }
}

pub fn divide<Q: Fn(Real64, Real64) -> Real64>(v: Vec2, divisor: Real64, over: &Q) -> (r: Vec2)
    requires
        is_operation(*over),
    ensures
        r == divided(*over, v, divisor),
{
    Vec2 { x: apply(over, v.x, divisor), y: apply(over, v.y, divisor) }
}

/// A point kept on the pitch.
pub open spec fn kept_in(v: Vec2, width: Real64, length: Real64) -> Vec2 {
    Vec2 { x: clamped_to(v.x, num(D0), width), y: clamped_to(v.y, num(D0), length) }
}

pub fn keep_in(v: Vec2, width: Real64, length: Real64) -> (r: Vec2)
    ensures
        r == kept_in(v, width, length),
{
    Vec2 { x: clamp_to(v.x, at_bits(D0), width), y: clamp_to(v.y, at_bits(D0), length) }
}

/// A finite vector, or what stands for it.
pub open spec fn finite_or(v: Vec2, fallback: Vec2) -> Vec2 {
    if is_finite_point(v) {
        v
    } else {
        fallback
    }
}

pub fn take_finite(v: Vec2, fallback: Vec2) -> (r: Vec2)
    ensures
        r == finite_or(v, fallback),
{
    if finite_point(v) {
        v
    } else {
        fallback
    }
}

/// A point on the pitch, or what stands for it where it is not finite.
pub open spec fn place_or(v: Vec2, width: Real64, length: Real64, fallback: Vec2) -> Vec2 {
    kept_in(finite_or(v, fallback), width, length)
}

pub fn take_place(v: Vec2, width: Real64, length: Real64, fallback: Vec2) -> (r: Vec2)
    ensures
        r == place_or(v, width, length, fallback),
{
    keep_in(take_finite(v, fallback), width, length)
}

/// The middle of the pitch.
pub open spec fn middle<M: Fn(Real64, Real64) -> Real64>(
    times: M,
    width: Real64,
    length: Real64,
) -> Vec2 {
    Vec2 {
        x: outcome(times, width, num(D0_5)),
        y: outcome(times, length, num(D0_5)),
    }
}

pub fn find_middle<M: Fn(Real64, Real64) -> Real64>(
    width: Real64,
    length: Real64,
    times: &M,
) -> (r: Vec2)
    requires
        is_operation(*times),
    ensures
        r == middle(*times, width, length),
{
    Vec2 {
        x: apply(times, width, at_bits(D0_5)),
        y: apply(times, length, at_bits(D0_5)),
    }
}

/// A point kept on a pitch stays there, and one that is there already is not moved.
pub proof fn places_are_kept(v: Vec2, width: Real64, length: Real64, fallback: Vec2)
    requires
        is_finite_point(fallback),
        width.finite(),
        length.finite(),
        0 <= width.key(),
        0 <= length.key(),
    ensures
        ({
            let p = place_or(v, width, length, fallback);
            &&& is_finite_point(p)
            &&& 0 <= p.x.key() <= width.key()
            &&& 0 <= p.y.key() <= length.key()
            &&& place_or(p, width, length, fallback) == p
        }),
{
}

/// Places are joined, parted, stretched, divided and kept on the pitch along both axes.
pub proof fn places_are_reckoned_axis_by_axis<
    P: Fn(Real64, Real64) -> Real64,
    M: Fn(Real64, Real64) -> Real64,
    Q: Fn(Real64, Real64) -> Real64,
>(
    means: spec_fn(Real64, real) -> bool,
    plus: P,
    times: M,
    over: Q,
    a: Vec2,
    b: Vec2,
    factor: Real64,
    width: Real64,
    length: Real64,
    ax: real,
    ay: real,
    bx: real,
    by: real,
    f: real,
    w: real,
    l: real,
)
    requires
        is_faithful(means, plus, times),
        reads_quotients(means, over),
        stands_at(means, a, ax, ay),
        stands_at(means, b, bx, by),
        means(factor, f),
        f != 0real,
        means(width, w),
        means(length, l),
    ensures
        stands_at(means, joined(plus, a, b), ax + bx, ay + by),
        stands_at(means, way(plus, a, b), bx - ax, by - ay),
        stands_at(means, stretched(times, a, factor), ax * f, ay * f),
        stands_at(means, divided(over, a, factor), ax / f, ay / f),
        stands_at(means, kept_in(a, width, length), bounded(ax, 0real, w), bounded(ay, 0real, l)),
        stands_at(means, middle(times, width, length), w / 2real, l / 2real),
{
    decimals_are_read(means);
    assert(bx + -ax == bx - ax && by + -ay == by - ay);
    assert(w * (1real / 2real) == w / 2real && l * (1real / 2real) == l / 2real);
}

} // verus!
