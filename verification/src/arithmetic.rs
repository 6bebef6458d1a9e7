//! What arithmetic on numbers keeps, rounded or not: the order of numbers and their signs.
use crate::decimals::{D1, DM1};
use crate::number::{num, outcome, Real64};
use vstd::prelude::*;

verus! {

/// Sums with a finite number are numbers and keep the order of the other term, and zero adds
/// nothing.
pub open spec fn sums_keep_order<P: Fn(Real64, Real64) -> Real64>(plus: P) -> bool {
    &&& forall|a: Real64, b: Real64|
        a.finite() && !b.nan() ==> !(#[trigger] outcome(plus, a, b)).nan()
    &&& forall|a: Real64, b: Real64|
        !a.nan() && b.finite() ==> !(#[trigger] outcome(plus, a, b)).nan()
    &&& forall|a: Real64, b: Real64, c: Real64|
        a.finite() && !b.nan() && !c.nan() && b.key() <= c.key() ==> (#[trigger] outcome(
            plus,
            a,
            b,
        )).key() <= (#[trigger] outcome(plus, a, c)).key()
    &&& forall|a: Real64, b: Real64, c: Real64|
        a.finite() && !b.nan() && !c.nan() && b.key() <= c.key() ==> (#[trigger] outcome(
            plus,
            b,
            a,
        )).key() <= (#[trigger] outcome(plus, c, a)).key()
    &&& forall|a: Real64, z: Real64|
        !a.nan() && z.key() == 0 ==> (#[trigger] outcome(plus, a, z)).key() == a.key()
    &&& forall|a: Real64, z: Real64|
        !a.nan() && z.key() == 0 ==> (#[trigger] outcome(plus, z, a)).key() == a.key()
}

/// Differences have the sign of the order: what is taken from a greater number leaves something
/// above zero, from a lesser one something below, and from itself nothing.
pub open spec fn differences_tell_order<P: Fn(Real64, Real64) -> Real64>(plus: P) -> bool {
    forall|a: Real64, b: Real64|
        a.finite() && b.finite() ==> {
            let d = #[trigger] outcome(plus, a, b.negated());
            &&& !d.nan()
            &&& a.key() < b.key() ==> d.key() < 0
            &&& a.key() == b.key() ==> d.key() == 0
            &&& a.key() > b.key() ==> d.key() > 0
        }
}

/// Two numbers whose product is a number: both are finite, or neither is NaN and the infinite one
/// does not meet zero.
pub open spec fn can_multiply(a: Real64, b: Real64) -> bool {
    !a.nan() && !b.nan() && (a.finite() || b.key() != 0) && (b.finite() || a.key() != 0)
}

/// Products are numbers; by what is not below zero they keep the order of the other factor, by one
/// they keep the number, by minus one they turn its sign, and zero makes nothing of what is finite.
pub open spec fn products_keep_order<M: Fn(Real64, Real64) -> Real64>(times: M) -> bool {
    &&& forall|a: Real64, b: Real64|
        can_multiply(a, b) ==> !(#[trigger] outcome(times, a, b)).nan()
    &&& forall|a: Real64, b: Real64, c: Real64|
        can_multiply(a, c) && can_multiply(b, c) && c.key() >= 0 && a.key() <= b.key() ==> (
        #[trigger] outcome(times, a, c)).key() <= (#[trigger] outcome(times, b, c)).key()
    &&& forall|a: Real64, b: Real64, c: Real64|
        can_multiply(c, a) && can_multiply(c, b) && c.key() >= 0 && a.key() <= b.key() ==> (
        #[trigger] outcome(times, c, a)).key() <= (#[trigger] outcome(times, c, b)).key()
    &&& forall|a: Real64, z: Real64|
        a.finite() && z.key() == 0 ==> (#[trigger] outcome(times, a, z)).key() == 0
    &&& forall|a: Real64, z: Real64|
        a.finite() && z.key() == 0 ==> (#[trigger] outcome(times, z, a)).key() == 0
    &&& forall|a: Real64| !a.nan() ==> #[trigger] outcome(times, num(D1), a) == a
    &&& forall|a: Real64| !a.nan() ==> #[trigger] outcome(times, a, num(D1)) == a
    &&& forall|a: Real64| !a.nan() ==> #[trigger] outcome(times, num(DM1), a) == a.negated()
}

/// The sign of a product follows from the signs of its factors.
pub proof fn signs_multiply<M: Fn(Real64, Real64) -> Real64>(times: M, a: Real64, b: Real64)
    requires
        products_keep_order(times),
        !a.nan(),
        b.finite(),
        b.key() > 0 || (a.finite() && b.key() == 0),
    ensures
        !outcome(times, a, b).nan(),
        a.key() >= 0 ==> outcome(times, a, b).key() >= 0,
        a.key() <= 0 ==> outcome(times, a, b).key() <= 0,
{
    assert(outcome(times, num(0), b).key() == 0);
    assert(can_multiply(a, b) && can_multiply(num(0), b));
}

/// What is added moves a number its own way.
pub proof fn sums_move_with_signs<P: Fn(Real64, Real64) -> Real64>(plus: P, a: Real64, b: Real64)
    requires
        sums_keep_order(plus),
        a.finite(),
        !b.nan(),
    ensures
        !outcome(plus, a, b).nan(),
        b.key() >= 0 ==> outcome(plus, a, b).key() >= a.key(),
        b.key() <= 0 ==> outcome(plus, a, b).key() <= a.key(),
{
    assert(outcome(plus, a, num(0)).key() == a.key());
}

} // verus!
