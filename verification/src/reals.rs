//! Small facts of real arithmetic.
use vstd::prelude::*;

verus! {

/// A quotient times the divisor is the dividend.
pub proof fn quotient(x: real, n: real)
    requires
        n != 0real,
    ensures
        (x / n) * n == x,
{
    assert((x / n) * n == x) by (nonlinear_arith)
        requires
            n != 0real,
    ;
}

/// A common factor can be cancelled.
pub proof fn cancel(a: real, b: real, c: real)
    requires
        c != 0real,
        a * c == b * c,
    ensures
        a == b,
{
    let d = a - b;
    assert(d * c == a * c - b * c) by (nonlinear_arith)
        requires
            d == a - b,
    ;
    assert(d == 0real) by (nonlinear_arith)
        requires
            d * c == 0real,
            c != 0real,
    ;
}

pub proof fn nonneg_times(a: real, b: real)
    requires
        a >= 0real,
        b >= 0real,
    ensures
        a * b >= 0real,
{
    assert(a * b >= 0real) by (nonlinear_arith)
        requires
            a >= 0real,
            b >= 0real,
    ;
}

pub proof fn pos_times(a: real, b: real)
    requires
        a > 0real,
        b > 0real,
    ensures
        a * b > 0real,
{
    assert(a * b > 0real) by (nonlinear_arith)
        requires
            a > 0real,
            b > 0real,
    ;
}

/// A factor that is not negative keeps order.
pub proof fn order_times(a: real, b: real, c: real)
    requires
        a <= b,
        c >= 0real,
    ensures
        a * c <= b * c,
{
    nonneg_times(b - a, c);
    assert((b - a) * c == b * c - a * c) by (nonlinear_arith);
}

} // verus!
