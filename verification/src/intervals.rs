//! The Wilson interval of a mean, in real numbers.
use crate::meaning::is_root;
use crate::reals::{cancel, nonneg_times, order_times, pos_times, quotient};
use vstd::prelude::*;

verus! {

/// `b` is a mean below 1 that `p` lies `z` standard errors above, where the variance of a game is
/// that of a mean of `b`: the lower end of the Wilson interval of `p` over `n` games.
pub open spec fn is_wilson_end(p: real, n: real, z: real, b: real) -> bool {
    &&& b <= p
    &&& b < 1real
    &&& (p - b) * (p - b) * n == z * z * (b * (1real - b))
}

/// The end solves the equation for a mean.
proof fn ends_solve(p: real, n: real, zz: real, q: real, b: real)
    requires
        n >= 1real,
        q * n == zz,
        (p - b) * (p - b) * n == zz * (b * (1real - b)),
    ensures
        (p - b) * (p - b) == q * (b * (1real - b)),
{
    let f = (p - b) * (p - b);
    let g = b * (1real - b);
    assert((q * g) * n == (q * n) * g) by (nonlinear_arith);
    cancel(f, q * g, n);
}

/// The distance of the middle of the interval from its end.
proof fn ends_lie_under_the_middle(p: real, q: real, b: real)
    requires
        q > 0real,
        p <= 1real,
        b <= p,
        b < 1real,
        (p - b) * (p - b) == q * (b * (1real - b)),
    ensures
        p - b + q * (1real / 2real - b) >= 0real,
        (p - b + q * (1real / 2real - b)) * (p - b + q * (1real / 2real - b)) == q * (p * (1real
            - p) + q / 4real),
{
    let u = p - b;
    let k = 1real / 2real - b;
    let t = q * k;
    let x = b * (1real - b);
    let d = u + t;
    assert((u + t) * (u + t) == u * u + 2real * (u * t) + t * t) by (nonlinear_arith);
    assert(u * t == q * (u * k)) by (nonlinear_arith)
        requires
            t == q * k,
    ;
    assert(t * t == q * (q * (k * k))) by (nonlinear_arith)
        requires
            t == q * k,
    ;
    assert(k * k == 1real / 4real - x) by (nonlinear_arith)
        requires
            k == 1real / 2real - b,
            x == b * (1real - b),
    ;
    assert(x + 2real * (u * k) - u * u == p * (1real - p)) by (nonlinear_arith)
        requires
            u == p - b,
            k == 1real / 2real - b,
            x == b * (1real - b),
    ;
    let pp = p * (1real - p);
    let uk = u * k;
    let kk = k * k;
    assert(q * x + 2real * (q * uk) + q * (q * kk) == q * (x + 2real * uk + q * kk))
        by (nonlinear_arith);
    assert(q * kk == q / 4real - q * x) by (nonlinear_arith)
        requires
            kk == 1real / 4real - x,
    ;
    assert(x + 2real * uk + q * kk == pp + q / 4real);
    assert(d * d == q * (pp + q / 4real));
    if b <= 1real / 2real {
        nonneg_times(q, 1real / 2real - b);
    } else if u < q * b {
        // Then u (1 - b) < q b (1 - b) = u u <= u (1 - b).
        let r = 1real - b;
        order_times(u, r, u);
        assert(r * u == u * r) by (nonlinear_arith);
        let gap = q * b - u;
        pos_times(gap, r);
        assert(gap * r == q * (b * r) - u * r) by (nonlinear_arith)
            requires
                gap == q * b - u,
        ;
    } else {
        assert(q * (1real / 2real - b) == q / 2real - q * b) by (nonlinear_arith);
    }
}

/// The end of the Wilson interval in closed form.
pub proof fn wilson_ends_have_a_form(p: real, n: real, z: real, b: real) -> (s: real)
    requires
        n >= 1real,
        z > 0real,
        0real <= p <= 1real,
        is_wilson_end(p, n, z, b),
    ensures
        is_root(p * (1real - p) / n + z * z / (4real * n * n), s),
        (p + z * z / (2real * n)) / (1real + z * z / n) - (z / (1real + z * z / n)) * s == b,
{
    let zz = z * z;
    let q = zz / n;
    let h = zz / (2real * n);
    let w = 1real + q;
    pos_times(z, z);
    pos_times(n, n);
    quotient(zz, n);
    assert(q > 0real) by (nonlinear_arith)
        requires
            q * n == zz,
            zz > 0real,
            n >= 1real,
    ;
    ends_solve(p, n, zz, q, b);
    ends_lie_under_the_middle(p, q, b);
    let d = p - b + q * (1real / 2real - b);
    // h is half of q.
    quotient(zz, 2real * n);
    assert((2real * h) * n == h * (2real * n)) by (nonlinear_arith);
    cancel(2real * h, q, n);
    // The variance.
    let pp = p * (1real - p);
    let first = pp / n;
    let second = zz / (4real * n * n);
    let v = first + second;
    quotient(pp, n);
    let m = 4real * n * n;
    assert(m == 4real * (n * n)) by (nonlinear_arith)
        requires
            m == 4real * n * n,
    ;
    quotient(zz, m);
    let t = 4real * second * n;
    assert(t * n == second * m) by (nonlinear_arith)
        requires
            t == 4real * second * n,
            m == 4real * (n * n),
    ;
    cancel(t, q, n);
    assert(v * zz == q * (pp + q / 4real)) by {
        assert(v * (q * n) == q * (first * n) + q * (second * n)) by (nonlinear_arith)
            requires
                v == first + second,
        ;
        assert(second * n == q / 4real) by (nonlinear_arith)
            requires
                4real * second * n == q,
        ;
        assert(q * (pp + q / 4real) == q * pp + q * (q / 4real)) by (nonlinear_arith);
    }
    let s = d / z;
    quotient(d, z);
    assert(s >= 0real) by (nonlinear_arith)
        requires
            s * z == d,
            d >= 0real,
            z > 0real,
    ;
    assert((s * s) * zz == (s * z) * (s * z)) by (nonlinear_arith)
        requires
            zz == z * z,
    ;
    cancel(s * s, v, zz);
    // Back to the end.
    let x = (p + h) / w;
    let y = z / w;
    quotient(p + h, w);
    quotient(z, w);
    assert((x - y * s) * w == x * w - (y * w) * s) by (nonlinear_arith);
    assert((y * w) * s == s * z) by (nonlinear_arith)
        requires
            y * w == z,
    ;
    assert(b * w == b + q * b) by (nonlinear_arith)
        requires
            w == 1real + q,
    ;
    assert(q * (1real / 2real - b) == q / 2real - q * b) by (nonlinear_arith);
    cancel(x - y * s, b, w);
    s
}

/// More games make surer: of two ends of intervals around the same mean, neither certain, the one
/// over more games lies higher.
pub proof fn more_games_make_surer(p: real, z: real, n: real, more: real, b: real, c: real)
    requires
        0real < p < 1real,
        z > 0real,
        1real <= n < more,
        is_wilson_end(p, n, z, b),
        is_wilson_end(p, more, z, c),
    ensures
        0real <= b < c < p,
{
    ends_lie_below(p, n, z, b);
    ends_lie_below(p, more, z, c);
    if c <= b {
        let u = p - b;
        let v = p - c;
        let g = u * u;
        let f = v * v;
        let x = b * (1real - b);
        let y = c * (1real - c);
        // Further from the mean, the variance relative to the distance is smaller.
        order_times(u, v, c);
        order_times(c, b, v);
        assert(c * v == v * c && b * v == v * b) by (nonlinear_arith);
        order_times(u, v, 1real - b);
        assert(v * (1real - b) >= u * (1real - c)) by {
            assert(v * (1real - b) - u * (1real - c) == (b - c) * (1real - p)) by (nonlinear_arith)
                requires
                    u == p - b,
                    v == p - c,
            ;
            nonneg_times(b - c, 1real - p);
        }
        nonneg_times(u, c);
        nonneg_times(u, 1real - c);
        nonneg_times(v, b);
        order_times(u * c, v * b, u * (1real - c));
        order_times(u * (1real - c), v * (1real - b), v * b);
        assert((u * c) * (u * (1real - c)) == g * y) by (nonlinear_arith)
            requires
                g == u * u,
                y == c * (1real - c),
        ;
        assert((v * (1real - b)) * (v * b) == f * x) by (nonlinear_arith)
            requires
                f == v * v,
                x == b * (1real - b),
        ;
        assert((v * b) * (u * (1real - c)) == (u * (1real - c)) * (v * b)) by (nonlinear_arith);
        assert(g * y <= f * x);
        // So the one over more games would have to be further off than the sureness allows.
        let zz = z * z;
        pos_times(z, z);
        order_times(g * y, f * x, zz);
        assert((g * y) * zz == g * (zz * y)) by (nonlinear_arith);
        assert((f * x) * zz == f * (zz * x)) by (nonlinear_arith);
        let k = f * g;
        assert(g * (f * more) == k * more) by (nonlinear_arith)
            requires
                k == f * g,
        ;
        assert(f * (g * n) == k * n) by (nonlinear_arith)
            requires
                k == f * g,
        ;
        pos_times(f, g);
        pos_times(k, more - n);
        assert(k * (more - n) == k * more - k * n) by (nonlinear_arith);
    }
}

/// The ends of intervals around a mean that is not certain lie between 0 and the mean.
proof fn ends_lie_below(p: real, n: real, z: real, b: real)
    requires
        0real < p < 1real,
        z > 0real,
        1real <= n,
        is_wilson_end(p, n, z, b),
    ensures
        0real < b < p,
        (p - b) * (p - b) > 0real,
{
    let u = p - b;
    if u == 0real {
        pos_times(p, 1real - p);
        pos_times(z, z);
        pos_times(z * z, p * (1real - p));
        assert(u * u * n == 0real) by (nonlinear_arith)
            requires
                u == 0real,
        ;
    }
    pos_times(u, u);
    pos_times(u * u, n);
    if b <= 0real {
        nonneg_times(-b, 1real - b);
        assert((-b) * (1real - b) == -(b * (1real - b))) by (nonlinear_arith);
        pos_times(z, z);
        nonneg_times(z * z, -(b * (1real - b)));
        let x = b * (1real - b);
        assert(z * z * (-x) == -(z * z * x)) by (nonlinear_arith);
    }
}

/// With enough games the bound comes as close to the mean as one likes: its distance, squared, is
/// no more than a quarter of the squared sureness for every game.
pub proof fn bounds_come_close(p: real, z: real, n: real, b: real)
    requires
        z > 0real,
        1real <= n,
        is_wilson_end(p, n, z, b),
    ensures
        4real * ((p - b) * (p - b)) * n <= z * z,
{
    let h = b - 1real / 2real;
    let x = b * (1real - b);
    assert(x == 1real / 4real - h * h) by (nonlinear_arith)
        requires
            h == b - 1real / 2real,
            x == b * (1real - b),
    ;
    if h >= 0real {
        nonneg_times(h, h);
    } else {
        nonneg_times(-h, -h);
        assert((-h) * (-h) == h * h) by (nonlinear_arith);
    }
    pos_times(z, z);
    order_times(4real * x, 1real, z * z);
    assert((4real * x) * (z * z) == 4real * (z * z * x)) by (nonlinear_arith);
    let f = (p - b) * (p - b);
    assert(4real * f * n == 4real * (f * n)) by (nonlinear_arith);
}

} // verus!
