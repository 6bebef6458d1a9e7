//! Finite sums of integers.
use vstd::prelude::*;

verus! {

/// The sum of the first `n` values.
pub open spec fn total(f: spec_fn(int) -> int, n: int) -> int
    decreases n,
{
    if n <= 0 {
        0
    } else {
        total(f, n - 1) + f(n - 1)
    }
}

/// Equal values have equal sums.
pub proof fn total_same(f: spec_fn(int) -> int, g: spec_fn(int) -> int, n: int)
    requires
        forall|i: int| 0 <= i < n ==> #[trigger] f(i) == g(i),
    ensures
        total(f, n) == total(g, n),
    decreases n,
{
    if n > 0 {
        total_same(f, g, n - 1);
        assert(f(n - 1) == g(n - 1));
    }
}

/// Zeros add up to zero.
pub proof fn total_zero(f: spec_fn(int) -> int, n: int)
    requires
        forall|i: int| 0 <= i < n ==> #[trigger] f(i) == 0,
    ensures
        total(f, n) == 0,
    decreases n,
{
    if n > 0 {
        total_zero(f, n - 1);
        assert(f(n - 1) == 0);
    }
}

/// A sum with one value other than zero is that value.
pub proof fn total_one(f: spec_fn(int) -> int, n: int, k: int)
    requires
        0 <= k < n,
        forall|i: int| 0 <= i < n && i != k ==> #[trigger] f(i) == 0,
    ensures
        total(f, n) == f(k),
    decreases n,
{
    if k == n - 1 {
        total_zero(f, n - 1);
    } else {
        total_one(f, n - 1, k);
        assert(f(n - 1) == 0);
    }
}

/// A sum with two values other than zero is the sum of both.
pub proof fn total_two(f: spec_fn(int) -> int, n: int, j: int, k: int)
    requires
        0 <= j < k < n,
        forall|i: int| 0 <= i < n && i != j && i != k ==> #[trigger] f(i) == 0,
    ensures
        total(f, n) == f(j) + f(k),
    decreases n,
{
    if k == n - 1 {
        total_one(f, n - 1, j);
    } else {
        total_two(f, n - 1, j, k);
        assert(f(n - 1) == 0);
    }
}

/// Sums add up value by value.
pub proof fn total_plus(f: spec_fn(int) -> int, g: spec_fn(int) -> int, n: int)
    ensures
        total(|i: int| f(i) + g(i), n) == total(f, n) + total(g, n),
    decreases n,
{
    if n > 0 {
        total_plus(f, g, n - 1);
    }
}

/// A common factor can be taken out.
pub proof fn total_scaled(c: int, f: spec_fn(int) -> int, n: int)
    ensures
        total(|i: int| c * f(i), n) == c * total(f, n),
    decreases n,
{
    if n > 0 {
        total_scaled(c, f, n - 1);
        assert(c * (total(f, n - 1) + f(n - 1)) == c * total(f, n - 1) + c * f(n - 1))
            by (nonlinear_arith);
    } else {
        assert(c * 0 == 0);
    }
}

/// A sum in two parts.
pub proof fn total_split(f: spec_fn(int) -> int, m: int, n: int)
    requires
        0 <= m,
        0 <= n,
    ensures
        total(f, m + n) == total(f, m) + total(|i: int| f(m + i), n),
    decreases n,
{
    if n > 0 {
        total_split(f, m, n - 1);
    }
}

/// A sum over blocks of `k` values.
pub proof fn total_blocks(f: spec_fn(int) -> int, m: int, k: int)
    requires
        0 <= m,
        0 <= k,
    ensures
        total(f, m * k) == total(|q: int| total(|t: int| f(q * k + t), k), m),
    decreases m,
{
    if m > 0 {
        total_blocks(f, m - 1, k);
        assert(m * k == (m - 1) * k + k) by (nonlinear_arith);
        assert(0 <= (m - 1) * k) by (nonlinear_arith)
            requires
                m > 0,
                0 <= k,
        ;
        total_split(f, (m - 1) * k, k);
        let outer = |q: int| total(|t: int| f(q * k + t), k);
        total_same(|i: int| f((m - 1) * k + i), |t: int| f((m - 1) * k + t), k);
        assert(outer(m - 1) == total(|t: int| f((m - 1) * k + t), k));
    } else {
        assert(m * k == 0) by (nonlinear_arith)
            requires
                m == 0,
        ;
    }
}

/// The order of two sums can be exchanged.
pub proof fn total_swap(f: spec_fn(int, int) -> int, m: int, n: int)
    requires
        0 <= m,
        0 <= n,
    ensures
        total(|i: int| total(|j: int| f(i, j), n), m) == total(
            |j: int| total(|i: int| f(i, j), m),
            n,
        ),
    decreases m,
{
    let rows = |i: int| total(|j: int| f(i, j), n);
    let columns = |j: int| total(|i: int| f(i, j), m);
    if m == 0 {
        total_zero(columns, n);
    } else {
        total_swap(f, m - 1, n);
        let shorter = |j: int| total(|i: int| f(i, j), m - 1);
        let last = |j: int| f(m - 1, j);
        total_plus(shorter, last, n);
        total_same(columns, |j: int| shorter(j) + last(j), n);
        total_same(|j: int| f(m - 1, j), last, n);
    }
}

/// Values that are not negative have a sum that is not, and one that is at least each of them.
pub proof fn total_bounds(f: spec_fn(int) -> int, n: int)
    requires
        forall|i: int| 0 <= i < n ==> 0 <= #[trigger] f(i),
    ensures
        0 <= total(f, n),
        forall|i: int| 0 <= i < n ==> #[trigger] f(i) <= total(f, n),
    decreases n,
{
    if n > 0 {
        total_bounds(f, n - 1);
        assert(0 <= f(n - 1));
    }
}

/// Lesser values have a lesser sum.
pub proof fn total_grows(f: spec_fn(int) -> int, g: spec_fn(int) -> int, n: int)
    requires
        forall|i: int| 0 <= i < n ==> #[trigger] f(i) <= g(i),
    ensures
        total(f, n) <= total(g, n),
    decreases n,
{
    if n > 0 {
        total_grows(f, g, n - 1);
        assert(f(n - 1) <= g(n - 1));
    }
}

/// Values of at most one have a sum of at most their number, and of less where one is missing.
pub proof fn total_of_flags(f: spec_fn(int) -> int, n: int)
    requires
        0 <= n,
        forall|i: int| 0 <= i < n ==> #[trigger] f(i) <= 1,
    ensures
        total(f, n) <= n,
        (exists|i: int| 0 <= i < n && #[trigger] f(i) <= 0) ==> total(f, n) < n,
        (forall|i: int| 0 <= i < n ==> #[trigger] f(i) == 1) ==> total(f, n) == n,
    decreases n,
{
    if n > 0 {
        total_of_flags(f, n - 1);
        assert(f(n - 1) <= 1);
        if exists|i: int| 0 <= i < n && #[trigger] f(i) <= 0 {
            let i = choose|i: int| 0 <= i < n && #[trigger] f(i) <= 0;
            if i < n - 1 {
                assert(exists|i: int| 0 <= i < n - 1 && #[trigger] f(i) <= 0);
            }
        }
    }
}

/// Where values of 0 and 1 add up to at least one, one of them is 1; where they add up to at most
/// one, no two are.
pub proof fn total_tells_flags(f: spec_fn(int) -> int, n: int)
    requires
        forall|i: int| 0 <= i < n ==> 0 <= #[trigger] f(i) <= 1,
    ensures
        total(f, n) >= 1 ==> exists|i: int| 0 <= i < n && #[trigger] f(i) == 1,
        total(f, n) <= 1 ==> forall|i: int, j: int|
            0 <= i < j < n ==> #[trigger] f(i) == 0 || #[trigger] f(j) == 0,
        total(f, n) <= 0 ==> forall|i: int| 0 <= i < n ==> #[trigger] f(i) == 0,
    decreases n,
{
    if n > 0 {
        total_tells_flags(f, n - 1);
        total_bounds(f, n - 1);
        assert(0 <= f(n - 1) <= 1);
        if total(f, n) >= 1 && f(n - 1) == 0 {
            let i = choose|i: int| 0 <= i < n - 1 && #[trigger] f(i) == 1;
            assert(f(i) == 1);
        }
        if total(f, n) <= 1 {
            assert forall|i: int, j: int| 0 <= i < j < n implies #[trigger] f(i) == 0
                || #[trigger] f(j) == 0 by {
                if j == n - 1 && f(j) == 1 {
                    assert(total(f, n - 1) <= 0);
                    assert(f(i) <= total(f, n - 1));
                }
            }
        }
    }
}

} // verus!
