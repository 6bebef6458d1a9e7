//! Lower confidence bounds on a mean score.
use crate::decimals::{D0, D0_25, D1, D2, D4};
use crate::eval_gate::{mean_of, CandidateRecord};
use crate::intervals::{is_wilson_end, wilson_ends_have_a_form};
use crate::meaning::{
    decimals_are_read, is_faithful, is_root, reads_counts, reads_quotients, reads_roots,
};
use crate::number::{
    apply, at_bits, clamp_to, clamped_to, image, is_conversion, is_function, is_operation, larger,
    larger_of, map_number, num, number_of, outcome, to_number, Real64,
};
use crate::reals::{cancel, pos_times, quotient};
use vstd::prelude::*;

verus! {

/// The lower bound of the Wilson score interval for a mean of `p_hat` over `games` games.
pub open spec fn wilson_bound<
    P: Fn(Real64, Real64) -> Real64,
    M: Fn(Real64, Real64) -> Real64,
    Q: Fn(Real64, Real64) -> Real64,
    C: Fn(usize) -> Real64,
    R: Fn(Real64) -> Real64,
>(
    plus: P,
    times: M,
    over: Q,
    count: C,
    root: R,
    p_hat: Real64,
    games: u32,
    z: Real64,
) -> Real64 {
    if games == 0 {
        num(D0)
    } else {
        let p = clamped_to(p_hat, num(D0), num(D1));
        let n = number_of(count, games as usize);
        let square = outcome(times, z, z);
        let width = outcome(plus, num(D1), outcome(over, square, n));
        let center = outcome(
            over,
            outcome(plus, p, outcome(over, square, outcome(times, num(D2), n))),
            width,
        );
        let variance = outcome(
            plus,
            outcome(
                over,
                outcome(times, p, outcome(plus, num(D1), p.negated())),
                n,
            ),
            outcome(over, square, outcome(times, outcome(times, num(D4), n), n)),
        );
        let margin = outcome(times, outcome(over, z, width), image(root, variance));
        clamped_to(outcome(plus, center, margin.negated()), num(D0), num(D1))
    }
}

/// Works out the Wilson bound. `root` is the square root.
pub fn wilson_lower_bound<
    P: Fn(Real64, Real64) -> Real64,
    M: Fn(Real64, Real64) -> Real64,
    Q: Fn(Real64, Real64) -> Real64,
    C: Fn(usize) -> Real64,
    R: Fn(Real64) -> Real64,
>(
    p_hat: Real64,
    games: u32,
    z: Real64,
    plus: &P,
    times: &M,
    over: &Q,
    count: &C,
    root: &R,
) -> (r: Real64)
    requires
        is_operation(*plus),
        is_operation(*times),
        is_operation(*over),
        is_conversion(*count),
        is_function(*root),
    ensures
        r == wilson_bound(*plus, *times, *over, *count, *root, p_hat, games, z),
{
    if games == 0 {
        return at_bits(D0);
    }
    let one: Real64 = at_bits(D1);
    let p: Real64 = clamp_to(p_hat, at_bits(D0), one);
    let n: Real64 = to_number(count, games as usize);
    let square: Real64 = apply(times, z, z);
    let width: Real64 = apply(plus, one, apply(over, square, n));
    let shift: Real64 = apply(over, square, apply(times, at_bits(D2), n));
    let center: Real64 = apply(over, apply(plus, p, shift), width);
    let spread: Real64 = apply(over, apply(times, p, apply(plus, one, p.negate())), n);
    let four: Real64 = apply(times, apply(times, at_bits(D4), n), n);
    let variance: Real64 = apply(plus, spread, apply(over, square, four));
    let margin: Real64 = apply(times, apply(over, z, width), map_number(root, variance));
    clamp_to(apply(plus, center, margin.negate()), at_bits(D0), one)
}

/// The lower bound by the variance of the scores themselves, draws counted as halves.
pub open spec fn draw_aware_bound<
    P: Fn(Real64, Real64) -> Real64,
    M: Fn(Real64, Real64) -> Real64,
    Q: Fn(Real64, Real64) -> Real64,
    C: Fn(usize) -> Real64,
    R: Fn(Real64) -> Real64,
>(
    plus: P,
    times: M,
    over: Q,
    count: C,
    root: R,
    record: CandidateRecord,
    z: Real64,
) -> Real64 {
    let games = (record.wins + record.draws + record.losses) as u32;
    if games == 0 {
        num(D0)
    } else {
        let n = number_of(count, games as usize);
        let mean = mean_of(plus, times, over, count, record);
        let squares = outcome(
            over,
            outcome(
                plus,
                number_of(count, record.wins as usize),
                outcome(times, num(D0_25), number_of(count, record.draws as usize)),
            ),
            n,
        );
        let variance = larger(
            outcome(plus, squares, outcome(times, mean, mean).negated()),
            num(D0),
        );
        let error = image(root, outcome(over, variance, n));
        clamped_to(
            outcome(plus, mean, outcome(times, z, error).negated()),
            num(D0),
            num(D1),
        )
    }
}

/// Works out the draw-aware bound. `root` is the square root.
pub fn draw_aware_lower_bound<
    P: Fn(Real64, Real64) -> Real64,
    M: Fn(Real64, Real64) -> Real64,
    Q: Fn(Real64, Real64) -> Real64,
    C: Fn(usize) -> Real64,
    R: Fn(Real64) -> Real64,
>(
    record: &CandidateRecord,
    z: Real64,
    plus: &P,
    times: &M,
    over: &Q,
    count: &C,
    root: &R,
) -> (r: Real64)
    requires
        record.wins + record.draws + record.losses <= u32::MAX,
        is_operation(*plus),
        is_operation(*times),
        is_operation(*over),
        is_conversion(*count),
        is_function(*root),
    ensures
        r == draw_aware_bound(*plus, *times, *over, *count, *root, *record, z),
{
    let games: u32 = record.games();
    if games == 0 {
        return at_bits(D0);
    }
    let n: Real64 = to_number(count, games as usize);
    let mean: Real64 = record.mean_score(plus, times, over, count);
    let wins: Real64 = to_number(count, record.wins as usize);
    let draws: Real64 = to_number(count, record.draws as usize);
    let squares: Real64 = apply(
        over,
        apply(plus, wins, apply(times, at_bits(D0_25), draws)),
        n,
    );
    let variance: Real64 = larger_of(
        apply(plus, squares, apply(times, mean, mean).negate()),
        at_bits(D0),
    );
    let error: Real64 = map_number(root, apply(over, variance, n));
    clamp_to(
        apply(plus, mean, apply(times, z, error).negate()),
        at_bits(D0),
        at_bits(D1),
    )
}

/// A bound that is a number lies between 0 and 1, and is 0 without games.
pub proof fn bounds_are_shares<
    P: Fn(Real64, Real64) -> Real64,
    M: Fn(Real64, Real64) -> Real64,
    Q: Fn(Real64, Real64) -> Real64,
    C: Fn(usize) -> Real64,
    R: Fn(Real64) -> Real64,
>(
    plus: P,
    times: M,
    over: Q,
    count: C,
    root: R,
    p_hat: Real64,
    games: u32,
    record: CandidateRecord,
    z: Real64,
)
    requires
        record.wins + record.draws + record.losses <= u32::MAX,
    ensures
        ({
            let wilson = wilson_bound(plus, times, over, count, root, p_hat, games, z);
            let aware = draw_aware_bound(plus, times, over, count, root, record, z);
            &&& !wilson.nan() ==> 0 <= wilson.key() <= num(D1).key()
            &&& !aware.nan() ==> 0 <= aware.key() <= num(D1).key()
            &&& games == 0 ==> wilson == num(D0)
            &&& record.wins + record.draws + record.losses == 0 ==> aware == num(D0)
        }),
{
}

/// The Wilson bound is the lower end of the interval of means that a mean of `p` over the games
/// is `z` standard errors away from, kept between 0 and 1.
pub proof fn the_wilson_bound_ends_the_interval<
    P: Fn(Real64, Real64) -> Real64,
    M: Fn(Real64, Real64) -> Real64,
    Q: Fn(Real64, Real64) -> Real64,
    C: Fn(usize) -> Real64,
    R: Fn(Real64) -> Real64,
>(
    means: spec_fn(Real64, real) -> bool,
    plus: P,
    times: M,
    over: Q,
    count: C,
    root: R,
    p_hat: Real64,
    games: u32,
    z: Real64,
    p: real,
    sureness: real,
    b: real,
)
    requires
        is_faithful(means, plus, times),
        reads_quotients(means, over),
        reads_counts(means, count),
        reads_roots(means, root),
        games > 0,
        !p_hat.nan(),
        0 <= p_hat.key() <= num(D1).key(),
        means(p_hat, p),
        0real <= p <= 1real,
        means(z, sureness),
        sureness > 0real,
        is_wilson_end(p, games as int as real, sureness, b),
    ensures
        exists|raw: Real64| #[trigger]
            means(raw, b) && wilson_bound(plus, times, over, count, root, p_hat, games, z)
                == clamped_to(raw, num(D0), num(D1)),
{
    decimals_are_read(means);
    let n = games as int as real;
    let s = wilson_ends_have_a_form(p, n, sureness, b);
    let count_n = number_of(count, games as usize);
    let square = outcome(times, z, z);
    let zz = sureness * sureness;
    let w = 1real + zz / n;
    pos_times(sureness, sureness);
    pos_times(n, n);
    quotient(zz, n);
    let q = zz / n;
    assert(q > 0real) by (nonlinear_arith)
        requires
            q * n == zz,
            zz > 0real,
            n >= 1real,
    ;
    assert(4real * n * n == 4real * (n * n)) by (nonlinear_arith);
    assert(means(count_n, n));
    assert(clamped_to(p_hat, num(D0), num(D1)) == p_hat);
    let width = outcome(plus, num(D1), outcome(over, square, count_n));
    assert(means(width, w));
    let center = outcome(
        over,
        outcome(plus, p_hat, outcome(over, square, outcome(times, num(D2), count_n))),
        width,
    );
    assert(means(center, (p + zz / (2real * n)) / w));
    let spread = outcome(
        over,
        outcome(times, p_hat, outcome(plus, num(D1), p_hat.negated())),
        count_n,
    );
    assert(1real + -p == 1real - p);
    assert(means(spread, p * (1real - p) / n));
    let variance = outcome(
        plus,
        spread,
        outcome(over, square, outcome(times, outcome(times, num(D4), count_n), count_n)),
    );
    assert(means(variance, p * (1real - p) / n + zz / (4real * n * n)));
    assert(means(image(root, variance), s));
    let margin = outcome(times, outcome(over, z, width), image(root, variance));
    assert(means(margin, (sureness / w) * s));
    let raw = outcome(plus, center, margin.negated());
    let x = (p + zz / (2real * n)) / w;
    let y = (sureness / w) * s;
    assert(means(raw, x + -y));
    assert(x + -y == b);
}

/// The draw-aware bound lies `z` standard errors below the mean score, where the variance is what
/// the games lie off the mean on average, squared: wins at one, draws at a half, losses at zero.
pub proof fn the_draw_aware_bound_goes_by_the_spread<
    P: Fn(Real64, Real64) -> Real64,
    M: Fn(Real64, Real64) -> Real64,
    Q: Fn(Real64, Real64) -> Real64,
    C: Fn(usize) -> Real64,
    R: Fn(Real64) -> Real64,
>(
    means: spec_fn(Real64, real) -> bool,
    plus: P,
    times: M,
    over: Q,
    count: C,
    root: R,
    record: CandidateRecord,
    z: Real64,
    sureness: real,
    mean: real,
    error: real,
) -> (raw: (Real64, Real64))
    requires
        is_faithful(means, plus, times),
        reads_quotients(means, over),
        reads_counts(means, count),
        reads_roots(means, root),
        record.wins + record.draws + record.losses <= u32::MAX,
        means(z, sureness),
        ({
            let w = record.wins as int as real;
            let d = record.draws as int as real;
            let l = record.losses as int as real;
            let n = w + d + l;
            &&& n > 0real
            &&& mean * n == w + d / 2real
            &&& error >= 0real
            &&& error * error * n * n == w * ((1real - mean) * (1real - mean)) + d * ((1real / 2real
                - mean) * (1real / 2real - mean)) + l * (mean * mean)
        }),
    ensures
        means(raw.0, error * error * ((record.wins + record.draws + record.losses) as real)),
        !raw.0.nan() && raw.0.key() >= 0 ==> {
            &&& means(raw.1, mean - sureness * error)
            &&& draw_aware_bound(plus, times, over, count, root, record, z) == clamped_to(
                raw.1,
                num(D0),
                num(D1),
            )
        },
{
    decimals_are_read(means);
    let w = record.wins as int as real;
    let d = record.draws as int as real;
    let l = record.losses as int as real;
    let n = w + d + l;
    let games = (record.wins + record.draws + record.losses) as u32;
    let count_n = number_of(count, games as usize);
    assert(means(count_n, n));
    let m = mean_of(plus, times, over, count, record);
    let points = w + (1real / 2real) * d;
    quotient(points, n);
    cancel(points / n, mean, n);
    assert(means(m, mean));
    let squares = outcome(
        over,
        outcome(
            plus,
            number_of(count, record.wins as usize),
            outcome(times, num(D0_25), number_of(count, record.draws as usize)),
        ),
        count_n,
    );
    let sq = w + (1real / 4real) * d;
    quotient(sq, n);
    assert(means(squares, sq / n));
    let spread = outcome(plus, squares, outcome(times, m, m).negated());
    let mm = mean * mean;
    assert(means(spread, sq / n + -mm));
    let v = sq / n - mm;
    // n v = w + d/4 - n mean^2 = the squared distances from the mean.
    let e = error * error;
    assert(v * n == sq - mm * n) by (nonlinear_arith)
        requires
            v == sq / n - mm,
            (sq / n) * n == sq,
    ;
    assert(w * ((1real - mean) * (1real - mean)) == w - 2real * (mean * w) + mm * w)
        by (nonlinear_arith)
        requires
            mm == mean * mean,
    ;
    assert(d * ((1real / 2real - mean) * (1real / 2real - mean)) == d / 4real - mean * d + mm * d)
        by (nonlinear_arith)
        requires
            mm == mean * mean,
    ;
    assert(l * mm == mm * l) by (nonlinear_arith);
    assert(mm * n == mm * w + mm * d + mm * l) by (nonlinear_arith)
        requires
            n == w + d + l,
    ;
    assert(mean * (mean * n) == mm * n) by (nonlinear_arith)
        requires
            mm == mean * mean,
    ;
    assert(mean * (w + d / 2real) == mean * w + (mean * d) / 2real) by (nonlinear_arith);
    assert(error * error * n * n == (e * n) * n);
    cancel(e * n, v, n);
    let raw = larger(spread, num(D0));
    if !spread.nan() && spread.key() >= 0 {
        assert(raw == spread);
        let deviation = image(root, outcome(over, spread, count_n));
        quotient(v, n);
        cancel(v / n, e, n);
        assert(is_root(e, error));
        assert(means(outcome(over, spread, count_n), e));
        assert(means(deviation, error));
        let bound = outcome(plus, m, outcome(times, z, deviation).negated());
        assert(means(bound, mean + -(sureness * error)));
        (spread, bound)
    } else {
        (spread, spread)
    }
}

} // verus!
