//! Many simulated matches taken together, and how two samples differ.
use crate::decimals::{D1, D1EM30};
use crate::meaning::{
    decimals_are_read, is_faithful, is_root, most, reads_counts, reads_decimals, reads_order,
    reads_quotients, reads_roots, reads_signs, reads_sums, real_sum, sums_mean_sums,
};
use crate::number::{
    add_up, apply, at_bits, image, is_conversion, is_function, is_operation, is_signed_conversion,
    larger, larger_of, map_number, num, number_of, outcome, signed_number, square_off, squares_from,
    sum_up, to_number, to_signed_number, Real64,
};
use crate::rotation::belief::has_line_ups;
use crate::rotation::decode::same_lists;
use crate::rotation::mdp::{copy_bench, copy_seats};
use crate::rotation::problem::{Schedule, SoccerProblem};
use crate::rotation::rules::{
    affinity_sums, evaluable, evaluate_schedule, evaluates, period_sums, ScheduleEvaluation,
};
use crate::rotation::simulate::{is_simulated, simulate_match_des, MatchResult, MatchSimOptions};
use vstd::prelude::*;

verus! {

/// The mean of a sample.
pub open spec fn sample_mean<
    P: Fn(Real64, Real64) -> Real64,
    Q: Fn(Real64, Real64) -> Real64,
    C: Fn(usize) -> Real64,
>(plus: P, over: Q, count: C, s: Seq<Real64>) -> Real64 {
    outcome(over, sum_up(plus, s, s.len() as int), number_of(count, s.len() as usize))
}

/// The variance of a sample, by one less than its size.
pub open spec fn sample_variance<
    P: Fn(Real64, Real64) -> Real64,
    M: Fn(Real64, Real64) -> Real64,
    Q: Fn(Real64, Real64) -> Real64,
    C: Fn(usize) -> Real64,
>(plus: P, times: M, over: Q, count: C, s: Seq<Real64>) -> Real64 {
    let squares = squares_from(plus, times, s, sample_mean(plus, over, count, s));
    outcome(
        over,
        sum_up(plus, squares, s.len() as int),
        larger(
            num(D1),
            outcome(plus, number_of(count, s.len() as usize), num(D1).negated()),
        ),
    )
}

/// Works out the mean and the variance of a sample.
fn measure_sample<
    P: Fn(Real64, Real64) -> Real64,
    M: Fn(Real64, Real64) -> Real64,
    Q: Fn(Real64, Real64) -> Real64,
    C: Fn(usize) -> Real64,
>(s: &Vec<Real64>, plus: &P, times: &M, over: &Q, count: &C) -> (r: (Real64, Real64))
    requires
        is_operation(*plus),
        is_operation(*times),
        is_operation(*over),
        is_conversion(*count),
    ensures
        r.0 == sample_mean(*plus, *over, *count, s@),
        r.1 == sample_variance(*plus, *times, *over, *count, s@),
{
    let size: Real64 = to_number(count, s.len());
    let mean: Real64 = apply(over, add_up(s, plus), size);
    let squares: Vec<Real64> = square_off(s, mean, plus, times);
    let one: Real64 = at_bits(D1);
    let less: Real64 = apply(plus, size, one.negate());
    (mean, apply(over, add_up(&squares, plus), larger_of(one, less)))
}

/// The difference of two means by its standard error.
pub open spec fn welch_statistic<
    P: Fn(Real64, Real64) -> Real64,
    M: Fn(Real64, Real64) -> Real64,
    Q: Fn(Real64, Real64) -> Real64,
    C: Fn(usize) -> Real64,
    R: Fn(Real64) -> Real64,
>(plus: P, times: M, over: Q, count: C, root: R, a: Seq<Real64>, b: Seq<Real64>) -> Real64 {
    outcome(
        over,
        outcome(
            plus,
            sample_mean(plus, over, count, a),
            sample_mean(plus, over, count, b).negated(),
        ),
        image(
            root,
            outcome(
                plus,
                outcome(
                    plus,
                    outcome(
                        over,
                        sample_variance(plus, times, over, count, a),
                        number_of(count, a.len() as usize),
                    ),
                    outcome(
                        over,
                        sample_variance(plus, times, over, count, b),
                        number_of(count, b.len() as usize),
                    ),
                ),
                num(D1EM30),
            ),
        ),
    )
}

/// Welch's statistic for the difference of two means. `root` is the square root.
pub fn welch_t<
    P: Fn(Real64, Real64) -> Real64,
    M: Fn(Real64, Real64) -> Real64,
    Q: Fn(Real64, Real64) -> Real64,
    C: Fn(usize) -> Real64,
    R: Fn(Real64) -> Real64,
>(
    a: &Vec<Real64>,
    b: &Vec<Real64>,
    plus: &P,
    times: &M,
    over: &Q,
    count: &C,
    root: &R,
) -> (r: Real64)
    requires
        is_operation(*plus),
        is_operation(*times),
        is_operation(*over),
        is_conversion(*count),
        is_function(*root),
    ensures
        r == welch_statistic(*plus, *times, *over, *count, *root, a@, b@),
{
    let (mean_a, variance_a): (Real64, Real64) = measure_sample(a, plus, times, over, count);
    let (mean_b, variance_b): (Real64, Real64) = measure_sample(b, plus, times, over, count);
    let part_a: Real64 = apply(over, variance_a, to_number(count, a.len()));
    let part_b: Real64 = apply(over, variance_b, to_number(count, b.len()));
    let error: Real64 = apply(plus, apply(plus, part_a, part_b), at_bits(D1EM30));
    apply(over, apply(plus, mean_a, mean_b.negate()), map_number(root, error))
}

/// Many matches taken together.
#[derive(Debug)]
pub struct MatchAggregate {
    pub policy_name: String,
    pub schedule: Schedule,
    pub affinity_sum_deterministic: Real64,
    pub fairness_ok: bool,
    pub mean_goals_for: Real64,
    pub mean_goals_against: Real64,
    pub mean_goal_diff: Real64,
    pub sd_goal_diff: Real64,
    pub raw_goal_diffs: Vec<Real64>,
    pub bench_counts: Vec<usize>,
}

/// The goal differences of matches.
pub open spec fn differences<W: Fn(i64) -> Real64>(signed: W, results: Seq<MatchResult>) -> Seq<
    Real64,
> {
    results.map_values(|m: MatchResult| signed_number(signed, m.record.goal_differential))
}

/// The goals scored per match, match by match as a part of all matches.
pub open spec fn scored<Q: Fn(Real64, Real64) -> Real64, W: Fn(i64) -> Real64>(
    over: Q,
    signed: W,
    all: Real64,
    results: Seq<MatchResult>,
) -> Seq<Real64> {
    results.map_values(
        |m: MatchResult| outcome(over, signed_number(signed, m.record.goals_for), all),
    )
}

/// The goals conceded per match, match by match as a part of all matches.
pub open spec fn conceded<Q: Fn(Real64, Real64) -> Real64, W: Fn(i64) -> Real64>(
    over: Q,
    signed: W,
    all: Real64,
    results: Seq<MatchResult>,
) -> Seq<Real64> {
    results.map_values(
        |m: MatchResult| outcome(over, signed_number(signed, m.record.goals_against), all),
    )
}

/// The results are those of one match after the other, each simulated from its own draws.
pub open spec fn are_simulated<
    P: Fn(Real64, Real64) -> Real64,
    M: Fn(Real64, Real64) -> Real64,
    Q: Fn(Real64, Real64) -> Real64,
    C: Fn(usize) -> Real64,
>(
    plus: P,
    times: M,
    over: Q,
    count: C,
    problem: SoccerProblem,
    schedule: Schedule,
    opts: MatchSimOptions,
    draws: Seq<Vec<(Real64, Real64)>>,
    results: Seq<MatchResult>,
) -> bool {
    &&& results.len() == draws.len()
    &&& forall|n: int|
        0 <= n < results.len() ==> is_simulated(
            plus,
            times,
            over,
            count,
            problem,
            schedule,
            opts,
            draws[n]@,
            #[trigger] results[n],
        )
}

/// The aggregate tells what the matches come to.
pub open spec fn aggregates<
    P: Fn(Real64, Real64) -> Real64,
    M: Fn(Real64, Real64) -> Real64,
    Q: Fn(Real64, Real64) -> Real64,
    C: Fn(usize) -> Real64,
    R: Fn(Real64) -> Real64,
    W: Fn(i64) -> Real64,
>(
    plus: P,
    times: M,
    over: Q,
    count: C,
    root: R,
    signed: W,
    results: Seq<MatchResult>,
    r: MatchAggregate,
) -> bool {
    let all = number_of(count, results.len() as usize);
    let n = results.len() as int;
    &&& r.raw_goal_diffs@ == differences(signed, results)
    &&& r.mean_goals_for == sum_up(plus, scored(over, signed, all, results), n)
    &&& r.mean_goals_against == sum_up(plus, conceded(over, signed, all, results), n)
    &&& r.mean_goal_diff == sample_mean(plus, over, count, r.raw_goal_diffs@)
    &&& r.sd_goal_diff == image(
        root,
        sample_variance(plus, times, over, count, r.raw_goal_diffs@),
    )
}

fn copy_schedule(schedule: &Schedule) -> (r: Schedule)
    ensures
        same_lists(r, *schedule),
{
    let mut assignment: Vec<Vec<i64>> = Vec::new();
    let mut t: usize = 0;
    while t < schedule.assignment.len()
        invariant
            t <= schedule.assignment@.len(),
            assignment@.len() == t,
            forall|u: int|
                0 <= u < t ==> (#[trigger] assignment@[u])@ == schedule.assignment@[u]@,
        decreases schedule.assignment@.len() - t,
    {
        assignment.push(copy_seats(&schedule.assignment[t]));
        t += 1;
    }
    let mut bench: Vec<Vec<usize>> = Vec::new();
    let mut u: usize = 0;
    while u < schedule.bench.len()
        invariant
            u <= schedule.bench@.len(),
            bench@.len() == u,
            forall|v: int| 0 <= v < u ==> (#[trigger] bench@[v])@ == schedule.bench@[v]@,
        decreases schedule.bench@.len() - u,
    {
        bench.push(copy_bench(&schedule.bench[u]));
        u += 1;
    }
    Schedule { assignment, bench }
}

/// Simulates one match for every list of draws and takes them together.
pub fn run_many_matches<
    P: Fn(Real64, Real64) -> Real64,
    M: Fn(Real64, Real64) -> Real64,
    Q: Fn(Real64, Real64) -> Real64,
    C: Fn(usize) -> Real64,
    R: Fn(Real64) -> Real64,
    W: Fn(i64) -> Real64,
>(
    problem: &SoccerProblem,
    schedule: &Schedule,
    policy_name: String,
    match_opts: &MatchSimOptions,
    draws: &Vec<Vec<(Real64, Real64)>>,
    plus: &P,
    times: &M,
    over: &Q,
    count: &C,
    root: &R,
    signed: &W,
) -> (r: MatchAggregate)
    requires
        evaluable(*problem, *schedule),
        has_line_ups(*problem, *schedule),
        match_opts.period_length() * problem.num_periods <= i64::MAX,
        forall|n: int|
            0 <= n < draws@.len() ==> (#[trigger] draws@[n])@.len() == match_opts.period_length()
                * problem.num_periods,
        is_operation(*plus),
        is_operation(*times),
        is_operation(*over),
        is_conversion(*count),
        is_function(*root),
        is_signed_conversion(*signed),
    ensures
        r.policy_name == policy_name,
        same_lists(r.schedule, *schedule),
        exists|e: ScheduleEvaluation| #[trigger]
            evaluates(*problem, *schedule, e) && r.fairness_ok == e.fairness_ok && r.bench_counts@
                == e.bench_counts@ && r.affinity_sum_deterministic == sum_up(
                *plus,
                period_sums(*plus, e.cell_scores@),
                e.cell_scores@.len() as int,
            ),
        exists|results: Seq<MatchResult>| #[trigger]
            are_simulated(
                *plus,
                *times,
                *over,
                *count,
                *problem,
                *schedule,
                *match_opts,
                draws@,
                results,
            ) && aggregates(*plus, *times, *over, *count, *root, *signed, results, r),
{
    let evaluation: ScheduleEvaluation = evaluate_schedule(problem, schedule);
    let (_, affinity): (Vec<Real64>, Real64) = affinity_sums(&evaluation, plus);
    let all: Real64 = to_number(count, draws.len());
    let ghost mut results: Seq<MatchResult> = Seq::empty();
    let mut diffs: Vec<Real64> = Vec::new();
    let mut made: Vec<Real64> = Vec::new();
    let mut lost: Vec<Real64> = Vec::new();
    let mut n: usize = 0;
    while n < draws.len()
        invariant
            n <= draws@.len(),
            evaluable(*problem, *schedule),
            has_line_ups(*problem, *schedule),
            match_opts.period_length() * problem.num_periods <= i64::MAX,
            forall|k: int|
                0 <= k < draws@.len() ==> (#[trigger] draws@[k])@.len()
                    == match_opts.period_length() * problem.num_periods,
            is_operation(*plus),
            is_operation(*times),
            is_operation(*over),
            is_conversion(*count),
            is_signed_conversion(*signed),
            results.len() == n,
            forall|k: int|
                0 <= k < n ==> is_simulated(
                    *plus,
                    *times,
                    *over,
                    *count,
                    *problem,
                    *schedule,
                    *match_opts,
                    draws@[k]@,
                    #[trigger] results[k],
                ),
            diffs@ == differences(*signed, results),
            made@ == scored(*over, *signed, all, results),
            lost@ == conceded(*over, *signed, all, results),
        decreases draws@.len() - n,
    {
        let m: MatchResult = simulate_match_des(
            problem,
            schedule,
            match_opts,
            &draws[n],
            plus,
            times,
            over,
            count,
        );
        diffs.push(to_signed_number(signed, m.record.goal_differential));
        made.push(apply(over, to_signed_number(signed, m.record.goals_for), all));
        lost.push(apply(over, to_signed_number(signed, m.record.goals_against), all));
        proof {
            results = results.push(m);
        }
        n += 1;
        assert(diffs@ =~= differences(*signed, results));
        assert(made@ =~= scored(*over, *signed, all, results));
        assert(lost@ =~= conceded(*over, *signed, all, results));
    }
    let (mean, variance): (Real64, Real64) = measure_sample(&diffs, plus, times, over, count);
    let r: MatchAggregate = MatchAggregate {
        policy_name,
        schedule: copy_schedule(schedule),
        affinity_sum_deterministic: affinity,
        fairness_ok: evaluation.fairness_ok,
        mean_goals_for: add_up(&made, plus),
        mean_goals_against: add_up(&lost, plus),
        mean_goal_diff: mean,
        sd_goal_diff: map_number(root, variance),
        raw_goal_diffs: diffs,
        bench_counts: evaluation.bench_counts,
    };
    assert(are_simulated(
        *plus,
        *times,
        *over,
        *count,
        *problem,
        *schedule,
        *match_opts,
        draws@,
        results,
    ));
    r
}

/// The mean of a sample.
pub proof fn sample_means_are_means<
    P: Fn(Real64, Real64) -> Real64,
    Q: Fn(Real64, Real64) -> Real64,
    C: Fn(usize) -> Real64,
>(
    means: spec_fn(Real64, real) -> bool,
    plus: P,
    over: Q,
    count: C,
    s: Seq<Real64>,
    x: Seq<real>,
)
    requires
        reads_sums(means, plus),
        reads_signs(means),
        reads_order(means),
        reads_decimals(means),
        reads_quotients(means, over),
        reads_counts(means, count),
        0 < s.len() <= usize::MAX,
        s.len() == x.len(),
        forall|i: int| 0 <= i < s.len() ==> means(#[trigger] s[i], x[i]),
    ensures
        means(sample_mean(plus, over, count, s), real_sum(x, x.len() as int) / (s.len() as real)),
{
    decimals_are_read(means);
    sums_mean_sums(means, plus, s, x, s.len() as int);
}

/// The variance of a sample: the squares of what its members are off the mean, over one less than
/// they are many.
pub proof fn sample_variances_are_mean_squares<
    P: Fn(Real64, Real64) -> Real64,
    M: Fn(Real64, Real64) -> Real64,
    Q: Fn(Real64, Real64) -> Real64,
    C: Fn(usize) -> Real64,
>(
    means: spec_fn(Real64, real) -> bool,
    plus: P,
    times: M,
    over: Q,
    count: C,
    s: Seq<Real64>,
    x: Seq<real>,
)
    requires
        is_faithful(means, plus, times),
        reads_quotients(means, over),
        reads_counts(means, count),
        1 < s.len() <= usize::MAX,
        s.len() == x.len(),
        forall|i: int| 0 <= i < s.len() ==> means(#[trigger] s[i], x[i]),
    ensures
        ({
            let n = s.len() as real;
            let m = real_sum(x, x.len() as int) / n;
            let off = x.map_values(|v: real| (v - m) * (v - m));
            means(
                sample_variance(plus, times, over, count, s),
                real_sum(off, off.len() as int) / (n - 1real),
            )
        }),
{
    decimals_are_read(means);
    sample_means_are_means(means, plus, over, count, s, x);
    let n = s.len() as real;
    let m = real_sum(x, x.len() as int) / n;
    let mean = sample_mean(plus, over, count, s);
    let off = x.map_values(|v: real| (v - m) * (v - m));
    let squares = squares_from(plus, times, s, mean);
    assert forall|i: int| 0 <= i < squares.len() implies means(#[trigger] squares[i], off[i]) by {
        assert(means(s[i], x[i]));
        assert(x[i] + -m == x[i] - m);
    }
    sums_mean_sums(means, plus, squares, off, squares.len() as int);
    assert(n + -1real == n - 1real);
    let less = outcome(plus, number_of(count, s.len() as usize), num(D1).negated());
    assert(means(less, n - 1real));
    assert(most(1real, n - 1real) == n - 1real);
    assert(means(larger(num(D1), less), most(1real, n - 1real)));
}

/// Welch's statistic: what the means differ by over the error of the difference, whose square is
/// what the variances come to for every member, and a trifle.
pub proof fn welch_compares_means_by_their_errors<
    P: Fn(Real64, Real64) -> Real64,
    M: Fn(Real64, Real64) -> Real64,
    Q: Fn(Real64, Real64) -> Real64,
    C: Fn(usize) -> Real64,
    R: Fn(Real64) -> Real64,
>(
    means: spec_fn(Real64, real) -> bool,
    plus: P,
    times: M,
    over: Q,
    count: C,
    root: R,
    a: Seq<Real64>,
    b: Seq<Real64>,
    ma: real,
    mb: real,
    va: real,
    vb: real,
    error: real,
)
    requires
        is_faithful(means, plus, times),
        reads_quotients(means, over),
        reads_counts(means, count),
        reads_roots(means, root),
        0 < a.len() <= usize::MAX,
        0 < b.len() <= usize::MAX,
        means(sample_mean(plus, over, count, a), ma),
        means(sample_mean(plus, over, count, b), mb),
        means(sample_variance(plus, times, over, count, a), va),
        means(sample_variance(plus, times, over, count, b), vb),
        is_root(
            va / (a.len() as real) + vb / (b.len() as real)
                + 1real / 1000000000000000000000000000000real,
            error,
        ),
        error != 0real,
    ensures
        means(welch_statistic(plus, times, over, count, root, a, b), (ma - mb) / error),
{
    decimals_are_read(means);
    assert(ma + -mb == ma - mb);
}

} // verus!
