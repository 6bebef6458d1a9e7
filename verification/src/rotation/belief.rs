//! How fresh the players are believed to be while a schedule is played.
//!
//! Tiredness is hidden: a belief falls with every period on the field and recovers on the bench.
use crate::decimals::{D0, D0_22, D0_35, D0_55, D0_65, D0_82, D1, D1EM12};
use crate::meaning::{
    decimals_are_read, is_faithful, least, most, reads_counts, reads_decimals, reads_function,
    reads_order, reads_quotients, reads_signs, reads_sums, real_sum, sums_mean_sums,
};
use crate::number::{
    add_up, apply, at_bits, image, is_conversion, is_function, is_operation, larger, larger_of,
    map_number, num, number_of, outcome, smaller, smaller_of, sum_up, to_number, Real64,
};
use crate::rotation::problem::{Schedule, SoccerProblem};
use vstd::prelude::*;

verus! {

/// The greatest belief whose doubt is reckoned as it stands, just below one, by its bit pattern.
pub const NEARLY_ONE_BITS: u64 = 0x3FEF_FFFF_FFFF_DCD1;

/// The doubt in a belief.
pub open spec fn binary_entropy_of<
    P: Fn(Real64, Real64) -> Real64,
    M: Fn(Real64, Real64) -> Real64,
    E: Fn(Real64) -> Real64,
>(plus: P, times: M, log: E, p: Real64) -> Real64 {
    let q = larger(num(D1EM12), smaller(num(NEARLY_ONE_BITS), p));
    let rest = outcome(plus, num(D1), q.negated());
    outcome(
        plus,
        outcome(times, q, image(log, q)),
        outcome(times, rest, image(log, rest)),
    ).negated()
}

/// Works out the doubt in a belief. `log` is the logarithm to base two.
pub fn binary_entropy<
    P: Fn(Real64, Real64) -> Real64,
    M: Fn(Real64, Real64) -> Real64,
    E: Fn(Real64) -> Real64,
>(p: Real64, plus: &P, times: &M, log: &E) -> (r: Real64)
    requires
        is_operation(*plus),
        is_operation(*times),
        is_function(*log),
    ensures
        r == binary_entropy_of(*plus, *times, *log, p),
{
    let q: Real64 = larger_of(at_bits(D1EM12), smaller_of(at_bits(NEARLY_ONE_BITS), p));
    let rest: Real64 = apply(plus, at_bits(D1), q.negate());
    let yes: Real64 = apply(times, q, map_number(log, q));
    let no: Real64 = apply(times, rest, map_number(log, rest));
    apply(plus, yes, no).negate()
}

/// What a caller knows of the players' freshness.
#[derive(Clone, Copy, Debug, PartialEq, Eq, Structural)]
pub struct SoccerPOMDPFeatureOptions {
    pub initial_fresh_probability: Option<Real64>,
    pub fatigue_rate: Option<Real64>,
    pub recovery_rate: Option<Real64>,
}

impl Default for SoccerPOMDPFeatureOptions {
    fn default() -> (r: Self)
        ensures
            r.initial_fresh_probability is None,
            r.fatigue_rate is None,
            r.recovery_rate is None,
    {
        SoccerPOMDPFeatureOptions {
            initial_fresh_probability: None,
            fatigue_rate: None,
            recovery_rate: None,
        }
    }
}

/// What is believed of one period.
#[derive(Clone, Copy, Debug, PartialEq, Eq, Structural)]
pub struct SoccerPOMDPPeriodFeature {
    pub period: usize,
    pub expected_fresh_on_field: Real64,
    pub expected_fresh_bench: Real64,
    pub expected_lineup_reliability: Real64,
    pub mean_belief_entropy: Real64,
}

/// What is believed of a whole schedule.
#[derive(Debug)]
pub struct SoccerPOMDPFeatureSummary {
    pub model: &'static str,
    pub per_period: Vec<SoccerPOMDPPeriodFeature>,
    pub final_fresh_probability: Vec<Real64>,
    pub mean_expected_fresh_on_field: Real64,
    pub mean_expected_lineup_reliability: Real64,
}

/// The value where it is given, else the default.
pub open spec fn or_bits(value: Option<Real64>, bits: u64) -> Real64 {
    match value {
        Some(v) => v,
        None => num(bits),
    }
}

pub(crate) fn value_or(value: Option<Real64>, bits: u64) -> (r: Real64)
    ensures
        r == or_bits(value, bits),
{
    match value {
        Some(v) => v,
        None => at_bits(bits),
    }
}

/// The player stands in the row.
pub open spec fn stands_in(row: Seq<i64>, p: int) -> bool {
    exists|i: int| 0 <= i < row.len() && #[trigger] row[i] == p
}

fn find_in(row: &Vec<i64>, p: usize) -> (r: bool)
    ensures
        r == stands_in(row@, p as int),
{
    let mut i: usize = 0;
    while i < row.len()
        invariant
            i <= row@.len(),
            forall|j: int| 0 <= j < i ==> #[trigger] row@[j] != p,
        decreases row@.len() - i,
    {
        if row[i] >= 0 && row[i] as u64 == p as u64 {
            assert(row@[i as int] == p);
            return true;
        }
        i += 1;
    }
    false
}

/// A belief after a period on the field: it falls by the rate, never below zero.
pub open spec fn tired<P: Fn(Real64, Real64) -> Real64, M: Fn(Real64, Real64) -> Real64>(
    plus: P,
    times: M,
    belief: Real64,
    rate: Real64,
) -> Real64 {
    larger(num(D0), outcome(times, belief, outcome(plus, num(D1), rate.negated())))
}

/// A belief after a period off the field: what is missing shrinks by the rate, never above one.
pub open spec fn rested<P: Fn(Real64, Real64) -> Real64, M: Fn(Real64, Real64) -> Real64>(
    plus: P,
    times: M,
    belief: Real64,
    rate: Real64,
) -> Real64 {
    smaller(
        num(D1),
        outcome(
            plus,
            belief,
            outcome(times, outcome(plus, num(D1), belief.negated()), rate),
        ),
    )
}

/// How fresh a player is believed to be before period `t`.
pub open spec fn belief_in<P: Fn(Real64, Real64) -> Real64, M: Fn(Real64, Real64) -> Real64>(
    plus: P,
    times: M,
    opts: SoccerPOMDPFeatureOptions,
    assignment: Seq<Vec<i64>>,
    p: int,
    t: int,
) -> Real64
    decreases t,
{
    if t <= 0 {
        or_bits(opts.initial_fresh_probability, D0_82)
    } else {
        let before = belief_in(plus, times, opts, assignment, p, t - 1);
        if stands_in(assignment[t - 1]@, p) {
            tired(plus, times, before, or_bits(opts.fatigue_rate, D0_22))
        } else {
            rested(plus, times, before, or_bits(opts.recovery_rate, D0_55))
        }
    }
}

/// Every player's belief before period `t`.
pub open spec fn beliefs<P: Fn(Real64, Real64) -> Real64, M: Fn(Real64, Real64) -> Real64>(
    plus: P,
    times: M,
    opts: SoccerPOMDPFeatureOptions,
    problem: SoccerProblem,
    assignment: Seq<Vec<i64>>,
    t: int,
) -> Seq<Real64> {
    Seq::new(
        problem.num_players as nat,
        |p: int| belief_in(plus, times, opts, assignment, p, t),
    )
}

/// The mean of numbers; of none it is their empty sum.
pub open spec fn mean_at_least_one<
    P: Fn(Real64, Real64) -> Real64,
    Q: Fn(Real64, Real64) -> Real64,
    C: Fn(usize) -> Real64,
>(plus: P, over: Q, count: C, s: Seq<Real64>) -> Real64 {
    outcome(
        over,
        sum_up(plus, s, s.len() as int),
        larger(num(D1), number_of(count, s.len() as usize)),
    )
}

fn mean_of<
    P: Fn(Real64, Real64) -> Real64,
    Q: Fn(Real64, Real64) -> Real64,
    C: Fn(usize) -> Real64,
>(s: &Vec<Real64>, plus: &P, over: &Q, count: &C) -> (r: Real64)
    requires
        is_operation(*plus),
        is_operation(*over),
        is_conversion(*count),
    ensures
        r == mean_at_least_one(*plus, *over, *count, s@),
{
    apply(over, add_up(s, plus), larger_of(at_bits(D1), to_number(count, s.len())))
}

/// The beliefs of the players of a line-up.
pub open spec fn of_line_up(b: Seq<Real64>, row: Seq<i64>) -> Seq<Real64> {
    row.map_values(|p: i64| b[p as int])
}

/// The beliefs of the players of a bench.
pub open spec fn of_bench(b: Seq<Real64>, row: Seq<usize>) -> Seq<Real64> {
    row.map_values(|p: usize| b[p as int])
}

/// What each position contributes: the player's affinity, at least 0.65 of it and all of it when
/// fresh.
pub open spec fn contributions<
    P: Fn(Real64, Real64) -> Real64,
    M: Fn(Real64, Real64) -> Real64,
>(plus: P, times: M, problem: SoccerProblem, b: Seq<Real64>, row: Seq<i64>, t: int) -> Seq<Real64> {
    Seq::new(
        problem.num_positions as nat,
        |pos: int|
            outcome(
                times,
                problem.affinity@[row[pos] as int]@[pos]@[t],
                outcome(plus, num(D0_65), outcome(times, num(D0_35), b[row[pos] as int])),
            ),
    )
}

/// What is believed of a period.
pub open spec fn feature_of<
    P: Fn(Real64, Real64) -> Real64,
    M: Fn(Real64, Real64) -> Real64,
    Q: Fn(Real64, Real64) -> Real64,
    C: Fn(usize) -> Real64,
    E: Fn(Real64) -> Real64,
>(
    plus: P,
    times: M,
    over: Q,
    count: C,
    log: E,
    problem: SoccerProblem,
    schedule: Schedule,
    opts: SoccerPOMDPFeatureOptions,
    t: int,
) -> SoccerPOMDPPeriodFeature {
    let b = beliefs(plus, times, opts, problem, schedule.assignment@, t);
    let row = schedule.assignment@[t]@;
    let parts = contributions(plus, times, problem, b, row, t);
    let doubts = b.map_values(|p: Real64| binary_entropy_of(plus, times, log, p));
    SoccerPOMDPPeriodFeature {
        period: t as usize,
        expected_fresh_on_field: mean_at_least_one(plus, over, count, of_line_up(b, row)),
        expected_fresh_bench: mean_at_least_one(
            plus,
            over,
            count,
            of_bench(b, schedule.bench@[t]@),
        ),
        expected_lineup_reliability: sum_up(plus, parts, parts.len() as int),
        mean_belief_entropy: outcome(
            over,
            sum_up(plus, doubts, doubts.len() as int),
            number_of(count, problem.num_players),
        ),
    }
}

/// Every period has a line-up for the positions and a bench, all of players of the roster.
pub open spec fn has_line_ups(problem: SoccerProblem, schedule: Schedule) -> bool {
    &&& schedule.assignment@.len() >= problem.num_periods
    &&& schedule.bench@.len() >= problem.num_periods
    &&& forall|t: int|
        0 <= t < problem.num_periods ==> (#[trigger] schedule.assignment@[t])@.len()
            >= problem.num_positions
    &&& forall|t: int, i: int|
        0 <= t < problem.num_periods && 0 <= i < schedule.assignment@[t]@.len() ==> 0
            <= #[trigger] schedule.assignment@[t]@[i] < problem.num_players
    &&& forall|t: int, i: int|
        0 <= t < problem.num_periods && 0 <= i < schedule.bench@[t]@.len()
            ==> #[trigger] schedule.bench@[t]@[i] < problem.num_players
}

fn read_period<
    P: Fn(Real64, Real64) -> Real64,
    M: Fn(Real64, Real64) -> Real64,
    Q: Fn(Real64, Real64) -> Real64,
    C: Fn(usize) -> Real64,
    E: Fn(Real64) -> Real64,
>(
    problem: &SoccerProblem,
    schedule: &Schedule,
    opts: &SoccerPOMDPFeatureOptions,
    t: usize,
    b: &Vec<Real64>,
    plus: &P,
    times: &M,
    over: &Q,
    count: &C,
    log: &E,
) -> (r: SoccerPOMDPPeriodFeature)
    requires
        problem.has_affinities(),
        has_line_ups(*problem, *schedule),
        t < problem.num_periods,
        b@ == beliefs(*plus, *times, *opts, *problem, schedule.assignment@, t as int),
        is_operation(*plus),
        is_operation(*times),
        is_operation(*over),
        is_conversion(*count),
        is_function(*log),
    ensures
        r == feature_of(
            *plus,
            *times,
            *over,
            *count,
            *log,
            *problem,
            *schedule,
            *opts,
            t as int,
        ),
{
    let row: &Vec<i64> = &schedule.assignment[t];
    let mut on_field: Vec<Real64> = Vec::new();
    let mut i: usize = 0;
    while i < row.len()
        invariant
            i <= row@.len(),
            t < problem.num_periods,
            b@.len() == problem.num_players,
            has_line_ups(*problem, *schedule),
            row@ == schedule.assignment@[t as int]@,
            on_field@ == of_line_up(b@, row@).take(i as int),
        decreases row@.len() - i,
    {
        let p: i64 = row[i];
        assert(0 <= schedule.assignment@[t as int]@[i as int] < problem.num_players);
        on_field.push(b[p as usize]);
        i += 1;
        assert(on_field@ =~= of_line_up(b@, row@).take(i as int));
    }
    assert(on_field@ =~= of_line_up(b@, row@));
    let bench: &Vec<usize> = &schedule.bench[t];
    let mut off_field: Vec<Real64> = Vec::new();
    let mut i: usize = 0;
    while i < bench.len()
        invariant
            i <= bench@.len(),
            t < problem.num_periods,
            b@.len() == problem.num_players,
            has_line_ups(*problem, *schedule),
            bench@ == schedule.bench@[t as int]@,
            off_field@ == of_bench(b@, bench@).take(i as int),
        decreases bench@.len() - i,
    {
        assert(schedule.bench@[t as int]@[i as int] < problem.num_players);
        off_field.push(b[bench[i]]);
        i += 1;
        assert(off_field@ =~= of_bench(b@, bench@).take(i as int));
    }
    assert(off_field@ =~= of_bench(b@, bench@));
    let ghost whole = contributions(*plus, *times, *problem, b@, row@, t as int);
    let mut parts: Vec<Real64> = Vec::new();
    let mut pos: usize = 0;
    while pos < problem.num_positions
        invariant
            pos <= problem.num_positions,
            t < problem.num_periods,
            b@.len() == problem.num_players,
            problem.has_affinities(),
            has_line_ups(*problem, *schedule),
            row@ == schedule.assignment@[t as int]@,
            is_operation(*plus),
            is_operation(*times),
            whole == contributions(*plus, *times, *problem, b@, row@, t as int),
            parts@ == whole.take(pos as int),
        decreases problem.num_positions - pos,
    {
        assert(schedule.assignment@[t as int]@.len() >= problem.num_positions);
        assert(0 <= schedule.assignment@[t as int]@[pos as int] < problem.num_players);
        let p: usize = row[pos] as usize;
        let share: Real64 = apply(plus, at_bits(D0_65), apply(times, at_bits(D0_35), b[p]));
        parts.push(apply(times, problem.affinity[p][pos][t], share));
        pos += 1;
        assert(parts@ =~= whole.take(pos as int));
    }
    assert(parts@ =~= whole);
    let ghost all_doubts = b@.map_values(|p: Real64| binary_entropy_of(*plus, *times, *log, p));
    let mut doubts: Vec<Real64> = Vec::new();
    let mut i: usize = 0;
    while i < b.len()
        invariant
            i <= b@.len(),
            is_operation(*plus),
            is_operation(*times),
            is_function(*log),
            all_doubts == b@.map_values(|p: Real64| binary_entropy_of(*plus, *times, *log, p)),
            doubts@ == all_doubts.take(i as int),
        decreases b@.len() - i,
    {
        doubts.push(binary_entropy(b[i], plus, times, log));
        i += 1;
        assert(doubts@ =~= all_doubts.take(i as int));
    }
    assert(doubts@ =~= all_doubts);
    let players: Real64 = to_number(count, problem.num_players);
    SoccerPOMDPPeriodFeature {
        period: t,
        expected_fresh_on_field: mean_of(&on_field, plus, over, count),
        expected_fresh_bench: mean_of(&off_field, plus, over, count),
        expected_lineup_reliability: add_up(&parts, plus),
        mean_belief_entropy: apply(over, add_up(&doubts, plus), players),
    }
}

/// The summary follows the beliefs through the schedule.
pub open spec fn follows<
    P: Fn(Real64, Real64) -> Real64,
    M: Fn(Real64, Real64) -> Real64,
    Q: Fn(Real64, Real64) -> Real64,
    C: Fn(usize) -> Real64,
    E: Fn(Real64) -> Real64,
>(
    plus: P,
    times: M,
    over: Q,
    count: C,
    log: E,
    problem: SoccerProblem,
    schedule: Schedule,
    opts: SoccerPOMDPFeatureOptions,
    r: SoccerPOMDPFeatureSummary,
) -> bool {
    &&& r.model@ == "hidden-fatigue-belief"@
    &&& r.per_period@ == Seq::new(
        problem.num_periods as nat,
        |t: int| feature_of(plus, times, over, count, log, problem, schedule, opts, t),
    )
    &&& r.final_fresh_probability@ == beliefs(
        plus,
        times,
        opts,
        problem,
        schedule.assignment@,
        problem.num_periods as int,
    )
    &&& r.mean_expected_fresh_on_field == mean_at_least_one(
        plus,
        over,
        count,
        r.per_period@.map_values(|f: SoccerPOMDPPeriodFeature| f.expected_fresh_on_field),
    )
    &&& r.mean_expected_lineup_reliability == mean_at_least_one(
        plus,
        over,
        count,
        r.per_period@.map_values(|f: SoccerPOMDPPeriodFeature| f.expected_lineup_reliability),
    )
}

/// Follows the beliefs through a schedule. `log` is the logarithm to base two.
pub fn evaluate_soccer_pomdp_features<
    P: Fn(Real64, Real64) -> Real64,
    M: Fn(Real64, Real64) -> Real64,
    Q: Fn(Real64, Real64) -> Real64,
    C: Fn(usize) -> Real64,
    E: Fn(Real64) -> Real64,
>(
    problem: &SoccerProblem,
    schedule: &Schedule,
    opts: &SoccerPOMDPFeatureOptions,
    plus: &P,
    times: &M,
    over: &Q,
    count: &C,
    log: &E,
) -> (r: SoccerPOMDPFeatureSummary)
    requires
        problem.has_affinities(),
        has_line_ups(*problem, *schedule),
        is_operation(*plus),
        is_operation(*times),
        is_operation(*over),
        is_conversion(*count),
        is_function(*log),
    ensures
        follows(*plus, *times, *over, *count, *log, *problem, *schedule, *opts, r),
{
    let fatigue_rate: Real64 = value_or(opts.fatigue_rate, D0_22);
    let recovery_rate: Real64 = value_or(opts.recovery_rate, D0_55);
    let start: Real64 = value_or(opts.initial_fresh_probability, D0_82);
    let ghost assignment = schedule.assignment@;
    let mut belief: Vec<Real64> = Vec::new();
    let mut p: usize = 0;
    while p < problem.num_players
        invariant
            p <= problem.num_players,
            belief@.len() == p,
            forall|q: int| 0 <= q < p ==> #[trigger] belief@[q] == start,
        decreases problem.num_players - p,
    {
        belief.push(start);
        p += 1;
    }
    assert(belief@ =~= beliefs(*plus, *times, *opts, *problem, assignment, 0));
    let mut per_period: Vec<SoccerPOMDPPeriodFeature> = Vec::new();
    let mut fresh: Vec<Real64> = Vec::new();
    let mut reliable: Vec<Real64> = Vec::new();
    let mut t: usize = 0;
    while t < problem.num_periods
        invariant
            t <= problem.num_periods,
            problem.has_affinities(),
            has_line_ups(*problem, *schedule),
            assignment == schedule.assignment@,
            is_operation(*plus),
            is_operation(*times),
            is_operation(*over),
            is_conversion(*count),
            is_function(*log),
            fatigue_rate == or_bits(opts.fatigue_rate, D0_22),
            recovery_rate == or_bits(opts.recovery_rate, D0_55),
            belief@ == beliefs(*plus, *times, *opts, *problem, assignment, t as int),
            per_period@.len() == t,
            forall|u: int|
                0 <= u < t ==> #[trigger] per_period@[u] == feature_of(
                    *plus,
                    *times,
                    *over,
                    *count,
                    *log,
                    *problem,
                    *schedule,
                    *opts,
                    u,
                ),
            fresh@ == per_period@.map_values(
                |f: SoccerPOMDPPeriodFeature| f.expected_fresh_on_field,
            ),
            reliable@ == per_period@.map_values(
                |f: SoccerPOMDPPeriodFeature| f.expected_lineup_reliability,
            ),
        decreases problem.num_periods - t,
    {
        let feature: SoccerPOMDPPeriodFeature = read_period(
            problem,
            schedule,
            opts,
            t,
            &belief,
            plus,
            times,
            over,
            count,
            log,
        );
        per_period.push(feature);
        fresh.push(feature.expected_fresh_on_field);
        reliable.push(feature.expected_lineup_reliability);
        assert(fresh@ =~= per_period@.map_values(
            |f: SoccerPOMDPPeriodFeature| f.expected_fresh_on_field,
        ));
        assert(reliable@ =~= per_period@.map_values(
            |f: SoccerPOMDPPeriodFeature| f.expected_lineup_reliability,
        ));
        let ghost before = belief@;
        let mut next: Vec<Real64> = Vec::new();
        let mut p: usize = 0;
        while p < problem.num_players
            invariant
                p <= problem.num_players,
                t < problem.num_periods,
                has_line_ups(*problem, *schedule),
                assignment == schedule.assignment@,
                is_operation(*plus),
                is_operation(*times),
                fatigue_rate == or_bits(opts.fatigue_rate, D0_22),
                recovery_rate == or_bits(opts.recovery_rate, D0_55),
                belief@ == beliefs(*plus, *times, *opts, *problem, assignment, t as int),
                next@.len() == p,
                forall|q: int|
                    0 <= q < p ==> #[trigger] next@[q] == belief_in(
                        *plus,
                        *times,
                        *opts,
                        assignment,
                        q,
                        t + 1,
                    ),
            decreases problem.num_players - p,
        {
            let b: Real64 = belief[p];
            if find_in(&schedule.assignment[t], p) {
                let left: Real64 = apply(plus, at_bits(D1), fatigue_rate.negate());
                next.push(larger_of(at_bits(D0), apply(times, b, left)));
            } else {
                let missing: Real64 = apply(plus, at_bits(D1), b.negate());
                let gain: Real64 = apply(times, missing, recovery_rate);
                next.push(smaller_of(at_bits(D1), apply(plus, b, gain)));
            }
            p += 1;
        }
        belief = next;
        t += 1;
        assert(belief@ =~= beliefs(*plus, *times, *opts, *problem, assignment, t as int));
    }
    assert(per_period@ =~= Seq::new(
        problem.num_periods as nat,
        |t: int|
            feature_of(
                *plus,
                *times,
                *over,
                *count,
                *log,
                *problem,
                *schedule,
                *opts,
                t,
            ),
    ));
    SoccerPOMDPFeatureSummary {
        model: "hidden-fatigue-belief",
        mean_expected_fresh_on_field: mean_of(&fresh, plus, over, count),
        mean_expected_lineup_reliability: mean_of(&reliable, plus, over, count),
        per_period,
        final_fresh_probability: belief,
    }
}

/// After a period every belief is a number: a tired one is not negative, a rested one not above
/// one.
pub proof fn beliefs_have_bounds<
    P: Fn(Real64, Real64) -> Real64,
    M: Fn(Real64, Real64) -> Real64,
>(plus: P, times: M, belief: Real64, rate: Real64)
    ensures
        !tired(plus, times, belief, rate).nan(),
        tired(plus, times, belief, rate).key() >= 0,
        !rested(plus, times, belief, rate).nan(),
        rested(plus, times, belief, rate).key() <= num(D1).key(),
{
}

/// Playing takes the rate of what freshness there is; resting gives back the rate of what is
/// missing.
pub proof fn playing_tires_and_rest_restores<
    P: Fn(Real64, Real64) -> Real64,
    M: Fn(Real64, Real64) -> Real64,
>(
    means: spec_fn(Real64, real) -> bool,
    plus: P,
    times: M,
    belief: Real64,
    rate: Real64,
    b: real,
    r: real,
)
    requires
        is_faithful(means, plus, times),
        means(belief, b),
        means(rate, r),
    ensures
        means(tired(plus, times, belief, rate), most(0real, b - r * b)),
        means(rested(plus, times, belief, rate), least(1real, b + r * (1real - b))),
{
    decimals_are_read(means);
    assert(1real + -r == 1real - r && 1real + -b == 1real - b);
    assert(b * (1real - r) == b - r * b) by (nonlinear_arith);
    assert((1real - b) * r == r * (1real - b)) by (nonlinear_arith);
    assert(means(num(D1), 1real));
}

/// The doubt of a share: the entropy of a draw with it, in the logarithm that is handed in, the
/// share kept from certainty by a trillionth.
pub proof fn doubt_is_the_entropy<
    P: Fn(Real64, Real64) -> Real64,
    M: Fn(Real64, Real64) -> Real64,
    E: Fn(Real64) -> Real64,
>(
    means: spec_fn(Real64, real) -> bool,
    plus: P,
    times: M,
    exp: E,
    ln: spec_fn(real) -> real,
    p: Real64,
    x: real,
    top: real,
)
    requires
        is_faithful(means, plus, times),
        reads_function(means, exp, ln),
        means(p, x),
        means(num(NEARLY_ONE_BITS), top),
    ensures
        ({
            let q = most(1real / 1000000000000real, least(top, x));
            means(
                binary_entropy_of(plus, times, exp, p),
                -(q * ln(q) + (1real - q) * ln(1real - q)),
            )
        }),
{
    decimals_are_read(means);
    let q = most(1real / 1000000000000real, least(top, x));
    assert(1real + -q == 1real - q);
}

/// The mean of some numbers, and nothing where there are none.
pub proof fn means_of_none_are_nothing<
    P: Fn(Real64, Real64) -> Real64,
    Q: Fn(Real64, Real64) -> Real64,
    C: Fn(usize) -> Real64,
>(
    means: spec_fn(Real64, real) -> bool,
    plus: P,
    over: Q,
    count: C,
    s: Seq<Real64>,
    x: Seq<real>,
)
    requires
        reads_sums(means, plus),
        reads_signs(means),
        reads_order(means),
        reads_decimals(means),
        reads_quotients(means, over),
        reads_counts(means, count),
        s.len() <= usize::MAX,
        s.len() == x.len(),
        forall|i: int| 0 <= i < s.len() ==> means(#[trigger] s[i], x[i]),
    ensures
        means(
            mean_at_least_one(plus, over, count, s),
            real_sum(x, x.len() as int) / most(1real, s.len() as real),
        ),
{
    decimals_are_read(means);
    sums_mean_sums(means, plus, s, x, s.len() as int);
    assert(most(1real, s.len() as real) != 0real);
}

/// What a player contributes at a position: 0.65 of the affinity, and 0.35 of it by how fresh the
/// player is.
pub proof fn fresh_players_contribute_fully<
    P: Fn(Real64, Real64) -> Real64,
    M: Fn(Real64, Real64) -> Real64,
>(
    means: spec_fn(Real64, real) -> bool,
    plus: P,
    times: M,
    problem: SoccerProblem,
    b: Seq<Real64>,
    row: Seq<i64>,
    t: int,
    pos: int,
    a: real,
    fresh: real,
)
    requires
        is_faithful(means, plus, times),
        0 <= pos < problem.num_positions,
        means(problem.affinity@[row[pos] as int]@[pos]@[t], a),
        means(b[row[pos] as int], fresh),
    ensures
        means(
            contributions(plus, times, problem, b, row, t)[pos],
            a * ((13real / 20real) + (7real / 20real) * fresh),
        ),
{
    decimals_are_read(means);
}

} // verus!
