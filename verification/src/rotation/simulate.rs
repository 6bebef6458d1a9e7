//! A simulated match over the periods of a schedule, and the sample problem.
use crate::arithmetic::{can_multiply, products_keep_order, sums_keep_order};
use crate::decimals::{D0_04, D0_06, D0_5, D1_6};
use crate::meaning::{decimals_are_read, is_faithful};
use crate::number::{
    add_up, apply, at_bits, is_conversion, is_operation, negation_mirrors, num, number_of, outcome,
    sum_up, to_number, Real64,
};
use crate::rotation::belief::{has_line_ups, or_bits, value_or};
use crate::rotation::mdp::{copy_bench, copy_seats};
use crate::rotation::problem::{Schedule, SoccerProblem};
use crate::text::{decimal, decimal_text};
use vstd::prelude::*;
use vstd::string::*;

verus! {

/// A change of players at the start of a period.
#[derive(Debug)]
pub struct SubEvent {
    pub t: usize,
    pub period: usize,
    pub new_on_field: Vec<i64>,
    pub new_bench: Vec<usize>,
}

/// Which side scored.
#[derive(Clone, Copy, Debug, PartialEq, Eq, Structural)]
pub enum GoalSide {
    Us,
    Them,
}

/// A goal.
#[derive(Clone, Copy, Debug, PartialEq, Eq, Structural)]
pub struct GoalEvent {
    pub t: usize,
    pub side: GoalSide,
}

/// The match at one minute.
#[derive(Debug)]
pub struct MatchTraceFrame {
    pub t: usize,
    pub period: usize,
    pub on_field: Vec<i64>,
    pub bench: Vec<usize>,
    pub affinity_now: Real64,
    pub goals_for_cum: i64,
    pub goals_against_cum: i64,
    pub positions: Vec<i64>,
}

/// The course of a match.
#[derive(Debug)]
pub struct MatchRecord {
    pub goals_for: i64,
    pub goals_against: i64,
    pub goal_differential: i64,
    pub goal_events: Vec<GoalEvent>,
    pub sub_events: Vec<SubEvent>,
    pub trace: Vec<MatchTraceFrame>,
}

/// Who scores in a minute.
#[derive(Clone, Copy, Debug, PartialEq, Eq, Structural)]
pub struct MinuteGoals {
    pub us: bool,
    pub them: bool,
}

/// How often we score in the first `n` minutes.
pub open spec fn goals_us(minutes: Seq<MinuteGoals>, n: int) -> int
    decreases n,
{
    if n <= 0 {
        0
    } else {
        goals_us(minutes, n - 1) + if minutes[n - 1].us {
            1int
        } else {
            0
        }
    }
}

/// How often they score in the first `n` minutes.
pub open spec fn goals_them(minutes: Seq<MinuteGoals>, n: int) -> int
    decreases n,
{
    if n <= 0 {
        0
    } else {
        goals_them(minutes, n - 1) + if minutes[n - 1].them {
            1int
        } else {
            0
        }
    }
}

/// The goals of the first `n` minutes in order; within a minute ours come first.
pub open spec fn goals_of(minutes: Seq<MinuteGoals>, n: int) -> Seq<GoalEvent>
    decreases n,
{
    if n <= 0 {
        Seq::empty()
    } else {
        let before = goals_of(minutes, n - 1);
        let ours = if minutes[n - 1].us {
            before.push(GoalEvent { t: (n - 1) as usize, side: GoalSide::Us })
        } else {
            before
        };
        if minutes[n - 1].them {
            ours.push(GoalEvent { t: (n - 1) as usize, side: GoalSide::Them })
        } else {
            ours
        }
    }
}

/// The frame shows the match at minute `t`.
pub open spec fn shows_minute(
    schedule: Schedule,
    period_affinity: Seq<Real64>,
    minutes: Seq<MinuteGoals>,
    minutes_per_period: int,
    frame: MatchTraceFrame,
    t: int,
) -> bool {
    let period = t / minutes_per_period;
    &&& frame.t == t
    &&& frame.period == period
    &&& frame.on_field@ == schedule.assignment@[period]@
    &&& frame.bench@ == schedule.bench@[period]@
    &&& frame.affinity_now == period_affinity[period]
    &&& frame.goals_for_cum == goals_us(minutes, t + 1)
    &&& frame.goals_against_cum == goals_them(minutes, t + 1)
    &&& frame.positions@ == schedule.assignment@[period]@
}

/// The event puts on the players of a period.
pub open spec fn starts_period(
    schedule: Schedule,
    minutes_per_period: int,
    event: SubEvent,
    period: int,
) -> bool {
    &&& event.t == period * minutes_per_period
    &&& event.period == period
    &&& event.new_on_field@ == schedule.assignment@[period]@
    &&& event.new_bench@ == schedule.bench@[period]@
}

proof fn goals_are_bounded(minutes: Seq<MinuteGoals>, n: int)
    requires
        0 <= n,
    ensures
        0 <= goals_us(minutes, n) <= n,
        0 <= goals_them(minutes, n) <= n,
    decreases n,
{
    if n > 0 {
        goals_are_bounded(minutes, n - 1);
    }
}

proof fn minute_of_period(t: int, m: int, n: int)
    requires
        0 <= t < m * n,
        0 < m,
    ensures
        0 <= t / m < n,
        t % m == 0 ==> t == (t / m) * m,
        (t + 1) % m == 0 ==> (t + 1) / m == t / m + 1,
        (t + 1) % m != 0 ==> (t + 1) / m == t / m,
{
    assert(0 <= t / m < n) by (nonlinear_arith)
        requires
            0 <= t < m * n,
            0 < m,
    ;
    vstd::arithmetic::div_mod::lemma_fundamental_div_mod(t, m);
    vstd::arithmetic::div_mod::lemma_fundamental_div_mod(t + 1, m);
    let q = t / m;
    let r = t % m;
    assert(m * q == q * m) by (nonlinear_arith);
    assert(0 <= r < m);
    if r + 1 == m {
        assert((q + 1) * m == q * m + m) by (nonlinear_arith);
        vstd::arithmetic::div_mod::lemma_fundamental_div_mod_converse(t + 1, m, q + 1, 0);
    } else {
        vstd::arithmetic::div_mod::lemma_fundamental_div_mod_converse(t + 1, m, q, r + 1);
    }
}

/// The record is the course of a match in which those goals fall.
pub open spec fn records(
    problem: SoccerProblem,
    schedule: Schedule,
    period_affinity: Seq<Real64>,
    minutes: Seq<MinuteGoals>,
    minutes_per_period: int,
    r: MatchRecord,
) -> bool {
    &&& r.goals_for == goals_us(minutes, minutes.len() as int)
    &&& r.goals_against == goals_them(minutes, minutes.len() as int)
    &&& r.goal_differential == r.goals_for - r.goals_against
    &&& r.goal_events@ == goals_of(minutes, minutes.len() as int)
    &&& r.trace@.len() == minutes.len()
    &&& forall|t: int|
        0 <= t < r.trace@.len() ==> shows_minute(
            schedule,
            period_affinity,
            minutes,
            minutes_per_period,
            #[trigger] r.trace@[t],
            t,
        )
    &&& r.sub_events@.len() == if minutes_per_period == 0 {
        0int
    } else {
        problem.num_periods as int
    }
    &&& forall|p: int|
        0 <= p < r.sub_events@.len() ==> starts_period(
            schedule,
            minutes_per_period,
            #[trigger] r.sub_events@[p],
            p,
        )
}

/// Plays a match minute by minute. `minutes` says who scores when, `period_affinity` how well
/// the line-up of each period plays on average.
pub fn play_minutes(
    problem: &SoccerProblem,
    schedule: &Schedule,
    period_affinity: &Vec<Real64>,
    minutes: &Vec<MinuteGoals>,
    minutes_per_period: usize,
) -> (r: MatchRecord)
    requires
        schedule.assignment@.len() >= problem.num_periods,
        schedule.bench@.len() >= problem.num_periods,
        period_affinity@.len() == problem.num_periods,
        minutes_per_period * problem.num_periods <= i64::MAX,
        minutes@.len() == minutes_per_period * problem.num_periods,
    ensures
        records(*problem, *schedule, period_affinity@, minutes@, minutes_per_period as int, r),
{
    let total: usize = minutes.len();
    let mut goals_for: i64 = 0;
    let mut goals_against: i64 = 0;
    let mut goal_events: Vec<GoalEvent> = Vec::new();
    let mut sub_events: Vec<SubEvent> = Vec::new();
    let mut trace: Vec<MatchTraceFrame> = Vec::new();
    let mut t: usize = 0;
    proof {
        let n = problem.num_periods as int;
        let m = minutes_per_period as int;
        assert(0 * n == 0);
        if m > 0 {
            assert(0int / m == 0 && 0int % m == 0) by (nonlinear_arith)
                requires
                    m > 0,
            ;
        }
    }
    while t < total
        invariant
            t <= total,
            total == minutes@.len(),
            total == minutes_per_period * problem.num_periods,
            total <= i64::MAX,
            total > 0 ==> minutes_per_period > 0,
            schedule.assignment@.len() >= problem.num_periods,
            schedule.bench@.len() >= problem.num_periods,
            period_affinity@.len() == problem.num_periods,
            goals_for == goals_us(minutes@, t as int),
            goals_against == goals_them(minutes@, t as int),
            goal_events@ == goals_of(minutes@, t as int),
            trace@.len() == t,
            forall|u: int|
                0 <= u < t ==> shows_minute(
                    *schedule,
                    period_affinity@,
                    minutes@,
                    minutes_per_period as int,
                    #[trigger] trace@[u],
                    u,
                ),
            minutes_per_period > 0 ==> sub_events@.len() == t as int / (minutes_per_period as int)
                + if t as int % (minutes_per_period as int) == 0 {
                0int
            } else {
                1
            },
            minutes_per_period == 0 ==> sub_events@.len() == 0,
            forall|p: int|
                0 <= p < sub_events@.len() ==> starts_period(
                    *schedule,
                    minutes_per_period as int,
                    #[trigger] sub_events@[p],
                    p,
                ),
        decreases total - t,
    {
        proof {
            minute_of_period(
                t as int,
                minutes_per_period as int,
                problem.num_periods as int,
            );
            goals_are_bounded(minutes@, t as int);
        }
        let period: usize = t / minutes_per_period;
        if t % minutes_per_period == 0 {
            sub_events.push(
                SubEvent {
                    t,
                    period,
                    new_on_field: copy_seats(&schedule.assignment[period]),
                    new_bench: copy_bench(&schedule.bench[period]),
                },
            );
        }
        let minute: MinuteGoals = minutes[t];
        if minute.us {
            goals_for += 1;
            goal_events.push(GoalEvent { t, side: GoalSide::Us });
        }
        if minute.them {
            goals_against += 1;
            goal_events.push(GoalEvent { t, side: GoalSide::Them });
        }
        trace.push(
            MatchTraceFrame {
                t,
                period,
                on_field: copy_seats(&schedule.assignment[period]),
                bench: copy_bench(&schedule.bench[period]),
                affinity_now: period_affinity[period],
                goals_for_cum: goals_for,
                goals_against_cum: goals_against,
                positions: copy_seats(&schedule.assignment[period]),
            },
        );
        t += 1;
    }
    proof {
        goals_are_bounded(minutes@, t as int);
        let n = problem.num_periods as int;
        let m = minutes_per_period as int;
        if m > 0 {
            assert(m * n == n * m) by (nonlinear_arith);
            vstd::arithmetic::div_mod::lemma_fundamental_div_mod_converse(m * n, m, n, 0);
        }
    }
    MatchRecord {
        goals_for,
        goals_against,
        goal_differential: goals_for - goals_against,
        goal_events,
        sub_events,
        trace,
    }
}

/// What a caller asks of a simulated match.
#[derive(Clone, Copy, Debug, PartialEq, Eq, Structural)]
pub struct MatchSimOptions {
    pub minutes_per_period: Option<usize>,
    pub team_score_rate: Option<Real64>,
    pub opp_score_rate: Option<Real64>,
    pub seed: Option<u32>,
}

impl Default for MatchSimOptions {
    fn default() -> (r: Self)
        ensures
            r == Self::plain(),
    {
        MatchSimOptions {
            minutes_per_period: None,
            team_score_rate: None,
            opp_score_rate: None,
            seed: None,
        }
    }
}

impl MatchSimOptions {
    /// Nothing asked for.
    pub open spec fn plain() -> Self {
        MatchSimOptions {
            minutes_per_period: None,
            team_score_rate: None,
            opp_score_rate: None,
            seed: None,
        }
    }

    /// The seed of the draws: 1 unless told otherwise.
    pub fn seed_or_default(&self) -> (seed: u32)
        ensures
            seed == match self.seed {
                Some(seed) => seed,
                None => 1,
            },
    {
        match self.seed {
            Some(seed) => seed,
            None => 1,
        }
    }

    /// The length of a period: 20 minutes unless told otherwise.
    pub open spec fn period_length(self) -> usize {
        match self.minutes_per_period {
            Some(m) => m,
            None => 20,
        }
    }

    pub fn minutes(&self) -> (r: usize)
        ensures
            r == self.period_length(),
    {
        match self.minutes_per_period {
            Some(m) => m,
            None => 20,
        }
    }
}

/// A simulated match.
#[derive(Debug)]
pub struct MatchResult {
    pub record: MatchRecord,
    pub affinity_sum_deterministic: Real64,
    pub per_period_affinity: Vec<Real64>,
}

/// The affinities of the players of a period, position by position.
pub open spec fn cell_affinities(
    problem: SoccerProblem,
    schedule: Schedule,
    t: int,
) -> Seq<Real64> {
    Seq::new(
        problem.num_positions as nat,
        |pos: int| problem.affinity@[schedule.assignment@[t]@[pos] as int]@[pos]@[t],
    )
}

/// What the line-up of a period is worth.
pub open spec fn period_worth<P: Fn(Real64, Real64) -> Real64>(
    plus: P,
    problem: SoccerProblem,
    schedule: Schedule,
    t: int,
) -> Real64 {
    sum_up(plus, cell_affinities(problem, schedule, t), problem.num_positions as int)
}

/// What the line-ups of all periods are worth.
pub open spec fn worths<P: Fn(Real64, Real64) -> Real64>(
    plus: P,
    problem: SoccerProblem,
    schedule: Schedule,
) -> Seq<Real64> {
    Seq::new(problem.num_periods as nat, |t: int| period_worth(plus, problem, schedule, t))
}

/// What a position is worth on average, in all periods.
pub open spec fn averages<
    P: Fn(Real64, Real64) -> Real64,
    Q: Fn(Real64, Real64) -> Real64,
    C: Fn(usize) -> Real64,
>(plus: P, over: Q, count: C, problem: SoccerProblem, schedule: Schedule) -> Seq<Real64> {
    Seq::new(
        problem.num_periods as nat,
        |t: int|
            outcome(
                over,
                period_worth(plus, problem, schedule, t),
                number_of(count, problem.num_positions),
            ),
    )
}

/// Who scores in a minute: we score where the first draw falls below our rate, which grows with
/// the square of the affinity; they score where the second falls below theirs, which shrinks
/// with it.
pub open spec fn minute_of<P: Fn(Real64, Real64) -> Real64, M: Fn(Real64, Real64) -> Real64>(
    plus: P,
    times: M,
    opts: MatchSimOptions,
    affinity: Real64,
    draws: (Real64, Real64),
) -> MinuteGoals {
    let ours = or_bits(opts.team_score_rate, D0_06);
    let theirs = or_bits(opts.opp_score_rate, D0_04);
    MinuteGoals {
        us: draws.0.less(outcome(times, ours, outcome(times, affinity, affinity))),
        them: draws.1.less(
            outcome(
                times,
                theirs,
                outcome(plus, num(D1_6), outcome(times, num(D0_5), affinity).negated()),
            ),
        ),
    }
}

/// Who scores in all minutes.
pub open spec fn minutes_from<
    P: Fn(Real64, Real64) -> Real64,
    M: Fn(Real64, Real64) -> Real64,
>(
    plus: P,
    times: M,
    opts: MatchSimOptions,
    averages: Seq<Real64>,
    draws: Seq<(Real64, Real64)>,
) -> Seq<MinuteGoals> {
    Seq::new(
        draws.len(),
        |t: int| minute_of(plus, times, opts, averages[t / opts.period_length() as int], draws[t]),
    )
}

/// The result is that of a match simulated from the draws.
pub open spec fn is_simulated<
    P: Fn(Real64, Real64) -> Real64,
    M: Fn(Real64, Real64) -> Real64,
    Q: Fn(Real64, Real64) -> Real64,
    C: Fn(usize) -> Real64,
>(
    plus: P,
    times: M,
    over: Q,
    count: C,
    problem: SoccerProblem,
    schedule: Schedule,
    opts: MatchSimOptions,
    draws: Seq<(Real64, Real64)>,
    r: MatchResult,
) -> bool {
    let means = averages(plus, over, count, problem, schedule);
    &&& r.per_period_affinity@ == worths(plus, problem, schedule)
    &&& r.affinity_sum_deterministic == sum_up(
        plus,
        r.per_period_affinity@,
        problem.num_periods as int,
    )
    &&& records(
        problem,
        schedule,
        means,
        minutes_from(plus, times, opts, means, draws),
        opts.period_length() as int,
        r.record,
    )
}

/// Simulates a match from two draws for every minute.
pub fn simulate_match_des<
    P: Fn(Real64, Real64) -> Real64,
    M: Fn(Real64, Real64) -> Real64,
    Q: Fn(Real64, Real64) -> Real64,
    C: Fn(usize) -> Real64,
>(
    problem: &SoccerProblem,
    schedule: &Schedule,
    opts: &MatchSimOptions,
    draws: &Vec<(Real64, Real64)>,
    plus: &P,
    times: &M,
    over: &Q,
    count: &C,
) -> (r: MatchResult)
    requires
        problem.has_affinities(),
        has_line_ups(*problem, *schedule),
        opts.period_length() * problem.num_periods <= i64::MAX,
        draws@.len() == opts.period_length() * problem.num_periods,
        is_operation(*plus),
        is_operation(*times),
        is_operation(*over),
        is_conversion(*count),
    ensures
        is_simulated(*plus, *times, *over, *count, *problem, *schedule, *opts, draws@, r),
{
    let length: usize = opts.minutes();
    let ghost means = averages(*plus, *over, *count, *problem, *schedule);
    let positions: Real64 = to_number(count, problem.num_positions);
    let mut per_period: Vec<Real64> = Vec::new();
    let mut average: Vec<Real64> = Vec::new();
    let mut t: usize = 0;
    while t < problem.num_periods
        invariant
            t <= problem.num_periods,
            problem.has_affinities(),
            has_line_ups(*problem, *schedule),
            is_operation(*plus),
            is_operation(*over),
            positions == number_of(*count, problem.num_positions),
            means == averages(*plus, *over, *count, *problem, *schedule),
            per_period@ == worths(*plus, *problem, *schedule).take(t as int),
            average@ == means.take(t as int),
        decreases problem.num_periods - t,
    {
        let row: &Vec<i64> = &schedule.assignment[t];
        let mut cells: Vec<Real64> = Vec::new();
        let mut pos: usize = 0;
        while pos < problem.num_positions
            invariant
                pos <= problem.num_positions,
                t < problem.num_periods,
                problem.has_affinities(),
                has_line_ups(*problem, *schedule),
                row@ == schedule.assignment@[t as int]@,
                cells@ == cell_affinities(*problem, *schedule, t as int).take(pos as int),
            decreases problem.num_positions - pos,
        {
            assert(schedule.assignment@[t as int]@.len() >= problem.num_positions);
            assert(0 <= schedule.assignment@[t as int]@[pos as int] < problem.num_players);
            let p: usize = row[pos] as usize;
            cells.push(problem.affinity[p][pos][t]);
            pos += 1;
            assert(cells@ =~= cell_affinities(*problem, *schedule, t as int).take(pos as int));
        }
        assert(cells@ =~= cell_affinities(*problem, *schedule, t as int));
        let worth: Real64 = add_up(&cells, plus);
        per_period.push(worth);
        average.push(apply(over, worth, positions));
        t += 1;
        assert(per_period@ =~= worths(*plus, *problem, *schedule).take(t as int));
        assert(average@ =~= means.take(t as int));
    }
    assert(per_period@ =~= worths(*plus, *problem, *schedule));
    assert(average@ =~= means);
    let ours: Real64 = value_or(opts.team_score_rate, D0_06);
    let theirs: Real64 = value_or(opts.opp_score_rate, D0_04);
    let ghost all = minutes_from(*plus, *times, *opts, means, draws@);
    let mut minutes: Vec<MinuteGoals> = Vec::new();
    let mut i: usize = 0;
    while i < draws.len()
        invariant
            i <= draws@.len(),
            length == opts.period_length(),
            draws@.len() == length * problem.num_periods,
            is_operation(*plus),
            is_operation(*times),
            average@ == means,
            means.len() == problem.num_periods,
            ours == or_bits(opts.team_score_rate, D0_06),
            theirs == or_bits(opts.opp_score_rate, D0_04),
            all == minutes_from(*plus, *times, *opts, means, draws@),
            minutes@ == all.take(i as int),
        decreases draws@.len() - i,
    {
        proof {
            if length == 0 {
                assert(length * problem.num_periods == 0) by (nonlinear_arith)
                    requires
                        length == 0,
                ;
            }
            minute_of_period(i as int, length as int, problem.num_periods as int);
        }
        let affinity: Real64 = average[i / length];
        let (first, second): (Real64, Real64) = draws[i];
        let rate_us: Real64 = apply(times, ours, apply(times, affinity, affinity));
        let eased: Real64 = apply(times, at_bits(D0_5), affinity);
        let rate_them: Real64 = apply(times, theirs, apply(plus, at_bits(D1_6), eased.negate()));
        minutes.push(
            MinuteGoals { us: first.is_below(rate_us), them: second.is_below(rate_them) },
        );
        i += 1;
        assert(minutes@ =~= all.take(i as int));
    }
    assert(minutes@ =~= all);
    let record: MatchRecord = play_minutes(problem, schedule, &average, &minutes, length);
    let total: Real64 = add_up(&per_period, plus);
    MatchResult { record, affinity_sum_deterministic: total, per_period_affinity: per_period }
}

/// The seeds of a row of matches: one after the other from a base.
pub fn match_seeds(seed_base: u32, num_matches: usize) -> (seeds: Vec<u32>)
    requires
        seed_base + num_matches <= u32::MAX + 1,
    ensures
        seeds@.len() == num_matches,
        forall|n: int| 0 <= n < seeds@.len() ==> #[trigger] seeds@[n] == seed_base + n,
{
    let mut seeds: Vec<u32> = Vec::new();
    let mut n: usize = 0;
    while n < num_matches
        invariant
            n <= num_matches,
            seed_base + num_matches <= u32::MAX + 1,
            seeds@.len() == n,
            forall|k: int| 0 <= k < n ==> #[trigger] seeds@[k] == seed_base + k,
        decreases num_matches - n,
    {
        seeds.push(seed_base + n as u32);
        n += 1;
    }
    seeds
}

/// How large a sample problem is.
#[derive(Clone, Copy, Debug)]
pub struct AffinityBuilderOptions {
    pub num_players: Option<usize>,
    pub num_positions: Option<usize>,
    pub num_periods: Option<usize>,
    pub max_consecutive_on_field: Option<usize>,
    pub seed: Option<u32>,
}

impl Default for AffinityBuilderOptions {
    fn default() -> (r: Self)
        ensures
            r.num_players is None,
            r.num_positions is None,
            r.num_periods is None,
            r.max_consecutive_on_field is None,
            r.seed is None,
    {
        AffinityBuilderOptions {
            num_players: None,
            num_positions: None,
            num_periods: None,
            max_consecutive_on_field: None,
            seed: None,
        }
    }
}

impl AffinityBuilderOptions {
    /// The seed of the draws: 4242 unless told otherwise.
    pub fn seed_or_default(&self) -> (seed: u32)
        ensures
            seed == match self.seed {
                Some(seed) => seed,
                None => 4242,
            },
    {
        match self.seed {
            Some(seed) => seed,
            None => 4242,
        }
    }
}

pub open spec fn or_else(value: Option<usize>, fallback: int) -> int {
    match value {
        Some(n) => n as int,
        None => fallback,
    }
}

/// The letter of one of the first fourteen positions.
pub open spec fn letter_of(pos: int) -> Seq<char> {
    if pos == 0 {
        "A"@
    } else if pos == 1 {
        "B"@
    } else if pos == 2 {
        "C"@
    } else if pos == 3 {
        "D"@
    } else if pos == 4 {
        "E"@
    } else if pos == 5 {
        "F"@
    } else if pos == 6 {
        "G"@
    } else if pos == 7 {
        "H"@
    } else if pos == 8 {
        "I"@
    } else if pos == 9 {
        "J"@
    } else if pos == 10 {
        "K"@
    } else if pos == 11 {
        "L"@
    } else if pos == 12 {
        "M"@
    } else {
        "N"@
    }
}

fn letter(pos: usize) -> (r: &'static str)
    requires
        pos < 14,
    ensures
        r@ == letter_of(pos as int),
{
    if pos == 0 {
        "A"
    } else if pos == 1 {
        "B"
    } else if pos == 2 {
        "C"
    } else if pos == 3 {
        "D"
    } else if pos == 4 {
        "E"
    } else if pos == 5 {
        "F"
    } else if pos == 6 {
        "G"
    } else if pos == 7 {
        "H"
    } else if pos == 8 {
        "I"
    } else if pos == 9 {
        "J"
    } else if pos == 10 {
        "K"
    } else if pos == 11 {
        "L"
    } else if pos == 12 {
        "M"
    } else {
        "N"
    }
}

/// The dimensions of a sample problem: players, positions, periods.
pub open spec fn sample_size(opts: AffinityBuilderOptions) -> (int, int, int) {
    (or_else(opts.num_players, 12), or_else(opts.num_positions, 7), or_else(opts.num_periods, 4))
}

/// The sample problem of a size: players and positions with names, nobody benched twice in a row,
/// and no other rule than the one on stints.
pub open spec fn is_sample(
    opts: AffinityBuilderOptions,
    affinity: Vec<Vec<Vec<Real64>>>,
    problem: SoccerProblem,
) -> bool {
    &&& problem.num_players == sample_size(opts).0
    &&& problem.num_positions == sample_size(opts).1
    &&& problem.num_periods == sample_size(opts).2
    &&& problem.bench_size == problem.num_players - problem.num_positions
    &&& problem.max_consecutive_on_field == opts.max_consecutive_on_field
    &&& problem.min_contiguous_on_field is None
    &&& problem.max_contiguous_on_field is None
    &&& problem.max_contiguous_bench is None
    &&& problem.enforce_no_consecutive_bench
    &&& problem.max_subs_per_game is None
    &&& problem.min_subs_per_game is None
    &&& problem.affinity == affinity
    &&& problem.player_names is Some
    &&& problem.player_names->0@.len() == problem.num_players
    &&& forall|p: int|
        0 <= p < problem.num_players ==> (#[trigger] problem.player_names->0@[p])@ == "Player"@
            + decimal((p + 1) as nat)
    &&& problem.position_names is Some
    &&& problem.position_names->0@.len() == problem.num_positions
    &&& forall|pos: int|
        0 <= pos < problem.num_positions ==> (#[trigger] problem.position_names->0@[pos])@
            == letter_of(pos)
    &&& problem.player_status is None
    &&& problem.fixed_position is None
    &&& problem.banned_positions is None
    &&& problem.synergy_rules is None
}

/// Builds the sample problem around a table of affinities: at least one player is on the bench,
/// nobody twice in a row, and there are no other rules but a limit on stints, if one is given.
pub fn assemble_sample_problem(
    opts: &AffinityBuilderOptions,
    affinity: Vec<Vec<Vec<Real64>>>,
) -> (problem: SoccerProblem)
    requires
        sample_size(*opts).0 > sample_size(*opts).1,
        sample_size(*opts).1 <= 14,
    ensures
        is_sample(*opts, affinity, problem),
{
    let num_players: usize = opts.num_players.unwrap_or(12);
    let num_positions: usize = opts.num_positions.unwrap_or(7);
    let num_periods: usize = opts.num_periods.unwrap_or(4);
    let mut player_names: Vec<String> = Vec::new();
    let mut p: usize = 0;
    while p < num_players
        invariant
            p <= num_players,
            player_names@.len() == p,
            forall|q: int|
                0 <= q < p ==> (#[trigger] player_names@[q])@ == "Player"@ + decimal(
                    (q + 1) as nat,
                ),
        decreases num_players - p,
    {
        let mut name: String = "Player".to_owned();
        name.append(decimal_text(p + 1).as_str());
        player_names.push(name);
        p += 1;
    }
    let mut position_names: Vec<String> = Vec::new();
    let mut pos: usize = 0;
    while pos < num_positions
        invariant
            pos <= num_positions,
            num_positions <= 14,
            position_names@.len() == pos,
            forall|q: int| 0 <= q < pos ==> (#[trigger] position_names@[q])@ == letter_of(q),
        decreases num_positions - pos,
    {
        position_names.push(letter(pos).to_owned());
        pos += 1;
    }
    SoccerProblem {
        num_players,
        num_positions,
        num_periods,
        bench_size: num_players - num_positions,
        max_consecutive_on_field: opts.max_consecutive_on_field,
        min_contiguous_on_field: None,
        max_contiguous_on_field: None,
        max_contiguous_bench: None,
        enforce_no_consecutive_bench: true,
        max_subs_per_game: None,
        min_subs_per_game: None,
        affinity,
        player_names: Some(player_names),
        position_names: Some(position_names),
        player_status: None,
        fixed_position: None,
        banned_positions: None,
        synergy_rules: None,
    }
}

/// A better line-up never concedes more: with the same draws of a minute, whoever plays with more
/// affinity scores wherever the others would, and concedes only where the others would too.
pub proof fn better_line_ups_concede_less<
    P: Fn(Real64, Real64) -> Real64,
    M: Fn(Real64, Real64) -> Real64,
>(
    plus: P,
    times: M,
    opts: MatchSimOptions,
    worse: Real64,
    better: Real64,
    draws: (Real64, Real64),
)
    requires
        sums_keep_order(plus),
        products_keep_order(times),
        worse.finite(),
        better.finite(),
        0 <= worse.key() <= better.key(),
        opts.team_score_rate matches Some(rate) ==> rate.finite() && rate.key() > 0,
        opts.opp_score_rate matches Some(rate) ==> rate.finite() && rate.key() > 0,
    ensures
        minute_of(plus, times, opts, better, draws).them ==> minute_of(
            plus,
            times,
            opts,
            worse,
            draws,
        ).them,
        minute_of(plus, times, opts, worse, draws).us ==> minute_of(
            plus,
            times,
            opts,
            better,
            draws,
        ).us,
{
    let ours = or_bits(opts.team_score_rate, D0_06);
    let theirs = or_bits(opts.opp_score_rate, D0_04);
    let a = outcome(times, worse, worse);
    let b = outcome(times, better, better);
    assert(can_multiply(worse, worse) && can_multiply(better, better));
    assert(can_multiply(worse, better));
    assert(a.key() <= outcome(times, worse, better).key());
    assert(outcome(times, worse, better).key() <= b.key());
    assert(can_multiply(ours, a) && can_multiply(ours, b));
    assert(outcome(times, ours, a).key() <= outcome(times, ours, b).key());
    let c = outcome(times, num(D0_5), worse);
    let d = outcome(times, num(D0_5), better);
    assert(can_multiply(num(D0_5), worse) && can_multiply(num(D0_5), better));
    assert(c.key() <= d.key());
    negation_mirrors(c);
    negation_mirrors(d);
    let e = outcome(plus, num(D1_6), c.negated());
    let f = outcome(plus, num(D1_6), d.negated());
    assert(f.key() <= e.key());
    assert(can_multiply(theirs, e) && can_multiply(theirs, f));
    assert(outcome(times, theirs, f).key() <= outcome(times, theirs, e).key());
}

/// Over a whole match with the same draws, line-ups that play with no less affinity in any period
/// score no fewer goals and concede no more.
pub proof fn better_line_ups_do_no_worse<
    P: Fn(Real64, Real64) -> Real64,
    M: Fn(Real64, Real64) -> Real64,
>(
    plus: P,
    times: M,
    opts: MatchSimOptions,
    worse: Seq<Real64>,
    better: Seq<Real64>,
    draws: Seq<(Real64, Real64)>,
    n: int,
)
    requires
        sums_keep_order(plus),
        products_keep_order(times),
        worse.len() == better.len(),
        draws.len() == opts.period_length() * worse.len(),
        forall|t: int|
            0 <= t < worse.len() ==> (#[trigger] worse[t]).finite() && better[t].finite() && 0
                <= worse[t].key() <= better[t].key(),
        opts.team_score_rate matches Some(rate) ==> rate.finite() && rate.key() > 0,
        opts.opp_score_rate matches Some(rate) ==> rate.finite() && rate.key() > 0,
        0 <= n <= draws.len(),
    ensures
        goals_us(minutes_from(plus, times, opts, worse, draws), n) <= goals_us(
            minutes_from(plus, times, opts, better, draws),
            n,
        ),
        goals_them(minutes_from(plus, times, opts, better, draws), n) <= goals_them(
            minutes_from(plus, times, opts, worse, draws),
            n,
        ),
    decreases n,
{
    if n > 0 {
        better_line_ups_do_no_worse(plus, times, opts, worse, better, draws, n - 1);
        let length = opts.period_length() as int;
        if length == 0 {
            assert(length * worse.len() == 0) by (nonlinear_arith)
                requires
                    length == 0,
            ;
        }
        minute_of_period(n - 1, length, worse.len() as int);
        let t = (n - 1) / length;
        assert(worse[t].finite());
        better_line_ups_concede_less(plus, times, opts, worse[t], better[t], draws[n - 1]);
    }
}

/// How likely goals are: in a minute we score where the first draw lies below our rate times the
/// square of the affinity, and concede where the second lies below their rate times what 1.6 is
/// above half of the affinity.
pub proof fn goals_fall_at_the_rates<
    P: Fn(Real64, Real64) -> Real64,
    M: Fn(Real64, Real64) -> Real64,
>(
    means: spec_fn(Real64, real) -> bool,
    plus: P,
    times: M,
    opts: MatchSimOptions,
    affinity: Real64,
    draws: (Real64, Real64),
    a: real,
    ours: real,
    theirs: real,
)
    requires
        is_faithful(means, plus, times),
        means(affinity, a),
        match opts.team_score_rate {
            Some(rate) => means(rate, ours),
            None => ours == 6real / 100real,
        },
        match opts.opp_score_rate {
            Some(rate) => means(rate, theirs),
            None => theirs == 4real / 100real,
        },
    ensures
        exists|us: Real64, them: Real64|
            {
                &&& #[trigger] means(us, ours * (a * a))
                &&& #[trigger] means(them, theirs * (16real / 10real - a / 2real))
                &&& minute_of(plus, times, opts, affinity, draws) == (MinuteGoals {
                    us: draws.0.less(us),
                    them: draws.1.less(them),
                })
            },
{
    decimals_are_read(means);
    let r = or_bits(opts.team_score_rate, D0_06);
    let s = or_bits(opts.opp_score_rate, D0_04);
    let us = outcome(times, r, outcome(times, affinity, affinity));
    let easing = outcome(plus, num(D1_6), outcome(times, num(D0_5), affinity).negated());
    let them = outcome(times, s, easing);
    assert(means(us, ours * (a * a)));
    assert(means(easing, 16real / 10real + -((1real / 2real) * a)));
    assert(16real / 10real + -((1real / 2real) * a) == 16real / 10real - a / 2real);
    assert(means(them, theirs * (16real / 10real - a / 2real)));
}

} // verus!
