//! From the vector of a solver back to a schedule.
use crate::number::Real64;
use crate::rotation::model::SoccerIPMIPModel;
use crate::rotation::problem::{Schedule, SoccerProblem};
use crate::rotation::rules::{
    bench_row, bench_runs_ok, entries, evaluable, evaluate_schedule, fair, field_row, long_bench,
    overlong, plays, short_stint, stamina_kept, stints_long_enough, subs_within, substitutions,
    unfair, ScheduleEvaluation,
};
use crate::rotation::structure::{
    faultless_is_well_formed, fields, find_schedule_fault, period_ok, schedule_ok,
};
use vstd::prelude::*;

verus! {

/// The schedule is well formed and keeps every rule but the bounds on substitutions.
pub open spec fn keeps_rules(problem: SoccerProblem, schedule: Schedule) -> bool {
    &&& schedule_ok(problem, schedule)
    &&& fair(problem, schedule)
    &&& bench_runs_ok(problem, schedule)
    &&& stamina_kept(problem, schedule)
    &&& stints_long_enough(problem, schedule)
}

/// The schedule is well formed and keeps every rule of the problem.
pub open spec fn lawful(problem: SoccerProblem, schedule: Schedule) -> bool {
    keeps_rules(problem, schedule) && subs_within(problem, schedule)
}

/// Two schedules line the same players up.
pub open spec fn same_line_ups(a: Schedule, b: Schedule) -> bool {
    &&& a.assignment@.len() == b.assignment@.len()
    &&& forall|t: int|
        0 <= t < a.assignment@.len() ==> (#[trigger] a.assignment@[t])@ == b.assignment@[t]@
}

/// Two schedules list the same players.
pub open spec fn same_lists(a: Schedule, b: Schedule) -> bool {
    &&& a.assignment@.len() == b.assignment@.len()
    &&& a.bench@.len() == b.bench@.len()
    &&& forall|t: int|
        0 <= t < a.assignment@.len() ==> (#[trigger] a.assignment@[t])@ == b.assignment@[t]@
    &&& forall|t: int| 0 <= t < a.bench@.len() ==> (#[trigger] a.bench@[t])@ == b.bench@[t]@
}

proof fn same_unfair(problem: SoccerProblem, a: Schedule, b: Schedule, n: int)
    requires
        same_lists(a, b),
        n <= a.bench@.len(),
    ensures
        unfair(problem, a.bench@, n) == unfair(problem, b.bench@, n),
    decreases n,
{
    if n > 1 {
        same_unfair(problem, a, b, n - 1);
    }
}

pub(crate) proof fn same_substitutions(a: Schedule, b: Schedule, n: int)
    requires
        same_line_ups(a, b),
        n <= a.assignment@.len(),
    ensures
        substitutions(a.assignment@, n) == substitutions(b.assignment@, n),
    decreases n,
{
    if n > 1 {
        same_substitutions(a, b, n - 1);
    }
}

pub(crate) proof fn line_ups_decide_runs(problem: SoccerProblem, a: Schedule, b: Schedule)
    requires
        same_line_ups(a, b),
        a.assignment@.len() == problem.num_periods,
        bench_runs_ok(problem, a),
        stamina_kept(problem, a),
        stints_long_enough(problem, a),
    ensures
        bench_runs_ok(problem, b),
        stamina_kept(problem, b),
        stints_long_enough(problem, b),
{
    let n = problem.num_periods as int;
    assert forall|p: int| #[trigger]
        field_row(problem, a, p) == field_row(problem, b, p) && bench_row(problem, a, p)
            == bench_row(problem, b, p) by {
        assert forall|t: int| 0 <= t < n implies plays(a, p, t) == plays(b, p, t) by {
            assert(a.assignment@[t]@ == b.assignment@[t]@);
            if plays(a, p, t) {
                let pos = choose|pos: int|
                    0 <= pos < a.assignment@[t]@.len() && #[trigger] a.assignment@[t]@[pos] == p;
                assert(b.assignment@[t]@[pos] == p);
            }
            if plays(b, p, t) {
                let pos = choose|pos: int|
                    0 <= pos < b.assignment@[t]@.len() && #[trigger] b.assignment@[t]@[pos] == p;
                assert(a.assignment@[t]@[pos] == p);
            }
        }
        assert(field_row(problem, a, p) =~= field_row(problem, b, p));
        assert(bench_row(problem, a, p) =~= bench_row(problem, b, p));
    }
    assert forall|p: int, s: int, e: int| !#[trigger] long_bench(problem, b, p, s, e) by {
        assert(field_row(problem, a, p) == field_row(problem, b, p));
        assert(!long_bench(problem, a, p, s, e));
    }
    assert forall|p: int, s: int, e: int| !#[trigger] overlong(problem, b, p, s, e) by {
        assert(field_row(problem, a, p) == field_row(problem, b, p));
        assert(!overlong(problem, a, p, s, e));
    }
    assert forall|p: int, s: int, e: int| !#[trigger] short_stint(problem, b, p, s, e) by {
        assert(field_row(problem, a, p) == field_row(problem, b, p));
        assert(!short_stint(problem, a, p, s, e));
    }
}

/// Whether a schedule keeps the rules depends on nothing but whom it lists.
pub proof fn lists_decide_lawfulness(problem: SoccerProblem, a: Schedule, b: Schedule)
    requires
        same_lists(a, b),
        lawful(problem, a),
    ensures
        lawful(problem, b),
{
    let n = problem.num_periods as int;
    assert(schedule_ok(problem, b)) by {
        assert forall|t: int| 0 <= t < n implies period_ok(
            problem,
            #[trigger] b.assignment@[t]@,
            b.bench@[t]@,
        ) by {
            assert(a.assignment@[t]@ == b.assignment@[t]@);
            assert(a.bench@[t]@ == b.bench@[t]@);
        }
    }
    same_unfair(problem, a, b, n);
    same_substitutions(a, b, n);
    line_ups_decide_runs(problem, a, b);
}

proof fn entries_of_equal_rows<T>(rows: Seq<Vec<T>>, k: int, n: int)
    requires
        0 <= n <= rows.len(),
        forall|t: int| 0 <= t < rows.len() ==> (#[trigger] rows[t])@.len() == k,
    ensures
        entries(rows, n) == k * n,
    decreases n,
{
    if n > 0 {
        entries_of_equal_rows(rows, k, n - 1);
        assert(k * (n - 1) + k == k * n) by (nonlinear_arith);
    } else {
        assert(k * 0 == 0);
    }
}

/// The lists of a problem's schedules are no longer than can be counted.
pub open spec fn lists_countable(problem: SoccerProblem) -> bool {
    &&& problem.num_positions * problem.num_periods <= usize::MAX
    &&& problem.bench_size * problem.num_periods <= usize::MAX
}

/// Whether a schedule is well formed and keeps every rule.
pub fn is_lawful(problem: &SoccerProblem, schedule: &Schedule) -> (b: bool)
    requires
        problem.has_affinities(),
        lists_countable(*problem),
    ensures
        b == lawful(*problem, *schedule),
{
    proof {
        faultless_is_well_formed(*problem, *schedule);
    }
    if find_schedule_fault(problem, schedule).is_some() {
        return false;
    }
    proof {
        let n = problem.num_periods as int;
        assert forall|t: int| 0 <= t < n implies (#[trigger] schedule.assignment@[t])@.len()
            == problem.num_positions && schedule.bench@[t]@.len() == problem.bench_size by {
            assert(period_ok(*problem, schedule.assignment@[t]@, schedule.bench@[t]@));
        }
        assert forall|t: int| 0 <= t < n implies (#[trigger] schedule.bench@[t])@.len()
            == problem.bench_size by {
            assert(schedule.assignment@[t]@.len() == problem.num_positions);
        }
        entries_of_equal_rows(schedule.assignment@, problem.num_positions as int, n);
        entries_of_equal_rows(schedule.bench@, problem.bench_size as int, n);
        assert forall|t: int, i: int|
            0 <= t < n && 0 <= i < schedule.bench@[t]@.len() implies #[trigger] schedule.bench@[t]@[i]
            < problem.num_players by {
            assert(period_ok(*problem, schedule.assignment@[t]@, schedule.bench@[t]@));
        }
        assert forall|t: int, pos: int|
            0 <= t < n && 0 <= pos < problem.num_positions implies 0
            <= #[trigger] schedule.assignment@[t]@[pos] < problem.num_players by {
            assert(period_ok(*problem, schedule.assignment@[t]@, schedule.bench@[t]@));
        }
        assert(evaluable(*problem, *schedule));
    }
    let eval: ScheduleEvaluation = evaluate_schedule(problem, schedule);
    eval.fairness_ok && eval.stamina_ok && eval.min_contiguous_on_field_violations.len() == 0
        && eval.subs_ok
}

/// The players below `n` whom a line-up leaves out, in order.
pub open spec fn left_out(row: Seq<i64>, n: int) -> Seq<usize>
    decreases n,
{
    if n <= 0 {
        Seq::empty()
    } else if fields(row, n - 1) {
        left_out(row, n - 1)
    } else {
        left_out(row, n - 1).push((n - 1) as usize)
    }
}

/// Lists the players whom a line-up leaves out.
pub fn bench_of(row: &Vec<i64>, num_players: usize) -> (bench: Vec<usize>)
    ensures
        bench@ == left_out(row@, num_players as int),
{
    let mut bench: Vec<usize> = Vec::new();
    let mut p: usize = 0;
    while p < num_players
        invariant
            p <= num_players,
            bench@ == left_out(row@, p as int),
        decreases num_players - p,
    {
        let mut found: bool = false;
        let mut i: usize = 0;
        while i < row.len()
            invariant
                i <= row@.len(),
                found == exists|j: int| 0 <= j < i && #[trigger] row@[j] == p,
            decreases row@.len() - i,
        {
            assert(row@[i as int] == row@[i as int]);
            if row[i] >= 0 && row[i] as u64 == p as u64 {
                found = true;
            }
            i += 1;
        }
        assert(found == fields(row@, p as int));
        if !found {
            bench.push(p);
        }
        p += 1;
    }
    bench
}

/// The player with the greatest value for a position above the threshold, the first of several,
/// and that value; -1 and the threshold where there is none.
pub open spec fn strongest(
    model: SoccerIPMIPModel,
    x: Seq<Real64>,
    threshold: Real64,
    position: int,
    period: int,
    players: int,
) -> (int, Real64)
    decreases players,
{
    if players <= 0 {
        (-1, threshold)
    } else {
        let best = strongest(model, x, threshold, position, period, players - 1);
        let value = x[model.column_number(players - 1, position, period)];
        if best.1.less(value) {
            (players - 1, value)
        } else {
            best
        }
    }
}

/// The row lists the strongest player of every position.
pub open spec fn is_strongest_row(
    problem: SoccerProblem,
    model: SoccerIPMIPModel,
    x: Seq<Real64>,
    threshold: Real64,
    row: Seq<i64>,
    period: int,
) -> bool {
    &&& row.len() == problem.num_positions
    &&& forall|pos: int|
        0 <= pos < row.len() ==> #[trigger] row[pos] == strongest(
            model,
            x,
            threshold,
            pos,
            period,
            problem.num_players as int,
        ).0
}

/// Every position of the period has a strongest player, and no player is that twice.
pub open spec fn period_decodes(
    problem: SoccerProblem,
    model: SoccerIPMIPModel,
    x: Seq<Real64>,
    threshold: Real64,
    period: int,
) -> bool {
    let who = |pos: int|
        strongest(model, x, threshold, pos, period, problem.num_players as int).0;
    &&& forall|pos: int| 0 <= pos < problem.num_positions ==> #[trigger] who(pos) >= 0
    &&& forall|a: int, b: int|
        0 <= a < b < problem.num_positions ==> #[trigger] who(a) != #[trigger] who(b)
}

/// The schedule is the one that the vector tells.
pub open spec fn is_decoded(
    problem: SoccerProblem,
    model: SoccerIPMIPModel,
    x: Seq<Real64>,
    threshold: Real64,
    schedule: Schedule,
) -> bool {
    &&& schedule.assignment@.len() == problem.num_periods
    &&& schedule.bench@.len() == problem.num_periods
    &&& forall|t: int|
        0 <= t < problem.num_periods ==> is_strongest_row(
            problem,
            model,
            x,
            threshold,
            #[trigger] schedule.assignment@[t]@,
            t,
        )
    &&& forall|t: int|
        0 <= t < problem.num_periods ==> (#[trigger] schedule.bench@[t])@ == left_out(
            schedule.assignment@[t]@,
            problem.num_players as int,
        )
}

proof fn strongest_is_a_player(
    model: SoccerIPMIPModel,
    x: Seq<Real64>,
    threshold: Real64,
    position: int,
    period: int,
    players: int,
)
    requires
        0 <= players,
    ensures
        -1 <= strongest(model, x, threshold, position, period, players).0 < players,
    decreases players,
{
    if players > 0 {
        strongest_is_a_player(model, x, threshold, position, period, players - 1);
    }
}

fn strongest_of(
    problem: &SoccerProblem,
    model: &SoccerIPMIPModel,
    x: &Vec<Real64>,
    threshold: Real64,
    position: usize,
    period: usize,
) -> (chosen: i64)
    requires
        model.num_positions == problem.num_positions,
        model.num_periods == problem.num_periods,
        problem.num_players * problem.num_positions <= usize::MAX,
        problem.num_players * problem.num_positions * problem.num_periods <= x@.len(),
        problem.num_players <= i64::MAX,
        position < problem.num_positions,
        period < problem.num_periods,
    ensures
        chosen == strongest(
            *model,
            x@,
            threshold,
            position as int,
            period as int,
            problem.num_players as int,
        ).0,
{
    let mut chosen: i64 = -1;
    let mut best: Real64 = threshold;
    let size: usize = x.len();
    let mut p: usize = 0;
    while p < problem.num_players
        invariant
            size == x@.len(),
            p <= problem.num_players,
            problem.num_players <= i64::MAX,
            model.num_positions == problem.num_positions,
            model.num_periods == problem.num_periods,
            problem.num_players * problem.num_positions <= usize::MAX,
            problem.num_players * problem.num_positions * problem.num_periods <= x@.len(),
            position < problem.num_positions,
            period < problem.num_periods,
            (chosen as int, best) == strongest(
                *model,
                x@,
                threshold,
                position as int,
                period as int,
                p as int,
            ),
        decreases problem.num_players - p,
    {
        proof {
            let n = problem.num_players as int;
            let k = problem.num_positions as int;
            let t = problem.num_periods as int;
            let q = p * k + position;
            assert(0 <= q < n * k) by (nonlinear_arith)
                requires
                    0 <= p < n,
                    0 <= position < k,
                    q == p * k + position,
            ;
            assert(0 <= q * t + period < n * k * t) by (nonlinear_arith)
                requires
                    0 <= q < n * k,
                    0 <= period < t,
            ;
        }
        let value: Real64 = x[model.variable_index(p, position, period)];
        if best.is_below(value) {
            best = value;
            chosen = p as i64;
        }
        p += 1;
    }
    chosen
}

/// The vector holds no lawful schedule: it is not one of the model, leaves a position of some
/// period to nobody or to somebody who has one, or reads as a schedule that breaks a rule.
pub open spec fn undecodable(
    problem: SoccerProblem,
    model: SoccerIPMIPModel,
    x: Seq<Real64>,
    threshold: Real64,
) -> bool {
    ||| x.len() != model.ip.c@.len()
    ||| exists|t: int|
        0 <= t < problem.num_periods && !#[trigger] period_decodes(problem, model, x, threshold, t)
    ||| exists|s: Schedule| #[trigger]
        is_decoded(problem, model, x, threshold, s) && !lawful(problem, s)
}

/// Decodes the vector of a solver: in every period each position goes to its strongest player.
/// There is a schedule where that is one player for each position and the schedule is lawful.
pub fn schedule_from_soccer_ipmip_vector(
    problem: &SoccerProblem,
    model: &SoccerIPMIPModel,
    x: &Vec<Real64>,
    threshold: Real64,
) -> (r: Option<Schedule>)
    requires
        problem.has_affinities(),
        lists_countable(*problem),
        model.num_positions == problem.num_positions,
        model.num_periods == problem.num_periods,
        problem.num_players * problem.num_positions <= usize::MAX,
        problem.num_players * problem.num_positions * problem.num_periods <= model.ip.c@.len(),
        problem.num_players <= i64::MAX,
    ensures
        r is Some ==> {
            &&& x@.len() == model.ip.c@.len()
            &&& is_decoded(*problem, *model, x@, threshold, r->0)
            &&& lawful(*problem, r->0)
        },
        r is None ==> undecodable(*problem, *model, x@, threshold),
{
    if x.len() != model.ip.c.len() {
        return None;
    }
    let mut assignment: Vec<Vec<i64>> = Vec::new();
    let mut bench: Vec<Vec<usize>> = Vec::new();
    let mut t: usize = 0;
    while t < problem.num_periods
        invariant
            t <= problem.num_periods,
            x@.len() == model.ip.c@.len(),
            model.num_positions == problem.num_positions,
            model.num_periods == problem.num_periods,
            problem.num_players * problem.num_positions <= usize::MAX,
            problem.num_players * problem.num_positions * problem.num_periods <= model.ip.c@.len(),
            problem.num_players <= i64::MAX,
            assignment@.len() == t,
            bench@.len() == t,
            forall|u: int|
                0 <= u < t ==> is_strongest_row(
                    *problem,
                    *model,
                    x@,
                    threshold,
                    #[trigger] assignment@[u]@,
                    u,
                ),
            forall|u: int|
                0 <= u < t ==> (#[trigger] bench@[u])@ == left_out(
                    assignment@[u]@,
                    problem.num_players as int,
                ),
        decreases problem.num_periods - t,
    {
        let mut row: Vec<i64> = Vec::new();
        let mut pos: usize = 0;
        while pos < problem.num_positions
            invariant
                pos <= problem.num_positions,
                t < problem.num_periods,
                x@.len() == model.ip.c@.len(),
                model.num_positions == problem.num_positions,
                model.num_periods == problem.num_periods,
                problem.num_players * problem.num_positions <= usize::MAX,
                problem.num_players * problem.num_positions * problem.num_periods
                    <= model.ip.c@.len(),
                problem.num_players <= i64::MAX,
                row@.len() == pos,
                forall|q: int|
                    0 <= q < pos ==> #[trigger] row@[q] == strongest(
                        *model,
                        x@,
                        threshold,
                        q,
                        t as int,
                        problem.num_players as int,
                    ).0,
            decreases problem.num_positions - pos,
        {
            let chosen: i64 = strongest_of(problem, model, x, threshold, pos, t);
            let ghost who = |q: int|
                strongest(*model, x@, threshold, q, t as int, problem.num_players as int).0;
            if chosen < 0 {
                assert(who(pos as int) < 0);
                assert(!period_decodes(*problem, *model, x@, threshold, t as int));
                return None;
            }
            let mut i: usize = 0;
            while i < pos
                invariant
                    i <= pos,
                    t < problem.num_periods,
                    pos < problem.num_positions,
                    row@.len() == pos,
                    chosen == strongest(
                        *model,
                        x@,
                        threshold,
                        pos as int,
                        t as int,
                        problem.num_players as int,
                    ).0,
                    forall|q: int|
                        0 <= q < pos ==> #[trigger] row@[q] == strongest(
                            *model,
                            x@,
                            threshold,
                            q,
                            t as int,
                            problem.num_players as int,
                        ).0,
                decreases pos - i,
            {
                if row[i] == chosen {
                    proof {
                        let who = |q: int|
                            strongest(
                                *model,
                                x@,
                                threshold,
                                q,
                                t as int,
                                problem.num_players as int,
                            ).0;
                        assert(who(i as int) == who(pos as int));
                        assert(!period_decodes(*problem, *model, x@, threshold, t as int));
                    }
                    return None;
                }
                i += 1;
            }
            row.push(chosen);
            pos += 1;
        }
        bench.push(bench_of(&row, problem.num_players));
        assignment.push(row);
        t += 1;
    }
    let schedule: Schedule = Schedule { assignment, bench };
    if is_lawful(problem, &schedule) {
        Some(schedule)
    } else {
        assert(is_decoded(*problem, *model, x@, threshold, schedule));
        None
    }
}

/// A vector tells one schedule: two that it tells list the same players, so that both are lawful
/// or neither is.
pub proof fn decoding_is_unique(
    problem: SoccerProblem,
    model: SoccerIPMIPModel,
    x: Seq<Real64>,
    threshold: Real64,
    a: Schedule,
    b: Schedule,
)
    requires
        is_decoded(problem, model, x, threshold, a),
        is_decoded(problem, model, x, threshold, b),
    ensures
        same_lists(a, b),
        lawful(problem, a) == lawful(problem, b),
{
    assert forall|t: int| 0 <= t < problem.num_periods implies (#[trigger] a.assignment@[t])@
        == b.assignment@[t]@ by {
        assert(is_strongest_row(problem, model, x, threshold, a.assignment@[t]@, t));
        assert(is_strongest_row(problem, model, x, threshold, b.assignment@[t]@, t));
        assert(a.assignment@[t]@ =~= b.assignment@[t]@);
    }
    assert forall|t: int| 0 <= t < problem.num_periods implies (#[trigger] a.bench@[t])@
        == b.bench@[t]@ by {
        assert(a.assignment@[t]@ == b.assignment@[t]@);
    }
    if lawful(problem, a) {
        lists_decide_lawfulness(problem, a, b);
    }
    if lawful(problem, b) {
        lists_decide_lawfulness(problem, b, a);
    }
}

/// The vector can be rounded: the objective and as many values as there are variables are
/// finite.
pub fn soccer_lp_solution_is_roundable(
    x: &Vec<Real64>,
    objective: Real64,
    expected_variables: usize,
) -> (b: bool)
    ensures
        b == {
            &&& objective.finite()
            &&& x@.len() >= expected_variables
            &&& forall|v: int| 0 <= v < expected_variables ==> (#[trigger] x@[v]).finite()
        },
{
    if !objective.is_finite() || x.len() < expected_variables {
        return false;
    }
    let mut v: usize = 0;
    while v < expected_variables
        invariant
            v <= expected_variables,
            expected_variables <= x@.len(),
            forall|w: int| 0 <= w < v ==> (#[trigger] x@[w]).finite(),
        decreases expected_variables - v,
    {
        if !x[v].is_finite() {
            return false;
        }
        v += 1;
    }
    true
}

} // verus!
