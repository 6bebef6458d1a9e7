//! What the objectives of the programs are worth at the point of a schedule.
use crate::number::{num, outcome, sum_up, Real64};
use crate::rotation::decode::keeps_rules;
use crate::rotation::model::{
    base_score, fill_weight, models, objective_entry, relaxes, rules_in_range, scores_its_cell,
    LPProblem, SoccerIPMIPModel,
};
use crate::rotation::points::{
    are_together, field, field_sum, flag, holders, matrices_hold_the_rows, matrix_total, off_sum,
    on_sum, point_of, relaxation_admits_lawful_schedules, sum_by_blocks,
};
use crate::rotation::problem::{cell_score, rule_count, Schedule, SoccerProblem};
use crate::rotation::rows::{
    column_at, columns, columns_are_countable, countable, field_columns, Column, Program,
};
use crate::rotation::rules::{evaluates, period_sums, ScheduleEvaluation};
use crate::rotation::structure::{period_ok, schedule_ok};
use crate::sums::{total, total_one, total_plus, total_same, total_swap, total_zero};
use vstd::prelude::*;

verus! {

/// What an objective is worth at a point, where `worth` values its entries.
pub open spec fn objective_total(
    problem: SoccerProblem,
    c: Seq<Real64>,
    x: spec_fn(Column) -> int,
    worth: spec_fn(Real64) -> int,
) -> int {
    total(|v: int| worth(c[v]) * x(column_at(problem, v)), c.len() as int)
}

/// What the cells of a schedule are worth: every position of every period at its score.
pub open spec fn cells_total(
    problem: SoccerProblem,
    schedule: Schedule,
    worth: spec_fn(Real64) -> int,
) -> int {
    total(
        |t: int|
            total(
                |pos: int| worth(score_at(problem, schedule, pos, t)),
                problem.num_positions as int,
            ),
        problem.num_periods as int,
    )
}

/// The score of whoever holds a position in a period.
pub open spec fn score_at(problem: SoccerProblem, schedule: Schedule, pos: int, t: int) -> Real64 {
    let row = schedule.assignment@[t]@;
    cell_score(problem, row, row[pos] as int, pos, t, rule_count(problem))
}

/// Over the columns of positions only the holders count.
proof fn holders_count(
    problem: SoccerProblem,
    schedule: Schedule,
    h: spec_fn(Column) -> int,
    g: spec_fn(int, int, int) -> int,
)
    requires
        schedule_ok(problem, schedule),
        forall|p: int, pos: int, t: int|
            0 <= p < problem.num_players && 0 <= pos < problem.num_positions && 0 <= t
                < problem.num_periods ==> h(#[trigger] field(p, pos, t)) == g(p, pos, t) * flag(
                schedule.assignment@[t]@[pos] == p,
            ),
    ensures
        field_sum(problem, h) == total(
            |t: int|
                total(
                    |pos: int| g(schedule.assignment@[t]@[pos] as int, pos, t),
                    problem.num_positions as int,
                ),
            problem.num_periods as int,
        ),
{
    let n = problem.num_players as int;
    let k = problem.num_positions as int;
    let m = problem.num_periods as int;
    let cells = |p: int, pos: int| total(|t: int| h(field(p, pos, t)), m);
    total_swap(cells, n, k);
    let by_player = |p: int| total(|pos: int| cells(p, pos), k);
    let by_player_too = |p: int| total(|pos: int| total(|t: int| h(field(p, pos, t)), m), k);
    assert forall|p: int| 0 <= p < n implies #[trigger] by_player(p) == by_player_too(p) by {
        total_same(
            |pos: int| cells(p, pos),
            |pos: int| total(|t: int| h(field(p, pos, t)), m),
            k,
        );
    }
    total_same(by_player, by_player_too, n);
    let held = |pos: int, t: int| g(schedule.assignment@[t]@[pos] as int, pos, t);
    let by_position = |pos: int| total(|p: int| cells(p, pos), n);
    let held_at = |pos: int| total(|t: int| held(pos, t), m);
    assert forall|pos: int| 0 <= pos < k implies #[trigger] by_position(pos) == held_at(pos) by {
        let one = |p: int, t: int| h(field(p, pos, t));
        total_swap(one, n, m);
        let a = |p: int| cells(p, pos);
        let b = |p: int| total(|t: int| one(p, t), m);
        assert forall|p: int| 0 <= p < n implies #[trigger] a(p) == b(p) by {
            total_same(|t: int| h(field(p, pos, t)), |t: int| one(p, t), m);
        }
        total_same(a, b, n);
        let c = |t: int| total(|p: int| one(p, t), n);
        let d = |t: int| held(pos, t);
        assert forall|t: int| 0 <= t < m implies #[trigger] c(t) == d(t) by {
            let row = schedule.assignment@[t]@;
            assert(period_ok(problem, schedule.assignment@[t]@, schedule.bench@[t]@));
            let q = row[pos] as int;
            assert(0 <= row[pos] < n);
            let f = |p: int| one(p, t);
            assert forall|p: int| 0 <= p < n && p != q implies #[trigger] f(p) == 0 by {
                assert(h(field(p, pos, t)) == g(p, pos, t) * 0);
            }
            assert(f(q) == held(pos, t)) by {
                assert(h(field(q, pos, t)) == g(q, pos, t) * 1);
            }
            total_one(f, n, q);
        }
        total_same(c, d, m);
    }
    total_same(by_position, held_at, k);
    total_swap(held, k, m);
    let goal = |t: int| total(|pos: int| g(schedule.assignment@[t]@[pos] as int, pos, t), k);
    let turned = |t: int| total(|pos: int| held(pos, t), k);
    assert forall|t: int| 0 <= t < m implies #[trigger] turned(t) == goal(t) by {
        total_same(
            |pos: int| held(pos, t),
            |pos: int| g(schedule.assignment@[t]@[pos] as int, pos, t),
            k,
        );
    }
    total_same(turned, goal, m);
}

/// The relaxation of a problem without synergy rules is worth at the point of a schedule what the
/// cells of the schedule are worth, whatever the scores are worth.
pub proof fn relaxation_is_worth_the_schedule(
    problem: SoccerProblem,
    lp: LPProblem,
    schedule: Schedule,
    worth: spec_fn(Real64) -> int,
)
    requires
        countable(problem),
        rule_count(problem) == 0,
        schedule_ok(problem, schedule),
        relaxes(problem, lp),
    ensures
        objective_total(problem, lp.c@, point_of(problem, schedule), worth) == cells_total(
            problem,
            schedule,
            worth,
        ),
{
    columns_are_countable(problem);
    let x = point_of(problem, schedule);
    let k = problem.num_positions as int;
    let g = |p: int, pos: int, t: int| worth(problem.affinity@[p]@[pos]@[t]);
    let h = |c: Column|
        match c {
            Column::Field { player, position, period } => g(
                player as int,
                position as int,
                period as int,
            ) * x(c),
            _ => 0,
        };
    sum_by_blocks(problem, Program::Relaxation, h);
    total_same(
        |v: int| worth(lp.c@[v]) * x(column_at(problem, v)),
        |v: int| h(column_at(problem, v)),
        field_columns(problem),
    );
    holders_count(problem, schedule, h, g);
    let a = |t: int| total(|pos: int| g(schedule.assignment@[t]@[pos] as int, pos, t), k);
    let b = |t: int| total(|pos: int| worth(score_at(problem, schedule, pos, t)), k);
    assert forall|t: int| 0 <= t < problem.num_periods implies #[trigger] a(t) == b(t) by {
        total_same(
            |pos: int| g(schedule.assignment@[t]@[pos] as int, pos, t),
            |pos: int| worth(score_at(problem, schedule, pos, t)),
            k,
        );
    }
    total_same(a, b, problem.num_periods as int);
}

/// A point satisfies the inequalities, the equations and the bounds of a linear program.
pub open spec fn feasible(
    problem: SoccerProblem,
    lp: LPProblem,
    x: spec_fn(Column) -> int,
) -> bool {
    &&& forall|r: int|
        0 <= r < lp.a_ub@.len() ==> matrix_total(problem, (#[trigger] lp.a_ub@[r])@, x)
            <= lp.b_ub@[r]
    &&& forall|e: int|
        0 <= e < lp.a_eq@.len() ==> matrix_total(problem, (#[trigger] lp.a_eq@[e])@, x)
            == lp.b_eq@[e]
    &&& forall|v: int|
        0 <= v < lp.ub@.len() ==> 0 <= x(#[trigger] column_at(problem, v)) <= lp.ub@[v]
}

/// An equation of the relaxation counts the holders of a position in a period.
proof fn equations_count_holders(
    problem: SoccerProblem,
    lp: LPProblem,
    x: spec_fn(Column) -> int,
    e: int,
)
    requires
        countable(problem),
        relaxes(problem, lp),
        0 <= e < lp.a_eq@.len(),
    ensures
        0 <= e / (problem.num_periods as int) < problem.num_positions,
        0 <= e % (problem.num_periods as int) < problem.num_periods,
        matrix_total(problem, lp.a_eq@[e]@, x) == holders(
            problem,
            x,
            e / (problem.num_periods as int),
            e % (problem.num_periods as int),
        ),
{
    columns_are_countable(problem);
    let n = problem.num_players as int;
    let k = problem.num_positions as int;
    let m = problem.num_periods as int;
    assert(m > 0) by (nonlinear_arith)
        requires
            0 <= e < k * m,
            0 <= k,
            0 <= m,
    ;
    let position = e / m;
    let period = e % m;
    assert(0 <= position < k && 0 <= period < m) by (nonlinear_arith)
        requires
            0 <= e < k * m,
            m > 0,
            position == e / m,
            period == e % m,
    ;
    let h = |c: Column| fill_weight(problem, e, c) * x(c);
    let row = lp.a_eq@[e]@;
    sum_by_blocks(problem, Program::Relaxation, h);
    let a = |v: int| row[v] * x(column_at(problem, v));
    let b = |v: int| h(column_at(problem, v));
    assert forall|v: int| 0 <= v < row.len() implies #[trigger] a(v) == b(v) by {
        assert(lp.a_eq@[e]@[v] == fill_weight(problem, e, column_at(problem, v)));
    }
    total_same(a, b, row.len() as int);
    let by_player = |p: int| total(|pos: int| total(|t: int| h(field(p, pos, t)), m), k);
    let goal = |p: int| x(field(p, position, period));
    assert forall|p: int| 0 <= p < n implies #[trigger] by_player(p) == goal(p) by {
        let inner = |pos: int| total(|t: int| h(field(p, pos, t)), m);
        assert forall|pos: int| 0 <= pos < k && pos != position implies #[trigger] inner(pos)
            == 0 by {
            let cell = |t: int| h(field(p, pos, t));
            assert forall|t: int| 0 <= t < m implies #[trigger] cell(t) == 0 by {
                assert(fill_weight(problem, e, field(p, pos, t)) == 0);
            }
            total_zero(cell, m);
        }
        total_one(inner, k, position);
        let cell = |t: int| h(field(p, position, t));
        assert forall|t: int| 0 <= t < m && t != period implies #[trigger] cell(t) == 0 by {
            assert(fill_weight(problem, e, field(p, position, t)) == 0);
        }
        total_one(cell, m, period);
        assert(fill_weight(problem, e, field(p, position, period)) == 1);
    }
    total_same(by_player, goal, n);
}

/// The point of every schedule that keeps the rules is feasible for the relaxation.
pub proof fn schedules_are_feasible(problem: SoccerProblem, lp: LPProblem, schedule: Schedule)
    requires
        countable(problem),
        keeps_rules(problem, schedule),
        relaxes(problem, lp),
    ensures
        feasible(problem, lp, point_of(problem, schedule)),
{
    let x = point_of(problem, schedule);
    relaxation_admits_lawful_schedules(problem, schedule);
    matrices_hold_the_rows(
        problem,
        Program::Relaxation,
        lp.rows@,
        lp.a_ub@,
        lp.b_ub@,
        x,
    );
    assert forall|e: int| 0 <= e < lp.a_eq@.len() implies matrix_total(
        problem,
        (#[trigger] lp.a_eq@[e])@,
        x,
    ) == lp.b_eq@[e] by {
        equations_count_holders(problem, lp, x, e);
    }
}

/// No schedule that keeps the rules of a problem without synergy rules is worth more than a bound
/// on the relaxation, such as its optimum.
pub proof fn the_relaxation_bounds_schedules(
    problem: SoccerProblem,
    lp: LPProblem,
    schedule: Schedule,
    worth: spec_fn(Real64) -> int,
    bound: int,
)
    requires
        countable(problem),
        rule_count(problem) == 0,
        keeps_rules(problem, schedule),
        relaxes(problem, lp),
        forall|x: spec_fn(Column) -> int| #[trigger]
            feasible(problem, lp, x) ==> objective_total(problem, lp.c@, x, worth) <= bound,
    ensures
        cells_total(problem, schedule, worth) <= bound,
{
    schedules_are_feasible(problem, lp, schedule);
    relaxation_is_worth_the_schedule(problem, lp, schedule, worth);
}

/// The last of the first `n` rules that is for a player and a position, or -1.
pub open spec fn last_rule(problem: SoccerProblem, player: int, position: int, n: int) -> int
    decreases n,
{
    if n <= 0 {
        -1
    } else {
        let rule = problem.synergy_rules->0@[n - 1];
        if rule.player == player && rule.position == position {
            n - 1
        } else {
            last_rule(problem, player, position, n - 1)
        }
    }
}

proof fn the_last_rule_scores(
    problem: SoccerProblem,
    row: Seq<i64>,
    player: int,
    position: int,
    t: int,
    n: int,
)
    requires
        0 <= n <= rule_count(problem),
    ensures
        ({
            let i = last_rule(problem, player, position, n);
            let rules = problem.synergy_rules->0@;
            let with = cell_score(problem, row, player, position, t, n);
            let without = base_score(problem, player, position, t, n);
            &&& -1 <= i < n
            &&& i == -1 ==> with == without
            &&& i >= 0 ==> {
                &&& rules[i].player == player
                &&& rules[i].position == position
                &&& without == rules[i].score_without
                &&& with == if rules[i].partner_position < row.len()
                    && row[rules[i].partner_position as int] == rules[i].partner_player {
                    rules[i].score_with
                } else {
                    rules[i].score_without
                }
            }
            &&& forall|j: int|
                i < j < n ==> !((#[trigger] rules[j]).player == player && rules[j].position
                    == position)
        }),
    decreases n,
{
    if n > 0 {
        the_last_rule_scores(problem, row, player, position, t, n - 1);
    }
}

/// What the rules add at a position of a period: the gain of the rule that scores the cell, where
/// the partner is there.
spec fn bonus(
    problem: SoccerProblem,
    schedule: Schedule,
    worth: spec_fn(Real64) -> int,
    pos: int,
    t: int,
) -> int {
    let row = schedule.assignment@[t]@;
    worth(score_at(problem, schedule, pos, t)) - worth(
        base_score(problem, row[pos] as int, pos, t, rule_count(problem)),
    )
}

/// `worth` takes the gain of every rule apart.
pub open spec fn tells_gains<P: Fn(Real64, Real64) -> Real64>(
    problem: SoccerProblem,
    plus: P,
    worth: spec_fn(Real64) -> int,
) -> bool {
    &&& worth(Real64 { bits: 0 }) == 0
    &&& forall|i: int|
        0 <= i < rule_count(problem) ==> {
            let rule = #[trigger] problem.synergy_rules->0@[i];
            worth(outcome(plus, rule.score_with, rule.score_without.negated())) == worth(
                rule.score_with,
            ) - worth(rule.score_without)
        }
}

/// What a rule adds in a period.
spec fn paid<P: Fn(Real64, Real64) -> Real64>(
    problem: SoccerProblem,
    plus: P,
    schedule: Schedule,
    worth: spec_fn(Real64) -> int,
    i: int,
    t: int,
) -> int {
    worth(
        objective_entry(problem, plus, Column::Together { rule: i as usize, period: t as usize }),
    ) * flag(are_together(problem, schedule, i, t))
}

proof fn rules_pay_the_bonus<P: Fn(Real64, Real64) -> Real64>(
    problem: SoccerProblem,
    plus: P,
    schedule: Schedule,
    worth: spec_fn(Real64) -> int,
    t: int,
)
    requires
        rules_in_range(problem),
        schedule_ok(problem, schedule),
        tells_gains(problem, plus, worth),
        rule_count(problem) <= usize::MAX,
        0 <= t < problem.num_periods,
    ensures
        total(|i: int| paid(problem, plus, schedule, worth, i, t), rule_count(problem)) == total(
            |pos: int| bonus(problem, schedule, worth, pos, t),
            problem.num_positions as int,
        ),
{
    let n = rule_count(problem);
    let k = problem.num_positions as int;
    let rules = problem.synergy_rules->0@;
    let row = schedule.assignment@[t]@;
    assert(period_ok(problem, schedule.assignment@[t]@, schedule.bench@[t]@));
    let one = |i: int| paid(problem, plus, schedule, worth, i, t);
    let cell = |i: int, pos: int|
        if pos == rules[i].position {
            one(i)
        } else {
            0
        };
    let spread = |i: int| total(|pos: int| cell(i, pos), k);
    assert forall|i: int| 0 <= i < n implies #[trigger] one(i) == spread(i) by {
        assert(rules[i].position < k);
        total_one(|pos: int| cell(i, pos), k, rules[i].position as int);
    }
    total_same(one, spread, n);
    total_swap(cell, n, k);
    let gathered = |pos: int| total(|i: int| cell(i, pos), n);
    let goal = |pos: int| bonus(problem, schedule, worth, pos, t);
    assert forall|pos: int| 0 <= pos < k implies #[trigger] gathered(pos) == goal(pos) by {
        let f = |i: int| cell(i, pos);
        let player = row[pos] as int;
        the_last_rule_scores(problem, row, player, pos, t, n);
        let last = last_rule(problem, player, pos, n);
        assert forall|i: int| 0 <= i < n && i != last implies #[trigger] f(i) == 0 by {
            if pos == rules[i].position && are_together(problem, schedule, i, t) {
                assert(rules[i].player == player);
                assert(rules[last].player == rules[i].player);
                assert(!scores_its_cell(problem, i));
                assert(one(i) == 0 * 1);
            } else if pos == rules[i].position {
                let w = worth(
                    objective_entry(
                        problem,
                        plus,
                        Column::Together { rule: i as usize, period: t as usize },
                    ),
                );
                assert(one(i) == w * 0);
                assert(w * 0 == 0) by (nonlinear_arith);
            }
        }
        if last == -1 {
            total_zero(f, n);
        } else {
            total_one(f, n, last);
            let rule = rules[last];
            assert(scores_its_cell(problem, last));
            assert(rule.partner_position < k);
            let w = worth(outcome(plus, rule.score_with, rule.score_without.negated()));
            assert(w == worth(rule.score_with) - worth(rule.score_without));
            assert(f(last) == w * flag(are_together(problem, schedule, last, t)));
            assert(w * 1 == w && w * 0 == 0) by (nonlinear_arith);
        }
    }
    total_same(gathered, goal, k);
}

/// The exact program is worth at the point of a schedule what the cells of the schedule are worth,
/// for every worth that takes the gains of the rules apart. Where several rules are for one player
/// and position, both go by the last.
pub proof fn program_is_worth_the_schedule<P: Fn(Real64, Real64) -> Real64>(
    problem: SoccerProblem,
    plus: P,
    m: SoccerIPMIPModel,
    schedule: Schedule,
    worth: spec_fn(Real64) -> int,
)
    requires
        countable(problem),
        rules_in_range(problem),
        schedule_ok(problem, schedule),
        models(problem, plus, m),
        tells_gains(problem, plus, worth),
    ensures
        objective_total(problem, m.ip.c@, point_of(problem, schedule), worth) == cells_total(
            problem,
            schedule,
            worth,
        ),
{
    columns_are_countable(problem);
    let x = point_of(problem, schedule);
    let n = problem.num_players as int;
    let k = problem.num_positions as int;
    let periods = problem.num_periods as int;
    let h = |c: Column| worth(objective_entry(problem, plus, c)) * x(c);
    sum_by_blocks(problem, Program::Exact, h);
    total_same(
        |v: int| worth(m.ip.c@[v]) * x(column_at(problem, v)),
        |v: int| h(column_at(problem, v)),
        columns(problem, Program::Exact),
    );
    off_field_is_worth_nothing(problem, h);
    let g = |p: int, pos: int, t: int| worth(base_score(problem, p, pos, t, rule_count(problem)));
    holders_count(problem, schedule, h, g);
    let without = |t: int| total(|pos: int| g(schedule.assignment@[t]@[pos] as int, pos, t), k);
    let more = |t: int| total(|pos: int| bonus(problem, schedule, worth, pos, t), k);
    let goal = |t: int| total(|pos: int| worth(score_at(problem, schedule, pos, t)), k);
    let pay = |i: int, t: int| paid(problem, plus, schedule, worth, i, t);
    let rules = rule_count(problem);
    if periods > 0 {
        assert(rules <= usize::MAX) by (nonlinear_arith)
            requires
                rules * periods <= usize::MAX,
                periods > 0,
                rules >= 0,
        ;
    }
    total_swap(pay, rules, periods);
    let a = |i: int|
        total(|t: int| h(Column::Together { rule: i as usize, period: t as usize }), periods);
    let b = |i: int| total(|t: int| pay(i, t), periods);
    assert forall|i: int| 0 <= i < rules implies #[trigger] a(i) == b(i) by {
        total_same(
            |t: int| h(Column::Together { rule: i as usize, period: t as usize }),
            |t: int| pay(i, t),
            periods,
        );
    }
    total_same(a, b, rules);
    let c = |t: int| total(|i: int| pay(i, t), rules);
    assert forall|t: int| 0 <= t < periods implies #[trigger] c(t) == more(t) by {
        rules_pay_the_bonus(problem, plus, schedule, worth, t);
        total_same(
            |i: int| pay(i, t),
            |i: int| paid(problem, plus, schedule, worth, i, t),
            rules,
        );
    }
    total_same(c, more, periods);
    total_plus(without, more, periods);
    let both = |t: int| without(t) + more(t);
    assert forall|t: int| 0 <= t < periods implies #[trigger] both(t) == goal(t) by {
        let u = |pos: int| g(schedule.assignment@[t]@[pos] as int, pos, t);
        let v = |pos: int| bonus(problem, schedule, worth, pos, t);
        total_plus(u, v, k);
        total_same(
            |pos: int| u(pos) + v(pos),
            |pos: int| worth(score_at(problem, schedule, pos, t)),
            k,
        );
    }
    total_same(both, goal, periods);
}

/// The columns of who is on and who was taken off are worth nothing.
proof fn off_field_is_worth_nothing(problem: SoccerProblem, h: spec_fn(Column) -> int)
    requires
        forall|c: Column| c is On || c is Off ==> #[trigger] h(c) == 0,
    ensures
        on_sum(problem, h) == 0,
        off_sum(problem, h) == 0,
{
    let n = problem.num_players as int;
    let m = problem.num_periods as int;
    let on = |p: int|
        total(|t: int| h(Column::On { player: p as usize, period: t as usize }), m);
    let off = |p: int|
        total(|t: int| h(Column::Off { player: p as usize, period: (t + 1) as usize }), m - 1);
    assert forall|p: int| 0 <= p < n implies #[trigger] on(p) == 0 by {
        total_zero(|t: int| h(Column::On { player: p as usize, period: t as usize }), m);
    }
    assert forall|p: int| 0 <= p < n implies #[trigger] off(p) == 0 by {
        total_zero(
            |t: int| h(Column::Off { player: p as usize, period: (t + 1) as usize }),
            m - 1,
        );
    }
    total_zero(on, n);
    total_zero(off, n);
}

/// `worth` adds up along the sum of a list: no step of the sum is rounded.
pub open spec fn adds_up<P: Fn(Real64, Real64) -> Real64>(
    plus: P,
    worth: spec_fn(Real64) -> int,
    s: Seq<Real64>,
) -> bool {
    &&& worth(num(0)) == 0
    &&& forall|n: int|
        0 <= n < s.len() ==> worth(outcome(plus, #[trigger] sum_up(plus, s, n), s[n])) == worth(
            sum_up(plus, s, n),
        ) + worth(s[n])
}

proof fn sums_are_worth_their_terms<P: Fn(Real64, Real64) -> Real64>(
    plus: P,
    worth: spec_fn(Real64) -> int,
    s: Seq<Real64>,
    n: int,
)
    requires
        adds_up(plus, worth, s),
        0 <= n <= s.len(),
    ensures
        worth(sum_up(plus, s, n)) == total(|i: int| worth(s[i]), n),
    decreases n,
{
    if n > 0 {
        sums_are_worth_their_terms(plus, worth, s, n - 1);
    }
}

/// The affinity sum of an evaluated schedule is worth what its cells are worth, for every worth
/// that adds up along the sums of the periods and along the sum of those.
pub proof fn sums_are_worth_their_cells<P: Fn(Real64, Real64) -> Real64>(
    problem: SoccerProblem,
    plus: P,
    schedule: Schedule,
    evaluation: ScheduleEvaluation,
    worth: spec_fn(Real64) -> int,
)
    requires
        adds_up(plus, worth, period_sums(plus, evaluation.cell_scores@)),
        forall|t: int|
            0 <= t < problem.num_periods ==> adds_up(
                plus,
                worth,
                (#[trigger] evaluation.cell_scores@[t])@,
            ),
        evaluates(problem, schedule, evaluation),
    ensures
        worth(
            sum_up(
                plus,
                period_sums(plus, evaluation.cell_scores@),
                evaluation.cell_scores@.len() as int,
            ),
        ) == cells_total(problem, schedule, worth),
{
    let cells = evaluation.cell_scores@;
    let k = problem.num_positions as int;
    let m = problem.num_periods as int;
    let sums = period_sums(plus, cells);
    sums_are_worth_their_terms(plus, worth, sums, m);
    let a = |t: int| worth(sums[t]);
    let b = |t: int| total(|pos: int| worth(score_at(problem, schedule, pos, t)), k);
    assert forall|t: int| 0 <= t < m implies #[trigger] a(t) == b(t) by {
        assert(sums[t] == sum_up(plus, cells[t]@, cells[t]@.len() as int));
        sums_are_worth_their_terms(plus, worth, cells[t]@, k);
        total_same(
            |i: int| worth(cells[t]@[i]),
            |pos: int| worth(score_at(problem, schedule, pos, t)),
            k,
        );
    }
    total_same(a, b, m);
}

} // verus!
