//! Which schedules the exact program admits, and what its points say of a schedule.
use crate::decimals::{D0, D0_5, D1};
use crate::number::{num, Real64};
use crate::rotation::decode::{
    is_decoded, is_strongest_row, keeps_rules, lawful, left_out, period_decodes, strongest,
    undecodable,
};
use crate::rotation::model::{rules_in_range, SoccerIPMIPModel};
use crate::rotation::points::{
    field, field_sum_of_cell, field_sum_plus, field_sum_zero, flag, keeps_rows,
    lawful_schedules_say, off_sum_of_one, off_sum_zero, on_field, on_sum_of_player, on_sum_zero,
    only_at, player_row, playing_counts_once, point_of, fixed_players_play, row_total,
    rows_speak_of_positions, rule_sum_of_one, rule_sum_zero, share, still_on, taken_off, together,
    weighs_player, whole_row_total,
};
use crate::rotation::policy::{distinct_members_are_no_more, left_out_lists_the_others};
use crate::rotation::problem::{
    banned_from, can_play, fieldable, fixed_at, max_bench, max_stint, min_stint, rule_count,
    Schedule, SoccerProblem,
};
use crate::rotation::rows::{
    applies, bound, countable, counts_subs, field_columns, on_columns, rule_columns, weight, Column,
    Program, RowKind,
};
use crate::rotation::rules::{
    bench_row, benched_again, departures, field_row, long_bench, overlong, plays, short_stint,
    subs_within, substitutions, unfair,
};
use crate::rotation::structure::{fields, period_ok, schedule_ok};
use crate::sums::{
    total, total_bounds, total_of_flags, total_one, total_same, total_scaled, total_swap,
    total_tells_flags, total_two, total_zero,
};
use vstd::prelude::*;

verus! {

/// A player is taken off after the period.
pub open spec fn leaves(schedule: Schedule, p: int, t: int) -> bool {
    plays(schedule, p, t) && !plays(schedule, p, t + 1)
}

/// How often a player is taken off before the last period.
pub open spec fn leavers(problem: SoccerProblem, schedule: Schedule) -> int {
    total(
        |p: int| total(|t: int| flag(leaves(schedule, p, t)), problem.num_periods - 1),
        problem.num_players as int,
    )
}

proof fn departures_are_counted(row: Seq<i64>, next: Seq<i64>, n: int)
    requires
        0 <= n <= row.len(),
    ensures
        departures(row, next, n) == total(|pos: int| flag(!next.contains(row[pos])), n),
    decreases n,
{
    if n > 0 {
        departures_are_counted(row, next, n - 1);
    }
}

proof fn substitutions_are_counted(assignment: Seq<Vec<i64>>, periods: int)
    requires
        1 <= periods <= assignment.len(),
    ensures
        substitutions(assignment, periods) == total(
            |t: int|
                departures(
                    assignment[t]@,
                    assignment[t + 1]@,
                    assignment[t]@.len() as int,
                ),
            periods - 1,
        ),
    decreases periods,
{
    if periods > 1 {
        substitutions_are_counted(assignment, periods - 1);
    }
}

proof fn leavers_depart(problem: SoccerProblem, schedule: Schedule, t: int)
    requires
        schedule_ok(problem, schedule),
        0 <= t < problem.num_periods - 1,
    ensures
        total(
            |p: int| flag(leaves(schedule, p, t)),
            problem.num_players as int,
        ) == departures(
            schedule.assignment@[t]@,
            schedule.assignment@[t + 1]@,
            schedule.assignment@[t]@.len() as int,
        ),
{
    let n = problem.num_players as int;
    let k = problem.num_positions as int;
    let row = schedule.assignment@[t]@;
    let next = schedule.assignment@[t + 1]@;
    assert(period_ok(problem, schedule.assignment@[t]@, schedule.bench@[t]@));
    let f = |p: int| flag(leaves(schedule, p, t));
    let e = |p: int, pos: int| flag(row[pos] == p && !next.contains(row[pos]));
    let g = |p: int| total(|pos: int| e(p, pos), k);
    assert(row.no_duplicates());
    assert forall|p: int| 0 <= p < n implies #[trigger] f(p) == g(p) by {
        let cells = |pos: int| e(p, pos);
        if leaves(schedule, p, t) {
            let pos = choose|pos: int| 0 <= pos < row.len() && #[trigger] row[pos] == p;
            assert(!next.contains(row[pos])) by {
                if next.contains(row[pos]) {
                    let i = choose|i: int| 0 <= i < next.len() && next[i] == row[pos];
                    assert(schedule.assignment@[t + 1]@[i] == p);
                    assert(plays(schedule, p, t + 1));
                }
            }
            assert forall|q: int| 0 <= q < k && q != pos implies #[trigger] cells(q) == 0 by {
                assert(row[q] != row[pos]);
            }
            total_one(cells, k, pos);
        } else {
            assert forall|q: int| 0 <= q < k implies #[trigger] cells(q) == 0 by {
                if row[q] == p {
                    assert(plays(schedule, p, t)) by {
                        assert(schedule.assignment@[t]@[q] == p);
                    }
                    let i = choose|i: int|
                        0 <= i < schedule.assignment@[t + 1]@.len()
                            && #[trigger] schedule.assignment@[t + 1]@[i] == p;
                    assert(next[i] == row[q]);
                }
            }
            total_zero(cells, k);
        }
    }
    total_same(f, g, n);
    total_swap(e, n, k);
    let by_position = |pos: int| total(|p: int| e(p, pos), n);
    let gone = |pos: int| flag(!next.contains(row[pos]));
    assert forall|pos: int| 0 <= pos < k implies #[trigger] by_position(pos) == gone(pos) by {
        let cells = |p: int| e(p, pos);
        assert(0 <= row[pos] < n);
        assert forall|p: int| 0 <= p < n && p != row[pos] implies #[trigger] cells(p) == 0 by {}
        total_one(cells, n, row[pos] as int);
    }
    total_same(by_position, gone, k);
    departures_are_counted(row, next, k);
}

/// The substitutions are the times that somebody is taken off.
pub proof fn leavers_are_substituted(problem: SoccerProblem, schedule: Schedule)
    requires
        schedule_ok(problem, schedule),
        problem.num_periods > 0,
    ensures
        leavers(problem, schedule) == substitutions(
            schedule.assignment@,
            problem.num_periods as int,
        ),
{
    let n = problem.num_players as int;
    let m = problem.num_periods - 1;
    let l = |p: int, t: int| flag(leaves(schedule, p, t));
    total_swap(l, n, m);
    let by_player = |p: int| total(|t: int| l(p, t), m);
    let counted = |p: int| total(|t: int| flag(leaves(schedule, p, t)), m);
    assert forall|p: int| 0 <= p < n implies #[trigger] by_player(p) == counted(p) by {
        total_same(|t: int| l(p, t), |t: int| flag(leaves(schedule, p, t)), m);
    }
    total_same(by_player, counted, n);
    let by_period = |t: int| total(|p: int| l(p, t), n);
    let d = |t: int|
        departures(
            schedule.assignment@[t]@,
            schedule.assignment@[t + 1]@,
            schedule.assignment@[t]@.len() as int,
        );
    assert forall|t: int| 0 <= t < m implies #[trigger] by_period(t) == d(t) by {
        leavers_depart(problem, schedule, t);
        total_same(
            |p: int| l(p, t),
            |p: int| flag(leaves(schedule, p, t)),
            n,
        );
    }
    total_same(by_period, d, m);
    substitutions_are_counted(schedule.assignment@, problem.num_periods as int);
}

proof fn synergy_rows_hold(
    problem: SoccerProblem,
    schedule: Schedule,
    rule: usize,
    period: usize,
    part: usize,
)
    requires
        countable(problem),
        rules_in_range(problem),
        schedule_ok(problem, schedule),
        rule < rule_count(problem),
        period < problem.num_periods,
        part < 3,
    ensures
        ({
            let kind = RowKind::Synergy { rule, period, part };
            row_total(problem, Program::Exact, kind, point_of(problem, schedule)) <= bound(
                problem,
                kind,
            )
        }),
{
    let kind = RowKind::Synergy { rule, period, part };
    let x = point_of(problem, schedule);
    let h = share(problem, kind, x);
    let r = problem.synergy_rules->0@[rule as int];
    let t = period as int;
    whole_row_total(problem, kind, x);
    assert forall|q: int, u: int| h(#[trigger] still_on(q, u)) == 0 by {
        assert(weight(problem, kind, still_on(q, u)) == 0);
    }
    on_sum_zero(problem, h);
    assert forall|q: int, u: int| h(#[trigger] taken_off(q, u)) == 0 by {
        assert(weight(problem, kind, taken_off(q, u)) == 0);
    }
    off_sum_zero(problem, h);
    assert(rule_count(problem) <= usize::MAX) by (nonlinear_arith)
        requires
            rule_count(problem) * problem.num_periods <= usize::MAX,
            0 <= rule_count(problem),
            1 <= problem.num_periods,
    ;
    assert forall|q: int, u: int|
        0 <= q < rule_count(problem) && 0 <= u < problem.num_periods && !(q == rule && u == t) implies h(
        #[trigger] together(q, u),
    ) == 0 by {
        assert(weight(problem, kind, together(q, u)) == 0);
    }
    rule_sum_of_one(problem, h, rule as int, t);
    let subject = field(r.player as int, r.position as int, t);
    let partner = field(r.partner_player as int, r.partner_position as int, t);
    if part < 2 {
        let (p, pos) = if part == 0 {
            (r.player as int, r.position as int)
        } else {
            (r.partner_player as int, r.partner_position as int)
        };
        assert forall|a: int, b: int, u: int|
            0 <= a < problem.num_players && 0 <= b < problem.num_positions && 0 <= u
                < problem.num_periods && !(a == p && b == pos && u == t) implies h(
            #[trigger] field(a, b, u),
        ) == 0 by {
            assert(weight(problem, kind, field(a, b, u)) == 0);
        }
        field_sum_of_cell(problem, h, p, pos, t);
        assert(weight(problem, kind, field(p, pos, t)) == -1);
        assert(weight(problem, kind, together(rule as int, t)) == 1);
    } else {
        assert(weight(problem, kind, together(rule as int, t)) == -1);
        let f = |c: Column|
            if c == subject {
                h(c)
            } else {
                0
            };
        let g = |c: Column|
            if c == subject {
                0
            } else {
                h(c)
            };
        field_sum_plus(problem, f, g, h);
        assert(only_at(problem, f, r.player as int, r.position as int, t));
        field_sum_of_cell(problem, f, r.player as int, r.position as int, t);
        assert(weight(problem, kind, subject) == 1);
        assert forall|a: int, b: int, u: int|
            0 <= a < problem.num_players && 0 <= b < problem.num_positions && 0 <= u
                < problem.num_periods && !(a == r.partner_player && b == r.partner_position && u
                == t) implies g(#[trigger] field(a, b, u)) == 0 by {
            if field(a, b, u) != subject {
                assert(weight(problem, kind, field(a, b, u)) == 0);
            }
        }
        field_sum_of_cell(problem, g, r.partner_player as int, r.partner_position as int, t);
        if partner != subject {
            assert(weight(problem, kind, partner) == 1);
        }
    }
}

proof fn on_rows_total(
    problem: SoccerProblem,
    x: spec_fn(Column) -> int,
    kind: RowKind,
    player: usize,
    period: usize,
    sign: int,
)
    requires
        countable(problem),
        player < problem.num_players,
        period < problem.num_periods,
        counts_subs(problem),
        kind == (RowKind::OnLink { player, period }) && sign == 1 || kind == (RowKind::OnHolds {
            player,
            period,
        }) && sign == -1,
    ensures
        row_total(problem, Program::Exact, kind, x) == sign * on_field(
            problem,
            x,
            player as int,
            period as int,
        ) - sign * x(still_on(player as int, period as int)),
{
    let h = share(problem, kind, x);
    let p = player as int;
    let t = period as int;
    let m = problem.num_periods as int;
    whole_row_total(problem, kind, x);
    let c = |u: int|
        if u == t {
            sign
        } else {
            0
        };
    assert(weighs_player(problem, kind, p, c));
    player_row(problem, kind, x, p, c);
    let f = |u: int| c(u) * on_field(problem, x, p, u);
    assert forall|u: int| 0 <= u < m && u != t implies #[trigger] f(u) == 0 by {
        assert(c(u) == 0);
    }
    total_one(f, m, t);
    assert(f(t) == sign * on_field(problem, x, p, t)) by {
        assert(c(t) == sign);
    }
    assert forall|q: int, u: int| h(#[trigger] together(q, u)) == 0 by {
        assert(weight(problem, kind, together(q, u)) == 0);
    }
    rule_sum_zero(problem, h);
    assert forall|q: int, u: int| h(#[trigger] taken_off(q, u)) == 0 by {
        assert(weight(problem, kind, taken_off(q, u)) == 0);
    }
    off_sum_zero(problem, h);
    assert forall|q: int, u: int|
        0 <= q < problem.num_players && 0 <= u < problem.num_periods && q != p implies h(
        #[trigger] still_on(q, u),
    ) == 0 by {
        assert(weight(problem, kind, still_on(q, u)) == 0);
    }
    on_sum_of_player(problem, h, p);
    let g = |u: int| h(still_on(p, u));
    assert forall|u: int| 0 <= u < m && u != t implies #[trigger] g(u) == 0 by {
        assert(weight(problem, kind, still_on(p, u)) == 0);
    }
    total_one(g, m, t);
    assert(weight(problem, kind, still_on(p, t)) == -sign);
    assert(g(t) == -sign * x(still_on(p, t)));
    assert(sign == 1 || sign == -1);
}

/// What a sub-off row adds up to.
spec fn sub_off_sum(x: spec_fn(Column) -> int, p: int, t: int, part: int) -> int {
    if part == 0 {
        x(taken_off(p, t)) - x(still_on(p, t - 1))
    } else if part == 1 {
        x(taken_off(p, t)) + x(still_on(p, t))
    } else {
        x(still_on(p, t - 1)) - x(still_on(p, t)) - x(taken_off(p, t))
    }
}

proof fn sub_off_rows_total(
    problem: SoccerProblem,
    x: spec_fn(Column) -> int,
    player: usize,
    period: usize,
    part: usize,
)
    requires
        countable(problem),
        counts_subs(problem),
        player < problem.num_players,
        1 <= period < problem.num_periods,
        part < 3,
    ensures
        row_total(problem, Program::Exact, RowKind::SubOff { player, period, part }, x)
            == sub_off_sum(x, player as int, period as int, part as int),
{
    let kind = RowKind::SubOff { player, period, part };
    let h = share(problem, kind, x);
    let p = player as int;
    let t = period as int;
    let m = problem.num_periods as int;
    whole_row_total(problem, kind, x);
    assert forall|q: int, pos: int, u: int| h(#[trigger] field(q, pos, u)) == 0 by {
        assert(weight(problem, kind, field(q, pos, u)) == 0);
    }
    field_sum_zero(problem, h);
    assert forall|q: int, u: int| h(#[trigger] together(q, u)) == 0 by {
        assert(weight(problem, kind, together(q, u)) == 0);
    }
    rule_sum_zero(problem, h);
    assert forall|q: int, u: int|
        0 <= q < problem.num_players && 1 <= u < problem.num_periods && !(q == p && u == t) implies h(
        #[trigger] taken_off(q, u),
    ) == 0 by {
        assert(weight(problem, kind, taken_off(q, u)) == 0);
    }
    off_sum_of_one(problem, h, p, t);
    assert(weight(problem, kind, taken_off(p, t)) == if part == 2 {
        -1int
    } else {
        1
    });
    assert forall|q: int, u: int|
        0 <= q < problem.num_players && 0 <= u < problem.num_periods && q != p implies h(
        #[trigger] still_on(q, u),
    ) == 0 by {
        assert(weight(problem, kind, still_on(q, u)) == 0);
    }
    on_sum_of_player(problem, h, p);
    let g = |u: int| h(still_on(p, u));
    assert forall|u: int| 0 <= u < m && u != t && u != t - 1 implies #[trigger] g(u) == 0 by {
        assert(weight(problem, kind, still_on(p, u)) == 0);
    }
    total_two(g, m, t - 1, t);
    assert(weight(problem, kind, still_on(p, t - 1)) == if part == 0 {
        -1int
    } else if part == 1 {
        0
    } else {
        1
    });
    assert(weight(problem, kind, still_on(p, t)) == if part == 0 {
        0int
    } else if part == 1 {
        1
    } else {
        -1
    });
    assert(h(taken_off(p, t)) == if part == 2 {
        -x(taken_off(p, t))
    } else {
        x(taken_off(p, t))
    });
    assert(g(t - 1) == if part == 0 {
        -x(still_on(p, t - 1))
    } else if part == 1 {
        0
    } else {
        x(still_on(p, t - 1))
    });
    assert(g(t) == if part == 0 {
        0
    } else if part == 1 {
        x(still_on(p, t))
    } else {
        -x(still_on(p, t))
    });
}

proof fn off_columns_count_leavers(
    problem: SoccerProblem,
    x: spec_fn(Column) -> int,
    schedule: Schedule,
    kind: RowKind,
    sign: int,
)
    requires
        countable(problem),
        counts_subs(problem),
        kind == RowKind::MaxSubs && sign == 1 || kind == RowKind::MinSubs && sign == -1,
        forall|p: int, t: int|
            0 <= p < problem.num_players && 1 <= t < problem.num_periods ==> x(
                #[trigger] taken_off(p, t),
            ) == flag(leaves(schedule, p, t - 1)),
    ensures
        row_total(problem, Program::Exact, kind, x) == sign * leavers(problem, schedule),
{
    let h = share(problem, kind, x);
    let n = problem.num_players as int;
    let m = problem.num_periods - 1;
    whole_row_total(problem, kind, x);
    assert forall|q: int, pos: int, u: int| h(#[trigger] field(q, pos, u)) == 0 by {
        assert(weight(problem, kind, field(q, pos, u)) == 0);
    }
    field_sum_zero(problem, h);
    assert forall|q: int, u: int| h(#[trigger] together(q, u)) == 0 by {
        assert(weight(problem, kind, together(q, u)) == 0);
    }
    rule_sum_zero(problem, h);
    assert forall|q: int, u: int| h(#[trigger] still_on(q, u)) == 0 by {
        assert(weight(problem, kind, still_on(q, u)) == 0);
    }
    on_sum_zero(problem, h);
    let outer = |q: int|
        total(|u: int| h(Column::Off { player: q as usize, period: (u + 1) as usize }), m);
    let counted = |p: int| total(|t: int| flag(leaves(schedule, p, t)), m);
    let goal = |p: int| sign * counted(p);
    assert forall|q: int| 0 <= q < n implies #[trigger] outer(q) == goal(q) by {
        let cell = |u: int| h(Column::Off { player: q as usize, period: (u + 1) as usize });
        let l = |t: int| flag(leaves(schedule, q, t));
        let signed = |t: int| sign * l(t);
        assert forall|u: int| 0 <= u < m implies #[trigger] cell(u) == signed(u) by {
            let c = taken_off(q, u + 1);
            assert(weight(problem, kind, c) == sign);
            assert(x(c) == l(u));
        }
        total_same(cell, signed, m);
        total_scaled(sign, l, m);
    }
    total_same(outer, goal, n);
    total_scaled(sign, counted, n);
}

/// The exact program leaves no lawful schedule out that fields whoever has a fixed position: its
/// point keeps every row.
pub proof fn program_admits_lawful_schedules(problem: SoccerProblem, schedule: Schedule)
    requires
        countable(problem),
        rules_in_range(problem),
        lawful(problem, schedule),
        fixed_players_play(problem, schedule),
    ensures
        keeps_rows(problem, Program::Exact, point_of(problem, schedule)),
{
    let x = point_of(problem, schedule);
    assert forall|kind: RowKind| #[trigger]
        applies(problem, Program::Exact, kind) implies row_total(
        problem,
        Program::Exact,
        kind,
        x,
    ) <= bound(problem, kind) by {
        match kind {
            RowKind::Synergy { rule, period, part } => {
                synergy_rows_hold(problem, schedule, rule, period, part);
            },
            RowKind::OnLink { player, period } => {
                on_rows_total(problem, x, kind, player, period, 1);
                playing_counts_once(problem, schedule, player as int, period as int);
            },
            RowKind::OnHolds { player, period } => {
                on_rows_total(problem, x, kind, player, period, -1);
                playing_counts_once(problem, schedule, player as int, period as int);
            },
            RowKind::SubOff { player, period, part } => {
                sub_off_rows_total(problem, x, player, period, part);
            },
            RowKind::MaxSubs => {
                off_columns_count_leavers(problem, x, schedule, kind, 1);
                leavers_are_substituted(problem, schedule);
            },
            RowKind::MinSubs => {
                off_columns_count_leavers(problem, x, schedule, kind, -1);
                leavers_are_substituted(problem, schedule);
            },
            _ => {
                lawful_schedules_say(problem, Program::Exact, schedule, kind);
                rows_speak_of_positions(problem, Program::Exact, kind, x);
            },
        }
    }
}

/// Every column of a position, and every column that tells who was taken off, is 0 or 1.
pub open spec fn is_binary(problem: SoccerProblem, x: spec_fn(Column) -> int) -> bool {
    &&& forall|p: int, pos: int, t: int|
        0 <= p < problem.num_players && 0 <= pos < problem.num_positions && 0 <= t
            < problem.num_periods ==> 0 <= x(#[trigger] field(p, pos, t)) <= 1
    &&& forall|p: int, t: int|
        0 <= p < problem.num_players && 1 <= t < problem.num_periods ==> 0 <= x(
            #[trigger] taken_off(p, t),
        ) <= 1
}

/// The schedule reads off a point who holds which position; whoever holds none is on the bench.
pub open spec fn reads_point(
    problem: SoccerProblem,
    x: spec_fn(Column) -> int,
    schedule: Schedule,
) -> bool {
    &&& schedule.assignment@.len() == problem.num_periods
    &&& schedule.bench@.len() == problem.num_periods
    &&& forall|t: int|
        0 <= t < problem.num_periods ==> (#[trigger] schedule.assignment@[t])@.len()
            == problem.num_positions
    &&& forall|t: int, pos: int|
        0 <= t < problem.num_periods && 0 <= pos < problem.num_positions ==> 0
            <= #[trigger] schedule.assignment@[t]@[pos] < problem.num_players
    &&& forall|p: int, pos: int, t: int|
        0 <= p < problem.num_players && 0 <= pos < problem.num_positions && 0 <= t
            < problem.num_periods ==> (schedule.assignment@[t]@[pos] == p <==> x(
            #[trigger] field(p, pos, t),
        ) == 1)
    &&& forall|t: int|
        0 <= t < problem.num_periods ==> (#[trigger] schedule.bench@[t])@ == left_out(
            schedule.assignment@[t]@,
            problem.num_players as int,
        )
}

/// Nobody is fixed at a position that there is not.
pub open spec fn fixed_in_range(problem: SoccerProblem) -> bool {
    forall|p: int|
        0 <= p < problem.num_players ==> (#[trigger] fixed_at(problem, p) matches Some(pos) ==> pos
            < problem.num_positions)
}

proof fn points_tell_who_plays(
    problem: SoccerProblem,
    x: spec_fn(Column) -> int,
    schedule: Schedule,
    p: int,
    t: int,
)
    requires
        countable(problem),
        keeps_rows(problem, Program::Exact, x),
        is_binary(problem, x),
        reads_point(problem, x, schedule),
        0 <= p < problem.num_players,
        0 <= t < problem.num_periods,
    ensures
        on_field(problem, x, p, t) == flag(plays(schedule, p, t)),
        forall|a: int, b: int|
            0 <= a < b < problem.num_positions && schedule.assignment@[t]@[a] == p
                ==> schedule.assignment@[t]@[b] != p,
{
    let k = problem.num_positions as int;
    let kind = RowKind::PlayerOnce { player: p as usize, period: t as usize };
    assert(applies(problem, Program::Exact, kind));
    rows_speak_of_positions(problem, Program::Exact, kind, x);
    let f = |pos: int| x(field(p, pos, t));
    assert forall|pos: int| 0 <= pos < k implies 0 <= #[trigger] f(pos) <= 1 by {
        assert(0 <= x(field(p, pos, t)) <= 1);
    }
    total_tells_flags(f, k);
    total_bounds(f, k);
    let row = schedule.assignment@[t]@;
    assert(schedule.assignment@[t]@.len() == problem.num_positions);
    if plays(schedule, p, t) {
        let pos = choose|pos: int| 0 <= pos < row.len() && #[trigger] row[pos] == p;
        assert(x(field(p, pos, t)) == 1);
        assert(f(pos) == 1);
    } else if total(f, k) >= 1 {
        let pos = choose|pos: int| 0 <= pos < k && #[trigger] f(pos) == 1;
        assert(x(field(p, pos, t)) == 1);
        assert(row[pos] == p);
    }
    assert forall|a: int, b: int|
        0 <= a < b < problem.num_positions && schedule.assignment@[t]@[a] == p implies schedule.assignment@[t]@[b]
        != p by {
        assert(f(a) == x(field(p, a, t)));
        assert(f(b) == x(field(p, b, t)));
        assert(f(a) == 0 || f(b) == 0);
    }
}

pub(crate) proof fn left_out_are_distinct(row: Seq<i64>, n: int)
    requires
        0 <= n <= usize::MAX,
    ensures
        left_out(row, n).no_duplicates(),
        forall|i: int| 0 <= i < left_out(row, n).len() ==> #[trigger] left_out(row, n)[i] < n,
    decreases n,
{
    if n > 0 {
        left_out_are_distinct(row, n - 1);
    }
}

pub(crate) proof fn left_out_fill_the_bench(row: Seq<i64>, n: int)
    requires
        0 <= n <= usize::MAX,
        row.no_duplicates(),
        forall|i: int| 0 <= i < row.len() ==> 0 <= #[trigger] row[i] < n,
    ensures
        left_out(row, n).len() + row.len() == n,
{
    left_out_are_distinct(row, n);
    let out = left_out(row, n);
    let on = Seq::new(row.len(), |i: int| row[i] as usize);
    let all = on + out;
    let numbers = Seq::new(n as nat, |i: int| i as usize);
    let k = row.len() as int;
    assert forall|i: int, j: int| 0 <= i < j < all.len() implies all[i] != all[j] by {
        if i < k {
            assert(0 <= row[i] < n);
            if j < k {
                assert(row[i] != row[j]);
                assert(0 <= row[j] < n);
            } else {
                left_out_lists_the_others(row, n, row[i] as int);
                assert(fields(row, row[i] as int));
                if all[j] == all[i] {
                    assert(out[j - k] == row[i] as usize);
                    assert(out.contains(row[i] as usize));
                }
            }
        } else {
            assert(out[i - k] != out[j - k]);
        }
    }
    assert(all.no_duplicates());
    assert forall|i: int| 0 <= i < all.len() implies numbers.contains(#[trigger] all[i]) by {
        if i < k {
            assert(0 <= row[i] < n);
        } else {
            assert(out[i - k] < n);
        }
        assert(numbers[all[i] as int] == all[i]);
    }
    distinct_members_are_no_more(all, numbers);
    assert forall|i: int| 0 <= i < numbers.len() implies all.contains(#[trigger] numbers[i]) by {
        left_out_lists_the_others(row, n, i);
        if fields(row, i) {
            let j = choose|j: int| 0 <= j < row.len() && #[trigger] row[j] == i;
            assert(all[j] == numbers[i]);
        } else {
            let j = choose|j: int| 0 <= j < out.len() && out[j] == i as usize;
            assert(all[k + j] == numbers[i]);
        }
    }
    assert(numbers.no_duplicates());
    distinct_members_are_no_more(numbers, all);
}

proof fn points_are_well_formed(
    problem: SoccerProblem,
    x: spec_fn(Column) -> int,
    schedule: Schedule,
)
    requires
        countable(problem),
        fixed_in_range(problem),
        problem.num_positions + problem.bench_size == problem.num_players,
        keeps_rows(problem, Program::Exact, x),
        is_binary(problem, x),
        reads_point(problem, x, schedule),
    ensures
        schedule_ok(problem, schedule),
{
    assert forall|t: int| 0 <= t < problem.num_periods implies period_ok(
        problem,
        #[trigger] schedule.assignment@[t]@,
        schedule.bench@[t]@,
    ) by {
        let row = schedule.assignment@[t]@;
        let bench = schedule.bench@[t]@;
        let n = problem.num_players as int;
        assert(schedule.assignment@[t]@.len() == problem.num_positions);
        assert(schedule.bench@[t]@ == left_out(row, n));
        assert forall|i: int| 0 <= i < row.len() implies 0 <= #[trigger] row[i] < n by {
            assert(0 <= schedule.assignment@[t]@[i] < problem.num_players);
        }
        assert forall|a: int, b: int| 0 <= a < b < row.len() implies row[a] != row[b] by {
            points_tell_who_plays(problem, x, schedule, row[a] as int, t);
        }
        assert(row.no_duplicates());
        left_out_fill_the_bench(row, n);
        left_out_are_distinct(row, n);
        assert forall|i: int| 0 <= i < bench.len() implies !fields(
            row,
            #[trigger] bench[i] as int,
        ) by {
            left_out_lists_the_others(row, n, bench[i] as int);
            assert(bench.contains(bench[i]));
        }
        assert forall|i: int| 0 <= i < row.len() implies can_play(
            problem,
            #[trigger] row[i] as int,
            i,
        ) by {
            let p = row[i] as int;
            assert(x(field(p, i, t)) == 1);
            points_tell_who_plays(problem, x, schedule, p, t);
            assert(plays(schedule, p, t)) by {
                assert(schedule.assignment@[t]@[i] == p);
            }
            if !fieldable(problem, p) {
                let kind = RowKind::Unavailable { player: p as usize, period: t as usize };
                assert(applies(problem, Program::Exact, kind));
                rows_speak_of_positions(problem, Program::Exact, kind, x);
            }
            if banned_from(problem, p, i) {
                let kind = RowKind::Banned {
                    player: p as usize,
                    position: i as usize,
                    period: t as usize,
                };
                assert(applies(problem, Program::Exact, kind));
                rows_speak_of_positions(problem, Program::Exact, kind, x);
            }
            if fixed_at(problem, p) is Some && fixed_at(problem, p)->0 != i {
                let kind = RowKind::FixedBan {
                    player: p as usize,
                    period: t as usize,
                    position: i as usize,
                };
                assert(fixed_at(problem, p)->0 < problem.num_positions);
                assert(applies(problem, Program::Exact, kind));
                rows_speak_of_positions(problem, Program::Exact, kind, x);
            }
        }
    }
}

pub(crate) proof fn nobody_is_benched_again(
    problem: SoccerProblem,
    bench: Seq<usize>,
    next: Seq<usize>,
    t: int,
    n: int,
)
    requires
        0 <= n <= bench.len(),
        forall|i: int|
            0 <= i < bench.len() ==> !(fieldable(problem, #[trigger] bench[i] as int)
                && next.contains(bench[i])),
    ensures
        benched_again(problem, bench, next, t, n).len() == 0,
    decreases n,
{
    if n > 0 {
        nobody_is_benched_again(problem, bench, next, t, n - 1);
        assert(!(fieldable(problem, bench[n - 1] as int) && next.contains(bench[n - 1])));
    }
}

proof fn points_are_fair(
    problem: SoccerProblem,
    x: spec_fn(Column) -> int,
    schedule: Schedule,
    periods: int,
)
    requires
        countable(problem),
        problem.enforce_no_consecutive_bench,
        keeps_rows(problem, Program::Exact, x),
        is_binary(problem, x),
        reads_point(problem, x, schedule),
        periods <= problem.num_periods,
    ensures
        unfair(problem, schedule.bench@, periods).len() == 0,
    decreases periods,
{
    if periods > 1 {
        points_are_fair(problem, x, schedule, periods - 1);
        let t = periods - 2;
        let n = problem.num_players as int;
        let bench = schedule.bench@[t]@;
        let next = schedule.bench@[t + 1]@;
        assert(schedule.bench@[t]@ == left_out(schedule.assignment@[t]@, n));
        assert(schedule.bench@[t + 1]@ == left_out(schedule.assignment@[t + 1]@, n));
        assert forall|i: int| 0 <= i < bench.len() implies !(fieldable(
            problem,
            #[trigger] bench[i] as int,
        ) && next.contains(bench[i])) by {
            if fieldable(problem, bench[i] as int) && next.contains(bench[i]) {
                let p = bench[i] as int;
                assert(bench.contains(bench[i]));
                left_out_lists_the_others(schedule.assignment@[t]@, n, p);
                left_out_lists_the_others(schedule.assignment@[t + 1]@, n, p);
                points_tell_who_plays(problem, x, schedule, p, t);
                points_tell_who_plays(problem, x, schedule, p, t + 1);
                let kind = RowKind::NoConsecutiveBench { player: p as usize, period: t as usize };
                assert(applies(problem, Program::Exact, kind));
                rows_speak_of_positions(problem, Program::Exact, kind, x);
                assert(!plays(schedule, p, t));
                assert(!plays(schedule, p, t + 1));
            }
        }
        nobody_is_benched_again(problem, bench, next, t, bench.len() as int);
    }
}

proof fn points_keep_stints(
    problem: SoccerProblem,
    x: spec_fn(Column) -> int,
    schedule: Schedule,
    p: int,
    s: int,
    e: int,
)
    requires
        countable(problem),
        keeps_rows(problem, Program::Exact, x),
        is_binary(problem, x),
        reads_point(problem, x, schedule),
    ensures
        !overlong(problem, schedule, p, s, e),
        !short_stint(problem, schedule, p, s, e),
        !long_bench(problem, schedule, p, s, e),
{
    if overlong(problem, schedule, p, s, e) {
        let flags = field_row(problem, schedule, p);
        let limit = max_stint(problem, p)->0;
        let kind = RowKind::MaxStint { player: p as usize, start: s as usize };
        assert(applies(problem, Program::Exact, kind));
        rows_speak_of_positions(problem, Program::Exact, kind, x);
        let f = |i: int| on_field(problem, x, p, s + i);
        assert forall|i: int| 0 <= i < limit + 1 implies #[trigger] f(i) == 1 by {
            points_tell_who_plays(problem, x, schedule, p, s + i);
            assert(flags[s + i]);
        }
        total_of_flags(f, limit + 1);
    }
    if long_bench(problem, schedule, p, s, e) {
        let flags = bench_row(problem, schedule, p);
        let limit = max_bench(problem, p)->0;
        assert(flags[s]);
        let kind = RowKind::MaxBench { player: p as usize, start: s as usize };
        assert(applies(problem, Program::Exact, kind));
        rows_speak_of_positions(problem, Program::Exact, kind, x);
        let f = |i: int| on_field(problem, x, p, s + i);
        assert forall|i: int| 0 <= i < limit + 1 implies #[trigger] f(i) == 0 by {
            points_tell_who_plays(problem, x, schedule, p, s + i);
            assert(flags[s + i]);
        }
        total_zero(f, limit + 1);
    }
    if short_stint(problem, schedule, p, s, e) {
        let flags = field_row(problem, schedule, p);
        let least = min_stint(problem, p)->0;
        assert(flags[s]);
        points_tell_who_plays(problem, x, schedule, p, s);
        if s > 0 {
            assert(!flags[s - 1]);
            points_tell_who_plays(problem, x, schedule, p, s - 1);
        }
        if s + least > problem.num_periods {
            let kind = RowKind::NoLateStart { player: p as usize, start: s as usize };
            assert(applies(problem, Program::Exact, kind));
            rows_speak_of_positions(problem, Program::Exact, kind, x);
        } else {
            assert(!flags[e]);
            points_tell_who_plays(problem, x, schedule, p, e);
            let kind = RowKind::MinStint {
                player: p as usize,
                start: s as usize,
                period: e as usize,
            };
            assert(applies(problem, Program::Exact, kind));
            rows_speak_of_positions(problem, Program::Exact, kind, x);
        }
    }
}

proof fn points_tell_who_leaves(
    problem: SoccerProblem,
    x: spec_fn(Column) -> int,
    schedule: Schedule,
    p: int,
    t: int,
)
    requires
        countable(problem),
        counts_subs(problem),
        keeps_rows(problem, Program::Exact, x),
        is_binary(problem, x),
        reads_point(problem, x, schedule),
        0 <= p < problem.num_players,
        0 <= t < problem.num_periods,
    ensures
        x(still_on(p, t)) == flag(plays(schedule, p, t)),
        t >= 1 ==> x(taken_off(p, t)) == flag(leaves(schedule, p, t - 1)),
    decreases t,
{
    let link = RowKind::OnLink { player: p as usize, period: t as usize };
    let holds = RowKind::OnHolds { player: p as usize, period: t as usize };
    assert(applies(problem, Program::Exact, link));
    assert(applies(problem, Program::Exact, holds));
    on_rows_total(problem, x, link, p as usize, t as usize, 1);
    on_rows_total(problem, x, holds, p as usize, t as usize, -1);
    points_tell_who_plays(problem, x, schedule, p, t);
    if t >= 1 {
        points_tell_who_leaves(problem, x, schedule, p, t - 1);
        assert(0 <= x(taken_off(p, t)) <= 1);
        let was_on = RowKind::SubOff { player: p as usize, period: t as usize, part: 0 };
        let is_off = RowKind::SubOff { player: p as usize, period: t as usize, part: 1 };
        let both = RowKind::SubOff { player: p as usize, period: t as usize, part: 2 };
        assert(applies(problem, Program::Exact, was_on));
        assert(applies(problem, Program::Exact, is_off));
        assert(applies(problem, Program::Exact, both));
        sub_off_rows_total(problem, x, p as usize, t as usize, 0);
        sub_off_rows_total(problem, x, p as usize, t as usize, 1);
        sub_off_rows_total(problem, x, p as usize, t as usize, 2);
    }
}

proof fn points_keep_the_substitutions(
    problem: SoccerProblem,
    x: spec_fn(Column) -> int,
    schedule: Schedule,
)
    requires
        countable(problem),
        counts_subs(problem),
        keeps_rows(problem, Program::Exact, x),
        is_binary(problem, x),
        reads_point(problem, x, schedule),
        schedule_ok(problem, schedule),
    ensures
        subs_within(problem, schedule),
{
    assert forall|p: int, t: int|
        0 <= p < problem.num_players && 1 <= t < problem.num_periods implies x(
        #[trigger] taken_off(p, t),
    ) == flag(leaves(schedule, p, t - 1)) by {
        points_tell_who_leaves(problem, x, schedule, p, t);
    }
    leavers_are_substituted(problem, schedule);
    if problem.max_subs_per_game is Some {
        assert(applies(problem, Program::Exact, RowKind::MaxSubs));
        off_columns_count_leavers(problem, x, schedule, RowKind::MaxSubs, 1);
    }
    if problem.min_subs_per_game is Some {
        assert(applies(problem, Program::Exact, RowKind::MinSubs));
        off_columns_count_leavers(problem, x, schedule, RowKind::MinSubs, -1);
    }
}

/// Substitutions can be counted wherever some are asked for: there is more than one period.
pub open spec fn subs_countable(problem: SoccerProblem) -> bool {
    problem.num_periods <= 1 ==> (problem.min_subs_per_game matches Some(least) ==> least == 0)
}

/// A 0/1 point that keeps every row of the exact program fields whoever has a fixed position there
/// in every period, and nowhere else.
pub proof fn points_field_the_fixed(
    problem: SoccerProblem,
    x: spec_fn(Column) -> int,
    p: int,
    t: int,
)
    requires
        countable(problem),
        keeps_rows(problem, Program::Exact, x),
        is_binary(problem, x),
        0 <= p < problem.num_players,
        0 <= t < problem.num_periods,
        fixed_at(problem, p) is Some,
        fixed_at(problem, p)->0 < problem.num_positions,
    ensures
        x(field(p, fixed_at(problem, p)->0 as int, t)) == 1,
        forall|pos: int|
            0 <= pos < problem.num_positions && pos != fixed_at(problem, p)->0 ==> x(
                #[trigger] field(p, pos, t),
            ) == 0,
{
    let plays_there = RowKind::FixedPlays { player: p as usize, period: t as usize };
    assert(applies(problem, Program::Exact, plays_there));
    rows_speak_of_positions(problem, Program::Exact, plays_there, x);
    assert(0 <= x(field(p, fixed_at(problem, p)->0 as int, t)) <= 1);
    assert forall|pos: int|
        0 <= pos < problem.num_positions && pos != fixed_at(problem, p)->0 implies x(
        #[trigger] field(p, pos, t),
    ) == 0 by {
        let ban = RowKind::FixedBan {
            player: p as usize,
            period: t as usize,
            position: pos as usize,
        };
        assert(applies(problem, Program::Exact, ban));
        rows_speak_of_positions(problem, Program::Exact, ban, x);
        assert(0 <= x(field(p, pos, t)) <= 1);
    }
}

/// A 0/1 point that keeps every row of the exact program reads as a lawful schedule that fields
/// whoever has a fixed position in every period, as long as the substitutions that are asked for
/// can be counted.
pub proof fn points_read_as_lawful_schedules(
    problem: SoccerProblem,
    x: spec_fn(Column) -> int,
    schedule: Schedule,
)
    requires
        countable(problem),
        fixed_in_range(problem),
        problem.num_positions + problem.bench_size == problem.num_players,
        keeps_rows(problem, Program::Exact, x),
        is_binary(problem, x),
        reads_point(problem, x, schedule),
    ensures
        keeps_rules(problem, schedule),
        fixed_players_play(problem, schedule),
        subs_countable(problem) ==> lawful(problem, schedule),
{
    points_are_well_formed(problem, x, schedule);
    if problem.enforce_no_consecutive_bench {
        points_are_fair(problem, x, schedule, problem.num_periods as int);
    }
    assert forall|p: int, s: int, e: int| !#[trigger] long_bench(problem, schedule, p, s, e) by {
        points_keep_stints(problem, x, schedule, p, s, e);
    }
    assert forall|p: int, s: int, e: int| !#[trigger] overlong(problem, schedule, p, s, e) by {
        points_keep_stints(problem, x, schedule, p, s, e);
    }
    assert forall|p: int, s: int, e: int| !#[trigger] short_stint(problem, schedule, p, s, e) by {
        points_keep_stints(problem, x, schedule, p, s, e);
    }
    assert forall|p: int, t: int|
        0 <= p < problem.num_players && 0 <= t < problem.num_periods implies (
    #[trigger] fixed_at(problem, p) matches Some(pos) ==> pos < problem.num_positions ==> (
    #[trigger] schedule.assignment@[t])@[pos as int] == p) by {
        if fixed_at(problem, p) is Some && fixed_at(problem, p)->0 < problem.num_positions {
            points_field_the_fixed(problem, x, p, t);
            let pos = fixed_at(problem, p)->0 as int;
            assert(x(field(p, pos, t)) == 1);
        }
    }
    if counts_subs(problem) {
        points_keep_the_substitutions(problem, x, schedule);
    }
}

/// The number of a column.
pub open spec fn column_number(problem: SoccerProblem, c: Column) -> int {
    let periods = problem.num_periods as int;
    match c {
        Column::Field { player, position, period } => (player * problem.num_positions + position)
            * periods + period,
        Column::Together { rule, period } => field_columns(problem) + rule * periods + period,
        Column::On { player, period } => field_columns(problem) + rule_columns(problem) + player
            * periods + period,
        Column::Off { player, period } => field_columns(problem) + rule_columns(problem)
            + on_columns(problem) + player * (periods - 1) + period - 1,
    }
}

/// The point that a vector of zeros and ones stands for.
pub open spec fn point_from(problem: SoccerProblem, xs: Seq<Real64>) -> spec_fn(Column) -> int {
    |c: Column| flag(xs[column_number(problem, c)] == num(D1))
}

/// The entries of a vector for positions are zeros and ones.
pub open spec fn is_zero_one(problem: SoccerProblem, xs: Seq<Real64>) -> bool {
    forall|p: int, pos: int, t: int|
        0 <= p < problem.num_players && 0 <= pos < problem.num_positions && 0 <= t
            < problem.num_periods ==> ({
            let v = xs[column_number(problem, #[trigger] field(p, pos, t))];
            v == num(D0) || v == num(D1)
        })
}

proof fn the_holder_is_strongest(
    problem: SoccerProblem,
    model: SoccerIPMIPModel,
    xs: Seq<Real64>,
    pos: int,
    t: int,
    q: int,
    n: int,
)
    requires
        model.num_positions == problem.num_positions,
        model.num_periods == problem.num_periods,
        is_zero_one(problem, xs),
        0 <= pos < problem.num_positions,
        0 <= t < problem.num_periods,
        0 <= q < problem.num_players,
        0 <= n <= problem.num_players,
        point_from(problem, xs)(field(q, pos, t)) == 1,
        forall|p: int|
            0 <= p < problem.num_players && p != q ==> point_from(problem, xs)(
                #[trigger] field(p, pos, t)
            ) == 0,
    ensures
        strongest(model, xs, num(D0_5), pos, t, n) == if q < n {
            (q, num(D1))
        } else {
            (-1, num(D0_5))
        },
    decreases n,
{
    if n > 0 {
        the_holder_is_strongest(problem, model, xs, pos, t, q, n - 1);
        let c = field(n - 1, pos, t);
        assert(model.column_number(n - 1, pos, t) == column_number(problem, c));
        assert(point_from(problem, xs)(c) == flag(n - 1 == q));
    }
}

/// A vector of zeros and ones that keeps every row of the exact program decodes: in every period
/// every position has its player, and the schedule that the vector tells is lawful, as long as the
/// substitutions that are asked for can be counted.
pub proof fn feasible_vectors_decode(
    problem: SoccerProblem,
    model: SoccerIPMIPModel,
    xs: Seq<Real64>,
)
    requires
        countable(problem),
        fixed_in_range(problem),
        problem.num_positions + problem.bench_size == problem.num_players,
        model.num_positions == problem.num_positions,
        model.num_periods == problem.num_periods,
        xs.len() == model.ip.c@.len(),
        is_zero_one(problem, xs),
        keeps_rows(problem, Program::Exact, point_from(problem, xs)),
    ensures
        forall|t: int|
            0 <= t < problem.num_periods ==> #[trigger] period_decodes(
                problem,
                model,
                xs,
                num(D0_5),
                t,
            ),
        forall|s: Schedule| #[trigger]
            is_decoded(problem, model, xs, num(D0_5), s) ==> keeps_rules(problem, s)
                && fixed_players_play(problem, s) && (subs_countable(problem) ==> lawful(
                problem,
                s,
            )),
        subs_countable(problem) ==> !undecodable(
            problem,
            model,
            xs,
            num(D0_5),
        ),
{
    let x = point_from(problem, xs);
    let n = problem.num_players as int;
    let k = problem.num_positions as int;
    let half = num(D0_5);
    assert(is_binary(problem, x));
    assert forall|pos: int, t: int| 0 <= pos < k && 0 <= t < problem.num_periods implies 0
        <= #[trigger] strongest(model, xs, half, pos, t, n).0 < n && forall|p: int|
        0 <= p < n ==> (strongest(model, xs, half, pos, t, n).0 == p <==> x(
            #[trigger] field(p, pos, t),
        ) == 1) by {
        one_holder_of_a_point(problem, x, pos, t);
        let q = choose|q: int|
            0 <= q < n && x(#[trigger] field(q, pos, t)) == 1 && forall|p: int|
                0 <= p < n && p != q ==> x(#[trigger] field(p, pos, t)) == 0;
        the_holder_is_strongest(problem, model, xs, pos, t, q, n);
    }
    assert forall|t: int| 0 <= t < problem.num_periods implies #[trigger] period_decodes(
        problem,
        model,
        xs,
        half,
        t,
    ) by {
        let who = |pos: int| strongest(model, xs, half, pos, t, n).0;
        assert forall|pos: int| 0 <= pos < k implies #[trigger] who(pos) >= 0 by {
            assert(0 <= strongest(model, xs, half, pos, t, n).0 < n);
        }
        assert forall|a: int, b: int| 0 <= a < b < k implies #[trigger] who(a) != #[trigger] who(
            b,
        ) by {
            let p = strongest(model, xs, half, a, t, n).0;
            assert(0 <= p < n);
            if strongest(model, xs, half, b, t, n).0 == p {
                assert(x(field(p, a, t)) == 1);
                assert(x(field(p, b, t)) == 1);
                let kind = RowKind::PlayerOnce { player: p as usize, period: t as usize };
                assert(applies(problem, Program::Exact, kind));
                rows_speak_of_positions(problem, Program::Exact, kind, x);
                let f = |pos: int| x(field(p, pos, t));
                assert forall|pos: int| 0 <= pos < k implies 0 <= #[trigger] f(pos) <= 1 by {
                    assert(0 <= x(field(p, pos, t)) <= 1);
                }
                total_tells_flags(f, k);
                assert(f(a) == 0 || f(b) == 0);
            }
        }
    }
    assert forall|s: Schedule| #[trigger]
        is_decoded(problem, model, xs, half, s) implies keeps_rules(problem, s)
        && fixed_players_play(problem, s) && (subs_countable(problem) ==> lawful(problem, s)) by {
        assert forall|t: int| 0 <= t < problem.num_periods implies (
        #[trigger] s.assignment@[t])@.len() == k by {
            assert(is_strongest_row(problem, model, xs, half, s.assignment@[t]@, t));
        }
        assert forall|t: int, pos: int|
            0 <= t < problem.num_periods && 0 <= pos < k implies 0
            <= #[trigger] s.assignment@[t]@[pos] < n by {
            assert(is_strongest_row(problem, model, xs, half, s.assignment@[t]@, t));
            assert(0 <= strongest(model, xs, half, pos, t, n).0 < n);
        }
        assert forall|p: int, pos: int, t: int|
            0 <= p < n && 0 <= pos < k && 0 <= t < problem.num_periods implies (
        s.assignment@[t]@[pos] == p <==> x(#[trigger] field(p, pos, t)) == 1) by {
            assert(is_strongest_row(problem, model, xs, half, s.assignment@[t]@, t));
            assert(s.assignment@[t]@[pos] == strongest(model, xs, half, pos, t, n).0);
        }
        assert(reads_point(problem, x, s));
        points_read_as_lawful_schedules(problem, x, s);
    }
}

proof fn one_holder_of_a_point(
    problem: SoccerProblem,
    x: spec_fn(Column) -> int,
    pos: int,
    t: int,
)
    requires
        countable(problem),
        keeps_rows(problem, Program::Exact, x),
        is_binary(problem, x),
        0 <= pos < problem.num_positions,
        0 <= t < problem.num_periods,
    ensures
        exists|q: int|
            0 <= q < problem.num_players && x(#[trigger] field(q, pos, t)) == 1 && forall|p: int|
                0 <= p < problem.num_players && p != q ==> x(#[trigger] field(p, pos, t)) == 0,
{
    let n = problem.num_players as int;
    let least = RowKind::PositionFilled {
        position: pos as usize,
        period: t as usize,
        at_least: true,
    };
    let most = RowKind::PositionFilled {
        position: pos as usize,
        period: t as usize,
        at_least: false,
    };
    assert(applies(problem, Program::Exact, least));
    assert(applies(problem, Program::Exact, most));
    rows_speak_of_positions(problem, Program::Exact, least, x);
    rows_speak_of_positions(problem, Program::Exact, most, x);
    let f = |p: int| x(field(p, pos, t));
    assert forall|p: int| 0 <= p < n implies 0 <= #[trigger] f(p) <= 1 by {
        assert(0 <= x(field(p, pos, t)) <= 1);
    }
    total_tells_flags(f, n);
    let q = choose|q: int| 0 <= q < n && #[trigger] f(q) == 1;
    assert(x(field(q, pos, t)) == 1);
    assert forall|p: int| 0 <= p < n && p != q implies x(#[trigger] field(p, pos, t)) == 0 by {
        assert(f(p) == x(field(p, pos, t)));
        if p < q {
            assert(f(p) == 0 || f(q) == 0);
        } else {
            assert(f(q) == 0 || f(p) == 0);
        }
    }
}

} // verus!
