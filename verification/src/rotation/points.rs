//! Schedules as points of the programs.
//!
//! A point gives every column of a program a value. The rows of a program say of a point what the
//! rules say of a schedule.
use crate::rotation::decode::keeps_rules;
use crate::rotation::model::holds_rows;
use crate::rotation::policy::distinct_members_are_no_more;
use crate::rotation::problem::{
    can_play, fieldable, fixed_at, max_bench, max_stint, min_stint, rule_count, Schedule,
    SoccerProblem,
};
use crate::rotation::rules::{
    bench_row, benched_again, field_row, is_run, long_bench, overlong, plays, short_stint, unfair,
};
use crate::rotation::structure::{fields, period_ok, schedule_ok};
use crate::rotation::rows::{
    applies, bound, column_at, columns, columns_are_countable, countable, counts_subs,
    field_columns, lists_rows, off_columns, on_columns, rule_columns, weight, Column, Program,
    RowKind,
};
use crate::sums::{
    total, total_blocks, total_bounds, total_of_flags, total_one, total_plus, total_same,
    total_scaled, total_split, total_swap, total_two, total_zero,
};
use vstd::prelude::*;

verus! {

/// What a row adds up to at a point.
pub open spec fn row_total(
    problem: SoccerProblem,
    program: Program,
    kind: RowKind,
    x: spec_fn(Column) -> int,
) -> int {
    total(
        |v: int| weight(problem, kind, column_at(problem, v)) * x(column_at(problem, v)),
        columns(problem, program),
    )
}

/// The point keeps every row of the program.
pub open spec fn keeps_rows(
    problem: SoccerProblem,
    program: Program,
    x: spec_fn(Column) -> int,
) -> bool {
    forall|kind: RowKind| #[trigger]
        applies(problem, program, kind) ==> row_total(problem, program, kind, x) <= bound(
            problem,
            kind,
        )
}

/// The column of a player, a position and a period.
pub open spec fn field(p: int, pos: int, t: int) -> Column {
    Column::Field { player: p as usize, position: pos as usize, period: t as usize }
}

/// How often a player is on the field in a period.
pub open spec fn on_field(
    problem: SoccerProblem,
    x: spec_fn(Column) -> int,
    p: int,
    t: int,
) -> int {
    total(|pos: int| x(field(p, pos, t)), problem.num_positions as int)
}

/// How many players hold a position in a period.
pub open spec fn holders(
    problem: SoccerProblem,
    x: spec_fn(Column) -> int,
    pos: int,
    t: int,
) -> int {
    total(|p: int| x(field(p, pos, t)), problem.num_players as int)
}

/// The sum over the columns of positions.
pub open spec fn field_sum(problem: SoccerProblem, h: spec_fn(Column) -> int) -> int {
    total(
        |p: int|
            total(
                |pos: int|
                    total(|t: int| h(field(p, pos, t)), problem.num_periods as int),
                problem.num_positions as int,
            ),
        problem.num_players as int,
    )
}

/// The sum over the columns of rules.
pub open spec fn rule_sum(problem: SoccerProblem, h: spec_fn(Column) -> int) -> int {
    total(
        |r: int|
            total(
                |t: int| h(Column::Together { rule: r as usize, period: t as usize }),
                problem.num_periods as int,
            ),
        rule_count(problem),
    )
}

/// The sum over the columns of who is on.
pub open spec fn on_sum(problem: SoccerProblem, h: spec_fn(Column) -> int) -> int {
    if counts_subs(problem) {
        total(
            |p: int|
                total(
                    |t: int| h(Column::On { player: p as usize, period: t as usize }),
                    problem.num_periods as int,
                ),
            problem.num_players as int,
        )
    } else {
        0
    }
}

/// The sum over the columns of who was taken off.
pub open spec fn off_sum(problem: SoccerProblem, h: spec_fn(Column) -> int) -> int {
    if counts_subs(problem) {
        total(
            |p: int|
                total(
                    |t: int| h(Column::Off { player: p as usize, period: (t + 1) as usize }),
                    problem.num_periods - 1,
                ),
            problem.num_players as int,
        )
    } else {
        0
    }
}

proof fn parts_of(q: int, t: int, k: int)
    requires
        0 <= q,
        0 <= t < k,
    ensures
        (q * k + t) / k == q,
        (q * k + t) % k == t,
{
    vstd::arithmetic::div_mod::lemma_fundamental_div_mod_converse(q * k + t, k, q, t);
}

proof fn block_end(q: int, m: int, t: int, k: int)
    requires
        0 <= q < m,
        0 <= t < k,
    ensures
        0 <= q * k + t < m * k,
{
    assert(0 <= q * k + t < m * k) by (nonlinear_arith)
        requires
            0 <= q < m,
            0 <= t < k,
    ;
}

proof fn field_block(problem: SoccerProblem, h: spec_fn(Column) -> int)
    requires
        countable(problem),
    ensures
        total(|v: int| h(column_at(problem, v)), field_columns(problem)) == field_sum(problem, h),
{
    let n = problem.num_players as int;
    let k = problem.num_positions as int;
    let m = problem.num_periods as int;
    let f = |v: int| h(column_at(problem, v));
    assert(0 <= n * k) by (nonlinear_arith)
        requires
            0 <= n,
            0 <= k,
    ;
    total_blocks(f, n * k, m);
    let by_pair = |q: int| total(|t: int| f(q * m + t), m);
    let cells = |q: int| total(|t: int| h(field(q / k, q % k, t)), m);
    assert forall|q: int| 0 <= q < n * k implies #[trigger] by_pair(q) == cells(q) by {
        let a = |t: int| f(q * m + t);
        let b = |t: int| h(field(q / k, q % k, t));
        assert forall|t: int| 0 <= t < m implies #[trigger] a(t) == b(t) by {
            parts_of(q, t, m);
            block_end(q, n * k, t, m);
        }
        total_same(a, b, m);
    }
    total_same(by_pair, cells, n * k);
    total_blocks(cells, n, k);
    let by_player = |p: int| total(|pos: int| cells(p * k + pos), k);
    let nested = |p: int| total(|pos: int| total(|t: int| h(field(p, pos, t)), m), k);
    assert forall|p: int| 0 <= p < n implies #[trigger] by_player(p) == nested(p) by {
        let a = |pos: int| cells(p * k + pos);
        let b = |pos: int| total(|t: int| h(field(p, pos, t)), m);
        assert forall|pos: int| 0 <= pos < k implies #[trigger] a(pos) == b(pos) by {
            parts_of(p, pos, k);
        }
        total_same(a, b, k);
    }
    total_same(by_player, nested, n);
}

proof fn rule_block(problem: SoccerProblem, h: spec_fn(Column) -> int)
    requires
        countable(problem),
    ensures
        total(
            |v: int| h(column_at(problem, field_columns(problem) + v)),
            rule_columns(problem),
        ) == rule_sum(problem, h),
{
    let n = rule_count(problem);
    let m = problem.num_periods as int;
    let f = |v: int| h(column_at(problem, field_columns(problem) + v));
    total_blocks(f, n, m);
    let a = |q: int| total(|t: int| f(q * m + t), m);
    let b = |r: int|
        total(|t: int| h(Column::Together { rule: r as usize, period: t as usize }), m);
    assert forall|q: int| 0 <= q < n implies #[trigger] a(q) == b(q) by {
        let c = |t: int| f(q * m + t);
        let d = |t: int| h(Column::Together { rule: q as usize, period: t as usize });
        assert forall|t: int| 0 <= t < m implies #[trigger] c(t) == d(t) by {
            parts_of(q, t, m);
            block_end(q, n, t, m);
        }
        total_same(c, d, m);
    }
    total_same(a, b, n);
}

proof fn on_block(problem: SoccerProblem, h: spec_fn(Column) -> int)
    requires
        countable(problem),
    ensures
        total(
            |v: int| h(column_at(problem, field_columns(problem) + rule_columns(problem) + v)),
            on_columns(problem),
        ) == on_sum(problem, h),
{
    columns_are_countable(problem);
    if counts_subs(problem) {
        let n = problem.num_players as int;
        let m = problem.num_periods as int;
        let start = field_columns(problem) + rule_columns(problem);
        let f = |v: int| h(column_at(problem, field_columns(problem) + rule_columns(problem) + v));
        total_blocks(f, n, m);
        let a = |q: int| total(|t: int| f(q * m + t), m);
        let b = |p: int|
            total(|t: int| h(Column::On { player: p as usize, period: t as usize }), m);
        assert forall|q: int| 0 <= q < n implies #[trigger] a(q) == b(q) by {
            let c = |t: int| f(q * m + t);
            let d = |t: int| h(Column::On { player: q as usize, period: t as usize });
            assert forall|t: int| 0 <= t < m implies #[trigger] c(t) == d(t) by {
                parts_of(q, t, m);
                block_end(q, n, t, m);
                assert(column_at(problem, start + (q * m + t)) == (Column::On {
                    player: q as usize,
                    period: t as usize,
                }));
            }
            total_same(c, d, m);
        }
        total_same(a, b, n);
    }
}

proof fn off_block(problem: SoccerProblem, h: spec_fn(Column) -> int)
    requires
        countable(problem),
    ensures
        total(
            |v: int|
                h(
                    column_at(
                        problem,
                        field_columns(problem) + rule_columns(problem) + on_columns(problem) + v,
                    ),
                ),
            off_columns(problem),
        ) == off_sum(problem, h),
{
    columns_are_countable(problem);
    if counts_subs(problem) {
        let n = problem.num_players as int;
        let m = problem.num_periods - 1;
        let start = field_columns(problem) + rule_columns(problem) + on_columns(problem);
        let f = |v: int|
            h(
                column_at(
                    problem,
                    field_columns(problem) + rule_columns(problem) + on_columns(problem) + v,
                ),
            );
        total_blocks(f, n, m);
        let a = |q: int| total(|t: int| f(q * m + t), m);
        let b = |p: int|
            total(|t: int| h(Column::Off { player: p as usize, period: (t + 1) as usize }), m);
        assert forall|q: int| 0 <= q < n implies #[trigger] a(q) == b(q) by {
            let c = |t: int| f(q * m + t);
            let d = |t: int| h(Column::Off { player: q as usize, period: (t + 1) as usize });
            assert forall|t: int| 0 <= t < m implies #[trigger] c(t) == d(t) by {
                parts_of(q, t, m);
                block_end(q, n, t, m);
                assert(column_at(problem, start + (q * m + t)) == (Column::Off {
                    player: q as usize,
                    period: (t + 1) as usize,
                }));
            }
            total_same(c, d, m);
        }
        total_same(a, b, n);
    }
}

/// A sum over all columns of a program goes block by block.
pub(crate) proof fn sum_by_blocks(
    problem: SoccerProblem,
    program: Program,
    h: spec_fn(Column) -> int,
)
    requires
        countable(problem),
    ensures
        total(|v: int| h(column_at(problem, v)), columns(problem, program)) == field_sum(problem, h)
            + if program == Program::Exact {
            rule_sum(problem, h) + on_sum(problem, h) + off_sum(problem, h)
        } else {
            0
        },
{
    columns_are_countable(problem);
    field_block(problem, h);
    if program == Program::Exact {
        let f = |v: int| h(column_at(problem, v));
        let a = field_columns(problem);
        let b = rule_columns(problem);
        let c = on_columns(problem);
        let d = off_columns(problem);
        total_split(f, a, b);
        total_split(f, a + b, c);
        total_split(f, a + b + c, d);
        rule_block(problem, h);
        on_block(problem, h);
        off_block(problem, h);
        total_same(
            |i: int| f(a + i),
            |v: int| h(column_at(problem, field_columns(problem) + v)),
            b,
        );
        total_same(
            |i: int| f(a + b + i),
            |v: int| h(column_at(problem, field_columns(problem) + rule_columns(problem) + v)),
            c,
        );
        total_same(
            |i: int| f(a + b + c + i),
            |v: int|
                h(
                    column_at(
                        problem,
                        field_columns(problem) + rule_columns(problem) + on_columns(problem) + v,
                    ),
                ),
            d,
        );
    }
}

/// What a row adds to the sum at a column.
pub open spec fn share(
    problem: SoccerProblem,
    kind: RowKind,
    x: spec_fn(Column) -> int,
) -> spec_fn(Column) -> int {
    |c: Column| weight(problem, kind, c) * x(c)
}

/// The row speaks of positions alone.
pub open spec fn is_field_row(kind: RowKind) -> bool {
    match kind {
        RowKind::Synergy { .. } => false,
        RowKind::OnLink { .. } => false,
        RowKind::OnHolds { .. } => false,
        RowKind::SubOff { .. } => false,
        RowKind::MaxSubs => false,
        RowKind::MinSubs => false,
        _ => true,
    }
}

proof fn field_row_total(
    problem: SoccerProblem,
    program: Program,
    kind: RowKind,
    x: spec_fn(Column) -> int,
)
    requires
        countable(problem),
        is_field_row(kind),
    ensures
        row_total(problem, program, kind, x) == field_sum(problem, share(problem, kind, x)),
{
    let h = share(problem, kind, x);
    sum_by_blocks(problem, program, h);
    total_same(
        |v: int| weight(problem, kind, column_at(problem, v)) * x(column_at(problem, v)),
        |v: int| h(column_at(problem, v)),
        columns(problem, program),
    );
    let m = problem.num_periods as int;
    let rules = |r: int|
        total(|t: int| h(Column::Together { rule: r as usize, period: t as usize }), m);
    assert forall|r: int| 0 <= r < rule_count(problem) implies #[trigger] rules(r) == 0 by {
        let g = |t: int| h(Column::Together { rule: r as usize, period: t as usize });
        assert forall|t: int| 0 <= t < m implies #[trigger] g(t) == 0 by {
            assert(weight(
                problem,
                kind,
                Column::Together { rule: r as usize, period: t as usize },
            ) == 0);
        }
        total_zero(g, m);
    }
    total_zero(rules, rule_count(problem));
    let ons = |p: int| total(|t: int| h(Column::On { player: p as usize, period: t as usize }), m);
    assert forall|p: int| 0 <= p < problem.num_players implies #[trigger] ons(p) == 0 by {
        let g = |t: int| h(Column::On { player: p as usize, period: t as usize });
        assert forall|t: int| 0 <= t < m implies #[trigger] g(t) == 0 by {
            assert(weight(
                problem,
                kind,
                Column::On { player: p as usize, period: t as usize },
            ) == 0);
        }
        total_zero(g, m);
    }
    total_zero(ons, problem.num_players as int);
    let offs = |p: int|
        total(|t: int| h(Column::Off { player: p as usize, period: (t + 1) as usize }), m - 1);
    assert forall|p: int| 0 <= p < problem.num_players implies #[trigger] offs(p) == 0 by {
        let g = |t: int| h(Column::Off { player: p as usize, period: (t + 1) as usize });
        assert forall|t: int| 0 <= t < m - 1 implies #[trigger] g(t) == 0 by {
            assert(weight(
                problem,
                kind,
                Column::Off { player: p as usize, period: (t + 1) as usize },
            ) == 0);
        }
        total_zero(g, m - 1);
    }
    total_zero(offs, problem.num_players as int);
}

/// The row weighs only one player's columns, those of period `t` by `c(t)`.
pub open spec fn weighs_player(
    problem: SoccerProblem,
    kind: RowKind,
    player: int,
    c: spec_fn(int) -> int,
) -> bool {
    forall|p: int, pos: int, t: int|
        0 <= p < problem.num_players && 0 <= pos < problem.num_positions && 0 <= t
            < problem.num_periods ==> #[trigger] weight(problem, kind, field(p, pos, t)) == if p
            == player {
            c(t)
        } else {
            0
        }
}

pub(crate) proof fn player_row(
    problem: SoccerProblem,
    kind: RowKind,
    x: spec_fn(Column) -> int,
    player: int,
    c: spec_fn(int) -> int,
)
    requires
        0 <= player < problem.num_players,
        weighs_player(problem, kind, player, c),
    ensures
        field_sum(problem, share(problem, kind, x)) == total(
            |t: int| c(t) * on_field(problem, x, player, t),
            problem.num_periods as int,
        ),
{
    let n = problem.num_players as int;
    let k = problem.num_positions as int;
    let m = problem.num_periods as int;
    let h = share(problem, kind, x);
    let by_player = |p: int| total(|pos: int| total(|t: int| h(field(p, pos, t)), m), k);
    assert forall|p: int| 0 <= p < n && p != player implies #[trigger] by_player(p) == 0 by {
        let inner = |pos: int| total(|t: int| h(field(p, pos, t)), m);
        assert forall|pos: int| 0 <= pos < k implies #[trigger] inner(pos) == 0 by {
            let cell = |t: int| h(field(p, pos, t));
            assert forall|t: int| 0 <= t < m implies #[trigger] cell(t) == 0 by {
                assert(weight(problem, kind, field(p, pos, t)) == 0);
            }
            total_zero(cell, m);
        }
        total_zero(inner, k);
    }
    total_one(by_player, n, player);
    let g = |pos: int, t: int| c(t) * x(field(player, pos, t));
    let own = |pos: int| total(|t: int| h(field(player, pos, t)), m);
    let weighed = |pos: int| total(|t: int| g(pos, t), m);
    assert forall|pos: int| 0 <= pos < k implies #[trigger] own(pos) == weighed(pos) by {
        let a = |t: int| h(field(player, pos, t));
        let b = |t: int| g(pos, t);
        assert forall|t: int| 0 <= t < m implies #[trigger] a(t) == b(t) by {
            assert(weight(problem, kind, field(player, pos, t)) == c(t));
        }
        total_same(a, b, m);
    }
    total_same(own, weighed, k);
    total_swap(g, k, m);
    let by_period = |t: int| total(|pos: int| g(pos, t), k);
    let goal = |t: int| c(t) * on_field(problem, x, player, t);
    assert forall|t: int| 0 <= t < m implies #[trigger] by_period(t) == goal(t) by {
        let cells = |pos: int| x(field(player, pos, t));
        total_scaled(c(t), cells, k);
        total_same(|pos: int| g(pos, t), |pos: int| c(t) * cells(pos), k);
    }
    total_same(by_period, goal, m);
}

/// The row weighs only the columns of one position and period, all by `c`.
pub open spec fn weighs_position(
    problem: SoccerProblem,
    kind: RowKind,
    position: int,
    period: int,
    c: int,
) -> bool {
    forall|p: int, pos: int, t: int|
        0 <= p < problem.num_players && 0 <= pos < problem.num_positions && 0 <= t
            < problem.num_periods ==> #[trigger] weight(problem, kind, field(p, pos, t)) == if pos
            == position && t == period {
            c
        } else {
            0
        }
}

proof fn position_row(
    problem: SoccerProblem,
    kind: RowKind,
    x: spec_fn(Column) -> int,
    position: int,
    period: int,
    c: int,
)
    requires
        0 <= position < problem.num_positions,
        0 <= period < problem.num_periods,
        weighs_position(problem, kind, position, period, c),
    ensures
        field_sum(problem, share(problem, kind, x)) == c * holders(problem, x, position, period),
{
    let n = problem.num_players as int;
    let k = problem.num_positions as int;
    let m = problem.num_periods as int;
    let h = share(problem, kind, x);
    let by_player = |p: int| total(|pos: int| total(|t: int| h(field(p, pos, t)), m), k);
    let cells = |p: int| x(field(p, position, period));
    let goal = |p: int| c * cells(p);
    assert forall|p: int| 0 <= p < n implies #[trigger] by_player(p) == goal(p) by {
        let inner = |pos: int| total(|t: int| h(field(p, pos, t)), m);
        assert forall|pos: int| 0 <= pos < k && pos != position implies #[trigger] inner(pos)
            == 0 by {
            let cell = |t: int| h(field(p, pos, t));
            assert forall|t: int| 0 <= t < m implies #[trigger] cell(t) == 0 by {
                assert(weight(problem, kind, field(p, pos, t)) == 0);
            }
            total_zero(cell, m);
        }
        total_one(inner, k, position);
        let cell = |t: int| h(field(p, position, t));
        assert forall|t: int| 0 <= t < m && t != period implies #[trigger] cell(t) == 0 by {
            assert(weight(problem, kind, field(p, position, t)) == 0);
        }
        total_one(cell, m, period);
        assert(weight(problem, kind, field(p, position, period)) == c);
    }
    total_same(by_player, goal, n);
    total_scaled(c, cells, n);
}

/// The row weighs only one column, by one.
pub open spec fn weighs_cell(
    problem: SoccerProblem,
    kind: RowKind,
    player: int,
    position: int,
    period: int,
    w: int,
) -> bool {
    forall|p: int, pos: int, t: int|
        0 <= p < problem.num_players && 0 <= pos < problem.num_positions && 0 <= t
            < problem.num_periods ==> #[trigger] weight(problem, kind, field(p, pos, t)) == if p
            == player && pos == position && t == period {
            w
        } else {
            0
        }
}

proof fn cell_row(
    problem: SoccerProblem,
    kind: RowKind,
    x: spec_fn(Column) -> int,
    player: int,
    position: int,
    period: int,
    w: int,
)
    requires
        0 <= player < problem.num_players,
        0 <= position < problem.num_positions,
        0 <= period < problem.num_periods,
        weighs_cell(problem, kind, player, position, period, w),
    ensures
        field_sum(problem, share(problem, kind, x)) == w * x(field(player, position, period)),
{
    let n = problem.num_players as int;
    let k = problem.num_positions as int;
    let m = problem.num_periods as int;
    let h = share(problem, kind, x);
    let by_player = |p: int| total(|pos: int| total(|t: int| h(field(p, pos, t)), m), k);
    assert forall|p: int| 0 <= p < n implies #[trigger] by_player(p) == if p == player {
        w * x(field(player, position, period))
    } else {
        0
    } by {
        let inner = |pos: int| total(|t: int| h(field(p, pos, t)), m);
        assert forall|pos: int| 0 <= pos < k implies #[trigger] inner(pos) == if p == player && pos
            == position {
            w * x(field(player, position, period))
        } else {
            0
        } by {
            let cell = |t: int| h(field(p, pos, t));
            if p == player && pos == position {
                assert forall|t: int| 0 <= t < m && t != period implies #[trigger] cell(t)
                    == 0 by {
                    assert(weight(problem, kind, field(p, pos, t)) == 0);
                }
                total_one(cell, m, period);
                assert(weight(problem, kind, field(p, pos, period)) == w);
            } else {
                assert forall|t: int| 0 <= t < m implies #[trigger] cell(t) == 0 by {
                    assert(weight(problem, kind, field(p, pos, t)) == 0);
                }
                total_zero(cell, m);
            }
        }
        if p == player {
            total_one(inner, k, position);
        } else {
            total_zero(inner, k);
        }
    }
    total_one(by_player, n, player);
}

/// How often a player is on the field in `len` periods from `start` on.
pub open spec fn window(
    problem: SoccerProblem,
    x: spec_fn(Column) -> int,
    p: int,
    start: int,
    len: int,
) -> int {
    total(|i: int| on_field(problem, x, p, start + i), len)
}

/// How often a player was on the field in the period before.
pub open spec fn on_before(
    problem: SoccerProblem,
    x: spec_fn(Column) -> int,
    p: int,
    t: int,
) -> int {
    if t > 0 {
        on_field(problem, x, p, t - 1)
    } else {
        0
    }
}

/// What a row about positions says of a point.
pub open spec fn says(problem: SoccerProblem, x: spec_fn(Column) -> int, kind: RowKind) -> bool {
    match kind {
        RowKind::PlayerOnce { player, period } => on_field(
            problem,
            x,
            player as int,
            period as int,
        ) <= 1,
        RowKind::PositionFilled { position, period, at_least } => if at_least {
            holders(problem, x, position as int, period as int) >= 1
        } else {
            holders(problem, x, position as int, period as int) <= 1
        },
        RowKind::NoConsecutiveBench { player, period } => on_field(
            problem,
            x,
            player as int,
            period as int,
        ) + on_field(problem, x, player as int, period + 1) >= 1,
        RowKind::MaxStint { player, start } => {
            let limit = max_stint(problem, player as int)->0;
            window(problem, x, player as int, start as int, limit + 1) <= limit
        },
        RowKind::MaxBench { player, start } => {
            let limit = max_bench(problem, player as int)->0;
            window(problem, x, player as int, start as int, limit + 1) >= 1
        },
        RowKind::NoLateStart { player, start } => on_field(
            problem,
            x,
            player as int,
            start as int,
        ) <= on_before(problem, x, player as int, start as int),
        RowKind::MinStint { player, start, period } => on_field(
            problem,
            x,
            player as int,
            start as int,
        ) <= on_before(problem, x, player as int, start as int) + on_field(
            problem,
            x,
            player as int,
            period as int,
        ),
        RowKind::Unavailable { player, period } => on_field(
            problem,
            x,
            player as int,
            period as int,
        ) <= 0,
        RowKind::Fixed { player, period } => x(
            field(player as int, fixed_at(problem, player as int)->0 as int, period as int),
        ) <= 1,
        RowKind::FixedPlays { player, period } => x(
            field(player as int, fixed_at(problem, player as int)->0 as int, period as int),
        ) >= 1,
        RowKind::FixedBan { player, period, position } => x(
            field(player as int, position as int, period as int),
        ) <= 0,
        RowKind::Banned { player, position, period } => x(
            field(player as int, position as int, period as int),
        ) <= 0,
        _ => true,
    }
}

proof fn window_total(
    problem: SoccerProblem,
    x: spec_fn(Column) -> int,
    p: int,
    start: int,
    len: int,
    sign: int,
)
    requires
        0 <= start,
        0 <= len,
        start + len <= problem.num_periods,
    ensures
        total(
            |t: int|
                (if start <= t < start + len {
                    sign
                } else {
                    0
                }) * on_field(problem, x, p, t),
            problem.num_periods as int,
        ) == sign * window(problem, x, p, start, len),
{
    let m = problem.num_periods as int;
    let f = |t: int|
        (if start <= t < start + len {
            sign
        } else {
            0
        }) * on_field(problem, x, p, t);
    total_split(f, start, len);
    total_split(f, start + len, m - start - len);
    total_zero(f, start);
    total_zero(|i: int| f(start + len + i), m - start - len);
    let on = |i: int| on_field(problem, x, p, start + i);
    total_scaled(sign, on, len);
    total_same(|i: int| f(start + i), |i: int| sign * on(i), len);
}

proof fn signed(c: int, v: int)
    ensures
        c == 1 ==> c * v == v,
        c == -1 ==> c * v == -v,
        c == 0 ==> c * v == 0,
{
}

proof fn player_once_says(
    problem: SoccerProblem,
    program: Program,
    x: spec_fn(Column) -> int,
    player: usize,
    period: usize,
)
    requires
        countable(problem),
        applies(problem, program, RowKind::PlayerOnce { player, period }),
    ensures
        row_total(problem, program, RowKind::PlayerOnce { player, period }, x) <= bound(
            problem,
            RowKind::PlayerOnce { player, period },
        ) <==> says(problem, x, RowKind::PlayerOnce { player, period }),
{
    let kind = RowKind::PlayerOnce { player, period };
    let m = problem.num_periods as int;
    field_row_total(problem, program, kind, x);
    let c = |t: int|
        if t == period {
            1int
        } else {
            0
        };
    player_row(problem, kind, x, player as int, c);
    let f = |t: int| c(t) * on_field(problem, x, player as int, t);
    total_one(f, m, period as int);
    signed(c(period as int), on_field(problem, x, player as int, period as int));
    assert(f(period as int) == on_field(problem, x, player as int, period as int));
}

proof fn position_filled_says(
    problem: SoccerProblem,
    program: Program,
    x: spec_fn(Column) -> int,
    position: usize,
    period: usize,
    at_least: bool,
)
    requires
        countable(problem),
        applies(problem, program, RowKind::PositionFilled { position, period, at_least }),
    ensures
        row_total(problem, program, RowKind::PositionFilled { position, period, at_least }, x) <= bound(
            problem,
            RowKind::PositionFilled { position, period, at_least },
        ) <==> says(problem, x, RowKind::PositionFilled { position, period, at_least }),
{
    let kind = RowKind::PositionFilled { position, period, at_least };
    let m = problem.num_periods as int;
    field_row_total(problem, program, kind, x);
    let c = if at_least {
        -1int
    } else {
        1
    };
    position_row(problem, kind, x, position as int, period as int, c);
}

proof fn no_consecutive_bench_says(
    problem: SoccerProblem,
    program: Program,
    x: spec_fn(Column) -> int,
    player: usize,
    period: usize,
)
    requires
        countable(problem),
        applies(problem, program, RowKind::NoConsecutiveBench { player, period }),
    ensures
        row_total(problem, program, RowKind::NoConsecutiveBench { player, period }, x) <= bound(
            problem,
            RowKind::NoConsecutiveBench { player, period },
        ) <==> says(problem, x, RowKind::NoConsecutiveBench { player, period }),
{
    let kind = RowKind::NoConsecutiveBench { player, period };
    let m = problem.num_periods as int;
    field_row_total(problem, program, kind, x);
    let c = |t: int|
        if t == period || t == period + 1 {
            -1int
        } else {
            0
        };
    player_row(problem, kind, x, player as int, c);
    let f = |t: int| c(t) * on_field(problem, x, player as int, t);
    total_two(f, m, period as int, period + 1);
    assert(c(period as int) == -1 && c(period + 1) == -1);
    signed(c(period as int), on_field(problem, x, player as int, period as int));
    assert(f(period as int) == -on_field(problem, x, player as int, period as int));
    signed(c(period + 1), on_field(problem, x, player as int, period + 1));
    assert(f(period + 1) == -on_field(problem, x, player as int, period + 1));
}

proof fn max_stint_says(
    problem: SoccerProblem,
    program: Program,
    x: spec_fn(Column) -> int,
    player: usize,
    start: usize,
)
    requires
        countable(problem),
        applies(problem, program, RowKind::MaxStint { player, start }),
    ensures
        row_total(problem, program, RowKind::MaxStint { player, start }, x) <= bound(
            problem,
            RowKind::MaxStint { player, start },
        ) <==> says(problem, x, RowKind::MaxStint { player, start }),
{
    let kind = RowKind::MaxStint { player, start };
    let m = problem.num_periods as int;
    field_row_total(problem, program, kind, x);
    let len = max_stint(problem, player as int)->0 + 1;
    let c = |t: int|
        if start <= t < start + len {
            1int
        } else {
            0
        };
    player_row(problem, kind, x, player as int, c);
    window_total(problem, x, player as int, start as int, len, 1);
    total_same(
        |t: int| c(t) * on_field(problem, x, player as int, t),
        |t: int|
            (if start <= t < start + len {
                1int
            } else {
                0
            }) * on_field(problem, x, player as int, t),
        m,
    );
}

proof fn max_bench_says(
    problem: SoccerProblem,
    program: Program,
    x: spec_fn(Column) -> int,
    player: usize,
    start: usize,
)
    requires
        countable(problem),
        applies(problem, program, RowKind::MaxBench { player, start }),
    ensures
        row_total(problem, program, RowKind::MaxBench { player, start }, x) <= bound(
            problem,
            RowKind::MaxBench { player, start },
        ) <==> says(problem, x, RowKind::MaxBench { player, start }),
{
    let kind = RowKind::MaxBench { player, start };
    let m = problem.num_periods as int;
    field_row_total(problem, program, kind, x);
    let len = max_bench(problem, player as int)->0 + 1;
    let c = |t: int|
        if start <= t < start + len {
            -1int
        } else {
            0
        };
    player_row(problem, kind, x, player as int, c);
    window_total(problem, x, player as int, start as int, len, -1);
    total_same(
        |t: int| c(t) * on_field(problem, x, player as int, t),
        |t: int|
            (if start <= t < start + len {
                -1int
            } else {
                0
            }) * on_field(problem, x, player as int, t),
        m,
    );
}

proof fn no_late_start_says(
    problem: SoccerProblem,
    program: Program,
    x: spec_fn(Column) -> int,
    player: usize,
    start: usize,
)
    requires
        countable(problem),
        applies(problem, program, RowKind::NoLateStart { player, start }),
    ensures
        row_total(problem, program, RowKind::NoLateStart { player, start }, x) <= bound(
            problem,
            RowKind::NoLateStart { player, start },
        ) <==> says(problem, x, RowKind::NoLateStart { player, start }),
{
    let kind = RowKind::NoLateStart { player, start };
    let m = problem.num_periods as int;
    field_row_total(problem, program, kind, x);
    let c = |t: int|
        if t == start {
            1int
        } else if t + 1 == start {
            -1
        } else {
            0
        };
    player_row(problem, kind, x, player as int, c);
    let f = |t: int| c(t) * on_field(problem, x, player as int, t);
    assert(c(start as int) == 1);
    signed(c(start as int), on_field(problem, x, player as int, start as int));
    if start > 0 {
        assert(c(start - 1) == -1);
        signed(c(start - 1), on_field(problem, x, player as int, start - 1));
        total_two(f, m, start - 1, start as int);
    } else {
        total_one(f, m, start as int);
    }
}

proof fn min_stint_says(
    problem: SoccerProblem,
    program: Program,
    x: spec_fn(Column) -> int,
    player: usize,
    start: usize,
    period: usize,
)
    requires
        countable(problem),
        applies(problem, program, RowKind::MinStint { player, start, period }),
    ensures
        row_total(problem, program, RowKind::MinStint { player, start, period }, x) <= bound(
            problem,
            RowKind::MinStint { player, start, period },
        ) <==> says(problem, x, RowKind::MinStint { player, start, period }),
{
    let kind = RowKind::MinStint { player, start, period };
    let m = problem.num_periods as int;
    field_row_total(problem, program, kind, x);
    let c = |t: int|
        if t == start {
            1int
        } else if t + 1 == start || t == period {
            -1
        } else {
            0
        };
    player_row(problem, kind, x, player as int, c);
    let f = |t: int| c(t) * on_field(problem, x, player as int, t);
    assert(c(start as int) == 1 && c(period as int) == -1);
    signed(c(start as int), on_field(problem, x, player as int, start as int));
    assert(f(start as int) == on_field(problem, x, player as int, start as int));
    signed(c(period as int), on_field(problem, x, player as int, period as int));
    assert(f(period as int) == -on_field(problem, x, player as int, period as int));
    if start > 0 {
        assert(c(start - 1) == -1);
        signed(c(start - 1), on_field(problem, x, player as int, start - 1));
        assert(f(start - 1) == -on_field(problem, x, player as int, start - 1));
        let a = |t: int|
            if t == period {
                0
            } else {
                f(t)
            };
        let b = |t: int|
            if t == period {
                f(t)
            } else {
                0
            };
        total_plus(a, b, m);
        total_same(f, |t: int| a(t) + b(t), m);
        total_two(a, m, start - 1, start as int);
        total_one(b, m, period as int);
    } else {
        total_two(f, m, start as int, period as int);
    }
}

proof fn unavailable_says(
    problem: SoccerProblem,
    program: Program,
    x: spec_fn(Column) -> int,
    player: usize,
    period: usize,
)
    requires
        countable(problem),
        applies(problem, program, RowKind::Unavailable { player, period }),
    ensures
        row_total(problem, program, RowKind::Unavailable { player, period }, x) <= bound(
            problem,
            RowKind::Unavailable { player, period },
        ) <==> says(problem, x, RowKind::Unavailable { player, period }),
{
    let kind = RowKind::Unavailable { player, period };
    let m = problem.num_periods as int;
    field_row_total(problem, program, kind, x);
    let c = |t: int|
        if t == period {
            1int
        } else {
            0
        };
    player_row(problem, kind, x, player as int, c);
    let f = |t: int| c(t) * on_field(problem, x, player as int, t);
    total_one(f, m, period as int);
    signed(c(period as int), on_field(problem, x, player as int, period as int));
    assert(f(period as int) == on_field(problem, x, player as int, period as int));
}

proof fn fixed_says(
    problem: SoccerProblem,
    program: Program,
    x: spec_fn(Column) -> int,
    player: usize,
    period: usize,
)
    requires
        countable(problem),
        applies(problem, program, RowKind::Fixed { player, period }),
    ensures
        row_total(problem, program, RowKind::Fixed { player, period }, x) <= bound(
            problem,
            RowKind::Fixed { player, period },
        ) <==> says(problem, x, RowKind::Fixed { player, period }),
{
    let kind = RowKind::Fixed { player, period };
    let m = problem.num_periods as int;
    field_row_total(problem, program, kind, x);
    cell_row(
        problem,
        kind,
        x,
        player as int,
        fixed_at(problem, player as int)->0 as int,
        period as int,
        1,
    );
}

proof fn fixed_plays_says(
    problem: SoccerProblem,
    program: Program,
    x: spec_fn(Column) -> int,
    player: usize,
    period: usize,
)
    requires
        countable(problem),
        applies(problem, program, RowKind::FixedPlays { player, period }),
    ensures
        row_total(problem, program, RowKind::FixedPlays { player, period }, x) <= bound(
            problem,
            RowKind::FixedPlays { player, period },
        ) <==> says(problem, x, RowKind::FixedPlays { player, period }),
{
    let kind = RowKind::FixedPlays { player, period };
    let m = problem.num_periods as int;
    field_row_total(problem, program, kind, x);
    cell_row(
        problem,
        kind,
        x,
        player as int,
        fixed_at(problem, player as int)->0 as int,
        period as int,
        -1,
    );
}

proof fn fixed_ban_says(
    problem: SoccerProblem,
    program: Program,
    x: spec_fn(Column) -> int,
    player: usize,
    period: usize,
    position: usize,
)
    requires
        countable(problem),
        applies(problem, program, RowKind::FixedBan { player, period, position }),
    ensures
        row_total(problem, program, RowKind::FixedBan { player, period, position }, x) <= bound(
            problem,
            RowKind::FixedBan { player, period, position },
        ) <==> says(problem, x, RowKind::FixedBan { player, period, position }),
{
    let kind = RowKind::FixedBan { player, period, position };
    let m = problem.num_periods as int;
    field_row_total(problem, program, kind, x);
    cell_row(problem, kind, x, player as int, position as int, period as int, 1);
}

proof fn banned_says(
    problem: SoccerProblem,
    program: Program,
    x: spec_fn(Column) -> int,
    player: usize,
    position: usize,
    period: usize,
)
    requires
        countable(problem),
        applies(problem, program, RowKind::Banned { player, position, period }),
    ensures
        row_total(problem, program, RowKind::Banned { player, position, period }, x) <= bound(
            problem,
            RowKind::Banned { player, position, period },
        ) <==> says(problem, x, RowKind::Banned { player, position, period }),
{
    let kind = RowKind::Banned { player, position, period };
    let m = problem.num_periods as int;
    field_row_total(problem, program, kind, x);
    cell_row(problem, kind, x, player as int, position as int, period as int, 1);
}

/// Every row about positions says of a point what its words say.
pub proof fn rows_speak_of_positions(
    problem: SoccerProblem,
    program: Program,
    kind: RowKind,
    x: spec_fn(Column) -> int,
)
    requires
        countable(problem),
        applies(problem, program, kind),
        is_field_row(kind),
    ensures
        row_total(problem, program, kind, x) <= bound(problem, kind) <==> says(problem, x, kind),
{
    match kind {
        RowKind::PlayerOnce { player, period } => {
            player_once_says(problem, program, x, player, period);
        },
        RowKind::PositionFilled { position, period, at_least } => {
            position_filled_says(problem, program, x, position, period, at_least);
        },
        RowKind::NoConsecutiveBench { player, period } => {
            no_consecutive_bench_says(problem, program, x, player, period);
        },
        RowKind::MaxStint { player, start } => {
            max_stint_says(problem, program, x, player, start);
        },
        RowKind::MaxBench { player, start } => {
            max_bench_says(problem, program, x, player, start);
        },
        RowKind::NoLateStart { player, start } => {
            no_late_start_says(problem, program, x, player, start);
        },
        RowKind::MinStint { player, start, period } => {
            min_stint_says(problem, program, x, player, start, period);
        },
        RowKind::Unavailable { player, period } => {
            unavailable_says(problem, program, x, player, period);
        },
        RowKind::Fixed { player, period } => {
            fixed_says(problem, program, x, player, period);
        },
        RowKind::FixedPlays { player, period } => {
            fixed_plays_says(problem, program, x, player, period);
        },
        RowKind::FixedBan { player, period, position } => {
            fixed_ban_says(problem, program, x, player, period, position);
        },
        RowKind::Banned { player, position, period } => {
            banned_says(problem, program, x, player, position, period);
        },
        _ => {},
    }
}

/// Both players of a rule are at its positions in the period.
pub open spec fn are_together(
    problem: SoccerProblem,
    schedule: Schedule,
    rule: int,
    t: int,
) -> bool {
    let r = problem.synergy_rules->0@[rule];
    &&& schedule.assignment@[t]@[r.position as int] == r.player
    &&& schedule.assignment@[t]@[r.partner_position as int] == r.partner_player
}

pub open spec fn flag(b: bool) -> int {
    if b {
        1
    } else {
        0
    }
}

/// The point of a schedule: who holds which position, which rules pay, who is on the field, and
/// who was taken off.
pub open spec fn point_of(problem: SoccerProblem, schedule: Schedule) -> spec_fn(Column) -> int {
    |c: Column|
        match c {
            Column::Field { player, position, period } => flag(
                schedule.assignment@[period as int]@[position as int] == player,
            ),
            Column::Together { rule, period } => flag(
                are_together(problem, schedule, rule as int, period as int),
            ),
            Column::On { player, period } => flag(plays(schedule, player as int, period as int)),
            Column::Off { player, period } => flag(
                plays(schedule, player as int, period - 1) && !plays(
                    schedule,
                    player as int,
                    period as int,
                ),
            ),
        }
}

pub(crate) proof fn playing_counts_once(problem: SoccerProblem, schedule: Schedule, p: int, t: int)
    requires
        schedule_ok(problem, schedule),
        0 <= p < problem.num_players,
        0 <= t < problem.num_periods,
    ensures
        on_field(problem, point_of(problem, schedule), p, t) == flag(plays(schedule, p, t)),
{
    let x = point_of(problem, schedule);
    let k = problem.num_positions as int;
    let row = schedule.assignment@[t]@;
    let f = |pos: int| x(field(p, pos, t));
    assert(period_ok(problem, schedule.assignment@[t]@, schedule.bench@[t]@));
    assert forall|pos: int| 0 <= pos < k implies #[trigger] f(pos) == flag(row[pos] == p) by {}
    if plays(schedule, p, t) {
        let q = choose|q: int| 0 <= q < row.len() && #[trigger] row[q] == p;
        assert forall|pos: int| 0 <= pos < k && pos != q implies #[trigger] f(pos) == 0 by {
            assert(row[pos] != row[q]);
        }
        total_one(f, k, q);
    } else {
        assert forall|pos: int| 0 <= pos < k implies #[trigger] f(pos) == 0 by {
            assert(row[pos] != p);
        }
        total_zero(f, k);
    }
}

pub(crate) proof fn positions_have_one_holder(
    problem: SoccerProblem,
    schedule: Schedule,
    pos: int,
    t: int,
)
    requires
        schedule_ok(problem, schedule),
        0 <= pos < problem.num_positions,
        0 <= t < problem.num_periods,
    ensures
        holders(problem, point_of(problem, schedule), pos, t) == 1,
{
    let x = point_of(problem, schedule);
    let row = schedule.assignment@[t]@;
    let f = |p: int| x(field(p, pos, t));
    assert(period_ok(problem, schedule.assignment@[t]@, schedule.bench@[t]@));
    let q = row[pos] as int;
    assert(0 <= row[pos] < problem.num_players);
    assert forall|p: int| 0 <= p < problem.num_players implies #[trigger] f(p) == flag(p == q) by {
    }
    total_one(f, problem.num_players as int, q);
}

/// Everybody is on the field or on the bench.
pub(crate) proof fn everybody_is_somewhere(
    problem: SoccerProblem,
    row: Seq<i64>,
    bench: Seq<usize>,
    p: int,
)
    requires
        period_ok(problem, row, bench),
        0 <= p < problem.num_players,
    ensures
        fields(row, p) || bench.contains(p as usize),
{
    if !fields(row, p) && !bench.contains(p as usize) {
        let n = problem.num_players as int;
        let on = Seq::new(row.len(), |i: int| row[i] as usize);
        let all = (on + bench).push(p as usize);
        let numbers = Seq::new(n as nat, |i: int| i as usize);
        assert forall|i: int, j: int| 0 <= i < j < all.len() implies all[i] != all[j] by {
            let k = row.len() as int;
            let m = k + bench.len();
            if i < k {
                assert(0 <= row[i] < n);
                if j < k {
                    assert(row[i] != row[j]);
                    assert(0 <= row[j] < n);
                } else if j < m {
                    assert(!fields(row, bench[j - k] as int));
                } else {
                    assert(row[i] != p);
                }
            } else if j < m {
                assert(bench[i - k] != bench[j - k]);
            } else {
                assert(bench[i - k] != p as usize);
            }
        }
        assert(all.no_duplicates());
        assert forall|i: int| 0 <= i < all.len() implies numbers.contains(#[trigger] all[i]) by {
            let k = row.len() as int;
            if i < k {
                assert(0 <= row[i] < n);
            } else if i < k + bench.len() {
                assert(bench[i - k] < n);
            }
            assert(numbers[all[i] as int] == all[i]);
        }
        distinct_members_are_no_more(all, numbers);
    }
}

proof fn benched_again_is_listed(
    problem: SoccerProblem,
    bench: Seq<usize>,
    next: Seq<usize>,
    t: int,
    n: int,
    i: int,
)
    requires
        0 <= i < n <= bench.len(),
        fieldable(problem, bench[i] as int),
        next.contains(bench[i]),
    ensures
        benched_again(problem, bench, next, t, n).len() > 0,
    decreases n,
{
    if i < n - 1 {
        benched_again_is_listed(problem, bench, next, t, n - 1, i);
    }
}

pub(crate) proof fn unfairness_is_listed(
    problem: SoccerProblem,
    bench: Seq<Vec<usize>>,
    periods: int,
    t: int,
    p: usize,
)
    requires
        0 <= t,
        t + 1 < periods <= bench.len(),
        fieldable(problem, p as int),
        bench[t]@.contains(p),
        bench[t + 1]@.contains(p),
    ensures
        unfair(problem, bench, periods).len() > 0,
    decreases periods,
{
    if t + 2 == periods {
        let i = choose|i: int| 0 <= i < bench[t]@.len() && bench[t]@[i] == p;
        benched_again_is_listed(
            problem,
            bench[t]@,
            bench[t + 1]@,
            t,
            bench[t]@.len() as int,
            i,
        );
    } else {
        unfairness_is_listed(problem, bench, periods - 1, t, p);
    }
}

/// Flags that are set from `a` up to `b` are part of a run.
proof fn set_flags_are_in_a_run(flags: Seq<bool>, a: int, b: int)
    requires
        0 <= a < b <= flags.len(),
        forall|t: int| a <= t < b ==> flags[t],
    ensures
        exists|s: int, e: int| #[trigger] is_run(flags, s, e) && s <= a && b <= e,
    decreases a + flags.len() - b,
{
    if a > 0 && flags[a - 1] {
        set_flags_are_in_a_run(flags, a - 1, b);
        let (s, e) = choose|s: int, e: int| #[trigger] is_run(flags, s, e) && s <= a - 1 && b <= e;
        assert(is_run(flags, s, e) && s <= a && b <= e);
    } else if b < flags.len() && flags[b] {
        set_flags_are_in_a_run(flags, a, b + 1);
        let (s, e) = choose|s: int, e: int| #[trigger] is_run(flags, s, e) && s <= a && b + 1 <= e;
        assert(is_run(flags, s, e) && s <= a && b <= e);
    } else {
        assert(is_run(flags, a, b));
    }
}

proof fn no_late_start_in_lawful(problem: SoccerProblem, schedule: Schedule, p: int, start: int)
    requires
        keeps_rules(problem, schedule),
        0 <= p < problem.num_players,
        0 <= start < problem.num_periods,
        min_stint(problem, p) is Some,
        plays(schedule, p, start),
        start > 0 ==> !plays(schedule, p, start - 1),
    ensures
        start + min_stint(problem, p)->0 <= problem.num_periods,
        forall|t: int|
            start <= t < start + min_stint(problem, p)->0 ==> #[trigger] plays(schedule, p, t),
{
    let flags = field_row(problem, schedule, p);
    assert(flags[start]);
    set_flags_are_in_a_run(flags, start, start + 1);
    let (s, e) = choose|s: int, e: int| #[trigger]
        is_run(flags, s, e) && s <= start && start + 1 <= e;
    if s < start {
        assert(flags[start - 1]);
    }
    assert(!short_stint(problem, schedule, p, s, e));
    assert forall|t: int| start <= t < start + min_stint(problem, p)->0 implies #[trigger] plays(
        schedule,
        p,
        t,
    ) by {
        assert(flags[t]);
    }
}

/// Whoever has a fixed position holds it in every period.
pub open spec fn fixed_players_play(problem: SoccerProblem, schedule: Schedule) -> bool {
    forall|p: int, t: int|
        0 <= p < problem.num_players && 0 <= t < problem.num_periods ==> (#[trigger] fixed_at(
            problem,
            p,
        ) matches Some(pos) ==> pos < problem.num_positions ==> (
        #[trigger] schedule.assignment@[t])@[pos as int] == p)
}

pub(crate) proof fn lawful_schedules_say(
    problem: SoccerProblem,
    program: Program,
    schedule: Schedule,
    kind: RowKind,
)
    requires
        keeps_rules(problem, schedule),
        applies(problem, program, kind),
        is_field_row(kind),
        kind is FixedPlays ==> fixed_players_play(problem, schedule),
    ensures
        says(problem, point_of(problem, schedule), kind),
{
    let x = point_of(problem, schedule);
    match kind {
        RowKind::PlayerOnce { player, period } => {
            playing_counts_once(problem, schedule, player as int, period as int);
        },
        RowKind::PositionFilled { position, period, at_least } => {
            positions_have_one_holder(problem, schedule, position as int, period as int);
        },
        RowKind::NoConsecutiveBench { player, period } => {
            let p = player as int;
            let t = period as int;
            playing_counts_once(problem, schedule, p, t);
            playing_counts_once(problem, schedule, p, t + 1);
            if !plays(schedule, p, t) && !plays(schedule, p, t + 1) {
                assert(period_ok(problem, schedule.assignment@[t]@, schedule.bench@[t]@));
                assert(period_ok(problem, schedule.assignment@[t + 1]@, schedule.bench@[t + 1]@));
                everybody_is_somewhere(
                    problem,
                    schedule.assignment@[t]@,
                    schedule.bench@[t]@,
                    p,
                );
                everybody_is_somewhere(
                    problem,
                    schedule.assignment@[t + 1]@,
                    schedule.bench@[t + 1]@,
                    p,
                );
                unfairness_is_listed(
                    problem,
                    schedule.bench@,
                    problem.num_periods as int,
                    t,
                    player,
                );
            }
        },
        RowKind::MaxStint { player, start } => {
            let p = player as int;
            let limit = max_stint(problem, p)->0;
            let f = |i: int| on_field(problem, x, p, start + i);
            assert forall|i: int| 0 <= i < limit + 1 implies #[trigger] f(i) == flag(
                plays(schedule, p, start + i),
            ) by {
                playing_counts_once(problem, schedule, p, start + i);
            }
            total_of_flags(f, limit + 1);
            if forall|i: int| 0 <= i < limit + 1 ==> #[trigger] f(i) == 1 {
                let flags = field_row(problem, schedule, p);
                assert forall|t: int| start <= t < start + limit + 1 implies flags[t] by {
                    assert(f(t - start) == 1);
                }
                set_flags_are_in_a_run(flags, start as int, start + limit + 1);
                let (s, e) = choose|s: int, e: int| #[trigger]
                    is_run(flags, s, e) && s <= start && start + limit + 1 <= e;
                assert(overlong(problem, schedule, p, s, e));
            }
        },
        RowKind::MaxBench { player, start } => {
            let p = player as int;
            let limit = max_bench(problem, p)->0;
            let f = |i: int| on_field(problem, x, p, start + i);
            assert forall|i: int| 0 <= i < limit + 1 implies #[trigger] f(i) == flag(
                plays(schedule, p, start + i),
            ) by {
                playing_counts_once(problem, schedule, p, start + i);
            }
            total_bounds(f, limit + 1);
            if forall|i: int| 0 <= i < limit + 1 ==> #[trigger] f(i) == 0 {
                let flags = bench_row(problem, schedule, p);
                assert forall|t: int| start <= t < start + limit + 1 implies flags[t] by {
                    assert(f(t - start) == 0);
                }
                set_flags_are_in_a_run(flags, start as int, start + limit + 1);
                let (s, e) = choose|s: int, e: int| #[trigger]
                    is_run(flags, s, e) && s <= start && start + limit + 1 <= e;
                assert(long_bench(problem, schedule, p, s, e));
            } else {
                let i = choose|i: int| 0 <= i < limit + 1 && #[trigger] f(i) != 0;
                assert(f(i) <= total(f, limit + 1));
            }
        },
        RowKind::NoLateStart { player, start } => {
            let p = player as int;
            playing_counts_once(problem, schedule, p, start as int);
            if start > 0 {
                playing_counts_once(problem, schedule, p, start - 1);
            }
            if plays(schedule, p, start as int) && (start == 0 || !plays(schedule, p, start - 1)) {
                no_late_start_in_lawful(problem, schedule, p, start as int);
            }
        },
        RowKind::MinStint { player, start, period } => {
            let p = player as int;
            playing_counts_once(problem, schedule, p, start as int);
            playing_counts_once(problem, schedule, p, period as int);
            if start > 0 {
                playing_counts_once(problem, schedule, p, start - 1);
            }
            if plays(schedule, p, start as int) && (start == 0 || !plays(schedule, p, start - 1)) {
                no_late_start_in_lawful(problem, schedule, p, start as int);
                assert(plays(schedule, p, period as int));
            }
        },
        RowKind::Unavailable { player, period } => {
            playing_counts_once(problem, schedule, player as int, period as int);
            let row = schedule.assignment@[period as int]@;
            assert(period_ok(problem, row, schedule.bench@[period as int]@));
            if plays(schedule, player as int, period as int) {
                let q = choose|q: int| 0 <= q < row.len() && #[trigger] row[q] == player;
                assert(can_play(problem, row[q] as int, q));
            }
        },
        RowKind::FixedPlays { player, period } => {
            assert(fixed_at(problem, player as int) is Some);
            assert(schedule.assignment@[period as int]@.len() >= 0);
        },
        RowKind::FixedBan { player, period, position } => {
            let row = schedule.assignment@[period as int]@;
            assert(period_ok(problem, row, schedule.bench@[period as int]@));
            assert(can_play(problem, row[position as int] as int, position as int));
        },
        RowKind::Banned { player, position, period } => {
            let row = schedule.assignment@[period as int]@;
            assert(period_ok(problem, row, schedule.bench@[period as int]@));
            assert(can_play(problem, row[position as int] as int, position as int));
        },
        _ => {},
    }
}

/// The relaxation of a problem leaves no schedule out that keeps the rules, however many
/// substitutions it makes: the point of the schedule keeps every row, and every position of every
/// period has exactly one holder.
pub proof fn relaxation_admits_lawful_schedules(problem: SoccerProblem, schedule: Schedule)
    requires
        countable(problem),
        keeps_rules(problem, schedule),
    ensures
        keeps_rows(problem, Program::Relaxation, point_of(problem, schedule)),
        forall|pos: int, t: int|
            0 <= pos < problem.num_positions && 0 <= t < problem.num_periods ==> #[trigger] holders(
                problem,
                point_of(problem, schedule),
                pos,
                t,
            ) == 1,
{
    let x = point_of(problem, schedule);
    assert forall|kind: RowKind| #[trigger]
        applies(problem, Program::Relaxation, kind) implies row_total(
        problem,
        Program::Relaxation,
        kind,
        x,
    ) <= bound(problem, kind) by {
        lawful_schedules_say(problem, Program::Relaxation, schedule, kind);
        rows_speak_of_positions(problem, Program::Relaxation, kind, x);
    }
    assert forall|pos: int, t: int|
        0 <= pos < problem.num_positions && 0 <= t < problem.num_periods implies #[trigger] holders(
        problem,
        x,
        pos,
        t,
    ) == 1 by {
        positions_have_one_holder(problem, schedule, pos, t);
    }
}

pub(crate) proof fn whole_row_total(
    problem: SoccerProblem,
    kind: RowKind,
    x: spec_fn(Column) -> int,
)
    requires
        countable(problem),
    ensures
        ({
            let h = share(problem, kind, x);
            row_total(problem, Program::Exact, kind, x) == field_sum(problem, h) + rule_sum(
                problem,
                h,
            ) + on_sum(problem, h) + off_sum(problem, h)
        }),
{
    let h = share(problem, kind, x);
    sum_by_blocks(problem, Program::Exact, h);
    total_same(
        |v: int| weight(problem, kind, column_at(problem, v)) * x(column_at(problem, v)),
        |v: int| h(column_at(problem, v)),
        columns(problem, Program::Exact),
    );
}

/// The values of the columns of positions other than one cell are zero.
pub open spec fn only_at(
    problem: SoccerProblem,
    h: spec_fn(Column) -> int,
    p: int,
    pos: int,
    t: int,
) -> bool {
    forall|q: int, r: int, u: int|
        0 <= q < problem.num_players && 0 <= r < problem.num_positions && 0 <= u
            < problem.num_periods && !(q == p && r == pos && u == t) ==> h(
            #[trigger] field(q, r, u),
        ) == 0
}

pub(crate) proof fn field_sum_of_cell(
    problem: SoccerProblem,
    h: spec_fn(Column) -> int,
    p: int,
    pos: int,
    t: int,
)
    requires
        0 <= p < problem.num_players,
        0 <= pos < problem.num_positions,
        0 <= t < problem.num_periods,
        only_at(problem, h, p, pos, t),
    ensures
        field_sum(problem, h) == h(field(p, pos, t)),
{
    let n = problem.num_players as int;
    let k = problem.num_positions as int;
    let m = problem.num_periods as int;
    let outer = |q: int| total(|r: int| total(|u: int| h(field(q, r, u)), m), k);
    assert forall|q: int| 0 <= q < n implies #[trigger] outer(q) == if q == p {
        h(field(p, pos, t))
    } else {
        0
    } by {
        let inner = |r: int| total(|u: int| h(field(q, r, u)), m);
        assert forall|r: int| 0 <= r < k implies #[trigger] inner(r) == if q == p && r == pos {
            h(field(p, pos, t))
        } else {
            0
        } by {
            let cell = |u: int| h(field(q, r, u));
            if q == p && r == pos {
                assert forall|u: int| 0 <= u < m && u != t implies #[trigger] cell(u) == 0 by {
                    assert(h(field(q, r, u)) == 0);
                }
                total_one(cell, m, t);
            } else {
                assert forall|u: int| 0 <= u < m implies #[trigger] cell(u) == 0 by {
                    assert(h(field(q, r, u)) == 0);
                }
                total_zero(cell, m);
            }
        }
        if q == p {
            total_one(inner, k, pos);
        } else {
            total_zero(inner, k);
        }
    }
    total_one(outer, n, p);
}

pub(crate) proof fn field_sum_plus(
    problem: SoccerProblem,
    f: spec_fn(Column) -> int,
    g: spec_fn(Column) -> int,
    h: spec_fn(Column) -> int,
)
    requires
        forall|p: int, pos: int, t: int| h(#[trigger] field(p, pos, t)) == f(field(p, pos, t)) + g(
            field(p, pos, t),
        ),
    ensures
        field_sum(problem, h) == field_sum(problem, f) + field_sum(problem, g),
{
    let n = problem.num_players as int;
    let k = problem.num_positions as int;
    let m = problem.num_periods as int;
    let a = |p: int| total(|pos: int| total(|t: int| f(field(p, pos, t)), m), k);
    let b = |p: int| total(|pos: int| total(|t: int| g(field(p, pos, t)), m), k);
    let c = |p: int| total(|pos: int| total(|t: int| h(field(p, pos, t)), m), k);
    assert forall|p: int| 0 <= p < n implies #[trigger] c(p) == a(p) + b(p) by {
        let d = |pos: int| total(|t: int| f(field(p, pos, t)), m);
        let e = |pos: int| total(|t: int| g(field(p, pos, t)), m);
        let i = |pos: int| total(|t: int| h(field(p, pos, t)), m);
        assert forall|pos: int| 0 <= pos < k implies #[trigger] i(pos) == d(pos) + e(pos) by {
            let u = |t: int| f(field(p, pos, t));
            let v = |t: int| g(field(p, pos, t));
            let w = |t: int| h(field(p, pos, t));
            total_plus(u, v, m);
            assert forall|t: int| 0 <= t < m implies #[trigger] w(t) == (|t: int| u(t) + v(t))(
                t
            ) by {
                assert(h(field(p, pos, t)) == f(field(p, pos, t)) + g(field(p, pos, t)));
            }
            total_same(w, |t: int| u(t) + v(t), m);
        }
        total_plus(d, e, k);
        total_same(i, |pos: int| d(pos) + e(pos), k);
    }
    total_plus(a, b, n);
    total_same(c, |p: int| a(p) + b(p), n);
}

pub(crate) proof fn field_sum_zero(problem: SoccerProblem, h: spec_fn(Column) -> int)
    requires
        forall|p: int, pos: int, t: int| h(#[trigger] field(p, pos, t)) == 0,
    ensures
        field_sum(problem, h) == 0,
{
    let n = problem.num_players as int;
    let k = problem.num_positions as int;
    let m = problem.num_periods as int;
    let outer = |p: int| total(|pos: int| total(|t: int| h(field(p, pos, t)), m), k);
    assert forall|p: int| 0 <= p < n implies #[trigger] outer(p) == 0 by {
        let inner = |pos: int| total(|t: int| h(field(p, pos, t)), m);
        assert forall|pos: int| 0 <= pos < k implies #[trigger] inner(pos) == 0 by {
            let cell = |t: int| h(field(p, pos, t));
            assert forall|t: int| 0 <= t < m implies #[trigger] cell(t) == 0 by {
                assert(h(field(p, pos, t)) == 0);
            }
            total_zero(cell, m);
        }
        total_zero(inner, k);
    }
    total_zero(outer, n);
}

pub open spec fn together(r: int, t: int) -> Column {
    Column::Together { rule: r as usize, period: t as usize }
}

pub open spec fn still_on(p: int, t: int) -> Column {
    Column::On { player: p as usize, period: t as usize }
}

pub open spec fn taken_off(p: int, t: int) -> Column {
    Column::Off { player: p as usize, period: t as usize }
}

pub(crate) proof fn rule_sum_of_one(
    problem: SoccerProblem,
    h: spec_fn(Column) -> int,
    r: int,
    t: int,
)
    requires
        0 <= r < rule_count(problem),
        0 <= t < problem.num_periods,
        forall|q: int, u: int|
            0 <= q < rule_count(problem) && 0 <= u < problem.num_periods && !(q == r && u == t)
                ==> h(#[trigger] together(q, u)) == 0,
    ensures
        rule_sum(problem, h) == h(together(r, t)),
{
    let m = problem.num_periods as int;
    let outer = |q: int|
        total(|u: int| h(Column::Together { rule: q as usize, period: u as usize }), m);
    assert forall|q: int| 0 <= q < rule_count(problem) implies #[trigger] outer(q) == if q == r {
        h(together(r, t))
    } else {
        0
    } by {
        let cell = |u: int| h(Column::Together { rule: q as usize, period: u as usize });
        if q == r {
            assert forall|u: int| 0 <= u < m && u != t implies #[trigger] cell(u) == 0 by {
                assert(h(together(q, u)) == 0);
            }
            total_one(cell, m, t);
        } else {
            assert forall|u: int| 0 <= u < m implies #[trigger] cell(u) == 0 by {
                assert(h(together(q, u)) == 0);
            }
            total_zero(cell, m);
        }
    }
    total_one(outer, rule_count(problem), r);
}

pub(crate) proof fn rule_sum_zero(problem: SoccerProblem, h: spec_fn(Column) -> int)
    requires
        forall|q: int, u: int| h(#[trigger] together(q, u)) == 0,
    ensures
        rule_sum(problem, h) == 0,
{
    let m = problem.num_periods as int;
    let outer = |q: int|
        total(|u: int| h(Column::Together { rule: q as usize, period: u as usize }), m);
    assert forall|q: int| 0 <= q < rule_count(problem) implies #[trigger] outer(q) == 0 by {
        let cell = |u: int| h(Column::Together { rule: q as usize, period: u as usize });
        assert forall|u: int| 0 <= u < m implies #[trigger] cell(u) == 0 by {
            assert(h(together(q, u)) == 0);
        }
        total_zero(cell, m);
    }
    total_zero(outer, rule_count(problem));
}

pub(crate) proof fn on_sum_of_player(problem: SoccerProblem, h: spec_fn(Column) -> int, p: int)
    requires
        counts_subs(problem),
        0 <= p < problem.num_players,
        forall|q: int, u: int|
            0 <= q < problem.num_players && 0 <= u < problem.num_periods && q != p ==> h(
                #[trigger] still_on(q, u),
            ) == 0,
    ensures
        on_sum(problem, h) == total(|u: int| h(still_on(p, u)), problem.num_periods as int),
{
    let m = problem.num_periods as int;
    let outer = |q: int|
        total(|u: int| h(Column::On { player: q as usize, period: u as usize }), m);
    assert forall|q: int| 0 <= q < problem.num_players && q != p implies #[trigger] outer(q)
        == 0 by {
        let cell = |u: int| h(Column::On { player: q as usize, period: u as usize });
        assert forall|u: int| 0 <= u < m implies #[trigger] cell(u) == 0 by {
            assert(h(still_on(q, u)) == 0);
        }
        total_zero(cell, m);
    }
    total_one(outer, problem.num_players as int, p);
    total_same(
        |u: int| h(Column::On { player: p as usize, period: u as usize }),
        |u: int| h(still_on(p, u)),
        m,
    );
}

pub(crate) proof fn on_sum_zero(problem: SoccerProblem, h: spec_fn(Column) -> int)
    requires
        forall|q: int, u: int| h(#[trigger] still_on(q, u)) == 0,
    ensures
        on_sum(problem, h) == 0,
{
    let m = problem.num_periods as int;
    let outer = |q: int|
        total(|u: int| h(Column::On { player: q as usize, period: u as usize }), m);
    assert forall|q: int| 0 <= q < problem.num_players implies #[trigger] outer(q) == 0 by {
        let cell = |u: int| h(Column::On { player: q as usize, period: u as usize });
        assert forall|u: int| 0 <= u < m implies #[trigger] cell(u) == 0 by {
            assert(h(still_on(q, u)) == 0);
        }
        total_zero(cell, m);
    }
    total_zero(outer, problem.num_players as int);
}

pub(crate) proof fn off_sum_of_one(
    problem: SoccerProblem,
    h: spec_fn(Column) -> int,
    p: int,
    t: int,
)
    requires
        counts_subs(problem),
        0 <= p < problem.num_players,
        1 <= t < problem.num_periods,
        forall|q: int, u: int|
            0 <= q < problem.num_players && 1 <= u < problem.num_periods && !(q == p && u == t)
                ==> h(#[trigger] taken_off(q, u)) == 0,
    ensures
        off_sum(problem, h) == h(taken_off(p, t)),
{
    let m = problem.num_periods - 1;
    let outer = |q: int|
        total(|u: int| h(Column::Off { player: q as usize, period: (u + 1) as usize }), m);
    assert forall|q: int| 0 <= q < problem.num_players implies #[trigger] outer(q) == if q == p {
        h(taken_off(p, t))
    } else {
        0
    } by {
        let cell = |u: int| h(Column::Off { player: q as usize, period: (u + 1) as usize });
        if q == p {
            assert forall|u: int| 0 <= u < m && u != t - 1 implies #[trigger] cell(u) == 0 by {
                assert(h(taken_off(q, u + 1)) == 0);
            }
            total_one(cell, m, t - 1);
        } else {
            assert forall|u: int| 0 <= u < m implies #[trigger] cell(u) == 0 by {
                assert(h(taken_off(q, u + 1)) == 0);
            }
            total_zero(cell, m);
        }
    }
    total_one(outer, problem.num_players as int, p);
}

pub(crate) proof fn off_sum_zero(problem: SoccerProblem, h: spec_fn(Column) -> int)
    requires
        forall|q: int, u: int| h(#[trigger] taken_off(q, u)) == 0,
    ensures
        off_sum(problem, h) == 0,
{
    let m = problem.num_periods - 1;
    let outer = |q: int|
        total(|u: int| h(Column::Off { player: q as usize, period: (u + 1) as usize }), m);
    assert forall|q: int| 0 <= q < problem.num_players implies #[trigger] outer(q) == 0 by {
        let cell = |u: int| h(Column::Off { player: q as usize, period: (u + 1) as usize });
        assert forall|u: int| 0 <= u < m implies #[trigger] cell(u) == 0 by {
            assert(h(taken_off(q, u + 1)) == 0);
        }
        total_zero(cell, m);
    }
    total_zero(outer, problem.num_players as int);
}

/// What a row of a matrix adds up to at a point.
pub open spec fn matrix_total(
    problem: SoccerProblem,
    row: Seq<i8>,
    x: spec_fn(Column) -> int,
) -> int {
    total(|v: int| row[v] * x(column_at(problem, v)), row.len() as int)
}

/// A point keeps the rows of a program exactly where it satisfies the inequalities of the
/// program's matrix.
pub proof fn matrices_hold_the_rows(
    problem: SoccerProblem,
    program: Program,
    kinds: Seq<RowKind>,
    a: Seq<Vec<i8>>,
    b: Seq<i128>,
    x: spec_fn(Column) -> int,
)
    requires
        lists_rows(problem, program, kinds),
        holds_rows(problem, program, kinds, a, b),
    ensures
        keeps_rows(problem, program, x) <==> forall|r: int|
            0 <= r < a.len() ==> matrix_total(problem, (#[trigger] a[r])@, x) <= b[r],
{
    assert forall|r: int| 0 <= r < a.len() implies matrix_total(problem, (#[trigger] a[r])@, x)
        == row_total(problem, program, kinds[r], x) by {
        let row = a[r]@;
        let f = |v: int| row[v] * x(column_at(problem, v));
        let g = |v: int|
            weight(problem, kinds[r], column_at(problem, v)) * x(column_at(problem, v));
        assert(a[r]@.len() == columns(problem, program));
        assert forall|v: int| 0 <= v < columns(problem, program) implies #[trigger] f(v) == g(
            v,
        ) by {
            assert(a[r]@[v] == weight(problem, kinds[r], column_at(problem, v)));
        }
        total_same(f, g, columns(problem, program));
    }
    if keeps_rows(problem, program, x) {
        assert forall|r: int| 0 <= r < a.len() implies matrix_total(
            problem,
            (#[trigger] a[r])@,
            x,
        ) <= b[r] by {
            assert(applies(problem, program, kinds[r]));
            assert(b[r] == bound(problem, kinds[r]));
        }
    }
    if forall|r: int|
        0 <= r < a.len() ==> matrix_total(problem, (#[trigger] a[r])@, x) <= b[r] {
        assert forall|kind: RowKind| #[trigger]
            applies(problem, program, kind) implies row_total(problem, program, kind, x) <= bound(
            problem,
            kind,
        ) by {
            let r = choose|r: int| 0 <= r < kinds.len() && kinds[r] == kind;
            assert(matrix_total(problem, a[r]@, x) <= b[r]);
            assert(b[r] == bound(problem, kinds[r]));
        }
    }
}

} // verus!
