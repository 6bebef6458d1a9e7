//! Schedules written as vectors of zeros and ones, and read back.
use crate::decimals::{D0, D1};
use crate::number::{num, Real64};
use crate::rotation::admission::{
    left_out_are_distinct, left_out_fill_the_bench, nobody_is_benched_again,
};
use crate::rotation::decode::{
    is_decoded, is_strongest_row, lawful, left_out, line_ups_decide_runs, period_decodes,
    same_line_ups, same_substitutions, strongest, undecodable,
};
use crate::rotation::model::SoccerIPMIPModel;
use crate::rotation::points::{everybody_is_somewhere, unfairness_is_listed};
use crate::rotation::policy::left_out_lists_the_others;
use crate::rotation::problem::{can_play, fieldable, Schedule, SoccerProblem};
use crate::rotation::rules::unfair;
use crate::rotation::structure::{fields, period_ok, schedule_ok};
use vstd::prelude::*;

verus! {

/// The vector writes the schedule down: one where a player holds a position, zero where not.
pub open spec fn encodes(
    problem: SoccerProblem,
    model: SoccerIPMIPModel,
    xs: Seq<Real64>,
    schedule: Schedule,
) -> bool {
    &&& xs.len() == model.ip.c@.len()
    &&& forall|p: int, pos: int, t: int|
        #![trigger xs[model.column_number(p, pos, t)]]
        0 <= p < problem.num_players && 0 <= pos < problem.num_positions && 0 <= t
            < problem.num_periods ==> xs[model.column_number(p, pos, t)]
            == if schedule.assignment@[t]@[pos] == p {
            num(D1)
        } else {
            num(D0)
        }
}

proof fn the_written_is_strongest(
    problem: SoccerProblem,
    model: SoccerIPMIPModel,
    xs: Seq<Real64>,
    threshold: Real64,
    schedule: Schedule,
    pos: int,
    t: int,
    n: int,
)
    requires
        encodes(problem, model, xs, schedule),
        !threshold.nan(),
        0 <= threshold.key() < num(D1).key(),
        0 <= pos < problem.num_positions,
        0 <= t < problem.num_periods,
        0 <= schedule.assignment@[t]@[pos],
        0 <= n <= problem.num_players,
    ensures
        strongest(model, xs, threshold, pos, t, n) == if schedule.assignment@[t]@[pos] < n {
            (schedule.assignment@[t]@[pos] as int, num(D1))
        } else {
            (-1, threshold)
        },
    decreases n,
{
    if n > 0 {
        the_written_is_strongest(problem, model, xs, threshold, schedule, pos, t, n - 1);
        assert(xs[model.column_number(n - 1, pos, t)] == if schedule.assignment@[t]@[pos] == n - 1 {
            num(D1)
        } else {
            num(D0)
        });
    }
}

/// The benches list those whom the line-ups leave out, in order.
pub open spec fn benches_in_order(problem: SoccerProblem, schedule: Schedule) -> bool {
    &&& schedule.bench@.len() == problem.num_periods
    &&& forall|t: int|
        0 <= t < problem.num_periods ==> (#[trigger] schedule.bench@[t])@ == left_out(
            schedule.assignment@[t]@,
            problem.num_players as int,
        )
}

proof fn ordered_benches_are_fair(problem: SoccerProblem, a: Schedule, b: Schedule, periods: int)
    requires
        lawful(problem, a),
        problem.enforce_no_consecutive_bench,
        same_line_ups(a, b),
        benches_in_order(problem, b),
        periods <= problem.num_periods,
    ensures
        unfair(problem, b.bench@, periods).len() == 0,
    decreases periods,
{
    if periods > 1 {
        ordered_benches_are_fair(problem, a, b, periods - 1);
        let t = periods - 2;
        let n = problem.num_players as int;
        let bench = b.bench@[t]@;
        let next = b.bench@[t + 1]@;
        assert(bench == left_out(b.assignment@[t]@, n));
        assert(next == left_out(b.assignment@[t + 1]@, n));
        assert(a.assignment@[t]@ == b.assignment@[t]@);
        assert(a.assignment@[t + 1]@ == b.assignment@[t + 1]@);
        assert(period_ok(problem, a.assignment@[t]@, a.bench@[t]@));
        assert(period_ok(problem, a.assignment@[t + 1]@, a.bench@[t + 1]@));
        left_out_are_distinct(b.assignment@[t]@, n);
        assert forall|i: int| 0 <= i < bench.len() implies !(fieldable(
            problem,
            #[trigger] bench[i] as int,
        ) && next.contains(bench[i])) by {
            if fieldable(problem, bench[i] as int) && next.contains(bench[i]) {
                let p = bench[i] as int;
                assert(bench.contains(bench[i]));
                assert(bench[i] < n);
                left_out_lists_the_others(b.assignment@[t]@, n, p);
                left_out_lists_the_others(b.assignment@[t + 1]@, n, p);
                everybody_is_somewhere(problem, a.assignment@[t]@, a.bench@[t]@, p);
                everybody_is_somewhere(problem, a.assignment@[t + 1]@, a.bench@[t + 1]@, p);
                unfairness_is_listed(
                    problem,
                    a.bench@,
                    problem.num_periods as int,
                    t,
                    bench[i],
                );
            }
        }
        nobody_is_benched_again(problem, bench, next, t, bench.len() as int);
    }
}

/// A lawful schedule stays lawful where its benches are put in order.
pub proof fn ordered_benches_are_lawful(problem: SoccerProblem, a: Schedule, b: Schedule)
    requires
        lawful(problem, a),
        same_line_ups(a, b),
        benches_in_order(problem, b),
    ensures
        lawful(problem, b),
        forall|t: int, p: usize|
            0 <= t < problem.num_periods ==> (#[trigger] b.bench@[t]@.contains(p)
                <==> a.bench@[t]@.contains(p)),
{
    let n = problem.num_players as int;
    assert forall|t: int| 0 <= t < problem.num_periods implies period_ok(
        problem,
        #[trigger] b.assignment@[t]@,
        b.bench@[t]@,
    ) by {
        let row = b.assignment@[t]@;
        let bench = b.bench@[t]@;
        assert(a.assignment@[t]@ == b.assignment@[t]@);
        assert(period_ok(problem, a.assignment@[t]@, a.bench@[t]@));
        assert(b.bench@[t]@ == left_out(row, n));
        left_out_fill_the_bench(row, n);
        left_out_are_distinct(row, n);
        assert forall|i: int| 0 <= i < bench.len() implies !fields(
            row,
            #[trigger] bench[i] as int,
        ) by {
            left_out_lists_the_others(row, n, bench[i] as int);
            assert(bench.contains(bench[i]));
        }
        assert forall|i: int| 0 <= i < row.len() implies can_play(
            problem,
            #[trigger] row[i] as int,
            i,
        ) by {
            assert(can_play(problem, a.assignment@[t]@[i] as int, i));
        }
    }
    assert(schedule_ok(problem, b));
    if problem.enforce_no_consecutive_bench {
        ordered_benches_are_fair(problem, a, b, problem.num_periods as int);
    }
    line_ups_decide_runs(problem, a, b);
    same_substitutions(a, b, problem.num_periods as int);
    assert forall|t: int, p: usize| 0 <= t < problem.num_periods implies (
    #[trigger] b.bench@[t]@.contains(p) <==> a.bench@[t]@.contains(p)) by {
        let row = b.assignment@[t]@;
        assert(a.assignment@[t]@ == b.assignment@[t]@);
        assert(period_ok(problem, a.assignment@[t]@, a.bench@[t]@));
        assert(period_ok(problem, b.assignment@[t]@, b.bench@[t]@));
        if b.bench@[t]@.contains(p) {
            let i = choose|i: int| 0 <= i < b.bench@[t]@.len() && b.bench@[t]@[i] == p;
            assert(!fields(row, b.bench@[t]@[i] as int));
            everybody_is_somewhere(problem, row, a.bench@[t]@, p as int);
        }
        if a.bench@[t]@.contains(p) {
            let i = choose|i: int| 0 <= i < a.bench@[t]@.len() && a.bench@[t]@[i] == p;
            assert(!fields(row, a.bench@[t]@[i] as int));
            everybody_is_somewhere(problem, row, b.bench@[t]@, p as int);
        }
    }
}

/// Decoding undoes encoding: whatever the threshold from 0 up to 1, the vector of a lawful
/// schedule decodes, and the schedule that it tells has the same line-ups and the same players on
/// its benches, put in order.
pub proof fn decoding_undoes_encoding(
    problem: SoccerProblem,
    model: SoccerIPMIPModel,
    xs: Seq<Real64>,
    threshold: Real64,
    schedule: Schedule,
)
    requires
        lawful(problem, schedule),
        encodes(problem, model, xs, schedule),
        !threshold.nan(),
        0 <= threshold.key() < num(D1).key(),
    ensures
        !undecodable(problem, model, xs, threshold),
        forall|s: Schedule| #[trigger]
            is_decoded(problem, model, xs, threshold, s) ==> same_line_ups(schedule, s)
                && benches_in_order(problem, s) && lawful(problem, s) && forall|t: int, p: usize|
                0 <= t < problem.num_periods ==> (#[trigger] s.bench@[t]@.contains(p)
                    <==> schedule.bench@[t]@.contains(p)),
{
    let n = problem.num_players as int;
    let k = problem.num_positions as int;
    assert forall|pos: int, t: int| 0 <= pos < k && 0 <= t < problem.num_periods implies (
    #[trigger] strongest(model, xs, threshold, pos, t, n)).0 == schedule.assignment@[t]@[pos] by {
        assert(period_ok(problem, schedule.assignment@[t]@, schedule.bench@[t]@));
        assert(0 <= schedule.assignment@[t]@[pos] < n);
        the_written_is_strongest(problem, model, xs, threshold, schedule, pos, t, n);
    }
    assert forall|t: int| 0 <= t < problem.num_periods implies #[trigger] period_decodes(
        problem,
        model,
        xs,
        threshold,
        t,
    ) by {
        let row = schedule.assignment@[t]@;
        assert(period_ok(problem, schedule.assignment@[t]@, schedule.bench@[t]@));
        let who = |pos: int| strongest(model, xs, threshold, pos, t, n).0;
        assert forall|pos: int| 0 <= pos < k implies #[trigger] who(pos) >= 0 by {
            assert(strongest(model, xs, threshold, pos, t, n).0 == row[pos]);
            assert(0 <= row[pos] < n);
        }
        assert forall|a: int, b: int| 0 <= a < b < k implies #[trigger] who(a) != #[trigger] who(
            b,
        ) by {
            assert(strongest(model, xs, threshold, a, t, n).0 == row[a]);
            assert(strongest(model, xs, threshold, b, t, n).0 == row[b]);
            assert(row[a] != row[b]);
        }
    }
    assert forall|s: Schedule| #[trigger]
        is_decoded(problem, model, xs, threshold, s) implies same_line_ups(schedule, s)
        && benches_in_order(problem, s) && lawful(problem, s) && forall|t: int, p: usize|
        0 <= t < problem.num_periods ==> (#[trigger] s.bench@[t]@.contains(p)
            <==> schedule.bench@[t]@.contains(p)) by {
        assert forall|t: int| 0 <= t < schedule.assignment@.len() implies (
        #[trigger] schedule.assignment@[t])@ == s.assignment@[t]@ by {
            assert(period_ok(problem, schedule.assignment@[t]@, schedule.bench@[t]@));
            assert(is_strongest_row(problem, model, xs, threshold, s.assignment@[t]@, t));
            assert forall|pos: int| 0 <= pos < k implies s.assignment@[t]@[pos]
                == schedule.assignment@[t]@[pos] by {
                assert(s.assignment@[t]@[pos] == strongest(
                    model,
                    xs,
                    threshold,
                    pos,
                    t,
                    n,
                ).0);
            }
            assert(schedule.assignment@[t]@ =~= s.assignment@[t]@);
        }
        ordered_benches_are_lawful(problem, schedule, s);
    }
}

} // verus!
