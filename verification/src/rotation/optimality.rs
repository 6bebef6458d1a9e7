//! What the exact plan is worth: as much as its own line-ups, and no less than any other schedule
//! that benches nobody twice in a row.
use crate::number::{outcome, Real64};
use crate::rotation::admission::{left_out_are_distinct, left_out_fill_the_bench};
use crate::rotation::decode::left_out;
use crate::rotation::mdp::{
    all_stand_alone, best_alone, best_alone_is_no_worse, best_bench, best_is_a_number,
    best_may_follow, best_path_dominates, best_path_earns_its_value, best_paths_are_fair,
    combinations_are_the_subsets, empty_benches_follow_all, is_bare_period, is_benchless_plan,
    is_best_path, is_disjoint, is_exact_plan, is_fair_path, is_memoryless_plan, is_monotone,
    is_price_table, is_priced, is_subset, lists_all, lowest, may_follow, path_value, previous,
    rewards_all, rewards_are_numbers, subsets, sum_alone, takes_picks, value_after,
    MdpScheduleResult, MemorylessMDPResult,
};
use crate::rotation::objective::{cells_total, score_at};
use crate::rotation::points::everybody_is_somewhere;
use crate::rotation::policy::{
    distinct_members_are_no_more, is_seating, is_weights, left_out_lists_the_others, seated,
    unchosen, AssignmentResult,
};
use crate::rotation::problem::{Schedule, SoccerProblem};
use crate::rotation::rules::{benched_again, fair, unfair};
use crate::rotation::structure::{fields, period_ok, schedule_ok};
use crate::sums::{total, total_grows, total_one, total_same, total_swap};
use vstd::prelude::*;

verus! {

/// Every one of `k` rows is matched to a column of its own.
pub open spec fn is_perfect(rows: Seq<i64>, k: int) -> bool {
    &&& rows.len() == k
    &&& forall|i: int| 0 <= i < k ==> 0 <= #[trigger] rows[i] < k
    &&& forall|i: int, j: int| 0 <= i < j < k ==> #[trigger] rows[i] != #[trigger] rows[j]
}

/// What a match of rows to columns is worth.
pub open spec fn match_worth(
    m: Seq<Vec<Real64>>,
    rows: Seq<i64>,
    worth: spec_fn(Real64) -> int,
) -> int {
    total(|i: int| worth(m[i]@[rows[i] as int]), rows.len() as int)
}

/// The solver matches the affinities of as many different players as there are positions
/// perfectly, says what the match is worth, and no perfect match is worth more.
pub open spec fn is_best_matcher<F: Fn(&Vec<Vec<Real64>>) -> AssignmentResult>(
    problem: SoccerProblem,
    solve: F,
    worth: spec_fn(Real64) -> int,
) -> bool {
    let k = problem.num_positions as int;
    forall|m: Vec<Vec<Real64>>, r: AssignmentResult, t: int, chosen: Seq<usize>| #[trigger]
        call_ensures(solve, (&m,), r) && #[trigger] is_weights(problem, t, chosen, m@)
            && are_different_players(problem, chosen) && 0 <= t < problem.num_periods ==> {
            &&& is_perfect(r.rows@, k)
            &&& !r.total.nan()
            &&& worth(r.total) == match_worth(m@, r.rows@, worth)
            &&& forall|rows: Seq<i64>| #[trigger]
                is_perfect(rows, k) ==> match_worth(m@, rows, worth) <= worth(r.total)
        }
}

/// As many different players as there are positions.
pub open spec fn are_different_players(problem: SoccerProblem, chosen: Seq<usize>) -> bool {
    &&& chosen.len() == problem.num_positions
    &&& chosen.no_duplicates()
    &&& forall|i: int| 0 <= i < chosen.len() ==> #[trigger] chosen[i] < problem.num_players
}

/// The line has every chosen player at the position that the rows give.
pub open spec fn is_line_of(chosen: Seq<usize>, rows: Seq<i64>, line: Seq<i64>, k: int) -> bool {
    &&& chosen.len() == k
    &&& line.len() == k
    &&& is_perfect(rows, k)
    &&& forall|i: int| 0 <= i < k ==> line[#[trigger] rows[i] as int] == chosen[i]
}

/// A perfect match leaves no column out.
proof fn every_column_is_matched(rows: Seq<i64>, k: int, pos: int)
    requires
        is_perfect(rows, k),
        0 <= pos < k <= usize::MAX,
    ensures
        exists|i: int| 0 <= i < k && #[trigger] rows[i] == pos,
{
    if forall|i: int| 0 <= i < k ==> #[trigger] rows[i] != pos {
        let more = Seq::new((k + 1) as nat, |i: int|
            if i < k {
                rows[i] as usize
            } else {
                pos as usize
            });
        let all = Seq::new(k as nat, |i: int| i as usize);
        assert forall|i: int, j: int| 0 <= i < j < more.len() implies more[i] != more[j] by {
            assert(0 <= rows[i] < k);
            assert(rows[i] != pos);
            if j < k {
                assert(0 <= rows[j] < k);
                assert(rows[i] != rows[j]);
            }
        }
        assert forall|i: int| 0 <= i < more.len() implies all.contains(#[trigger] more[i]) by {
            if i < k {
                assert(0 <= rows[i] < k);
            }
            assert(all[more[i] as int] == more[i]);
        }
        distinct_members_are_no_more(more, all);
    }
}

/// Summing over the chosen players at their positions is summing over the positions.
proof fn positions_are_filled_once(
    chosen: Seq<usize>,
    rows: Seq<i64>,
    line: Seq<i64>,
    k: int,
    g: spec_fn(int, int) -> int,
)
    requires
        is_line_of(chosen, rows, line, k),
        k <= usize::MAX,
    ensures
        total(|i: int| g(chosen[i] as int, rows[i] as int), k) == total(
            |pos: int| g(line[pos] as int, pos),
            k,
        ),
{
    let cell = |i: int, pos: int|
        if rows[i] == pos {
            g(chosen[i] as int, pos)
        } else {
            0
        };
    total_swap(cell, k, k);
    let by_row = |i: int| total(|pos: int| cell(i, pos), k);
    let of_row = |i: int| g(chosen[i] as int, rows[i] as int);
    assert forall|i: int| 0 <= i < k implies #[trigger] by_row(i) == of_row(i) by {
        assert(0 <= rows[i] < k);
        total_one(|pos: int| cell(i, pos), k, rows[i] as int);
    }
    total_same(by_row, of_row, k);
    let by_position = |pos: int| total(|i: int| cell(i, pos), k);
    let at_position = |pos: int| g(line[pos] as int, pos);
    assert forall|pos: int| 0 <= pos < k implies #[trigger] by_position(pos) == at_position(
        pos,
    ) by {
        every_column_is_matched(rows, k, pos);
        let i = choose|i: int| 0 <= i < k && #[trigger] rows[i] == pos;
        assert(line[rows[i] as int] == chosen[i]);
        assert forall|j: int| 0 <= j < k && j != i implies #[trigger] cell(j, pos) == 0 by {
            if j < i {
                assert(rows[j] != rows[i]);
            } else {
                assert(rows[i] != rows[j]);
            }
        }
        total_one(|i: int| cell(i, pos), k, i);
    }
    total_same(by_position, at_position, k);
}

/// The seat of a matched row is the player of the row.
proof fn matched_rows_are_seated(chosen: Seq<usize>, rows: Seq<i64>, k: int, i: int, n: int)
    requires
        is_perfect(rows, k),
        chosen.len() == k,
        0 <= i < n <= k,
    ensures
        seated(chosen, rows, rows[i] as int, n) == chosen[i],
    decreases n,
{
    if i < n - 1 {
        assert(rows[i] != rows[n - 1]);
        matched_rows_are_seated(chosen, rows, k, i, n - 1);
    }
}

proof fn seatings_are_lines(chosen: Seq<usize>, rows: Seq<i64>, line: Seq<i64>, k: int)
    requires
        chosen.len() == k,
        is_perfect(rows, k),
        is_seating(chosen, rows, line, k),
    ensures
        is_line_of(chosen, rows, line, k),
{
    assert forall|i: int| 0 <= i < k implies line[#[trigger] rows[i] as int] == chosen[i] by {
        assert(0 <= rows[i] < k);
        matched_rows_are_seated(chosen, rows, k, i, k);
    }
}

/// The players off a list below `n`: exactly those, each once and upwards.
proof fn unchosen_are_the_others(list: Seq<usize>, n: int)
    requires
        n <= usize::MAX,
    ensures
        forall|p: usize| #[trigger] unchosen(list, n).contains(p) <==> p < n && !list.contains(p),
        forall|i: int, j: int|
            0 <= i < j < unchosen(list, n).len() ==> #[trigger] unchosen(list, n)[i]
                < #[trigger] unchosen(list, n)[j],
        forall|i: int| 0 <= i < unchosen(list, n).len() ==> #[trigger] unchosen(list, n)[i] < n,
    decreases n,
{
    if n > 0 {
        unchosen_are_the_others(list, n - 1);
        let rest = unchosen(list, n - 1);
        let all = unchosen(list, n);
        let last = (n - 1) as usize;
        assert forall|p: usize| #[trigger] all.contains(p) <==> p < n && !list.contains(p) by {
            if all.contains(p) {
                let i = choose|i: int| 0 <= i < all.len() && all[i] == p;
                if i < rest.len() {
                    assert(rest[i] == p);
                    assert(rest.contains(p));
                }
            }
            if p < n && !list.contains(p) {
                if p == last {
                    assert(all[rest.len() as int] == p);
                } else {
                    assert(rest.contains(p));
                    let i = choose|i: int| 0 <= i < rest.len() && rest[i] == p;
                    assert(all[i] == p);
                }
            }
        }
    }
}

/// A list of different players and the others are together as many as there are.
proof fn the_others_are_the_rest(list: Seq<usize>, n: int)
    requires
        0 <= n <= usize::MAX,
        list.no_duplicates(),
        forall|i: int| 0 <= i < list.len() ==> #[trigger] list[i] < n,
    ensures
        unchosen(list, n).len() == n - list.len(),
{
    unchosen_are_the_others(list, n);
    let others = unchosen(list, n);
    let both = list + others;
    let all = Seq::new(n as nat, |i: int| i as usize);
    assert forall|i: int, j: int| 0 <= i < j < both.len() implies both[i] != both[j] by {
        if j < list.len() {
            assert(list[i] != list[j]);
        } else if i < list.len() {
            assert(others.contains(others[j - list.len()]));
            assert(list.contains(list[i]));
        } else {
            assert(others[i - list.len()] < others[j - list.len()]);
        }
    }
    assert forall|i: int| 0 <= i < both.len() implies all.contains(#[trigger] both[i]) by {
        if i < list.len() {
            assert(list[i] < n);
        } else {
            assert(others[i - list.len()] < n);
        }
        assert(all[both[i] as int] == both[i]);
    }
    distinct_members_are_no_more(both, all);
    assert forall|i: int, j: int| 0 <= i < j < all.len() implies all[i] != all[j] by {}
    assert forall|i: int| 0 <= i < all.len() implies both.contains(#[trigger] all[i]) by {
        let p = all[i];
        if list.contains(p) {
            let j = choose|j: int| 0 <= j < list.len() && list[j] == p;
            assert(both[j] == p);
        } else {
            assert(others.contains(p));
            let j = choose|j: int| 0 <= j < others.len() && others[j] == p;
            assert(both[list.len() + j] == p);
        }
    }
    distinct_members_are_no_more(all, both);
}

/// The problem asks for nothing but the affinities: everybody can play everywhere, no partners
/// count, and who does not play sits on the bench.
pub open spec fn is_plain(problem: SoccerProblem) -> bool {
    &&& problem.synergy_rules is None
    &&& problem.player_status is None
    &&& problem.fixed_position is None
    &&& problem.banned_positions is None
    &&& problem.num_positions >= 1
    &&& problem.num_positions + problem.bench_size == problem.num_players
}

/// What a line-up is worth in a period.
pub open spec fn line_worth(
    problem: SoccerProblem,
    line: Seq<i64>,
    t: int,
    worth: spec_fn(Real64) -> int,
) -> int {
    total(
        |pos: int| worth(problem.affinity@[line[pos] as int]@[pos]@[t]),
        problem.num_positions as int,
    )
}

/// The matrix of the chosen players is worth, matched, what the line of the match is worth.
proof fn matches_are_worth_their_lines(
    problem: SoccerProblem,
    t: int,
    chosen: Seq<usize>,
    m: Seq<Vec<Real64>>,
    rows: Seq<i64>,
    line: Seq<i64>,
    worth: spec_fn(Real64) -> int,
)
    requires
        is_weights(problem, t, chosen, m),
        is_line_of(chosen, rows, line, problem.num_positions as int),
    ensures
        match_worth(m, rows, worth) == line_worth(problem, line, t, worth),
{
    let k = problem.num_positions as int;
    let g = |p: int, pos: int| worth(problem.affinity@[p]@[pos]@[t]);
    positions_are_filled_once(chosen, rows, line, k, g);
    let a = |i: int| worth(m[i]@[rows[i] as int]);
    let b = |i: int| g(chosen[i] as int, rows[i] as int);
    assert forall|i: int| 0 <= i < k implies #[trigger] a(i) == b(i) by {
        assert(0 <= rows[i] < k);
        assert(m[i]@[rows[i] as int] == problem.affinity@[chosen[i] as int]@[rows[i] as int]@[t]);
    }
    total_same(a, b, k);
    total_same(
        |pos: int| g(line[pos] as int, pos),
        |pos: int| worth(problem.affinity@[line[pos] as int]@[pos]@[t]),
        k,
    );
}

/// A priced bench: the line-up with it is proper, and the reward is worth what the line-up is
/// worth.
proof fn prices_are_worth_their_lines<F: Fn(&Vec<Vec<Real64>>) -> AssignmentResult>(
    problem: SoccerProblem,
    solve: F,
    worth: spec_fn(Real64) -> int,
    t: int,
    bench: Seq<usize>,
    reward: Real64,
    line: Seq<i64>,
)
    requires
        is_plain(problem),
        problem.num_players <= i64::MAX,
        is_best_matcher(problem, solve, worth),
        0 <= t < problem.num_periods,
        is_subset(bench, problem.num_players as int, problem.bench_size as int),
        is_priced(problem, solve, t, bench, reward, line),
    ensures
        !reward.nan(),
        worth(reward) == line_worth(problem, line, t, worth),
        period_ok(problem, line, bench),
{
    let n = problem.num_players as int;
    let k = problem.num_positions as int;
    let chosen = unchosen(bench, n);
    assert forall|i: int, j: int| 0 <= i < j < bench.len() implies bench[i] != bench[j] by {
        assert(bench[i] < bench[j]);
    }
    the_others_are_the_rest(bench, n);
    unchosen_are_the_others(bench, n);
    assert(are_different_players(problem, chosen)) by {
        assert forall|i: int, j: int| 0 <= i < j < chosen.len() implies chosen[i] != chosen[j] by {
            assert(chosen[i] < chosen[j]);
        }
    }
    let (m, r) = choose|m: Vec<Vec<Real64>>, r: AssignmentResult|
        {
            &&& #[trigger] call_ensures(solve, (&m,), r)
            &&& is_weights(problem, t, chosen, m@)
            &&& is_seating(chosen, r.rows@, line, k)
            &&& reward == r.total
        };
    seatings_are_lines(chosen, r.rows@, line, k);
    matches_are_worth_their_lines(problem, t, chosen, m@, r.rows@, line, worth);
    let rows = r.rows@;
    assert forall|pos: int| 0 <= pos < k implies 0 <= #[trigger] line[pos] < n && chosen.contains(
        line[pos] as usize,
    ) by {
        every_column_is_matched(rows, k, pos);
        let i = choose|i: int| 0 <= i < k && #[trigger] rows[i] == pos;
        assert(line[rows[i] as int] == chosen[i]);
        assert(chosen[i] < n);
    }
    assert forall|a: int, b: int| 0 <= a < b < k implies line[a] != line[b] by {
        every_column_is_matched(rows, k, a);
        every_column_is_matched(rows, k, b);
        let i = choose|i: int| 0 <= i < k && #[trigger] rows[i] == a;
        let j = choose|j: int| 0 <= j < k && #[trigger] rows[j] == b;
        assert(line[rows[i] as int] == chosen[i]);
        assert(line[rows[j] as int] == chosen[j]);
        if i < j {
            assert(chosen[i] < chosen[j]);
        } else {
            assert(chosen[j] < chosen[i]);
        }
    }
    assert forall|i: int| 0 <= i < bench.len() implies !fields(
        line,
        #[trigger] bench[i] as int,
    ) by {
        if fields(line, bench[i] as int) {
            let pos = choose|pos: int| 0 <= pos < line.len() && #[trigger] line[pos] == bench[i];
            assert(chosen.contains(line[pos] as usize));
            assert(bench.contains(bench[i]));
        }
    }
}

/// No line-up with a bench is worth more than the price of the bench.
proof fn prices_are_the_most<F: Fn(&Vec<Vec<Real64>>) -> AssignmentResult>(
    problem: SoccerProblem,
    solve: F,
    worth: spec_fn(Real64) -> int,
    t: int,
    bench: Seq<usize>,
    reward: Real64,
    line: Seq<i64>,
    other: Seq<i64>,
)
    requires
        is_plain(problem),
        problem.num_players <= i64::MAX,
        is_best_matcher(problem, solve, worth),
        0 <= t < problem.num_periods,
        is_priced(problem, solve, t, bench, reward, line),
        other.len() == problem.num_positions,
        other.no_duplicates(),
        forall|i: int| 0 <= i < other.len() ==> 0 <= #[trigger] other[i] < problem.num_players,
        bench == left_out(other, problem.num_players as int),
    ensures
        line_worth(problem, other, t, worth) <= worth(reward),
{
    let n = problem.num_players as int;
    let k = problem.num_positions as int;
    let chosen = unchosen(bench, n);
    left_out_are_distinct(other, n);
    left_out_fill_the_bench(other, n);
    the_others_are_the_rest(bench, n);
    unchosen_are_the_others(bench, n);
    assert(are_different_players(problem, chosen)) by {
        assert forall|i: int, j: int| 0 <= i < j < chosen.len() implies chosen[i] != chosen[j] by {
            assert(chosen[i] < chosen[j]);
        }
    }
    let (m, r) = choose|m: Vec<Vec<Real64>>, r: AssignmentResult|
        {
            &&& #[trigger] call_ensures(solve, (&m,), r)
            &&& is_weights(problem, t, chosen, m@)
            &&& is_seating(chosen, r.rows@, line, k)
            &&& reward == r.total
        };
    let place = |i: int| choose|pos: int| 0 <= pos < k && #[trigger] other[pos] == chosen[i];
    let rows = Seq::new(k as nat, |i: int| place(i) as i64);
    assert forall|i: int| 0 <= i < k implies 0 <= #[trigger] rows[i] < k && other[rows[i] as int]
        == chosen[i] by {
        let p = chosen[i];
        assert(chosen.contains(p));
        left_out_lists_the_others(other, n, p as int);
        assert(fields(other, p as int));
        let pos = choose|pos: int| 0 <= pos < other.len() && #[trigger] other[pos] == p;
        assert(0 <= pos < k && other[pos] == chosen[i]);
        assert(0 <= place(i) < k);
    }
    assert forall|i: int, j: int| 0 <= i < j < k implies #[trigger] rows[i]
        != #[trigger] rows[j] by {
        assert(chosen[i] < chosen[j]);
        assert(other[rows[i] as int] == chosen[i]);
        assert(other[rows[j] as int] == chosen[j]);
    }
    assert(is_perfect(rows, k));
    assert(is_line_of(chosen, rows, other, k));
    matches_are_worth_their_lines(problem, t, chosen, m@, rows, other, worth);
}

/// Nobody sits on the bench twice in a row.
pub open spec fn rotates(schedule: Schedule) -> bool {
    forall|t: int|
        0 < t < schedule.bench@.len() ==> is_disjoint(
            schedule.bench@[t - 1]@,
            (#[trigger] schedule.bench@[t])@,
        )
}

/// Where nobody sits on the bench twice in a row, the schedule is fair.
pub proof fn rotating_benches_are_fair(problem: SoccerProblem, schedule: Schedule)
    requires
        schedule.bench@.len() == problem.num_periods,
        rotates(schedule),
    ensures
        fair(problem, schedule),
{
    nobody_is_benched_again(problem, schedule, problem.num_periods as int);
}

proof fn nobody_is_benched_again(problem: SoccerProblem, schedule: Schedule, n: int)
    requires
        n <= schedule.bench@.len(),
        rotates(schedule),
    ensures
        unfair(problem, schedule.bench@, n).len() == 0,
    decreases n,
{
    if n > 1 {
        nobody_is_benched_again(problem, schedule, n - 1);
        let here = schedule.bench@[n - 2]@;
        let next = schedule.bench@[n - 1]@;
        assert(is_disjoint(here, next));
        nobody_of_the_first_is_again(problem, here, next, n - 2, here.len() as int);
    }
}

proof fn nobody_of_the_first_is_again(
    problem: SoccerProblem,
    here: Seq<usize>,
    next: Seq<usize>,
    t: int,
    n: int,
)
    requires
        is_disjoint(here, next),
        n <= here.len(),
    ensures
        benched_again(problem, here, next, t, n).len() == 0,
    decreases n,
{
    if n > 0 {
        nobody_of_the_first_is_again(problem, here, next, t, n - 1);
        if next.contains(here[n - 1]) {
            let j = choose|j: int| 0 <= j < next.len() && next[j] == here[n - 1];
            assert(!here.contains(next[j]));
        }
    }
}

/// Greater numbers are worth no less.
pub open spec fn follows_the_order(worth: spec_fn(Real64) -> int) -> bool {
    forall|a: Real64, b: Real64|
        !a.nan() && !b.nan() && a.key() <= b.key() ==> #[trigger] worth(a) <= #[trigger] worth(b)
}

/// The worth adds up along the rewards of a path: no step of the sum is rounded.
pub open spec fn adds_along<A: Fn(Real64, Real64) -> Real64>(
    plus: A,
    worth: spec_fn(Real64) -> int,
    rewards: Seq<Vec<Real64>>,
    path: Seq<usize>,
) -> bool {
    &&& worth(Real64 { bits: 0 }) == 0
    &&& forall|t: int|
        0 <= t < rewards.len() ==> worth(
            outcome(
                plus,
                rewards[t]@[path[t] as int],
                #[trigger] path_value(plus, rewards, path, t + 1),
            ),
        ) == worth(rewards[t]@[path[t] as int]) + worth(path_value(plus, rewards, path, t + 1))
}

/// The path names a reward in every period.
pub open spec fn picks_rewards(rewards: Seq<Vec<Real64>>, path: Seq<usize>) -> bool {
    &&& path.len() == rewards.len()
    &&& forall|t: int| 0 <= t < path.len() ==> #[trigger] path[t] < rewards[t]@.len()
}

/// No reward takes a value down to minus infinity.
pub open spec fn stays_clear<A: Fn(Real64, Real64) -> Real64>(
    plus: A,
    rewards: Seq<Vec<Real64>>,
) -> bool {
    forall|t: int, b: int, rest: Real64|
        0 <= t < rewards.len() && 0 <= b < rewards[t]@.len() && !rest.nan() && rest.key()
            > lowest().key() ==> !(#[trigger] outcome(plus, rewards[t]@[b], rest)).nan()
            && outcome(plus, rewards[t]@[b], rest).key() > lowest().key()
}

proof fn path_values_add_up<A: Fn(Real64, Real64) -> Real64>(
    plus: A,
    worth: spec_fn(Real64) -> int,
    rewards: Seq<Vec<Real64>>,
    path: Seq<usize>,
    t: int,
)
    requires
        adds_along(plus, worth, rewards, path),
        0 <= t <= rewards.len(),
    ensures
        total(|u: int| worth(rewards[u]@[path[u] as int]), rewards.len() as int) == total(
            |u: int| worth(rewards[u]@[path[u] as int]),
            t,
        ) + worth(path_value(plus, rewards, path, t)),
    decreases rewards.len() - t,
{
    if t < rewards.len() {
        path_values_add_up(plus, worth, rewards, path, t + 1);
        assert(path_value(plus, rewards, path, t) == outcome(
            plus,
            rewards[t]@[path[t] as int],
            path_value(plus, rewards, path, t + 1),
        ));
    }
}

/// Without partners the cells of a schedule are worth what its line-ups are worth.
proof fn cells_are_lines(problem: SoccerProblem, schedule: Schedule, worth: spec_fn(Real64) -> int)
    requires
        is_plain(problem),
    ensures
        cells_total(problem, schedule, worth) == total(
            |t: int| line_worth(problem, schedule.assignment@[t]@, t, worth),
            problem.num_periods as int,
        ),
{
    let k = problem.num_positions as int;
    let a = |t: int| total(|pos: int| worth(score_at(problem, schedule, pos, t)), k);
    let b = |t: int| line_worth(problem, schedule.assignment@[t]@, t, worth);
    assert forall|t: int| 0 <= t < problem.num_periods implies #[trigger] a(t) == b(t) by {
        let line = schedule.assignment@[t]@;
        total_same(
            |pos: int| worth(score_at(problem, schedule, pos, t)),
            |pos: int| worth(problem.affinity@[line[pos] as int]@[pos]@[t]),
            k,
        );
    }
    total_same(a, b, problem.num_periods as int);
}

/// The benches are all subsets of the size of a bench.
spec fn are_benches(problem: SoccerProblem, benches: Seq<Vec<usize>>) -> bool {
    lists_all(
        benches,
        subsets(problem.num_players as int, problem.bench_size as int, Seq::empty(), 0),
    )
}

proof fn benches_are_subsets(problem: SoccerProblem, benches: Seq<Vec<usize>>, b: int)
    requires
        are_benches(problem, benches),
        0 <= b < benches.len(),
    ensures
        is_subset(benches[b]@, problem.num_players as int, problem.bench_size as int),
{
    let n = problem.num_players as int;
    let k = problem.bench_size as int;
    let all = subsets(n, k, Seq::empty(), 0);
    assert(benches[b]@ == all[b]);
    assert(all.contains(all[b]));
    combinations_are_the_subsets(n, k, all[b]);
}

proof fn subsets_are_benches(problem: SoccerProblem, benches: Seq<Vec<usize>>, s: Seq<usize>)
    requires
        are_benches(problem, benches),
        is_subset(s, problem.num_players as int, problem.bench_size as int),
    ensures
        exists|b: int| 0 <= b < benches.len() && (#[trigger] benches[b])@ == s,
{
    let n = problem.num_players as int;
    let k = problem.bench_size as int;
    let all = subsets(n, k, Seq::empty(), 0);
    combinations_are_the_subsets(n, k, s);
    let b = choose|b: int| 0 <= b < all.len() && all[b] == s;
    assert(benches[b]@ == all[b]);
}

/// Some bench can follow any other, as long as a bench is no more than half of the players.
proof fn some_bench_can_follow(problem: SoccerProblem, benches: Seq<Vec<usize>>, prev: Option<int>)
    requires
        are_benches(problem, benches),
        2 * problem.bench_size <= problem.num_players,
        prev matches Some(a) ==> 0 <= a < benches.len(),
    ensures
        exists|b: int| 0 <= b < benches.len() && #[trigger] may_follow(benches, prev, b),
{
    let n = problem.num_players as int;
    let k = problem.bench_size as int;
    let before = match prev {
        Some(a) => benches[a]@,
        None => Seq::empty(),
    };
    if prev is Some {
        benches_are_subsets(problem, benches, prev->0);
        assert forall|i: int, j: int| 0 <= i < j < before.len() implies before[i] != before[j] by {
            assert(before[i] < before[j]);
        }
    }
    the_others_are_the_rest(before, n);
    unchosen_are_the_others(before, n);
    let others = unchosen(before, n);
    let s = others.take(k);
    assert(is_subset(s, n, k)) by {
        assert forall|i: int, j: int| 0 <= i < j < s.len() implies #[trigger] s[i]
            < #[trigger] s[j] by {
            assert(others[i] < others[j]);
        }
        assert forall|i: int| 0 <= i < s.len() implies #[trigger] s[i] < n by {
            assert(others[i] < n);
        }
    }
    subsets_are_benches(problem, benches, s);
    let b = choose|b: int| 0 <= b < benches.len() && (#[trigger] benches[b])@ == s;
    assert(is_disjoint(before, benches[b]@)) by {
        assert forall|i: int| 0 <= i < s.len() implies !before.contains(#[trigger] s[i]) by {
            assert(others.contains(others[i]));
        }
    }
    assert(may_follow(benches, prev, b));
}

proof fn a_follower_is_found<A: Fn(Real64, Real64) -> Real64>(
    plus: A,
    benches: Seq<Vec<usize>>,
    rewards: Seq<Vec<Real64>>,
    t: int,
    prev: Option<int>,
    n: int,
    b: int,
)
    requires
        0 <= b < n <= benches.len(),
        0 <= t < rewards.len(),
        may_follow(benches, prev, b),
        forall|c: int|
            0 <= c < benches.len() ==> ({
                let v = outcome(
                    plus,
                    rewards[t]@[c],
                    #[trigger] value_after(plus, benches, rewards, t + 1, c),
                );
                !v.nan() && v.key() > lowest().key()
            }),
    ensures
        best_bench(plus, benches, rewards, t, prev, n).0 is Some,
        !best_bench(plus, benches, rewards, t, prev, n).1.nan(),
        best_bench(plus, benches, rewards, t, prev, n).1.key() > lowest().key(),
    decreases n,
{
    let rest = value_after(plus, benches, rewards, t + 1, n - 1);
    let value = outcome(plus, rewards[t]@[n - 1], rest);
    assert(!value.nan() && value.key() > lowest().key());
    if b < n - 1 {
        a_follower_is_found(plus, benches, rewards, t, prev, n - 1, b);
    } else {
        nothing_or_found(plus, benches, rewards, t, prev, n - 1);
    }
}

proof fn nothing_or_found<A: Fn(Real64, Real64) -> Real64>(
    plus: A,
    benches: Seq<Vec<usize>>,
    rewards: Seq<Vec<Real64>>,
    t: int,
    prev: Option<int>,
    n: int,
)
    requires
        0 <= n <= benches.len(),
        0 <= t < rewards.len(),
        forall|c: int|
            0 <= c < benches.len() ==> ({
                let v = outcome(
                    plus,
                    rewards[t]@[c],
                    #[trigger] value_after(plus, benches, rewards, t + 1, c),
                );
                !v.nan() && v.key() > lowest().key()
            }),
    ensures
        ({
            let best = best_bench(plus, benches, rewards, t, prev, n);
            &&& !best.1.nan()
            &&& best.0 is Some ==> best.1.key() > lowest().key()
            &&& best.0 is None ==> best.1 == lowest()
        }),
    decreases n,
{
    if n > 0 {
        nothing_or_found(plus, benches, rewards, t, prev, n - 1);
        let rest = value_after(plus, benches, rewards, t + 1, n - 1);
        let value = outcome(plus, rewards[t]@[n - 1], rest);
        assert(!value.nan() && value.key() > lowest().key());
    }
}

/// There is a best bench for every period after every other.
proof fn a_best_bench_is_found<A: Fn(Real64, Real64) -> Real64>(
    problem: SoccerProblem,
    plus: A,
    benches: Seq<Vec<usize>>,
    rewards: Seq<Vec<Real64>>,
    t: int,
    prev: Option<int>,
)
    requires
        are_benches(problem, benches),
        2 * problem.bench_size <= problem.num_players,
        rewards_all(benches, rewards),
        stays_clear(plus, rewards),
        0 <= t < rewards.len(),
        prev matches Some(a) ==> 0 <= a < benches.len(),
    ensures
        ({
            let best = best_bench(plus, benches, rewards, t, prev, benches.len() as int);
            best.0 is Some && !best.1.nan() && best.1.key() > lowest().key()
        }),
    decreases rewards.len() - t,
{
    assert forall|c: int| 0 <= c < benches.len() implies ({
        let v = outcome(
            plus,
            rewards[t]@[c],
            #[trigger] value_after(plus, benches, rewards, t + 1, c),
        );
        !v.nan() && v.key() > lowest().key()
    }) by {
        assert(rewards[t]@.len() == benches.len());
        if t + 1 < rewards.len() {
            a_best_bench_is_found(problem, plus, benches, rewards, t + 1, Some(c));
        }
    }
    some_bench_can_follow(problem, benches, prev);
    let b = choose|b: int| 0 <= b < benches.len() && #[trigger] may_follow(benches, prev, b);
    a_follower_is_found(plus, benches, rewards, t, prev, benches.len() as int, b);
}

/// The schedule that a path through the benches names is proper and is worth what the rewards of
/// the path come to; where the path is fair, nobody sits on the bench twice in a row.
proof fn paths_are_schedules<
    F: Fn(&Vec<Vec<Real64>>) -> AssignmentResult,
    A: Fn(Real64, Real64) -> Real64,
>(
    problem: SoccerProblem,
    solve: F,
    plus: A,
    worth: spec_fn(Real64) -> int,
    benches: Seq<Vec<usize>>,
    rewards: Seq<Vec<Real64>>,
    line_ups: Seq<Vec<Vec<i64>>>,
    picks: Seq<usize>,
    s: Schedule,
)
    requires
        is_plain(problem),
        problem.num_players <= i64::MAX,
        is_best_matcher(problem, solve, worth),
        are_benches(problem, benches),
        is_price_table(problem, solve, benches, rewards, line_ups),
        is_best_path(plus, benches, rewards, picks, problem.num_periods as int),
        takes_picks(
            benches,
            line_ups,
            picks,
            s.assignment@,
            s.bench@,
            problem.num_periods as int,
        ),
        adds_along(plus, worth, rewards, picks),
    ensures
        schedule_ok(problem, s),
        rotates(s),
        worth(path_value(plus, rewards, picks, 0)) == cells_total(problem, s, worth),
{
    let periods = problem.num_periods as int;
    let a = |t: int| worth(rewards[t]@[picks[t] as int]);
    let b = |t: int| line_worth(problem, s.assignment@[t]@, t, worth);
    assert forall|t: int| 0 <= t < periods implies #[trigger] a(t) == b(t) && period_ok(
        problem,
        s.assignment@[t]@,
        s.bench@[t]@,
    ) by {
        let pick = picks[t] as int;
        assert(picks[t] < benches.len());
        benches_are_subsets(problem, benches, pick);
        assert(rewards[t]@.len() == benches.len());
        assert(is_priced(
            problem,
            solve,
            t,
            benches[pick]@,
            rewards[t]@[pick],
            line_ups[t]@[pick]@,
        ));
        assert(s.assignment@[t]@ == line_ups[t]@[pick]@);
        assert(s.bench@[t]@ == benches[pick]@);
        prices_are_worth_their_lines(
            problem,
            solve,
            worth,
            t,
            benches[pick]@,
            rewards[t]@[pick],
            line_ups[t]@[pick]@,
        );
    }
    assert forall|t: int| 0 <= t < periods implies period_ok(
        problem,
        #[trigger] s.assignment@[t]@,
        s.bench@[t]@,
    ) by {
        assert(a(t) == b(t));
    }
    assert forall|t: int| 0 < t < s.bench@.len() implies is_disjoint(
        s.bench@[t - 1]@,
        (#[trigger] s.bench@[t])@,
    ) by {
        best_paths_are_fair(plus, benches, rewards, picks, t);
        assert(s.bench@[t - 1]@ == benches[picks[t - 1] as int]@);
    }
    total_same(a, b, periods);
    cells_are_lines(problem, s, worth);
    path_values_add_up(plus, worth, rewards, picks, 0);
}

/// The number of the bench that a line-up leaves out.
spec fn bench_left_out(problem: SoccerProblem, benches: Seq<Vec<usize>>, row: Seq<i64>) -> int {
    choose|b: int|
        0 <= b < benches.len() && (#[trigger] benches[b])@ == left_out(
            row,
            problem.num_players as int,
        )
}

proof fn line_ups_leave_out_a_bench(
    problem: SoccerProblem,
    benches: Seq<Vec<usize>>,
    row: Seq<i64>,
    bench: Seq<usize>,
)
    requires
        are_benches(problem, benches),
        period_ok(problem, row, bench),
    ensures
        ({
            let b = bench_left_out(problem, benches, row);
            &&& 0 <= b < benches.len()
            &&& benches[b]@ == left_out(row, problem.num_players as int)
            &&& forall|p: usize| #[trigger] benches[b]@.contains(p) ==> bench.contains(p)
        }),
{
    let n = problem.num_players as int;
    left_out_are_distinct(row, n);
    left_out_fill_the_bench(row, n);
    left_out_goes_up(row, n);
    subsets_are_benches(problem, benches, left_out(row, n));
    let b = bench_left_out(problem, benches, row);
    assert forall|p: usize| #[trigger] benches[b]@.contains(p) implies bench.contains(p) by {
        left_out_lists_the_others(row, n, p as int);
        everybody_is_somewhere(problem, row, bench, p as int);
    }
}

proof fn left_out_goes_up(row: Seq<i64>, n: int)
    requires
        n <= usize::MAX,
    ensures
        forall|i: int, j: int|
            0 <= i < j < left_out(row, n).len() ==> #[trigger] left_out(row, n)[i]
                < #[trigger] left_out(row, n)[j],
        forall|i: int| 0 <= i < left_out(row, n).len() ==> #[trigger] left_out(row, n)[i] < n,
    decreases n,
{
    if n > 0 {
        left_out_goes_up(row, n - 1);
        let rest = left_out(row, n - 1);
        let all = left_out(row, n);
        assert forall|i: int| 0 <= i < all.len() implies #[trigger] all[i] < n && (i < rest.len()
            ==> all[i] == rest[i] && all[i] < n - 1) by {
            if i < rest.len() {
                assert(rest[i] < n - 1);
            }
        }
        assert forall|i: int, j: int| 0 <= i < j < all.len() implies #[trigger] all[i]
            < #[trigger] all[j] by {
            if j < rest.len() {
                assert(rest[i] < rest[j]);
            }
        }
    }
}

/// No other proper schedule that benches nobody twice in a row is worth more than the best path.
proof fn no_schedule_is_worth_more<
    F: Fn(&Vec<Vec<Real64>>) -> AssignmentResult,
    A: Fn(Real64, Real64) -> Real64,
>(
    problem: SoccerProblem,
    solve: F,
    plus: A,
    worth: spec_fn(Real64) -> int,
    benches: Seq<Vec<usize>>,
    rewards: Seq<Vec<Real64>>,
    line_ups: Seq<Vec<Vec<i64>>>,
    picks: Seq<usize>,
    other: Schedule,
)
    requires
        is_plain(problem),
        problem.num_players <= i64::MAX,
        problem.num_periods >= 1,
        is_best_matcher(problem, solve, worth),
        is_monotone(plus),
        follows_the_order(worth),
        are_benches(problem, benches),
        is_price_table(problem, solve, benches, rewards, line_ups),
        is_best_path(plus, benches, rewards, picks, problem.num_periods as int),
        forall|path: Seq<usize>|
            picks_rewards(rewards, path) ==> #[trigger] adds_along(plus, worth, rewards, path),
        schedule_ok(problem, other),
        rotates(other),
    ensures
        cells_total(problem, other, worth) <= worth(path_value(plus, rewards, picks, 0)),
{
    let periods = problem.num_periods as int;
    let path = Seq::new(
        periods as nat,
        |t: int| bench_left_out(problem, benches, other.assignment@[t]@) as usize,
    );
    assert(benches.len() <= usize::MAX) by {
        assert(rewards[0].len() == benches.len());
    }
    let a = |t: int| line_worth(problem, other.assignment@[t]@, t, worth);
    let b = |t: int| worth(rewards[t]@[path[t] as int]);
    assert forall|t: int| 0 <= t < periods implies #[trigger] path[t] < benches.len()
        && benches[path[t] as int]@ == left_out(
        other.assignment@[t]@,
        problem.num_players as int,
    ) && (forall|p: usize| #[trigger]
        benches[path[t] as int]@.contains(p) ==> other.bench@[t]@.contains(p)) by {
        assert(period_ok(problem, other.assignment@[t]@, other.bench@[t]@));
        line_ups_leave_out_a_bench(problem, benches, other.assignment@[t]@, other.bench@[t]@);
    }
    assert forall|t: int| 0 <= t < periods implies #[trigger] a(t) <= b(t) by {
        let pick = path[t] as int;
        assert(path[t] < benches.len());
        assert(period_ok(problem, other.assignment@[t]@, other.bench@[t]@));
        assert(rewards[t]@.len() == benches.len());
        assert(is_priced(
            problem,
            solve,
            t,
            benches[pick]@,
            rewards[t]@[pick],
            line_ups[t]@[pick]@,
        ));
        prices_are_the_most(
            problem,
            solve,
            worth,
            t,
            benches[pick]@,
            rewards[t]@[pick],
            line_ups[t]@[pick]@,
            other.assignment@[t]@,
        );
    }
    total_grows(a, b, periods);
    cells_are_lines(problem, other, worth);
    assert(picks_rewards(rewards, path)) by {
        assert forall|t: int| 0 <= t < path.len() implies #[trigger] path[t]
            < rewards[t]@.len() by {
            assert(rewards[t]@.len() == benches.len());
        }
    }
    assert(adds_along(plus, worth, rewards, path));
    path_values_add_up(plus, worth, rewards, path, 0);
    assert forall|t: int| 0 < t < periods implies is_disjoint(
        benches[path[t - 1] as int]@,
        benches[#[trigger] path[t] as int]@,
    ) by {
        let here = benches[path[t] as int]@;
        assert(path[t - 1] < benches.len());
        assert forall|i: int| 0 <= i < here.len() implies !benches[path[t
            - 1] as int]@.contains(#[trigger] here[i]) by {
            assert(here.contains(here[i]));
            assert(other.bench@[t]@.contains(here[i]));
            let j = choose|j: int|
                0 <= j < other.bench@[t]@.len() && other.bench@[t]@[j] == here[i];
            assert(is_disjoint(other.bench@[t - 1]@, other.bench@[t]@));
            assert(!other.bench@[t - 1]@.contains(other.bench@[t]@[j]));
        }
    }
    assert(is_fair_path(benches, path, periods));
    rewards_are_no_nan(problem, solve, worth, benches, rewards, line_ups);
    best_path_dominates(plus, benches, rewards, path, 0);
    best_path_earns_its_value(plus, benches, rewards, picks, 0);
    best_is_a_number(plus, benches, rewards, 0, None, benches.len() as int);
}

proof fn rewards_are_no_nan<F: Fn(&Vec<Vec<Real64>>) -> AssignmentResult>(
    problem: SoccerProblem,
    solve: F,
    worth: spec_fn(Real64) -> int,
    benches: Seq<Vec<usize>>,
    rewards: Seq<Vec<Real64>>,
    line_ups: Seq<Vec<Vec<i64>>>,
)
    requires
        is_plain(problem),
        problem.num_players <= i64::MAX,
        is_best_matcher(problem, solve, worth),
        are_benches(problem, benches),
        is_price_table(problem, solve, benches, rewards, line_ups),
    ensures
        rewards_are_numbers(rewards),
{
    assert forall|t: int, b: int|
        0 <= t < rewards.len() && 0 <= b < rewards[t]@.len() implies !(
    #[trigger] rewards[t]@[b]).nan() by {
        assert(rewards[t]@.len() == benches.len());
        benches_are_subsets(problem, benches, b);
        assert(is_priced(problem, solve, t, benches[b]@, rewards[t]@[b], line_ups[t]@[b]@));
        prices_are_worth_their_lines(
            problem,
            solve,
            worth,
            t,
            benches[b]@,
            rewards[t]@[b],
            line_ups[t]@[b]@,
        );
    }
}

/// What the arithmetic has to keep for the prices of a problem: no sum along a path is rounded,
/// and none falls to minus infinity.
pub open spec fn sums_exactly<
    F: Fn(&Vec<Vec<Real64>>) -> AssignmentResult,
    A: Fn(Real64, Real64) -> Real64,
>(problem: SoccerProblem, solve: F, plus: A, worth: spec_fn(Real64) -> int) -> bool {
    forall|benches: Seq<Vec<usize>>, rewards: Seq<Vec<Real64>>, line_ups: Seq<Vec<Vec<i64>>>|
        #[trigger] is_price_table(problem, solve, benches, rewards, line_ups) ==> {
            &&& stays_clear(plus, rewards)
            &&& forall|path: Seq<usize>|
                picks_rewards(rewards, path) ==> #[trigger] adds_along(plus, worth, rewards, path)
        }
}

/// The exact policy finds a plan. Its schedule is proper and benches nobody twice in a row, its
/// value is what the cells of the schedule are worth, and no other proper schedule that benches
/// nobody twice in a row is worth more. The solver has to match best, the addition to keep order,
/// and the sums to be exact.
pub proof fn the_exact_plan_is_best<
    F: Fn(&Vec<Vec<Real64>>) -> AssignmentResult,
    A: Fn(Real64, Real64) -> Real64,
>(
    problem: SoccerProblem,
    solve: F,
    plus: A,
    worth: spec_fn(Real64) -> int,
    r: Option<MdpScheduleResult>,
    s: Schedule,
)
    requires
        is_plain(problem),
        problem.num_players <= i64::MAX,
        problem.num_periods >= 1,
        2 * problem.bench_size <= problem.num_players,
        is_best_matcher(problem, solve, worth),
        is_monotone(plus),
        follows_the_order(worth),
        sums_exactly(problem, solve, plus, worth),
        is_exact_plan(problem, solve, plus, r),
        r matches Some(m) ==> is_schedule_of(m, s),
    ensures
        r is Some,
        schedule_ok(problem, s),
        rotates(s),
        fair(problem, s),
        worth(r->0.optimal_value) == cells_total(problem, s, worth),
        forall|other: Schedule| #[trigger]
            schedule_ok(problem, other) && rotates(other) ==> cells_total(problem, other, worth)
                <= worth(r->0.optimal_value),
{
    let n = problem.num_players as int;
    let periods = problem.num_periods as int;
    let all = subsets(n, problem.bench_size as int, Seq::empty(), 0);
    let (benches, rewards, line_ups) = choose|
        benches: Seq<Vec<usize>>,
        rewards: Seq<Vec<Real64>>,
        line_ups: Seq<Vec<Vec<i64>>>,
    |
        {
            &&& lists_all(benches, all)
            &&& #[trigger] is_price_table(problem, solve, benches, rewards, line_ups)
            &&& problem.bench_size == 0 ==> r is Some && is_benchless_plan(
                plus,
                benches,
                rewards,
                line_ups,
                r->0,
            )
            &&& problem.bench_size > 0 && r is Some ==> {
                ||| exists|picks: Seq<usize>| #[trigger]
                    is_best_path(plus, benches, rewards, picks, periods) && takes_picks(
                        benches,
                        line_ups,
                        picks,
                        r->0.assignment@,
                        r->0.bench@,
                        periods,
                    ) && r->0.optimal_value == path_value(plus, rewards, picks, 0)
                ||| problem.num_periods == 1 && is_bare_period(r->0) && r->0.optimal_value
                    == lowest() && best_bench(
                    plus,
                    benches,
                    rewards,
                    0,
                    None,
                    benches.len() as int,
                ).0 is None
            }
            &&& problem.bench_size > 0 && r is None ==> problem.num_periods > 1 && exists|
                path: Seq<usize>,
                t: int,
            | #[trigger]
                is_best_path(plus, benches, rewards, path, t) && 0 <= t < rewards.len()
                    && best_bench(
                    plus,
                    benches,
                    rewards,
                    t,
                    previous(path, t),
                    benches.len() as int,
                ).0 is None
        };
    let count = benches.len() as int;
    assert(are_benches(problem, benches));
    a_best_bench_is_found(problem, plus, benches, rewards, 0, None);
    let picks = if problem.bench_size == 0 {
        let picks = Seq::new(
            periods as nat,
            |t: int| best_bench(plus, benches, rewards, t, None, count).0->0 as usize,
        );
        no_bench_is_a_path(problem, solve, plus, benches, rewards, line_ups, r->0, picks);
        picks
    } else {
        if r is None {
            let (path, t) = choose|path: Seq<usize>, t: int| #[trigger]
                is_best_path(plus, benches, rewards, path, t) && 0 <= t < rewards.len()
                    && best_bench(
                    plus,
                    benches,
                    rewards,
                    t,
                    previous(path, t),
                    benches.len() as int,
                ).0 is None;
            if t > 0 {
                assert(path[t - 1] < benches.len());
            }
            a_best_bench_is_found(problem, plus, benches, rewards, t, previous(path, t));
        }
        choose|picks: Seq<usize>| #[trigger]
            is_best_path(plus, benches, rewards, picks, periods) && takes_picks(
                benches,
                line_ups,
                picks,
                r->0.assignment@,
                r->0.bench@,
                periods,
            ) && r->0.optimal_value == path_value(plus, rewards, picks, 0)
    };
    assert(picks_rewards(rewards, picks)) by {
        assert forall|t: int| 0 <= t < picks.len() implies #[trigger] picks[t]
            < rewards[t]@.len() by {
            assert(rewards[t]@.len() == benches.len());
        }
    }
    assert(adds_along(plus, worth, rewards, picks));
    assert(takes_picks(benches, line_ups, picks, s.assignment@, s.bench@, periods)) by {
        assert forall|t: int| 0 <= t < periods implies (#[trigger] s.assignment@[t])@
            == line_ups[t]@[picks[t] as int]@ by {
            assert(s.assignment@[t]@ == r->0.assignment@[t]@);
        }
        assert forall|t: int| 0 <= t < periods implies (#[trigger] s.bench@[t])@
            == benches[picks[t] as int]@ by {
            assert(s.bench@[t]@ == r->0.bench@[t]@);
        }
    }
    paths_are_schedules(problem, solve, plus, worth, benches, rewards, line_ups, picks, s);
    rotating_benches_are_fair(problem, s);
    assert forall|other: Schedule| #[trigger]
        schedule_ok(problem, other) && rotates(other) implies cells_total(problem, other, worth)
        <= worth(r->0.optimal_value) by {
        no_schedule_is_worth_more(
            problem,
            solve,
            plus,
            worth,
            benches,
            rewards,
            line_ups,
            picks,
            other,
        );
    }
}

/// The schedule is that of the plan.
pub open spec fn is_schedule_of(m: MdpScheduleResult, s: Schedule) -> bool {
    &&& s.assignment@.len() == m.assignment@.len()
    &&& s.bench@.len() == m.bench@.len()
    &&& forall|t: int|
        0 <= t < s.assignment@.len() ==> (#[trigger] s.assignment@[t])@ == m.assignment@[t]@
    &&& forall|t: int| 0 <= t < s.bench@.len() ==> (#[trigger] s.bench@[t])@ == m.bench@[t]@
}

/// The plan of a match without a bench is that of a best path.
proof fn no_bench_is_a_path<
    F: Fn(&Vec<Vec<Real64>>) -> AssignmentResult,
    A: Fn(Real64, Real64) -> Real64,
>(
    problem: SoccerProblem,
    solve: F,
    plus: A,
    benches: Seq<Vec<usize>>,
    rewards: Seq<Vec<Real64>>,
    line_ups: Seq<Vec<Vec<i64>>>,
    m: MdpScheduleResult,
    picks: Seq<usize>,
)
    requires
        problem.bench_size == 0,
        problem.num_periods >= 1,
        are_benches(problem, benches),
        is_price_table(problem, solve, benches, rewards, line_ups),
        stays_clear(plus, rewards),
        is_benchless_plan(plus, benches, rewards, line_ups, m),
        picks == Seq::new(
            problem.num_periods as nat,
            |t: int|
                best_bench(plus, benches, rewards, t, None, benches.len() as int).0->0 as usize,
        ),
    ensures
        is_best_path(plus, benches, rewards, picks, problem.num_periods as int),
        takes_picks(
            benches,
            line_ups,
            picks,
            m.assignment@,
            m.bench@,
            problem.num_periods as int,
        ),
        m.optimal_value == path_value(plus, rewards, picks, 0),
{
    let periods = problem.num_periods as int;
    let n = benches.len() as int;
    assert(rewards[0]@.len() == benches.len());
    assert forall|b: int| 0 <= b < benches.len() implies (#[trigger] benches[b])@.len() == 0 by {
        benches_are_subsets(problem, benches, b);
    }
    assert forall|t: int| 0 <= t < periods implies #[trigger] picks[t] < benches.len()
        && best_bench(plus, benches, rewards, t, None, n).0 == Some(picks[t] as int)
        && best_bench(plus, benches, rewards, t, previous(picks, t), n).0 == Some(
        picks[t] as int,
    ) by {
        a_best_bench_is_found(problem, plus, benches, rewards, t, None);
        best_may_follow(plus, benches, rewards, t, None, n);
        empty_benches_follow_all(plus, benches, rewards, t, previous(picks, t), n);
    }
    assert(is_best_path(plus, benches, rewards, picks, periods));
    assert forall|t: int| 0 <= t < periods implies (#[trigger] m.assignment@[t])@
        == line_ups[t]@[picks[t] as int]@ by {
        assert(picks[t] < benches.len());
    }
    assert forall|t: int| 0 <= t < periods implies (#[trigger] m.bench@[t])@
        == benches[picks[t] as int]@ by {
        assert(picks[t] < benches.len());
        assert(benches[picks[t] as int]@.len() == 0);
        assert(m.bench@[t]@ =~= benches[picks[t] as int]@);
    }
    best_path_earns_its_value(plus, benches, rewards, picks, 0);
}

/// The worth adds up along the periods at their best: no step of the sum is rounded.
pub open spec fn adds_alone<A: Fn(Real64, Real64) -> Real64>(
    plus: A,
    worth: spec_fn(Real64) -> int,
    rewards: Seq<Vec<Real64>>,
) -> bool {
    &&& worth(Real64 { bits: 0 }) == 0
    &&& forall|t: int|
        0 <= t < rewards.len() ==> ({
            let best = best_alone(rewards[t]@, rewards[t]@.len() as int).1;
            worth(outcome(plus, #[trigger] sum_alone(plus, rewards, t), best)) == worth(
                sum_alone(plus, rewards, t),
            ) + worth(best)
        })
}

/// What the arithmetic has to keep for the prices of a problem: no sum of the periods at their
/// best is rounded.
pub open spec fn sums_alone_exactly<
    F: Fn(&Vec<Vec<Real64>>) -> AssignmentResult,
    A: Fn(Real64, Real64) -> Real64,
>(problem: SoccerProblem, solve: F, plus: A, worth: spec_fn(Real64) -> int) -> bool {
    forall|benches: Seq<Vec<usize>>, rewards: Seq<Vec<Real64>>, line_ups: Seq<Vec<Vec<i64>>>|
        #[trigger] is_price_table(problem, solve, benches, rewards, line_ups) ==> adds_alone(
            plus,
            worth,
            rewards,
        )
}

proof fn alone_values_add_up<A: Fn(Real64, Real64) -> Real64>(
    plus: A,
    worth: spec_fn(Real64) -> int,
    rewards: Seq<Vec<Real64>>,
    t: int,
)
    requires
        adds_alone(plus, worth, rewards),
        0 <= t <= rewards.len(),
    ensures
        worth(sum_alone(plus, rewards, t)) == total(
            |u: int| worth(best_alone(rewards[u]@, rewards[u]@.len() as int).1),
            t,
        ),
    decreases t,
{
    if t > 0 {
        alone_values_add_up(plus, worth, rewards, t - 1);
    }
}

/// No proper schedule is worth more than the memoryless plan, fair or not. The solver has to match
/// best and the sums to be exact.
pub proof fn no_schedule_beats_the_memoryless_plan<
    F: Fn(&Vec<Vec<Real64>>) -> AssignmentResult,
    A: Fn(Real64, Real64) -> Real64,
>(
    problem: SoccerProblem,
    solve: F,
    plus: A,
    worth: spec_fn(Real64) -> int,
    alone: MemorylessMDPResult,
    other: Schedule,
)
    requires
        is_plain(problem),
        problem.num_players <= i64::MAX,
        is_best_matcher(problem, solve, worth),
        follows_the_order(worth),
        sums_alone_exactly(problem, solve, plus, worth),
        is_memoryless_plan(problem, solve, plus, alone),
        schedule_ok(problem, other),
    ensures
        cells_total(problem, other, worth) <= worth(alone.value),
{
    let n = problem.num_players as int;
    let periods = problem.num_periods as int;
    let (benches, rewards, line_ups) = choose|
        benches: Seq<Vec<usize>>,
        rewards: Seq<Vec<Real64>>,
        line_ups: Seq<Vec<Vec<i64>>>,
    |
        {
            &&& lists_all(benches, subsets(n, problem.bench_size as int, Seq::empty(), 0))
            &&& #[trigger] is_price_table(problem, solve, benches, rewards, line_ups)
            &&& all_stand_alone(
                benches,
                rewards,
                line_ups,
                alone.schedule.assignment@,
                alone.schedule.bench@,
                periods,
            )
            &&& alone.value == sum_alone(plus, rewards, periods)
        };
    assert(are_benches(problem, benches));
    rewards_are_no_nan(problem, solve, worth, benches, rewards, line_ups);
    let a = |t: int| line_worth(problem, other.assignment@[t]@, t, worth);
    let b = |t: int| worth(best_alone(rewards[t]@, rewards[t]@.len() as int).1);
    assert forall|t: int| 0 <= t < periods implies #[trigger] a(t) <= b(t) by {
        let row = other.assignment@[t]@;
        assert(period_ok(problem, other.assignment@[t]@, other.bench@[t]@));
        line_ups_leave_out_a_bench(problem, benches, row, other.bench@[t]@);
        let pick = bench_left_out(problem, benches, row);
        assert(rewards[t]@.len() == benches.len());
        let reward = rewards[t]@[pick];
        assert(is_priced(problem, solve, t, benches[pick]@, reward, line_ups[t]@[pick]@));
        prices_are_the_most(
            problem,
            solve,
            worth,
            t,
            benches[pick]@,
            reward,
            line_ups[t]@[pick]@,
            row,
        );
        assert forall|i: int| 0 <= i < rewards[t]@.len() implies !(
        #[trigger] rewards[t]@[i]).nan() by {}
        best_alone_is_no_worse(rewards[t]@, rewards[t]@.len() as int, pick);
        assert(!reward.nan());
    }
    total_grows(a, b, periods);
    cells_are_lines(problem, other, worth);
    alone_values_add_up(plus, worth, rewards, periods);
}

/// The exact plan is worth no more than the memoryless one: dropping fairness never costs.
pub proof fn fairness_never_gains<
    F: Fn(&Vec<Vec<Real64>>) -> AssignmentResult,
    A: Fn(Real64, Real64) -> Real64,
>(
    problem: SoccerProblem,
    solve: F,
    plus: A,
    worth: spec_fn(Real64) -> int,
    exact: MdpScheduleResult,
    alone: MemorylessMDPResult,
)
    requires
        is_plain(problem),
        problem.num_players <= i64::MAX,
        problem.num_periods >= 1,
        2 * problem.bench_size <= problem.num_players,
        is_best_matcher(problem, solve, worth),
        is_monotone(plus),
        follows_the_order(worth),
        sums_exactly(problem, solve, plus, worth),
        sums_alone_exactly(problem, solve, plus, worth),
        is_exact_plan(problem, solve, plus, Some(exact)),
        is_memoryless_plan(problem, solve, plus, alone),
    ensures
        worth(exact.optimal_value) <= worth(alone.value),
{
    let s = Schedule { assignment: exact.assignment, bench: exact.bench };
    the_exact_plan_is_best(problem, solve, plus, worth, Some(exact), s);
    no_schedule_beats_the_memoryless_plan(problem, solve, plus, worth, alone, s);
}

} // verus!
