//! Policies that fill one period after the other: random, greedy, and rounded from a relaxation.
use crate::number::{Real64, INFINITY_BITS, SIGN_BIT};
use crate::order::{is_ranking, ranking};
use crate::rotation::decode::{bench_of, left_out};
use crate::rotation::problem::{Schedule, SoccerProblem};
use crate::rotation::structure::fields;
use vstd::prelude::*;

verus! {

/// What an assignment solver hands back for a matrix of weights: for every row the column it is
/// matched to, or a negative number, and the total weight.
#[derive(Debug)]
pub struct AssignmentResult {
    pub rows: Vec<i64>,
    pub total: Real64,
}

/// Every one of `n` rows is matched to one of `k` columns or to none, and no column twice.
pub open spec fn rows_fit(rows: Seq<i64>, n: int, k: int) -> bool {
    &&& rows.len() == n
    &&& forall|i: int| 0 <= i < rows.len() ==> #[trigger] rows[i] < k
    &&& forall|i: int, j: int|
        0 <= i < j < rows.len() && #[trigger] rows[i] >= 0 ==> rows[i] != #[trigger] rows[j]
}

/// The matrix has `k` columns.
pub open spec fn is_rectangular(m: Seq<Vec<Real64>>, k: int) -> bool {
    forall|i: int| 0 <= i < m.len() ==> (#[trigger] m[i])@.len() == k
}

/// The solver takes every matrix and matches its rows.
pub open spec fn is_solver<F: Fn(&Vec<Vec<Real64>>) -> AssignmentResult>(solve: F) -> bool {
    &&& forall|m: &Vec<Vec<Real64>>| #[trigger] call_requires(solve, (m,))
    &&& forall|m: &Vec<Vec<Real64>>, r: AssignmentResult, k: int| #[trigger]
        call_ensures(solve, (m,), r) && #[trigger] is_rectangular(m@, k) ==> rows_fit(
            r.rows@,
            m@.len() as int,
            k,
        )
}

/// The matrix holds the affinities of the chosen players in a period.
pub open spec fn is_weights(
    problem: SoccerProblem,
    t: int,
    chosen: Seq<usize>,
    m: Seq<Vec<Real64>>,
) -> bool {
    &&& m.len() == chosen.len()
    &&& is_rectangular(m, problem.num_positions as int)
    &&& forall|i: int, pos: int|
        0 <= i < m.len() && 0 <= pos < problem.num_positions ==> #[trigger] m[i]@[pos]
            == problem.affinity@[chosen[i] as int]@[pos]@[t]
}

pub(crate) fn weights_of(problem: &SoccerProblem, t: usize, chosen: &Vec<usize>) -> (m: Vec<Vec<Real64>>)
    requires
        problem.has_affinities(),
        t < problem.num_periods,
        forall|i: int| 0 <= i < chosen@.len() ==> #[trigger] chosen@[i] < problem.num_players,
    ensures
        is_weights(*problem, t as int, chosen@, m@),
{
    let mut m: Vec<Vec<Real64>> = Vec::new();
    let mut i: usize = 0;
    while i < chosen.len()
        invariant
            i <= chosen@.len(),
            problem.has_affinities(),
            t < problem.num_periods,
            forall|i: int| 0 <= i < chosen@.len() ==> #[trigger] chosen@[i] < problem.num_players,
            is_weights(*problem, t as int, chosen@.take(i as int), m@),
        decreases chosen@.len() - i,
    {
        let p: usize = chosen[i];
        let mut row: Vec<Real64> = Vec::new();
        let mut pos: usize = 0;
        while pos < problem.num_positions
            invariant
                pos <= problem.num_positions,
                problem.has_affinities(),
                t < problem.num_periods,
                p < problem.num_players,
                row@.len() == pos,
                forall|q: int|
                    0 <= q < pos ==> #[trigger] row@[q]
                        == problem.affinity@[p as int]@[q]@[t as int],
            decreases problem.num_positions - pos,
        {
            row.push(problem.affinity[p][pos][t]);
            pos += 1;
        }
        let ghost before = m@;
        m.push(row);
        proof {
            let part = chosen@.take(i + 1);
            assert forall|j: int, pos: int|
                0 <= j < m@.len() && 0 <= pos < problem.num_positions implies #[trigger] m@[j]@[pos]
                == problem.affinity@[part[j] as int]@[pos]@[t as int] by {
                if j < i {
                    assert(m@[j] == before[j]);
                    assert(chosen@.take(i as int)[j] == part[j]);
                    assert(before[j]@[pos] == m@[j]@[pos]);
                }
            }
            assert forall|j: int| 0 <= j < m@.len() implies (#[trigger] m@[j])@.len()
                == problem.num_positions by {
                if j < i {
                    assert(m@[j] == before[j]);
                }
            }
        }
        i += 1;
    }
    assert(chosen@.take(chosen@.len() as int) =~= chosen@);
    m
}

/// The player whom the first `n` matched rows put at a position; -1 where it is nobody.
pub open spec fn seated(chosen: Seq<usize>, rows: Seq<i64>, pos: int, n: int) -> int
    decreases n,
{
    if n <= 0 {
        -1
    } else if rows[n - 1] == pos {
        chosen[n - 1] as int
    } else {
        seated(chosen, rows, pos, n - 1)
    }
}

/// The line-up seats the chosen players as they were matched.
pub open spec fn is_seating(
    chosen: Seq<usize>,
    rows: Seq<i64>,
    line_up: Seq<i64>,
    k: int,
) -> bool {
    &&& line_up.len() == k
    &&& forall|pos: int|
        0 <= pos < k ==> #[trigger] line_up[pos] == seated(chosen, rows, pos, chosen.len() as int)
}

/// Seats the chosen players as they were matched.
pub fn seat(chosen: &Vec<usize>, rows: &Vec<i64>, k: usize) -> (line_up: Vec<i64>)
    requires
        rows_fit(rows@, chosen@.len() as int, k as int),
        forall|i: int| 0 <= i < chosen@.len() ==> #[trigger] chosen@[i] <= i64::MAX,
    ensures
        is_seating(chosen@, rows@, line_up@, k as int),
{
    let mut line_up: Vec<i64> = Vec::new();
    let mut pos: usize = 0;
    while pos < k
        invariant
            pos <= k,
            line_up@.len() == pos,
            forall|q: int| 0 <= q < pos ==> #[trigger] line_up@[q] == -1,
        decreases k - pos,
    {
        line_up.push(-1);
        pos += 1;
    }
    let mut i: usize = 0;
    while i < chosen.len()
        invariant
            i <= chosen@.len(),
            rows_fit(rows@, chosen@.len() as int, k as int),
            forall|i: int| 0 <= i < chosen@.len() ==> #[trigger] chosen@[i] <= i64::MAX,
            line_up@.len() == k,
            forall|q: int|
                0 <= q < k ==> #[trigger] line_up@[q] == seated(chosen@, rows@, q, i as int),
        decreases chosen@.len() - i,
    {
        let place: i64 = rows[i];
        assert(rows@[i as int] < k);
        if place >= 0 {
            line_up.set(place as usize, chosen[i] as i64);
        }
        i += 1;
    }
    line_up
}

/// The line-up comes of the solver's reply to the chosen players' affinities in a period.
pub open spec fn is_assigned<F: Fn(&Vec<Vec<Real64>>) -> AssignmentResult>(
    problem: SoccerProblem,
    solve: F,
    t: int,
    chosen: Seq<usize>,
    total: Real64,
    line_up: Seq<i64>,
) -> bool {
    exists|m: Vec<Vec<Real64>>, r: AssignmentResult|
        {
            &&& #[trigger] call_ensures(solve, (&m,), r)
            &&& is_weights(problem, t, chosen, m@)
            &&& is_seating(chosen, r.rows@, line_up, problem.num_positions as int)
            &&& total == r.total
        }
}

/// Assigns the chosen players to the positions of a period, and says what the assignment is worth.
pub fn hungarian_assign_period<F: Fn(&Vec<Vec<Real64>>) -> AssignmentResult>(
    problem: &SoccerProblem,
    t: usize,
    chosen: &Vec<usize>,
    solve: &F,
) -> (r: (Real64, Vec<i64>))
    requires
        problem.has_affinities(),
        problem.num_players <= i64::MAX,
        t < problem.num_periods,
        forall|i: int| 0 <= i < chosen@.len() ==> #[trigger] chosen@[i] < problem.num_players,
        is_solver(*solve),
    ensures
        is_assigned(*problem, *solve, t as int, chosen@, r.0, r.1@),
{
    let m: Vec<Vec<Real64>> = weights_of(problem, t, chosen);
    let reply: AssignmentResult = solve(&m);
    assert(is_rectangular(m@, problem.num_positions as int));
    let line_up: Vec<i64> = seat(chosen, &reply.rows, problem.num_positions);
    assert(call_ensures(*solve, (&m,), reply));
    (reply.total, line_up)
}

/// The listed players among the first `n` of `order` who are, or are not, on a list.
pub open spec fn picked(order: Seq<usize>, list: Seq<usize>, on_it: bool, n: int) -> Seq<usize>
    decreases n,
{
    if n <= 0 {
        Seq::empty()
    } else if list.contains(order[n - 1]) == on_it {
        picked(order, list, on_it, n - 1).push(order[n - 1])
    } else {
        picked(order, list, on_it, n - 1)
    }
}

/// Those who must play in their order, then the others in theirs.
pub open spec fn preference(order: Seq<usize>, must: Seq<usize>) -> Seq<usize> {
    picked(order, must, true, order.len() as int) + picked(order, must, false, order.len() as int)
}

/// The first `k` of a list.
pub open spec fn first_of(line: Seq<usize>, k: int) -> Seq<usize> {
    if line.len() <= k {
        line
    } else {
        line.take(k)
    }
}

fn is_listed(list: &Vec<usize>, p: usize) -> (b: bool)
    ensures
        b == list@.contains(p),
{
    let mut i: usize = 0;
    while i < list.len()
        invariant
            i <= list@.len(),
            forall|j: int| 0 <= j < i ==> list@[j] != p,
        decreases list@.len() - i,
    {
        if list[i] == p {
            return true;
        }
        i += 1;
    }
    false
}

/// Chooses who plays: first those who must, then the best of the others.
pub fn choose_players(order: &Vec<usize>, must: &Vec<usize>, k: usize) -> (chosen: Vec<usize>)
    ensures
        chosen@ == first_of(preference(order@, must@), k as int),
{
    let mut chosen: Vec<usize> = Vec::new();
    let n: usize = order.len();
    let mut i: usize = 0;
    while i < n
        invariant
            i <= n,
            n == order@.len(),
            chosen@ == picked(order@, must@, true, i as int),
        decreases n - i,
    {
        if is_listed(must, order[i]) {
            chosen.push(order[i]);
        }
        i += 1;
    }
    let ghost first = chosen@;
    let mut i: usize = 0;
    assert(first + picked(order@, must@, false, 0) =~= first);
    while i < n
        invariant
            i <= n,
            n == order@.len(),
            chosen@ == first + picked(order@, must@, false, i as int),
        decreases n - i,
    {
        if !is_listed(must, order[i]) {
            chosen.push(order[i]);
        }
        i += 1;
        assert(chosen@ =~= first + picked(order@, must@, false, i as int));
    }
    if chosen.len() > k {
        chosen.truncate(k);
    }
    chosen
}

/// The players below `n` who are not chosen, in order.
pub open spec fn unchosen(chosen: Seq<usize>, n: int) -> Seq<usize>
    decreases n,
{
    if n <= 0 {
        Seq::empty()
    } else if chosen.contains((n - 1) as usize) {
        unchosen(chosen, n - 1)
    } else {
        unchosen(chosen, n - 1).push((n - 1) as usize)
    }
}

pub(crate) fn unchosen_of(chosen: &Vec<usize>, num_players: usize) -> (bench: Vec<usize>)
    ensures
        bench@ == unchosen(chosen@, num_players as int),
{
    let mut bench: Vec<usize> = Vec::new();
    let mut p: usize = 0;
    while p < num_players
        invariant
            p <= num_players,
            bench@ == unchosen(chosen@, p as int),
        decreases num_players - p,
    {
        if !is_listed(chosen, p) {
            bench.push(p);
        }
        p += 1;
    }
    bench
}

/// The keys by which players are ranked in a period: the best rated first.
pub open spec fn rating_keys(ratings: Seq<Real64>) -> Seq<Option<i128>> {
    Seq::new(ratings.len(), |p: int| Some((-ratings[p].key()) as i128))
}

fn rank_players(ratings: &Vec<Real64>) -> (order: Vec<usize>)
    ensures
        is_ranking(rating_keys(ratings@), order@),
{
    let mut keys: Vec<Option<i128>> = Vec::new();
    let mut p: usize = 0;
    while p < ratings.len()
        invariant
            p <= ratings@.len(),
            keys@.len() == p,
            forall|q: int| 0 <= q < p ==> #[trigger] keys@[q] == rating_keys(ratings@)[q],
        decreases ratings@.len() - p,
    {
        keys.push(Some(-(ratings[p].order_key() as i128)));
        p += 1;
    }
    assert(keys@ =~= rating_keys(ratings@));
    ranking(&keys)
}

/// The period is filled: the best rated players after those who must play are chosen, the
/// solver matches them to positions, and the others sit on the bench.
pub open spec fn is_filled<F: Fn(&Vec<Vec<Real64>>) -> AssignmentResult>(
    problem: SoccerProblem,
    solve: F,
    ratings: Seq<Real64>,
    must: Seq<usize>,
    t: int,
    line_up: Seq<i64>,
    bench: Seq<usize>,
) -> bool {
    exists|order: Seq<usize>, m: Vec<Vec<Real64>>, r: AssignmentResult|
        {
            let chosen = first_of(preference(order, must), problem.num_positions as int);
            &&& #[trigger] is_ranking(rating_keys(ratings), order)
            &&& #[trigger] call_ensures(solve, (&m,), r)
            &&& is_weights(problem, t, chosen, m@)
            &&& is_seating(chosen, r.rows@, line_up, problem.num_positions as int)
            &&& bench == unchosen(chosen, problem.num_players as int)
        }
}

/// There is a rating for every player in every period.
pub open spec fn rates_all(problem: SoccerProblem, ratings: Seq<Vec<Real64>>) -> bool {
    &&& ratings.len() == problem.num_periods
    &&& forall|t: int| 0 <= t < ratings.len() ==> (#[trigger] ratings[t])@.len()
        == problem.num_players
}

/// Every period of the schedule is filled by its ratings; with `keep_fair` whoever sat on the
/// bench must play next.
pub open spec fn is_filled_schedule<F: Fn(&Vec<Vec<Real64>>) -> AssignmentResult>(
    problem: SoccerProblem,
    solve: F,
    ratings: Seq<Vec<Real64>>,
    keep_fair: bool,
    schedule: Schedule,
    periods: int,
) -> bool {
    &&& schedule.assignment@.len() == periods
    &&& schedule.bench@.len() == periods
    &&& forall|t: int|
        0 <= t < periods ==> is_filled(
            problem,
            solve,
            ratings[t]@,
            if keep_fair && t > 0 {
                schedule.bench@[t - 1]@
            } else {
                Seq::empty()
            },
            t,
            #[trigger] schedule.assignment@[t]@,
            schedule.bench@[t]@,
        )
}

proof fn picks_are_players(order: Seq<usize>, list: Seq<usize>, on_it: bool, n: int, players: int)
    requires
        0 <= n <= order.len(),
        forall|i: int| 0 <= i < order.len() ==> #[trigger] order[i] < players,
    ensures
        forall|i: int|
            0 <= i < picked(order, list, on_it, n).len() ==> #[trigger] picked(
                order,
                list,
                on_it,
                n,
            )[i] < players,
    decreases n,
{
    if n > 0 {
        picks_are_players(order, list, on_it, n - 1, players);
        let rest = picked(order, list, on_it, n - 1);
        assert forall|i: int| 0 <= i < picked(order, list, on_it, n).len() implies #[trigger] picked(
            order,
            list,
            on_it,
            n,
        )[i] < players by {
            if i < rest.len() {
                assert(rest[i] < players);
            } else {
                assert(order[n - 1] < players);
            }
        }
    }
}

fn copy_players(players: &Vec<usize>) -> (r: Vec<usize>)
    ensures
        r@ == players@,
{
    let mut r: Vec<usize> = Vec::new();
    let mut i: usize = 0;
    while i < players.len()
        invariant
            i <= players@.len(),
            r@ == players@.take(i as int),
        decreases players@.len() - i,
    {
        r.push(players[i]);
        i += 1;
        assert(r@ =~= players@.take(i as int));
    }
    assert(players@.take(players@.len() as int) =~= players@);
    r
}

/// Fills the periods one after the other.
pub fn fill_periods<F: Fn(&Vec<Vec<Real64>>) -> AssignmentResult>(
    problem: &SoccerProblem,
    ratings: &Vec<Vec<Real64>>,
    keep_fair: bool,
    solve: F,
) -> (schedule: Schedule)
    requires
        problem.has_affinities(),
        problem.num_players <= i64::MAX,
        rates_all(*problem, ratings@),
        is_solver(solve),
    ensures
        is_filled_schedule(
            *problem,
            solve,
            ratings@,
            keep_fair,
            schedule,
            problem.num_periods as int,
        ),
{
    let mut schedule: Schedule = Schedule { assignment: Vec::new(), bench: Vec::new() };
    let mut must: Vec<usize> = Vec::new();
    assert(must@ =~= Seq::<usize>::empty());
    let mut t: usize = 0;
    while t < problem.num_periods
        invariant
            t <= problem.num_periods,
            problem.has_affinities(),
            problem.num_players <= i64::MAX,
            rates_all(*problem, ratings@),
            is_solver(solve),
            must@ == if keep_fair && t > 0 {
                schedule.bench@[t - 1]@
            } else {
                Seq::empty()
            },
            is_filled_schedule(*problem, solve, ratings@, keep_fair, schedule, t as int),
        decreases problem.num_periods - t,
    {
        let ghost before = schedule;
        let order: Vec<usize> = rank_players(&ratings[t]);
        let chosen: Vec<usize> = choose_players(&order, &must, problem.num_positions);
        proof {
            let players = problem.num_players as int;
            picks_are_players(order@, must@, true, order@.len() as int, players);
            picks_are_players(order@, must@, false, order@.len() as int, players);
            let p = picked(order@, must@, true, order@.len() as int);
            let q = picked(order@, must@, false, order@.len() as int);
            assert forall|i: int| 0 <= i < chosen@.len() implies #[trigger] chosen@[i] < players by {
                assert(chosen@[i] == preference(order@, must@)[i]);
                if i < p.len() {
                    assert(p[i] < players);
                } else {
                    assert(q[i - p.len()] < players);
                }
            }
        }
        let (_, line_up): (Real64, Vec<i64>) = hungarian_assign_period(problem, t, &chosen, &solve);
        let bench: Vec<usize> = unchosen_of(&chosen, problem.num_players);
        assert(is_filled(*problem, solve, ratings@[t as int]@, must@, t as int, line_up@, bench@));
        if keep_fair {
            must = copy_players(&bench);
        }
        schedule.assignment.push(line_up);
        schedule.bench.push(bench);
        proof {
            assert forall|u: int| 0 <= u < t + 1 implies is_filled(
                *problem,
                solve,
                ratings@[u]@,
                if keep_fair && u > 0 {
                    schedule.bench@[u - 1]@
                } else {
                    Seq::empty()
                },
                u,
                #[trigger] schedule.assignment@[u]@,
                schedule.bench@[u]@,
            ) by {
                if u < t {
                    assert(schedule.assignment@[u] == before.assignment@[u]);
                    assert(schedule.bench@[u] == before.bench@[u]);
                    if u > 0 {
                        assert(schedule.bench@[u - 1] == before.bench@[u - 1]);
                    }
                } else if u > 0 {
                    assert(schedule.bench@[u - 1] == before.bench@[u - 1]);
                }
            }
        }
        t += 1;
    }
    schedule
}

/// The greatest affinity of a player over the first `n` positions.
pub open spec fn top_affinity(problem: SoccerProblem, p: int, t: int, n: int) -> Real64
    decreases n,
{
    if n <= 0 {
        Real64 { bits: (SIGN_BIT + INFINITY_BITS) as u64 }
    } else {
        let best = top_affinity(problem, p, t, n - 1);
        let here = problem.affinity@[p]@[n - 1]@[t];
        if best.less(here) {
            here
        } else {
            best
        }
    }
}

/// Every player is rated by their greatest affinity in the period.
pub open spec fn rated_by_affinity(problem: SoccerProblem, ratings: Seq<Vec<Real64>>) -> bool {
    &&& rates_all(problem, ratings)
    &&& forall|t: int, p: int|
        0 <= t < problem.num_periods && 0 <= p < problem.num_players
            ==> #[trigger] ratings[t]@[p] == top_affinity(
            problem,
            p,
            t,
            problem.num_positions as int,
        )
}

/// Rates every player by their greatest affinity.
pub fn rate_by_affinity(problem: &SoccerProblem) -> (ratings: Vec<Vec<Real64>>)
    requires
        problem.has_affinities(),
    ensures
        rated_by_affinity(*problem, ratings@),
{
    let mut ratings: Vec<Vec<Real64>> = Vec::new();
    let mut t: usize = 0;
    while t < problem.num_periods
        invariant
            t <= problem.num_periods,
            problem.has_affinities(),
            ratings@.len() == t,
            forall|u: int| 0 <= u < t ==> (#[trigger] ratings@[u])@.len() == problem.num_players,
            forall|u: int, p: int|
                0 <= u < t && 0 <= p < problem.num_players ==> #[trigger] ratings@[u]@[p]
                    == top_affinity(*problem, p, u, problem.num_positions as int),
        decreases problem.num_periods - t,
    {
        let mut row: Vec<Real64> = Vec::new();
        let mut p: usize = 0;
        while p < problem.num_players
            invariant
                p <= problem.num_players,
                t < problem.num_periods,
                problem.has_affinities(),
                row@.len() == p,
                forall|q: int|
                    0 <= q < p ==> #[trigger] row@[q] == top_affinity(
                        *problem,
                        q,
                        t as int,
                        problem.num_positions as int,
                    ),
            decreases problem.num_players - p,
        {
            let mut best: Real64 = Real64 { bits: SIGN_BIT + INFINITY_BITS };
            let mut pos: usize = 0;
            while pos < problem.num_positions
                invariant
                    pos <= problem.num_positions,
                    p < problem.num_players,
                    t < problem.num_periods,
                    problem.has_affinities(),
                    best == top_affinity(*problem, p as int, t as int, pos as int),
                decreases problem.num_positions - pos,
            {
                let here: Real64 = problem.affinity[p][pos][t];
                if best.is_below(here) {
                    best = here;
                }
                pos += 1;
            }
            row.push(best);
            p += 1;
        }
        ratings.push(row);
        t += 1;
    }
    ratings
}

/// Options of the greedy policy.
#[derive(Clone, Copy, Debug)]
pub struct GreedyHungarianOptions {
    pub fairness_aware: Option<bool>,
}

impl Default for GreedyHungarianOptions {
    fn default() -> (r: Self)
        ensures
            r.fairness_aware is None,
    {
        GreedyHungarianOptions { fairness_aware: None }
    }
}

/// The greedy policy looks after fairness: unless told otherwise, where the problem demands it.
pub open spec fn is_fairness_aware(problem: SoccerProblem, opts: GreedyHungarianOptions) -> bool {
    opts.fairness_aware != Some(false) && problem.enforce_no_consecutive_bench
}

/// Fills every period with the players of the greatest affinity.
pub fn policy_greedy_hungarian<F: Fn(&Vec<Vec<Real64>>) -> AssignmentResult>(
    problem: &SoccerProblem,
    opts: &GreedyHungarianOptions,
    solve: F,
) -> (schedule: Schedule)
    requires
        problem.has_affinities(),
        problem.num_players <= i64::MAX,
        is_solver(solve),
    ensures
        exists|ratings: Seq<Vec<Real64>>| #[trigger]
            rated_by_affinity(*problem, ratings) && is_filled_schedule(
                *problem,
                solve,
                ratings,
                is_fairness_aware(*problem, *opts),
                schedule,
                problem.num_periods as int,
            ),
{
    let aware: bool = match opts.fairness_aware {
        Some(b) => b,
        None => true,
    } && problem.enforce_no_consecutive_bench;
    let ratings: Vec<Vec<Real64>> = rate_by_affinity(problem);
    let schedule: Schedule = fill_periods(problem, &ratings, aware, solve);
    assert(rated_by_affinity(*problem, ratings@));
    schedule
}

/// The greedy policy with its options.
#[derive(Clone, Copy, Debug)]
pub struct PolicyGreedyHungarian {
    pub opts: GreedyHungarianOptions,
}

impl PolicyGreedyHungarian {
    pub fn new(opts: GreedyHungarianOptions) -> (r: Self)
        ensures
            r.opts == opts,
    {
        PolicyGreedyHungarian { opts }
    }
}

/// Rounds a relaxation: fills every period with the players whose shares of it, given in
/// `shares`, are the greatest, after those who sat on the bench before.
pub fn round_relaxation<F: Fn(&Vec<Vec<Real64>>) -> AssignmentResult>(
    problem: &SoccerProblem,
    shares: &Vec<Vec<Real64>>,
    solve: F,
) -> (schedule: Schedule)
    requires
        problem.has_affinities(),
        problem.num_players <= i64::MAX,
        rates_all(*problem, shares@),
        is_solver(solve),
    ensures
        is_filled_schedule(
            *problem,
            solve,
            shares@,
            true,
            schedule,
            problem.num_periods as int,
        ),
{
    fill_periods(problem, shares, true, solve)
}

proof fn picks_are_listed(order: Seq<usize>, list: Seq<usize>, n: int, p: usize)
    requires
        0 <= n <= order.len(),
        list.contains(p),
        exists|i: int| 0 <= i < n && order[i] == p,
    ensures
        picked(order, list, true, n).contains(p),
    decreases n,
{
    let rest = picked(order, list, true, n - 1);
    if order[n - 1] == p {
        assert(picked(order, list, true, n)[rest.len() as int] == p);
    } else {
        let i = choose|i: int| 0 <= i < n && order[i] == p;
        assert(i < n - 1);
        picks_are_listed(order, list, n - 1, p);
        let j = choose|j: int| 0 <= j < rest.len() && rest[j] == p;
        assert(picked(order, list, true, n)[j] == p);
    }
}

proof fn picks_come_from_order(order: Seq<usize>, list: Seq<usize>, on_it: bool, n: int, i: int)
    requires
        0 <= n <= order.len(),
        0 <= i < picked(order, list, on_it, n).len(),
    ensures
        exists|j: int| 0 <= j < n && order[j] == #[trigger] picked(order, list, on_it, n)[i],
        list.contains(picked(order, list, on_it, n)[i]) == on_it,
    decreases n,
{
    let rest = picked(order, list, on_it, n - 1);
    if i < rest.len() {
        picks_come_from_order(order, list, on_it, n - 1, i);
        let j = choose|j: int| 0 <= j < n - 1 && order[j] == rest[i];
        assert(order[j] == picked(order, list, on_it, n)[i]);
    } else {
        assert(order[n - 1] == picked(order, list, on_it, n)[i]);
    }
}

proof fn picks_are_distinct(order: Seq<usize>, list: Seq<usize>, on_it: bool, n: int)
    requires
        0 <= n <= order.len(),
        order.no_duplicates(),
    ensures
        picked(order, list, on_it, n).no_duplicates(),
    decreases n,
{
    if n > 0 {
        picks_are_distinct(order, list, on_it, n - 1);
        let rest = picked(order, list, on_it, n - 1);
        let all = picked(order, list, on_it, n);
        assert forall|i: int, j: int| 0 <= i < all.len() && 0 <= j < all.len() && i != j implies all[i]
            != all[j] by {
            if i < rest.len() {
                picks_come_from_order(order, list, on_it, n - 1, i);
            }
            if j < rest.len() {
                picks_come_from_order(order, list, on_it, n - 1, j);
            }
        }
    }
}

proof fn unchosen_are_not_chosen(chosen: Seq<usize>, n: int, p: usize)
    requires
        unchosen(chosen, n).contains(p),
    ensures
        !chosen.contains(p),
        0 <= p < n,
    decreases n,
{
    if n > 0 {
        let rest = unchosen(chosen, n - 1);
        let i = choose|i: int| 0 <= i < unchosen(chosen, n).len() && unchosen(chosen, n)[i] == p;
        if i < rest.len() {
            assert(rest[i] == p);
            unchosen_are_not_chosen(chosen, n - 1, p);
        }
    }
}

/// Whoever must play does not sit on the bench, as long as there are positions for all who must.
pub proof fn those_who_must_play_do<F: Fn(&Vec<Vec<Real64>>) -> AssignmentResult>(
    problem: SoccerProblem,
    solve: F,
    ratings: Seq<Real64>,
    must: Seq<usize>,
    t: int,
    line_up: Seq<i64>,
    bench: Seq<usize>,
    p: usize,
)
    requires
        is_filled(problem, solve, ratings, must, t, line_up, bench),
        ratings.len() == problem.num_players,
        must.len() <= problem.num_positions,
        must.contains(p),
        p < problem.num_players,
    ensures
        !bench.contains(p),
{
    let (order, m, r) = choose|order: Seq<usize>, m: Vec<Vec<Real64>>, r: AssignmentResult|
        {
            let chosen = first_of(preference(order, must), problem.num_positions as int);
            &&& #[trigger] is_ranking(rating_keys(ratings), order)
            &&& #[trigger] call_ensures(solve, (&m,), r)
            &&& is_weights(problem, t, chosen, m@)
            &&& is_seating(chosen, r.rows@, line_up, problem.num_positions as int)
            &&& bench == unchosen(chosen, problem.num_players as int)
        };
    let keys = rating_keys(ratings);
    let n = order.len() as int;
    let first = picked(order, must, true, n);
    let chosen = first_of(preference(order, must), problem.num_positions as int);
    assert forall|i: int, j: int| 0 <= i < n && 0 <= j < n && i != j implies order[i] != order[j] by {
        if i < j {
            assert(crate::order::precedes(keys, order[i] as int, order[j] as int));
        } else {
            assert(crate::order::precedes(keys, order[j] as int, order[i] as int));
        }
    }
    assert(keys[p as int] is Some);
    assert(order.contains((p as int) as usize));
    picks_are_listed(order, must, n, p);
    picks_are_distinct(order, must, true, n);
    assert(first.len() <= must.len()) by {
        assert forall|i: int| 0 <= i < first.len() implies must.contains(#[trigger] first[i]) by {
            picks_come_from_order(order, must, true, n, i);
        }
        distinct_members_are_no_more(first, must);
    }
    let i = choose|i: int| 0 <= i < first.len() && first[i] == p;
    assert(chosen[i] == p);
    if bench.contains(p) {
        unchosen_are_not_chosen(chosen, problem.num_players as int, p);
    }
}

pub(crate) proof fn distinct_members_are_no_more(a: Seq<usize>, b: Seq<usize>)
    requires
        a.no_duplicates(),
        forall|i: int| 0 <= i < a.len() ==> b.contains(#[trigger] a[i]),
    ensures
        a.len() <= b.len(),
{
    a.unique_seq_to_set();
    b.lemma_cardinality_of_set();
    assert(a.to_set().subset_of(b.to_set())) by {
        assert forall|x: usize| a.to_set().contains(x) implies b.to_set().contains(x) by {
            let i = choose|i: int| 0 <= i < a.len() && a[i] == x;
            assert(b.contains(a[i]));
        }
    }
    vstd::set_lib::lemma_len_subset(a.to_set(), b.to_set());
}

/// A filled schedule that looks after fairness benches nobody twice in a row, as long as the
/// bench is no larger than the field.
pub proof fn filled_schedules_are_fair<F: Fn(&Vec<Vec<Real64>>) -> AssignmentResult>(
    problem: SoccerProblem,
    solve: F,
    ratings: Seq<Vec<Real64>>,
    schedule: Schedule,
    t: int,
    p: usize,
)
    requires
        is_filled_schedule(
            problem,
            solve,
            ratings,
            true,
            schedule,
            problem.num_periods as int,
        ),
        rates_all(problem, ratings),
        0 <= t,
        t + 1 < problem.num_periods,
        schedule.bench@[t]@.len() <= problem.num_positions,
        schedule.bench@[t]@.contains(p),
    ensures
        !schedule.bench@[t + 1]@.contains(p),
{
    let here = schedule.assignment@[t]@;
    let next = schedule.assignment@[t + 1]@;
    assert(p < problem.num_players) by {
        let must = if t > 0 {
            schedule.bench@[t - 1]@
        } else {
            Seq::empty()
        };
        assert(is_filled(problem, solve, ratings[t]@, must, t, here, schedule.bench@[t]@));
        let (order, m, r) = choose|order: Seq<usize>, m: Vec<Vec<Real64>>, r: AssignmentResult|
            {
                let chosen = first_of(preference(order, must), problem.num_positions as int);
                &&& #[trigger] is_ranking(rating_keys(ratings[t]@), order)
                &&& #[trigger] call_ensures(solve, (&m,), r)
                &&& is_weights(problem, t, chosen, m@)
                &&& is_seating(chosen, r.rows@, here, problem.num_positions as int)
                &&& schedule.bench@[t]@ == unchosen(chosen, problem.num_players as int)
            };
        let chosen = first_of(preference(order, must), problem.num_positions as int);
        unchosen_are_not_chosen(chosen, problem.num_players as int, p);
    }
    assert(is_filled(
        problem,
        solve,
        ratings[t + 1]@,
        schedule.bench@[t]@,
        t + 1,
        next,
        schedule.bench@[t + 1]@,
    ));
    those_who_must_play_do(
        problem,
        solve,
        ratings[t + 1]@,
        schedule.bench@[t]@,
        t + 1,
        next,
        schedule.bench@[t + 1]@,
        p,
    );
}

/// Two entries changed places.
pub open spec fn swapped(s: Seq<usize>, i: int, j: int) -> Seq<usize> {
    s.update(i, s[j]).update(j, s[i])
}

/// The players in order after the first `steps` draws: draw `s` swaps the last player not yet
/// settled with the one drawn.
pub open spec fn shuffled(n: int, draws: Seq<usize>, steps: int) -> Seq<usize>
    decreases steps,
{
    if steps <= 0 {
        Seq::new(n as nat, |p: int| p as usize)
    } else {
        swapped(shuffled(n, draws, steps - 1), n - steps, draws[steps - 1] as int)
    }
}

/// Every draw names a player not yet settled.
pub open spec fn draws_fit(n: int, draws: Seq<usize>) -> bool {
    &&& draws.len() == n - 1
    &&& forall|s: int| 0 <= s < draws.len() ==> #[trigger] draws[s] < n - s
}

/// The period lists the shuffled players: the first ones play, the others sit on the bench.
pub open spec fn is_shuffled_period(
    problem: SoccerProblem,
    draws: Seq<usize>,
    line_up: Seq<i64>,
    bench: Seq<usize>,
) -> bool {
    let order = shuffled(problem.num_players as int, draws, draws.len() as int);
    &&& line_up.len() == problem.num_positions
    &&& forall|i: int| 0 <= i < line_up.len() ==> #[trigger] line_up[i] == order[i]
    &&& bench == left_out(line_up, problem.num_players as int)
}

/// Builds a random schedule from the draws of every period.
pub fn policy_random_schedule(problem: &SoccerProblem, draws: &Vec<Vec<usize>>) -> (schedule:
    Schedule)
    requires
        0 < problem.num_players <= i64::MAX,
        problem.num_positions <= problem.num_players,
        draws@.len() == problem.num_periods,
        forall|t: int|
            0 <= t < draws@.len() ==> draws_fit(
                problem.num_players as int,
                (#[trigger] draws@[t])@,
            ),
    ensures
        schedule.assignment@.len() == problem.num_periods,
        schedule.bench@.len() == problem.num_periods,
        forall|t: int|
            0 <= t < problem.num_periods ==> is_shuffled_period(
                *problem,
                draws@[t]@,
                #[trigger] schedule.assignment@[t]@,
                schedule.bench@[t]@,
            ),
{
    let n: usize = problem.num_players;
    let mut assignment: Vec<Vec<i64>> = Vec::new();
    let mut bench: Vec<Vec<usize>> = Vec::new();
    let mut t: usize = 0;
    while t < problem.num_periods
        invariant
            t <= problem.num_periods,
            n == problem.num_players,
            0 < problem.num_players <= i64::MAX,
            problem.num_positions <= problem.num_players,
            draws@.len() == problem.num_periods,
            forall|t: int|
                0 <= t < draws@.len() ==> draws_fit(
                    problem.num_players as int,
                    (#[trigger] draws@[t])@,
                ),
            assignment@.len() == t,
            bench@.len() == t,
            forall|u: int|
                0 <= u < t ==> is_shuffled_period(
                    *problem,
                    draws@[u]@,
                    #[trigger] assignment@[u]@,
                    bench@[u]@,
                ),
        decreases problem.num_periods - t,
    {
        let drawn: &Vec<usize> = &draws[t];
        assert(draws_fit(n as int, draws@[t as int]@));
        let mut order: Vec<usize> = Vec::new();
        let mut p: usize = 0;
        while p < n
            invariant
                p <= n,
                order@.len() == p,
                forall|q: int| 0 <= q < p ==> #[trigger] order@[q] == q,
            decreases n - p,
        {
            order.push(p);
            p += 1;
        }
        assert(order@ =~= shuffled(n as int, drawn@, 0));
        let mut s: usize = 0;
        while s < drawn.len()
            invariant
                s <= drawn@.len(),
                draws_fit(n as int, drawn@),
                order@.len() == n,
                n <= i64::MAX,
                forall|q: int| 0 <= q < n ==> #[trigger] order@[q] < n,
                order@ == shuffled(n as int, drawn@, s as int),
            decreases drawn@.len() - s,
        {
            let i: usize = n - 1 - s;
            assert(drawn@[s as int] < n - s);
            let j: usize = drawn[s];
            let x: usize = order[i];
            let y: usize = order[j];
            assert(order@[i as int] < n && order@[j as int] < n);
            order.set(i, y);
            order.set(j, x);
            s += 1;
        }
        let mut row: Vec<i64> = Vec::new();
        let mut k: usize = 0;
        while k < problem.num_positions
            invariant
                k <= problem.num_positions,
                problem.num_positions <= n,
                n <= i64::MAX,
                order@.len() == n,
                forall|q: int| 0 <= q < n ==> #[trigger] order@[q] < n,
                row@.len() == k,
                forall|q: int| 0 <= q < k ==> #[trigger] row@[q] == order@[q],
            decreases problem.num_positions - k,
        {
            assert(order@[k as int] < n);
            row.push(order[k] as i64);
            k += 1;
        }
        bench.push(bench_of(&row, n));
        assignment.push(row);
        t += 1;
    }
    Schedule { assignment, bench }
}

proof fn shuffles_are_permutations(n: int, draws: Seq<usize>, steps: int)
    requires
        0 <= n <= usize::MAX,
        draws_fit(n, draws),
        0 <= steps <= draws.len(),
    ensures
        shuffled(n, draws, steps).len() == n,
        shuffled(n, draws, steps).no_duplicates(),
        forall|i: int| 0 <= i < n ==> #[trigger] shuffled(n, draws, steps)[i] < n,
    decreases steps,
{
    if steps > 0 {
        shuffles_are_permutations(n, draws, steps - 1);
        assert(draws[steps - 1] < n - (steps - 1));
        let s = shuffled(n, draws, steps - 1);
        let i = n - steps;
        let j = draws[steps - 1] as int;
        let r = swapped(s, i, j);
        assert forall|a: int, b: int| 0 <= a < n && 0 <= b < n && a != b implies r[a] != r[b] by {
            let x = if a == i { j } else if a == j { i } else { a };
            let y = if b == i { j } else if b == j { i } else { b };
            assert(r[a] == s[x] && r[b] == s[y]);
        }
    }
}

/// A random period fields every player at most once, all of them players that there are, and
/// benches all the others.
pub proof fn shuffled_periods_are_proper(
    problem: SoccerProblem,
    draws: Seq<usize>,
    line_up: Seq<i64>,
    bench: Seq<usize>,
)
    requires
        0 < problem.num_players <= i64::MAX,
        problem.num_positions <= problem.num_players,
        draws_fit(problem.num_players as int, draws),
        is_shuffled_period(problem, draws, line_up, bench),
    ensures
        line_up.no_duplicates(),
        forall|i: int| 0 <= i < line_up.len() ==> 0 <= #[trigger] line_up[i] < problem.num_players,
        forall|p: int|
            0 <= p < problem.num_players ==> (bench.contains(p as usize) <==> !#[trigger] fields(
                line_up,
                p,
            )),
{
    let n = problem.num_players as int;
    shuffles_are_permutations(n, draws, draws.len() as int);
    let order = shuffled(n, draws, draws.len() as int);
    assert forall|i: int, j: int|
        0 <= i < line_up.len() && 0 <= j < line_up.len() && i != j implies line_up[i]
        != line_up[j] by {
        assert(order[i] != order[j]);
    }
    assert forall|p: int| 0 <= p < n implies (bench.contains(p as usize) <==> !#[trigger] fields(
        line_up,
        p,
    )) by {
        left_out_lists_the_others(line_up, n, p);
    }
}

/// Exactly those whom a line-up does not field are left out.
pub proof fn left_out_lists_the_others(row: Seq<i64>, n: int, p: int)
    requires
        0 <= n <= usize::MAX,
        0 <= p <= usize::MAX,
    ensures
        left_out(row, n).contains(p as usize) <==> p < n && !fields(row, p),
    decreases n,
{
    if n > 0 {
        left_out_lists_the_others(row, n - 1, p);
        let rest = left_out(row, n - 1);
        let all = left_out(row, n);
        if rest.contains(p as usize) {
            let i = choose|i: int| 0 <= i < rest.len() && rest[i] == p as usize;
            assert(all[i] == p as usize);
        }
        if p == n - 1 && !fields(row, p) {
            assert(all[rest.len() as int] == p as usize);
        }
        if all.contains(p as usize) && !rest.contains(p as usize) {
            let i = choose|i: int| 0 <= i < all.len() && all[i] == p as usize;
            if i < rest.len() {
                assert(rest[i] == p as usize);
            }
        }
    }
}

/// The random policy with its seed.
#[derive(Clone, Copy, Debug)]
pub struct PolicyRandomSchedule {
    pub seed: u32,
}

impl PolicyRandomSchedule {
    pub fn new(seed: u32) -> (r: Self)
        ensures
            r.seed == seed,
    {
        PolicyRandomSchedule { seed }
    }
}

/// The top affinity of a player in a period is no less than that at any position, and is one of
/// them where any is above nothing at all.
pub proof fn the_top_affinity_is_the_greatest(
    problem: SoccerProblem,
    p: int,
    t: int,
    n: int,
    pos: int,
)
    requires
        0 <= pos < n,
        forall|i: int| 0 <= i < n ==> (#[trigger] problem.affinity@[p]@[i]@[t]).finite(),
    ensures
        !top_affinity(problem, p, t, n).nan(),
        problem.affinity@[p]@[pos]@[t].key() <= top_affinity(problem, p, t, n).key(),
        exists|i: int|
            0 <= i < n && #[trigger] problem.affinity@[p]@[i]@[t] == top_affinity(problem, p, t, n),
    decreases n,
{
    let last = problem.affinity@[p]@[n - 1]@[t];
    assert(last.finite());
    if n > 1 {
        the_top_affinity_is_the_greatest(
            problem,
            p,
            t,
            n - 1,
            if pos < n - 1 {
                pos
            } else {
                0
            },
        );
        let i = choose|i: int|
            0 <= i < n - 1 && #[trigger] problem.affinity@[p]@[i]@[t] == top_affinity(
                problem,
                p,
                t,
                n - 1,
            );
        assert(0 <= i < n);
    } else {
        assert(top_affinity(problem, p, t, 0).key() < last.key());
    }
}

} // verus!
