//! A constructive policy that keeps every rule of the problem or gives up.
use crate::decimals::{D0, D0_05, D0_25, DM1000000000, DM500000000};
use crate::meaning::{decimals_are_read, is_faithful, reads_counts};
use crate::number::{
    apply, at_bits, is_conversion, is_operation, num, number_of, outcome, to_number, Real64,
    INFINITY_BITS, SIGN_BIT,
};
use crate::order::{is_ranking, ranking};
use crate::rotation::decode::{bench_of, is_lawful, lawful, left_out, lists_countable};
use crate::rotation::policy::{first_of, is_rectangular, is_seating, seated, AssignmentResult};
use crate::rotation::problem::{
    can_play, fieldable, fixed_at, max_bench, max_stint, min_stint, player_can_play_position,
    player_fixed_position, player_is_fieldable, player_max_contiguous_bench,
    player_max_contiguous_on_field, player_min_contiguous_on_field, Schedule, SoccerProblem,
};
use crate::rotation::structure::fields;
use vstd::prelude::*;

verus! {

/// The player can play one of the first `n` positions.
pub open spec fn has_position(problem: SoccerProblem, p: int, n: int) -> bool
    decreases n,
{
    n > 0 && (can_play(problem, p, n - 1) || has_position(problem, p, n - 1))
}

/// The greatest affinity of a player in a period over those of the first `n` positions that
/// they can play; minus infinity where there is none.
pub open spec fn top_eligible(problem: SoccerProblem, p: int, t: int, n: int) -> Real64
    decreases n,
{
    if n <= 0 {
        Real64 { bits: (SIGN_BIT + INFINITY_BITS) as u64 }
    } else {
        let best = top_eligible(problem, p, t, n - 1);
        let here = problem.affinity@[p]@[n - 1]@[t];
        if can_play(problem, p, n - 1) && best.less(here) {
            here
        } else {
            best
        }
    }
}

/// The player can play some position.
pub open spec fn eligible(problem: SoccerProblem, p: int) -> bool {
    has_position(problem, p, problem.num_positions as int)
}

/// The greatest affinity of a player in a period over the positions that they can play.
pub open spec fn best_of(problem: SoccerProblem, p: int, t: int) -> Real64 {
    top_eligible(problem, p, t, problem.num_positions as int)
}

/// The greatest affinity of a player in a period over the positions that they can play, nothing
/// where there is none.
pub fn best_eligible_position_score(problem: &SoccerProblem, p: usize, t: usize) -> (r: Option<
    Real64,
>)
    requires
        problem.has_affinities(),
        p < problem.num_players,
        t < problem.num_periods,
    ensures
        r is Some <==> eligible(*problem, p as int),
        r is Some ==> r->0 == best_of(*problem, p as int, t as int),
        r is None ==> best_of(*problem, p as int, t as int) == (Real64 {
            bits: (SIGN_BIT + INFINITY_BITS) as u64,
        }),
{
    let mut best: Real64 = Real64 { bits: SIGN_BIT + INFINITY_BITS };
    let mut found: bool = false;
    let mut pos: usize = 0;
    while pos < problem.num_positions
        invariant
            pos <= problem.num_positions,
            problem.has_affinities(),
            p < problem.num_players,
            t < problem.num_periods,
            found == has_position(*problem, p as int, pos as int),
            best == top_eligible(*problem, p as int, t as int, pos as int),
            !found ==> best == (Real64 { bits: (SIGN_BIT + INFINITY_BITS) as u64 }),
        decreases problem.num_positions - pos,
    {
        if player_can_play_position(problem, p, pos) {
            let here: Real64 = problem.affinity[p][pos][t];
            if best.is_below(here) {
                best = here;
            }
            found = true;
        }
        pos += 1;
    }
    if found {
        Some(best)
    } else {
        None
    }
}

/// For how many periods up to `t` the player has been on the field without a break.
pub open spec fn on_run(rows: Seq<Vec<i64>>, p: int, t: int) -> int
    decreases t,
{
    if t <= 0 || !fields(rows[t - 1]@, p) {
        0
    } else {
        on_run(rows, p, t - 1) + 1
    }
}

/// For how many periods up to `t` the player could have played and did not, without a break.
pub open spec fn bench_run(problem: SoccerProblem, rows: Seq<Vec<i64>>, p: int, t: int) -> int
    decreases t,
{
    if t <= 0 || fields(rows[t - 1]@, p) || !fieldable(problem, p) {
        0
    } else {
        bench_run(problem, rows, p, t - 1) + 1
    }
}

/// The player was on the field in the period before `t`.
pub open spec fn was_on(rows: Seq<Vec<i64>>, p: int, t: int) -> bool {
    t > 0 && fields(rows[t - 1]@, p)
}

/// The player was on the bench in the period before `t`.
pub open spec fn was_benched(rows: Seq<Vec<i64>>, p: int, t: int) -> bool {
    t > 0 && !fields(rows[t - 1]@, p)
}

/// The player is in the middle of a stint that is still too short.
pub open spec fn must_continue(
    problem: SoccerProblem,
    rows: Seq<Vec<i64>>,
    p: int,
    t: int,
) -> bool {
    &&& was_on(rows, p, t)
    &&& fixed_at(problem, p) is None
    &&& fieldable(problem, p)
    &&& min_stint(problem, p) is Some
    &&& 0 < on_run(rows, p, t) < min_stint(problem, p)->0
}

/// The player has been on the bench for as long as allowed.
pub open spec fn must_return(problem: SoccerProblem, rows: Seq<Vec<i64>>, p: int, t: int) -> bool {
    &&& was_benched(rows, p, t)
    &&& fixed_at(problem, p) is None
    &&& fieldable(problem, p)
    &&& problem.enforce_no_consecutive_bench || (max_bench(problem, p) is Some && bench_run(
        problem,
        rows,
        p,
        t,
    ) >= max_bench(problem, p)->0)
}

/// The player is free to be picked.
pub open spec fn may_play(problem: SoccerProblem, rows: Seq<Vec<i64>>, p: int, t: int) -> bool {
    &&& fixed_at(problem, p) is None
    &&& !must_continue(problem, rows, p, t)
    &&& !must_return(problem, rows, p, t)
    &&& eligible(problem, p)
    &&& !(max_stint(problem, p) is Some && on_run(rows, p, t) >= max_stint(problem, p)->0)
}

/// The usual rating: the best score, a little more for playing on, and less for every period
/// played in a row.
pub open spec fn usual_rating<
    P: Fn(Real64, Real64) -> Real64,
    M: Fn(Real64, Real64) -> Real64,
    C: Fn(usize) -> Real64,
>(plus: P, times: M, count: C, best: Real64, goes_on: bool, run: usize) -> Real64 {
    outcome(
        plus,
        outcome(
            plus,
            best,
            num(
                if goes_on {
                    D0_05
                } else {
                    D0
                },
            ),
        ),
        outcome(times, num(D0_25), number_of(count, run)).negated(),
    )
}

/// The usual rating of a candidate from their best score, whether they go on playing, and for how
/// long they have played.
pub open spec fn usual<
    P: Fn(Real64, Real64) -> Real64,
    M: Fn(Real64, Real64) -> Real64,
    C: Fn(usize) -> Real64,
>(plus: P, times: M, count: C) -> spec_fn(Real64, bool, usize) -> Real64 {
    |best: Real64, goes_on: bool, run: usize| usual_rating(plus, times, count, best, goes_on, run)
}

/// Rates a player as usual.
pub fn rate_player<
    P: Fn(Real64, Real64) -> Real64,
    M: Fn(Real64, Real64) -> Real64,
    C: Fn(usize) -> Real64,
>(best: Real64, goes_on: bool, run: usize, plus: &P, times: &M, count: &C) -> (r: Real64)
    requires
        is_operation(*plus),
        is_operation(*times),
        is_conversion(*count),
    ensures
        r == usual_rating(*plus, *times, *count, best, goes_on, run),
{
    let continuity: u64 = if goes_on { D0_05 } else { D0 };
    let fatigue: Real64 = apply(times, at_bits(D0_25), to_number(count, run));
    apply(plus, apply(plus, best, at_bits(continuity)), fatigue.negate())
}

/// The keys of those who must continue: the best first.
pub open spec fn continue_keys(problem: SoccerProblem, rows: Seq<Vec<i64>>, t: int) -> Seq<
    Option<i128>,
> {
    Seq::new(
        problem.num_players as nat,
        |p: int|
            if must_continue(problem, rows, p, t) {
                Some((-best_of(problem, p, t).key()) as i128)
            } else {
                None
            },
    )
}

/// The keys of those who must return: the best first.
pub open spec fn return_keys(problem: SoccerProblem, rows: Seq<Vec<i64>>, t: int) -> Seq<
    Option<i128>,
> {
    Seq::new(
        problem.num_players as nat,
        |p: int|
            if must_return(problem, rows, p, t) {
                Some((-best_of(problem, p, t).key()) as i128)
            } else {
                None
            },
    )
}

/// The keys of the candidates: the best rated first.
pub open spec fn candidate_keys(
    problem: SoccerProblem,
    rate: spec_fn(Real64, bool, usize) -> Real64,
    rows: Seq<Vec<i64>>,
    t: int,
) -> Seq<Option<i128>> {
    Seq::new(
        problem.num_players as nat,
        |p: int|
            if may_play(problem, rows, p, t) {
                Some(
                    (-rate(
                        best_of(problem, p, t),
                        was_on(rows, p, t),
                        on_run(rows, p, t) as usize,
                    ).key()) as i128,
                )
            } else {
                None
            },
    )
}

/// The players below `n` with a fixed position.
pub open spec fn fixed_players(problem: SoccerProblem, n: int) -> Seq<usize>
    decreases n,
{
    if n <= 0 {
        Seq::empty()
    } else if fixed_at(problem, n - 1) is Some {
        fixed_players(problem, n - 1).push((n - 1) as usize)
    } else {
        fixed_players(problem, n - 1)
    }
}

/// Every fixed player can play their position, and it is one that there is.
pub open spec fn fixed_ok(problem: SoccerProblem) -> bool {
    forall|p: int|
        0 <= p < problem.num_players && #[trigger] fixed_at(problem, p) is Some ==> {
            let pos = fixed_at(problem, p)->0;
            pos < problem.num_positions && can_play(problem, p, pos as int)
        }
}

/// All listed players can play some position.
pub open spec fn all_eligible(problem: SoccerProblem, players: Seq<usize>) -> bool {
    forall|i: int| 0 <= i < players.len() ==> eligible(problem, #[trigger] players[i] as int)
}

/// The three orders in which the players of a period are taken.
pub open spec fn turn_orders(
    problem: SoccerProblem,
    rate: spec_fn(Real64, bool, usize) -> Real64,
    rows: Seq<Vec<i64>>,
    t: int,
    going_on: Seq<usize>,
    returning: Seq<usize>,
    candidates: Seq<usize>,
) -> bool {
    &&& is_ranking(continue_keys(problem, rows, t), going_on)
    &&& is_ranking(return_keys(problem, rows, t), returning)
    &&& is_ranking(candidate_keys(problem, rate, rows, t), candidates)
}

/// A full side can be picked: those who have to play can and fit, and there are enough others.
pub open spec fn turn_ok(
    problem: SoccerProblem,
    going_on: Seq<usize>,
    returning: Seq<usize>,
    candidates: Seq<usize>,
) -> bool {
    let bound = fixed_players(problem, problem.num_players as int).len() + going_on.len()
        + returning.len();
    &&& fixed_ok(problem)
    &&& all_eligible(problem, going_on)
    &&& all_eligible(problem, returning)
    &&& bound <= problem.num_positions
    &&& bound + candidates.len() >= problem.num_positions
}

/// The side that is picked: the fixed players, those who have to play, and the best rated
/// candidates.
pub open spec fn turn_side(
    problem: SoccerProblem,
    going_on: Seq<usize>,
    returning: Seq<usize>,
    candidates: Seq<usize>,
) -> Seq<usize> {
    let bound = fixed_players(problem, problem.num_players as int) + going_on + returning;
    bound + first_of(candidates, problem.num_positions - bound.len())
}

/// The side of a period is picked, or there is none.
pub open spec fn is_pick(
    problem: SoccerProblem,
    rate: spec_fn(Real64, bool, usize) -> Real64,
    rows: Seq<Vec<i64>>,
    t: int,
    side: Option<Seq<usize>>,
) -> bool {
    exists|going_on: Seq<usize>, returning: Seq<usize>, candidates: Seq<usize>| #[trigger]
        turn_orders(problem, rate, rows, t, going_on, returning, candidates) && side == if turn_ok(
            problem,
            going_on,
            returning,
            candidates,
        ) {
            Some(turn_side(problem, going_on, returning, candidates))
        } else {
            None
        }
}

fn append_players(to: &mut Vec<usize>, from: &Vec<usize>)
    ensures
        final(to)@ == old(to)@ + from@,
{
    let ghost start = to@;
    let mut i: usize = 0;
    while i < from.len()
        invariant
            i <= from@.len(),
            to@ == start + from@.take(i as int),
        decreases from@.len() - i,
    {
        to.push(from[i]);
        i += 1;
        assert(to@ =~= start + from@.take(i as int));
    }
    assert(from@.take(from@.len() as int) =~= from@);
}

fn are_eligible(problem: &SoccerProblem, players: &Vec<usize>, t: usize) -> (b: bool)
    requires
        problem.has_affinities(),
        t < problem.num_periods,
        forall|i: int| 0 <= i < players@.len() ==> #[trigger] players@[i] < problem.num_players,
    ensures
        b == all_eligible(*problem, players@),
{
    let mut i: usize = 0;
    while i < players.len()
        invariant
            i <= players@.len(),
            problem.has_affinities(),
            t < problem.num_periods,
            forall|i: int| 0 <= i < players@.len() ==> #[trigger] players@[i] < problem.num_players,
            forall|j: int| 0 <= j < i ==> eligible(*problem, #[trigger] players@[j] as int),
        decreases players@.len() - i,
    {
        assert(players@[i as int] < problem.num_players);
        if best_eligible_position_score(problem, players[i], t).is_none() {
            assert(!eligible(*problem, players@[i as int] as int));
            return false;
        }
        i += 1;
    }
    true
}

/// What the periods so far tell of each player.
pub open spec fn tells(
    problem: SoccerProblem,
    rows: Seq<Vec<i64>>,
    t: int,
    on: Seq<bool>,
    stints: Seq<usize>,
    waits: Seq<usize>,
) -> bool {
    &&& on.len() == problem.num_players
    &&& stints.len() == problem.num_players
    &&& waits.len() == problem.num_players
    &&& forall|p: int| 0 <= p < problem.num_players ==> #[trigger] on[p] == was_on(rows, p, t)
    &&& forall|p: int| 0 <= p < problem.num_players ==> #[trigger] stints[p] == on_run(rows, p, t)
    &&& forall|p: int|
        0 <= p < problem.num_players ==> #[trigger] waits[p] == bench_run(problem, rows, p, t)
}

/// Picks the side of a period.
fn pick_side<
    P: Fn(Real64, Real64) -> Real64,
    M: Fn(Real64, Real64) -> Real64,
    C: Fn(usize) -> Real64,
>(
    problem: &SoccerProblem,
    Ghost(rows): Ghost<Seq<Vec<i64>>>,
    t: usize,
    on: &Vec<bool>,
    stints: &Vec<usize>,
    waits: &Vec<usize>,
    plus: &P,
    times: &M,
    count: &C,
) -> (r: Option<Vec<usize>>)
    requires
        problem.has_affinities(),
        t < problem.num_periods,
        is_operation(*plus),
        is_operation(*times),
        is_conversion(*count),
        tells(*problem, rows, t as int, on@, stints@, waits@),
    ensures
        is_pick(
            *problem,
            usual(*plus, *times, *count),
            rows,
            t as int,
            match r {
                Some(side) => Some(side@),
                None => None,
            },
        ),
        r is Some ==> forall|i: int|
            0 <= i < r->0@.len() ==> #[trigger] r->0@[i] < problem.num_players,
{
    let ghost rate = usual(*plus, *times, *count);
    let n: usize = problem.num_players;
    let lowest: Real64 = Real64 { bits: SIGN_BIT + INFINITY_BITS };
    let mut side: Vec<usize> = Vec::new();
    let mut placed: bool = true;
    let mut going_keys: Vec<Option<i128>> = Vec::new();
    let mut back_keys: Vec<Option<i128>> = Vec::new();
    let mut free_keys: Vec<Option<i128>> = Vec::new();
    let mut p: usize = 0;
    while p < n
        invariant
            p <= n,
            n == problem.num_players,
            problem.has_affinities(),
            t < problem.num_periods,
            is_operation(*plus),
            is_operation(*times),
            is_conversion(*count),
            rate == usual(*plus, *times, *count),
            tells(*problem, rows, t as int, on@, stints@, waits@),
            lowest == (Real64 { bits: (SIGN_BIT + INFINITY_BITS) as u64 }),
            side@ == fixed_players(*problem, p as int),
            side@.len() <= p,
            forall|i: int| 0 <= i < side@.len() ==> #[trigger] side@[i] < p,
            placed == forall|q: int|
                0 <= q < p && #[trigger] fixed_at(*problem, q) is Some ==> {
                    let pos = fixed_at(*problem, q)->0;
                    pos < problem.num_positions && can_play(*problem, q, pos as int)
                },
            going_keys@.len() == p,
            back_keys@.len() == p,
            free_keys@.len() == p,
            forall|q: int|
                0 <= q < p ==> #[trigger] going_keys@[q] == continue_keys(
                    *problem,
                    rows,
                    t as int,
                )[q],
            forall|q: int|
                0 <= q < p ==> #[trigger] back_keys@[q] == return_keys(*problem, rows, t as int)[q],
            forall|q: int|
                0 <= q < p ==> #[trigger] free_keys@[q] == candidate_keys(
                    *problem,
                    rate,
                    rows,
                    t as int,
                )[q],
        decreases n - p,
    {
        let ghost gone = side@;
        let score: Option<Real64> = best_eligible_position_score(problem, p, t);
        let best: Real64 = match score {
            Some(b) => b,
            None => lowest,
        };
        assert(on@[p as int] == was_on(rows, p as int, t as int));
        assert(stints@[p as int] == on_run(rows, p as int, t as int));
        assert(waits@[p as int] == bench_run(*problem, rows, p as int, t as int));
        let fixed: Option<usize> = player_fixed_position(problem, p);
        if let Some(pos) = fixed {
            if pos >= problem.num_positions || !player_can_play_position(problem, p, pos) {
                placed = false;
                assert(fixed_at(*problem, p as int) is Some);
            }
            side.push(p);
        }
        let short: bool = match player_min_contiguous_on_field(problem, p) {
            Some(limit) => stints[p] > 0 && stints[p] < limit,
            None => false,
        };
        let waited: bool = match player_max_contiguous_bench(problem, p) {
            Some(limit) => waits[p] >= limit,
            None => false,
        };
        let tired: bool = match player_max_contiguous_on_field(problem, p) {
            Some(limit) => stints[p] >= limit,
            None => false,
        };
        let open: bool = fixed.is_none() && player_is_fieldable(problem, p);
        let continues: bool = on[p] && open && short;
        let returns: bool = t > 0 && !on[p] && open && (problem.enforce_no_consecutive_bench
            || waited);
        if continues {
            going_keys.push(Some(-(best.order_key() as i128)));
        } else {
            going_keys.push(None);
        }
        if returns {
            back_keys.push(Some(-(best.order_key() as i128)));
        } else {
            back_keys.push(None);
        }
        if fixed.is_none() && !continues && !returns && score.is_some() && !tired {
            let rated: Real64 = rate_player(best, on[p], stints[p], plus, times, count);
            free_keys.push(Some(-(rated.order_key() as i128)));
        } else {
            free_keys.push(None);
        }
        proof {
            assert(continues == must_continue(*problem, rows, p as int, t as int));
            assert(returns == must_return(*problem, rows, p as int, t as int));
        }
        p += 1;
    }
    assert(going_keys@ =~= continue_keys(*problem, rows, t as int));
    assert(back_keys@ =~= return_keys(*problem, rows, t as int));
    assert(free_keys@ =~= candidate_keys(*problem, rate, rows, t as int));
    let going_on: Vec<usize> = ranking(&going_keys);
    let returning: Vec<usize> = ranking(&back_keys);
    let mut candidates: Vec<usize> = ranking(&free_keys);
    let ghost all = candidates@;
    assert(turn_orders(*problem, rate, rows, t as int, going_on@, returning@, all));
    let k: usize = problem.num_positions;
    if !placed || side.len() > k || going_on.len() > k - side.len() || returning.len() > k
        - side.len() - going_on.len() {
        return None;
    }
    if !are_eligible(problem, &going_on, t) || !are_eligible(problem, &returning, t) {
        return None;
    }
    let ghost fixed = side@;
    append_players(&mut side, &going_on);
    append_players(&mut side, &returning);
    let room: usize = k - side.len();
    if candidates.len() < room {
        return None;
    }
    if candidates.len() > room {
        candidates.truncate(room);
    }
    append_players(&mut side, &candidates);
    proof {
        assert(side@ =~= turn_side(*problem, going_on@, returning@, all));
        assert forall|i: int| 0 <= i < side@.len() implies #[trigger] side@[i] < n by {
            let a = fixed.len() as int;
            let b = going_on@.len() as int;
            let c = returning@.len() as int;
            if i < a {
                assert(side@[i] == fixed[i]);
            } else if i < a + b {
                assert(side@[i] == going_on@[i - a]);
            } else if i < a + b + c {
                assert(side@[i] == returning@[i - a - b]);
            } else {
                assert(side@[i] == all[i - a - b - c]);
            }
        }
    }
    Some(side)
}

/// The affinity of a player at a position that they can play; far below any other where they
/// cannot.
pub open spec fn masked(problem: SoccerProblem, p: int, pos: int, t: int) -> Real64 {
    if can_play(problem, p, pos) {
        problem.affinity@[p]@[pos]@[t]
    } else {
        Real64 { bits: DM1000000000 }
    }
}

/// A weight so low that it stands for a position that cannot be played.
pub open spec fn is_blocked(weight: Real64) -> bool {
    !weight.nan() && weight.key() <= (Real64 { bits: DM500000000 }).key()
}

/// The matrix holds the masked affinities of a side.
pub open spec fn is_masked_weights(
    problem: SoccerProblem,
    t: int,
    side: Seq<usize>,
    m: Seq<Vec<Real64>>,
) -> bool {
    &&& m.len() == side.len()
    &&& is_rectangular(m, problem.num_positions as int)
    &&& forall|i: int, pos: int|
        0 <= i < m.len() && 0 <= pos < problem.num_positions ==> #[trigger] m[i]@[pos] == masked(
            problem,
            side[i] as int,
            pos,
            t,
        )
}

/// Some position is not blocked for player `i` of the side.
pub open spec fn has_open_position(m: Seq<Vec<Real64>>, i: int, k: int) -> bool {
    exists|pos: int| 0 <= pos < k && !is_blocked(#[trigger] m[i]@[pos])
}

/// The position is not blocked for one of the first `n` players of the side.
pub open spec fn has_open_player(m: Seq<Vec<Real64>>, pos: int, n: int) -> bool {
    exists|i: int| 0 <= i < n && !is_blocked(#[trigger] m[i]@[pos])
}

/// Every player has a position that is not blocked, and every position a player.
pub open spec fn is_matchable(m: Seq<Vec<Real64>>, k: int) -> bool {
    &&& forall|i: int| 0 <= i < m.len() ==> #[trigger] has_open_position(m, i, k)
    &&& forall|pos: int| 0 <= pos < k ==> #[trigger] has_open_player(m, pos, m.len() as int)
}

/// The match is one that can be played: everyone has a position of their own that is not
/// blocked.
pub open spec fn is_playable(m: Seq<Vec<Real64>>, rows: Seq<i64>, k: int) -> bool {
    &&& rows.len() >= m.len()
    &&& forall|i: int|
        0 <= i < m.len() ==> 0 <= #[trigger] rows[i] < k && !is_blocked(m[i]@[rows[i] as int])
    &&& forall|i: int, j: int| 0 <= i < j < m.len() ==> #[trigger] rows[i] != #[trigger] rows[j]
}

/// The side is seated as the solver matched it.
pub open spec fn is_seated<F: Fn(&Vec<Vec<Real64>>) -> AssignmentResult>(
    problem: SoccerProblem,
    solve: F,
    t: int,
    side: Seq<usize>,
    line_up: Seq<i64>,
) -> bool {
    exists|m: Vec<Vec<Real64>>, r: AssignmentResult|
        {
            &&& #[trigger] call_ensures(solve, (&m,), r)
            &&& is_masked_weights(problem, t, side, m@)
            &&& is_matchable(m@, problem.num_positions as int)
            &&& is_playable(m@, r.rows@, problem.num_positions as int)
            &&& is_seating(side, r.rows@, line_up, problem.num_positions as int)
            &&& forall|pos: int| 0 <= pos < line_up.len() ==> #[trigger] line_up[pos] >= 0
        }
}

/// The side could not be seated: it is no full side, somebody or some position is left over, or
/// the match cannot be played.
pub open spec fn is_unseated<F: Fn(&Vec<Vec<Real64>>) -> AssignmentResult>(
    problem: SoccerProblem,
    solve: F,
    t: int,
    side: Seq<usize>,
) -> bool {
    ||| side.len() != problem.num_positions
    ||| exists|m: Vec<Vec<Real64>>| #[trigger]
        is_masked_weights(problem, t, side, m@) && !is_matchable(
            m@,
            problem.num_positions as int,
        )
    ||| exists|m: Vec<Vec<Real64>>, r: AssignmentResult|
        {
            &&& #[trigger] call_ensures(solve, (&m,), r)
            &&& is_masked_weights(problem, t, side, m@)
            &&& !is_playable(m@, r.rows@, problem.num_positions as int) || exists|pos: int|
                0 <= pos < problem.num_positions && #[trigger] seated(
                    side,
                    r.rows@,
                    pos,
                    side.len() as int,
                ) < 0
        }
}

fn blocked(weight: Real64) -> (b: bool)
    ensures
        b == is_blocked(weight),
{
    !weight.is_nan() && weight.order_key() <= (Real64 { bits: DM500000000 }).order_key()
}

fn masked_weights(problem: &SoccerProblem, t: usize, side: &Vec<usize>) -> (m: Vec<Vec<Real64>>)
    requires
        problem.has_affinities(),
        t < problem.num_periods,
        forall|i: int| 0 <= i < side@.len() ==> #[trigger] side@[i] < problem.num_players,
    ensures
        is_masked_weights(*problem, t as int, side@, m@),
{
    let mut m: Vec<Vec<Real64>> = Vec::new();
    let mut i: usize = 0;
    while i < side.len()
        invariant
            i <= side@.len(),
            problem.has_affinities(),
            t < problem.num_periods,
            forall|i: int| 0 <= i < side@.len() ==> #[trigger] side@[i] < problem.num_players,
            m@.len() == i,
            forall|j: int| 0 <= j < i ==> (#[trigger] m@[j])@.len() == problem.num_positions,
            forall|j: int, pos: int|
                0 <= j < i && 0 <= pos < problem.num_positions ==> #[trigger] m@[j]@[pos]
                    == masked(*problem, side@[j] as int, pos, t as int),
        decreases side@.len() - i,
    {
        assert(side@[i as int] < problem.num_players);
        let p: usize = side[i];
        let mut row: Vec<Real64> = Vec::new();
        let mut pos: usize = 0;
        while pos < problem.num_positions
            invariant
                pos <= problem.num_positions,
                problem.has_affinities(),
                t < problem.num_periods,
                p < problem.num_players,
                row@.len() == pos,
                forall|q: int|
                    0 <= q < pos ==> #[trigger] row@[q] == masked(*problem, p as int, q, t as int),
            decreases problem.num_positions - pos,
        {
            if player_can_play_position(problem, p, pos) {
                row.push(problem.affinity[p][pos][t]);
            } else {
                row.push(Real64 { bits: DM1000000000 });
            }
            pos += 1;
        }
        m.push(row);
        i += 1;
    }
    m
}

fn matchable(m: &Vec<Vec<Real64>>, k: usize) -> (b: bool)
    requires
        is_rectangular(m@, k as int),
    ensures
        b == is_matchable(m@, k as int),
{
    let mut i: usize = 0;
    while i < m.len()
        invariant
            i <= m@.len(),
            is_rectangular(m@, k as int),
            forall|j: int| 0 <= j < i ==> #[trigger] has_open_position(m@, j, k as int),
        decreases m@.len() - i,
    {
        let mut open: bool = false;
        let mut pos: usize = 0;
        while pos < k
            invariant
                pos <= k,
                i < m@.len(),
                is_rectangular(m@, k as int),
                open == has_open_position(m@, i as int, pos as int),
            decreases k - pos,
        {
            assert(m@[i as int]@.len() == k);
            let ghost was = open;
            if !blocked(m[i][pos]) {
                open = true;
                assert(!is_blocked(m@[i as int]@[pos as int]));
            }
            proof {
                if was {
                    let q = choose|q: int| 0 <= q < pos && !is_blocked(#[trigger] m@[i as int]@[q]);
                    assert(!is_blocked(m@[i as int]@[q]));
                }
            }
            pos += 1;
        }
        if !open {
            return false;
        }
        i += 1;
    }
    let mut pos: usize = 0;
    while pos < k
        invariant
            pos <= k,
            is_rectangular(m@, k as int),
            forall|j: int| 0 <= j < m@.len() ==> #[trigger] has_open_position(m@, j, k as int),
            forall|q: int|
                0 <= q < pos ==> #[trigger] has_open_player(m@, q, m@.len() as int),
        decreases k - pos,
    {
        let mut open: bool = false;
        let mut j: usize = 0;
        while j < m.len()
            invariant
                j <= m@.len(),
                pos < k,
                is_rectangular(m@, k as int),
                open == has_open_player(m@, pos as int, j as int),
            decreases m@.len() - j,
        {
            assert(m@[j as int]@.len() == k);
            let ghost was = open;
            if !blocked(m[j][pos]) {
                open = true;
                assert(!is_blocked(m@[j as int]@[pos as int]));
            }
            proof {
                if was {
                    let l = choose|l: int|
                        0 <= l < j && !is_blocked(#[trigger] m@[l]@[pos as int]);
                    assert(!is_blocked(m@[l]@[pos as int]));
                }
            }
            j += 1;
        }
        if !open {
            return false;
        }
        pos += 1;
    }
    true
}

/// Seats a side: the solver matches it to the positions that its players can play.
pub fn hungarian_assign_period_constrained<F: Fn(&Vec<Vec<Real64>>) -> AssignmentResult>(
    problem: &SoccerProblem,
    t: usize,
    side: &Vec<usize>,
    solve: &F,
) -> (r: Option<Vec<i64>>)
    requires
        problem.has_affinities(),
        problem.num_players <= i64::MAX,
        t < problem.num_periods,
        forall|i: int| 0 <= i < side@.len() ==> #[trigger] side@[i] < problem.num_players,
        forall|m: &Vec<Vec<Real64>>| #[trigger] call_requires(*solve, (m,)),
    ensures
        r is Some ==> side@.len() == problem.num_positions && is_seated(
            *problem,
            *solve,
            t as int,
            side@,
            r->0@,
        ),
        r is None ==> is_unseated(*problem, *solve, t as int, side@),
{
    let k: usize = problem.num_positions;
    if side.len() != k {
        return None;
    }
    let m: Vec<Vec<Real64>> = masked_weights(problem, t, side);
    if !matchable(&m, k) {
        assert(is_masked_weights(*problem, t as int, side@, m@));
        return None;
    }
    let res: AssignmentResult = solve(&m);
    assert(call_ensures(*solve, (&m,), res));
    let mut line_up: Vec<i64> = Vec::new();
    let mut pos: usize = 0;
    while pos < k
        invariant
            pos <= k,
            line_up@.len() == pos,
            forall|q: int| 0 <= q < pos ==> #[trigger] line_up@[q] == -1,
        decreases k - pos,
    {
        line_up.push(-1);
        pos += 1;
    }
    if res.rows.len() < side.len() {
        return None;
    }
    let mut i: usize = 0;
    while i < side.len()
        invariant
            i <= side@.len(),
            k == problem.num_positions,
            side@.len() <= res.rows@.len(),
            problem.num_players <= i64::MAX,
            forall|i: int| 0 <= i < side@.len() ==> #[trigger] side@[i] < problem.num_players,
            is_masked_weights(*problem, t as int, side@, m@),
            call_ensures(*solve, (&m,), res),
            line_up@.len() == k,
            forall|q: int|
                0 <= q < k ==> #[trigger] line_up@[q] == seated(side@, res.rows@, q, i as int),
            forall|j: int|
                0 <= j < i ==> 0 <= #[trigger] res.rows@[j] < k && !is_blocked(
                    m@[j]@[res.rows@[j] as int],
                ),
            forall|j: int, l: int|
                0 <= j < l < i ==> #[trigger] res.rows@[j] != #[trigger] res.rows@[l],
            forall|j: int|
                0 <= j < i ==> line_up@[#[trigger] res.rows@[j] as int] >= 0,
        decreases side@.len() - i,
    {
        let place: i64 = res.rows[i];
        if place < 0 || place as u64 >= k as u64 {
            assert(!is_playable(m@, res.rows@, k as int)) by {
                assert(!(0 <= res.rows@[i as int] < k));
            }
            return None;
        }
        let spot: usize = place as usize;
        assert(m@[i as int]@.len() == k);
        if blocked(m[i][spot]) {
            assert(!is_playable(m@, res.rows@, k as int)) by {
                assert(is_blocked(m@[i as int]@[res.rows@[i as int] as int]));
            }
            return None;
        }
        if line_up[spot] >= 0 {
            proof {
                seats_come_from_rows(side@, res.rows@, spot as int, i as int);
                let j = choose|j: int| 0 <= j < i && #[trigger] res.rows@[j] == spot;
                assert(res.rows@[j] == res.rows@[i as int]);
                assert(!is_playable(m@, res.rows@, k as int));
            }
            return None;
        }
        proof {
            assert forall|j: int| 0 <= j < i implies #[trigger] res.rows@[j] != place by {
                assert(line_up@[res.rows@[j] as int] >= 0);
            }
        }
        assert(side@[i as int] < problem.num_players);
        line_up.set(spot, side[i] as i64);
        i += 1;
    }
    let mut pos: usize = 0;
    while pos < k
        invariant
            pos <= k,
            k == problem.num_positions,
            line_up@.len() == k,
            is_masked_weights(*problem, t as int, side@, m@),
            call_ensures(*solve, (&m,), res),
            forall|q: int|
                0 <= q < k ==> #[trigger] line_up@[q] == seated(
                    side@,
                    res.rows@,
                    q,
                    side@.len() as int,
                ),
            forall|q: int| 0 <= q < pos ==> #[trigger] line_up@[q] >= 0,
        decreases k - pos,
    {
        if line_up[pos] < 0 {
            assert(seated(side@, res.rows@, pos as int, side@.len() as int) < 0);
            return None;
        }
        pos += 1;
    }
    assert(is_playable(m@, res.rows@, k as int));
    Some(line_up)
}

proof fn seats_come_from_rows(chosen: Seq<usize>, rows: Seq<i64>, pos: int, n: int)
    requires
        0 <= n,
        seated(chosen, rows, pos, n) >= 0,
    ensures
        exists|j: int| 0 <= j < n && #[trigger] rows[j] == pos,
    decreases n,
{
    if n > 0 && rows[n - 1] != pos {
        seats_come_from_rows(chosen, rows, pos, n - 1);
        let j = choose|j: int| 0 <= j < n - 1 && #[trigger] rows[j] == pos;
        assert(rows[j] == pos);
    } else {
        assert(rows[n - 1] == pos);
    }
}

/// Period `u` is built by picking a side and seating it.
pub open spec fn is_built_period<F: Fn(&Vec<Vec<Real64>>) -> AssignmentResult>(
    problem: SoccerProblem,
    solve: F,
    rate: spec_fn(Real64, bool, usize) -> Real64,
    rows: Seq<Vec<i64>>,
    u: int,
) -> bool {
    exists|side: Seq<usize>| #[trigger]
        is_pick(problem, rate, rows, u, Some(side)) && is_seated(
            problem,
            solve,
            u,
            side,
            rows[u]@,
        )
}

/// The first `t` periods of a schedule are built by picking and seating a side each.
pub open spec fn is_built<F: Fn(&Vec<Vec<Real64>>) -> AssignmentResult>(
    problem: SoccerProblem,
    solve: F,
    rate: spec_fn(Real64, bool, usize) -> Real64,
    schedule: Schedule,
    t: int,
) -> bool {
    &&& schedule.assignment@.len() == t
    &&& schedule.bench@.len() == t
    &&& forall|u: int|
        0 <= u < t ==> #[trigger] is_built_period(problem, solve, rate, schedule.assignment@, u)
    &&& forall|u: int|
        0 <= u < t ==> (#[trigger] schedule.bench@[u])@ == left_out(
            schedule.assignment@[u]@,
            problem.num_players as int,
        )
}

/// No side can be picked for period `t`, or none that was picked could be seated.
pub open spec fn is_stuck<F: Fn(&Vec<Vec<Real64>>) -> AssignmentResult>(
    problem: SoccerProblem,
    solve: F,
    rate: spec_fn(Real64, bool, usize) -> Real64,
    schedule: Schedule,
    t: int,
) -> bool {
    ||| is_pick(problem, rate, schedule.assignment@, t, None)
    ||| exists|side: Seq<usize>| #[trigger]
        is_pick(problem, rate, schedule.assignment@, t, Some(side)) && is_unseated(
            problem,
            solve,
            t,
            side,
        )
}

/// How many of the first `n` players can be fielded.
pub open spec fn fieldable_players(problem: SoccerProblem, n: int) -> int
    decreases n,
{
    if n <= 0 {
        0
    } else {
        fieldable_players(problem, n - 1) + if fieldable(problem, n - 1) {
            1int
        } else {
            0
        }
    }
}

proof fn runs_depend_on_the_past(
    problem: SoccerProblem,
    a: Seq<Vec<i64>>,
    b: Seq<Vec<i64>>,
    p: int,
    t: int,
)
    requires
        0 <= t <= a.len(),
        t <= b.len(),
        forall|u: int| 0 <= u < t ==> #[trigger] a[u] == b[u],
    ensures
        on_run(a, p, t) == on_run(b, p, t),
        bench_run(problem, a, p, t) == bench_run(problem, b, p, t),
        was_on(a, p, t) == was_on(b, p, t),
        was_benched(a, p, t) == was_benched(b, p, t),
    decreases t,
{
    if t > 0 {
        runs_depend_on_the_past(problem, a, b, p, t - 1);
        assert(a[t - 1] == b[t - 1]);
    }
}

/// A pick depends on nothing but the periods before it.
proof fn picks_depend_on_the_past(
    problem: SoccerProblem,
    rate: spec_fn(Real64, bool, usize) -> Real64,
    a: Seq<Vec<i64>>,
    b: Seq<Vec<i64>>,
    t: int,
    side: Option<Seq<usize>>,
)
    requires
        0 <= t <= a.len(),
        t <= b.len(),
        forall|u: int| 0 <= u < t ==> #[trigger] a[u] == b[u],
        is_pick(problem, rate, a, t, side),
    ensures
        is_pick(problem, rate, b, t, side),
{
    assert forall|p: int| 0 <= p < problem.num_players implies {
        &&& #[trigger] on_run(a, p, t) == on_run(b, p, t)
        &&& bench_run(problem, a, p, t) == bench_run(problem, b, p, t)
        &&& was_on(a, p, t) == was_on(b, p, t)
        &&& was_benched(a, p, t) == was_benched(b, p, t)
    } by {
        runs_depend_on_the_past(problem, a, b, p, t);
    }
    assert forall|p: int| 0 <= p < problem.num_players implies {
        &&& #[trigger] continue_keys(problem, a, t)[p] == continue_keys(problem, b, t)[p]
        &&& return_keys(problem, a, t)[p] == return_keys(problem, b, t)[p]
        &&& candidate_keys(problem, rate, a, t)[p] == candidate_keys(problem, rate, b, t)[p]
    } by {
        assert(on_run(a, p, t) == on_run(b, p, t));
    }
    assert(continue_keys(problem, a, t) =~= continue_keys(problem, b, t));
    assert forall|p: int| 0 <= p < problem.num_players implies #[trigger] return_keys(
        problem,
        a,
        t,
    )[p] == return_keys(problem, b, t)[p] by {
        assert(continue_keys(problem, a, t)[p] == continue_keys(problem, b, t)[p]);
    }
    assert(return_keys(problem, a, t) =~= return_keys(problem, b, t));
    assert forall|p: int| 0 <= p < problem.num_players implies #[trigger] candidate_keys(
        problem,
        rate,
        a,
        t,
    )[p] == candidate_keys(problem, rate, b, t)[p] by {
        assert(continue_keys(problem, a, t)[p] == continue_keys(problem, b, t)[p]);
    }
    assert(candidate_keys(problem, rate, a, t) =~= candidate_keys(problem, rate, b, t));
    let (going_on, returning, candidates) = choose|
        going_on: Seq<usize>,
        returning: Seq<usize>,
        candidates: Seq<usize>,
    | #[trigger]
        turn_orders(problem, rate, a, t, going_on, returning, candidates) && side == if turn_ok(
            problem,
            going_on,
            returning,
            candidates,
        ) {
            Some(turn_side(problem, going_on, returning, candidates))
        } else {
            None
        };
    assert(turn_orders(problem, rate, b, t, going_on, returning, candidates));
}

/// A built schedule grows by a period whose side is picked and seated.
proof fn build_grows<F: Fn(&Vec<Vec<Real64>>) -> AssignmentResult>(
    problem: SoccerProblem,
    solve: F,
    rate: spec_fn(Real64, bool, usize) -> Real64,
    before: Schedule,
    after: Schedule,
    t: int,
    side: Seq<usize>,
)
    requires
        0 <= t,
        is_built(problem, solve, rate, before, t),
        after.assignment@.len() == t + 1,
        after.bench@.len() == t + 1,
        forall|u: int| 0 <= u < t ==> #[trigger] after.assignment@[u] == before.assignment@[u],
        forall|u: int| 0 <= u < t ==> #[trigger] after.bench@[u] == before.bench@[u],
        is_pick(problem, rate, before.assignment@, t, Some(side)),
        is_seated(problem, solve, t, side, after.assignment@[t]@),
        after.bench@[t]@ == left_out(after.assignment@[t]@, problem.num_players as int),
    ensures
        is_built(problem, solve, rate, after, t + 1),
{
    let rows = after.assignment@;
    assert forall|u: int| 0 <= u < t + 1 implies #[trigger] is_built_period(
        problem,
        solve,
        rate,
        rows,
        u,
    ) by {
        if u < t {
            assert(after.assignment@[u] == before.assignment@[u]);
            assert(is_built_period(problem, solve, rate, before.assignment@, u));
            let s = choose|s: Seq<usize>| #[trigger]
                is_pick(problem, rate, before.assignment@, u, Some(s)) && is_seated(
                    problem,
                    solve,
                    u,
                    s,
                    before.assignment@[u]@,
                );
            picks_depend_on_the_past(problem, rate, before.assignment@, rows, u, Some(s));
            assert(is_pick(problem, rate, rows, u, Some(s)));
        } else {
            picks_depend_on_the_past(problem, rate, before.assignment@, rows, u, Some(side));
            assert(is_pick(problem, rate, rows, u, Some(side)));
        }
    }
    assert forall|u: int| 0 <= u < t + 1 implies (#[trigger] after.bench@[u])@ == left_out(
        after.assignment@[u]@,
        problem.num_players as int,
    ) by {
        if u < t {
            assert(after.bench@[u] == before.bench@[u]);
            assert(after.assignment@[u] == before.assignment@[u]);
        }
    }
}

fn is_fielded(row: &Vec<i64>, p: usize) -> (b: bool)
    ensures
        b == fields(row@, p as int),
{
    let mut i: usize = 0;
    while i < row.len()
        invariant
            i <= row@.len(),
            forall|j: int| 0 <= j < i ==> #[trigger] row@[j] != p,
        decreases row@.len() - i,
    {
        if row[i] >= 0 && row[i] as u64 == p as u64 {
            assert(row@[i as int] == p);
            return true;
        }
        i += 1;
    }
    false
}

proof fn runs_are_bounded(problem: SoccerProblem, rows: Seq<Vec<i64>>, p: int, t: int)
    requires
        0 <= t,
    ensures
        0 <= on_run(rows, p, t) <= t,
        0 <= bench_run(problem, rows, p, t) <= t,
    decreases t,
{
    if t > 0 {
        runs_are_bounded(problem, rows, p, t - 1);
    }
}

/// Builds a schedule that keeps every rule: each period fields the fixed players, those whose
/// stint is too short to end, those who may not stay on the bench, and then the best rated of
/// the others. Gives up where a side cannot be picked or seated, or where the schedule turns
/// out to break a rule that spans periods.
pub fn policy_greedy_feasible_schedule<
    F: Fn(&Vec<Vec<Real64>>) -> AssignmentResult,
    P: Fn(Real64, Real64) -> Real64,
    M: Fn(Real64, Real64) -> Real64,
    C: Fn(usize) -> Real64,
>(problem: &SoccerProblem, solve: F, plus: &P, times: &M, count: &C) -> (r: Option<Schedule>)
    requires
        problem.has_affinities(),
        problem.num_players <= i64::MAX,
        lists_countable(*problem),
        forall|m: &Vec<Vec<Real64>>| #[trigger] call_requires(solve, (m,)),
        is_operation(*plus),
        is_operation(*times),
        is_conversion(*count),
    ensures
        r is Some ==> {
            &&& lawful(*problem, r->0)
            &&& fieldable_players(*problem, problem.num_players as int) >= problem.num_positions
            &&& is_built(
                *problem,
                solve,
                usual(*plus, *times, *count),
                r->0,
                problem.num_periods as int,
            )
        },
        r is None ==> {
            ||| fieldable_players(*problem, problem.num_players as int) < problem.num_positions
            ||| exists|s: Schedule, t: int| #[trigger]
                is_built(
                    *problem,
                    solve,
                    usual(*plus, *times, *count),
                    s,
                    t,
                ) && 0 <= t <= problem.num_periods && if t
                    == problem.num_periods {
                    !lawful(*problem, s)
                } else {
                    is_stuck(*problem, solve, usual(*plus, *times, *count), s, t)
                }
        },
{
    let ghost rate = usual(*plus, *times, *count);
    let n: usize = problem.num_players;
    let mut fit: usize = 0;
    let mut on: Vec<bool> = Vec::new();
    let mut stints: Vec<usize> = Vec::new();
    let mut waits: Vec<usize> = Vec::new();
    let mut p: usize = 0;
    while p < n
        invariant
            p <= n,
            n == problem.num_players,
            fit <= p,
            fit == fieldable_players(*problem, p as int),
            on@.len() == p,
            stints@.len() == p,
            waits@.len() == p,
            forall|q: int| 0 <= q < p ==> !#[trigger] on@[q],
            forall|q: int| 0 <= q < p ==> #[trigger] stints@[q] == 0,
            forall|q: int| 0 <= q < p ==> #[trigger] waits@[q] == 0,
        decreases n - p,
    {
        if player_is_fieldable(problem, p) {
            fit += 1;
        }
        on.push(false);
        stints.push(0);
        waits.push(0);
        p += 1;
    }
    if fit < problem.num_positions {
        return None;
    }
    let mut schedule: Schedule = Schedule { assignment: Vec::new(), bench: Vec::new() };
    let mut t: usize = 0;
    while t < problem.num_periods
        invariant
            t <= problem.num_periods,
            n == problem.num_players,
            problem.has_affinities(),
            problem.num_players <= i64::MAX,
            forall|m: &Vec<Vec<Real64>>| #[trigger] call_requires(solve, (m,)),
            is_operation(*plus),
            is_operation(*times),
            is_conversion(*count),
            rate == usual(*plus, *times, *count),
            tells(*problem, schedule.assignment@, t as int, on@, stints@, waits@),
            is_built(*problem, solve, rate, schedule, t as int),
        decreases problem.num_periods - t,
    {
        let ghost before = schedule;
        let side: Vec<usize> = match pick_side(
            problem,
            Ghost(schedule.assignment@),
            t,
            &on,
            &stints,
            &waits,
            plus,
            times,
            count,
        ) {
            Some(side) => side,
            None => {
                assert(is_stuck(*problem, solve, rate, schedule, t as int));
                return None;
            },
        };
        let row: Vec<i64> = match hungarian_assign_period_constrained(problem, t, &side, &solve) {
            Some(row) => row,
            None => {
                assert(is_pick(
                    *problem,
                    rate,
                    schedule.assignment@,
                    t as int,
                    Some(side@),
                ) && is_unseated(*problem, solve, t as int, side@));
                assert(is_stuck(*problem, solve, rate, schedule, t as int));
                return None;
            },
        };
        let bench: Vec<usize> = bench_of(&row, n);
        let mut next_on: Vec<bool> = Vec::new();
        let mut p: usize = 0;
        while p < n
            invariant
                p <= n,
                n == problem.num_players,
                t < problem.num_periods,
                before.assignment@.len() == t,
                next_on@.len() == p,
                stints@.len() == n,
                waits@.len() == n,
                forall|q: int| 0 <= q < p ==> #[trigger] next_on@[q] == fields(row@, q),
                forall|q: int|
                    0 <= q < n ==> #[trigger] stints@[q] == if q < p {
                        if fields(row@, q) {
                            on_run(before.assignment@, q, t as int) + 1
                        } else {
                            0
                        }
                    } else {
                        on_run(before.assignment@, q, t as int)
                    },
                forall|q: int|
                    0 <= q < n ==> #[trigger] waits@[q] == if q < p {
                        if fields(row@, q) || !fieldable(*problem, q) {
                            0
                        } else {
                            bench_run(*problem, before.assignment@, q, t as int) + 1
                        }
                    } else {
                        bench_run(*problem, before.assignment@, q, t as int)
                    },
            decreases n - p,
        {
            proof {
                runs_are_bounded(*problem, before.assignment@, p as int, t as int);
            }
            let stint: usize = stints[p];
            let wait: usize = waits[p];
            if is_fielded(&row, p) {
                next_on.push(true);
                stints.set(p, stint + 1);
                waits.set(p, 0);
            } else {
                next_on.push(false);
                stints.set(p, 0);
                if player_is_fieldable(problem, p) {
                    waits.set(p, wait + 1);
                } else {
                    waits.set(p, 0);
                }
            }
            p += 1;
        }
        on = next_on;
        schedule.assignment.push(row);
        schedule.bench.push(bench);
        proof {
            let rows = schedule.assignment@;
            assert forall|q: int| 0 <= q < n implies {
                &&& on_run(before.assignment@, q, t as int) == #[trigger] on_run(rows, q, t as int)
                &&& bench_run(*problem, before.assignment@, q, t as int) == bench_run(
                    *problem,
                    rows,
                    q,
                    t as int,
                )
            } by {
                runs_depend_on_the_past(*problem, before.assignment@, rows, q, t as int);
            }
            assert(tells(*problem, rows, t + 1, on@, stints@, waits@)) by {
                assert forall|q: int| 0 <= q < n implies #[trigger] stints@[q] == on_run(
                    rows,
                    q,
                    t + 1,
                ) by {
                    assert(on_run(rows, q, t as int) == on_run(before.assignment@, q, t as int));
                }
                assert forall|q: int| 0 <= q < n implies #[trigger] waits@[q] == bench_run(
                    *problem,
                    rows,
                    q,
                    t + 1,
                ) by {
                    assert(on_run(rows, q, t as int) == on_run(before.assignment@, q, t as int));
                }
            }
            build_grows(*problem, solve, rate, before, schedule, t as int, side@);
        }
        t += 1;
    }
    if is_lawful(problem, &schedule) {
        Some(schedule)
    } else {
        assert(is_built(*problem, solve, rate, schedule, t as int));
        None
    }
}

/// How a candidate rates: the best affinity, 0.05 more for whoever goes on, and a quarter less for
/// every period played in a row.
pub proof fn candidates_rate_by_affinity_and_load<
    P: Fn(Real64, Real64) -> Real64,
    M: Fn(Real64, Real64) -> Real64,
    C: Fn(usize) -> Real64,
>(
    means: spec_fn(Real64, real) -> bool,
    plus: P,
    times: M,
    count: C,
    best: Real64,
    goes_on: bool,
    run: usize,
    b: real,
)
    requires
        is_faithful(means, plus, times),
        reads_counts(means, count),
        means(best, b),
    ensures
        means(
            usual_rating(plus, times, count, best, goes_on, run),
            b + (if goes_on {
                (1real / 20real)
            } else {
                0real
            }) - (1real / 4real) * (run as int as real),
        ),
{
    decimals_are_read(means);
    let played = run as int as real;
    let load = (1real / 4real) * played;
    let fresh = b + if goes_on {
        (1real / 20real)
    } else {
        0real
    };
    assert(fresh + -load == fresh - load);
}

/// The best affinity of a player among the first `n` positions is that of a position the player
/// can play, no such position has a better one, and where there is none it is minus infinity.
pub proof fn the_best_position_is_best(problem: SoccerProblem, p: int, t: int, n: int, pos: int)
    requires
        0 <= pos < n,
        can_play(problem, p, pos),
        forall|q: int|
            0 <= q < n ==> !(#[trigger] problem.affinity@[p]@[q]@[t]).nan(),
    ensures
        problem.affinity@[p]@[pos]@[t].key() <= top_eligible(problem, p, t, n).key(),
        !top_eligible(problem, p, t, n).nan(),
    decreases n,
{
    best_positions_are_numbers(problem, p, t, n - 1);
    assert(!problem.affinity@[p]@[n - 1]@[t].nan());
    assert(!problem.affinity@[p]@[pos]@[t].nan());
    if pos < n - 1 {
        the_best_position_is_best(problem, p, t, n - 1, pos);
    }
}

proof fn best_positions_are_numbers(problem: SoccerProblem, p: int, t: int, n: int)
    requires
        forall|q: int| 0 <= q < n ==> !(#[trigger] problem.affinity@[p]@[q]@[t]).nan(),
    ensures
        !top_eligible(problem, p, t, n).nan(),
        top_eligible(problem, p, t, n).key() > -(INFINITY_BITS as int) ==> exists|q: int|
            0 <= q < n && can_play(problem, p, q) && top_eligible(problem, p, t, n)
                == #[trigger] problem.affinity@[p]@[q]@[t],
    decreases n,
{
    if n > 0 {
        best_positions_are_numbers(problem, p, t, n - 1);
        assert(!problem.affinity@[p]@[n - 1]@[t].nan());
    }
}

} // verus!
