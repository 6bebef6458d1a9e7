//! What the rotation rules say of a schedule: runs on the field and on the bench, fairness and
//! substitutions.
use crate::number::{add_up, is_operation, sum_up, Real64};
use crate::rotation::problem::{
    cell_score, effective_cell_affinity, fieldable, max_bench, max_stint, min_stint,
    player_is_fieldable, player_max_contiguous_bench, player_max_contiguous_on_field,
    player_min_contiguous_on_field, rule_count, Schedule, SoccerProblem,
};
use vstd::prelude::*;

verus! {

/// A player on the bench in two periods in a row.
#[derive(Clone, Copy, Debug, PartialEq, Eq, Structural)]
pub struct FairnessViolation {
    pub player_id: usize,
    pub period_a: usize,
    pub period_b: usize,
}

/// A run on the field that is longer than allowed.
#[derive(Clone, Copy, Debug, PartialEq, Eq, Structural)]
pub struct ConsecutiveOnFieldViolation {
    pub player_id: usize,
    pub start_period: usize,
    pub length: usize,
}

/// A run on the field that is shorter than demanded.
#[derive(Clone, Copy, Debug, PartialEq, Eq, Structural)]
pub struct MinContiguousOnFieldViolation {
    pub player_id: usize,
    pub start_period: usize,
    pub length: usize,
    pub min_length: usize,
}

/// A run on the bench that is longer than allowed.
#[derive(Clone, Copy, Debug, PartialEq, Eq, Structural)]
pub struct MaxContiguousBenchViolation {
    pub player_id: usize,
    pub start_period: usize,
    pub length: usize,
    pub max_length: usize,
}

/// The player is on the field in the period.
pub open spec fn plays(schedule: Schedule, p: int, t: int) -> bool {
    exists|pos: int|
        0 <= pos < schedule.assignment@[t]@.len() && #[trigger] schedule.assignment@[t]@[pos] == p
}

/// The periods in which a player is on the field.
pub open spec fn field_row(problem: SoccerProblem, schedule: Schedule, p: int) -> Seq<bool> {
    Seq::new(problem.num_periods as nat, |t: int| plays(schedule, p, t))
}

/// The periods in which a player could play and does not.
pub open spec fn bench_row(problem: SoccerProblem, schedule: Schedule, p: int) -> Seq<bool> {
    Seq::new(
        problem.num_periods as nat,
        |t: int| fieldable(problem, p) && !plays(schedule, p, t),
    )
}

/// The flags are set from `s` up to `e`, and neither before nor after.
pub open spec fn is_run(flags: Seq<bool>, s: int, e: int) -> bool {
    &&& 0 <= s < e <= flags.len()
    &&& forall|t: int| s <= t < e ==> #[trigger] flags[t]
    &&& s > 0 ==> !flags[s - 1]
    &&& e < flags.len() ==> !flags[e]
}

/// The schedule says who plays in every period.
pub open spec fn covers_field(problem: SoccerProblem, schedule: Schedule) -> bool {
    schedule.assignment@.len() >= problem.num_periods
}

fn player_plays(schedule: &Schedule, p: usize, t: usize) -> (b: bool)
    requires
        t < schedule.assignment@.len(),
    ensures
        b == plays(*schedule, p as int, t as int),
{
    let row: &Vec<i64> = &schedule.assignment[t];
    let mut pos: usize = 0;
    while pos < row.len()
        invariant
            pos <= row@.len(),
            t < schedule.assignment@.len(),
            *row == schedule.assignment@[t as int],
            forall|q: int| 0 <= q < pos ==> #[trigger] row@[q] != p,
        decreases row@.len() - pos,
    {
        if row[pos] >= 0 && row[pos] as u64 == p as u64 {
            assert(schedule.assignment@[t as int]@[pos as int] == p);
            return true;
        }
        pos += 1;
    }
    false
}

fn field_flags(problem: &SoccerProblem, schedule: &Schedule, p: usize) -> (flags: Vec<bool>)
    requires
        covers_field(*problem, *schedule),
    ensures
        flags@ == field_row(*problem, *schedule, p as int),
{
    let mut flags: Vec<bool> = Vec::new();
    let mut t: usize = 0;
    while t < problem.num_periods
        invariant
            t <= problem.num_periods,
            covers_field(*problem, *schedule),
            flags@.len() == t,
            forall|u: int| 0 <= u < t ==> #[trigger] flags@[u] == plays(*schedule, p as int, u),
        decreases problem.num_periods - t,
    {
        flags.push(player_plays(schedule, p, t));
        t += 1;
    }
    assert(flags@ =~= field_row(*problem, *schedule, p as int));
    flags
}

fn bench_flags(problem: &SoccerProblem, schedule: &Schedule, p: usize) -> (flags: Vec<bool>)
    requires
        covers_field(*problem, *schedule),
    ensures
        flags@ == bench_row(*problem, *schedule, p as int),
{
    let free: bool = player_is_fieldable(problem, p);
    let mut flags: Vec<bool> = Vec::new();
    let mut t: usize = 0;
    while t < problem.num_periods
        invariant
            t <= problem.num_periods,
            covers_field(*problem, *schedule),
            free == fieldable(*problem, p as int),
            flags@.len() == t,
            forall|u: int|
                0 <= u < t ==> #[trigger] flags@[u] == (free && !plays(*schedule, p as int, u)),
        decreases problem.num_periods - t,
    {
        flags.push(free && !player_plays(schedule, p, t));
        t += 1;
    }
    assert(flags@ =~= bench_row(*problem, *schedule, p as int));
    flags
}

/// `runs` lists the runs of the flags by start and length, in order.
pub open spec fn lists_runs(flags: Seq<bool>, runs: Seq<(usize, usize)>) -> bool {
    &&& forall|i: int|
        0 <= i < runs.len() ==> {
            let run = #[trigger] runs[i];
            is_run(flags, run.0 as int, run.0 + run.1)
        }
    &&& forall|i: int, j: int|
        0 <= i < j < runs.len() ==> (#[trigger] runs[i]).0 < (#[trigger] runs[j]).0
    &&& forall|s: int, e: int| #[trigger]
        is_run(flags, s, e) ==> exists|i: int|
            0 <= i < runs.len() && #[trigger] runs[i].0 == s && runs[i].0 + runs[i].1 == e
}

/// Finds the runs of the flags.
pub fn runs_of(flags: &Vec<bool>) -> (runs: Vec<(usize, usize)>)
    ensures
        lists_runs(flags@, runs@),
{
    let mut runs: Vec<(usize, usize)> = Vec::new();
    let n: usize = flags.len();
    let mut length: usize = 0;
    let mut t: usize = 0;
    while t < n
        invariant
            n == flags@.len(),
            length <= t <= n,
            forall|u: int| t - length <= u < t ==> #[trigger] flags@[u],
            t - length > 0 ==> !flags@[t - length - 1],
            forall|i: int|
                0 <= i < runs@.len() ==> {
                    let run = #[trigger] runs@[i];
                    is_run(flags@, run.0 as int, run.0 + run.1) && run.0 + run.1 < t - length
                },
            forall|i: int, j: int|
                0 <= i < j < runs@.len() ==> (#[trigger] runs@[i]).0 < (#[trigger] runs@[j]).0,
            forall|s: int, e: int|
                #![trigger is_run(flags@, s, e)]
                is_run(flags@, s, e) && e < t ==> exists|i: int|
                    0 <= i < runs@.len() && #[trigger] runs@[i].0 == s && runs@[i].0 + runs@[i].1
                        == e,
        decreases n - t,
    {
        let ghost before = runs@;
        if flags[t] {
            length += 1;
            proof {
                assert forall|s: int, e: int|
                    #![trigger is_run(flags@, s, e)]
                    is_run(flags@, s, e) && e < t + 1 implies exists|i: int|
                    0 <= i < runs@.len() && #[trigger] runs@[i].0 == s && runs@[i].0 + runs@[i].1
                        == e by {
                    assert(e != t);
                }
            }
        } else {
            if length > 0 {
                runs.push((t - length, length));
            }
            proof {
                assert forall|s: int, e: int|
                    #![trigger is_run(flags@, s, e)]
                    is_run(flags@, s, e) && e < t + 1 implies exists|i: int|
                    0 <= i < runs@.len() && #[trigger] runs@[i].0 == s && runs@[i].0 + runs@[i].1
                        == e by {
                    if e == t {
                        assert(flags@[t - 1]);
                        assert(length > 0);
                        if s < t - length {
                            assert(flags@[t - length - 1]);
                        }
                        if s > t - length {
                            assert(flags@[s - 1]);
                        }
                        assert(runs@[before.len() as int].0 == s);
                    } else {
                        let i = choose|i: int|
                            0 <= i < before.len() && #[trigger] before[i].0 == s && before[i].0
                                + before[i].1 == e;
                        assert(runs@[i] == before[i]);
                    }
                }
            }
            length = 0;
        }
        t += 1;
    }
    let ghost before = runs@;
    if length > 0 {
        runs.push((n - length, length));
    }
    proof {
        assert forall|s: int, e: int| #[trigger] is_run(flags@, s, e) implies exists|i: int|
            0 <= i < runs@.len() && #[trigger] runs@[i].0 == s && runs@[i].0 + runs@[i].1 == e by {
            if e == n {
                assert(flags@[n - 1]);
                assert(length > 0);
                if s < n - length {
                    assert(flags@[n - length - 1]);
                }
                if s > n - length {
                    assert(flags@[s - 1]);
                }
                assert(runs@[before.len() as int].0 == s);
            } else {
                let i = choose|i: int|
                    0 <= i < before.len() && #[trigger] before[i].0 == s && before[i].0
                        + before[i].1 == e;
                assert(runs@[i] == before[i]);
            }
        }
    }
    runs
}

/// A run on the field that is longer than the player's limit.
pub open spec fn overlong(
    problem: SoccerProblem,
    schedule: Schedule,
    p: int,
    s: int,
    e: int,
) -> bool {
    &&& 0 <= p < problem.num_players
    &&& max_stint(problem, p) is Some
    &&& is_run(field_row(problem, schedule, p), s, e)
    &&& e - s > max_stint(problem, p)->0
}

/// `found` lists the overlong runs, by player and start.
pub open spec fn lists_overlong(
    problem: SoccerProblem,
    schedule: Schedule,
    found: Seq<ConsecutiveOnFieldViolation>,
    players: int,
) -> bool {
    &&& forall|i: int|
        0 <= i < found.len() ==> {
            let v = #[trigger] found[i];
            v.player_id < players && overlong(
                problem,
                schedule,
                v.player_id as int,
                v.start_period as int,
                v.start_period + v.length,
            )
        }
    &&& forall|i: int, j: int|
        0 <= i < j < found.len() ==> {
            let a = #[trigger] found[i];
            let b = #[trigger] found[j];
            a.player_id < b.player_id || (a.player_id == b.player_id && a.start_period
                < b.start_period)
        }
    &&& forall|p: int, s: int, e: int|
        p < players && #[trigger] overlong(problem, schedule, p, s, e) ==> exists|i: int|
            0 <= i < found.len() && #[trigger] found[i].player_id == p && found[i].start_period == s
                && found[i].start_period + found[i].length == e
}

/// Finds every run on the field that is longer than allowed.
pub fn consecutive_on_field_violations(
    problem: &SoccerProblem,
    schedule: &Schedule,
) -> (found: Vec<ConsecutiveOnFieldViolation>)
    requires
        covers_field(*problem, *schedule),
    ensures
        lists_overlong(*problem, *schedule, found@, problem.num_players as int),
{
    let mut found: Vec<ConsecutiveOnFieldViolation> = Vec::new();
    let mut p: usize = 0;
    while p < problem.num_players
        invariant
            p <= problem.num_players,
            covers_field(*problem, *schedule),
            lists_overlong(*problem, *schedule, found@, p as int),
        decreases problem.num_players - p,
    {
        if let Some(limit) = player_max_contiguous_on_field(problem, p) {
            let flags: Vec<bool> = field_flags(problem, schedule, p);
            let runs: Vec<(usize, usize)> = runs_of(&flags);
            let ghost first = found@;
            let mut i: usize = 0;
            while i < runs.len()
                invariant
                    p < problem.num_players,
                    i <= runs@.len(),
                    max_stint(*problem, p as int) == Some(limit),
                    flags@ == field_row(*problem, *schedule, p as int),
                    lists_runs(flags@, runs@),
                    lists_overlong(*problem, *schedule, first, p as int),
                    found@.len() >= first.len(),
                    found@.take(first.len() as int) == first,
                    forall|k: int|
                        first.len() <= k < found@.len() ==> {
                            let v = #[trigger] found@[k];
                            &&& v.player_id == p
                            &&& overlong(
                                *problem,
                                *schedule,
                                p as int,
                                v.start_period as int,
                                v.start_period + v.length,
                            )
                            &&& i < runs@.len() ==> v.start_period < runs@[i as int].0
                        },
                    forall|k: int, l: int|
                        first.len() <= k < l < found@.len() ==> (#[trigger] found@[k]).start_period
                            < (#[trigger] found@[l]).start_period,
                    forall|k: int|
                        0 <= k < i && (#[trigger] runs@[k]).1 > limit ==> exists|l: int|
                            first.len() <= l < found@.len() && #[trigger] found@[l].start_period
                                == runs@[k].0 && found@[l].length == runs@[k].1,
                decreases runs@.len() - i,
            {
                let run: (usize, usize) = runs[i];
                let ghost before = found@;
                if run.1 > limit {
                    found.push(
                        ConsecutiveOnFieldViolation {
                            player_id: p,
                            start_period: run.0,
                            length: run.1,
                        },
                    );
                }
                proof {
                    assert(found@.take(first.len() as int) =~= first);
                    assert forall|k: int|
                        0 <= k < i + 1 && (#[trigger] runs@[k]).1 > limit implies exists|l: int|
                        first.len() <= l < found@.len() && #[trigger] found@[l].start_period
                            == runs@[k].0 && found@[l].length == runs@[k].1 by {
                        if k == i {
                            assert(found@[before.len() as int].start_period == runs@[k].0);
                        } else {
                            let l = choose|l: int|
                                first.len() <= l < before.len() && #[trigger] before[l].start_period
                                    == runs@[k].0 && before[l].length == runs@[k].1;
                            assert(found@[l] == before[l]);
                        }
                    }
                }
                i += 1;
            }
            proof {
                assert forall|k: int| 0 <= k < first.len() implies found@[k] == first[k] by {
                    assert(found@.take(first.len() as int)[k] == found@[k]);
                }
                assert forall|k: int| 0 <= k < found@.len() implies {
                    let v = #[trigger] found@[k];
                    v.player_id < p + 1 && overlong(
                        *problem,
                        *schedule,
                        v.player_id as int,
                        v.start_period as int,
                        v.start_period + v.length,
                    )
                } by {
                    if k < first.len() {
                        assert(found@[k] == first[k]);
                    }
                }
                assert forall|k: int, l: int| 0 <= k < l < found@.len() implies {
                    let a = #[trigger] found@[k];
                    let b = #[trigger] found@[l];
                    a.player_id < b.player_id || (a.player_id == b.player_id && a.start_period
                        < b.start_period)
                } by {
                    if k < first.len() {
                        assert(found@[k] == first[k]);
                    }
                    if l < first.len() {
                        assert(found@[l] == first[l]);
                    }
                }
                assert forall|q: int, s: int, e: int|
                    q < p + 1 && #[trigger] overlong(*problem, *schedule, q, s, e) implies exists|
                    k: int,
                |
                    0 <= k < found@.len() && #[trigger] found@[k].player_id == q
                        && found@[k].start_period == s && found@[k].start_period + found@[k].length
                        == e by {
                    if q == p {
                        assert(is_run(flags@, s, e));
                        let k = choose|k: int|
                            0 <= k < runs@.len() && #[trigger] runs@[k].0 == s && runs@[k].0
                                + runs@[k].1 == e;
                        let l = choose|l: int|
                            first.len() <= l < found@.len() && #[trigger] found@[l].start_period
                                == runs@[k].0 && found@[l].length == runs@[k].1;
                        assert(found@[l].player_id == q);
                    } else {
                        let k = choose|k: int|
                            0 <= k < first.len() && #[trigger] first[k].player_id == q
                                && first[k].start_period == s && first[k].start_period
                                + first[k].length == e;
                        assert(found@[k].player_id == q);
                    }
                }
            }
        } else {
            assert(forall|s: int, e: int| !overlong(*problem, *schedule, p as int, s, e));
        }
        p += 1;
    }
    found
}

/// A run on the field that is shorter than the player's limit.
pub open spec fn short_stint(
    problem: SoccerProblem,
    schedule: Schedule,
    p: int,
    s: int,
    e: int,
) -> bool {
    &&& 0 <= p < problem.num_players
    &&& min_stint(problem, p) is Some
    &&& is_run(field_row(problem, schedule, p), s, e)
    &&& e - s < min_stint(problem, p)->0
}

/// `found` lists the runs that are too short, by player and start.
pub open spec fn lists_short(
    problem: SoccerProblem,
    schedule: Schedule,
    found: Seq<MinContiguousOnFieldViolation>,
    players: int,
) -> bool {
    &&& forall|i: int|
        0 <= i < found.len() ==> {
            let v = #[trigger] found[i];
            v.player_id < players && short_stint(
                problem,
                schedule,
                v.player_id as int,
                v.start_period as int,
                v.start_period + v.length,
            ) && Some(v.min_length) == min_stint(problem, v.player_id as int)
        }
    &&& forall|i: int, j: int|
        0 <= i < j < found.len() ==> {
            let a = #[trigger] found[i];
            let b = #[trigger] found[j];
            a.player_id < b.player_id || (a.player_id == b.player_id && a.start_period
                < b.start_period)
        }
    &&& forall|p: int, s: int, e: int|
        p < players && #[trigger] short_stint(problem, schedule, p, s, e) ==> exists|i: int|
            0 <= i < found.len() && #[trigger] found[i].player_id == p && found[i].start_period == s
                && found[i].start_period + found[i].length == e
}

/// Finds every run on the field that is shorter than demanded.
pub fn min_contiguous_on_field_violations(
    problem: &SoccerProblem,
    schedule: &Schedule,
) -> (found: Vec<MinContiguousOnFieldViolation>)
    requires
        covers_field(*problem, *schedule),
    ensures
        lists_short(*problem, *schedule, found@, problem.num_players as int),
{
    let mut found: Vec<MinContiguousOnFieldViolation> = Vec::new();
    let mut p: usize = 0;
    while p < problem.num_players
        invariant
            p <= problem.num_players,
            covers_field(*problem, *schedule),
            lists_short(*problem, *schedule, found@, p as int),
        decreases problem.num_players - p,
    {
        if let Some(limit) = player_min_contiguous_on_field(problem, p) {
            let flags: Vec<bool> = field_flags(problem, schedule, p);
            let runs: Vec<(usize, usize)> = runs_of(&flags);
            let ghost first = found@;
            let mut i: usize = 0;
            while i < runs.len()
                invariant
                    p < problem.num_players,
                    i <= runs@.len(),
                    min_stint(*problem, p as int) == Some(limit),
                    flags@ == field_row(*problem, *schedule, p as int),
                    lists_runs(flags@, runs@),
                    lists_short(*problem, *schedule, first, p as int),
                    found@.len() >= first.len(),
                    found@.take(first.len() as int) == first,
                    forall|k: int|
                        first.len() <= k < found@.len() ==> {
                            let v = #[trigger] found@[k];
                            &&& v.player_id == p
                            &&& short_stint(
                                *problem,
                                *schedule,
                                p as int,
                                v.start_period as int,
                                v.start_period + v.length,
                            )
                            &&& v.min_length == limit
                            &&& i < runs@.len() ==> v.start_period < runs@[i as int].0
                        },
                    forall|k: int, l: int|
                        first.len() <= k < l < found@.len() ==> (#[trigger] found@[k]).start_period
                            < (#[trigger] found@[l]).start_period,
                    forall|k: int|
                        0 <= k < i && (#[trigger] runs@[k]).1 < limit ==> exists|l: int|
                            first.len() <= l < found@.len() && #[trigger] found@[l].start_period
                                == runs@[k].0 && found@[l].length == runs@[k].1,
                decreases runs@.len() - i,
            {
                let run: (usize, usize) = runs[i];
                let ghost before = found@;
                if run.1 < limit {
                    found.push(
                        MinContiguousOnFieldViolation {
                            player_id: p,
                            start_period: run.0,
                            length: run.1,
                            min_length: limit,
                        },
                    );
                }
                proof {
                    assert(found@.take(first.len() as int) =~= first);
                    assert forall|k: int|
                        0 <= k < i + 1 && (#[trigger] runs@[k]).1 < limit implies exists|l: int|
                        first.len() <= l < found@.len() && #[trigger] found@[l].start_period
                            == runs@[k].0 && found@[l].length == runs@[k].1 by {
                        if k == i {
                            assert(found@[before.len() as int].start_period == runs@[k].0);
                        } else {
                            let l = choose|l: int|
                                first.len() <= l < before.len() && #[trigger] before[l].start_period
                                    == runs@[k].0 && before[l].length == runs@[k].1;
                            assert(found@[l] == before[l]);
                        }
                    }
                }
                i += 1;
            }
            proof {
                assert forall|k: int| 0 <= k < first.len() implies found@[k] == first[k] by {
                    assert(found@.take(first.len() as int)[k] == found@[k]);
                }
                assert forall|k: int| 0 <= k < found@.len() implies {
                    let v = #[trigger] found@[k];
                    v.player_id < p + 1 && short_stint(
                        *problem,
                        *schedule,
                        v.player_id as int,
                        v.start_period as int,
                        v.start_period + v.length,
                    ) && Some(v.min_length) == min_stint(*problem, v.player_id as int)
                } by {
                    if k < first.len() {
                        assert(found@[k] == first[k]);
                    }
                }
                assert forall|k: int, l: int| 0 <= k < l < found@.len() implies {
                    let a = #[trigger] found@[k];
                    let b = #[trigger] found@[l];
                    a.player_id < b.player_id || (a.player_id == b.player_id && a.start_period
                        < b.start_period)
                } by {
                    if k < first.len() {
                        assert(found@[k] == first[k]);
                    }
                    if l < first.len() {
                        assert(found@[l] == first[l]);
                    }
                }
                assert forall|q: int, s: int, e: int|
                    q < p + 1 && #[trigger] short_stint(
                        *problem,
                        *schedule,
                        q,
                        s,
                        e,
                    ) implies exists|
                    k: int,
                |
                    0 <= k < found@.len() && #[trigger] found@[k].player_id == q
                        && found@[k].start_period == s && found@[k].start_period + found@[k].length
                        == e by {
                    if q == p {
                        assert(is_run(flags@, s, e));
                        let k = choose|k: int|
                            0 <= k < runs@.len() && #[trigger] runs@[k].0 == s && runs@[k].0
                                + runs@[k].1 == e;
                        let l = choose|l: int|
                            first.len() <= l < found@.len() && #[trigger] found@[l].start_period
                                == runs@[k].0 && found@[l].length == runs@[k].1;
                        assert(found@[l].player_id == q);
                    } else {
                        let k = choose|k: int|
                            0 <= k < first.len() && #[trigger] first[k].player_id == q
                                && first[k].start_period == s && first[k].start_period
                                + first[k].length == e;
                        assert(found@[k].player_id == q);
                    }
                }
            }
        } else {
            assert(forall|s: int, e: int| !short_stint(*problem, *schedule, p as int, s, e));
        }
        p += 1;
    }
    found
}

/// A run on the bench that is longer than the player's limit.
pub open spec fn long_bench(
    problem: SoccerProblem,
    schedule: Schedule,
    p: int,
    s: int,
    e: int,
) -> bool {
    &&& 0 <= p < problem.num_players
    &&& max_bench(problem, p) is Some
    &&& is_run(bench_row(problem, schedule, p), s, e)
    &&& e - s > max_bench(problem, p)->0
}

/// `found` lists the runs on the bench that are too long, by player and start.
pub open spec fn lists_long_bench(
    problem: SoccerProblem,
    schedule: Schedule,
    found: Seq<MaxContiguousBenchViolation>,
    players: int,
) -> bool {
    &&& forall|i: int|
        0 <= i < found.len() ==> {
            let v = #[trigger] found[i];
            v.player_id < players && long_bench(
                problem,
                schedule,
                v.player_id as int,
                v.start_period as int,
                v.start_period + v.length,
            ) && Some(v.max_length) == max_bench(problem, v.player_id as int)
        }
    &&& forall|i: int, j: int|
        0 <= i < j < found.len() ==> {
            let a = #[trigger] found[i];
            let b = #[trigger] found[j];
            a.player_id < b.player_id || (a.player_id == b.player_id && a.start_period
                < b.start_period)
        }
    &&& forall|p: int, s: int, e: int|
        p < players && #[trigger] long_bench(problem, schedule, p, s, e) ==> exists|i: int|
            0 <= i < found.len() && #[trigger] found[i].player_id == p && found[i].start_period == s
                && found[i].start_period + found[i].length == e
}

/// Finds every run on the bench that is longer than allowed.
pub fn max_contiguous_bench_violations(
    problem: &SoccerProblem,
    schedule: &Schedule,
) -> (found: Vec<MaxContiguousBenchViolation>)
    requires
        covers_field(*problem, *schedule),
    ensures
        lists_long_bench(*problem, *schedule, found@, problem.num_players as int),
{
    let mut found: Vec<MaxContiguousBenchViolation> = Vec::new();
    let mut p: usize = 0;
    while p < problem.num_players
        invariant
            p <= problem.num_players,
            covers_field(*problem, *schedule),
            lists_long_bench(*problem, *schedule, found@, p as int),
        decreases problem.num_players - p,
    {
        if let Some(limit) = player_max_contiguous_bench(problem, p) {
            let flags: Vec<bool> = bench_flags(problem, schedule, p);
            let runs: Vec<(usize, usize)> = runs_of(&flags);
            let ghost first = found@;
            let mut i: usize = 0;
            while i < runs.len()
                invariant
                    p < problem.num_players,
                    i <= runs@.len(),
                    max_bench(*problem, p as int) == Some(limit),
                    flags@ == bench_row(*problem, *schedule, p as int),
                    lists_runs(flags@, runs@),
                    lists_long_bench(*problem, *schedule, first, p as int),
                    found@.len() >= first.len(),
                    found@.take(first.len() as int) == first,
                    forall|k: int|
                        first.len() <= k < found@.len() ==> {
                            let v = #[trigger] found@[k];
                            &&& v.player_id == p
                            &&& long_bench(
                                *problem,
                                *schedule,
                                p as int,
                                v.start_period as int,
                                v.start_period + v.length,
                            )
                            &&& v.max_length == limit
                            &&& i < runs@.len() ==> v.start_period < runs@[i as int].0
                        },
                    forall|k: int, l: int|
                        first.len() <= k < l < found@.len() ==> (#[trigger] found@[k]).start_period
                            < (#[trigger] found@[l]).start_period,
                    forall|k: int|
                        0 <= k < i && (#[trigger] runs@[k]).1 > limit ==> exists|l: int|
                            first.len() <= l < found@.len() && #[trigger] found@[l].start_period
                                == runs@[k].0 && found@[l].length == runs@[k].1,
                decreases runs@.len() - i,
            {
                let run: (usize, usize) = runs[i];
                let ghost before = found@;
                if run.1 > limit {
                    found.push(
                        MaxContiguousBenchViolation {
                            player_id: p,
                            start_period: run.0,
                            length: run.1,
                            max_length: limit,
                        },
                    );
                }
                proof {
                    assert(found@.take(first.len() as int) =~= first);
                    assert forall|k: int|
                        0 <= k < i + 1 && (#[trigger] runs@[k]).1 > limit implies exists|l: int|
                        first.len() <= l < found@.len() && #[trigger] found@[l].start_period
                            == runs@[k].0 && found@[l].length == runs@[k].1 by {
                        if k == i {
                            assert(found@[before.len() as int].start_period == runs@[k].0);
                        } else {
                            let l = choose|l: int|
                                first.len() <= l < before.len() && #[trigger] before[l].start_period
                                    == runs@[k].0 && before[l].length == runs@[k].1;
                            assert(found@[l] == before[l]);
                        }
                    }
                }
                i += 1;
            }
            proof {
                assert forall|k: int| 0 <= k < first.len() implies found@[k] == first[k] by {
                    assert(found@.take(first.len() as int)[k] == found@[k]);
                }
                assert forall|k: int| 0 <= k < found@.len() implies {
                    let v = #[trigger] found@[k];
                    v.player_id < p + 1 && long_bench(
                        *problem,
                        *schedule,
                        v.player_id as int,
                        v.start_period as int,
                        v.start_period + v.length,
                    ) && Some(v.max_length) == max_bench(*problem, v.player_id as int)
                } by {
                    if k < first.len() {
                        assert(found@[k] == first[k]);
                    }
                }
                assert forall|k: int, l: int| 0 <= k < l < found@.len() implies {
                    let a = #[trigger] found@[k];
                    let b = #[trigger] found@[l];
                    a.player_id < b.player_id || (a.player_id == b.player_id && a.start_period
                        < b.start_period)
                } by {
                    if k < first.len() {
                        assert(found@[k] == first[k]);
                    }
                    if l < first.len() {
                        assert(found@[l] == first[l]);
                    }
                }
                assert forall|q: int, s: int, e: int|
                    q < p + 1 && #[trigger] long_bench(*problem, *schedule, q, s, e) implies exists|
                    k: int,
                |
                    0 <= k < found@.len() && #[trigger] found@[k].player_id == q
                        && found@[k].start_period == s && found@[k].start_period + found@[k].length
                        == e by {
                    if q == p {
                        assert(is_run(flags@, s, e));
                        let k = choose|k: int|
                            0 <= k < runs@.len() && #[trigger] runs@[k].0 == s && runs@[k].0
                                + runs@[k].1 == e;
                        let l = choose|l: int|
                            first.len() <= l < found@.len() && #[trigger] found@[l].start_period
                                == runs@[k].0 && found@[l].length == runs@[k].1;
                        assert(found@[l].player_id == q);
                    } else {
                        let k = choose|k: int|
                            0 <= k < first.len() && #[trigger] first[k].player_id == q
                                && first[k].start_period == s && first[k].start_period
                                + first[k].length == e;
                        assert(found@[k].player_id == q);
                    }
                }
            }
        } else {
            assert(forall|s: int, e: int| !long_bench(*problem, *schedule, p as int, s, e));
        }
        p += 1;
    }
    found
}

/// The violations among the first `n` of those on the bench in period `t`: the fieldable ones
/// who are on the bench in the next period too.
pub open spec fn benched_again(
    problem: SoccerProblem,
    bench: Seq<usize>,
    next: Seq<usize>,
    t: int,
    n: int,
) -> Seq<FairnessViolation>
    decreases n,
{
    if n <= 0 {
        Seq::empty()
    } else {
        let rest = benched_again(problem, bench, next, t, n - 1);
        if fieldable(problem, bench[n - 1] as int) && next.contains(bench[n - 1]) {
            rest.push(
                FairnessViolation {
                    player_id: bench[n - 1],
                    period_a: t as usize,
                    period_b: (t + 1) as usize,
                },
            )
        } else {
            rest
        }
    }
}

/// The violations over the first `periods` periods.
pub open spec fn unfair(
    problem: SoccerProblem,
    bench: Seq<Vec<usize>>,
    periods: int,
) -> Seq<FairnessViolation>
    decreases periods,
{
    if periods <= 1 {
        Seq::empty()
    } else {
        unfair(problem, bench, periods - 1) + benched_again(
            problem,
            bench[periods - 2]@,
            bench[periods - 1]@,
            periods - 2,
            bench[periods - 2]@.len() as int,
        )
    }
}

fn lists_player(players: &Vec<usize>, p: usize) -> (b: bool)
    ensures
        b == players@.contains(p),
{
    let mut i: usize = 0;
    while i < players.len()
        invariant
            i <= players@.len(),
            forall|j: int| 0 <= j < i ==> players@[j] != p,
        decreases players@.len() - i,
    {
        if players[i] == p {
            return true;
        }
        i += 1;
    }
    false
}

/// Finds every player who could play and sits on the bench in two periods in a row.
pub fn fairness_violations(problem: &SoccerProblem, schedule: &Schedule) -> (found: Vec<
    FairnessViolation,
>)
    requires
        schedule.bench@.len() >= problem.num_periods,
    ensures
        found@ == unfair(*problem, schedule.bench@, problem.num_periods as int),
{
    let mut found: Vec<FairnessViolation> = Vec::new();
    if problem.num_periods == 0 {
        return found;
    }
    let mut t: usize = 0;
    while t + 1 < problem.num_periods
        invariant
            t + 1 <= problem.num_periods,
            schedule.bench@.len() >= problem.num_periods,
            found@ == unfair(*problem, schedule.bench@, t + 1),
        decreases problem.num_periods - t,
    {
        let bench: &Vec<usize> = &schedule.bench[t];
        let next: &Vec<usize> = &schedule.bench[t + 1];
        let mut i: usize = 0;
        while i < bench.len()
            invariant
                t + 1 < problem.num_periods,
                i <= bench@.len(),
                found@ == unfair(*problem, schedule.bench@, t + 1) + benched_again(
                    *problem,
                    bench@,
                    next@,
                    t as int,
                    i as int,
                ),
            decreases bench@.len() - i,
        {
            let p: usize = bench[i];
            if player_is_fieldable(problem, p) && lists_player(next, p) {
                found.push(FairnessViolation { player_id: p, period_a: t, period_b: t + 1 });
            }
            i += 1;
            assert(found@ =~= unfair(*problem, schedule.bench@, t + 1) + benched_again(
                *problem,
                bench@,
                next@,
                t as int,
                i as int,
            ));
        }
        t += 1;
    }
    found
}

/// How often `p` stands among the first `n` entries.
pub open spec fn occurrences(players: Seq<usize>, p: int, n: int) -> int
    decreases n,
{
    if n <= 0 {
        0
    } else {
        occurrences(players, p, n - 1) + if players[n - 1] == p {
            1int
        } else {
            0
        }
    }
}

/// In how many bench entries of the first `periods` periods a player stands.
pub open spec fn bench_total(bench: Seq<Vec<usize>>, p: int, periods: int) -> int
    decreases periods,
{
    if periods <= 0 {
        0
    } else {
        bench_total(bench, p, periods - 1) + occurrences(
            bench[periods - 1]@,
            p,
            bench[periods - 1]@.len() as int,
        )
    }
}

/// How many entries the first `periods` rows have together.
pub open spec fn entries<T>(rows: Seq<Vec<T>>, periods: int) -> int
    decreases periods,
{
    if periods <= 0 {
        0
    } else {
        entries(rows, periods - 1) + rows[periods - 1]@.len()
    }
}

proof fn entries_grow<T>(rows: Seq<Vec<T>>, a: int, b: int)
    requires
        0 <= a <= b <= rows.len(),
    ensures
        0 <= entries(rows, a) <= entries(rows, b),
    decreases b,
{
    if b > a {
        entries_grow(rows, a, b - 1);
    } else if a > 0 {
        entries_grow(rows, a - 1, a - 1);
    }
}

proof fn occurrences_are_bounded(players: Seq<usize>, p: int, n: int)
    requires
        0 <= n <= players.len(),
    ensures
        0 <= occurrences(players, p, n) <= n,
    decreases n,
{
    if n > 0 {
        occurrences_are_bounded(players, p, n - 1);
    }
}

proof fn bench_total_is_bounded(bench: Seq<Vec<usize>>, p: int, periods: int)
    requires
        0 <= periods <= bench.len(),
    ensures
        0 <= bench_total(bench, p, periods) <= entries(bench, periods),
    decreases periods,
{
    if periods > 0 {
        bench_total_is_bounded(bench, p, periods - 1);
        occurrences_are_bounded(bench[periods - 1]@, p, bench[periods - 1]@.len() as int);
    }
}

/// Counts for every player the periods on the bench.
pub fn bench_counts(problem: &SoccerProblem, schedule: &Schedule) -> (counts: Vec<usize>)
    requires
        schedule.bench@.len() >= problem.num_periods,
        entries(schedule.bench@, problem.num_periods as int) <= usize::MAX,
        forall|t: int, i: int|
            0 <= t < problem.num_periods && 0 <= i < schedule.bench@[t]@.len()
                ==> #[trigger] schedule.bench@[t]@[i] < problem.num_players,
    ensures
        counts@.len() == problem.num_players,
        forall|p: int|
            0 <= p < problem.num_players ==> #[trigger] counts@[p] == bench_total(
                schedule.bench@,
                p,
                problem.num_periods as int,
            ),
{
    let mut counts: Vec<usize> = Vec::new();
    let mut p: usize = 0;
    while p < problem.num_players
        invariant
            p <= problem.num_players,
            counts@.len() == p,
            forall|q: int| 0 <= q < p ==> #[trigger] counts@[q] == 0,
        decreases problem.num_players - p,
    {
        counts.push(0);
        p += 1;
    }
    let mut t: usize = 0;
    while t < problem.num_periods
        invariant
            t <= problem.num_periods,
            schedule.bench@.len() >= problem.num_periods,
            entries(schedule.bench@, problem.num_periods as int) <= usize::MAX,
            forall|t: int, i: int|
                0 <= t < problem.num_periods && 0 <= i < schedule.bench@[t]@.len()
                    ==> #[trigger] schedule.bench@[t]@[i] < problem.num_players,
            counts@.len() == problem.num_players,
            forall|q: int|
                0 <= q < problem.num_players ==> #[trigger] counts@[q] == bench_total(
                    schedule.bench@,
                    q,
                    t as int,
                ),
        decreases problem.num_periods - t,
    {
        let bench: &Vec<usize> = &schedule.bench[t];
        let mut i: usize = 0;
        while i < bench.len()
            invariant
                i <= bench@.len(),
                t < problem.num_periods,
                schedule.bench@.len() >= problem.num_periods,
                *bench == schedule.bench@[t as int],
                entries(schedule.bench@, problem.num_periods as int) <= usize::MAX,
                forall|t: int, i: int|
                    0 <= t < problem.num_periods && 0 <= i < schedule.bench@[t]@.len()
                        ==> #[trigger] schedule.bench@[t]@[i] < problem.num_players,
                counts@.len() == problem.num_players,
                forall|q: int|
                    0 <= q < problem.num_players ==> #[trigger] counts@[q] == bench_total(
                        schedule.bench@,
                        q,
                        t as int,
                    ) + occurrences(bench@, q, i as int),
            decreases bench@.len() - i,
        {
            assert(schedule.bench@[t as int]@[i as int] < problem.num_players);
            let q: usize = bench[i];
            proof {
                bench_total_is_bounded(schedule.bench@, q as int, t as int);
                occurrences_are_bounded(bench@, q as int, i as int);
                entries_grow(schedule.bench@, t + 1, problem.num_periods as int);
                assert(entries(schedule.bench@, t + 1) == entries(schedule.bench@, t as int)
                    + bench@.len());
            }
            let so_far: usize = counts[q];
            counts.set(q, so_far + 1);
            i += 1;
        }
        t += 1;
    }
    counts
}

/// How many of the first `n` players of a line-up are not in the next one.
pub open spec fn departures(row: Seq<i64>, next: Seq<i64>, n: int) -> int
    decreases n,
{
    if n <= 0 {
        0
    } else {
        departures(row, next, n - 1) + if next.contains(row[n - 1]) {
            0int
        } else {
            1
        }
    }
}

/// The substitutions over the first `periods` periods: players who leave the field from one
/// period to the next.
pub open spec fn substitutions(assignment: Seq<Vec<i64>>, periods: int) -> int
    decreases periods,
{
    if periods <= 1 {
        0
    } else {
        substitutions(assignment, periods - 1) + departures(
            assignment[periods - 2]@,
            assignment[periods - 1]@,
            assignment[periods - 2]@.len() as int,
        )
    }
}

proof fn departures_are_bounded(row: Seq<i64>, next: Seq<i64>, n: int)
    requires
        0 <= n <= row.len(),
    ensures
        0 <= departures(row, next, n) <= n,
    decreases n,
{
    if n > 0 {
        departures_are_bounded(row, next, n - 1);
    }
}

proof fn substitutions_are_bounded(assignment: Seq<Vec<i64>>, periods: int)
    requires
        0 <= periods <= assignment.len(),
    ensures
        0 <= substitutions(assignment, periods) <= entries(assignment, periods - 1),
        periods >= 1 ==> entries(assignment, periods - 1) >= 0,
    decreases periods,
{
    if periods > 1 {
        substitutions_are_bounded(assignment, periods - 1);
        let row = assignment[periods - 2]@;
        departures_are_bounded(row, assignment[periods - 1]@, row.len() as int);
    }
}

fn fields_player(row: &Vec<i64>, p: i64) -> (b: bool)
    ensures
        b == row@.contains(p),
{
    let mut i: usize = 0;
    while i < row.len()
        invariant
            i <= row@.len(),
            forall|j: int| 0 <= j < i ==> row@[j] != p,
        decreases row@.len() - i,
    {
        if row[i] == p {
            return true;
        }
        i += 1;
    }
    false
}

/// Counts the substitutions.
pub fn count_subs(problem: &SoccerProblem, schedule: &Schedule) -> (total: usize)
    requires
        covers_field(*problem, *schedule),
        entries(schedule.assignment@, problem.num_periods as int) <= usize::MAX,
    ensures
        total == substitutions(schedule.assignment@, problem.num_periods as int),
{
    if problem.num_periods <= 1 {
        return 0;
    }
    let mut total: usize = 0;
    let mut t: usize = 1;
    while t < problem.num_periods
        invariant
            1 <= t <= problem.num_periods,
            covers_field(*problem, *schedule),
            entries(schedule.assignment@, problem.num_periods as int) <= usize::MAX,
            total == substitutions(schedule.assignment@, t as int),
        decreases problem.num_periods - t,
    {
        let row: &Vec<i64> = &schedule.assignment[t - 1];
        let next: &Vec<i64> = &schedule.assignment[t];
        let mut i: usize = 0;
        while i < row.len()
            invariant
                1 <= t < problem.num_periods,
                covers_field(*problem, *schedule),
                entries(schedule.assignment@, problem.num_periods as int) <= usize::MAX,
                *row == schedule.assignment@[t - 1],
                i <= row@.len(),
                total == substitutions(schedule.assignment@, t as int) + departures(
                    row@,
                    next@,
                    i as int,
                ),
            decreases row@.len() - i,
        {
            proof {
                substitutions_are_bounded(schedule.assignment@, t as int);
                departures_are_bounded(row@, next@, i as int);
                entries_grow(schedule.assignment@, t as int, problem.num_periods as int);
                assert(entries(schedule.assignment@, t as int) == entries(
                    schedule.assignment@,
                    t - 1,
                ) + row@.len());
            }
            if !fields_player(next, row[i]) {
                total += 1;
            }
            i += 1;
        }
        t += 1;
    }
    total
}

/// What a schedule comes to.
#[derive(Debug)]
pub struct ScheduleEvaluation {
    /// The score of every position, period by period.
    pub cell_scores: Vec<Vec<Real64>>,
    pub fairness_ok: bool,
    pub fairness_violations: Vec<FairnessViolation>,
    pub stamina_ok: bool,
    pub consecutive_on_field_violations: Vec<ConsecutiveOnFieldViolation>,
    pub min_contiguous_on_field_violations: Vec<MinContiguousOnFieldViolation>,
    pub max_contiguous_bench_violations: Vec<MaxContiguousBenchViolation>,
    pub subs_ok: bool,
    pub total_subs: usize,
    pub bench_counts: Vec<usize>,
}

/// The schedule can be evaluated: every period has its line-up and bench, all of players that
/// there are.
pub open spec fn evaluable(problem: SoccerProblem, schedule: Schedule) -> bool {
    &&& problem.has_affinities()
    &&& covers_field(problem, schedule)
    &&& schedule.bench@.len() >= problem.num_periods
    &&& entries(schedule.assignment@, problem.num_periods as int) <= usize::MAX
    &&& entries(schedule.bench@, problem.num_periods as int) <= usize::MAX
    &&& forall|t: int, i: int|
        0 <= t < problem.num_periods && 0 <= i < schedule.bench@[t]@.len()
            ==> #[trigger] schedule.bench@[t]@[i] < problem.num_players
    &&& forall|t: int|
        0 <= t < problem.num_periods ==> (#[trigger] schedule.assignment@[t])@.len()
            >= problem.num_positions
    &&& forall|t: int, pos: int|
        0 <= t < problem.num_periods && 0 <= pos < problem.num_positions ==> 0
            <= #[trigger] schedule.assignment@[t]@[pos] < problem.num_players
}

/// No fieldable player sits on the bench twice in a row, where that is ruled out.
pub open spec fn fair(problem: SoccerProblem, schedule: Schedule) -> bool {
    problem.enforce_no_consecutive_bench ==> unfair(
        problem,
        schedule.bench@,
        problem.num_periods as int,
    ).len() == 0
}

/// No run on the bench is too long.
pub open spec fn bench_runs_ok(problem: SoccerProblem, schedule: Schedule) -> bool {
    forall|p: int, s: int, e: int| !#[trigger] long_bench(problem, schedule, p, s, e)
}

/// No run on the field is too long.
pub open spec fn stamina_kept(problem: SoccerProblem, schedule: Schedule) -> bool {
    forall|p: int, s: int, e: int| !#[trigger] overlong(problem, schedule, p, s, e)
}

/// No run on the field is too short.
pub open spec fn stints_long_enough(problem: SoccerProblem, schedule: Schedule) -> bool {
    forall|p: int, s: int, e: int| !#[trigger] short_stint(problem, schedule, p, s, e)
}

/// The substitutions lie within their bounds.
pub open spec fn subs_within(problem: SoccerProblem, schedule: Schedule) -> bool {
    let n = substitutions(schedule.assignment@, problem.num_periods as int);
    &&& problem.min_subs_per_game is Some ==> n >= problem.min_subs_per_game->0
    &&& problem.max_subs_per_game is Some ==> n <= problem.max_subs_per_game->0
}

/// The evaluation tells what the schedule comes to.
pub open spec fn evaluates(
    problem: SoccerProblem,
    schedule: Schedule,
    r: ScheduleEvaluation,
) -> bool {
    &&& r.cell_scores@.len() == problem.num_periods
    &&& forall|t: int|
        0 <= t < problem.num_periods ==> (#[trigger] r.cell_scores@[t])@.len()
            == problem.num_positions
    &&& forall|t: int, pos: int|
        0 <= t < problem.num_periods && 0 <= pos < problem.num_positions
            ==> #[trigger] r.cell_scores@[t]@[pos] == cell_score(
            problem,
            schedule.assignment@[t]@,
            schedule.assignment@[t]@[pos] as int,
            pos,
            t,
            rule_count(problem),
        )
    &&& r.fairness_violations@ == if problem.enforce_no_consecutive_bench {
        unfair(problem, schedule.bench@, problem.num_periods as int)
    } else {
        Seq::empty()
    }
    &&& lists_overlong(
        problem,
        schedule,
        r.consecutive_on_field_violations@,
        problem.num_players as int,
    )
    &&& lists_short(
        problem,
        schedule,
        r.min_contiguous_on_field_violations@,
        problem.num_players as int,
    )
    &&& lists_long_bench(
        problem,
        schedule,
        r.max_contiguous_bench_violations@,
        problem.num_players as int,
    )
    &&& r.fairness_ok == (fair(problem, schedule) && bench_runs_ok(problem, schedule))
    &&& r.stamina_ok == stamina_kept(problem, schedule)
    &&& r.min_contiguous_on_field_violations@.len() == 0 <==> stints_long_enough(
        problem,
        schedule,
    )
    &&& r.subs_ok == subs_within(problem, schedule)
    &&& r.total_subs == substitutions(schedule.assignment@, problem.num_periods as int)
    &&& r.bench_counts@.len() == problem.num_players
    &&& forall|p: int|
        0 <= p < problem.num_players ==> #[trigger] r.bench_counts@[p] == bench_total(
            schedule.bench@,
            p,
            problem.num_periods as int,
        )
}

fn score_cells(problem: &SoccerProblem, schedule: &Schedule) -> (scores: Vec<Vec<Real64>>)
    requires
        evaluable(*problem, *schedule),
    ensures
        scores@.len() == problem.num_periods,
        forall|t: int|
            0 <= t < problem.num_periods ==> (#[trigger] scores@[t])@.len()
                == problem.num_positions,
        forall|t: int, pos: int|
            0 <= t < problem.num_periods && 0 <= pos < problem.num_positions
                ==> #[trigger] scores@[t]@[pos] == cell_score(
                *problem,
                schedule.assignment@[t]@,
                schedule.assignment@[t]@[pos] as int,
                pos,
                t,
                rule_count(*problem),
            ),
{
    let mut scores: Vec<Vec<Real64>> = Vec::new();
    let mut t: usize = 0;
    while t < problem.num_periods
        invariant
            t <= problem.num_periods,
            evaluable(*problem, *schedule),
            scores@.len() == t,
            forall|u: int| 0 <= u < t ==> (#[trigger] scores@[u])@.len() == problem.num_positions,
            forall|u: int, pos: int|
                0 <= u < t && 0 <= pos < problem.num_positions ==> #[trigger] scores@[u]@[pos]
                    == cell_score(
                    *problem,
                    schedule.assignment@[u]@,
                    schedule.assignment@[u]@[pos] as int,
                    pos,
                    u,
                    rule_count(*problem),
                ),
        decreases problem.num_periods - t,
    {
        let mut row: Vec<Real64> = Vec::new();
        let mut pos: usize = 0;
        while pos < problem.num_positions
            invariant
                pos <= problem.num_positions,
                t < problem.num_periods,
                evaluable(*problem, *schedule),
                row@.len() == pos,
                forall|q: int|
                    0 <= q < pos ==> #[trigger] row@[q] == cell_score(
                        *problem,
                        schedule.assignment@[t as int]@,
                        schedule.assignment@[t as int]@[q] as int,
                        q,
                        t as int,
                        rule_count(*problem),
                    ),
            decreases problem.num_positions - pos,
        {
            assert(schedule.assignment@[t as int]@.len() >= problem.num_positions);
            assert(0 <= schedule.assignment@[t as int]@[pos as int] < problem.num_players);
            let p: usize = schedule.assignment[t][pos] as usize;
            row.push(effective_cell_affinity(problem, &schedule.assignment[t], p, pos, t));
            pos += 1;
        }
        scores.push(row);
        t += 1;
    }
    scores
}

/// Evaluates a schedule: scores, violations, substitutions.
pub fn evaluate_schedule(problem: &SoccerProblem, schedule: &Schedule) -> (r: ScheduleEvaluation)
    requires
        evaluable(*problem, *schedule),
    ensures
        evaluates(*problem, *schedule, r),
{
    let cell_scores: Vec<Vec<Real64>> = score_cells(problem, schedule);
    let fairness: Vec<FairnessViolation> = if problem.enforce_no_consecutive_bench {
        fairness_violations(problem, schedule)
    } else {
        Vec::new()
    };
    let counts: Vec<usize> = bench_counts(problem, schedule);
    let too_long: Vec<ConsecutiveOnFieldViolation> = consecutive_on_field_violations(
        problem,
        schedule,
    );
    let too_short: Vec<MinContiguousOnFieldViolation> = min_contiguous_on_field_violations(
        problem,
        schedule,
    );
    let benched: Vec<MaxContiguousBenchViolation> = max_contiguous_bench_violations(
        problem,
        schedule,
    );
    let total_subs: usize = count_subs(problem, schedule);
    let enough: bool = match problem.min_subs_per_game {
        Some(floor) => total_subs >= floor,
        None => true,
    };
    let few: bool = match problem.max_subs_per_game {
        Some(cap) => total_subs <= cap,
        None => true,
    };
    proof {
        if too_long@.len() > 0 {
            let v = too_long@[0];
            assert(overlong(
                *problem,
                *schedule,
                v.player_id as int,
                v.start_period as int,
                v.start_period + v.length,
            ));
        }
        if too_short@.len() > 0 {
            let v = too_short@[0];
            assert(short_stint(
                *problem,
                *schedule,
                v.player_id as int,
                v.start_period as int,
                v.start_period + v.length,
            ));
        }
        if benched@.len() > 0 {
            let v = benched@[0];
            assert(long_bench(
                *problem,
                *schedule,
                v.player_id as int,
                v.start_period as int,
                v.start_period + v.length,
            ));
        }
    }
    ScheduleEvaluation {
        cell_scores,
        fairness_ok: fairness.len() == 0 && benched.len() == 0,
        fairness_violations: fairness,
        stamina_ok: too_long.len() == 0,
        consecutive_on_field_violations: too_long,
        min_contiguous_on_field_violations: too_short,
        max_contiguous_bench_violations: benched,
        subs_ok: enough && few,
        total_subs,
        bench_counts: counts,
    }
}

/// The scores of each period added up, position by position.
pub open spec fn period_sums<P: Fn(Real64, Real64) -> Real64>(
    plus: P,
    cells: Seq<Vec<Real64>>,
) -> Seq<
    Real64,
> {
    cells.map_values(|row: Vec<Real64>| sum_up(plus, row@, row@.len() as int))
}

/// Adds up what an evaluated schedule earns: in every period, and in all.
pub fn affinity_sums<P: Fn(Real64, Real64) -> Real64>(
    evaluation: &ScheduleEvaluation,
    plus: &P,
) -> (r: (Vec<Real64>, Real64))
    requires
        is_operation(*plus),
    ensures
        r.0@ == period_sums(*plus, evaluation.cell_scores@),
        r.1 == sum_up(*plus, r.0@, r.0@.len() as int),
{
    let cells: &Vec<Vec<Real64>> = &evaluation.cell_scores;
    let mut per_period: Vec<Real64> = Vec::new();
    let mut t: usize = 0;
    while t < cells.len()
        invariant
            t <= cells@.len(),
            is_operation(*plus),
            per_period@ == period_sums(*plus, cells@).take(t as int),
        decreases cells@.len() - t,
    {
        per_period.push(add_up(&cells[t], plus));
        t += 1;
        assert(per_period@ =~= period_sums(*plus, cells@).take(t as int));
    }
    assert(per_period@ =~= period_sums(*plus, cells@));
    let total: Real64 = add_up(&per_period, plus);
    (per_period, total)
}

} // verus!
