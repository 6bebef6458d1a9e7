//! Whom a defender marks: the most dangerous opponent near the zone, or the arrival of a cross.
//!
//! Distances and lines of sight are measured by the caller; the arithmetic is handed in.
use crate::decimals::{
    D0, D0_025, D0_055, D0_4, D0_42, D0_45, D0_48, D0_52, D0_55, D0_6, D0_62, D0_76, D0_78, D0_9,
    D1, D18, D1_1, D1_15, D1_2, D1_25, D1_35, D1_4, D1_65, D1_8, D24, D2_1, D2_2, D2_4, D3, D3_4,
    D4, D4_8, D5, D70, DM0_18,
};
use crate::meaning::{
    bounded, decimals_are_read, is_faithful, most, reads_decimals, reads_order, reads_quotients,
    reads_signs, reads_sums, size,
};
use crate::number::{
    apply, at_bits, clamp_to, clamped_to, is_operation, larger, larger_of, num, outcome, Real64,
    INFINITY_BITS,
};
use crate::pitch::{PlayerRole, Team, Vec2};
use crate::strategy::FlankAttackPolicy;
use vstd::prelude::*;

pub mod cover;

verus! {

/// An opponent as a marker sees it.
#[derive(Clone, Copy, Debug, PartialEq, Eq, Structural)]
pub struct MarkCandidate {
    pub team: Team,
    pub role: PlayerRole,
    pub position: Vec2,
    pub holds_ball: bool,
    /// The line to the own goal is clear.
    pub lane_open: bool,
    pub zone_distance: Real64,
    pub goal_distance: Real64,
}

/// How dangerous a role is near the ball.
pub open spec fn role_threat(role: PlayerRole) -> u64 {
    match role {
        PlayerRole::Forward => D2_4,
        PlayerRole::Midfielder => D1_4,
        PlayerRole::Defender => D0_4,
        PlayerRole::Goalkeeper => D0,
    }
}

fn threat_of(role: PlayerRole) -> (r: u64)
    ensures
        r == role_threat(role),
{
    match role {
        PlayerRole::Forward => D2_4,
        PlayerRole::Midfielder => D1_4,
        PlayerRole::Defender => D0_4,
        PlayerRole::Goalkeeper => D0,
    }
}

/// Who can be marked: an opponent other than the goalkeeper.
pub open spec fn can_be_marked(c: MarkCandidate, team: Team) -> bool {
    c.team != team && c.role != PlayerRole::Goalkeeper
}

/// The score of a candidate, lower for the more urgent: the distance to the zone less what makes
/// the opponent dangerous.
pub open spec fn mark_score<P: Fn(Real64, Real64) -> Real64, M: Fn(Real64, Real64) -> Real64>(
    plus: P,
    times: M,
    c: MarkCandidate,
) -> Real64 {
    let near_goal = outcome(
        times,
        larger(outcome(plus, num(D70), c.goal_distance.negated()), num(D0)),
        num(D0_025),
    );
    let less_role = outcome(plus, c.zone_distance, num(role_threat(c.role)).negated());
    let less_ball = outcome(
        plus,
        less_role,
        num(
            if c.holds_ball {
                D5
            } else {
                D0
            },
        ).negated(),
    );
    let less_lane = outcome(
        plus,
        less_ball,
        num(
            if c.lane_open {
                D1_2
            } else {
                D0
            },
        ).negated(),
    );
    outcome(plus, less_lane, near_goal.negated())
}

fn score_mark<P: Fn(Real64, Real64) -> Real64, M: Fn(Real64, Real64) -> Real64>(
    c: &MarkCandidate,
    plus: &P,
    times: &M,
) -> (r: Real64)
    requires
        is_operation(*plus),
        is_operation(*times),
    ensures
        r == mark_score(*plus, *times, *c),
{
    let room: Real64 = larger_of(
        apply(plus, at_bits(D70), c.goal_distance.negate()),
        at_bits(D0),
    );
    let near_goal: Real64 = apply(times, room, at_bits(D0_025));
    let less_role: Real64 = apply(plus, c.zone_distance, at_bits(threat_of(c.role)).negate());
    let ball: u64 = if c.holds_ball { D5 } else { D0 };
    let less_ball: Real64 = apply(plus, less_role, at_bits(ball).negate());
    let lane: u64 = if c.lane_open { D1_2 } else { D0 };
    let less_lane: Real64 = apply(plus, less_ball, at_bits(lane).negate());
    apply(plus, less_lane, near_goal.negate())
}

/// The most urgent of the first `n` candidates, the first of several, and the score to beat.
pub open spec fn most_urgent<P: Fn(Real64, Real64) -> Real64, M: Fn(Real64, Real64) -> Real64>(
    plus: P,
    times: M,
    candidates: Seq<MarkCandidate>,
    team: Team,
    n: int,
) -> (Option<int>, Real64)
    decreases n,
{
    if n <= 0 {
        (None, num(INFINITY_BITS))
    } else {
        let best = most_urgent(plus, times, candidates, team, n - 1);
        let c = candidates[n - 1];
        if can_be_marked(c, team) && mark_score(plus, times, c).less(best.1) {
            (Some(n - 1), mark_score(plus, times, c))
        } else {
            best
        }
    }
}

/// Finds the most urgent candidate.
pub fn find_mark<P: Fn(Real64, Real64) -> Real64, M: Fn(Real64, Real64) -> Real64>(
    candidates: &Vec<MarkCandidate>,
    team: Team,
    plus: &P,
    times: &M,
) -> (r: (Option<usize>, Real64))
    requires
        is_operation(*plus),
        is_operation(*times),
    ensures
        ({
            let best = most_urgent(*plus, *times, candidates@, team, candidates@.len() as int);
            &&& r.1 == best.1
            &&& r.0 is Some <==> best.0 is Some
            &&& r.0 matches Some(i) ==> i == best.0->0 && i < candidates@.len()
        }),
{
    let mut best: Option<usize> = None;
    let mut score: Real64 = at_bits(INFINITY_BITS);
    let mut i: usize = 0;
    while i < candidates.len()
        invariant
            i <= candidates@.len(),
            is_operation(*plus),
            is_operation(*times),
            ({
                let so_far = most_urgent(*plus, *times, candidates@, team, i as int);
                &&& score == so_far.1
                &&& best is Some <==> so_far.0 is Some
                &&& best matches Some(k) ==> k == so_far.0->0 && k < i
            }),
        decreases candidates@.len() - i,
    {
        let c: MarkCandidate = candidates[i];
        if c.team != team && c.role != PlayerRole::Goalkeeper {
            let s: Real64 = score_mark(&c, plus, times);
            if s.is_below(score) {
                best = Some(i);
                score = s;
            }
        }
        i += 1;
    }
    (best, score)
}

/// No candidate that can be marked is more urgent than the one found.
pub proof fn the_mark_is_most_urgent<
    P: Fn(Real64, Real64) -> Real64,
    M: Fn(Real64, Real64) -> Real64,
>(plus: P, times: M, candidates: Seq<MarkCandidate>, team: Team, n: int, i: int)
    requires
        0 <= i < n <= candidates.len(),
        can_be_marked(candidates[i], team),
    ensures
        ({
            let best = most_urgent(plus, times, candidates, team, n);
            &&& !mark_score(plus, times, candidates[i]).less(best.1)
            &&& !best.1.nan()
        }),
    decreases n,
{
    mark_scores_are_numbers(plus, times, candidates, team, n - 1);
    if i < n - 1 {
        the_mark_is_most_urgent(plus, times, candidates, team, n - 1, i);
    }
}

proof fn mark_scores_are_numbers<
    P: Fn(Real64, Real64) -> Real64,
    M: Fn(Real64, Real64) -> Real64,
>(plus: P, times: M, candidates: Seq<MarkCandidate>, team: Team, n: int)
    requires
        n <= candidates.len(),
    ensures
        !most_urgent(plus, times, candidates, team, n).1.nan(),
    decreases n,
{
    if n > 0 {
        mark_scores_are_numbers(plus, times, candidates, team, n - 1);
    }
}

/// A defender looks for the arrival of a cross: a defender or midfielder, while the opponents
/// control the ball, play down a flank, and have it wide.
pub open spec fn awaits_cross(
    defender_role: PlayerRole,
    controlled: Option<Team>,
    team: Team,
    policy: FlankAttackPolicy,
    lane_score: Real64,
) -> bool {
    &&& defender_role == PlayerRole::Defender || defender_role == PlayerRole::Midfielder
    &&& controlled == Some(team.opponent())
    &&& policy != FlankAttackPolicy::NoFlank
    &&& !lane_score.less(num(D0_42))
}

pub fn looks_for_cross(
    defender_role: PlayerRole,
    controlled: Option<Team>,
    team: Team,
    policy: FlankAttackPolicy,
    lane_score: Real64,
) -> (r: bool)
    ensures
        r == awaits_cross(defender_role, controlled, team, policy, lane_score),
{
    let theirs: bool = match controlled {
        Some(t) => t != team,
        None => false,
    };
    (defender_role == PlayerRole::Defender || defender_role == PlayerRole::Midfielder) && theirs
        && policy.is_flank() && !lane_score.is_below(at_bits(D0_42))
}

/// How far from an arrival a defender stands, towards the own goal.
pub open spec fn cross_standoff(defender_role: PlayerRole, high: bool) -> u64 {
    match defender_role {
        PlayerRole::Defender => if high {
            D1_8
        } else {
            D2_2
        },
        PlayerRole::Midfielder => D3,
        PlayerRole::Forward => D4,
        PlayerRole::Goalkeeper => D4,
    }
}

pub fn cross_mark_distance(defender_role: PlayerRole, high: bool) -> (r: Real64)
    ensures
        r == num(cross_standoff(defender_role, high)),
{
    at_bits(
        match defender_role {
            PlayerRole::Defender => if high {
                D1_8
            } else {
                D2_2
            },
            PlayerRole::Midfielder => D3,
            PlayerRole::Forward => D4,
            PlayerRole::Goalkeeper => D4,
        },
    )
}

/// The half-width of the lane that a cross needs.
pub fn cross_lane_width(high: bool) -> (r: Real64)
    ensures
        r == num(
            if high {
                D1_2
            } else {
                D2_1
            },
        ),
{
    at_bits(if high { D1_2 } else { D2_1 })
}

/// A runner who may arrive at a cross, with what was measured of the arrival.
#[derive(Clone, Copy, Debug, PartialEq, Eq, Structural)]
pub struct CrossRunner {
    pub team: Team,
    pub role: PlayerRole,
    pub arrival: Option<CrossArrival>,
}

#[derive(Clone, Copy, Debug, PartialEq, Eq, Structural)]
pub struct CrossArrival {
    /// Where the defender would stand.
    pub coverage: Vec2,
    pub arrival_x: Real64,
    pub coverage_distance: Real64,
    pub goal_distance: Real64,
    pub runner_distance: Real64,
    pub lane_open: bool,
}

/// The runner counts: a forward or midfielder of the opponents, arriving near the goal.
pub open spec fn may_arrive(runner: CrossRunner, team: Team) -> bool {
    &&& runner.team != team
    &&& runner.role == PlayerRole::Forward || runner.role == PlayerRole::Midfielder
    &&& runner.arrival matches Some(a) && !num(D24).less(a.goal_distance)
}

/// How dangerous a role is at a cross.
pub open spec fn cross_role_threat(role: PlayerRole) -> u64 {
    match role {
        PlayerRole::Forward => D3,
        PlayerRole::Midfielder => D1_65,
        PlayerRole::Defender => D0_45,
        PlayerRole::Goalkeeper => D0,
    }
}

/// How well a cross suits a role.
pub open spec fn policy_threat(role: PlayerRole, high: bool) -> u64 {
    match role {
        PlayerRole::Forward => if high {
            D1_15
        } else {
            D0_78
        },
        PlayerRole::Midfielder => if high {
            D0_62
        } else {
            D0_9
        },
        _ => D0,
    }
}

/// How well a defender's role suits covering a cross.
pub open spec fn coverage_fit(defender_role: PlayerRole) -> u64 {
    match defender_role {
        PlayerRole::Defender => D1_1,
        PlayerRole::Midfielder => D0_52,
        PlayerRole::Forward => D0,
        PlayerRole::Goalkeeper => D0,
    }
}

/// How dangerous the lane of a cross is.
pub open spec fn lane_threat(open: bool, high: bool) -> u64 {
    if open {
        D1_35
    } else if high {
        D0_55
    } else {
        DM0_18
    }
}

/// What is left of a range, as a part of it, between 0 and 1.
pub open spec fn part_left<P: Fn(Real64, Real64) -> Real64, Q: Fn(Real64, Real64) -> Real64>(
    plus: P,
    over: Q,
    range: u64,
    used: Real64,
) -> Real64 {
    clamped_to(
        outcome(over, outcome(plus, num(range), used.negated()), num(range)),
        num(D0),
        num(D1),
    )
}

/// How central a point is, 1 in the middle of the pitch.
pub open spec fn centrality_of<P: Fn(Real64, Real64) -> Real64, Q: Fn(Real64, Real64) -> Real64>(
    plus: P,
    over: Q,
    x: Real64,
    center_x: Real64,
) -> Real64 {
    clamped_to(
        outcome(
            plus,
            num(D1),
            outcome(
                over,
                outcome(plus, x, center_x.negated()).absolute(),
                larger(center_x, num(D1)),
            ).negated(),
        ),
        num(D0),
        num(D1),
    )
}

/// The score of covering an arrival, lower for the more urgent.
pub open spec fn cross_score<
    P: Fn(Real64, Real64) -> Real64,
    M: Fn(Real64, Real64) -> Real64,
    Q: Fn(Real64, Real64) -> Real64,
>(
    plus: P,
    times: M,
    over: Q,
    runner_role: PlayerRole,
    a: CrossArrival,
    defender_role: PlayerRole,
    high: bool,
    center_x: Real64,
) -> Real64 {
    let way = outcome(
        plus,
        outcome(times, a.coverage_distance, num(D0_76)),
        outcome(times, a.runner_distance, num(D0_055)),
    );
    let s1 = outcome(plus, way, num(cross_role_threat(runner_role)).negated());
    let s2 = outcome(plus, s1, num(policy_threat(runner_role, high)).negated());
    let s3 = outcome(plus, s2, num(coverage_fit(defender_role)).negated());
    let s4 = outcome(plus, s3, num(lane_threat(a.lane_open, high)).negated());
    let s5 = outcome(
        plus,
        s4,
        outcome(times, centrality_of(plus, over, a.arrival_x, center_x), num(D0_48)).negated(),
    );
    let s6 = outcome(
        plus,
        s5,
        outcome(times, part_left(plus, over, D24, a.goal_distance), num(D1_25)).negated(),
    );
    outcome(
        plus,
        s6,
        outcome(times, part_left(plus, over, D18, a.runner_distance), num(D0_55)).negated(),
    )
}

fn score_cross<
    P: Fn(Real64, Real64) -> Real64,
    M: Fn(Real64, Real64) -> Real64,
    Q: Fn(Real64, Real64) -> Real64,
>(
    runner_role: PlayerRole,
    a: &CrossArrival,
    defender_role: PlayerRole,
    high: bool,
    center_x: Real64,
    plus: &P,
    times: &M,
    over: &Q,
) -> (r: Real64)
    requires
        is_operation(*plus),
        is_operation(*times),
        is_operation(*over),
    ensures
        r == cross_score(
            *plus,
            *times,
            *over,
            runner_role,
            *a,
            defender_role,
            high,
            center_x,
        ),
{
    let threat: u64 = match runner_role {
        PlayerRole::Forward => D3,
        PlayerRole::Midfielder => D1_65,
        PlayerRole::Defender => D0_45,
        PlayerRole::Goalkeeper => D0,
    };
    let suits: u64 = match runner_role {
        PlayerRole::Forward => if high {
            D1_15
        } else {
            D0_78
        },
        PlayerRole::Midfielder => if high {
            D0_62
        } else {
            D0_9
        },
        _ => D0,
    };
    let fit: u64 = match defender_role {
        PlayerRole::Defender => D1_1,
        PlayerRole::Midfielder => D0_52,
        PlayerRole::Forward => D0,
        PlayerRole::Goalkeeper => D0,
    };
    let lane: u64 = if a.lane_open {
        D1_35
    } else if high {
        D0_55
    } else {
        DM0_18
    };
    let from_center: Real64 = apply(plus, a.arrival_x, center_x.negate()).abs();
    let share: Real64 = apply(over, from_center, larger_of(center_x, at_bits(D1)));
    let central: Real64 = clamp_to(
        apply(plus, at_bits(D1), share.negate()),
        at_bits(D0),
        at_bits(D1),
    );
    let goal_left: Real64 = apply(plus, at_bits(D24), a.goal_distance.negate());
    let goalmouth: Real64 = clamp_to(
        apply(over, goal_left, at_bits(D24)),
        at_bits(D0),
        at_bits(D1),
    );
    let run_left: Real64 = apply(plus, at_bits(D18), a.runner_distance.negate());
    let committed: Real64 = clamp_to(
        apply(over, run_left, at_bits(D18)),
        at_bits(D0),
        at_bits(D1),
    );
    let way: Real64 = apply(
        plus,
        apply(times, a.coverage_distance, at_bits(D0_76)),
        apply(times, a.runner_distance, at_bits(D0_055)),
    );
    let s1: Real64 = apply(plus, way, at_bits(threat).negate());
    let s2: Real64 = apply(plus, s1, at_bits(suits).negate());
    let s3: Real64 = apply(plus, s2, at_bits(fit).negate());
    let s4: Real64 = apply(plus, s3, at_bits(lane).negate());
    let s5: Real64 = apply(plus, s4, apply(times, central, at_bits(D0_48)).negate());
    let s6: Real64 = apply(plus, s5, apply(times, goalmouth, at_bits(D1_25)).negate());
    apply(plus, s6, apply(times, committed, at_bits(D0_55)).negate())
}

/// The most urgent arrival among the first `n` runners, the first of several, and the score to
/// beat.
pub open spec fn urgent_arrival<
    P: Fn(Real64, Real64) -> Real64,
    M: Fn(Real64, Real64) -> Real64,
    Q: Fn(Real64, Real64) -> Real64,
>(
    plus: P,
    times: M,
    over: Q,
    runners: Seq<CrossRunner>,
    team: Team,
    defender_role: PlayerRole,
    high: bool,
    center_x: Real64,
    n: int,
) -> (Option<Vec2>, Real64)
    decreases n,
{
    if n <= 0 {
        (None, num(INFINITY_BITS))
    } else {
        let best = urgent_arrival(
            plus,
            times,
            over,
            runners,
            team,
            defender_role,
            high,
            center_x,
            n - 1,
        );
        let runner = runners[n - 1];
        if may_arrive(runner, team) {
            let score = cross_score(
                plus,
                times,
                over,
                runner.role,
                runner.arrival->0,
                defender_role,
                high,
                center_x,
            );
            if score.less(best.1) {
                (Some(runner.arrival->0.coverage), score)
            } else {
                best
            }
        } else {
            best
        }
    }
}

/// The arrival of a cross that a defender covers, and its score.
pub open spec fn cross_choice<
    P: Fn(Real64, Real64) -> Real64,
    M: Fn(Real64, Real64) -> Real64,
    Q: Fn(Real64, Real64) -> Real64,
>(
    plus: P,
    times: M,
    over: Q,
    runners: Seq<CrossRunner>,
    team: Team,
    defender_role: PlayerRole,
    controlled: Option<Team>,
    policy: FlankAttackPolicy,
    lane_score: Real64,
    center_x: Real64,
) -> Option<(Vec2, Real64)> {
    let best = urgent_arrival(
        plus,
        times,
        over,
        runners,
        team,
        defender_role,
        policy == FlankAttackPolicy::PlayDownFlankHighCross,
        center_x,
        runners.len() as int,
    );
    if awaits_cross(defender_role, controlled, team, policy, lane_score) {
        match best.0 {
            Some(target) => Some((target, best.1)),
            None => None,
        }
    } else {
        None
    }
}

/// Finds the arrival of a cross that a defender covers, and its score.
pub fn soccer_defensive_cross_arrival_mark_target<
    P: Fn(Real64, Real64) -> Real64,
    M: Fn(Real64, Real64) -> Real64,
    Q: Fn(Real64, Real64) -> Real64,
>(
    runners: &Vec<CrossRunner>,
    team: Team,
    defender_role: PlayerRole,
    controlled: Option<Team>,
    policy: FlankAttackPolicy,
    lane_score: Real64,
    center_x: Real64,
    plus: &P,
    times: &M,
    over: &Q,
) -> (r: Option<(Vec2, Real64)>)
    requires
        is_operation(*plus),
        is_operation(*times),
        is_operation(*over),
    ensures
        r == cross_choice(
            *plus,
            *times,
            *over,
            runners@,
            team,
            defender_role,
            controlled,
            policy,
            lane_score,
            center_x,
        ),
{
    if !looks_for_cross(defender_role, controlled, team, policy, lane_score) {
        return None;
    }
    let high: bool = policy.prefers_high_cross();
    let mut best: Option<Vec2> = None;
    let mut best_score: Real64 = at_bits(INFINITY_BITS);
    let mut i: usize = 0;
    while i < runners.len()
        invariant
            i <= runners@.len(),
            is_operation(*plus),
            is_operation(*times),
            is_operation(*over),
            high == (policy == FlankAttackPolicy::PlayDownFlankHighCross),
            (best, best_score) == urgent_arrival(
                *plus,
                *times,
                *over,
                runners@,
                team,
                defender_role,
                high,
                center_x,
                i as int,
            ),
        decreases runners@.len() - i,
    {
        let runner: CrossRunner = runners[i];
        if runner.team != team && (runner.role == PlayerRole::Forward || runner.role
            == PlayerRole::Midfielder) {
            if let Some(a) = runner.arrival {
                if !at_bits(D24).is_below(a.goal_distance) {
                    let score: Real64 = score_cross(
                        runner.role,
                        &a,
                        defender_role,
                        high,
                        center_x,
                        plus,
                        times,
                        over,
                    );
                    if score.is_below(best_score) {
                        best = Some(a.coverage);
                        best_score = score;
                    }
                }
            }
        }
        i += 1;
    }
    match best {
        Some(target) => Some((target, best_score)),
        None => None,
    }
}

/// By how much the arrival of a cross may be less urgent than a mark and still come first.
pub open spec fn cross_margin(defender_role: PlayerRole) -> u64 {
    match defender_role {
        PlayerRole::Defender => D3,
        PlayerRole::Midfielder => D1_8,
        PlayerRole::Forward => D0_6,
        PlayerRole::Goalkeeper => D0,
    }
}

/// How far from the marked opponent a defender stands, towards the own goal.
pub open spec fn standoff(
    defender_role: PlayerRole,
    mark_role: PlayerRole,
    press_midfielder: Real64,
) -> Real64 {
    match defender_role {
        PlayerRole::Defender => if mark_role == PlayerRole::Midfielder {
            press_midfielder
        } else {
            num(D2_4)
        },
        PlayerRole::Midfielder => num(D3_4),
        PlayerRole::Forward => num(D4_8),
        PlayerRole::Goalkeeper => num(D1),
    }
}

/// What a defender does.
#[derive(Clone, Copy, Debug, PartialEq, Eq, Structural)]
pub enum MarkDecision {
    /// There is nobody to mark.
    Nobody,
    /// Covers the arrival of a cross at this place.
    Cross(Vec2),
    /// Marks the opponent at this place from so far away, on the side of the own goal.
    Mark { position: Vec2, standoff: Real64 },
}

/// The decision between a mark and a cross.
pub open spec fn decided<P: Fn(Real64, Real64) -> Real64>(
    plus: P,
    mark: Option<(Vec2, PlayerRole)>,
    mark_score: Real64,
    cross: Option<(Vec2, Real64)>,
    defender_role: PlayerRole,
    press_midfielder: Real64,
) -> MarkDecision {
    let cross_first = cross matches Some((_, score)) && (mark is None || reaches(
        score,
        outcome(plus, mark_score, num(cross_margin(defender_role))),
    ));
    if cross_first {
        MarkDecision::Cross((cross->0).0)
    } else {
        match mark {
            Some((position, role)) => MarkDecision::Mark {
                position,
                standoff: standoff(defender_role, role, press_midfielder),
            },
            None => MarkDecision::Nobody,
        }
    }
}

/// The number is at most another.
pub open spec fn reaches(a: Real64, b: Real64) -> bool {
    !a.nan() && !b.nan() && a.key() <= b.key()
}

/// Whom a defender marks.
pub open spec fn mark_choice<P: Fn(Real64, Real64) -> Real64, M: Fn(Real64, Real64) -> Real64>(
    plus: P,
    times: M,
    candidates: Seq<MarkCandidate>,
    team: Team,
    defender_role: PlayerRole,
    cross: Option<(Vec2, Real64)>,
    press_midfielder: Real64,
) -> MarkDecision {
    let best = most_urgent(plus, times, candidates, team, candidates.len() as int);
    let mark = match best.0 {
        Some(i) => Some((candidates[i].position, candidates[i].role)),
        None => None,
    };
    decided(plus, mark, best.1, cross, defender_role, press_midfielder)
}

/// Decides whom a defender marks.
pub fn soccer_defensive_mark_target<
    P: Fn(Real64, Real64) -> Real64,
    M: Fn(Real64, Real64) -> Real64,
>(
    candidates: &Vec<MarkCandidate>,
    team: Team,
    defender_role: PlayerRole,
    cross: Option<(Vec2, Real64)>,
    press_midfielder: Real64,
    plus: &P,
    times: &M,
) -> (r: MarkDecision)
    requires
        is_operation(*plus),
        is_operation(*times),
    ensures
        r == mark_choice(
            *plus,
            *times,
            candidates@,
            team,
            defender_role,
            cross,
            press_midfielder,
        ),
{
    let (best, best_score): (Option<usize>, Real64) = find_mark(candidates, team, plus, times);
    if let Some((place, score)) = cross {
        let margin: u64 = match defender_role {
            PlayerRole::Defender => D3,
            PlayerRole::Midfielder => D1_8,
            PlayerRole::Forward => D0_6,
            PlayerRole::Goalkeeper => D0,
        };
        let limit: Real64 = apply(plus, best_score, at_bits(margin));
        if best.is_none() || (!score.is_nan() && !limit.is_nan() && score.order_key()
            <= limit.order_key()) {
            return MarkDecision::Cross(place);
        }
    }
    match best {
        Some(i) => {
            let mark: MarkCandidate = candidates[i];
            let standoff: Real64 = match defender_role {
                PlayerRole::Defender => if mark.role == PlayerRole::Midfielder {
                    press_midfielder
                } else {
                    at_bits(D2_4)
                },
                PlayerRole::Midfielder => at_bits(D3_4),
                PlayerRole::Forward => at_bits(D4_8),
                PlayerRole::Goalkeeper => at_bits(D1),
            };
            MarkDecision::Mark { position: mark.position, standoff }
        },
        None => MarkDecision::Nobody,
    }
}

/// How urgent a mark is, the less the more: the distance, less what the role threatens, less 5 for
/// whoever has the ball, less 1.2 for an open line to goal, less a fortieth of every yard that the
/// goal is nearer than 70.
pub proof fn marks_are_urgent_near_the_goal<
    P: Fn(Real64, Real64) -> Real64,
    M: Fn(Real64, Real64) -> Real64,
>(
    means: spec_fn(Real64, real) -> bool,
    plus: P,
    times: M,
    c: MarkCandidate,
    zone: real,
    goal: real,
)
    requires
        is_faithful(means, plus, times),
        means(c.zone_distance, zone),
        means(c.goal_distance, goal),
    ensures
        ({
            let role = c.role;
            let threat = match role {
                PlayerRole::Forward => (12real / 5real),
                PlayerRole::Midfielder => (7real / 5real),
                PlayerRole::Defender => (2real / 5real),
                PlayerRole::Goalkeeper => 0real,
            };
            let ball = if c.holds_ball {
                5real
            } else {
                0real
            };
            let lane = if c.lane_open {
                (6real / 5real)
            } else {
                0real
            };
            means(
                mark_score(plus, times, c),
                zone - threat - ball - lane - most(70real - goal, 0real) * (1real / 40real),
            )
        }),
{
    decimals_are_read(means);
    let role = c.role;
    let threat = match role {
        PlayerRole::Forward => (12real / 5real),
        PlayerRole::Midfielder => (7real / 5real),
        PlayerRole::Defender => (2real / 5real),
        PlayerRole::Goalkeeper => 0real,
    };
    let ball = if c.holds_ball {
        5real
    } else {
        0real
    };
    let lane = if c.lane_open {
        (6real / 5real)
    } else {
        0real
    };
    assert(70real + -goal == 70real - goal);
    let near = most(70real - goal, 0real) * (1real / 40real);
    let a = num(role_threat(c.role));
    assert(means(a, threat));
    assert(means(a.negated(), -threat));
    assert(zone + -threat == zone - threat);
    let s1 = outcome(plus, c.zone_distance, a.negated());
    assert(means(s1, zone - threat));
    let b = num(
        if c.holds_ball {
            D5
        } else {
            D0
        },
    );
    assert(means(b, ball));
    assert(zone - threat + -ball == zone - threat - ball);
    let s2 = outcome(plus, s1, b.negated());
    assert(means(s2, zone - threat - ball));
    let d = num(
        if c.lane_open {
            D1_2
        } else {
            D0
        },
    );
    assert(means(d, lane));
    assert(zone - threat - ball + -lane == zone - threat - ball - lane);
    let s3 = outcome(plus, s2, d.negated());
    assert(means(s3, zone - threat - ball - lane));
    assert(zone - threat - ball - lane + -near == zone - threat - ball - lane - near);
}

/// What is left of a range, as a part, and how central a place is.
pub proof fn parts_are_left_of_ranges<
    P: Fn(Real64, Real64) -> Real64,
    Q: Fn(Real64, Real64) -> Real64,
>(
    means: spec_fn(Real64, real) -> bool,
    plus: P,
    over: Q,
    used: Real64,
    x: Real64,
    center_x: Real64,
    u: real,
    at: real,
    center: real,
)
    requires
        reads_sums(means, plus),
        reads_signs(means),
        reads_order(means),
        reads_decimals(means),
        reads_quotients(means, over),
        means(used, u),
        means(x, at),
        means(center_x, center),
    ensures
        means(part_left(plus, over, D24, used), bounded((24real - u) / 24real, 0real, 1real)),
        means(part_left(plus, over, D18, used), bounded((18real - u) / 18real, 0real, 1real)),
        means(
            centrality_of(plus, over, x, center_x),
            bounded(1real - size(at - center) / most(center, 1real), 0real, 1real),
        ),
{
    decimals_are_read(means);
    assert(24real + -u == 24real - u && 18real + -u == 18real - u);
    assert(at + -center == at - center);
    let s = size(at - center) / most(center, 1real);
    assert(most(center, 1real) != 0real);
    assert(1real + -s == 1real - s);
}

/// How urgent an arrival is, the less the more: 0.76 of the way to cover it and 0.055 of the
/// runner's way, less what runner, policy, defender and lane add, less 0.48 for a central place,
/// 1.25 near the goal and 0.55 for a runner nearby.
pub proof fn crosses_are_urgent_near_the_goal<
    P: Fn(Real64, Real64) -> Real64,
    M: Fn(Real64, Real64) -> Real64,
    Q: Fn(Real64, Real64) -> Real64,
>(
    means: spec_fn(Real64, real) -> bool,
    plus: P,
    times: M,
    over: Q,
    runner_role: PlayerRole,
    a: CrossArrival,
    defender_role: PlayerRole,
    high: bool,
    center_x: Real64,
    way: real,
    run: real,
    goal: real,
    at: real,
    center: real,
)
    requires
        is_faithful(means, plus, times),
        reads_quotients(means, over),
        means(a.coverage_distance, way),
        means(a.runner_distance, run),
        means(a.goal_distance, goal),
        means(a.arrival_x, at),
        means(center_x, center),
    ensures
        ({
            let threat = match runner_role {
                PlayerRole::Forward => 3real,
                PlayerRole::Midfielder => (33real / 20real),
                PlayerRole::Defender => (9real / 20real),
                PlayerRole::Goalkeeper => 0real,
            };
            let plan = match (runner_role, high) {
                (PlayerRole::Forward, true) => (23real / 20real),
                (PlayerRole::Forward, false) => (39real / 50real),
                (PlayerRole::Midfielder, true) => (31real / 50real),
                (PlayerRole::Midfielder, false) => (9real / 10real),
                _ => 0real,
            };
            let fit = match defender_role {
                PlayerRole::Defender => (11real / 10real),
                PlayerRole::Midfielder => (13real / 25real),
                _ => 0real,
            };
            let lane = if a.lane_open {
                (27real / 20real)
            } else if high {
                (11real / 20real)
            } else {
                (-(9real / 50real))
            };
            let middle = bounded(1real - size(at - center) / most(center, 1real), 0real, 1real);
            let close = bounded((24real - goal) / 24real, 0real, 1real);
            let nearby = bounded((18real - run) / 18real, 0real, 1real);
            means(
                cross_score(
                    plus,
                    times,
                    over,
                    runner_role,
                    a,
                    defender_role,
                    high,
                    center_x,
                ),
                way * (19real / 25real) + run * (11real / 200real) - threat - plan - fit - lane
                    - middle * (12real / 25real) - close
                    * (5real / 4real) - nearby * (11real / 20real),
            )
        }),
{
    decimals_are_read(means);
    parts_are_left_of_ranges(
        means,
        plus,
        over,
        a.goal_distance,
        a.arrival_x,
        center_x,
        goal,
        at,
        center,
    );
    parts_are_left_of_ranges(
        means,
        plus,
        over,
        a.runner_distance,
        a.arrival_x,
        center_x,
        run,
        at,
        center,
    );
    let threat = match runner_role {
        PlayerRole::Forward => 3real,
        PlayerRole::Midfielder => (33real / 20real),
        PlayerRole::Defender => (9real / 20real),
        PlayerRole::Goalkeeper => 0real,
    };
    let plan = match (runner_role, high) {
        (PlayerRole::Forward, true) => (23real / 20real),
        (PlayerRole::Forward, false) => (39real / 50real),
        (PlayerRole::Midfielder, true) => (31real / 50real),
        (PlayerRole::Midfielder, false) => (9real / 10real),
        _ => 0real,
    };
    let fit = match defender_role {
        PlayerRole::Defender => (11real / 10real),
        PlayerRole::Midfielder => (13real / 25real),
        _ => 0real,
    };
    let lane = if a.lane_open {
        (27real / 20real)
    } else if high {
        (11real / 20real)
    } else {
        (-(9real / 50real))
    };
    assert(means(num(cross_role_threat(runner_role)), threat));
    assert(means(num(policy_threat(runner_role, high)), plan));
    assert(means(num(coverage_fit(defender_role)), fit));
    assert(means(num(lane_threat(a.lane_open, high)), lane));
    let middle = bounded(1real - size(at - center) / most(center, 1real), 0real, 1real)
        * (12real / 25real);
    let close = bounded((24real - goal) / 24real, 0real, 1real) * (5real / 4real);
    let nearby = bounded((18real - run) / 18real, 0real, 1real) * (11real / 20real);
    let x0 = way * (19real / 25real) + run * (11real / 200real);
    let x1 = x0 - threat;
    let x2 = x1 - plan;
    let x3 = x2 - fit;
    let x4 = x3 - lane;
    let x5 = x4 - middle;
    let x6 = x5 - close;
    assert(x0 + -threat == x1 && x1 + -plan == x2 && x2 + -fit == x3 && x3 + -lane == x4);
    assert(x4 + -middle == x5 && x5 + -close == x6 && x6 + -nearby == x6 - nearby);
    let n0 = outcome(
        plus,
        outcome(times, a.coverage_distance, num(D0_76)),
        outcome(times, a.runner_distance, num(D0_055)),
    );
    assert(means(n0, x0));
    let n1 = outcome(plus, n0, num(cross_role_threat(runner_role)).negated());
    assert(means(n1, x1));
    let n2 = outcome(plus, n1, num(policy_threat(runner_role, high)).negated());
    assert(means(n2, x2));
    let n3 = outcome(plus, n2, num(coverage_fit(defender_role)).negated());
    assert(means(n3, x3));
    let n4 = outcome(plus, n3, num(lane_threat(a.lane_open, high)).negated());
    assert(means(n4, x4));
}

/// How far a marker stands off, and by how much a cross may be less urgent and still come first.
pub proof fn markers_stand_off_by_role(
    means: spec_fn(Real64, real) -> bool,
    defender_role: PlayerRole,
    mark_role: PlayerRole,
    press_midfielder: Real64,
    p: real,
)
    requires
        reads_signs(means),
        reads_order(means),
        reads_decimals(means),
        means(press_midfielder, p),
    ensures
        means(
            standoff(defender_role, mark_role, press_midfielder),
            match defender_role {
                PlayerRole::Defender => if mark_role == PlayerRole::Midfielder {
                    p
                } else {
                    (12real / 5real)
                },
                PlayerRole::Midfielder => (17real / 5real),
                PlayerRole::Forward => (24real / 5real),
                PlayerRole::Goalkeeper => 1real,
            },
        ),
        means(
            num(cross_margin(defender_role)),
            match defender_role {
                PlayerRole::Defender => 3real,
                PlayerRole::Midfielder => (9real / 5real),
                PlayerRole::Forward => (3real / 5real),
                PlayerRole::Goalkeeper => 0real,
            },
        ),
{
    decimals_are_read(means);
}

/// A cross comes first where it is urgent enough, and the more urgent it is the more so: the margin
/// by which it may lie behind the mark is widest for defenders, narrower for midfielders and
/// forwards, and none for the goalkeeper. Without a mark every cross comes first.
pub proof fn urgent_crosses_come_first<P: Fn(Real64, Real64) -> Real64>(
    plus: P,
    mark: Option<(Vec2, PlayerRole)>,
    mark_score: Real64,
    place: Vec2,
    score: Real64,
    more_urgent: Real64,
    role: PlayerRole,
    press: Real64,
)
    requires
        !more_urgent.nan(),
        more_urgent.key() <= score.key(),
    ensures
        decided(plus, mark, mark_score, Some((place, score)), role, press) is Cross ==> decided(
            plus,
            mark,
            mark_score,
            Some((place, more_urgent)),
            role,
            press,
        ) == MarkDecision::Cross(place),
        decided(plus, None, mark_score, Some((place, score)), role, press) == MarkDecision::Cross(
            place,
        ),
        decided(plus, mark, mark_score, None, role, press) !is Cross,
        num(cross_margin(PlayerRole::Defender)).key() > num(
            cross_margin(PlayerRole::Midfielder),
        ).key() > num(cross_margin(PlayerRole::Forward)).key() > num(
            cross_margin(PlayerRole::Goalkeeper),
        ).key(),
        cross_margin(PlayerRole::Goalkeeper) == D0,
{
}

/// Forwards are more of a threat than midfielders, and those more than defenders.
pub proof fn forwards_threaten_most()
    ensures
        num(role_threat(PlayerRole::Forward)).key() > num(
            role_threat(PlayerRole::Midfielder),
        ).key() > num(role_threat(PlayerRole::Defender)).key() > num(
            role_threat(PlayerRole::Goalkeeper),
        ).key(),
{
}

} // verus!
