//! Where a defender stands to mark from a zone: the opponents and the arrivals of a cross as they
//! are seen on the pitch, and the place that the decision leads to.
use crate::decimals::{D0_5, D1_2, D2_1, D2_4};
use crate::formation::tick::TickFrame;
use crate::geometry::{
    distance_of, find_middle, find_way, head_for, heading_of, is_distance, is_heading, join, joined,
    keep_in, kept_in, measure, middle, place_or, stretch, stretched, take_place, way,
};
use crate::marking::{
    cross_choice, cross_lane_width, cross_mark_distance, cross_standoff, mark_choice,
    soccer_defensive_cross_arrival_mark_target, soccer_defensive_mark_target, CrossArrival,
    CrossRunner, MarkCandidate, MarkDecision,
};
use crate::meaning::{bounded, decimals_are_read, is_faithful, stands_at};
use crate::number::{apply, at_bits, is_operation, num, outcome, Real64};
use crate::pitch::{PlayerRole, Team, Vec2};
use crate::strategy::FlankAttackPolicy;
use vstd::prelude::*;

verus! {

/// What the reading of the flanks gives at a place.
pub open spec fn flank_at<F: Fn(Vec2) -> Real64>(flank: F, place: Vec2) -> Real64 {
    choose|r: Real64| call_ensures(flank, (place,), r)
}

/// The flanks can be read at all places, and the reading depends on nothing else.
pub open spec fn is_flank_reading<F: Fn(Vec2) -> Real64>(flank: F) -> bool {
    &&& forall|place: Vec2| #[trigger] call_requires(flank, (place,))
    &&& forall|place: Vec2, r: Real64| #[trigger]
        call_ensures(flank, (place,), r) ==> r == flank_at(flank, place)
}

/// Whether a line of a half-width is clear of a team.
pub open spec fn clear_between<K: Fn(Team, Vec2, Vec2, Real64) -> bool>(
    clear: K,
    team: Team,
    from: Vec2,
    to: Vec2,
    half_width: Real64,
) -> bool {
    choose|r: bool| call_ensures(clear, (team, from, to, half_width), r)
}

/// All lines can be asked about, and the answer depends on nothing else.
pub open spec fn is_clearance<K: Fn(Team, Vec2, Vec2, Real64) -> bool>(clear: K) -> bool {
    &&& forall|team: Team, from: Vec2, to: Vec2, w: Real64| #[trigger]
        call_requires(clear, (team, from, to, w))
    &&& forall|team: Team, from: Vec2, to: Vec2, w: Real64, r: bool| #[trigger]
        call_ensures(clear, (team, from, to, w), r) ==> r == clear_between(clear, team, from, to, w)
}

fn look_along<K: Fn(Team, Vec2, Vec2, Real64) -> bool>(
    clear: &K,
    team: Team,
    from: Vec2,
    to: Vec2,
    half_width: Real64,
) -> (r: bool)
    requires
        is_clearance(*clear),
    ensures
        r == clear_between(*clear, team, from, to, half_width),
{
    let r: bool = clear(team, from, to, half_width);
    assert(call_ensures(*clear, (team, from, to, half_width), r));
    r
}

/// An opponent as seen on the pitch, with where a cross would reach this one.
#[derive(Clone, Copy, Debug, PartialEq, Eq, Structural)]
pub struct SeenOpponent {
    pub id: usize,
    pub team: Team,
    pub role: PlayerRole,
    /// Where the player was last seen.
    pub seen: Vec2,
    pub position: Vec2,
    pub arrival: Option<Vec2>,
}

/// What a marking decision follows from.
#[derive(Clone, Copy, Debug)]
pub struct MarkSituation {
    pub team: Team,
    pub frame: TickFrame,
    pub own_goal_y: Real64,
    pub holder: Option<usize>,
    pub ball: Vec2,
    /// Who has the ball under control.
    pub controlled: Option<Team>,
    /// How the opponents attack along the flanks.
    pub policy: FlankAttackPolicy,
    /// How far from a midfielder a defender presses.
    pub press_midfielder: Real64,
}

impl MarkSituation {
    pub open spec fn own_goal<M: Fn(Real64, Real64) -> Real64>(self, times: M) -> Vec2 {
        Vec2 { x: outcome(times, self.frame.width, num(D0_5)), y: self.own_goal_y }
    }

    fn find_own_goal<M: Fn(Real64, Real64) -> Real64>(&self, times: &M) -> (r: Vec2)
        requires
            is_operation(*times),
        ensures
            r == self.own_goal(*times),
    {
        Vec2 { x: apply(times, self.frame.width, at_bits(D0_5)), y: self.own_goal_y }
    }

    /// The opponents cross high.
    pub open spec fn high(self) -> bool {
        self.policy == FlankAttackPolicy::PlayDownFlankHighCross
    }
}

/// The first of the opponents from `i` on who holds the ball.
pub open spec fn holder_among(
    players: Seq<SeenOpponent>,
    id: usize,
    team: Team,
    i: int,
) -> Option<Vec2>
    decreases players.len() - i,
{
    if i < 0 || i >= players.len() {
        None
    } else if players[i].id == id && players[i].team == team.opponent() {
        Some(players[i].seen)
    } else {
        holder_among(players, id, team, i + 1)
    }
}

/// From where the opponents would cross: their ball holder, else the ball.
pub open spec fn crosser_for(s: MarkSituation, players: Seq<SeenOpponent>) -> Vec2 {
    match s.holder {
        Some(id) => match holder_among(players, id, s.team, 0) {
            Some(place) => place,
            None => s.ball,
        },
        None => s.ball,
    }
}

fn find_crosser_for(s: &MarkSituation, players: &Vec<SeenOpponent>) -> (r: Vec2)
    ensures
        r == crosser_for(*s, players@),
{
    let id: usize = match s.holder {
        Some(id) => id,
        None => {
            return s.ball;
        },
    };
    let mut i: usize = 0;
    while i < players.len()
        invariant
            i <= players@.len(),
            s.holder == Some(id),
            holder_among(players@, id, s.team, 0) == holder_among(players@, id, s.team, i as int),
        decreases players@.len() - i,
    {
        if players[i].id == id && players[i].team == s.team.other() {
            return players[i].seen;
        }
        i += 1;
    }
    s.ball
}

/// An opponent as a marker sees it from a zone.
pub open spec fn candidate_of<
    M: Fn(Real64, Real64) -> Real64,
    D: Fn(Vec2, Vec2) -> Real64,
    K: Fn(Team, Vec2, Vec2, Real64) -> bool,
>(
    times: M,
    distance: D,
    clear: K,
    s: MarkSituation,
    zone: Vec2,
    o: SeenOpponent,
) -> MarkCandidate {
    let place = place_or(o.seen, s.frame.width, s.frame.length, o.position);
    MarkCandidate {
        team: o.team,
        role: o.role,
        position: place,
        holds_ball: s.holder == Some(o.id),
        lane_open: clear_between(clear, s.team, place, s.own_goal(times), num(D2_4)),
        zone_distance: distance_of(distance, place, zone),
        goal_distance: distance_of(distance, place, s.own_goal(times)),
    }
}

/// A place so far from another, towards the own goal.
pub open spec fn goal_side_of<
    P: Fn(Real64, Real64) -> Real64,
    M: Fn(Real64, Real64) -> Real64,
    U: Fn(Vec2) -> Vec2,
>(plus: P, times: M, unit: U, s: MarkSituation, from: Vec2, standoff: Real64) -> Vec2 {
    kept_in(
        joined(
            plus,
            from,
            stretched(times, heading_of(unit, way(plus, from, s.own_goal(times))), standoff),
        ),
        s.frame.width,
        s.frame.length,
    )
}

fn find_goal_side<
    P: Fn(Real64, Real64) -> Real64,
    M: Fn(Real64, Real64) -> Real64,
    U: Fn(Vec2) -> Vec2,
>(
    s: &MarkSituation,
    from: Vec2,
    standoff: Real64,
    plus: &P,
    times: &M,
    unit: &U,
) -> (r: Vec2)
    requires
        is_operation(*plus),
        is_operation(*times),
        is_heading(*unit),
    ensures
        r == goal_side_of(*plus, *times, *unit, *s, from, standoff),
{
    let side: Vec2 = head_for(unit, find_way(from, s.find_own_goal(times), plus));
    keep_in(
        join(from, stretch(side, standoff, times), plus),
        s.frame.width,
        s.frame.length,
    )
}

/// What is measured of an opponent's arrival at a cross.
pub open spec fn runner_of<
    P: Fn(Real64, Real64) -> Real64,
    M: Fn(Real64, Real64) -> Real64,
    D: Fn(Vec2, Vec2) -> Real64,
    U: Fn(Vec2) -> Vec2,
    K: Fn(Team, Vec2, Vec2, Real64) -> bool,
>(
    plus: P,
    times: M,
    distance: D,
    unit: U,
    clear: K,
    s: MarkSituation,
    defender_role: PlayerRole,
    zone: Vec2,
    crosser: Vec2,
    o: SeenOpponent,
) -> CrossRunner {
    CrossRunner {
        team: o.team,
        role: o.role,
        arrival: match o.arrival {
            Some(a) => {
                let arrival = place_or(a, s.frame.width, s.frame.length, a);
                let coverage = goal_side_of(
                    plus,
                    times,
                    unit,
                    s,
                    arrival,
                    num(cross_standoff(defender_role, s.high())),
                );
                Some(
                    CrossArrival {
                        coverage,
                        arrival_x: arrival.x,
                        coverage_distance: distance_of(distance, coverage, zone),
                        goal_distance: distance_of(distance, arrival, s.own_goal(times)),
                        runner_distance: distance_of(distance, o.seen, arrival),
                        lane_open: clear_between(
                            clear,
                            s.team,
                            crosser,
                            arrival,
                            num(
                                if s.high() {
                                    D1_2
                                } else {
                                    D2_1
                                },
                            ),
                        ),
                    },
                )
            },
            None => None,
        },
    }
}

/// The place that a marking decision leads to.
pub open spec fn place_for<
    P: Fn(Real64, Real64) -> Real64,
    M: Fn(Real64, Real64) -> Real64,
    U: Fn(Vec2) -> Vec2,
>(plus: P, times: M, unit: U, s: MarkSituation, decision: MarkDecision) -> Option<Vec2> {
    match decision {
        MarkDecision::Nobody => None,
        MarkDecision::Cross(place) => Some(place),
        MarkDecision::Mark { position, standoff } => Some(
            goal_side_of(plus, times, unit, s, position, standoff),
        ),
    }
}

/// Where a defender stands to mark from a zone.
pub open spec fn marked_place<
    P: Fn(Real64, Real64) -> Real64,
    M: Fn(Real64, Real64) -> Real64,
    Q: Fn(Real64, Real64) -> Real64,
    D: Fn(Vec2, Vec2) -> Real64,
    U: Fn(Vec2) -> Vec2,
    K: Fn(Team, Vec2, Vec2, Real64) -> bool,
    F: Fn(Vec2) -> Real64,
>(
    plus: P,
    times: M,
    over: Q,
    distance: D,
    unit: U,
    clear: K,
    flank: F,
    s: MarkSituation,
    defender_role: PlayerRole,
    zone: Vec2,
    players: Seq<SeenOpponent>,
) -> Option<Vec2> {
    let from = place_or(
        zone,
        s.frame.width,
        s.frame.length,
        middle(times, s.frame.width, s.frame.length),
    );
    let crosser = crosser_for(s, players);
    let cross = cross_choice(
        plus,
        times,
        over,
        players.map_values(
            |o: SeenOpponent|
                runner_of(
                    plus,
                    times,
                    distance,
                    unit,
                    clear,
                    s,
                    defender_role,
                    from,
                    crosser,
                    o,
                ),
        ),
        s.team,
        defender_role,
        s.controlled,
        s.policy,
        flank_at(flank, crosser),
        outcome(times, s.frame.width, num(D0_5)),
    );
    place_for(
        plus,
        times,
        unit,
        s,
        mark_choice(
            plus,
            times,
            players.map_values(
                |o: SeenOpponent| candidate_of(times, distance, clear, s, from, o),
            ),
            s.team,
            defender_role,
            cross,
            s.press_midfielder,
        ),
    )
}

/// Finds where a defender stands to mark from a zone. `clear` tells whether a line of a half-width
/// is free of a team, `flank` how far out on the flank a place is.
pub fn find_marked_place<
    P: Fn(Real64, Real64) -> Real64,
    M: Fn(Real64, Real64) -> Real64,
    Q: Fn(Real64, Real64) -> Real64,
    D: Fn(Vec2, Vec2) -> Real64,
    U: Fn(Vec2) -> Vec2,
    K: Fn(Team, Vec2, Vec2, Real64) -> bool,
    F: Fn(Vec2) -> Real64,
>(
    s: &MarkSituation,
    defender_role: PlayerRole,
    zone: Vec2,
    players: &Vec<SeenOpponent>,
    plus: &P,
    times: &M,
    over: &Q,
    distance: &D,
    unit: &U,
    clear: &K,
    flank: &F,
) -> (r: Option<Vec2>)
    requires
        is_operation(*plus),
        is_operation(*times),
        is_operation(*over),
        is_distance(*distance),
        is_heading(*unit),
        is_clearance(*clear),
        is_flank_reading(*flank),
    ensures
        r == marked_place(
            *plus,
            *times,
            *over,
            *distance,
            *unit,
            *clear,
            *flank,
            *s,
            defender_role,
            zone,
            players@,
        ),
{
    let center: Vec2 = find_middle(s.frame.width, s.frame.length, times);
    let from: Vec2 = take_place(zone, s.frame.width, s.frame.length, center);
    let own_goal: Vec2 = s.find_own_goal(times);
    let crosser: Vec2 = find_crosser_for(s, players);
    let high: bool = s.policy.prefers_high_cross();
    let standoff: Real64 = cross_mark_distance(defender_role, high);
    let lane: Real64 = cross_lane_width(high);
    let ghost seen = players@.map_values(
        |o: SeenOpponent| candidate_of(*times, *distance, *clear, *s, from, o),
    );
    let ghost running = players@.map_values(
        |o: SeenOpponent|
            runner_of(
                *plus,
                *times,
                *distance,
                *unit,
                *clear,
                *s,
                defender_role,
                from,
                crosser,
                o,
            ),
    );
    let mut candidates: Vec<MarkCandidate> = Vec::new();
    let mut runners: Vec<CrossRunner> = Vec::new();
    let mut i: usize = 0;
    while i < players.len()
        invariant
            i <= players@.len(),
            is_operation(*plus),
            is_operation(*times),
            is_distance(*distance),
            is_heading(*unit),
            is_clearance(*clear),
            own_goal == s.own_goal(*times),
            high == s.high(),
            standoff == num(cross_standoff(defender_role, high)),
            lane == num(
                if high {
                    D1_2
                } else {
                    D2_1
                },
            ),
            seen == players@.map_values(
                |o: SeenOpponent| candidate_of(*times, *distance, *clear, *s, from, o),
            ),
            running == players@.map_values(
                |o: SeenOpponent|
                    runner_of(
                        *plus,
                        *times,
                        *distance,
                        *unit,
                        *clear,
                        *s,
                        defender_role,
                        from,
                        crosser,
                        o,
                    ),
            ),
            candidates@ == seen.take(i as int),
            runners@ == running.take(i as int),
        decreases players@.len() - i,
    {
        let o: SeenOpponent = players[i];
        let place: Vec2 = take_place(o.seen, s.frame.width, s.frame.length, o.position);
        let holder: bool = match s.holder {
            Some(id) => id == o.id,
            None => false,
        };
        let candidate: MarkCandidate = MarkCandidate {
            team: o.team,
            role: o.role,
            position: place,
            holds_ball: holder,
            lane_open: look_along(clear, s.team, place, own_goal, at_bits(D2_4)),
            zone_distance: measure(distance, place, from),
            goal_distance: measure(distance, place, own_goal),
        };
        let arrival: Option<CrossArrival> = match o.arrival {
            Some(a) => {
                let at: Vec2 = take_place(a, s.frame.width, s.frame.length, a);
                let coverage: Vec2 = find_goal_side(s, at, standoff, plus, times, unit);
                Some(
                    CrossArrival {
                        coverage,
                        arrival_x: at.x,
                        coverage_distance: measure(distance, coverage, from),
                        goal_distance: measure(distance, at, own_goal),
                        runner_distance: measure(distance, o.seen, at),
                        lane_open: look_along(clear, s.team, crosser, at, lane),
                    },
                )
            },
            None => None,
        };
        let runner: CrossRunner = CrossRunner { team: o.team, role: o.role, arrival };
        assert(candidate == seen[i as int]);
        assert(runner == running[i as int]);
        candidates.push(candidate);
        runners.push(runner);
        i += 1;
        assert(candidates@ =~= seen.take(i as int));
        assert(runners@ =~= running.take(i as int));
    }
    assert(seen.take(i as int) =~= seen);
    assert(running.take(i as int) =~= running);
    let lane_score: Real64 = flank(crosser);
    assert(call_ensures(*flank, (crosser,), lane_score));
    let cross: Option<(Vec2, Real64)> = soccer_defensive_cross_arrival_mark_target(
        &runners,
        s.team,
        defender_role,
        s.controlled,
        s.policy,
        lane_score,
        apply(times, s.frame.width, at_bits(D0_5)),
        plus,
        times,
        over,
    );
    let decision: MarkDecision = soccer_defensive_mark_target(
        &candidates,
        s.team,
        defender_role,
        cross,
        s.press_midfielder,
        plus,
        times,
    );
    match decision {
        MarkDecision::Nobody => None,
        MarkDecision::Cross(place) => Some(place),
        MarkDecision::Mark { position, standoff: away } => Some(
            find_goal_side(s, position, away, plus, times, unit),
        ),
    }
}

/// A marker stands off the mark on the way to the own goal, whose middle is half the width in, by
/// the standoff, kept on the pitch.
pub proof fn markers_stand_on_the_goal_side<
    U: Fn(Vec2) -> Vec2,
    P: Fn(Real64, Real64) -> Real64,
    M: Fn(Real64, Real64) -> Real64,
>(
    means: spec_fn(Real64, real) -> bool,
    plus: P,
    times: M,
    unit: U,
    s: MarkSituation,
    from: Vec2,
    standoff: Real64,
    fx: real,
    fy: real,
    ux: real,
    uy: real,
    off: real,
    w: real,
    l: real,
    gy: real,
)
    requires
        is_faithful(means, plus, times),
        stands_at(means, from, fx, fy),
        means(standoff, off),
        means(s.frame.width, w),
        means(s.frame.length, l),
        means(s.own_goal_y, gy),
        stands_at(means, heading_of(unit, way(plus, from, s.own_goal(times))), ux, uy),
    ensures
        stands_at(means, s.own_goal(times), w / 2real, gy),
        stands_at(means, way(plus, from, s.own_goal(times)), w / 2real - fx, gy - fy),
        stands_at(
            means,
            goal_side_of(plus, times, unit, s, from, standoff),
            bounded(fx + ux * off, 0real, w),
            bounded(fy + uy * off, 0real, l),
        ),
{
    decimals_are_read(means);
    assert(w * (1real / 2real) == w / 2real);
    assert(w / 2real + -fx == w / 2real - fx && gy + -fy == gy - fy);
}

} // verus!
