//! The measures by which the formation program sees a situation.
use crate::central::{CentralBrainTeamShapeTrace, TeamTacticalDirective};
use crate::decimals::{D0, D0_45, D0_5, D0_55, D0_62, D1, D2, D24, D28, D4, DECIMAL_MAX};
use crate::formation::anchor::{
    overlap_relief, pair_relief, soccer_formation_lp_offensive_overlap_relief,
    soccer_formation_lp_pair_shape_relief, OverlapLimits, OverlapMeasures,
};
use crate::formation::brain::soccer_lp_clamped;
use crate::formation::inputs::PlayerReading;
use crate::formation::layout::{
    pairs_laid_out, SoccerFormationLpPairVars, SOCCER_FORMATION_LP_PLAYER_CAPACITY,
};
use crate::formation::objective::ObjectiveInputs;
use crate::formation::state::{
    cover_score, holding_time, mean_fatigue, soccer_formation_lp_average_fatigue,
    soccer_formation_lp_ball_holder_elapsed_seconds, soccer_formation_lp_rest_defense_score,
    soccer_lp_unit, unit_value, HolderSample, StateMeasures, TeamMember,
};
use crate::formation::tick::{SoccerFormationLpSlotInput, TickFrame};
use crate::formation::zone::{fit_between, fitted_between};
use crate::geometry::{
    distance_of, find_middle, is_distance, join, joined, measure, measure_size, middle, place_or,
    size_of, stretch, stretched, take_place,
};
use crate::meaning::{
    bounded, decimals_are_read, is_faithful, least, reads_counts, reads_decimals, reads_order,
    reads_quotients, reads_signs, reads_sums,
};
use crate::number::{
    apply, at_bits, clamp_to, clamped_to, is_conversion, is_operation, is_signed_conversion, num,
    number_of, outcome, signed_number, smaller, smaller_of, to_number, to_signed_number, Real64,
};
use crate::observe::{
    observed_on, own_players, team_shape, team_shape_observation_from_snapshot, BallRings,
    SeenPlayer,
};
use crate::pitch::{Team, Vec2};
use crate::tunables::fitted;
use vstd::prelude::*;

verus! {

/// What the measures are read from.
#[derive(Clone, Copy, Debug)]
pub struct SituationReadings {
    pub frame: TickFrame,
    pub ball: Vec2,
    pub opponent_goal_y: Real64,
    pub own_goal_y: Real64,
    pub shape: CentralBrainTeamShapeTrace,
    pub opponent_shape: CentralBrainTeamShapeTrace,
    /// Pressure on the ball holder.
    pub holder_pressure: Real64,
    /// Pressure at the ball.
    pub central_pressure: Real64,
    /// How long the team has had the ball.
    pub possession_seconds: Real64,
    /// After how long a possession is settled.
    pub settled_seconds: Real64,
    /// How long the holder has had the ball.
    pub holder_seconds: Real64,
    /// How far the embeddings are to be trusted.
    pub embedding_confidence: Real64,
    pub rest_defense: Real64,
    pub average_fatigue: Real64,
    pub clock_seconds: Real64,
    pub duration_seconds: Real64,
    pub score_home: usize,
    pub score_away: usize,
}

/// What a situation is read from, besides the players.
#[derive(Clone, Copy, Debug)]
pub struct FieldReadings {
    pub frame: TickFrame,
    pub ball: Vec2,
    pub opponent_goal_y: Real64,
    pub own_goal_y: Real64,
    /// The rings around the ball in which players are counted.
    pub rings: BallRings,
    /// Pressure on the ball holder.
    pub holder_pressure: Real64,
    /// Pressure at the ball.
    pub central_pressure: Real64,
    /// How long the team has had the ball.
    pub possession_seconds: Real64,
    /// After how long a possession is settled.
    pub settled_seconds: Real64,
    /// How far the embeddings are to be trusted.
    pub embedding_confidence: Real64,
    pub clock_seconds: Real64,
    pub duration_seconds: Real64,
    pub score_home: usize,
    pub score_away: usize,
}

/// The players as a team is observed.
pub open spec fn seen_players(players: Seq<PlayerReading>) -> Seq<SeenPlayer> {
    players.map_values(
        |p: PlayerReading|
            SeenPlayer {
                team: p.team,
                seen: p.seen,
                home_position: p.home_position,
                velocity: p.velocity,
            },
    )
}

/// The players as the state of a team is measured.
pub open spec fn members_of(players: Seq<PlayerReading>, frame: TickFrame) -> Seq<TeamMember> {
    players.map_values(
        |p: PlayerReading|
            TeamMember {
                team: p.team,
                role: p.role,
                fatigue: p.fatigue,
                position_y: place_or(p.seen, frame.width, frame.length, p.home_position).y,
            },
    )
}

/// The shape of a team around the ball, as the players show it.
pub open spec fn shape_seen<
    P: Fn(Real64, Real64) -> Real64,
    M: Fn(Real64, Real64) -> Real64,
    Q: Fn(Real64, Real64) -> Real64,
    C: Fn(usize) -> Real64,
    D: Fn(Vec2, Vec2) -> Real64,
>(
    plus: P,
    times: M,
    over: Q,
    count: C,
    distance: D,
    frame: TickFrame,
    rings: BallRings,
    players: Seq<PlayerReading>,
    team: Team,
    ball: Vec2,
) -> CentralBrainTeamShapeTrace {
    team_shape(
        plus,
        times,
        over,
        count,
        distance,
        own_players(observed_on(seen_players(players), frame), team, players.len() as int),
        place_or(ball, frame.width, frame.length, middle(times, frame.width, frame.length)),
        frame.attack_dir,
        rings,
    )
}

/// Looks at the shape of a team around the ball.
pub fn see_shape<
    P: Fn(Real64, Real64) -> Real64,
    M: Fn(Real64, Real64) -> Real64,
    Q: Fn(Real64, Real64) -> Real64,
    C: Fn(usize) -> Real64,
    D: Fn(Vec2, Vec2) -> Real64,
>(
    frame: &TickFrame,
    rings: &BallRings,
    players: &Vec<PlayerReading>,
    team: Team,
    ball: Vec2,
    plus: &P,
    times: &M,
    over: &Q,
    count: &C,
    distance: &D,
) -> (r: CentralBrainTeamShapeTrace)
    requires
        is_operation(*plus),
        is_operation(*times),
        is_operation(*over),
        is_conversion(*count),
        is_distance(*distance),
    ensures
        r == shape_seen(
            *plus,
            *times,
            *over,
            *count,
            *distance,
            *frame,
            *rings,
            players@,
            team,
            ball,
        ),
{
    let mut seen: Vec<SeenPlayer> = Vec::new();
    let mut i: usize = 0;
    while i < players.len()
        invariant
            i <= players@.len(),
            seen@ == seen_players(players@).take(i as int),
        decreases players@.len() - i,
    {
        let p: PlayerReading = players[i];
        seen.push(
            SeenPlayer {
                team: p.team,
                seen: p.seen,
                home_position: p.home_position,
                velocity: p.velocity,
            },
        );
        i += 1;
        assert(seen@ =~= seen_players(players@).take(i as int));
    }
    assert(seen@ =~= seen_players(players@));
    team_shape_observation_from_snapshot(
        &seen,
        team,
        ball,
        frame,
        rings,
        plus,
        times,
        over,
        count,
        distance,
    )
}

/// What players, ball and history tell of a situation: the shapes of both teams, who covers behind
/// the ball, how tired the team is, and how long the holder has had the ball.
pub open spec fn readings_of<
    P: Fn(Real64, Real64) -> Real64,
    M: Fn(Real64, Real64) -> Real64,
    Q: Fn(Real64, Real64) -> Real64,
    C: Fn(usize) -> Real64,
    D: Fn(Vec2, Vec2) -> Real64,
>(
    plus: P,
    times: M,
    over: Q,
    count: C,
    distance: D,
    f: FieldReadings,
    team: Team,
    holder: Option<usize>,
    history: Seq<HolderSample>,
    players: Seq<PlayerReading>,
) -> SituationReadings {
    let against = TickFrame { attack_dir: f.frame.attack_dir.negated(), ..f.frame };
    let ball = place_or(
        f.ball,
        f.frame.width,
        f.frame.length,
        middle(times, f.frame.width, f.frame.length),
    );
    let members = members_of(players, f.frame);
    SituationReadings {
        frame: f.frame,
        ball: f.ball,
        opponent_goal_y: f.opponent_goal_y,
        own_goal_y: f.own_goal_y,
        shape: shape_seen(
            plus,
            times,
            over,
            count,
            distance,
            f.frame,
            f.rings,
            players,
            team,
            ball,
        ),
        opponent_shape: shape_seen(
            plus,
            times,
            over,
            count,
            distance,
            against,
            f.rings,
            players,
            team.opponent(),
            ball,
        ),
        holder_pressure: f.holder_pressure,
        central_pressure: f.central_pressure,
        possession_seconds: f.possession_seconds,
        settled_seconds: f.settled_seconds,
        holder_seconds: holding_time(plus, history, holder, f.clock_seconds),
        embedding_confidence: f.embedding_confidence,
        rest_defense: cover_score(
            plus,
            times,
            over,
            count,
            members,
            team,
            ball.y,
            f.frame.attack_dir,
        ),
        average_fatigue: mean_fatigue(plus, over, count, members, team),
        clock_seconds: f.clock_seconds,
        duration_seconds: f.duration_seconds,
        score_home: f.score_home,
        score_away: f.score_away,
    }
}

/// Reads a situation off players, ball and history.
pub fn find_readings<
    P: Fn(Real64, Real64) -> Real64,
    M: Fn(Real64, Real64) -> Real64,
    Q: Fn(Real64, Real64) -> Real64,
    C: Fn(usize) -> Real64,
    D: Fn(Vec2, Vec2) -> Real64,
>(
    f: &FieldReadings,
    team: Team,
    holder: Option<usize>,
    history: &Vec<HolderSample>,
    players: &Vec<PlayerReading>,
    plus: &P,
    times: &M,
    over: &Q,
    count: &C,
    distance: &D,
) -> (r: SituationReadings)
    requires
        is_operation(*plus),
        is_operation(*times),
        is_operation(*over),
        is_conversion(*count),
        is_distance(*distance),
    ensures
        r == readings_of(
            *plus,
            *times,
            *over,
            *count,
            *distance,
            *f,
            team,
            holder,
            history@,
            players@,
        ),
{
    let frame: TickFrame = f.frame;
    let against: TickFrame = TickFrame { attack_dir: frame.attack_dir.negate(), ..frame };
    let center: Vec2 = find_middle(frame.width, frame.length, times);
    let ball: Vec2 = take_place(f.ball, frame.width, frame.length, center);
    let mut members: Vec<TeamMember> = Vec::new();
    let mut i: usize = 0;
    while i < players.len()
        invariant
            i <= players@.len(),
            members@ == members_of(players@, frame).take(i as int),
        decreases players@.len() - i,
    {
        let p: PlayerReading = players[i];
        members.push(
            TeamMember {
                team: p.team,
                role: p.role,
                fatigue: p.fatigue,
                position_y: take_place(p.seen, frame.width, frame.length, p.home_position).y,
            },
        );
        i += 1;
        assert(members@ =~= members_of(players@, frame).take(i as int));
    }
    assert(members@ =~= members_of(players@, frame));
    SituationReadings {
        frame,
        ball: f.ball,
        opponent_goal_y: f.opponent_goal_y,
        own_goal_y: f.own_goal_y,
        shape: see_shape(
            &frame,
            &f.rings,
            players,
            team,
            ball,
            plus,
            times,
            over,
            count,
            distance,
        ),
        opponent_shape: see_shape(
            &against,
            &f.rings,
            players,
            team.other(),
            ball,
            plus,
            times,
            over,
            count,
            distance,
        ),
        holder_pressure: f.holder_pressure,
        central_pressure: f.central_pressure,
        possession_seconds: f.possession_seconds,
        settled_seconds: f.settled_seconds,
        holder_seconds: soccer_formation_lp_ball_holder_elapsed_seconds(
            history,
            holder,
            f.clock_seconds,
            plus,
        ),
        embedding_confidence: f.embedding_confidence,
        rest_defense: soccer_formation_lp_rest_defense_score(
            &members,
            team,
            ball.y,
            frame.attack_dir,
            plus,
            times,
            over,
            count,
        ),
        average_fatigue: soccer_formation_lp_average_fatigue(&members, team, plus, over, count),
        clock_seconds: f.clock_seconds,
        duration_seconds: f.duration_seconds,
        score_home: f.score_home,
        score_away: f.score_away,
    }
}

impl SituationReadings {
    /// The ball's place on the pitch.
    pub open spec fn ball_place<M: Fn(Real64, Real64) -> Real64>(self, times: M) -> Vec2 {
        place_or(
            self.ball,
            self.frame.width,
            self.frame.length,
            middle(times, self.frame.width, self.frame.length),
        )
    }

    fn find_ball<M: Fn(Real64, Real64) -> Real64>(&self, times: &M) -> (r: Vec2)
        requires
            is_operation(*times),
        ensures
            r == self.ball_place(*times),
    {
        let center: Vec2 = find_middle(self.frame.width, self.frame.length, times);
        take_place(self.ball, self.frame.width, self.frame.length, center)
    }

    /// How far the ball is from the goal at the end `goal_y`.
    pub open spec fn from_goal<M: Fn(Real64, Real64) -> Real64, D: Fn(Vec2, Vec2) -> Real64>(
        self,
        times: M,
        distance: D,
        goal_y: Real64,
    ) -> Real64 {
        distance_of(
            distance,
            self.ball_place(times),
            Vec2 { x: outcome(times, self.frame.width, num(D0_5)), y: goal_y },
        )
    }

    fn find_from_goal<M: Fn(Real64, Real64) -> Real64, D: Fn(Vec2, Vec2) -> Real64>(
        &self,
        goal_y: Real64,
        times: &M,
        distance: &D,
    ) -> (r: Real64)
        requires
            is_operation(*times),
            is_distance(*distance),
        ensures
            r == self.from_goal(*times, *distance, goal_y),
    {
        let goal: Vec2 = Vec2 { x: apply(times, self.frame.width, at_bits(D0_5)), y: goal_y };
        measure(distance, self.find_ball(times), goal)
    }
}

/// How near the ball is to a goal, between 0 and 1.
pub open spec fn goal_nearness<P: Fn(Real64, Real64) -> Real64, Q: Fn(Real64, Real64) -> Real64>(
    plus: P,
    over: Q,
    away: Real64,
    length: Real64,
) -> Real64 {
    clamped_to(
        outcome(plus, num(D1), outcome(over, smaller(away, length), length).negated()),
        num(D0),
        num(D1),
    )
}

fn find_goal_nearness<P: Fn(Real64, Real64) -> Real64, Q: Fn(Real64, Real64) -> Real64>(
    away: Real64,
    length: Real64,
    plus: &P,
    over: &Q,
) -> (r: Real64)
    requires
        is_operation(*plus),
        is_operation(*over),
    ensures
        r == goal_nearness(*plus, *over, away, length),
{
    let part: Real64 = apply(over, smaller_of(away, length), length);
    clamp_to(apply(plus, at_bits(D1), part.negate()), at_bits(D0), at_bits(D1))
}

/// Players near the ball, out of four.
pub open spec fn out_of_four<Q: Fn(Real64, Real64) -> Real64, C: Fn(usize) -> Real64>(
    over: Q,
    count: C,
    n: usize,
) -> Real64 {
    clamped_to(outcome(over, number_of(count, n), num(D4)), num(D0), num(D1))
}

/// An embedding's score, by how far the embeddings are to be trusted.
pub open spec fn trusted<P: Fn(Real64, Real64) -> Real64, M: Fn(Real64, Real64) -> Real64>(
    plus: P,
    times: M,
    score: Real64,
    confidence: Real64,
) -> Real64 {
    outcome(
        times,
        unit_value(score),
        outcome(plus, num(D0_55), outcome(times, confidence, num(D0_45))),
    )
}

/// What the weights of the objective are mixed from.
pub open spec fn objective_inputs<
    P: Fn(Real64, Real64) -> Real64,
    M: Fn(Real64, Real64) -> Real64,
    Q: Fn(Real64, Real64) -> Real64,
    C: Fn(usize) -> Real64,
    W: Fn(i64) -> Real64,
    D: Fn(Vec2, Vec2) -> Real64,
>(
    plus: P,
    times: M,
    over: Q,
    count: C,
    signed: W,
    distance: D,
    r: SituationReadings,
    d: TeamTacticalDirective,
) -> ObjectiveInputs {
    let width = r.frame.width;
    let length = r.frame.length;
    ObjectiveInputs {
        attacking_depth: goal_nearness(
            plus,
            over,
            r.from_goal(times, distance, r.opponent_goal_y),
            length,
        ),
        own_goal_danger: goal_nearness(
            plus,
            over,
            r.from_goal(times, distance, r.own_goal_y),
            length,
        ),
        holder_pressure: r.holder_pressure,
        settled: unit_value(
            outcome(over, fitted(r.possession_seconds, D0, D0, DECIMAL_MAX), r.settled_seconds),
        ),
        overload: unit_value(d.attacking_overload_score),
        numbers: clamped_to(
            outcome(
                over,
                outcome(
                    plus,
                    signed_number(signed, d.attacking_numbers_advantage as i64),
                    num(D2),
                ),
                num(D4),
            ),
            num(D0),
            num(D1),
        ),
        field_width_usage: unit_value(
            outcome(
                over,
                fitted_between(d.width_yards, num(D0), width, outcome(times, width, num(D0_62))),
                width,
            ),
        ),
        pass_priority: fitted(d.pass_priority, D1, D0, D2),
        carry_priority: fitted(d.carry_priority, D1, D0, D2),
        press_intensity: unit_value(d.press_intensity),
        embedding_attack: trusted(
            plus,
            times,
            d.adversarial_embedding_attack_score,
            r.embedding_confidence,
        ),
        embedding_defense: trusted(
            plus,
            times,
            d.adversarial_embedding_defense_score,
            r.embedding_confidence,
        ),
        neural_attack: unit_value(d.neural_formation_attack_score),
        neural_defense: unit_value(d.neural_formation_defense_score),
        central_pressure: r.central_pressure,
        rest_defense: r.rest_defense,
        fatigue: r.average_fatigue,
        near_ball: out_of_four(over, count, r.shape.players_near_ball),
        opponents_near: out_of_four(over, count, r.opponent_shape.players_near_ball),
        spread_wide: unit_value(outcome(over, r.shape.spread_yards, num(D28))),
        spread_narrow: unit_value(outcome(over, r.shape.spread_yards, num(D24))),
    }
}

/// Works out what the weights of the objective are mixed from.
pub fn find_objective_inputs<
    P: Fn(Real64, Real64) -> Real64,
    M: Fn(Real64, Real64) -> Real64,
    Q: Fn(Real64, Real64) -> Real64,
    C: Fn(usize) -> Real64,
    W: Fn(i64) -> Real64,
    D: Fn(Vec2, Vec2) -> Real64,
>(
    r: &SituationReadings,
    d: &TeamTacticalDirective,
    plus: &P,
    times: &M,
    over: &Q,
    count: &C,
    signed: &W,
    distance: &D,
) -> (inputs: ObjectiveInputs)
    requires
        is_operation(*plus),
        is_operation(*times),
        is_operation(*over),
        is_conversion(*count),
        is_signed_conversion(*signed),
        is_distance(*distance),
    ensures
        inputs == objective_inputs(*plus, *times, *over, *count, *signed, *distance, *r, *d),
{
    let width: Real64 = r.frame.width;
    let length: Real64 = r.frame.length;
    let zero_value: Real64 = at_bits(D0);
    let one: Real64 = at_bits(D1);
    let held: Real64 = soccer_lp_clamped(r.possession_seconds, D0, DECIMAL_MAX, D0);
    let advantage: Real64 = to_signed_number(signed, d.attacking_numbers_advantage as i64);
    let used: Real64 = fit_between(
        d.width_yards,
        zero_value,
        width,
        apply(times, width, at_bits(D0_62)),
    );
    let trust: Real64 = apply(
        plus,
        at_bits(D0_55),
        apply(times, r.embedding_confidence, at_bits(D0_45)),
    );
    let own_near: Real64 = apply(over, to_number(count, r.shape.players_near_ball), at_bits(D4));
    let their_near: Real64 = apply(
        over,
        to_number(count, r.opponent_shape.players_near_ball),
        at_bits(D4),
    );
    ObjectiveInputs {
        attacking_depth: find_goal_nearness(
            r.find_from_goal(r.opponent_goal_y, times, distance),
            length,
            plus,
            over,
        ),
        own_goal_danger: find_goal_nearness(
            r.find_from_goal(r.own_goal_y, times, distance),
            length,
            plus,
            over,
        ),
        holder_pressure: r.holder_pressure,
        settled: soccer_lp_unit(apply(over, held, r.settled_seconds)),
        overload: soccer_lp_unit(d.attacking_overload_score),
        numbers: clamp_to(
            apply(over, apply(plus, advantage, at_bits(D2)), at_bits(D4)),
            zero_value,
            one,
        ),
        field_width_usage: soccer_lp_unit(apply(over, used, width)),
        pass_priority: soccer_lp_clamped(d.pass_priority, D0, D2, D1),
        carry_priority: soccer_lp_clamped(d.carry_priority, D0, D2, D1),
        press_intensity: soccer_lp_unit(d.press_intensity),
        embedding_attack: apply(
            times,
            soccer_lp_unit(d.adversarial_embedding_attack_score),
            trust,
        ),
        embedding_defense: apply(
            times,
            soccer_lp_unit(d.adversarial_embedding_defense_score),
            trust,
        ),
        neural_attack: soccer_lp_unit(d.neural_formation_attack_score),
        neural_defense: soccer_lp_unit(d.neural_formation_defense_score),
        central_pressure: r.central_pressure,
        rest_defense: r.rest_defense,
        fatigue: r.average_fatigue,
        near_ball: clamp_to(own_near, zero_value, one),
        opponents_near: clamp_to(their_near, zero_value, one),
        spread_wide: soccer_lp_unit(apply(over, r.shape.spread_yards, at_bits(D28))),
        spread_narrow: soccer_lp_unit(apply(over, r.shape.spread_yards, at_bits(D24))),
    }
}

/// What is measured of the situation for the state of the program.
pub open spec fn state_measures<
    P: Fn(Real64, Real64) -> Real64,
    M: Fn(Real64, Real64) -> Real64,
    C: Fn(usize) -> Real64,
    W: Fn(i64) -> Real64,
    D: Fn(Vec2, Vec2) -> Real64,
>(
    plus: P,
    times: M,
    count: C,
    signed: W,
    distance: D,
    r: SituationReadings,
    d: TeamTacticalDirective,
) -> StateMeasures {
    let half_width = outcome(times, r.frame.width, num(D0_5));
    let half_length = outcome(times, r.frame.length, num(D0_5));
    let ball = r.ball_place(times);
    StateMeasures {
        attack_dir: r.frame.attack_dir,
        clock_seconds: r.clock_seconds,
        duration_seconds: r.duration_seconds,
        score_difference: outcome(
            plus,
            number_of(count, r.score_home),
            number_of(count, r.score_away).negated(),
        ),
        ball_from_center_x: outcome(plus, ball.x, half_width.negated()),
        half_width,
        ball_forward_of_center: outcome(
            times,
            outcome(plus, ball.y, half_length.negated()),
            r.frame.attack_dir,
        ),
        half_length,
        possession_seconds: r.possession_seconds,
        holder_seconds: r.holder_seconds,
        to_opponent_goal: r.from_goal(times, distance, r.opponent_goal_y),
        to_own_goal: r.from_goal(times, distance, r.own_goal_y),
        width: r.frame.width,
        length: r.frame.length,
        centroid_to_ball: r.shape.centroid_to_ball_yards,
        spread: r.shape.spread_yards,
        near_ball: number_of(count, r.shape.players_near_ball),
        forward_velocity: r.shape.forward_velocity_yps,
        opponents_centroid_to_ball: r.opponent_shape.centroid_to_ball_yards,
        opponents_spread: r.opponent_shape.spread_yards,
        opponents_near_ball: number_of(count, r.opponent_shape.players_near_ball),
        cover_target: number_of(count, d.defensive_cover_target),
        cover_actual: number_of(count, d.defensive_cover_actual),
        numbers_advantage: signed_number(signed, d.attacking_numbers_advantage as i64),
        holder_pressure: r.holder_pressure,
        rest_defense: r.rest_defense,
        average_fatigue: r.average_fatigue,
    }
}

/// Works out what is measured of the situation for the state of the program.
pub fn find_state_measures<
    P: Fn(Real64, Real64) -> Real64,
    M: Fn(Real64, Real64) -> Real64,
    C: Fn(usize) -> Real64,
    W: Fn(i64) -> Real64,
    D: Fn(Vec2, Vec2) -> Real64,
>(
    r: &SituationReadings,
    d: &TeamTacticalDirective,
    plus: &P,
    times: &M,
    count: &C,
    signed: &W,
    distance: &D,
) -> (m: StateMeasures)
    requires
        is_operation(*plus),
        is_operation(*times),
        is_conversion(*count),
        is_signed_conversion(*signed),
        is_distance(*distance),
    ensures
        m == state_measures(*plus, *times, *count, *signed, *distance, *r, *d),
{
    let half_width: Real64 = apply(times, r.frame.width, at_bits(D0_5));
    let half_length: Real64 = apply(times, r.frame.length, at_bits(D0_5));
    let ball: Vec2 = r.find_ball(times);
    let forward: Real64 = apply(plus, ball.y, half_length.negate());
    StateMeasures {
        attack_dir: r.frame.attack_dir,
        clock_seconds: r.clock_seconds,
        duration_seconds: r.duration_seconds,
        score_difference: apply(
            plus,
            to_number(count, r.score_home),
            to_number(count, r.score_away).negate(),
        ),
        ball_from_center_x: apply(plus, ball.x, half_width.negate()),
        half_width,
        ball_forward_of_center: apply(times, forward, r.frame.attack_dir),
        half_length,
        possession_seconds: r.possession_seconds,
        holder_seconds: r.holder_seconds,
        to_opponent_goal: r.find_from_goal(r.opponent_goal_y, times, distance),
        to_own_goal: r.find_from_goal(r.own_goal_y, times, distance),
        width: r.frame.width,
        length: r.frame.length,
        centroid_to_ball: r.shape.centroid_to_ball_yards,
        spread: r.shape.spread_yards,
        near_ball: to_number(count, r.shape.players_near_ball),
        forward_velocity: r.shape.forward_velocity_yps,
        opponents_centroid_to_ball: r.opponent_shape.centroid_to_ball_yards,
        opponents_spread: r.opponent_shape.spread_yards,
        opponents_near_ball: to_number(count, r.opponent_shape.players_near_ball),
        cover_target: to_number(count, d.defensive_cover_target),
        cover_actual: to_number(count, d.defensive_cover_actual),
        numbers_advantage: to_signed_number(signed, d.attacking_numbers_advantage as i64),
        holder_pressure: r.holder_pressure,
        rest_defense: r.rest_defense,
        average_fatigue: r.average_fatigue,
    }
}

/// How a runner passes a teammate.
pub open spec fn overlap_measures<
    P: Fn(Real64, Real64) -> Real64,
    M: Fn(Real64, Real64) -> Real64,
    D: Fn(Vec2, Vec2) -> Real64,
>(
    plus: P,
    times: M,
    distance: D,
    attack_dir: Real64,
    lookahead: Real64,
    runner: SoccerFormationLpSlotInput,
    teammate: SoccerFormationLpSlotInput,
) -> OverlapMeasures {
    let later = joined(plus, runner.current, stretched(times, runner.velocity, lookahead));
    OverlapMeasures {
        runner_active: runner.active,
        teammate_active: teammate.active,
        runner_role: runner.role,
        teammate_role: teammate.role,
        distance: distance_of(distance, runner.current, teammate.current),
        speed: size_of(distance, runner.velocity),
        forward_speed: outcome(times, runner.velocity.y, attack_dir),
        current_lead: outcome(
            times,
            outcome(plus, runner.current.y, teammate.current.y.negated()),
            attack_dir,
        ),
        projected_lead: outcome(
            times,
            outcome(plus, later.y, teammate.current.y.negated()),
            attack_dir,
        ),
    }
}

fn find_overlap_measures<
    P: Fn(Real64, Real64) -> Real64,
    M: Fn(Real64, Real64) -> Real64,
    D: Fn(Vec2, Vec2) -> Real64,
>(
    attack_dir: Real64,
    lookahead: Real64,
    runner: &SoccerFormationLpSlotInput,
    teammate: &SoccerFormationLpSlotInput,
    plus: &P,
    times: &M,
    distance: &D,
) -> (r: OverlapMeasures)
    requires
        is_operation(*plus),
        is_operation(*times),
        is_distance(*distance),
    ensures
        r == overlap_measures(
            *plus,
            *times,
            *distance,
            attack_dir,
            lookahead,
            *runner,
            *teammate,
        ),
{
    let later: Vec2 = join(runner.current, stretch(runner.velocity, lookahead, times), plus);
    let back: Real64 = teammate.current.y.negate();
    OverlapMeasures {
        runner_active: runner.active,
        teammate_active: teammate.active,
        runner_role: runner.role,
        teammate_role: teammate.role,
        distance: measure(distance, runner.current, teammate.current),
        speed: measure_size(distance, runner.velocity),
        forward_speed: apply(times, runner.velocity.y, attack_dir),
        current_lead: apply(times, apply(plus, runner.current.y, back), attack_dir),
        projected_lead: apply(times, apply(plus, later.y, back), attack_dir),
    }
}

/// How much the shape of a pair of slots is loosened.
pub open spec fn slot_relief<
    P: Fn(Real64, Real64) -> Real64,
    M: Fn(Real64, Real64) -> Real64,
    Q: Fn(Real64, Real64) -> Real64,
    D: Fn(Vec2, Vec2) -> Real64,
>(
    plus: P,
    times: M,
    over: Q,
    distance: D,
    possession: Option<Team>,
    team: Team,
    attack_dir: Real64,
    lookahead: Real64,
    limits: OverlapLimits,
    a: SoccerFormationLpSlotInput,
    b: SoccerFormationLpSlotInput,
) -> Real64 {
    pair_relief(
        plus,
        times,
        possession,
        team,
        a.pressure_weight,
        b.pressure_weight,
        overlap_relief(
            plus,
            times,
            over,
            overlap_measures(plus, times, distance, attack_dir, lookahead, a, b),
            limits,
        ),
        overlap_relief(
            plus,
            times,
            over,
            overlap_measures(plus, times, distance, attack_dir, lookahead, b, a),
            limits,
        ),
    )
}

/// Works out how much the shapes of all pairs are loosened.
pub fn find_reliefs<
    P: Fn(Real64, Real64) -> Real64,
    M: Fn(Real64, Real64) -> Real64,
    Q: Fn(Real64, Real64) -> Real64,
    D: Fn(Vec2, Vec2) -> Real64,
>(
    possession: Option<Team>,
    team: Team,
    attack_dir: Real64,
    lookahead: Real64,
    limits: &OverlapLimits,
    inputs: &Vec<SoccerFormationLpSlotInput>,
    pairs: &Vec<SoccerFormationLpPairVars>,
    plus: &P,
    times: &M,
    over: &Q,
    distance: &D,
) -> (r: Vec<Real64>)
    requires
        is_operation(*plus),
        is_operation(*times),
        is_operation(*over),
        is_distance(*distance),
        inputs@.len() == SOCCER_FORMATION_LP_PLAYER_CAPACITY,
        pairs_laid_out(pairs@),
    ensures
        r@ == pairs@.map_values(
            |p: SoccerFormationLpPairVars|
                slot_relief(
                    *plus,
                    *times,
                    *over,
                    *distance,
                    possession,
                    team,
                    attack_dir,
                    lookahead,
                    *limits,
                    inputs@[p.a as int],
                    inputs@[p.b as int],
                ),
        ),
{
    let ghost goal = pairs@.map_values(
        |p: SoccerFormationLpPairVars|
            slot_relief(
                *plus,
                *times,
                *over,
                *distance,
                possession,
                team,
                attack_dir,
                lookahead,
                *limits,
                inputs@[p.a as int],
                inputs@[p.b as int],
            ),
    );
    let mut r: Vec<Real64> = Vec::new();
    let mut i: usize = 0;
    while i < pairs.len()
        invariant
            i <= pairs@.len(),
            is_operation(*plus),
            is_operation(*times),
            is_operation(*over),
            is_distance(*distance),
            inputs@.len() == SOCCER_FORMATION_LP_PLAYER_CAPACITY,
            pairs_laid_out(pairs@),
            goal == pairs@.map_values(
                |p: SoccerFormationLpPairVars|
                    slot_relief(
                        *plus,
                        *times,
                        *over,
                        *distance,
                        possession,
                        team,
                        attack_dir,
                        lookahead,
                        *limits,
                        inputs@[p.a as int],
                        inputs@[p.b as int],
                    ),
            ),
            r@ == goal.take(i as int),
        decreases pairs@.len() - i,
    {
        let pair: SoccerFormationLpPairVars = pairs[i];
        let a: SoccerFormationLpSlotInput = inputs[pair.a];
        let b: SoccerFormationLpSlotInput = inputs[pair.b];
        let ahead: OverlapMeasures = find_overlap_measures(
            attack_dir,
            lookahead,
            &a,
            &b,
            plus,
            times,
            distance,
        );
        let behind: OverlapMeasures = find_overlap_measures(
            attack_dir,
            lookahead,
            &b,
            &a,
            plus,
            times,
            distance,
        );
        let overlap_ab: Real64 = soccer_formation_lp_offensive_overlap_relief(
            &ahead,
            limits,
            plus,
            times,
            over,
        );
        let overlap_ba: Real64 = soccer_formation_lp_offensive_overlap_relief(
            &behind,
            limits,
            plus,
            times,
            over,
        );
        let relief: Real64 = soccer_formation_lp_pair_shape_relief(
            possession,
            team,
            a.pressure_weight,
            b.pressure_weight,
            overlap_ab,
            overlap_ba,
            plus,
            times,
        );
        assert(relief == goal[i as int]);
        r.push(relief);
        i += 1;
        assert(r@ =~= goal.take(i as int));
    }
    assert(goal.take(i as int) =~= goal);
    r
}

/// How near a goal is: one at it, and less by the distance as a part of the length.
pub proof fn goals_are_near_by_the_length<
    P: Fn(Real64, Real64) -> Real64,
    Q: Fn(Real64, Real64) -> Real64,
>(
    means: spec_fn(Real64, real) -> bool,
    plus: P,
    over: Q,
    away: Real64,
    length: Real64,
    a: real,
    l: real,
)
    requires
        reads_sums(means, plus),
        reads_signs(means),
        reads_order(means),
        reads_decimals(means),
        reads_quotients(means, over),
        means(away, a),
        means(length, l),
        l != 0real,
    ensures
        means(
            goal_nearness(plus, over, away, length),
            bounded(1real - least(a, l) / l, 0real, 1real),
        ),
{
    decimals_are_read(means);
    let s = least(a, l) / l;
    assert(1real + -s == 1real - s);
}

/// Players near the ball count in quarters, and a score of the embeddings counts 0.55 and 0.45 more
/// by how far they are trusted.
pub proof fn readings_are_parts<
    P: Fn(Real64, Real64) -> Real64,
    M: Fn(Real64, Real64) -> Real64,
    Q: Fn(Real64, Real64) -> Real64,
    C: Fn(usize) -> Real64,
>(
    means: spec_fn(Real64, real) -> bool,
    plus: P,
    times: M,
    over: Q,
    count: C,
    n: usize,
    score: Real64,
    confidence: Real64,
    s: real,
    c: real,
)
    requires
        is_faithful(means, plus, times),
        reads_quotients(means, over),
        reads_counts(means, count),
        score.finite() && means(score, s),
        means(confidence, c),
    ensures
        means(out_of_four(over, count, n), bounded(n as int as real / 4real, 0real, 1real)),
        means(
            trusted(plus, times, score, confidence),
            bounded(s, 0real, 1real) * ((11real / 20real) + c * (9real / 20real)),
        ),
{
    decimals_are_read(means);
}

/// How far a runner is ahead of a teammate along the attack, now and after the lookahead, and how
/// fast the run goes forwards.
pub proof fn leads_are_measured_along_the_attack<
    P: Fn(Real64, Real64) -> Real64,
    M: Fn(Real64, Real64) -> Real64,
    D: Fn(Vec2, Vec2) -> Real64,
>(
    means: spec_fn(Real64, real) -> bool,
    plus: P,
    times: M,
    distance: D,
    attack_dir: Real64,
    lookahead: Real64,
    runner: SoccerFormationLpSlotInput,
    teammate: SoccerFormationLpSlotInput,
    dir: real,
    ahead: real,
    y: real,
    v: real,
    other: real,
)
    requires
        is_faithful(means, plus, times),
        means(attack_dir, dir),
        means(lookahead, ahead),
        means(runner.current.y, y),
        means(runner.velocity.y, v),
        means(teammate.current.y, other),
    ensures
        ({
            let m = overlap_measures(
                plus,
                times,
                distance,
                attack_dir,
                lookahead,
                runner,
                teammate,
            );
            &&& means(m.current_lead, (y - other) * dir)
            &&& means(m.projected_lead, (y + v * ahead - other) * dir)
            &&& means(m.forward_speed, v * dir)
        }),
{
    decimals_are_read(means);
    assert(y + -other == y - other);
    let later = y + v * ahead;
    assert(later + -other == later - other);
}

} // verus!
