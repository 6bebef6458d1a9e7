//! What a team's formation program is told of the world: players, ball and situation, each number
//! on a common scale.
use crate::central::TeamTacticalDirective;
use crate::decimals::{
    D0, D1, D10, D12, D18, D1EM09, D2, D24, D30, D35, D36, D4, D40, D5, D6, D8, DM1, DM2,
};
use crate::formation::guidance::SoccerFormationLpObjectiveWeights;
use crate::formation::layout::{
    SOCCER_FORMATION_LP_CONTEXT_FEATURES, SOCCER_FORMATION_LP_WORLD_PLAYER_CAPACITY, STATE_COUNT,
};
use crate::meaning::{
    bounded, decimals_are_read, is_faithful, most, reads_counts, reads_decimals, reads_order,
    reads_quotients, reads_signs, reads_sums, real_sum, set_flags,
};
use crate::number::{
    apply, at_bits, clamp_to, clamped_to, is_conversion, is_operation, larger, larger_of, num,
    number_of, outcome, to_number, Real64,
};
use crate::order::{is_ranking, ranking};
use crate::pitch::{PlayerRole, Team, Vec2};
use vstd::prelude::*;

verus! {

/// A number between 0 and 1; 0 where it is not finite.
pub open spec fn unit_value(v: Real64) -> Real64 {
    if v.finite() {
        clamped_to(v, num(D0), num(D1))
    } else {
        num(D0)
    }
}

pub fn soccer_lp_unit(value: Real64) -> (r: Real64)
    ensures
        r == unit_value(value),
{
    if value.is_finite() {
        clamp_to(value, at_bits(D0), at_bits(D1))
    } else {
        at_bits(D0)
    }
}

/// A number as a multiple of a scale, between -2 and 2; 0 where it is not finite or the scale
/// vanishes.
pub open spec fn scaled_value<Q: Fn(Real64, Real64) -> Real64>(
    over: Q,
    value: Real64,
    scale: Real64,
) -> Real64 {
    if !value.finite() || vanishes(scale) {
        num(D0)
    } else {
        clamped_to(outcome(over, value, scale), num(DM2), num(D2))
    }
}

/// The scale is as good as zero.
pub open spec fn vanishes(scale: Real64) -> bool {
    !scale.nan() && scale.absolute().key() <= num(D1EM09).key()
}

pub fn soccer_lp_scaled<Q: Fn(Real64, Real64) -> Real64>(
    value: Real64,
    scale: Real64,
    over: &Q,
) -> (r: Real64)
    requires
        is_operation(*over),
    ensures
        r == scaled_value(*over, value, scale),
{
    if !value.is_finite() || (!scale.is_nan() && scale.abs().order_key() <= at_bits(
        D1EM09,
    ).order_key()) {
        at_bits(D0)
    } else {
        clamp_to(apply(over, value, scale), at_bits(DM2), at_bits(D2))
    }
}

/// Who held the ball at a moment.
#[derive(Clone, Copy, Debug, PartialEq, Eq, Structural)]
pub struct HolderSample {
    pub holder: Option<usize>,
    pub clock_seconds: Real64,
}

/// The moment since when the holder has had the ball: the earliest of the unbroken run of moments
/// at the end of the first `n`, of those with a finite clock.
pub open spec fn held_since(
    history: Seq<HolderSample>,
    holder: usize,
    now: Real64,
    n: int,
) -> Real64
    decreases n,
{
    if n <= 0 || history[n - 1].holder != Some(holder) {
        now
    } else {
        held_since(
            history,
            holder,
            if history[n - 1].clock_seconds.finite() {
                larger(history[n - 1].clock_seconds, num(D0))
            } else {
                now
            },
            n - 1,
        )
    }
}

/// The clock as it is reckoned with: not negative, and 0 where it is not finite.
pub open spec fn reckoned(clock: Real64) -> Real64 {
    if clock.finite() {
        larger(clock, num(D0))
    } else {
        num(D0)
    }
}

/// How long the holder has had the ball.
pub open spec fn holding_time<P: Fn(Real64, Real64) -> Real64>(
    plus: P,
    history: Seq<HolderSample>,
    holder: Option<usize>,
    clock: Real64,
) -> Real64 {
    match holder {
        Some(id) => larger(
            outcome(
                plus,
                reckoned(clock),
                held_since(history, id, reckoned(clock), history.len() as int).negated(),
            ),
            num(D0),
        ),
        None => num(D0),
    }
}

/// Measures how long the holder has had the ball.
pub fn soccer_formation_lp_ball_holder_elapsed_seconds<P: Fn(Real64, Real64) -> Real64>(
    history: &Vec<HolderSample>,
    holder: Option<usize>,
    clock_seconds: Real64,
    plus: &P,
) -> (r: Real64)
    requires
        is_operation(*plus),
    ensures
        r == holding_time(*plus, history@, holder, clock_seconds),
{
    let id: usize = match holder {
        Some(id) => id,
        None => return at_bits(D0),
    };
    let clock: Real64 = if clock_seconds.is_finite() {
        larger_of(clock_seconds, at_bits(D0))
    } else {
        at_bits(D0)
    };
    let mut since: Real64 = clock;
    let mut i: usize = history.len();
    let mut same: bool = true;
    while same && i > 0
        invariant
            i <= history@.len(),
            held_since(history@, id, clock, history@.len() as int) == if same {
                held_since(history@, id, since, i as int)
            } else {
                since
            },
        decreases i,
    {
        let s: HolderSample = history[i - 1];
        let held: bool = match s.holder {
            Some(h) => h == id,
            None => false,
        };
        if held {
            if s.clock_seconds.is_finite() {
                since = larger_of(s.clock_seconds, at_bits(D0));
            }
        } else {
            same = false;
        }
        i -= 1;
    }
    larger_of(apply(plus, clock, since.negate()), at_bits(D0))
}

/// A player as the state of a team is measured.
#[derive(Clone, Copy, Debug, PartialEq, Eq, Structural)]
pub struct TeamMember {
    pub team: Team,
    pub role: PlayerRole,
    pub fatigue: Real64,
    pub position_y: Real64,
}

/// The fatigue of the team's players among the first `n`, added up, and how many there are.
pub open spec fn fatigue_sum<P: Fn(Real64, Real64) -> Real64>(
    plus: P,
    players: Seq<TeamMember>,
    team: Team,
    n: int,
) -> (Real64, int)
    decreases n,
{
    if n <= 0 {
        (num(D0), 0)
    } else {
        let before = fatigue_sum(plus, players, team, n - 1);
        if players[n - 1].team == team {
            (outcome(plus, before.0, unit_value(players[n - 1].fatigue)), before.1 + 1)
        } else {
            before
        }
    }
}

/// The mean fatigue of a team; nothing for a team of nobody.
pub open spec fn mean_fatigue<
    P: Fn(Real64, Real64) -> Real64,
    Q: Fn(Real64, Real64) -> Real64,
    C: Fn(usize) -> Real64,
>(plus: P, over: Q, count: C, players: Seq<TeamMember>, team: Team) -> Real64 {
    let (sum, n) = fatigue_sum(plus, players, team, players.len() as int);
    if n == 0 {
        num(D0)
    } else {
        outcome(over, sum, number_of(count, n as usize))
    }
}

/// How tired a team is on average; nothing for a team of nobody.
pub fn soccer_formation_lp_average_fatigue<
    P: Fn(Real64, Real64) -> Real64,
    Q: Fn(Real64, Real64) -> Real64,
    C: Fn(usize) -> Real64,
>(players: &Vec<TeamMember>, team: Team, plus: &P, over: &Q, count: &C) -> (r: Real64)
    requires
        is_operation(*plus),
        is_operation(*over),
        is_conversion(*count),
    ensures
        r == mean_fatigue(*plus, *over, *count, players@, team),
{
    let mut sum: Real64 = at_bits(D0);
    let mut n: usize = 0;
    let mut i: usize = 0;
    while i < players.len()
        invariant
            n <= i <= players@.len(),
            is_operation(*plus),
            (sum, n as int) == fatigue_sum(*plus, players@, team, i as int),
        decreases players@.len() - i,
    {
        if players[i].team == team {
            sum = apply(plus, sum, soccer_lp_unit(players[i].fatigue));
            n += 1;
        }
        i += 1;
    }
    if n == 0 {
        at_bits(D0)
    } else {
        apply(over, sum, to_number(count, n))
    }
}

/// A player covers behind the ball: of the team, no forward, and at most two yards ahead of it.
pub open spec fn covers<P: Fn(Real64, Real64) -> Real64, M: Fn(Real64, Real64) -> Real64>(
    plus: P,
    times: M,
    m: TeamMember,
    team: Team,
    ball_y: Real64,
    attack_dir: Real64,
) -> bool {
    let behind = outcome(times, outcome(plus, ball_y, m.position_y.negated()), attack_dir);
    m.team == team && m.role != PlayerRole::Forward && !behind.nan() && behind.key() >= num(
        DM2,
    ).key()
}

/// How many of the first `n` players cover.
pub open spec fn covering<P: Fn(Real64, Real64) -> Real64, M: Fn(Real64, Real64) -> Real64>(
    plus: P,
    times: M,
    players: Seq<TeamMember>,
    team: Team,
    ball_y: Real64,
    attack_dir: Real64,
    n: int,
) -> int
    decreases n,
{
    if n <= 0 {
        0
    } else {
        covering(plus, times, players, team, ball_y, attack_dir, n - 1) + if covers(
            plus,
            times,
            players[n - 1],
            team,
            ball_y,
            attack_dir,
        ) {
            1int
        } else {
            0
        }
    }
}

/// How well a team covers: by how many cover, full from five on.
pub open spec fn cover_score<
    P: Fn(Real64, Real64) -> Real64,
    M: Fn(Real64, Real64) -> Real64,
    Q: Fn(Real64, Real64) -> Real64,
    C: Fn(usize) -> Real64,
>(
    plus: P,
    times: M,
    over: Q,
    count: C,
    players: Seq<TeamMember>,
    team: Team,
    ball_y: Real64,
    attack_dir: Real64,
) -> Real64 {
    let n = covering(plus, times, players, team, ball_y, attack_dir, players.len() as int);
    clamped_to(outcome(over, number_of(count, n as usize), num(D5)), num(D0), num(D1))
}

/// How well a team covers behind the ball: full from five players on.
pub fn soccer_formation_lp_rest_defense_score<
    P: Fn(Real64, Real64) -> Real64,
    M: Fn(Real64, Real64) -> Real64,
    Q: Fn(Real64, Real64) -> Real64,
    C: Fn(usize) -> Real64,
>(
    players: &Vec<TeamMember>,
    team: Team,
    ball_y: Real64,
    attack_dir: Real64,
    plus: &P,
    times: &M,
    over: &Q,
    count: &C,
) -> (r: Real64)
    requires
        is_operation(*plus),
        is_operation(*times),
        is_operation(*over),
        is_conversion(*count),
    ensures
        r == cover_score(
            *plus,
            *times,
            *over,
            *count,
            players@,
            team,
            ball_y,
            attack_dir,
        ),
{
    let mut n: usize = 0;
    let mut i: usize = 0;
    while i < players.len()
        invariant
            n <= i <= players@.len(),
            is_operation(*plus),
            is_operation(*times),
            n == covering(*plus, *times, players@, team, ball_y, attack_dir, i as int),
        decreases players@.len() - i,
    {
        let m: TeamMember = players[i];
        let back: Real64 = apply(plus, ball_y, m.position_y.negate());
        let behind: Real64 = apply(times, back, attack_dir);
        if m.team == team && m.role != PlayerRole::Forward && !behind.is_nan()
            && behind.order_key() >= at_bits(DM2).order_key() {
            n += 1;
        }
        i += 1;
    }
    clamp_to(apply(over, to_number(count, n), at_bits(D5)), at_bits(D0), at_bits(D1))
}

/// Something that moves: where, how fast, and how its speed changes.
#[derive(Clone, Copy, Debug, PartialEq, Eq, Structural)]
pub struct Mover {
    pub id: usize,
    pub position: Vec2,
    pub velocity: Vec2,
    pub acceleration: Vec2,
}

/// A coordinate as a part of the pitch, from -1 to 1.
pub open spec fn placed<
    P: Fn(Real64, Real64) -> Real64,
    M: Fn(Real64, Real64) -> Real64,
    Q: Fn(Real64, Real64) -> Real64,
>(plus: P, times: M, over: Q, at: Real64, extent: Real64) -> Real64 {
    clamped_to(
        outcome(plus, outcome(times, outcome(over, at, extent), num(D2)), num(DM1)),
        num(DM2),
        num(D2),
    )
}

/// The six numbers that tell a mover.
pub open spec fn motion_values<
    P: Fn(Real64, Real64) -> Real64,
    M: Fn(Real64, Real64) -> Real64,
    Q: Fn(Real64, Real64) -> Real64,
>(
    plus: P,
    times: M,
    over: Q,
    m: Mover,
    width: Real64,
    length: Real64,
    speed: u64,
    acceleration: u64,
) -> Seq<Real64> {
    seq![
        placed(plus, times, over, m.position.x, width),
        placed(plus, times, over, m.position.y, length),
        scaled_value(over, m.velocity.x, num(speed)),
        scaled_value(over, m.velocity.y, num(speed)),
        scaled_value(over, m.acceleration.x, num(acceleration)),
        scaled_value(over, m.acceleration.y, num(acceleration)),
    ]
}

fn place_on<
    P: Fn(Real64, Real64) -> Real64,
    M: Fn(Real64, Real64) -> Real64,
    Q: Fn(Real64, Real64) -> Real64,
>(at: Real64, extent: Real64, plus: &P, times: &M, over: &Q) -> (r: Real64)
    requires
        is_operation(*plus),
        is_operation(*times),
        is_operation(*over),
    ensures
        r == placed(*plus, *times, *over, at, extent),
{
    let doubled: Real64 = apply(times, apply(over, at, extent), at_bits(D2));
    clamp_to(apply(plus, doubled, at_bits(DM1)), at_bits(DM2), at_bits(D2))
}

fn push_motion<
    P: Fn(Real64, Real64) -> Real64,
    M: Fn(Real64, Real64) -> Real64,
    Q: Fn(Real64, Real64) -> Real64,
>(
    values: &mut Vec<Real64>,
    m: &Mover,
    width: Real64,
    length: Real64,
    speed: u64,
    acceleration: u64,
    plus: &P,
    times: &M,
    over: &Q,
)
    requires
        is_operation(*plus),
        is_operation(*times),
        is_operation(*over),
    ensures
        final(values)@ == old(values)@ + motion_values(
            *plus,
            *times,
            *over,
            *m,
            width,
            length,
            speed,
            acceleration,
        ),
{
    let ghost before = values@;
    values.push(place_on(m.position.x, width, plus, times, over));
    values.push(place_on(m.position.y, length, plus, times, over));
    values.push(soccer_lp_scaled(m.velocity.x, at_bits(speed), over));
    values.push(soccer_lp_scaled(m.velocity.y, at_bits(speed), over));
    values.push(soccer_lp_scaled(m.acceleration.x, at_bits(acceleration), over));
    values.push(soccer_lp_scaled(m.acceleration.y, at_bits(acceleration), over));
    assert(values@ =~= before + motion_values(
        *plus,
        *times,
        *over,
        *m,
        width,
        length,
        speed,
        acceleration,
    ));
}

/// What is measured of the situation.
#[derive(Clone, Copy, Debug, PartialEq, Eq, Structural)]
pub struct StateMeasures {
    /// 1 towards the far goal, -1 towards the near one.
    pub attack_dir: Real64,
    pub clock_seconds: Real64,
    pub duration_seconds: Real64,
    /// Goals of the home side less those of the away side.
    pub score_difference: Real64,
    pub ball_from_center_x: Real64,
    pub half_width: Real64,
    /// Along the direction of attack.
    pub ball_forward_of_center: Real64,
    pub half_length: Real64,
    /// How long the team has had the ball.
    pub possession_seconds: Real64,
    /// How long the holder has had it.
    pub holder_seconds: Real64,
    pub to_opponent_goal: Real64,
    pub to_own_goal: Real64,
    pub width: Real64,
    pub length: Real64,
    pub centroid_to_ball: Real64,
    pub spread: Real64,
    pub near_ball: Real64,
    pub forward_velocity: Real64,
    pub opponents_centroid_to_ball: Real64,
    pub opponents_spread: Real64,
    pub opponents_near_ball: Real64,
    pub cover_target: Real64,
    pub cover_actual: Real64,
    pub numbers_advantage: Real64,
    pub holder_pressure: Real64,
    pub rest_defense: Real64,
    pub average_fatigue: Real64,
}

/// A number of the situation and how it is brought to scale.
#[derive(Clone, Copy, Debug, PartialEq, Eq, Structural)]
pub enum Feature {
    Plain(Real64),
    /// Between 0 and 1.
    Unit(Real64),
    /// As a multiple of a scale.
    Scaled(Real64, Real64),
}

pub open spec fn flag_number(b: bool) -> Real64 {
    num(
        if b {
            D1
        } else {
            D0
        },
    )
}

fn number_of_flag(b: bool) -> (r: Real64)
    ensures
        r == flag_number(b),
{
    at_bits(if b { D1 } else { D0 })
}

/// The situation of a team, number by number.
pub open spec fn situation(
    m: StateMeasures,
    w: SoccerFormationLpObjectiveWeights,
    d: TeamTacticalDirective,
    has_ball: bool,
    defending: bool,
) -> Seq<Feature> {
    seq![
        Feature::Plain(m.attack_dir),
        Feature::Unit(flag_number(has_ball)),
        Feature::Unit(flag_number(defending)),
        Feature::Scaled(m.clock_seconds, m.duration_seconds),
        Feature::Scaled(m.score_difference, num(D5)),
        Feature::Scaled(m.ball_from_center_x, m.half_width),
        Feature::Scaled(m.ball_forward_of_center, m.half_length),
        Feature::Unit(w.expected_goal),
        Feature::Unit(w.progression),
        Feature::Unit(w.retention),
        Feature::Unit(w.expected_goals_against),
        Feature::Unit(w.fatigue),
        Feature::Unit(w.passing_lane_quality),
        Feature::Unit(w.space_occupation),
        Feature::Unit(w.numerical_superiority),
        Feature::Unit(w.press_resistance),
        Feature::Unit(w.defensive_compactness),
        Feature::Unit(w.opponent_progression),
        Feature::Unit(w.transition_risk),
        Feature::Scaled(m.possession_seconds, num(D30)),
        Feature::Scaled(m.holder_seconds, num(D10)),
        Feature::Scaled(m.to_opponent_goal, m.length),
        Feature::Scaled(m.to_own_goal, m.length),
        Feature::Scaled(m.centroid_to_ball, num(D40)),
        Feature::Scaled(m.spread, num(D35)),
        Feature::Scaled(m.near_ball, num(D6)),
        Feature::Scaled(m.forward_velocity, num(D8)),
        Feature::Scaled(m.opponents_centroid_to_ball, num(D40)),
        Feature::Scaled(m.opponents_spread, num(D35)),
        Feature::Scaled(m.opponents_near_ball, num(D6)),
        Feature::Unit(d.press_intensity),
        Feature::Unit(d.risk_tolerance),
        Feature::Scaled(m.cover_target, num(D5)),
        Feature::Scaled(m.cover_actual, num(D5)),
        Feature::Scaled(d.width_yards, m.width),
        Feature::Scaled(d.support_depth_yards, num(D24)),
        Feature::Unit(m.holder_pressure),
        Feature::Unit(m.rest_defense),
        Feature::Unit(m.average_fatigue),
        Feature::Scaled(m.numbers_advantage, num(D4)),
        Feature::Unit(d.attacking_overload_score),
        Feature::Unit(w.adversarial_embedding_attack),
        Feature::Unit(w.adversarial_embedding_defense),
    ]
}

/// Lists the situation of a team, number by number.
pub fn context_features(
    m: &StateMeasures,
    w: &SoccerFormationLpObjectiveWeights,
    d: &TeamTacticalDirective,
    possession: Option<Team>,
    team: Team,
) -> (r: Vec<Feature>)
    ensures
        r@ == situation(
            *m,
            *w,
            *d,
            possession == Some(team),
            possession == Some(team.opponent()),
        ),
{
    let (has_ball, defending): (bool, bool) = match possession {
        Some(t) => (t == team, t != team),
        None => (false, false),
    };
    let r: Vec<Feature> = vec![
        Feature::Plain(m.attack_dir),
        Feature::Unit(number_of_flag(has_ball)),
        Feature::Unit(number_of_flag(defending)),
        Feature::Scaled(m.clock_seconds, m.duration_seconds),
        Feature::Scaled(m.score_difference, at_bits(D5)),
        Feature::Scaled(m.ball_from_center_x, m.half_width),
        Feature::Scaled(m.ball_forward_of_center, m.half_length),
        Feature::Unit(w.expected_goal),
        Feature::Unit(w.progression),
        Feature::Unit(w.retention),
        Feature::Unit(w.expected_goals_against),
        Feature::Unit(w.fatigue),
        Feature::Unit(w.passing_lane_quality),
        Feature::Unit(w.space_occupation),
        Feature::Unit(w.numerical_superiority),
        Feature::Unit(w.press_resistance),
        Feature::Unit(w.defensive_compactness),
        Feature::Unit(w.opponent_progression),
        Feature::Unit(w.transition_risk),
        Feature::Scaled(m.possession_seconds, at_bits(D30)),
        Feature::Scaled(m.holder_seconds, at_bits(D10)),
        Feature::Scaled(m.to_opponent_goal, m.length),
        Feature::Scaled(m.to_own_goal, m.length),
        Feature::Scaled(m.centroid_to_ball, at_bits(D40)),
        Feature::Scaled(m.spread, at_bits(D35)),
        Feature::Scaled(m.near_ball, at_bits(D6)),
        Feature::Scaled(m.forward_velocity, at_bits(D8)),
        Feature::Scaled(m.opponents_centroid_to_ball, at_bits(D40)),
        Feature::Scaled(m.opponents_spread, at_bits(D35)),
        Feature::Scaled(m.opponents_near_ball, at_bits(D6)),
        Feature::Unit(d.press_intensity),
        Feature::Unit(d.risk_tolerance),
        Feature::Scaled(m.cover_target, at_bits(D5)),
        Feature::Scaled(m.cover_actual, at_bits(D5)),
        Feature::Scaled(d.width_yards, m.width),
        Feature::Scaled(d.support_depth_yards, at_bits(D24)),
        Feature::Unit(m.holder_pressure),
        Feature::Unit(m.rest_defense),
        Feature::Unit(m.average_fatigue),
        Feature::Scaled(m.numbers_advantage, at_bits(D4)),
        Feature::Unit(d.attacking_overload_score),
        Feature::Unit(w.adversarial_embedding_attack),
        Feature::Unit(w.adversarial_embedding_defense),
    ];
    assert(r@ =~= situation(*m, *w, *d, has_ball, defending));
    r
}

/// A feature brought to scale, between -2 and 2.
pub open spec fn feature_value<Q: Fn(Real64, Real64) -> Real64>(over: Q, f: Feature) -> Real64 {
    let v = match f {
        Feature::Plain(v) => v,
        Feature::Unit(v) => unit_value(v),
        Feature::Scaled(v, scale) => scaled_value(over, v, scale),
    };
    if v.finite() {
        clamped_to(v, num(DM2), num(D2))
    } else {
        num(D0)
    }
}

fn value_of<Q: Fn(Real64, Real64) -> Real64>(f: Feature, over: &Q) -> (r: Real64)
    requires
        is_operation(*over),
    ensures
        r == feature_value(*over, f),
{
    let v: Real64 = match f {
        Feature::Plain(v) => v,
        Feature::Unit(v) => soccer_lp_unit(v),
        Feature::Scaled(v, scale) => soccer_lp_scaled(v, scale, over),
    };
    if v.is_finite() {
        clamp_to(v, at_bits(DM2), at_bits(D2))
    } else {
        at_bits(D0)
    }
}

/// Zeros.
pub open spec fn zeros(n: int) -> Seq<Real64> {
    Seq::new(n as nat, |i: int| num(D0))
}

/// The values of the first `n` places for players: those of the players in order, then zeros.
pub open spec fn player_values<
    P: Fn(Real64, Real64) -> Real64,
    M: Fn(Real64, Real64) -> Real64,
    Q: Fn(Real64, Real64) -> Real64,
>(
    plus: P,
    times: M,
    over: Q,
    players: Seq<Mover>,
    order: Seq<usize>,
    width: Real64,
    length: Real64,
    n: int,
) -> Seq<Real64>
    decreases n,
{
    if n <= 0 {
        Seq::empty()
    } else {
        player_values(plus, times, over, players, order, width, length, n - 1) + if n - 1
            < order.len() {
            motion_values(
                plus,
                times,
                over,
                players[order[n - 1] as int],
                width,
                length,
                D12,
                D18,
            )
        } else {
            zeros(6)
        }
    }
}

/// The values of the first `n` places for features: those of the features, then zeros.
pub open spec fn context_values<Q: Fn(Real64, Real64) -> Real64>(
    over: Q,
    features: Seq<Feature>,
    n: int,
) -> Seq<Real64> {
    Seq::new(
        n as nat,
        |i: int|
            if i < features.len() {
                feature_value(over, features[i])
            } else {
                num(D0)
            },
    )
}

/// The order of the players is that of their ids.
pub open spec fn id_keys(players: Seq<Mover>) -> Seq<Option<i128>> {
    players.map_values(|m: Mover| Some(m.id as i128))
}

/// What a program is told of the world: the players by id, the ball, the situation.
pub open spec fn is_state<
    P: Fn(Real64, Real64) -> Real64,
    M: Fn(Real64, Real64) -> Real64,
    Q: Fn(Real64, Real64) -> Real64,
>(
    plus: P,
    times: M,
    over: Q,
    players: Seq<Mover>,
    ball: Mover,
    width: Real64,
    length: Real64,
    features: Seq<Feature>,
    values: Seq<Real64>,
) -> bool {
    exists|order: Seq<usize>| #[trigger]
        is_ranking(id_keys(players), order) && values == player_values(
            plus,
            times,
            over,
            players,
            order,
            width,
            length,
            SOCCER_FORMATION_LP_WORLD_PLAYER_CAPACITY as int,
        ) + motion_values(plus, times, over, ball, width, length, D24, D36) + context_values(
            over,
            features,
            SOCCER_FORMATION_LP_CONTEXT_FEATURES as int,
        )
}

/// Puts together what a program is told of the world: the players by id, the ball, the situation.
pub fn soccer_formation_lp_state_values<
    P: Fn(Real64, Real64) -> Real64,
    M: Fn(Real64, Real64) -> Real64,
    Q: Fn(Real64, Real64) -> Real64,
>(
    players: &Vec<Mover>,
    ball: &Mover,
    width: Real64,
    length: Real64,
    features: &Vec<Feature>,
    plus: &P,
    times: &M,
    over: &Q,
) -> (r: Vec<Real64>)
    requires
        is_operation(*plus),
        is_operation(*times),
        is_operation(*over),
        features@.len() <= SOCCER_FORMATION_LP_CONTEXT_FEATURES,
    ensures
        r@.len() == STATE_COUNT,
        is_state(*plus, *times, *over, players@, *ball, width, length, features@, r@),
{
    let mut keys: Vec<Option<i128>> = Vec::new();
    let mut i: usize = 0;
    while i < players.len()
        invariant
            i <= players@.len(),
            keys@ == id_keys(players@).take(i as int),
        decreases players@.len() - i,
    {
        keys.push(Some(players[i].id as i128));
        i += 1;
        assert(keys@ =~= id_keys(players@).take(i as int));
    }
    assert(keys@ =~= id_keys(players@));
    let order: Vec<usize> = ranking(&keys);
    let mut values: Vec<Real64> = Vec::new();
    let mut slot: usize = 0;
    while slot < SOCCER_FORMATION_LP_WORLD_PLAYER_CAPACITY
        invariant
            slot <= SOCCER_FORMATION_LP_WORLD_PLAYER_CAPACITY,
            is_operation(*plus),
            is_operation(*times),
            is_operation(*over),
            is_ranking(id_keys(players@), order@),
            values@.len() == 6 * slot,
            values@ == player_values(
                *plus,
                *times,
                *over,
                players@,
                order@,
                width,
                length,
                slot as int,
            ),
        decreases SOCCER_FORMATION_LP_WORLD_PLAYER_CAPACITY - slot,
    {
        if slot < order.len() {
            assert(order@[slot as int] < id_keys(players@).len());
            push_motion(
                &mut values,
                &players[order[slot]],
                width,
                length,
                D12,
                D18,
                plus,
                times,
                over,
            );
        } else {
            let ghost before = values@;
            let mut k: usize = 0;
            while k < 6
                invariant
                    k <= 6,
                    values@ == before + zeros(k as int),
                decreases 6 - k,
            {
                values.push(at_bits(D0));
                k += 1;
                assert(values@ =~= before + zeros(k as int));
            }
        }
        slot += 1;
    }
    let ghost of_players = values@;
    push_motion(&mut values, ball, width, length, D24, D36, plus, times, over);
    let ghost with_ball = values@;
    let mut i: usize = 0;
    while i < SOCCER_FORMATION_LP_CONTEXT_FEATURES
        invariant
            i <= SOCCER_FORMATION_LP_CONTEXT_FEATURES,
            is_operation(*over),
            values@ == with_ball + context_values(*over, features@, i as int),
        decreases SOCCER_FORMATION_LP_CONTEXT_FEATURES - i,
    {
        if i < features.len() {
            values.push(value_of(features[i], over));
        } else {
            values.push(at_bits(D0));
        }
        i += 1;
        assert(values@ =~= with_ball + context_values(*over, features@, i as int));
    }
    assert(is_ranking(id_keys(players@), order@));
    values
}

/// Every number of the situation that the program is told lies between -2 and 2.
pub proof fn features_are_bounded<Q: Fn(Real64, Real64) -> Real64>(over: Q, f: Feature)
    ensures
        feature_value(over, f).finite(),
        num(DM2).key() <= feature_value(over, f).key() <= num(D2).key(),
{
}

/// A finite share stands for what it is, kept between 0 and 1.
pub proof fn shares_are_kept_between_nothing_and_one(
    means: spec_fn(Real64, real) -> bool,
    v: Real64,
    x: real,
)
    requires
        reads_signs(means),
        reads_order(means),
        reads_decimals(means),
        means(v, x),
    ensures
        v.finite() ==> means(unit_value(v), bounded(x, 0real, 1real)),
        !v.finite() ==> means(unit_value(v), 0real),
{
    decimals_are_read(means);
}

/// A measure as a feature: how often the scale goes into it, kept between -2 and 2.
pub proof fn scaled_measures_are_ratios<
    Q: Fn(Real64, Real64) -> Real64,
>(
    means: spec_fn(Real64, real) -> bool,
    over: Q,
    value: Real64,
    scale: Real64,
    x: real,
    s: real,
)
    requires
        reads_signs(means),
        reads_order(means),
        reads_decimals(means),
        reads_quotients(means, over),
        means(value, x),
        means(scale, s),
        value.finite(),
        !vanishes(scale),
        s != 0real,
    ensures
        means(scaled_value(over, value, scale), bounded(x / s, -2real, 2real)),
{
    decimals_are_read(means);
}

/// A place along the pitch as a feature: -1 at one end, 1 at the other and 0 in the middle.
pub proof fn places_run_from_minus_one_to_one<
    P: Fn(Real64, Real64) -> Real64,
    M: Fn(Real64, Real64) -> Real64,
    Q: Fn(Real64, Real64) -> Real64,
>(
    means: spec_fn(Real64, real) -> bool,
    plus: P,
    times: M,
    over: Q,
    at: Real64,
    extent: Real64,
    x: real,
    e: real,
)
    requires
        is_faithful(means, plus, times),
        reads_quotients(means, over),
        means(at, x),
        means(extent, e),
        e != 0real,
    ensures
        means(
            placed(plus, times, over, at, extent),
            bounded((x / e) * 2real - 1real, -2real, 2real),
        ),
{
    decimals_are_read(means);
    assert((x / e) * 2real + -1real == (x / e) * 2real - 1real);
}

/// The cover is complete with five behind the ball, and every one of them counts alike.
pub proof fn cover_counts_in_fifths<
    P: Fn(Real64, Real64) -> Real64,
    M: Fn(Real64, Real64) -> Real64,
    Q: Fn(Real64, Real64) -> Real64,
    C: Fn(usize) -> Real64,
>(
    means: spec_fn(Real64, real) -> bool,
    plus: P,
    times: M,
    over: Q,
    count: C,
    players: Seq<TeamMember>,
    team: Team,
    ball_y: Real64,
    attack_dir: Real64,
)
    requires
        is_faithful(means, plus, times),
        reads_quotients(means, over),
        reads_counts(means, count),
        players.len() <= usize::MAX,
    ensures
        ({
            let n = covering(plus, times, players, team, ball_y, attack_dir, players.len() as int);
            means(
                cover_score(plus, times, over, count, players, team, ball_y, attack_dir),
                bounded((n as usize) as int as real / 5real, 0real, 1real),
            )
        }),
{
    decimals_are_read(means);
}

/// Who covers: a player of the team, no forward, who stands no more than two yards beyond the ball
/// in the direction of attack.
pub proof fn cover_stands_behind_the_ball<
    P: Fn(Real64, Real64) -> Real64,
    M: Fn(Real64, Real64) -> Real64,
>(
    means: spec_fn(Real64, real) -> bool,
    plus: P,
    times: M,
    m: TeamMember,
    team: Team,
    ball_y: Real64,
    attack_dir: Real64,
    ball: real,
    dir: real,
    y: real,
)
    requires
        is_faithful(means, plus, times),
        means(ball_y, ball),
        means(attack_dir, dir),
        means(m.position_y, y),
    ensures
        exists|behind: Real64| #[trigger]
            means(behind, (ball - y) * dir) && (covers(plus, times, m, team, ball_y, attack_dir)
                <==> m.team == team && m.role != PlayerRole::Forward && !behind.nan()
                && !behind.less(num(DM2))),
{
    decimals_are_read(means);
    let behind = outcome(times, outcome(plus, ball_y, m.position_y.negated()), attack_dir);
    assert(ball + -y == ball - y);
    assert(means(behind, (ball - y) * dir));
}

proof fn fatigue_adds_up<P: Fn(Real64, Real64) -> Real64>(
    means: spec_fn(Real64, real) -> bool,
    plus: P,
    players: Seq<TeamMember>,
    team: Team,
    own: Seq<bool>,
    x: Seq<real>,
    n: int,
)
    requires
        reads_sums(means, plus),
        reads_order(means),
        reads_decimals(means),
        0 <= n <= players.len(),
        own.len() == players.len(),
        x.len() == players.len(),
        forall|i: int| 0 <= i < players.len() ==> own[i] == ((#[trigger] players[i]).team == team),
        forall|i: int|
            0 <= i < players.len() ==> if (#[trigger] players[i]).team == team {
                players[i].fatigue.finite() && exists|f: real| #[trigger]
                    means(players[i].fatigue, f) && x[i] == bounded(f, 0real, 1real)
            } else {
                x[i] == 0real
            },
    ensures
        means(fatigue_sum(plus, players, team, n).0, real_sum(x, n)),
        fatigue_sum(plus, players, team, n).1 == set_flags(own, n),
        0 <= set_flags(own, n) <= n,
    decreases n,
{
    decimals_are_read(means);
    if n > 0 {
        fatigue_adds_up(means, plus, players, team, own, x, n - 1);
        let last = players[n - 1];
    }
}

/// The fatigue of a team is the mean of its own players' fatigue, each kept between nothing and
/// one; the others do not count.
pub proof fn teams_are_as_tired_as_their_players<
    P: Fn(Real64, Real64) -> Real64,
    Q: Fn(Real64, Real64) -> Real64,
    C: Fn(usize) -> Real64,
>(
    means: spec_fn(Real64, real) -> bool,
    plus: P,
    over: Q,
    count: C,
    players: Seq<TeamMember>,
    team: Team,
    own: Seq<bool>,
    x: Seq<real>,
)
    requires
        reads_sums(means, plus),
        reads_quotients(means, over),
        reads_counts(means, count),
        reads_order(means),
        reads_decimals(means),
        players.len() <= usize::MAX,
        own.len() == players.len(),
        x.len() == players.len(),
        forall|i: int| 0 <= i < players.len() ==> own[i] == ((#[trigger] players[i]).team == team),
        forall|i: int|
            0 <= i < players.len() ==> if (#[trigger] players[i]).team == team {
                players[i].fatigue.finite() && exists|f: real| #[trigger]
                    means(players[i].fatigue, f) && x[i] == bounded(f, 0real, 1real)
            } else {
                x[i] == 0real
            },
    ensures
        ({
            let n = players.len() as int;
            let counted = set_flags(own, n);
            counted > 0 ==> means(
                mean_fatigue(plus, over, count, players, team),
                real_sum(x, n) / (counted as real),
            )
        }),
{
    let n = players.len() as int;
    fatigue_adds_up(means, plus, players, team, own, x, n);
    let counted = set_flags(own, n);
    if counted > 0 {
        assert(means(number_of(count, counted as usize), counted as real));
    }
}

proof fn runs_go_back_to_their_start(
    history: Seq<HolderSample>,
    holder: usize,
    now: Real64,
    start: int,
    n: int,
)
    requires
        0 <= start < n <= history.len(),
        start > 0 ==> history[start - 1].holder != Some(holder),
        forall|i: int| start <= i < n ==> (#[trigger] history[i]).holder == Some(holder),
        history[start].clock_seconds.finite(),
    ensures
        held_since(history, holder, now, n) == larger(history[start].clock_seconds, num(D0)),
    decreases n,
{
    let last = history[n - 1];
    let since = if last.clock_seconds.finite() {
        larger(last.clock_seconds, num(D0))
    } else {
        now
    };
    if n - 1 > start {
        runs_go_back_to_their_start(history, holder, since, start, n - 1);
    } else {
        assert(held_since(history, holder, since, start) == since);
    }
}

/// The ball has been held since the first moment of the unbroken run that ends now, and never for
/// less than nothing.
pub proof fn holders_hold_since_their_run_began<
    P: Fn(Real64, Real64) -> Real64,
>(
    means: spec_fn(Real64, real) -> bool,
    plus: P,
    history: Seq<HolderSample>,
    holder: usize,
    clock: Real64,
    start: int,
    now: real,
    began: real,
)
    requires
        reads_sums(means, plus),
        reads_signs(means),
        reads_order(means),
        reads_decimals(means),
        0 <= start < history.len(),
        start > 0 ==> history[start - 1].holder != Some(holder),
        forall|i: int| start <= i < history.len() ==> (#[trigger] history[i]).holder == Some(
            holder,
        ),
        history[start].clock_seconds.finite(),
        clock.finite(),
        means(clock, now),
        means(history[start].clock_seconds, began),
    ensures
        means(
            holding_time(plus, history, Some(holder), clock),
            most(most(now, 0real) - most(began, 0real), 0real),
        ),
{
    decimals_are_read(means);
    runs_go_back_to_their_start(
        history,
        holder,
        reckoned(clock),
        start,
        history.len() as int,
    );
    let a = most(now, 0real);
    let b = most(began, 0real);
    assert(means(larger(history[start].clock_seconds, num(D0)), b));
    assert(a + -b == a - b);
}

} // verus!
