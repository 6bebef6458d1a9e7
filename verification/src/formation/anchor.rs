//! Where a player belongs in the present situation, and how far the shape may give way.
use crate::decimals::{
    D0, D0_001, D0_1, D0_12, D0_16, D0_18, D0_3, D0_35, D0_38, D0_42, D0_44, D0_45, D0_46, D0_5,
    D0_55, D0_58, D0_72, D0_85, D0_9, D1, D1EM06, D1_5, D2, D20, D3, D30, D4, D4_5, D5, D6,
    D7, D8,
};
use crate::formation::state::{soccer_lp_unit, unit_value};
use crate::number::{
    apply, at_bits, clamp_to, clamped_to, is_operation, larger, larger_of, num, outcome, smaller,
    smaller_of, Real64,
};
use crate::pitch::{PlayerRole, Team};
use crate::tunables::{fit_number, fits_mean_bounds, fitted};
use crate::arithmetic::{
    products_keep_order, signs_multiply, sums_keep_order, sums_move_with_signs,
};
use crate::meaning::{
    bounded, decimals_are_read, is_faithful, least, most, reads_decimals, reads_order,
    reads_quotients, reads_signs, reads_sums,
};
use crate::number::negation_mirrors;
use vstd::prelude::*;

verus! {

/// What decides how far up the pitch a player belongs.
#[derive(Clone, Copy, Debug, PartialEq, Eq, Structural)]
pub struct DepthMeasures {
    /// 1 towards the far goal, -1 towards the near one.
    pub attack_dir: Real64,
    pub own_goal_y: Real64,
    pub defensive_line_y: Real64,
    pub support_depth_yards: Real64,
    pub press_intensity: Real64,
    pub ball_y: Real64,
    pub home_y: Real64,
}

/// A place moved along the direction of attack.
pub open spec fn ahead<P: Fn(Real64, Real64) -> Real64, M: Fn(Real64, Real64) -> Real64>(
    plus: P,
    times: M,
    from: Real64,
    dir: Real64,
    by: Real64,
) -> Real64 {
    outcome(plus, from, outcome(times, dir, by))
}

/// A place moved against the direction of attack.
pub open spec fn behind<P: Fn(Real64, Real64) -> Real64, M: Fn(Real64, Real64) -> Real64>(
    plus: P,
    times: M,
    from: Real64,
    dir: Real64,
    by: Real64,
) -> Real64 {
    outcome(plus, from, outcome(times, dir, by).negated())
}

/// How far behind the ball a player drops: less, the harder the team presses.
pub open spec fn drop_of<P: Fn(Real64, Real64) -> Real64, M: Fn(Real64, Real64) -> Real64>(
    plus: P,
    times: M,
    least: u64,
    press: Real64,
    more: u64,
) -> Real64 {
    outcome(
        plus,
        num(least),
        outcome(times, outcome(plus, num(D1), press.negated()), num(more)),
    )
}

/// How far up the pitch a player belongs: with the ball, against it, and while nobody has it.
pub open spec fn depth_for<P: Fn(Real64, Real64) -> Real64, M: Fn(Real64, Real64) -> Real64>(
    plus: P,
    times: M,
    m: DepthMeasures,
    role: PlayerRole,
    possession: Option<Team>,
    team: Team,
) -> Real64 {
    let dir = m.attack_dir;
    let support = outcome(times, dir, m.support_depth_yards);
    if possession == Some(team) {
        match role {
            PlayerRole::Goalkeeper => ahead(plus, times, m.own_goal_y, dir, num(D7)),
            PlayerRole::Defender => behind(plus, times, m.defensive_line_y, dir, num(D2)),
            PlayerRole::Midfielder => outcome(
                plus,
                m.ball_y,
                outcome(times, support, num(D0_42)).negated(),
            ),
            PlayerRole::Forward => outcome(plus, m.ball_y, outcome(times, support, num(D0_72))),
        }
    } else if possession == Some(team.opponent()) {
        match role {
            PlayerRole::Goalkeeper => ahead(plus, times, m.own_goal_y, dir, num(D6)),
            PlayerRole::Defender => m.defensive_line_y,
            PlayerRole::Midfielder => behind(
                plus,
                times,
                m.ball_y,
                dir,
                drop_of(plus, times, D4, m.press_intensity, D8),
            ),
            PlayerRole::Forward => behind(
                plus,
                times,
                m.ball_y,
                dir,
                drop_of(plus, times, D1_5, m.press_intensity, D5),
            ),
        }
    } else {
        outcome(
            plus,
            outcome(times, m.home_y, num(D0_55)),
            outcome(times, m.ball_y, num(D0_45)),
        )
    }
}

fn drop_behind<P: Fn(Real64, Real64) -> Real64, M: Fn(Real64, Real64) -> Real64>(
    m: &DepthMeasures,
    least: u64,
    more: u64,
    plus: &P,
    times: &M,
) -> (r: Real64)
    requires
        is_operation(*plus),
        is_operation(*times),
    ensures
        r == behind(
            *plus,
            *times,
            m.ball_y,
            m.attack_dir,
            drop_of(*plus, *times, least, m.press_intensity, more),
        ),
{
    let eased: Real64 = apply(plus, at_bits(D1), m.press_intensity.negate());
    let drop: Real64 = apply(plus, at_bits(least), apply(times, eased, at_bits(more)));
    apply(plus, m.ball_y, apply(times, m.attack_dir, drop).negate())
}

/// Computes how far up the pitch a player belongs.
pub fn anchor_depth<P: Fn(Real64, Real64) -> Real64, M: Fn(Real64, Real64) -> Real64>(
    m: &DepthMeasures,
    role: PlayerRole,
    possession: Option<Team>,
    team: Team,
    plus: &P,
    times: &M,
) -> (r: Real64)
    requires
        is_operation(*plus),
        is_operation(*times),
    ensures
        r == depth_for(*plus, *times, *m, role, possession, team),
{
    match possession {
        Some(t) => if t == team {
            let support: Real64 = apply(times, m.attack_dir, m.support_depth_yards);
            match role {
                PlayerRole::Goalkeeper => apply(
                    plus,
                    m.own_goal_y,
                    apply(times, m.attack_dir, at_bits(D7)),
                ),
                PlayerRole::Defender => apply(
                    plus,
                    m.defensive_line_y,
                    apply(times, m.attack_dir, at_bits(D2)).negate(),
                ),
                PlayerRole::Midfielder => apply(
                    plus,
                    m.ball_y,
                    apply(times, support, at_bits(D0_42)).negate(),
                ),
                PlayerRole::Forward => apply(
                    plus,
                    m.ball_y,
                    apply(times, support, at_bits(D0_72)),
                ),
            }
        } else {
            match role {
                PlayerRole::Goalkeeper => apply(
                    plus,
                    m.own_goal_y,
                    apply(times, m.attack_dir, at_bits(D6)),
                ),
                PlayerRole::Defender => m.defensive_line_y,
                PlayerRole::Midfielder => drop_behind(m, D4, D8, plus, times),
                PlayerRole::Forward => drop_behind(m, D1_5, D5, plus, times),
            }
        },
        None => apply(
            plus,
            apply(times, m.home_y, at_bits(D0_55)),
            apply(times, m.ball_y, at_bits(D0_45)),
        ),
    }
}

/// What decides how strongly a player is pulled towards the ball's side.
#[derive(Clone, Copy, Debug, PartialEq, Eq, Structural)]
pub struct PullMeasures {
    /// How strictly the role keeps its lane.
    pub lane_commitment: Real64,
    pub progression: Real64,
    pub defensive_compactness: Real64,
    /// The lane of the player's home, from -1 to 1.
    pub home_lane: Real64,
    pub wingback_bonus: Real64,
    pub defender_bonus: Real64,
}

/// How strongly a player is pulled towards the ball's side: defenders more than their lane allows,
/// wide ones most.
pub open spec fn pull_for<P: Fn(Real64, Real64) -> Real64, M: Fn(Real64, Real64) -> Real64>(
    plus: P,
    times: M,
    m: PullMeasures,
    role: PlayerRole,
    in_possession: bool,
) -> Real64 {
    let base = if in_possession {
        outcome(plus, num(D0_18), outcome(times, m.progression, num(D0_1)))
    } else {
        outcome(plus, num(D0_12), outcome(times, m.defensive_compactness, num(D0_16)))
    };
    let eased = clamped_to(
        outcome(plus, num(D1), outcome(times, m.lane_commitment, num(D0_46)).negated()),
        num(D0_3),
        num(D1),
    );
    let pull = outcome(times, base, eased);
    if role == PlayerRole::Defender {
        let bonus = if num(D0_44).less(m.home_lane.absolute()) {
            m.wingback_bonus
        } else {
            m.defender_bonus
        };
        smaller(outcome(plus, pull, bonus), num(D0_9))
    } else {
        pull
    }
}

/// Computes how strongly a player is pulled towards the ball's side.
pub fn ball_side_pull<P: Fn(Real64, Real64) -> Real64, M: Fn(Real64, Real64) -> Real64>(
    m: &PullMeasures,
    role: PlayerRole,
    in_possession: bool,
    plus: &P,
    times: &M,
) -> (r: Real64)
    requires
        is_operation(*plus),
        is_operation(*times),
    ensures
        r == pull_for(*plus, *times, *m, role, in_possession),
{
    let base: Real64 = if in_possession {
        apply(plus, at_bits(D0_18), apply(times, m.progression, at_bits(D0_1)))
    } else {
        apply(plus, at_bits(D0_12), apply(times, m.defensive_compactness, at_bits(D0_16)))
    };
    let kept: Real64 = apply(times, m.lane_commitment, at_bits(D0_46));
    let eased: Real64 = clamp_to(
        apply(plus, at_bits(D1), kept.negate()),
        at_bits(D0_3),
        at_bits(D1),
    );
    let pull: Real64 = apply(times, base, eased);
    if role == PlayerRole::Defender {
        let bonus: Real64 = if at_bits(D0_44).is_below(m.home_lane.abs()) {
            m.wingback_bonus
        } else {
            m.defender_bonus
        };
        smaller_of(apply(plus, pull, bonus), at_bits(D0_9))
    } else {
        pull
    }
}

/// A mixture of two numbers, with so much of the second.
pub open spec fn blended<P: Fn(Real64, Real64) -> Real64, M: Fn(Real64, Real64) -> Real64>(
    plus: P,
    times: M,
    a: Real64,
    b: Real64,
    share: Real64,
) -> Real64 {
    outcome(
        plus,
        outcome(times, a, outcome(plus, num(D1), share.negated())),
        outcome(times, b, share),
    )
}

/// Mixes two numbers.
pub fn blend<P: Fn(Real64, Real64) -> Real64, M: Fn(Real64, Real64) -> Real64>(
    a: Real64,
    b: Real64,
    share: Real64,
    plus: &P,
    times: &M,
) -> (r: Real64)
    requires
        is_operation(*plus),
        is_operation(*times),
    ensures
        r == blended(*plus, *times, a, b, share),
{
    let rest: Real64 = apply(plus, at_bits(D1), share.negate());
    apply(plus, apply(times, a, rest), apply(times, b, share))
}

/// How strongly a player out of shape is drawn back: not at all within the dead zone, then with the
/// error up to the full weight.
pub open spec fn restoring_weight<
    P: Fn(Real64, Real64) -> Real64,
    M: Fn(Real64, Real64) -> Real64,
    Q: Fn(Real64, Real64) -> Real64,
>(
    plus: P,
    times: M,
    over: Q,
    error: Real64,
    deadzone: Real64,
    full_error: Real64,
    weight: Real64,
) -> Option<Real64> {
    if deadzone.less(error) {
        let ramp = outcome(plus, error, deadzone.negated());
        Some(
            smaller(
                outcome(
                    times,
                    outcome(over, ramp, larger(full_error, num(D0_001))),
                    weight,
                ),
                weight,
            ),
        )
    } else {
        None
    }
}

/// Computes how strongly a player out of shape is drawn back.
pub fn relational_pull<
    P: Fn(Real64, Real64) -> Real64,
    M: Fn(Real64, Real64) -> Real64,
    Q: Fn(Real64, Real64) -> Real64,
>(
    error: Real64,
    deadzone: Real64,
    full_error: Real64,
    weight: Real64,
    plus: &P,
    times: &M,
    over: &Q,
) -> (r: Option<Real64>)
    requires
        is_operation(*plus),
        is_operation(*times),
        is_operation(*over),
    ensures
        r == restoring_weight(
            *plus,
            *times,
            *over,
            error,
            deadzone,
            full_error,
            weight,
        ),
{
    if deadzone.is_below(error) {
        let ramp: Real64 = apply(plus, error, deadzone.negate());
        let part: Real64 = apply(over, ramp, larger_of(full_error, at_bits(D0_001)));
        Some(smaller_of(apply(times, part, weight), weight))
    } else {
        None
    }
}

/// A player is left alone inside the dead zone, and never drawn back by more than the full weight.
pub proof fn shape_pulls_are_capped<
    P: Fn(Real64, Real64) -> Real64,
    M: Fn(Real64, Real64) -> Real64,
    Q: Fn(Real64, Real64) -> Real64,
>(
    plus: P,
    times: M,
    over: Q,
    error: Real64,
    deadzone: Real64,
    full_error: Real64,
    weight: Real64,
)
    requires
        !weight.nan(),
    ensures
        ({
            let w = restoring_weight(plus, times, over, error, deadzone, full_error, weight);
            &&& w is None <==> !deadzone.less(error)
            &&& w matches Some(v) ==> !v.nan() && v.key() <= weight.key()
        }),
{
}

/// What decides how far a player reaches within a step.
#[derive(Clone, Copy, Debug, PartialEq, Eq, Structural)]
pub struct ReachMeasures {
    pub top_speed: Real64,
    pub speed: Real64,
    pub max_acceleration: Real64,
    pub acceleration: Real64,
    pub fatigue: Real64,
    pub dt_seconds: Real64,
}

/// How far a player reaches within a step: by speed, less when tired, and by acceleration.
pub open spec fn reach_of<P: Fn(Real64, Real64) -> Real64, M: Fn(Real64, Real64) -> Real64>(
    plus: P,
    times: M,
    m: ReachMeasures,
) -> Real64 {
    let dt = if m.dt_seconds.finite() {
        larger(m.dt_seconds, num(D0))
    } else {
        num(D0)
    };
    let vigour = clamped_to(
        outcome(plus, num(D1), outcome(times, unit_value(m.fatigue), num(D0_38)).negated()),
        num(D0_35),
        num(D1),
    );
    let speed = larger(larger(fitted(m.top_speed, D0, D0, D20), m.speed), num(D0));
    let push = larger(larger(fitted(m.max_acceleration, D0, D0, D30), m.acceleration), num(D0));
    let by_speed = outcome(times, outcome(times, speed, vigour), dt);
    let by_push = outcome(times, outcome(times, outcome(times, num(D0_5), push), dt), dt);
    clamped_to(
        outcome(plus, outcome(plus, by_speed, by_push), num(D0_12)),
        num(D0),
        num(D4_5),
    )
}

/// Computes how far a player reaches within a step.
pub fn soccer_formation_lp_reach_yards<
    P: Fn(Real64, Real64) -> Real64,
    M: Fn(Real64, Real64) -> Real64,
>(m: &ReachMeasures, plus: &P, times: &M) -> (r: Real64)
    requires
        is_operation(*plus),
        is_operation(*times),
    ensures
        r == reach_of(*plus, *times, *m),
{
    let dt: Real64 = if m.dt_seconds.is_finite() {
        larger_of(m.dt_seconds, at_bits(D0))
    } else {
        at_bits(D0)
    };
    let tired: Real64 = apply(times, soccer_lp_unit(m.fatigue), at_bits(D0_38));
    let vigour: Real64 = clamp_to(
        apply(plus, at_bits(D1), tired.negate()),
        at_bits(D0_35),
        at_bits(D1),
    );
    let top: Real64 = fit_number(m.top_speed, D0, D0, D20);
    let most: Real64 = fit_number(m.max_acceleration, D0, D0, D30);
    let speed: Real64 = larger_of(larger_of(top, m.speed), at_bits(D0));
    let push: Real64 = larger_of(larger_of(most, m.acceleration), at_bits(D0));
    let by_speed: Real64 = apply(times, apply(times, speed, vigour), dt);
    let by_push: Real64 = apply(
        times,
        apply(times, apply(times, at_bits(D0_5), push), dt),
        dt,
    );
    clamp_to(
        apply(plus, apply(plus, by_speed, by_push), at_bits(D0_12)),
        at_bits(D0),
        at_bits(D4_5),
    )
}

/// A pair of teammates as their shape is loosened: one runs past the other.
#[derive(Clone, Copy, Debug, PartialEq, Eq, Structural)]
pub struct OverlapMeasures {
    pub runner_active: bool,
    pub teammate_active: bool,
    pub runner_role: PlayerRole,
    pub teammate_role: PlayerRole,
    pub distance: Real64,
    pub speed: Real64,
    /// Along the direction of attack.
    pub forward_speed: Real64,
    /// How far ahead of the teammate the runner is.
    pub current_lead: Real64,
    /// How far ahead of the teammate the runner will soon be.
    pub projected_lead: Real64,
}

/// The distances that decide about an overlap, in yards.
#[derive(Clone, Copy, Debug, PartialEq, Eq, Structural)]
pub struct OverlapLimits {
    pub teammate_radius: Real64,
    pub min_forward: Real64,
    pub occupied_radius: Real64,
}

/// A part of a range above its start, between 0 and 1.
pub open spec fn part_above<P: Fn(Real64, Real64) -> Real64, Q: Fn(Real64, Real64) -> Real64>(
    plus: P,
    over: Q,
    value: Real64,
    start: Real64,
    range: Real64,
) -> Real64 {
    clamped_to(
        outcome(over, outcome(plus, value, start.negated()), range),
        num(D0),
        num(D1),
    )
}

fn share_above<P: Fn(Real64, Real64) -> Real64, Q: Fn(Real64, Real64) -> Real64>(
    value: Real64,
    start: Real64,
    range: Real64,
    plus: &P,
    over: &Q,
) -> (r: Real64)
    requires
        is_operation(*plus),
        is_operation(*over),
    ensures
        r == part_above(*plus, *over, value, start, range),
{
    clamp_to(
        apply(over, apply(plus, value, start.negate()), range),
        at_bits(D0),
        at_bits(D1),
    )
}

/// Outfield teammates who are both on the pitch and close enough.
pub open spec fn may_overlap(m: OverlapMeasures, limits: OverlapLimits) -> bool {
    &&& m.runner_active && m.teammate_active
    &&& m.runner_role != PlayerRole::Goalkeeper && m.teammate_role != PlayerRole::Goalkeeper
    &&& !limits.teammate_radius.less(m.distance)
}

/// How much an overlapping run loosens the shape of a pair.
pub open spec fn overlap_relief<
    P: Fn(Real64, Real64) -> Real64,
    M: Fn(Real64, Real64) -> Real64,
    Q: Fn(Real64, Real64) -> Real64,
>(plus: P, times: M, over: Q, m: OverlapMeasures, limits: OverlapLimits) -> Real64 {
    if !may_overlap(m, limits) {
        num(D0)
    } else {
        let passing = part_above(
            plus,
            over,
            larger(m.projected_lead, m.current_lead),
            limits.min_forward,
            num(D3),
        );
        let close = part_above(
            plus,
            over,
            limits.teammate_radius,
            m.distance,
            larger(
                outcome(plus, limits.teammate_radius, limits.occupied_radius.negated()),
                num(D1EM06),
            ),
        );
        let fast = part_above(plus, over, m.speed, num(D4_5), num(D3));
        let forward = part_above(plus, over, larger(m.forward_speed, num(D0)), num(D3), num(D6));
        clamped_to(
            outcome(
                times,
                outcome(times, outcome(times, outcome(times, passing, close), fast), forward),
                num(D0_55),
            ),
            num(D0),
            num(D0_55),
        )
    }
}

/// Computes how much an overlapping run loosens the shape of a pair.
pub fn soccer_formation_lp_offensive_overlap_relief<
    P: Fn(Real64, Real64) -> Real64,
    M: Fn(Real64, Real64) -> Real64,
    Q: Fn(Real64, Real64) -> Real64,
>(m: &OverlapMeasures, limits: &OverlapLimits, plus: &P, times: &M, over: &Q) -> (r: Real64)
    requires
        is_operation(*plus),
        is_operation(*times),
        is_operation(*over),
    ensures
        r == overlap_relief(*plus, *times, *over, *m, *limits),
{
    if !m.runner_active || !m.teammate_active || m.runner_role == PlayerRole::Goalkeeper
        || m.teammate_role == PlayerRole::Goalkeeper {
        return at_bits(D0);
    }
    if limits.teammate_radius.is_below(m.distance) {
        return at_bits(D0);
    }
    let lead: Real64 = larger_of(m.projected_lead, m.current_lead);
    let passing: Real64 = share_above(lead, limits.min_forward, at_bits(D3), plus, over);
    let free: Real64 = larger_of(
        apply(plus, limits.teammate_radius, limits.occupied_radius.negate()),
        at_bits(D1EM06),
    );
    let close: Real64 = share_above(limits.teammate_radius, m.distance, free, plus, over);
    let fast: Real64 = share_above(m.speed, at_bits(D4_5), at_bits(D3), plus, over);
    let onward: Real64 = larger_of(m.forward_speed, at_bits(D0));
    let forward: Real64 = share_above(onward, at_bits(D3), at_bits(D6), plus, over);
    let product: Real64 = apply(
        times,
        apply(times, apply(times, passing, close), fast),
        forward,
    );
    clamp_to(apply(times, product, at_bits(D0_55)), at_bits(D0), at_bits(D0_55))
}

/// How much the shape of a pair is loosened: while defending with the pressure on both, while
/// attacking with the better overlap of the two.
pub open spec fn pair_relief<P: Fn(Real64, Real64) -> Real64, M: Fn(Real64, Real64) -> Real64>(
    plus: P,
    times: M,
    possession: Option<Team>,
    team: Team,
    pressure_a: Real64,
    pressure_b: Real64,
    overlap_ab: Real64,
    overlap_ba: Real64,
) -> Real64 {
    let tracking = if possession == Some(team.opponent()) {
        unit_value(
            outcome(
                times,
                outcome(times, outcome(plus, pressure_a, pressure_b), num(D0_5)),
                num(D0_58),
            ),
        )
    } else {
        num(D0)
    };
    let overlap = if possession == Some(team) {
        larger(overlap_ab, overlap_ba)
    } else {
        num(D0)
    };
    clamped_to(larger(tracking, overlap), num(D0), num(D0_85))
}

/// Computes how much the shape of a pair is loosened.
pub fn soccer_formation_lp_pair_shape_relief<
    P: Fn(Real64, Real64) -> Real64,
    M: Fn(Real64, Real64) -> Real64,
>(
    possession: Option<Team>,
    team: Team,
    pressure_a: Real64,
    pressure_b: Real64,
    overlap_ab: Real64,
    overlap_ba: Real64,
    plus: &P,
    times: &M,
) -> (r: Real64)
    requires
        is_operation(*plus),
        is_operation(*times),
    ensures
        r == pair_relief(
            *plus,
            *times,
            possession,
            team,
            pressure_a,
            pressure_b,
            overlap_ab,
            overlap_ba,
        ),
{
    let (attacking, defending): (bool, bool) = match possession {
        Some(t) => (t == team, t != team),
        None => (false, false),
    };
    let tracking: Real64 = if defending {
        let mean: Real64 = apply(times, apply(plus, pressure_a, pressure_b), at_bits(D0_5));
        soccer_lp_unit(apply(times, mean, at_bits(D0_58)))
    } else {
        at_bits(D0)
    };
    let overlap: Real64 = if attacking {
        larger_of(overlap_ab, overlap_ba)
    } else {
        at_bits(D0)
    };
    clamp_to(larger_of(tracking, overlap), at_bits(D0), at_bits(D0_85))
}

/// With the ball, midfielders support it from behind and forwards run beyond it: along the
/// direction of attack a midfielder belongs no further than the ball, a forward no less far.
pub proof fn midfielders_support_from_behind<
    P: Fn(Real64, Real64) -> Real64,
    M: Fn(Real64, Real64) -> Real64,
>(plus: P, times: M, m: DepthMeasures, team: Team)
    requires
        sums_keep_order(plus),
        products_keep_order(times),
        m.ball_y.finite(),
        m.attack_dir.finite(),
        m.support_depth_yards.finite(),
        m.support_depth_yards.key() >= 0,
    ensures
        ({
            let midfielder = depth_for(
                plus,
                times,
                m,
                PlayerRole::Midfielder,
                Some(team),
                team,
            );
            let forward = depth_for(plus, times, m, PlayerRole::Forward, Some(team), team);
            &&& m.attack_dir.key() >= 0 ==> midfielder.key() <= m.ball_y.key() <= forward.key()
            &&& m.attack_dir.key() <= 0 ==> forward.key() <= m.ball_y.key() <= midfielder.key()
        }),
{
    let support = outcome(times, m.attack_dir, m.support_depth_yards);
    signs_multiply(times, m.attack_dir, m.support_depth_yards);
    signs_multiply(times, support, num(D0_42));
    signs_multiply(times, support, num(D0_72));
    let back = outcome(times, support, num(D0_42));
    negation_mirrors(back);
    sums_move_with_signs(plus, m.ball_y, back.negated());
    sums_move_with_signs(plus, m.ball_y, outcome(times, support, num(D0_72)));
}

/// How many yards up the direction of attack every role belongs. With the ball: the keeper 7 in
/// front of the own goal, defenders 2 behind their line, midfielders the better two fifths of the
/// support depth behind the ball, forwards nearly three quarters of it beyond. Against it: the
/// keeper 6 in front of goal, defenders on their line, midfielders 4 to 12 behind the ball and
/// forwards 1.5 to 6.5, less the harder the team presses. Else between home and ball.
pub proof fn depths_are_yards_along_the_attack<
    P: Fn(Real64, Real64) -> Real64,
    M: Fn(Real64, Real64) -> Real64,
>(
    means: spec_fn(Real64, real) -> bool,
    plus: P,
    times: M,
    m: DepthMeasures,
    team: Team,
    dir: real,
    goal: real,
    line: real,
    support: real,
    press: real,
    ball: real,
    home: real,
)
    requires
        is_faithful(means, plus, times),
        means(m.attack_dir, dir),
        means(m.own_goal_y, goal),
        means(m.defensive_line_y, line),
        means(m.support_depth_yards, support),
        means(m.press_intensity, press),
        means(m.ball_y, ball),
        means(m.home_y, home),
    ensures
        ({
            let own = |role: PlayerRole| depth_for(plus, times, m, role, Some(team), team);
            let against = |role: PlayerRole|
                depth_for(plus, times, m, role, Some(team.opponent()), team);
            &&& means(own(PlayerRole::Goalkeeper), goal + dir * 7real)
            &&& means(own(PlayerRole::Defender), line - dir * 2real)
            &&& means(own(PlayerRole::Midfielder), ball - dir * support * (42real / 100real))
            &&& means(own(PlayerRole::Forward), ball + dir * support * (72real / 100real))
            &&& means(against(PlayerRole::Goalkeeper), goal + dir * 6real)
            &&& means(against(PlayerRole::Defender), line)
            &&& means(
                against(PlayerRole::Midfielder),
                ball - dir * (4real + (1real - press) * 8real),
            )
            &&& means(
                against(PlayerRole::Forward),
                ball - dir * (3real / 2real + (1real - press) * 5real),
            )
            &&& forall|role: PlayerRole|
                means(
                    #[trigger] depth_for(plus, times, m, role, None, team),
                    home * (55real / 100real) + ball * (45real / 100real),
                )
        }),
{
    decimals_are_read(means);
}

/// How strongly a player is pulled to the ball: the base grows with progression or compactness, a
/// role that keeps its lane eases it down to three tenths at most, and defenders get their bonus up
/// to nine tenths.
pub proof fn pulls_to_the_ball_ease_with_the_lane<
    P: Fn(Real64, Real64) -> Real64,
    M: Fn(Real64, Real64) -> Real64,
>(
    means: spec_fn(Real64, real) -> bool,
    plus: P,
    times: M,
    m: PullMeasures,
    role: PlayerRole,
    lane: real,
    progression: real,
    compactness: real,
    wingback: real,
    defender: real,
)
    requires
        is_faithful(means, plus, times),
        means(m.lane_commitment, lane),
        means(m.progression, progression),
        means(m.defensive_compactness, compactness),
        means(m.wingback_bonus, wingback),
        means(m.defender_bonus, defender),
    ensures
        ({
            let eased = bounded(1real - lane * (23real / 50real), (3real / 10real), 1real);
            let attack = ((9real / 50real) + progression * (1real / 10real)) * eased;
            let defence = ((3real / 25real) + compactness * (4real / 25real)) * eased;
            let bonus = if num(D0_44).less(m.home_lane.absolute()) {
                wingback
            } else {
                defender
            };
            &&& role != PlayerRole::Defender ==> means(
                pull_for(plus, times, m, role, true),
                attack,
            ) && means(pull_for(plus, times, m, role, false), defence)
            &&& role == PlayerRole::Defender ==> means(
                pull_for(plus, times, m, role, true),
                least(attack + bonus, (9real / 10real)),
            ) && means(
                pull_for(plus, times, m, role, false),
                least(defence + bonus, (9real / 10real)),
            )
        }),
{
    decimals_are_read(means);
    assert(1real + -(lane * (23real / 50real)) == 1real - lane * (23real / 50real));
    assert(means(num(D0_9), (9real / 10real)));
}

/// A blend of two numbers: the share of the way from the first to the second.
pub proof fn blends_lie_between<
    P: Fn(Real64, Real64) -> Real64,
    M: Fn(Real64, Real64) -> Real64,
>(
    means: spec_fn(Real64, real) -> bool,
    plus: P,
    times: M,
    a: Real64,
    b: Real64,
    share: Real64,
    x: real,
    y: real,
    s: real,
)
    requires
        is_faithful(means, plus, times),
        means(a, x),
        means(b, y),
        means(share, s),
    ensures
        means(blended(plus, times, a, b, share), x + s * (y - x)),
{
    decimals_are_read(means);
    assert(1real + -s == 1real - s);
    assert(x * (1real - s) + y * s == x + s * (y - x)) by (nonlinear_arith);
}

/// Beyond the dead zone the shape pulls back with the part that the error is beyond it of the full
/// error, and never with more than the weight.
pub proof fn the_shape_restores_with_the_error<
    P: Fn(Real64, Real64) -> Real64,
    M: Fn(Real64, Real64) -> Real64,
    Q: Fn(Real64, Real64) -> Real64,
>(
    means: spec_fn(Real64, real) -> bool,
    plus: P,
    times: M,
    over: Q,
    error: Real64,
    deadzone: Real64,
    full_error: Real64,
    weight: Real64,
    e: real,
    d: real,
    f: real,
    w: real,
)
    requires
        is_faithful(means, plus, times),
        reads_quotients(means, over),
        means(error, e),
        means(deadzone, d),
        means(full_error, f),
        means(weight, w),
    ensures
        restoring_weight(plus, times, over, error, deadzone, full_error, weight) is Some
            <==> deadzone.less(error),
        restoring_weight(
            plus,
            times,
            over,
            error,
            deadzone,
            full_error,
            weight,
        ) matches Some(r) ==> means(r, least((e - d) / most(f, (1real / 1000real)) * w, w)),
{
    decimals_are_read(means);
    assert(e + -d == e - d);
    assert(most(f, (1real / 1000real)) != 0real);
}

/// How far a player gets in a moment: by the speed that fatigue leaves, by half the acceleration
/// times the time squared, and 0.12 yards more; at most 4.5.
pub proof fn reach_is_run_and_push<
    P: Fn(Real64, Real64) -> Real64,
    M: Fn(Real64, Real64) -> Real64,
>(
    means: spec_fn(Real64, real) -> bool,
    plus: P,
    times: M,
    m: ReachMeasures,
    dt: real,
    fatigue: real,
    top: real,
    speed: real,
    push: real,
    now: real,
)
    requires
        is_faithful(means, plus, times),
        means(m.dt_seconds, dt),
        m.dt_seconds.finite(),
        means(m.fatigue, fatigue),
        m.fatigue.finite(),
        means(m.top_speed, top),
        m.top_speed.finite(),
        means(m.speed, speed),
        means(m.max_acceleration, push),
        m.max_acceleration.finite(),
        means(m.acceleration, now),
    ensures
        ({
            let t = most(dt, 0real);
            let vigour = bounded(
                1real - bounded(fatigue, 0real, 1real) * (19real / 50real),
                (7real / 20real),
                1real,
            );
            let pace = most(most(bounded(top, 0real, 20real), speed), 0real);
            let thrust = most(most(bounded(push, 0real, 30real), now), 0real);
            means(
                reach_of(plus, times, m),
                bounded(
                    pace * vigour * t + thrust * t * t / 2real + (3real / 25real),
                    0real,
                    (9real / 2real),
                ),
            )
        }),
{
    decimals_are_read(means);
    fits_mean_bounds(means, m.top_speed, D0, D0, D20, top, 0real, 0real, 20real);
    fits_mean_bounds(means, m.max_acceleration, D0, D0, D30, push, 0real, 0real, 30real);
    let f = bounded(fatigue, 0real, 1real);
    assert(1real + -(f * (19real / 50real)) == 1real - f * (19real / 50real));
    let t = most(dt, 0real);
    let thrust = most(most(bounded(push, 0real, 30real), now), 0real);
    assert((1real / 2real) * thrust * t * t == thrust * t * t / 2real) by (nonlinear_arith);
}

/// How far a value is beyond the start, as a part of the range.
pub proof fn parts_above_run_from_nothing_to_one<
    P: Fn(Real64, Real64) -> Real64,
    Q: Fn(Real64, Real64) -> Real64,
>(
    means: spec_fn(Real64, real) -> bool,
    plus: P,
    over: Q,
    value: Real64,
    start: Real64,
    range: Real64,
    x: real,
    s: real,
    g: real,
)
    requires
        reads_sums(means, plus),
        reads_signs(means),
        reads_order(means),
        reads_decimals(means),
        reads_quotients(means, over),
        means(value, x),
        means(start, s),
        means(range, g),
        g != 0real,
    ensures
        means(part_above(plus, over, value, start, range), bounded((x - s) / g, 0real, 1real)),
{
    decimals_are_read(means);
    assert(x + -s == x - s);
}

/// An overlapping run relieves by up to 0.55: by how far the runner is past, how close the
/// teammate, how fast the run and how fast forwards, each as a part.
pub proof fn overlapping_runs_relieve<
    P: Fn(Real64, Real64) -> Real64,
    M: Fn(Real64, Real64) -> Real64,
    Q: Fn(Real64, Real64) -> Real64,
>(
    means: spec_fn(Real64, real) -> bool,
    plus: P,
    times: M,
    over: Q,
    m: OverlapMeasures,
    limits: OverlapLimits,
    lead: real,
    now: real,
    radius: real,
    apart: real,
    room: real,
    ahead: real,
    speed: real,
    forward: real,
)
    requires
        is_faithful(means, plus, times),
        reads_quotients(means, over),
        may_overlap(m, limits),
        means(m.projected_lead, lead),
        means(m.current_lead, now),
        means(limits.teammate_radius, radius),
        means(m.distance, apart),
        means(limits.occupied_radius, room),
        means(limits.min_forward, ahead),
        means(m.speed, speed),
        means(m.forward_speed, forward),
    ensures
        ({
            let passing = bounded((most(lead, now) - ahead) / 3real, 0real, 1real);
            let close = bounded(
                (radius - apart) / most(radius - room, 1real / 1000000real),
                0real,
                1real,
            );
            let fast = bounded((speed - (9real / 2real)) / 3real, 0real, 1real);
            let onward = bounded((most(forward, 0real) - 3real) / 6real, 0real, 1real);
            means(
                overlap_relief(plus, times, over, m, limits),
                bounded(
                    passing * close * fast * onward * (11real / 20real),
                    0real,
                    (11real / 20real),
                ),
            )
        }),
{
    decimals_are_read(means);
    assert(radius + -room == radius - room);
    assert(radius + -apart == radius - apart);
    assert(most(lead, now) + -ahead == most(lead, now) - ahead);
    assert(speed + -(9real / 2real) == speed - (9real / 2real));
    assert(most(forward, 0real) + -3real == most(forward, 0real) - 3real);
    assert(means(num(D0_55), (11real / 20real)));
}

/// A pair gives way against the ball by 0.58 of its mean pressing, with it by the greater of its
/// overlaps, else not; never beyond 0.85.
pub proof fn pairs_are_relieved_by_their_task<
    P: Fn(Real64, Real64) -> Real64,
    M: Fn(Real64, Real64) -> Real64,
>(
    means: spec_fn(Real64, real) -> bool,
    plus: P,
    times: M,
    team: Team,
    pressure_a: Real64,
    pressure_b: Real64,
    overlap_ab: Real64,
    overlap_ba: Real64,
    pa: real,
    pb: real,
    oa: real,
    ob: real,
)
    requires
        is_faithful(means, plus, times),
        means(pressure_a, pa),
        means(pressure_b, pb),
        means(overlap_ab, oa),
        means(overlap_ba, ob),
        outcome(times, outcome(times, outcome(plus, pressure_a, pressure_b), num(D0_5)), num(D0_58)).finite(),
    ensures
        ({
            let relief = |p: Option<Team>|
                pair_relief(
                    plus,
                    times,
                    p,
                    team,
                    pressure_a,
                    pressure_b,
                    overlap_ab,
                    overlap_ba,
                );
            &&& means(
                relief(Some(team.opponent())),
                bounded(
                    most(bounded((pa + pb) / 2real * (29real / 50real), 0real, 1real), 0real),
                    0real,
                    (17real / 20real),
                ),
            )
            &&& means(
                relief(Some(team)),
                bounded(most(0real, most(oa, ob)), 0real, (17real / 20real)),
            )
            &&& means(relief(None), 0real)
        }),
{
    decimals_are_read(means);
    assert((pa + pb) * (1real / 2real) == (pa + pb) / 2real);
    assert(most(0real, 0real) == 0real && bounded(0real, 0real, (17real / 20real)) == 0real);
    assert(means(larger(num(D0), num(D0)), most(0real, 0real)));
}

} // verus!
