//! Refining the guidance of single players: how urgent it is, what room a player has along an
//! axis, and how much others are in the way.
use crate::decimals::{
    D0, D0_05, D0_1, D0_2, D0_28, D0_48, D0_5, D0_55, D0_85, D12, D14, D16, D1EM09, D1EM12, D1_35,
    D1_55, D1_75, D1, D28, D4, D48, D4_5, D56, D7,
};
use crate::meaning::{
    bounded, decimals_are_read, is_faithful, least, most, reads_decimals, reads_order,
    reads_quotients, reads_signs, reads_sums,
};
use crate::number::{
    apply, at_bits, clamp_to, clamped_to, is_operation, larger, larger_of, num, outcome, smaller,
    smaller_of, Real64,
};
use crate::pitch::PlayerRole;
use crate::reals::pos_times;
use vstd::prelude::*;

verus! {

/// What the guidance of a player says of its urgency.
#[derive(Clone, Copy, Debug, PartialEq, Eq, Structural)]
pub struct UrgencyMeasures {
    pub recommended_move_yards: Real64,
    pub pressure_weight: Real64,
    pub speed_match_weight: Real64,
    pub pair_error_yards: Real64,
}

/// How urgent it is to refine a player, more without the ball.
pub open spec fn urgency_of<P: Fn(Real64, Real64) -> Real64, M: Fn(Real64, Real64) -> Real64>(
    plus: P,
    times: M,
    m: UrgencyMeasures,
    has_ball: bool,
) -> Real64 {
    let s1 = outcome(
        plus,
        outcome(times, m.recommended_move_yards, num(D0_48)),
        outcome(times, m.pressure_weight, num(D1_55)),
    );
    let s2 = outcome(plus, s1, outcome(times, m.speed_match_weight, num(D0_85)));
    let s3 = outcome(plus, s2, outcome(times, m.pair_error_yards, num(D0_28)));
    outcome(
        plus,
        s3,
        num(
            if has_ball {
                D0
            } else {
                D0_85
            },
        ),
    )
}

/// The urgency of refining a player: none for a player off the pitch, the goalkeeper, the ball
/// holder, or where it is too small.
pub open spec fn refining_priority<
    P: Fn(Real64, Real64) -> Real64,
    M: Fn(Real64, Real64) -> Real64,
>(
    plus: P,
    times: M,
    role: Option<PlayerRole>,
    holds_ball: bool,
    has_ball: bool,
    m: UrgencyMeasures,
) -> Option<Real64> {
    let urgency = urgency_of(plus, times, m, has_ball);
    if role is Some && role != Some(PlayerRole::Goalkeeper) && !holds_ball && urgency.finite()
        && num(D0_1).less(urgency) {
        Some(urgency)
    } else {
        None
    }
}

/// Weighs how urgent it is to refine a player.
pub fn soccer_local_mpc_candidate_priority<
    P: Fn(Real64, Real64) -> Real64,
    M: Fn(Real64, Real64) -> Real64,
>(
    role: Option<PlayerRole>,
    holds_ball: bool,
    has_ball: bool,
    m: &UrgencyMeasures,
    plus: &P,
    times: &M,
) -> (r: Option<Real64>)
    requires
        is_operation(*plus),
        is_operation(*times),
    ensures
        r == refining_priority(*plus, *times, role, holds_ball, has_ball, *m),
{
    match role {
        Some(role) => {
            if role == PlayerRole::Goalkeeper || holds_ball {
                return None;
            }
        },
        None => return None,
    }
    let bonus: u64 = if has_ball { D0 } else { D0_85 };
    let s1: Real64 = apply(
        plus,
        apply(times, m.recommended_move_yards, at_bits(D0_48)),
        apply(times, m.pressure_weight, at_bits(D1_55)),
    );
    let s2: Real64 = apply(plus, s1, apply(times, m.speed_match_weight, at_bits(D0_85)));
    let s3: Real64 = apply(plus, s2, apply(times, m.pair_error_yards, at_bits(D0_28)));
    let urgency: Real64 = apply(plus, s3, at_bits(bonus));
    if urgency.is_finite() && at_bits(D0_1).is_below(urgency) {
        Some(urgency)
    } else {
        None
    }
}

/// A player's motion along an axis of the pitch, and its limits.
#[derive(Clone, Copy, Debug, PartialEq, Eq, Structural)]
pub struct AxisMotion {
    pub position: Real64,
    pub velocity: Real64,
    pub dt: Real64,
    pub min_position: Real64,
    pub max_position: Real64,
    pub accel_cap: Real64,
    pub speed_cap: Real64,
}

/// The accelerations that keep a player within the speed cap and on the pitch over the next step,
/// before it is asked whether there are any.
pub open spec fn raw_bounds<
    P: Fn(Real64, Real64) -> Real64,
    M: Fn(Real64, Real64) -> Real64,
    Q: Fn(Real64, Real64) -> Real64,
>(plus: P, times: M, over: Q, a: AxisMotion) -> (Real64, Real64) {
    let by_speed = if num(D1EM09).less(a.dt) {
        (
            larger(
                a.accel_cap.negated(),
                outcome(
                    over,
                    outcome(plus, a.speed_cap.negated(), a.velocity.negated()),
                    a.dt,
                ),
            ),
            smaller(
                a.accel_cap,
                outcome(over, outcome(plus, a.speed_cap, a.velocity.negated()), a.dt),
            ),
        )
    } else {
        (a.accel_cap.negated(), a.accel_cap)
    };
    let half = outcome(times, outcome(times, num(D0_5), a.dt), a.dt);
    if num(D1EM12).less(half) {
        let base = outcome(plus, a.position, outcome(times, a.velocity, a.dt));
        (
            larger(
                by_speed.0,
                outcome(over, outcome(plus, a.min_position, base.negated()), half),
            ),
            smaller(
                by_speed.1,
                outcome(over, outcome(plus, a.max_position, base.negated()), half),
            ),
        )
    } else {
        by_speed
    }
}

/// The bounds where both are finite and leave room, nothing else.
pub open spec fn room(bounds: (Real64, Real64)) -> Option<(Real64, Real64)> {
    if bounds.0.finite() && bounds.1.finite() && bounds.0.key() <= bounds.1.key() {
        Some(bounds)
    } else {
        None
    }
}

/// Finds the accelerations that keep a player within the limits of an axis.
pub fn soccer_local_mpc_axis_bounds<
    P: Fn(Real64, Real64) -> Real64,
    M: Fn(Real64, Real64) -> Real64,
    Q: Fn(Real64, Real64) -> Real64,
>(a: &AxisMotion, plus: &P, times: &M, over: &Q) -> (r: Option<(Real64, Real64)>)
    requires
        is_operation(*plus),
        is_operation(*times),
        is_operation(*over),
    ensures
        r == room(raw_bounds(*plus, *times, *over, *a)),
{
    let mut lower: Real64 = a.accel_cap.negate();
    let mut upper: Real64 = a.accel_cap;
    if at_bits(D1EM09).is_below(a.dt) {
        let slowest: Real64 = apply(plus, a.speed_cap.negate(), a.velocity.negate());
        let fastest: Real64 = apply(plus, a.speed_cap, a.velocity.negate());
        lower = larger_of(lower, apply(over, slowest, a.dt));
        upper = smaller_of(upper, apply(over, fastest, a.dt));
    }
    let half: Real64 = apply(times, apply(times, at_bits(D0_5), a.dt), a.dt);
    if at_bits(D1EM12).is_below(half) {
        let base: Real64 = apply(plus, a.position, apply(times, a.velocity, a.dt));
        lower = larger_of(
            lower,
            apply(over, apply(plus, a.min_position, base.negate()), half),
        );
        upper = smaller_of(
            upper,
            apply(over, apply(plus, a.max_position, base.negate()), half),
        );
    }
    if lower.is_finite() && upper.is_finite() && lower.order_key() <= upper.order_key() {
        Some((lower, upper))
    } else {
        None
    }
}

/// Bounds that are handed out are finite, in order, and no wider than the acceleration cap.
pub proof fn bounds_respect_the_cap<
    P: Fn(Real64, Real64) -> Real64,
    M: Fn(Real64, Real64) -> Real64,
    Q: Fn(Real64, Real64) -> Real64,
>(plus: P, times: M, over: Q, a: AxisMotion)
    requires
        a.accel_cap.finite(),
    ensures
        room(raw_bounds(plus, times, over, a)) matches Some((lower, upper)) ==> {
            &&& lower.finite() && upper.finite()
            &&& lower.key() <= upper.key()
            &&& -a.accel_cap.key() <= lower.key()
            &&& upper.key() <= a.accel_cap.key()
        },
{
    crate::number::negation_mirrors(a.accel_cap);
}

/// How much a role widens a player as an obstacle.
pub open spec fn role_radius(role: PlayerRole) -> u64 {
    match role {
        PlayerRole::Goalkeeper => D0_2,
        PlayerRole::Defender => D0_1,
        PlayerRole::Midfielder => D0_05,
        PlayerRole::Forward => D0,
    }
}

/// How wide a player is as an obstacle.
pub open spec fn radius_as_obstacle<P: Fn(Real64, Real64) -> Real64>(
    plus: P,
    same_team: bool,
    holds_ball: bool,
    role: PlayerRole,
) -> Real64 {
    outcome(
        plus,
        outcome(
            plus,
            num(
                if same_team {
                    D1_35
                } else {
                    D1_75
                },
            ),
            num(
                if holds_ball {
                    D0_55
                } else {
                    D0
                },
            ),
        ),
        num(role_radius(role)),
    )
}

/// How wide a player is as an obstacle: wider for an opponent, the ball holder, and those further
/// back.
pub fn obstacle_radius<P: Fn(Real64, Real64) -> Real64>(
    same_team: bool,
    holds_ball: bool,
    role: PlayerRole,
    plus: &P,
) -> (r: Real64)
    requires
        is_operation(*plus),
    ensures
        r == radius_as_obstacle(*plus, same_team, holds_ball, role),
{
    let base: u64 = if same_team { D1_35 } else { D1_75 };
    let ball: u64 = if holds_ball { D0_55 } else { D0 };
    let extra: u64 = match role {
        PlayerRole::Goalkeeper => D0_2,
        PlayerRole::Defender => D0_1,
        PlayerRole::Midfielder => D0_05,
        PlayerRole::Forward => D0,
    };
    apply(plus, apply(plus, at_bits(base), at_bits(ball)), at_bits(extra))
}

/// How heavily a player weighs as an obstacle.
pub open spec fn weight_as_obstacle<
    P: Fn(Real64, Real64) -> Real64,
    M: Fn(Real64, Real64) -> Real64,
    Q: Fn(Real64, Real64) -> Real64,
>(
    plus: P,
    times: M,
    over: Q,
    same_team: bool,
    holds_ball: bool,
    speed: Real64,
    acceleration: Real64,
) -> Real64 {
    outcome(
        plus,
        outcome(
            times,
            num(
                if same_team {
                    D7
                } else {
                    D12
                },
            ),
            outcome(
                plus,
                outcome(
                    plus,
                    num(D1),
                    outcome(over, clamped_to(speed, num(D0), num(D16)), num(D48)),
                ),
                outcome(over, clamped_to(acceleration, num(D0), num(D14)), num(D56)),
            ),
        ),
        num(
            if holds_ball {
                D4
            } else {
                D0
            },
        ),
    )
}

/// How heavily a player weighs as an obstacle: more for an opponent, the ball holder, and with
/// speed and acceleration.
pub fn obstacle_weight<
    P: Fn(Real64, Real64) -> Real64,
    M: Fn(Real64, Real64) -> Real64,
    Q: Fn(Real64, Real64) -> Real64,
>(
    same_team: bool,
    holds_ball: bool,
    speed: Real64,
    acceleration: Real64,
    plus: &P,
    times: &M,
    over: &Q,
) -> (r: Real64)
    requires
        is_operation(*plus),
        is_operation(*times),
        is_operation(*over),
    ensures
        r == weight_as_obstacle(*plus, *times, *over, same_team, holds_ball, speed, acceleration),
{
    let base: u64 = if same_team { D7 } else { D12 };
    let ball: u64 = if holds_ball { D4 } else { D0 };
    let fast: Real64 = apply(over, clamp_to(speed, at_bits(D0), at_bits(D16)), at_bits(D48));
    let pushing: Real64 = apply(
        over,
        clamp_to(acceleration, at_bits(D0), at_bits(D14)),
        at_bits(D56),
    );
    let pressure: Real64 = apply(plus, apply(plus, at_bits(D1), fast), pushing);
    apply(plus, apply(times, at_bits(base), pressure), at_bits(ball))
}

/// How heavily the ball weighs as an obstacle.
pub open spec fn ball_as_obstacle<P: Fn(Real64, Real64) -> Real64, Q: Fn(Real64, Real64) -> Real64>(
    plus: P,
    over: Q,
    speed: Real64,
    acceleration: Real64,
) -> Real64 {
    outcome(
        plus,
        outcome(
            plus,
            num(D4_5),
            outcome(over, clamped_to(speed, num(D0), num(D28)), num(D7)),
        ),
        outcome(over, clamped_to(acceleration, num(D0), num(D28)), num(D14)),
    )
}

/// How heavily the ball weighs as an obstacle.
pub fn ball_obstacle_weight<P: Fn(Real64, Real64) -> Real64, Q: Fn(Real64, Real64) -> Real64>(
    speed: Real64,
    acceleration: Real64,
    plus: &P,
    over: &Q,
) -> (r: Real64)
    requires
        is_operation(*plus),
        is_operation(*over),
    ensures
        r == ball_as_obstacle(*plus, *over, speed, acceleration),
{
    let fast: Real64 = apply(over, clamp_to(speed, at_bits(D0), at_bits(D28)), at_bits(D7));
    let pushing: Real64 = apply(
        over,
        clamp_to(acceleration, at_bits(D0), at_bits(D28)),
        at_bits(D14),
    );
    apply(plus, apply(plus, at_bits(D4_5), fast), pushing)
}

/// How many steps of `dt` a refinement looks ahead, from the steps that 2.25 seconds hold.
pub open spec fn horizon_of(steps: usize) -> int {
    if steps < 8 {
        8
    } else if steps > 45 {
        45
    } else {
        steps as int
    }
}

/// The horizon of a refinement, and how many iterations it takes.
pub fn refinement_effort(steps: usize) -> (r: (usize, usize))
    ensures
        r.0 == horizon_of(steps),
        r.1 == if 5 * r.0 < 48 {
            48int
        } else if 5 * r.0 > 160 {
            160
        } else {
            5 * r.0
        },
{
    let horizon: usize = if steps < 8 {
        8
    } else if steps > 45 {
        45
    } else {
        steps
    };
    let wanted: usize = horizon * 5;
    let iterations: usize = if wanted < 48 {
        48
    } else if wanted > 160 {
        160
    } else {
        wanted
    };
    (horizon, iterations)
}

/// How urgent a refinement is: by the yards to move, the pressing, the speed to match, the pair
/// error, and more off the ball.
pub proof fn urgency_weighs_its_measures<
    P: Fn(Real64, Real64) -> Real64,
    M: Fn(Real64, Real64) -> Real64,
>(
    means: spec_fn(Real64, real) -> bool,
    plus: P,
    times: M,
    m: UrgencyMeasures,
    has_ball: bool,
    move_yards: real,
    pressing: real,
    matching: real,
    pair: real,
)
    requires
        is_faithful(means, plus, times),
        means(m.recommended_move_yards, move_yards),
        means(m.pressure_weight, pressing),
        means(m.speed_match_weight, matching),
        means(m.pair_error_yards, pair),
    ensures
        means(
            urgency_of(plus, times, m, has_ball),
            move_yards * (12real / 25real) + pressing * (31real / 20real) + matching
                * (17real / 20real) + pair * (7real / 25real) + if has_ball {
                0real
            } else {
                (17real / 20real)
            },
        ),
{
    decimals_are_read(means);
}

/// How wide an obstacle is: opponents wider than teammates, whoever has the ball wider by 0.55, and
/// by what the role adds.
pub proof fn obstacles_are_as_wide_as_they_are_close<
    P: Fn(Real64, Real64) -> Real64,
>(
    means: spec_fn(Real64, real) -> bool,
    plus: P,
    same_team: bool,
    holds_ball: bool,
    role: PlayerRole,
    width: real,
)
    requires
        reads_sums(means, plus),
        reads_signs(means),
        reads_order(means),
        reads_decimals(means),
        means(num(role_radius(role)), width),
    ensures
        means(
            radius_as_obstacle(plus, same_team, holds_ball, role),
            (if same_team {
                (27real / 20real)
            } else {
                (7real / 4real)
            }) + (if holds_ball {
                (11real / 20real)
            } else {
                0real
            }) + width,
        ),
{
    decimals_are_read(means);
}

/// How much an obstacle weighs: opponents 12 and teammates 7, more by a 48th of the speed up to 16
/// and a 56th of the acceleration up to 14, and 4 more with the ball.
pub proof fn obstacles_weigh_by_their_speed<
    P: Fn(Real64, Real64) -> Real64,
    M: Fn(Real64, Real64) -> Real64,
    Q: Fn(Real64, Real64) -> Real64,
>(
    means: spec_fn(Real64, real) -> bool,
    plus: P,
    times: M,
    over: Q,
    same_team: bool,
    holds_ball: bool,
    speed: Real64,
    acceleration: Real64,
    v: real,
    a: real,
)
    requires
        is_faithful(means, plus, times),
        reads_quotients(means, over),
        means(speed, v),
        means(acceleration, a),
    ensures
        means(
            weight_as_obstacle(plus, times, over, same_team, holds_ball, speed, acceleration),
            (if same_team {
                7real
            } else {
                12real
            }) * (1real + bounded(v, 0real, 16real) / 48real + bounded(a, 0real, 14real) / 56real)
                + if holds_ball {
                4real
            } else {
                0real
            },
        ),
{
    decimals_are_read(means);
}

/// How much the ball weighs as an obstacle: 4.5, a seventh of its speed and a fourteenth of its
/// acceleration more, each up to 28.
pub proof fn the_ball_weighs_by_its_speed<
    P: Fn(Real64, Real64) -> Real64,
    Q: Fn(Real64, Real64) -> Real64,
>(
    means: spec_fn(Real64, real) -> bool,
    plus: P,
    over: Q,
    speed: Real64,
    acceleration: Real64,
    v: real,
    a: real,
)
    requires
        reads_sums(means, plus),
        reads_signs(means),
        reads_order(means),
        reads_decimals(means),
        reads_quotients(means, over),
        means(speed, v),
        means(acceleration, a),
    ensures
        means(
            ball_as_obstacle(plus, over, speed, acceleration),
            (9real / 2real) + bounded(v, 0real, 28real) / 7real
                + bounded(a, 0real, 28real) / 14real,
        ),
{
    decimals_are_read(means);
}

/// Which accelerations are allowed along an axis: within the cap, so that after the moment the
/// speed stays within its cap, and so that the place reached stays on its side of both ends.
pub proof fn bounds_keep_speed_and_place<
    P: Fn(Real64, Real64) -> Real64,
    M: Fn(Real64, Real64) -> Real64,
    Q: Fn(Real64, Real64) -> Real64,
>(
    means: spec_fn(Real64, real) -> bool,
    plus: P,
    times: M,
    over: Q,
    a: AxisMotion,
    cap: real,
    top: real,
    v: real,
    t: real,
    x: real,
    low: real,
    high: real,
)
    requires
        is_faithful(means, plus, times),
        reads_quotients(means, over),
        means(a.accel_cap, cap),
        means(a.speed_cap, top),
        means(a.velocity, v),
        means(a.dt, t),
        means(a.position, x),
        means(a.min_position, low),
        means(a.max_position, high),
        t > 0real,
        num(D1EM09).less(a.dt),
        num(D1EM12).less(outcome(times, outcome(times, num(D0_5), a.dt), a.dt)),
    ensures
        ({
            let h = t * t / 2real;
            let r = raw_bounds(plus, times, over, a);
            &&& h > 0real
            &&& means(r.0, most(most(-cap, (-top - v) / t), (low - (x + v * t)) / h))
            &&& means(r.1, least(least(cap, (top - v) / t), (high - (x + v * t)) / h))
        }),
{
    decimals_are_read(means);
    let h = t * t / 2real;
    pos_times(t, t);
    assert((1real / 2real) * t * t == h) by (nonlinear_arith)
        requires
            h == t * t / 2real,
    ;
    assert(-top + -v == -top - v && top + -v == top - v);
    let base = x + v * t;
    assert(low + -base == low - base && high + -base == high - base);
    assert(means(a.velocity.negated(), -v));
    assert(means(outcome(plus, a.speed_cap.negated(), a.velocity.negated()), -top - v));
    let half = outcome(times, outcome(times, num(D0_5), a.dt), a.dt);
    assert(means(half, h));
}

} // verus!
