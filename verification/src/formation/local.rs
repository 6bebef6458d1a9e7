//! The local refinement of a guided player's motion: what surrounds the player, the obstacles on
//! the way, and the motion that a planned acceleration leads to.
use crate::decimals::{
    D0, D0_04, D0_35, D0_5, D0_65, D0_85, D0_95, D1, D12, D14, D1EM06, D1_35, D1_8, D2, D24, D2_4,
    D32, D36, D3_2, D3_4, D40, D48, D4_2, D4_5, D5, DM1,
};
use crate::formation::refine::{
    ball_as_obstacle, ball_obstacle_weight, obstacle_radius, obstacle_weight, radius_as_obstacle,
    weight_as_obstacle,
};
use crate::formation::tick::TickFrame;
use crate::geometry::{
    divide, divided, find_way, finite_or, head_for, heading_of, is_distance, is_finite_point,
    is_heading, is_limit, join, joined, keep_in, kept_in, limit_size, limited_by, measure_size,
    origin, place_or, size_of, stretch, stretched, take_finite, take_place, way,
};
use crate::meaning::{
    bounded, decimals_are_read, is_faithful, reads_decimals, reads_order, reads_quotients,
    reads_signs, reads_sums, stands_at,
};
use crate::number::{
    apply, at_bits, clamp_to, clamped_to, is_operation, larger, larger_of, num, outcome, Real64,
};
use crate::pitch::{PlayerRole, Team, Vec2};
use vstd::prelude::*;

verus! {

/// What the refinement reads of a player on the pitch.
#[derive(Clone, Copy, Debug, PartialEq, Eq, Structural)]
pub struct FieldPlayer {
    pub id: usize,
    pub team: Team,
    pub role: PlayerRole,
    pub position: Vec2,
    pub velocity: Vec2,
    pub acceleration: Vec2,
    pub top_speed: Real64,
    pub max_acceleration: Real64,
}

/// What the refinement reads of the ball.
#[derive(Clone, Copy, Debug, PartialEq, Eq, Structural)]
pub struct FieldBall {
    pub position: Vec2,
    pub velocity: Vec2,
    pub acceleration: Vec2,
    pub holder: Option<usize>,
}

/// Half the square of a time.
pub open spec fn half_square<M: Fn(Real64, Real64) -> Real64>(times: M, dt: Real64) -> Real64 {
    outcome(times, outcome(times, num(D0_5), dt), dt)
}

fn find_half_square<M: Fn(Real64, Real64) -> Real64>(dt: Real64, times: &M) -> (r: Real64)
    requires
        is_operation(*times),
    ensures
        r == half_square(*times, dt),
{
    apply(times, apply(times, at_bits(D0_5), dt), dt)
}

/// Where something will be after a step, on the pitch.
pub open spec fn projected<P: Fn(Real64, Real64) -> Real64, M: Fn(Real64, Real64) -> Real64>(
    plus: P,
    times: M,
    frame: TickFrame,
    from: Vec2,
    velocity: Vec2,
    acceleration: Vec2,
    fallback: Vec2,
) -> Vec2 {
    let dt = frame.step();
    place_or(
        joined(
            plus,
            joined(plus, from, stretched(times, velocity, dt)),
            stretched(times, acceleration, half_square(times, dt)),
        ),
        frame.width,
        frame.length,
        fallback,
    )
}

fn project<P: Fn(Real64, Real64) -> Real64, M: Fn(Real64, Real64) -> Real64>(
    frame: &TickFrame,
    from: Vec2,
    velocity: Vec2,
    acceleration: Vec2,
    fallback: Vec2,
    plus: &P,
    times: &M,
) -> (r: Vec2)
    requires
        is_operation(*plus),
        is_operation(*times),
    ensures
        r == projected(*plus, *times, *frame, from, velocity, acceleration, fallback),
{
    let dt: Real64 = frame.step_seconds();
    let moved: Vec2 = join(from, stretch(velocity, dt, times), plus);
    take_place(
        join(moved, stretch(acceleration, find_half_square(dt, times), times), plus),
        frame.width,
        frame.length,
        fallback,
    )
}

/// The surroundings as they add up: what pushes the target away, what pushes the velocity, and how
/// crowded it is.
#[derive(Clone, Copy, Debug, PartialEq, Eq, Structural)]
pub struct Influence {
    pub target: Vec2,
    pub velocity: Vec2,
    pub pressure: Real64,
}

/// A push along a direction added to the surroundings.
pub open spec fn pushed<P: Fn(Real64, Real64) -> Real64, M: Fn(Real64, Real64) -> Real64>(
    plus: P,
    times: M,
    before: Influence,
    direction: Vec2,
    pressure: Real64,
    on_target: u64,
    on_velocity: u64,
) -> Influence {
    let push = stretched(times, direction, pressure);
    Influence {
        target: joined(plus, before.target, stretched(times, push, num(on_target))),
        velocity: joined(plus, before.velocity, stretched(times, push, num(on_velocity))),
        pressure: outcome(plus, before.pressure, pressure),
    }
}

fn push_by<P: Fn(Real64, Real64) -> Real64, M: Fn(Real64, Real64) -> Real64>(
    before: &Influence,
    direction: Vec2,
    pressure: Real64,
    on_target: u64,
    on_velocity: u64,
    plus: &P,
    times: &M,
) -> (r: Influence)
    requires
        is_operation(*plus),
        is_operation(*times),
    ensures
        r == pushed(*plus, *times, *before, direction, pressure, on_target, on_velocity),
{
    let push: Vec2 = stretch(direction, pressure, times);
    Influence {
        target: join(before.target, stretch(push, at_bits(on_target), times), plus),
        velocity: join(before.velocity, stretch(push, at_bits(on_velocity), times), plus),
        pressure: apply(plus, before.pressure, pressure),
    }
}

/// What a player is up to when the surroundings are looked at.
#[derive(Clone, Copy, Debug, PartialEq, Eq, Structural)]
pub struct Intent {
    pub current: Vec2,
    pub velocity: Vec2,
    pub target: Vec2,
    pub desired_velocity: Vec2,
}

/// The direction of a player: to the target, else along the velocity, else up the pitch.
pub open spec fn own_direction<
    P: Fn(Real64, Real64) -> Real64,
    D: Fn(Vec2, Vec2) -> Real64,
    U: Fn(Vec2) -> Vec2,
>(plus: P, distance: D, unit: U, attack_dir: Real64, intent: Intent) -> Vec2 {
    let ahead = way(plus, intent.current, intent.target);
    if num(D1EM06).less(size_of(distance, ahead)) {
        heading_of(unit, ahead)
    } else if num(D1EM06).less(size_of(distance, intent.velocity)) {
        heading_of(unit, intent.velocity)
    } else {
        Vec2 { x: num(D0), y: attack_dir }
    }
}

/// How far a player pushes others away.
pub open spec fn influence_radius<P: Fn(Real64, Real64) -> Real64>(
    plus: P,
    same_team: bool,
    holds_ball: bool,
) -> Real64 {
    outcome(
        plus,
        num(
            if same_team {
                D3_2
            } else {
                D4_2
            },
        ),
        num(
            if holds_ball {
                D1_35
            } else {
                D0
            },
        ),
    )
}

/// How hard a player at a distance pushes: with nearness, for opponents, and with the closing speed
/// and the acceleration.
pub open spec fn player_pressure<
    P: Fn(Real64, Real64) -> Real64,
    M: Fn(Real64, Real64) -> Real64,
    Q: Fn(Real64, Real64) -> Real64,
>(
    plus: P,
    times: M,
    over: Q,
    radius: Real64,
    away: Real64,
    same_team: bool,
    closing: Real64,
    push: Real64,
) -> Real64 {
    let near = clamped_to(
        outcome(over, outcome(plus, radius, away.negated()), radius),
        num(D0),
        num(D1),
    );
    let side = num(
        if same_team {
            D0_95
        } else {
            D1_35
        },
    );
    let moving = outcome(
        plus,
        outcome(
            plus,
            num(D1),
            outcome(over, clamped_to(closing, num(D0), num(D14)), num(D32)),
        ),
        outcome(over, clamped_to(push, num(D0), num(D12)), num(D40)),
    );
    outcome(times, outcome(times, near, side), moving)
}

fn find_player_pressure<
    P: Fn(Real64, Real64) -> Real64,
    M: Fn(Real64, Real64) -> Real64,
    Q: Fn(Real64, Real64) -> Real64,
>(
    radius: Real64,
    away: Real64,
    same_team: bool,
    closing: Real64,
    push: Real64,
    plus: &P,
    times: &M,
    over: &Q,
) -> (r: Real64)
    requires
        is_operation(*plus),
        is_operation(*times),
        is_operation(*over),
    ensures
        r == player_pressure(
            *plus,
            *times,
            *over,
            radius,
            away,
            same_team,
            closing,
            push,
        ),
{
    let near: Real64 = clamp_to(
        apply(over, apply(plus, radius, away.negate()), radius),
        at_bits(D0),
        at_bits(D1),
    );
    let side: u64 = if same_team { D0_95 } else { D1_35 };
    let fast: Real64 = apply(over, clamp_to(closing, at_bits(D0), at_bits(D14)), at_bits(D32));
    let hard: Real64 = apply(over, clamp_to(push, at_bits(D0), at_bits(D12)), at_bits(D40));
    let moving: Real64 = apply(plus, apply(plus, at_bits(D1), fast), hard);
    apply(times, apply(times, near, at_bits(side)), moving)
}

/// The surroundings with one more player taken in.
pub open spec fn influenced_by<
    P: Fn(Real64, Real64) -> Real64,
    M: Fn(Real64, Real64) -> Real64,
    Q: Fn(Real64, Real64) -> Real64,
    D: Fn(Vec2, Vec2) -> Real64,
    U: Fn(Vec2) -> Vec2,
>(
    plus: P,
    times: M,
    over: Q,
    distance: D,
    unit: U,
    frame: TickFrame,
    me: FieldPlayer,
    intent: Intent,
    ball: FieldBall,
    other: FieldPlayer,
    before: Influence,
) -> Influence {
    let place = place_or(other.position, frame.width, frame.length, intent.current);
    let velocity = finite_or(other.velocity, origin());
    let acceleration = finite_or(other.acceleration, origin());
    if other.id == me.id {
        Influence {
            velocity: joined(
                plus,
                before.velocity,
                stretched(times, acceleration, outcome(times, num(D0_04), frame.step())),
            ),
            ..before
        }
    } else {
        let there = projected(plus, times, frame, place, velocity, acceleration, place);
        let gap = way(plus, there, intent.target);
        let away = size_of(distance, gap);
        let direction = if num(D1EM06).less(away) {
            divided(over, gap, away)
        } else {
            own_direction(plus, distance, unit, frame.attack_dir, intent)
        };
        let radius = influence_radius(plus, other.team == me.team, ball.holder == Some(other.id));
        if away.less(radius) {
            let pressure = player_pressure(
                plus,
                times,
                over,
                radius,
                away,
                other.team == me.team,
                size_of(distance, way(plus, intent.desired_velocity, velocity)),
                size_of(distance, acceleration),
            );
            pushed(plus, times, before, direction, pressure, D2_4, D0_85)
        } else {
            before
        }
    }
}

fn holds(ball: &FieldBall, id: usize) -> (b: bool)
    ensures
        b == (ball.holder == Some(id)),
{
    match ball.holder {
        Some(holder) => holder == id,
        None => false,
    }
}

fn find_own_direction<
    P: Fn(Real64, Real64) -> Real64,
    D: Fn(Vec2, Vec2) -> Real64,
    U: Fn(Vec2) -> Vec2,
>(attack_dir: Real64, intent: &Intent, plus: &P, distance: &D, unit: &U) -> (r: Vec2)
    requires
        is_operation(*plus),
        is_distance(*distance),
        is_heading(*unit),
    ensures
        r == own_direction(*plus, *distance, *unit, attack_dir, *intent),
{
    let ahead: Vec2 = find_way(intent.current, intent.target, plus);
    if at_bits(D1EM06).is_below(measure_size(distance, ahead)) {
        head_for(unit, ahead)
    } else if at_bits(D1EM06).is_below(measure_size(distance, intent.velocity)) {
        head_for(unit, intent.velocity)
    } else {
        Vec2 { x: at_bits(D0), y: attack_dir }
    }
}

fn influence_of<
    P: Fn(Real64, Real64) -> Real64,
    M: Fn(Real64, Real64) -> Real64,
    Q: Fn(Real64, Real64) -> Real64,
    D: Fn(Vec2, Vec2) -> Real64,
    U: Fn(Vec2) -> Vec2,
>(
    frame: &TickFrame,
    me: &FieldPlayer,
    intent: &Intent,
    ball: &FieldBall,
    other: &FieldPlayer,
    before: &Influence,
    plus: &P,
    times: &M,
    over: &Q,
    distance: &D,
    unit: &U,
) -> (r: Influence)
    requires
        is_operation(*plus),
        is_operation(*times),
        is_operation(*over),
        is_distance(*distance),
        is_heading(*unit),
    ensures
        r == influenced_by(
            *plus,
            *times,
            *over,
            *distance,
            *unit,
            *frame,
            *me,
            *intent,
            *ball,
            *other,
            *before,
        ),
{
    let zero_vector: Vec2 = Vec2 { x: at_bits(D0), y: at_bits(D0) };
    let place: Vec2 = take_place(other.position, frame.width, frame.length, intent.current);
    let velocity: Vec2 = take_finite(other.velocity, zero_vector);
    let acceleration: Vec2 = take_finite(other.acceleration, zero_vector);
    if other.id == me.id {
        let part: Real64 = apply(times, at_bits(D0_04), frame.step_seconds());
        return Influence {
            target: before.target,
            velocity: join(before.velocity, stretch(acceleration, part, times), plus),
            pressure: before.pressure,
        };
    }
    let there: Vec2 = project(frame, place, velocity, acceleration, place, plus, times);
    let gap: Vec2 = find_way(there, intent.target, plus);
    let away: Real64 = measure_size(distance, gap);
    let direction: Vec2 = if at_bits(D1EM06).is_below(away) {
        divide(gap, away, over)
    } else {
        find_own_direction(frame.attack_dir, intent, plus, distance, unit)
    };
    let same_team: bool = other.team == me.team;
    let base: u64 = if same_team { D3_2 } else { D4_2 };
    let bonus: u64 = if holds(ball, other.id) { D1_35 } else { D0 };
    let radius: Real64 = apply(plus, at_bits(base), at_bits(bonus));
    if away.is_below(radius) {
        let closing: Vec2 = find_way(intent.desired_velocity, velocity, plus);
        let pressure: Real64 = find_player_pressure(
            radius,
            away,
            same_team,
            measure_size(distance, closing),
            measure_size(distance, acceleration),
            plus,
            times,
            over,
        );
        push_by(before, direction, pressure, D2_4, D0_85, plus, times)
    } else {
        *before
    }
}

/// The surroundings with the first `n` players taken in.
pub open spec fn influenced<
    P: Fn(Real64, Real64) -> Real64,
    M: Fn(Real64, Real64) -> Real64,
    Q: Fn(Real64, Real64) -> Real64,
    D: Fn(Vec2, Vec2) -> Real64,
    U: Fn(Vec2) -> Vec2,
>(
    plus: P,
    times: M,
    over: Q,
    distance: D,
    unit: U,
    frame: TickFrame,
    me: FieldPlayer,
    intent: Intent,
    ball: FieldBall,
    players: Seq<FieldPlayer>,
    n: int,
) -> Influence
    decreases n,
{
    if n <= 0 {
        Influence { target: origin(), velocity: origin(), pressure: num(D0) }
    } else {
        influenced_by(
            plus,
            times,
            over,
            distance,
            unit,
            frame,
            me,
            intent,
            ball,
            players[n - 1],
            influenced(
                plus,
                times,
                over,
                distance,
                unit,
                frame,
                me,
                intent,
                ball,
                players,
                n - 1,
            ),
        )
    }
}

/// The surroundings with the ball taken in, unless the player holds it.
pub open spec fn influenced_by_ball<
    P: Fn(Real64, Real64) -> Real64,
    M: Fn(Real64, Real64) -> Real64,
    Q: Fn(Real64, Real64) -> Real64,
    D: Fn(Vec2, Vec2) -> Real64,
    U: Fn(Vec2) -> Vec2,
>(
    plus: P,
    times: M,
    over: Q,
    distance: D,
    unit: U,
    frame: TickFrame,
    me: FieldPlayer,
    intent: Intent,
    ball: FieldBall,
    before: Influence,
) -> Influence {
    let place = place_or(ball.position, frame.width, frame.length, intent.target);
    let velocity = finite_or(ball.velocity, origin());
    let acceleration = finite_or(ball.acceleration, origin());
    let there = projected(plus, times, frame, place, velocity, acceleration, place);
    let gap = way(plus, there, intent.target);
    let away = size_of(distance, gap);
    if ball.holder != Some(me.id) && away.less(num(D3_4)) {
        let direction = if num(D1EM06).less(away) {
            divided(over, gap, away)
        } else {
            stretched(
                times,
                own_direction(plus, distance, unit, frame.attack_dir, intent),
                num(DM1),
            )
        };
        let near = clamped_to(
            outcome(over, outcome(plus, num(D3_4), away.negated()), num(D3_4)),
            num(D0),
            num(D1),
        );
        let fast = outcome(
            plus,
            num(D1),
            outcome(over, clamped_to(size_of(distance, velocity), num(D0), num(D24)), num(D36)),
        );
        let hard = outcome(
            plus,
            num(D1),
            outcome(
                over,
                clamped_to(size_of(distance, acceleration), num(D0), num(D24)),
                num(D48),
            ),
        );
        pushed(
            plus,
            times,
            before,
            direction,
            outcome(times, outcome(times, near, fast), hard),
            D1_8,
            D0_65,
        )
    } else {
        before
    }
}

fn influence_of_ball<
    P: Fn(Real64, Real64) -> Real64,
    M: Fn(Real64, Real64) -> Real64,
    Q: Fn(Real64, Real64) -> Real64,
    D: Fn(Vec2, Vec2) -> Real64,
    U: Fn(Vec2) -> Vec2,
>(
    frame: &TickFrame,
    me: &FieldPlayer,
    intent: &Intent,
    ball: &FieldBall,
    before: &Influence,
    plus: &P,
    times: &M,
    over: &Q,
    distance: &D,
    unit: &U,
) -> (r: Influence)
    requires
        is_operation(*plus),
        is_operation(*times),
        is_operation(*over),
        is_distance(*distance),
        is_heading(*unit),
    ensures
        r == influenced_by_ball(
            *plus,
            *times,
            *over,
            *distance,
            *unit,
            *frame,
            *me,
            *intent,
            *ball,
            *before,
        ),
{
    let zero_vector: Vec2 = Vec2 { x: at_bits(D0), y: at_bits(D0) };
    let place: Vec2 = take_place(ball.position, frame.width, frame.length, intent.target);
    let velocity: Vec2 = take_finite(ball.velocity, zero_vector);
    let acceleration: Vec2 = take_finite(ball.acceleration, zero_vector);
    let there: Vec2 = project(frame, place, velocity, acceleration, place, plus, times);
    let gap: Vec2 = find_way(there, intent.target, plus);
    let away: Real64 = measure_size(distance, gap);
    if holds(ball, me.id) || !away.is_below(at_bits(D3_4)) {
        return *before;
    }
    let direction: Vec2 = if at_bits(D1EM06).is_below(away) {
        divide(gap, away, over)
    } else {
        stretch(
            find_own_direction(frame.attack_dir, intent, plus, distance, unit),
            at_bits(DM1),
            times,
        )
    };
    let near: Real64 = clamp_to(
        apply(over, apply(plus, at_bits(D3_4), away.negate()), at_bits(D3_4)),
        at_bits(D0),
        at_bits(D1),
    );
    let speed: Real64 = clamp_to(measure_size(distance, velocity), at_bits(D0), at_bits(D24));
    let push: Real64 = clamp_to(measure_size(distance, acceleration), at_bits(D0), at_bits(D24));
    let fast: Real64 = apply(plus, at_bits(D1), apply(over, speed, at_bits(D36)));
    let hard: Real64 = apply(plus, at_bits(D1), apply(over, push, at_bits(D48)));
    push_by(
        before,
        direction,
        apply(times, apply(times, near, fast), hard),
        D1_8,
        D0_65,
        plus,
        times,
    )
}

/// What the surroundings make of a player's intent.
#[derive(Clone, Copy, Debug, PartialEq, Eq, Structural)]
pub struct SoccerLocalMpcWholeFieldContext {
    pub target: Vec2,
    pub desired_velocity: Vec2,
    pub position_weight_bonus: Real64,
    pub velocity_weight_bonus: Real64,
}

/// The intent as the surroundings leave it.
pub open spec fn whole_field_context<
    P: Fn(Real64, Real64) -> Real64,
    M: Fn(Real64, Real64) -> Real64,
    Q: Fn(Real64, Real64) -> Real64,
    D: Fn(Vec2, Vec2) -> Real64,
    U: Fn(Vec2) -> Vec2,
    L: Fn(Vec2, Real64) -> Vec2,
>(
    plus: P,
    times: M,
    over: Q,
    distance: D,
    unit: U,
    limit: L,
    frame: TickFrame,
    me: FieldPlayer,
    intent: Intent,
    ball: FieldBall,
    players: Seq<FieldPlayer>,
    speed_cap: Real64,
) -> SoccerLocalMpcWholeFieldContext {
    let all = influenced_by_ball(
        plus,
        times,
        over,
        distance,
        unit,
        frame,
        me,
        intent,
        ball,
        influenced(
            plus,
            times,
            over,
            distance,
            unit,
            frame,
            me,
            intent,
            ball,
            players,
            players.len() as int,
        ),
    );
    SoccerLocalMpcWholeFieldContext {
        target: kept_in(
            joined(plus, intent.target, limited_by(limit, all.target, num(D4_5))),
            frame.width,
            frame.length,
        ),
        desired_velocity: limited_by(
            limit,
            joined(plus, intent.desired_velocity, all.velocity),
            larger(speed_cap, num(D0_5)),
        ),
        position_weight_bonus: clamped_to(all.pressure, num(D0), num(D5)),
        velocity_weight_bonus: clamped_to(
            outcome(times, all.pressure, num(D0_35)),
            num(D0),
            num(D2),
        ),
    }
}

/// Looks at what surrounds a player.
pub fn soccer_local_mpc_whole_field_context<
    P: Fn(Real64, Real64) -> Real64,
    M: Fn(Real64, Real64) -> Real64,
    Q: Fn(Real64, Real64) -> Real64,
    D: Fn(Vec2, Vec2) -> Real64,
    U: Fn(Vec2) -> Vec2,
    L: Fn(Vec2, Real64) -> Vec2,
>(
    frame: &TickFrame,
    me: &FieldPlayer,
    intent: &Intent,
    ball: &FieldBall,
    players: &Vec<FieldPlayer>,
    speed_cap: Real64,
    plus: &P,
    times: &M,
    over: &Q,
    distance: &D,
    unit: &U,
    limit: &L,
) -> (r: SoccerLocalMpcWholeFieldContext)
    requires
        is_operation(*plus),
        is_operation(*times),
        is_operation(*over),
        is_distance(*distance),
        is_heading(*unit),
        is_limit(*limit),
    ensures
        r == whole_field_context(
            *plus,
            *times,
            *over,
            *distance,
            *unit,
            *limit,
            *frame,
            *me,
            *intent,
            *ball,
            players@,
            speed_cap,
        ),
{
    let zero_vector: Vec2 = Vec2 { x: at_bits(D0), y: at_bits(D0) };
    let mut all: Influence = Influence {
        target: zero_vector,
        velocity: zero_vector,
        pressure: at_bits(D0),
    };
    let mut i: usize = 0;
    while i < players.len()
        invariant
            i <= players@.len(),
            is_operation(*plus),
            is_operation(*times),
            is_operation(*over),
            is_distance(*distance),
            is_heading(*unit),
            all == influenced(
                *plus,
                *times,
                *over,
                *distance,
                *unit,
                *frame,
                *me,
                *intent,
                *ball,
                players@,
                i as int,
            ),
        decreases players@.len() - i,
    {
        all = influence_of(
            frame,
            me,
            intent,
            ball,
            &players[i],
            &all,
            plus,
            times,
            over,
            distance,
            unit,
        );
        i += 1;
    }
    let all: Influence = influence_of_ball(
        frame,
        me,
        intent,
        ball,
        &all,
        plus,
        times,
        over,
        distance,
        unit,
    );
    let shift: Vec2 = limit_size(limit, all.target, at_bits(D4_5));
    SoccerLocalMpcWholeFieldContext {
        target: keep_in(join(intent.target, shift, plus), frame.width, frame.length),
        desired_velocity: limit_size(
            limit,
            join(intent.desired_velocity, all.velocity, plus),
            larger_of(speed_cap, at_bits(D0_5)),
        ),
        position_weight_bonus: clamp_to(all.pressure, at_bits(D0), at_bits(D5)),
        velocity_weight_bonus: clamp_to(
            apply(times, all.pressure, at_bits(D0_35)),
            at_bits(D0),
            at_bits(D2),
        ),
    }
}

/// Something in the way: where it will be, how it moves, how wide it is and how heavily it weighs.
#[derive(Clone, Copy, Debug, PartialEq, Eq, Structural)]
pub struct PlanarObstacle {
    pub center: Vec2,
    pub velocity: Vec2,
    pub radius: Real64,
    pub weight: Real64,
}

/// Another player as an obstacle.
pub open spec fn player_obstacle<
    P: Fn(Real64, Real64) -> Real64,
    M: Fn(Real64, Real64) -> Real64,
    Q: Fn(Real64, Real64) -> Real64,
    D: Fn(Vec2, Vec2) -> Real64,
    L: Fn(Vec2, Real64) -> Vec2,
>(
    plus: P,
    times: M,
    over: Q,
    distance: D,
    limit: L,
    frame: TickFrame,
    me: FieldPlayer,
    ball: FieldBall,
    other: FieldPlayer,
) -> PlanarObstacle {
    let place = place_or(other.position, frame.width, frame.length, me.position);
    let velocity = finite_or(other.velocity, origin());
    let acceleration = finite_or(other.acceleration, origin());
    PlanarObstacle {
        center: projected(plus, times, frame, place, velocity, acceleration, place),
        velocity: limited_by(
            limit,
            joined(plus, velocity, stretched(times, acceleration, frame.step())),
            num(D24),
        ),
        radius: radius_as_obstacle(
            plus,
            other.team == me.team,
            ball.holder == Some(other.id),
            other.role,
        ),
        weight: weight_as_obstacle(
            plus,
            times,
            over,
            other.team == me.team,
            ball.holder == Some(other.id),
            size_of(distance, velocity),
            size_of(distance, acceleration),
        ),
    }
}

/// The ball as an obstacle.
pub open spec fn ball_obstacle<
    P: Fn(Real64, Real64) -> Real64,
    M: Fn(Real64, Real64) -> Real64,
    Q: Fn(Real64, Real64) -> Real64,
    D: Fn(Vec2, Vec2) -> Real64,
    L: Fn(Vec2, Real64) -> Vec2,
>(
    plus: P,
    times: M,
    over: Q,
    distance: D,
    limit: L,
    frame: TickFrame,
    me: FieldPlayer,
    ball: FieldBall,
) -> PlanarObstacle {
    let place = place_or(ball.position, frame.width, frame.length, me.position);
    let velocity = finite_or(ball.velocity, origin());
    let acceleration = finite_or(ball.acceleration, origin());
    PlanarObstacle {
        center: projected(plus, times, frame, place, velocity, acceleration, place),
        velocity: limited_by(
            limit,
            joined(plus, velocity, stretched(times, acceleration, frame.step())),
            num(D32),
        ),
        radius: num(D0_85),
        weight: ball_as_obstacle(
            plus,
            over,
            size_of(distance, velocity),
            size_of(distance, acceleration),
        ),
    }
}

/// The other players among the first `n` as obstacles.
pub open spec fn player_obstacles<
    P: Fn(Real64, Real64) -> Real64,
    M: Fn(Real64, Real64) -> Real64,
    Q: Fn(Real64, Real64) -> Real64,
    D: Fn(Vec2, Vec2) -> Real64,
    L: Fn(Vec2, Real64) -> Vec2,
>(
    plus: P,
    times: M,
    over: Q,
    distance: D,
    limit: L,
    frame: TickFrame,
    me: FieldPlayer,
    ball: FieldBall,
    players: Seq<FieldPlayer>,
    n: int,
) -> Seq<PlanarObstacle>
    decreases n,
{
    if n <= 0 {
        Seq::empty()
    } else {
        let before = player_obstacles(
            plus,
            times,
            over,
            distance,
            limit,
            frame,
            me,
            ball,
            players,
            n - 1,
        );
        if players[n - 1].id == me.id {
            before
        } else {
            before.push(
                player_obstacle(
                    plus,
                    times,
                    over,
                    distance,
                    limit,
                    frame,
                    me,
                    ball,
                    players[n - 1],
                ),
            )
        }
    }
}

/// All obstacles of a player: the others, then the ball.
pub open spec fn obstacles_of<
    P: Fn(Real64, Real64) -> Real64,
    M: Fn(Real64, Real64) -> Real64,
    Q: Fn(Real64, Real64) -> Real64,
    D: Fn(Vec2, Vec2) -> Real64,
    L: Fn(Vec2, Real64) -> Vec2,
>(
    plus: P,
    times: M,
    over: Q,
    distance: D,
    limit: L,
    frame: TickFrame,
    me: FieldPlayer,
    ball: FieldBall,
    players: Seq<FieldPlayer>,
) -> Seq<PlanarObstacle> {
    player_obstacles(
        plus,
        times,
        over,
        distance,
        limit,
        frame,
        me,
        ball,
        players,
        players.len() as int,
    ).push(ball_obstacle(plus, times, over, distance, limit, frame, me, ball))
}

/// Lists the obstacles of a player.
pub fn soccer_local_mpc_planar_obstacles<
    P: Fn(Real64, Real64) -> Real64,
    M: Fn(Real64, Real64) -> Real64,
    Q: Fn(Real64, Real64) -> Real64,
    D: Fn(Vec2, Vec2) -> Real64,
    L: Fn(Vec2, Real64) -> Vec2,
>(
    frame: &TickFrame,
    me: &FieldPlayer,
    ball: &FieldBall,
    players: &Vec<FieldPlayer>,
    plus: &P,
    times: &M,
    over: &Q,
    distance: &D,
    limit: &L,
) -> (r: Vec<PlanarObstacle>)
    requires
        is_operation(*plus),
        is_operation(*times),
        is_operation(*over),
        is_distance(*distance),
        is_limit(*limit),
    ensures
        r@ == obstacles_of(
            *plus,
            *times,
            *over,
            *distance,
            *limit,
            *frame,
            *me,
            *ball,
            players@,
        ),
{
    let zero_vector: Vec2 = Vec2 { x: at_bits(D0), y: at_bits(D0) };
    let dt: Real64 = frame.step_seconds();
    let mut r: Vec<PlanarObstacle> = Vec::new();
    let mut i: usize = 0;
    while i < players.len()
        invariant
            i <= players@.len(),
            zero_vector == origin(),
            dt == frame.step(),
            is_operation(*plus),
            is_operation(*times),
            is_operation(*over),
            is_distance(*distance),
            is_limit(*limit),
            r@ == player_obstacles(
                *plus,
                *times,
                *over,
                *distance,
                *limit,
                *frame,
                *me,
                *ball,
                players@,
                i as int,
            ),
        decreases players@.len() - i,
    {
        let other: FieldPlayer = players[i];
        if other.id != me.id {
            let place: Vec2 = take_place(other.position, frame.width, frame.length, me.position);
            let velocity: Vec2 = take_finite(other.velocity, zero_vector);
            let acceleration: Vec2 = take_finite(other.acceleration, zero_vector);
            let same_team: bool = other.team == me.team;
            let holder: bool = holds(ball, other.id);
            let later: Vec2 = join(velocity, stretch(acceleration, dt, times), plus);
            r.push(
                PlanarObstacle {
                    center: project(frame, place, velocity, acceleration, place, plus, times),
                    velocity: limit_size(limit, later, at_bits(D24)),
                    radius: obstacle_radius(same_team, holder, other.role, plus),
                    weight: obstacle_weight(
                        same_team,
                        holder,
                        measure_size(distance, velocity),
                        measure_size(distance, acceleration),
                        plus,
                        times,
                        over,
                    ),
                },
            );
        }
        i += 1;
    }
    let place: Vec2 = take_place(ball.position, frame.width, frame.length, me.position);
    let velocity: Vec2 = take_finite(ball.velocity, zero_vector);
    let acceleration: Vec2 = take_finite(ball.acceleration, zero_vector);
    let later: Vec2 = join(velocity, stretch(acceleration, dt, times), plus);
    r.push(
        PlanarObstacle {
            center: project(frame, place, velocity, acceleration, place, plus, times),
            velocity: limit_size(limit, later, at_bits(D32)),
            radius: at_bits(D0_85),
            weight: ball_obstacle_weight(
                measure_size(distance, velocity),
                measure_size(distance, acceleration),
                plus,
                over,
            ),
        },
    );
    r
}

/// How strongly another player presses on a target: by how deep it lies in their radius, opponents
/// more than teammates, and more by how fast they close and how hard they push.
pub proof fn others_press_by_closeness<
    P: Fn(Real64, Real64) -> Real64,
    M: Fn(Real64, Real64) -> Real64,
    Q: Fn(Real64, Real64) -> Real64,
>(
    means: spec_fn(Real64, real) -> bool,
    plus: P,
    times: M,
    over: Q,
    radius: Real64,
    away: Real64,
    same_team: bool,
    closing: Real64,
    push: Real64,
    r: real,
    a: real,
    c: real,
    p: real,
)
    requires
        is_faithful(means, plus, times),
        reads_quotients(means, over),
        means(radius, r),
        means(away, a),
        means(closing, c),
        means(push, p),
        r != 0real,
    ensures
        means(
            player_pressure(plus, times, over, radius, away, same_team, closing, push),
            bounded((r - a) / r, 0real, 1real) * (if same_team {
                (19real / 20real)
            } else {
                (27real / 20real)
            }) * (1real + bounded(c, 0real, 14real) / 32real + bounded(p, 0real, 12real) / 40real),
        ),
{
    decimals_are_read(means);
    assert(r + -a == r - a);
}

/// How far another player presses: 3.2 yards for teammates and 4.2 for opponents, 1.35 more with
/// the ball.
pub proof fn others_reach_by_their_team<
    P: Fn(Real64, Real64) -> Real64,
>(
    means: spec_fn(Real64, real) -> bool,
    plus: P,
    same_team: bool,
    holds_ball: bool,
)
    requires
        reads_sums(means, plus),
        reads_signs(means),
        reads_order(means),
        reads_decimals(means),
    ensures
        means(
            influence_radius(plus, same_team, holds_ball),
            (if same_team {
                (16real / 5real)
            } else {
                (21real / 5real)
            }) + if holds_ball {
                (27real / 20real)
            } else {
                0real
            },
        ),
{
    decimals_are_read(means);
}

/// Where a motion leads in a moment: by the speed times the time and half the acceleration times
/// the time squared, kept on the pitch.
pub proof fn motion_is_projected<
    P: Fn(Real64, Real64) -> Real64,
    M: Fn(Real64, Real64) -> Real64,
>(
    means: spec_fn(Real64, real) -> bool,
    plus: P,
    times: M,
    frame: TickFrame,
    from: Vec2,
    velocity: Vec2,
    acceleration: Vec2,
    fallback: Vec2,
    x: real,
    y: real,
    vx: real,
    vy: real,
    ax: real,
    ay: real,
    t: real,
    w: real,
    l: real,
)
    requires
        is_faithful(means, plus, times),
        stands_at(means, from, x, y),
        stands_at(means, velocity, vx, vy),
        stands_at(means, acceleration, ax, ay),
        means(frame.step(), t),
        means(frame.width, w),
        means(frame.length, l),
        is_finite_point(
            joined(
                plus,
                joined(plus, from, stretched(times, velocity, frame.step())),
                stretched(times, acceleration, half_square(times, frame.step())),
            ),
        ),
    ensures
        stands_at(
            means,
            projected(plus, times, frame, from, velocity, acceleration, fallback),
            bounded(x + vx * t + ax * (t * t / 2real), 0real, w),
            bounded(y + vy * t + ay * (t * t / 2real), 0real, l),
        ),
{
    decimals_are_read(means);
    assert((1real / 2real) * t * t == t * t / 2real) by (nonlinear_arith);
}

/// Who does not have the ball is pushed from it inside 3.4 yards: the harder the nearer it will be,
/// the faster it is and the harder it is struck. The holder is not.
pub proof fn the_ball_pushes_those_near_it_away<
    D: Fn(Vec2, Vec2) -> Real64,
    U: Fn(Vec2) -> Vec2,
    P: Fn(Real64, Real64) -> Real64,
    M: Fn(Real64, Real64) -> Real64,
    Q: Fn(Real64, Real64) -> Real64,
>(
    means: spec_fn(Real64, real) -> bool,
    plus: P,
    times: M,
    over: Q,
    distance: D,
    unit: U,
    frame: TickFrame,
    me: FieldPlayer,
    intent: Intent,
    ball: FieldBall,
    before: Influence,
    tx: real,
    ty: real,
    ix: real,
    iy: real,
    a: real,
    v: real,
    c: real,
    bx: real,
    by: real,
    vx: real,
    vy: real,
    p: real,
)
    requires
        is_faithful(means, plus, times),
        reads_quotients(means, over),
        ({
            let place = place_or(ball.position, frame.width, frame.length, intent.target);
            let velocity = finite_or(ball.velocity, origin());
            let acceleration = finite_or(ball.acceleration, origin());
            let there = projected(plus, times, frame, place, velocity, acceleration, place);
            let gap = way(plus, there, intent.target);
            &&& stands_at(means, there, tx, ty)
            &&& stands_at(means, intent.target, ix, iy)
            &&& means(size_of(distance, gap), a)
            &&& num(D1EM06).less(size_of(distance, gap))
            &&& size_of(distance, gap).less(num(D3_4))
            &&& means(size_of(distance, velocity), v)
            &&& means(size_of(distance, acceleration), c)
        }),
        a > 0real,
        stands_at(means, before.target, bx, by),
        stands_at(means, before.velocity, vx, vy),
        means(before.pressure, p),
    ensures
        ({
            let r = influenced_by_ball(
                plus,
                times,
                over,
                distance,
                unit,
                frame,
                me,
                intent,
                ball,
                before,
            );
            let near = bounded(((17real / 5real) - a) / (17real / 5real), 0real, 1real);
            let push = near * (1real + bounded(v, 0real, 24real) / 36real) * (1real + bounded(
                c,
                0real,
                24real,
            ) / 48real);
            let dx = (ix - tx) / a * push;
            let dy = (iy - ty) / a * push;
            &&& ball.holder == Some(me.id) ==> r == before
            &&& ball.holder != Some(me.id) ==> means(r.pressure, p + push)
            &&& ball.holder != Some(me.id) ==> stands_at(
                means,
                r.target,
                bx + dx * (9real / 5real),
                by + dy * (9real / 5real),
            )
            &&& ball.holder != Some(me.id) ==> stands_at(
                means,
                r.velocity,
                vx + dx * (13real / 20real),
                vy + dy * (13real / 20real),
            )
        }),
{
    decimals_are_read(means);
    assert(ix + -tx == ix - tx && iy + -ty == iy - ty);
    assert((17real / 5real) + -a == (17real / 5real) - a);
}

/// The pressure on a player raises the weight of the place by itself, up to five, and that of the
/// speed by 0.35 of it, up to two.
pub proof fn pressure_raises_the_weights<
    D: Fn(Vec2, Vec2) -> Real64,
    U: Fn(Vec2) -> Vec2,
    L: Fn(Vec2, Real64) -> Vec2,
    P: Fn(Real64, Real64) -> Real64,
    M: Fn(Real64, Real64) -> Real64,
    Q: Fn(Real64, Real64) -> Real64,
>(
    means: spec_fn(Real64, real) -> bool,
    plus: P,
    times: M,
    over: Q,
    distance: D,
    unit: U,
    limit: L,
    frame: TickFrame,
    me: FieldPlayer,
    intent: Intent,
    ball: FieldBall,
    players: Seq<FieldPlayer>,
    speed_cap: Real64,
    p: real,
)
    requires
        is_faithful(means, plus, times),
        reads_quotients(means, over),
        means(
            influenced_by_ball(
                plus,
                times,
                over,
                distance,
                unit,
                frame,
                me,
                intent,
                ball,
                influenced(
                    plus,
                    times,
                    over,
                    distance,
                    unit,
                    frame,
                    me,
                    intent,
                    ball,
                    players,
                    players.len() as int,
                ),
            ).pressure,
            p,
        ),
    ensures
        means(
            whole_field_context(
                plus,
                times,
                over,
                distance,
                unit,
                limit,
                frame,
                me,
                intent,
                ball,
                players,
                speed_cap,
            ).position_weight_bonus,
            bounded(p, 0real, 5real),
        ),
        means(
            whole_field_context(
                plus,
                times,
                over,
                distance,
                unit,
                limit,
                frame,
                me,
                intent,
                ball,
                players,
                speed_cap,
            ).velocity_weight_bonus,
            bounded(p * (7real / 20real), 0real, 2real),
        ),
{
    decimals_are_read(means);
}

} // verus!
