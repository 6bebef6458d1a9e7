//! The plan by which a guided player's motion is refined, and the motion that comes of it.
use crate::decimals::{
    D0, D0_1, D0_5, D0_7, D1, D12, D1EM09, D1_25, D1_5, D2, D20, D2_25, D2_5, D3, D6, D8,
};
use crate::formation::guidance::{GuidanceMotion, MpcRefinement};
use crate::formation::local::{
    obstacles_of, projected, soccer_local_mpc_planar_obstacles,
    soccer_local_mpc_whole_field_context, whole_field_context, FieldBall, FieldPlayer, Intent,
    PlanarObstacle, SoccerLocalMpcWholeFieldContext,
};
use crate::formation::motion::pressure_error;
use crate::formation::refine::{
    horizon_of, raw_bounds, refinement_effort, room, soccer_local_mpc_axis_bounds, AxisMotion,
};
use crate::formation::tick::TickFrame;
use crate::geometry::{
    distance_of, divide, divided, find_way, finite_or, finite_point, is_distance, is_finite_point,
    is_heading, is_limit, join, joined, limit_size, limited_by, measure, measure_size, place_or,
    size_of, stretch, stretched, take_finite, take_place, way,
};
use crate::meaning::{
    bounded, decimals_are_read, is_faithful, least, most, reads_decimals, reads_order, reads_signs,
};
use crate::number::{
    apply, at_bits, clamp_to, clamped_to, image, is_counting, is_function, is_operation, larger,
    larger_of, map_number, num, outcome, smaller, smaller_of, steps_of, Real64,
};
use crate::pitch::{Team, Vec2};
use vstd::prelude::*;

verus! {

/// What a planner of accelerations is asked: from where, to where, for how long, how strictly.
#[derive(Clone, Copy, Debug, PartialEq, Eq, Structural)]
pub struct PlanarPlan {
    pub position: Vec2,
    pub velocity: Vec2,
    pub target: Vec2,
    pub desired_velocity: Vec2,
    pub horizon: usize,
    pub dt: Real64,
    pub q_pos: Real64,
    pub q_vel: Real64,
    pub qf_pos: Real64,
    pub qf_vel: Real64,
    pub r: Real64,
    pub a_max: Real64,
    pub iters: usize,
    pub obstacle_decay_per_step: Real64,
}

/// The first of the players from `i` on with an id, on a team.
pub open spec fn find_on_team(
    players: Seq<FieldPlayer>,
    id: usize,
    team: Team,
    i: int,
) -> Option<FieldPlayer>
    decreases players.len() - i,
{
    if i < 0 || i >= players.len() {
        None
    } else if players[i].id == id && players[i].team == team {
        Some(players[i])
    } else {
        find_on_team(players, id, team, i + 1)
    }
}

pub fn look_up(players: &Vec<FieldPlayer>, id: usize, team: Team) -> (r: Option<FieldPlayer>)
    ensures
        r == find_on_team(players@, id, team, 0),
{
    let mut i: usize = 0;
    while i < players.len()
        invariant
            i <= players@.len(),
            find_on_team(players@, id, team, 0) == find_on_team(players@, id, team, i as int),
        decreases players@.len() - i,
    {
        if players[i].id == id && players[i].team == team {
            return Some(players[i]);
        }
        i += 1;
    }
    None
}

/// The greatest speed of a refined motion.
pub open spec fn plan_speed_cap<D: Fn(Vec2, Vec2) -> Real64>(
    distance: D,
    me: FieldPlayer,
    motion: GuidanceMotion,
) -> Real64 {
    clamped_to(
        larger(
            larger(me.top_speed, motion.recommended_speed_yps),
            size_of(distance, finite_or(me.velocity, motion.target_velocity)),
        ),
        num(D0_5),
        num(D20),
    )
}

/// The greatest acceleration of a refined motion.
pub open spec fn plan_acceleration_cap(me: FieldPlayer, motion: GuidanceMotion) -> Real64 {
    clamped_to(
        larger(me.max_acceleration, smaller(motion.recommended_acceleration_yps2, num(D12))),
        num(D2_5),
        num(D12),
    )
}

/// The intent behind a recommended motion.
pub open spec fn intent_of<
    P: Fn(Real64, Real64) -> Real64,
    Q: Fn(Real64, Real64) -> Real64,
    D: Fn(Vec2, Vec2) -> Real64,
    L: Fn(Vec2, Real64) -> Vec2,
>(
    plus: P,
    over: Q,
    distance: D,
    limit: L,
    frame: TickFrame,
    me: FieldPlayer,
    motion: GuidanceMotion,
) -> Intent {
    let current = place_or(motion.current, frame.width, frame.length, me.position);
    let target = place_or(motion.target, frame.width, frame.length, current);
    let desired = if num(D1EM09).less(size_of(distance, motion.target_velocity)) {
        motion.target_velocity
    } else {
        divided(over, way(plus, current, target), frame.step())
    };
    Intent {
        current,
        velocity: finite_or(me.velocity, motion.target_velocity),
        target,
        desired_velocity: limited_by(limit, desired, plan_speed_cap(distance, me, motion)),
    }
}

/// What is asked of the planner, with the horizon counted in steps and the decay of obstacles over
/// a step.
pub open spec fn plan_for<P: Fn(Real64, Real64) -> Real64, M: Fn(Real64, Real64) -> Real64>(
    plus: P,
    times: M,
    frame: TickFrame,
    me: FieldPlayer,
    motion: GuidanceMotion,
    intent: Intent,
    context: SoccerLocalMpcWholeFieldContext,
    steps: usize,
    decay: Real64,
) -> PlanarPlan {
    let position_weight = outcome(
        plus,
        outcome(
            plus,
            outcome(plus, num(D8), outcome(times, motion.pressure_weight, num(D6))),
            smaller(motion.pair_error_yards, num(D6)),
        ),
        context.position_weight_bonus,
    );
    let velocity_weight = outcome(
        plus,
        outcome(plus, num(D1_25), outcome(times, motion.speed_match_weight, num(D3))),
        context.velocity_weight_bonus,
    );
    let horizon = horizon_of(steps);
    PlanarPlan {
        position: intent.current,
        velocity: intent.velocity,
        target: context.target,
        desired_velocity: context.desired_velocity,
        horizon: horizon as usize,
        dt: frame.step(),
        q_pos: position_weight,
        q_vel: velocity_weight,
        qf_pos: outcome(times, position_weight, num(D3)),
        qf_vel: outcome(times, velocity_weight, num(D2)),
        r: num(D0_1),
        a_max: plan_acceleration_cap(me, motion),
        iters: if 5 * horizon < 48 {
            48
        } else if 5 * horizon > 160 {
            160
        } else {
            (5 * horizon) as usize
        },
        obstacle_decay_per_step: clamped_to(decay, num(D0_7), num(D1)),
    }
}

/// A player's motion along the pitch or across it, and its limits.
pub open spec fn axis_of(
    position: Real64,
    velocity: Real64,
    dt: Real64,
    extent: Real64,
    acceleration_cap: Real64,
    speed_cap: Real64,
) -> AxisMotion {
    AxisMotion {
        position,
        velocity,
        dt,
        min_position: num(D0),
        max_position: extent,
        accel_cap: acceleration_cap,
        speed_cap,
    }
}

/// The accelerations along both axes that the limits leave to a player, where they leave any.
pub open spec fn both_bounds<
    P: Fn(Real64, Real64) -> Real64,
    M: Fn(Real64, Real64) -> Real64,
    Q: Fn(Real64, Real64) -> Real64,
>(
    plus: P,
    times: M,
    over: Q,
    frame: TickFrame,
    intent: Intent,
    acceleration_cap: Real64,
    speed_cap: Real64,
) -> Option<((Real64, Real64), (Real64, Real64))> {
    let x = axis_of(
        intent.current.x,
        intent.velocity.x,
        frame.step(),
        frame.width,
        acceleration_cap,
        speed_cap,
    );
    let y = axis_of(
        intent.current.y,
        intent.velocity.y,
        frame.step(),
        frame.length,
        acceleration_cap,
        speed_cap,
    );
    match (room(raw_bounds(plus, times, over, x)), room(raw_bounds(plus, times, over, y))) {
        (Some(bx), Some(by)) => Some((bx, by)),
        _ => None,
    }
}

/// The refinement that a planned acceleration leads to; none where it is not finite.
pub open spec fn refinement_by<
    P: Fn(Real64, Real64) -> Real64,
    M: Fn(Real64, Real64) -> Real64,
    D: Fn(Vec2, Vec2) -> Real64,
    L: Fn(Vec2, Real64) -> Vec2,
>(
    plus: P,
    times: M,
    distance: D,
    limit: L,
    frame: TickFrame,
    me: FieldPlayer,
    motion: GuidanceMotion,
    intent: Intent,
    target: Vec2,
    bounds: ((Real64, Real64), (Real64, Real64)),
    planned: Vec2,
) -> Option<MpcRefinement> {
    let acceleration = limited_by(
        limit,
        Vec2 {
            x: clamped_to(planned.x, (bounds.0).0, (bounds.0).1),
            y: clamped_to(planned.y, (bounds.1).0, (bounds.1).1),
        },
        plan_acceleration_cap(me, motion),
    );
    if !is_finite_point(planned) || !is_finite_point(acceleration) {
        None
    } else {
        let velocity = limited_by(
            limit,
            joined(plus, intent.velocity, stretched(times, acceleration, frame.step())),
            plan_speed_cap(distance, me, motion),
        );
        let goal = projected(
            plus,
            times,
            frame,
            intent.current,
            intent.velocity,
            acceleration,
            target,
        );
        Some(
            MpcRefinement {
                target: goal,
                recommended_move: way(plus, intent.current, goal),
                target_velocity: velocity,
                target_acceleration: acceleration,
                recommended_move_yards: size_of(distance, way(plus, intent.current, goal)),
                recommended_speed_yps: size_of(distance, velocity),
                recommended_acceleration_yps2: size_of(distance, acceleration),
                formation_error_yards: distance_of(distance, goal, motion.formation_anchor),
                movement_error_yards: distance_of(distance, goal, intent.current),
                pressure_error_yards: pressure_error(distance, goal, motion.pressure_target),
                fore_aft_speed_error_yps: if num(D1EM09).less(motion.speed_match_weight) {
                    outcome(plus, velocity.y, motion.target_velocity.y.negated()).absolute()
                } else {
                    motion.fore_aft_speed_error_yps
                },
            },
        )
    }
}

fn refine_by<
    P: Fn(Real64, Real64) -> Real64,
    M: Fn(Real64, Real64) -> Real64,
    D: Fn(Vec2, Vec2) -> Real64,
    L: Fn(Vec2, Real64) -> Vec2,
>(
    frame: &TickFrame,
    me: &FieldPlayer,
    motion: &GuidanceMotion,
    intent: &Intent,
    target: Vec2,
    bounds: ((Real64, Real64), (Real64, Real64)),
    planned: Vec2,
    speed_cap: Real64,
    acceleration_cap: Real64,
    plus: &P,
    times: &M,
    distance: &D,
    limit: &L,
) -> (r: Option<MpcRefinement>)
    requires
        is_operation(*plus),
        is_operation(*times),
        is_distance(*distance),
        is_limit(*limit),
        speed_cap == plan_speed_cap(*distance, *me, *motion),
        acceleration_cap == plan_acceleration_cap(*me, *motion),
    ensures
        r == refinement_by(
            *plus,
            *times,
            *distance,
            *limit,
            *frame,
            *me,
            *motion,
            *intent,
            target,
            bounds,
            planned,
        ),
{
    let ((low_x, high_x), (low_y, high_y)): ((Real64, Real64), (Real64, Real64)) = bounds;
    let acceleration: Vec2 = limit_size(
        limit,
        Vec2 { x: clamp_to(planned.x, low_x, high_x), y: clamp_to(planned.y, low_y, high_y) },
        acceleration_cap,
    );
    if !finite_point(planned) || !finite_point(acceleration) {
        return None;
    }
    let dt: Real64 = frame.step_seconds();
    let velocity: Vec2 = limit_size(
        limit,
        join(intent.velocity, stretch(acceleration, dt, times), plus),
        speed_cap,
    );
    let half: Real64 = apply(times, apply(times, at_bits(D0_5), dt), dt);
    let moved: Vec2 = join(intent.current, stretch(intent.velocity, dt, times), plus);
    let goal: Vec2 = take_place(
        join(moved, stretch(acceleration, half, times), plus),
        frame.width,
        frame.length,
        target,
    );
    let recommended_move: Vec2 = find_way(intent.current, goal, plus);
    let off_press: Real64 = match motion.pressure_target {
        Some(p) => measure(distance, goal, p),
        None => at_bits(D0),
    };
    let off_speed: Real64 = if at_bits(D1EM09).is_below(motion.speed_match_weight) {
        apply(plus, velocity.y, motion.target_velocity.y.negate()).abs()
    } else {
        motion.fore_aft_speed_error_yps
    };
    Some(
        MpcRefinement {
            target: goal,
            recommended_move,
            target_velocity: velocity,
            target_acceleration: acceleration,
            recommended_move_yards: measure_size(distance, recommended_move),
            recommended_speed_yps: measure_size(distance, velocity),
            recommended_acceleration_yps2: measure_size(distance, acceleration),
            formation_error_yards: measure(distance, goal, motion.formation_anchor),
            movement_error_yards: measure(distance, goal, intent.current),
            pressure_error_yards: off_press,
            fore_aft_speed_error_yps: off_speed,
        },
    )
}

/// A refinement comes of a plan: the planner was asked for the plan that follows from the motion,
/// the player and the surroundings, and its answer leads to the refinement. Nothing comes where
/// the player is not on the pitch, the limits leave no acceleration, or the planner has no answer.
pub open spec fn is_refinement<
    P: Fn(Real64, Real64) -> Real64,
    M: Fn(Real64, Real64) -> Real64,
    Q: Fn(Real64, Real64) -> Real64,
    D: Fn(Vec2, Vec2) -> Real64,
    U: Fn(Vec2) -> Vec2,
    L: Fn(Vec2, Real64) -> Vec2,
    W: Fn(Real64) -> usize,
    H: Fn(Real64) -> Real64,
    K: Fn(&PlanarPlan, &Vec<PlanarObstacle>) -> Option<Vec2>,
>(
    plus: P,
    times: M,
    over: Q,
    distance: D,
    unit: U,
    limit: L,
    whole: W,
    halving: H,
    control: K,
    frame: TickFrame,
    id: usize,
    team: Team,
    motion: GuidanceMotion,
    ball: FieldBall,
    players: Seq<FieldPlayer>,
    r: Option<MpcRefinement>,
) -> bool {
    match find_on_team(players, id, team, 0) {
        Some(me) => {
            let intent = intent_of(plus, over, distance, limit, frame, me, motion);
            let speed_cap = plan_speed_cap(distance, me, motion);
            let context = whole_field_context(
                plus,
                times,
                over,
                distance,
                unit,
                limit,
                frame,
                me,
                intent,
                ball,
                players,
                speed_cap,
            );
            match both_bounds(
                plus,
                times,
                over,
                frame,
                intent,
                plan_acceleration_cap(me, motion),
                speed_cap,
            ) {
                Some(bounds) => {
                    let plan = plan_for(
                        plus,
                        times,
                        frame,
                        me,
                        motion,
                        intent,
                        context,
                        steps_of(whole, outcome(over, num(D2_25), frame.step())),
                        image(halving, outcome(over, frame.step(), num(D1_5))),
                    );
                    exists|obstacles: Vec<PlanarObstacle>, planned: Option<Vec2>|
                        {
                            &&& obstacles@ == obstacles_of(
                                plus,
                                times,
                                over,
                                distance,
                                limit,
                                frame,
                                me,
                                ball,
                                players,
                            )
                            &&& #[trigger] call_ensures(control, (&plan, &obstacles), planned)
                            &&& r == match planned {
                                Some(acceleration) => refinement_by(
                                    plus,
                                    times,
                                    distance,
                                    limit,
                                    frame,
                                    me,
                                    motion,
                                    intent,
                                    context.target,
                                    bounds,
                                    acceleration,
                                ),
                                None => None,
                            }
                        }
                },
                None => r is None,
            }
        },
        None => r is None,
    }
}

/// Refines the motion of a guided player. `whole` counts steps, `halving` gives what is left after
/// so many half-lives, `control` plans an acceleration.
pub fn soccer_local_mpc_refined_guidance<
    P: Fn(Real64, Real64) -> Real64,
    M: Fn(Real64, Real64) -> Real64,
    Q: Fn(Real64, Real64) -> Real64,
    D: Fn(Vec2, Vec2) -> Real64,
    U: Fn(Vec2) -> Vec2,
    L: Fn(Vec2, Real64) -> Vec2,
    W: Fn(Real64) -> usize,
    H: Fn(Real64) -> Real64,
    K: Fn(&PlanarPlan, &Vec<PlanarObstacle>) -> Option<Vec2>,
>(
    frame: &TickFrame,
    id: usize,
    team: Team,
    motion: &GuidanceMotion,
    ball: &FieldBall,
    players: &Vec<FieldPlayer>,
    plus: &P,
    times: &M,
    over: &Q,
    distance: &D,
    unit: &U,
    limit: &L,
    whole: &W,
    halving: &H,
    control: &K,
) -> (r: Option<MpcRefinement>)
    requires
        is_operation(*plus),
        is_operation(*times),
        is_operation(*over),
        is_distance(*distance),
        is_heading(*unit),
        is_limit(*limit),
        is_counting(*whole),
        is_function(*halving),
        forall|plan: &PlanarPlan, obstacles: &Vec<PlanarObstacle>| #[trigger]
            call_requires(*control, (plan, obstacles)),
    ensures
        is_refinement(
            *plus,
            *times,
            *over,
            *distance,
            *unit,
            *limit,
            *whole,
            *halving,
            *control,
            *frame,
            id,
            team,
            *motion,
            *ball,
            players@,
            r,
        ),
{
    let me: FieldPlayer = match look_up(players, id, team) {
        Some(p) => p,
        None => {
            return None;
        },
    };
    let dt: Real64 = frame.step_seconds();
    let current: Vec2 = take_place(motion.current, frame.width, frame.length, me.position);
    let velocity: Vec2 = take_finite(me.velocity, motion.target_velocity);
    let target: Vec2 = take_place(motion.target, frame.width, frame.length, current);
    let led: Real64 = measure_size(distance, motion.target_velocity);
    let desired: Vec2 = if at_bits(D1EM09).is_below(led) {
        motion.target_velocity
    } else {
        divide(find_way(current, target, plus), dt, over)
    };
    let speed_cap: Real64 = clamp_to(
        larger_of(
            larger_of(me.top_speed, motion.recommended_speed_yps),
            measure_size(distance, velocity),
        ),
        at_bits(D0_5),
        at_bits(D20),
    );
    let intent: Intent = Intent {
        current,
        velocity,
        target,
        desired_velocity: limit_size(limit, desired, speed_cap),
    };
    let context: SoccerLocalMpcWholeFieldContext = soccer_local_mpc_whole_field_context(
        frame,
        &me,
        &intent,
        ball,
        players,
        speed_cap,
        plus,
        times,
        over,
        distance,
        unit,
        limit,
    );
    let acceleration_cap: Real64 = clamp_to(
        larger_of(
            me.max_acceleration,
            smaller_of(motion.recommended_acceleration_yps2, at_bits(D12)),
        ),
        at_bits(D2_5),
        at_bits(D12),
    );
    let across: AxisMotion = AxisMotion {
        position: current.x,
        velocity: velocity.x,
        dt,
        min_position: at_bits(D0),
        max_position: frame.width,
        accel_cap: acceleration_cap,
        speed_cap,
    };
    let along: AxisMotion = AxisMotion {
        position: current.y,
        velocity: velocity.y,
        dt,
        min_position: at_bits(D0),
        max_position: frame.length,
        accel_cap: acceleration_cap,
        speed_cap,
    };
    let bounds_x: (Real64, Real64) = match soccer_local_mpc_axis_bounds(
        &across,
        plus,
        times,
        over,
    ) {
        Some(b) => b,
        None => {
            return None;
        },
    };
    let bounds_y: (Real64, Real64) = match soccer_local_mpc_axis_bounds(&along, plus, times, over) {
        Some(b) => b,
        None => {
            return None;
        },
    };
    let pressed: Real64 = apply(
        plus,
        at_bits(D8),
        apply(times, motion.pressure_weight, at_bits(D6)),
    );
    let paired: Real64 = apply(plus, pressed, smaller_of(motion.pair_error_yards, at_bits(D6)));
    let q_pos: Real64 = apply(plus, paired, context.position_weight_bonus);
    let matched: Real64 = apply(
        plus,
        at_bits(D1_25),
        apply(times, motion.speed_match_weight, at_bits(D3)),
    );
    let q_vel: Real64 = apply(plus, matched, context.velocity_weight_bonus);
    let span: Real64 = apply(over, at_bits(D2_25), dt);
    let steps: usize = whole(span);
    assert(call_ensures(*whole, (span,), steps));
    let (horizon, iters): (usize, usize) = refinement_effort(steps);
    let decay: Real64 = map_number(halving, apply(over, dt, at_bits(D1_5)));
    let plan: PlanarPlan = PlanarPlan {
        position: current,
        velocity,
        target: context.target,
        desired_velocity: context.desired_velocity,
        horizon,
        dt,
        q_pos,
        q_vel,
        qf_pos: apply(times, q_pos, at_bits(D3)),
        qf_vel: apply(times, q_vel, at_bits(D2)),
        r: at_bits(D0_1),
        a_max: acceleration_cap,
        iters,
        obstacle_decay_per_step: clamp_to(decay, at_bits(D0_7), at_bits(D1)),
    };
    let obstacles: Vec<PlanarObstacle> = soccer_local_mpc_planar_obstacles(
        frame,
        &me,
        ball,
        players,
        plus,
        times,
        over,
        distance,
        limit,
    );
    assert(intent == intent_of(*plus, *over, *distance, *limit, *frame, me, *motion));
    assert(both_bounds(*plus, *times, *over, *frame, intent, acceleration_cap, speed_cap) == Some(
        (bounds_x, bounds_y),
    ));
    assert(plan == plan_for(*plus, *times, *frame, me, *motion, intent, context, steps, decay));
    let planned: Option<Vec2> = control(&plan, &obstacles);
    assert(call_ensures(*control, (&plan, &obstacles), planned));
    match planned {
        Some(acceleration) => refine_by(
            frame,
            &me,
            motion,
            &intent,
            context.target,
            (bounds_x, bounds_y),
            acceleration,
            speed_cap,
            acceleration_cap,
            plus,
            times,
            distance,
            limit,
        ),
        None => None,
    }
}

/// What a plan weighs: the place 8, six times the pressing and up to 6 yards of pair error more;
/// the speed 1.25 and three times the matching; in the end three and two times as much.
pub proof fn plans_weigh_place_and_speed<
    P: Fn(Real64, Real64) -> Real64,
    M: Fn(Real64, Real64) -> Real64,
>(
    means: spec_fn(Real64, real) -> bool,
    plus: P,
    times: M,
    frame: TickFrame,
    me: FieldPlayer,
    motion: GuidanceMotion,
    intent: Intent,
    context: SoccerLocalMpcWholeFieldContext,
    steps: usize,
    decay: Real64,
    press: real,
    pair: real,
    place: real,
    matching: real,
    speed: real,
    d: real,
)
    requires
        is_faithful(means, plus, times),
        means(motion.pressure_weight, press),
        means(motion.pair_error_yards, pair),
        means(context.position_weight_bonus, place),
        means(motion.speed_match_weight, matching),
        means(context.velocity_weight_bonus, speed),
        means(decay, d),
    ensures
        ({
            let plan = plan_for(plus, times, frame, me, motion, intent, context, steps, decay);
            let q = 8real + press * 6real + least(pair, 6real) + place;
            let v = (5real / 4real) + matching * 3real + speed;
            &&& means(plan.q_pos, q) && means(plan.qf_pos, q * 3real)
            &&& means(plan.q_vel, v) && means(plan.qf_vel, v * 2real)
            &&& means(plan.r, (1real / 10real))
            &&& means(plan.obstacle_decay_per_step, bounded(d, (7real / 10real), 1real))
        }),
{
    decimals_are_read(means);
}

/// The acceleration of a plan: what the player can, or what is recommended up to 12, between 2.5
/// and 12.
pub proof fn plans_keep_caps(
    means: spec_fn(Real64, real) -> bool,
    me: FieldPlayer,
    motion: GuidanceMotion,
    most_of: real,
    asked: real,
)
    requires
        reads_signs(means),
        reads_order(means),
        reads_decimals(means),
        means(me.max_acceleration, most_of),
        means(motion.recommended_acceleration_yps2, asked),
    ensures
        means(
            plan_acceleration_cap(me, motion),
            bounded(most(most_of, least(asked, 12real)), (5real / 2real), 12real),
        ),
{
    decimals_are_read(means);
}

} // verus!
