//! The motions that a solution of the formation program recommends, and those that stand in
//! where there is none.
use crate::decimals::{D0, D1, D1EM09, D1_4, D2};
use crate::formation::anchor::reach_of;
use crate::formation::brain::soccer_lp_clamped;
use crate::formation::guidance::{
    active_slots, complete_solution, has_complete_finite_solution, GuidanceMotion, LPSolution,
    SlotHead,
};
use crate::formation::inputs::is_pitch;
use crate::formation::layout::{
    pairs_laid_out, SoccerFormationLpPairVars, SOCCER_FORMATION_LP_PLAYER_CAPACITY, VARIABLES,
};
use crate::formation::lines::{
    annotate_formation_lp_role_line_errors, line_error, GuidedTarget,
};
use crate::formation::state::{soccer_lp_unit, unit_value};
use crate::formation::tick::{
    acceleration_cap, belonging, find_caps, find_places, find_reach, pressing_at, reach_measures,
    speed_cap, standing, SoccerFormationLpSlotInput, TickFrame,
};
use crate::geometry::{
    distance_of, divide, divided, find_way, finite_or, head_for, heading_of, is_distance,
    is_heading, is_limit, join, joined, keep_in, kept_in, limit_size, limited_by, measure,
    measure_size, origin, place_or, size_of, stretch, stretched, take_finite, take_place, way,
};
use crate::meaning::{
    bounded, decimals_are_read, is_faithful, reads_counts, reads_decimals, reads_order,
    reads_quotients, reads_sums, real_sum, set_flags, size, stands_at,
};
use crate::number::{
    apply, at_bits, is_conversion, is_operation, num, number_of, outcome, to_number, Real64,
};
use crate::pitch::Vec2;
use crate::tunables::fitted;
use vstd::prelude::*;

verus! {

/// How far the guidance of a slot is from where its player presses.
pub open spec fn pressure_error<D: Fn(Vec2, Vec2) -> Real64>(
    distance: D,
    target: Vec2,
    pressing: Option<Vec2>,
) -> Real64 {
    match pressing {
        Some(p) => distance_of(distance, target, p),
        None => num(D0),
    }
}

/// How far off the speed to be matched a velocity is; nothing where no speed is to be matched.
pub open spec fn speed_error<P: Fn(Real64, Real64) -> Real64>(
    plus: P,
    input: SoccerFormationLpSlotInput,
    velocity: Vec2,
    dt: Real64,
) -> Real64 {
    if num(D1EM09).less(unit_value(input.speed_match_weight)) && num(D1EM09).less(dt) {
        outcome(
            plus,
            velocity.y,
            input.speed_match_velocity_yps.finite_or_zero_value().negated(),
        ).absolute()
    } else {
        num(D0)
    }
}

/// The motion that leads to a target with a velocity and an acceleration.
pub open spec fn motion_to<
    P: Fn(Real64, Real64) -> Real64,
    M: Fn(Real64, Real64) -> Real64,
    D: Fn(Vec2, Vec2) -> Real64,
>(
    plus: P,
    times: M,
    distance: D,
    frame: TickFrame,
    input: SoccerFormationLpSlotInput,
    target: Vec2,
    velocity: Vec2,
    acceleration: Vec2,
    pair_error: Real64,
) -> GuidanceMotion {
    let current = standing(times, frame, input);
    let anchor = belonging(times, frame, input);
    let pressing = pressing_at(times, frame, input);
    GuidanceMotion {
        current,
        target,
        formation_anchor: anchor,
        pressure_target: pressing,
        recommended_move: way(plus, current, target),
        target_velocity: velocity,
        target_acceleration: acceleration,
        recommended_move_yards: size_of(distance, way(plus, current, target)),
        recommended_speed_yps: size_of(distance, velocity),
        recommended_acceleration_yps2: size_of(distance, acceleration),
        formation_error_yards: distance_of(distance, target, anchor),
        movement_error_yards: distance_of(distance, target, current),
        pair_error_yards: pair_error,
        role_line_error_yards: num(D0),
        pressure_error_yards: pressure_error(distance, target, pressing),
        fore_aft_speed_error_yps: speed_error(plus, input, velocity, frame.step()),
        pressure_weight: fitted(input.pressure_weight, D0, D0, D1_4),
        speed_match_weight: unit_value(input.speed_match_weight),
        alignment_weight: fitted(input.alignment_weight, D0, D0, D2),
    }
}

fn lead_to<
    P: Fn(Real64, Real64) -> Real64,
    M: Fn(Real64, Real64) -> Real64,
    D: Fn(Vec2, Vec2) -> Real64,
>(
    frame: &TickFrame,
    input: &SoccerFormationLpSlotInput,
    target: Vec2,
    velocity: Vec2,
    acceleration: Vec2,
    pair_error: Real64,
    plus: &P,
    times: &M,
    distance: &D,
) -> (r: GuidanceMotion)
    requires
        is_operation(*plus),
        is_operation(*times),
        is_distance(*distance),
    ensures
        r == motion_to(
            *plus,
            *times,
            *distance,
            *frame,
            *input,
            target,
            velocity,
            acceleration,
            pair_error,
        ),
{
    let (current, anchor, pressing): (Vec2, Vec2, Option<Vec2>) = find_places(frame, input, times);
    let edge: Real64 = at_bits(D1EM09);
    let matching: Real64 = soccer_lp_unit(input.speed_match_weight);
    let off_speed: Real64 = if edge.is_below(matching) && edge.is_below(frame.step_seconds()) {
        apply(plus, velocity.y, input.speed_match_velocity_yps.finite_or_zero().negate()).abs()
    } else {
        at_bits(D0)
    };
    let off_press: Real64 = match pressing {
        Some(p) => measure(distance, target, p),
        None => at_bits(D0),
    };
    let recommended_move: Vec2 = find_way(current, target, plus);
    GuidanceMotion {
        current,
        target,
        formation_anchor: anchor,
        pressure_target: pressing,
        recommended_move,
        target_velocity: velocity,
        target_acceleration: acceleration,
        recommended_move_yards: measure_size(distance, recommended_move),
        recommended_speed_yps: measure_size(distance, velocity),
        recommended_acceleration_yps2: measure_size(distance, acceleration),
        formation_error_yards: measure(distance, target, anchor),
        movement_error_yards: measure(distance, target, current),
        pair_error_yards: pair_error,
        role_line_error_yards: at_bits(D0),
        pressure_error_yards: off_press,
        fore_aft_speed_error_yps: off_speed,
        pressure_weight: soccer_lp_clamped(input.pressure_weight, D0, D1_4, D0),
        speed_match_weight: matching,
        alignment_weight: soccer_lp_clamped(input.alignment_weight, D0, D2, D0),
    }
}

/// The motion that a solution recommends to a slot whose variables start at `at`.
pub open spec fn solved_motion<
    P: Fn(Real64, Real64) -> Real64,
    M: Fn(Real64, Real64) -> Real64,
    D: Fn(Vec2, Vec2) -> Real64,
    L: Fn(Vec2, Real64) -> Vec2,
>(
    plus: P,
    times: M,
    distance: D,
    limit: L,
    frame: TickFrame,
    input: SoccerFormationLpSlotInput,
    x: Seq<Real64>,
    at: int,
    pair_error: Real64,
) -> GuidanceMotion {
    let velocity = finite_or(input.velocity, origin());
    let acceleration = finite_or(input.acceleration, origin());
    motion_to(
        plus,
        times,
        distance,
        frame,
        input,
        place_or(
            Vec2 { x: x[at], y: x[at + 1] },
            frame.width,
            frame.length,
            standing(times, frame, input),
        ),
        limited_by(
            limit,
            finite_or(Vec2 { x: x[at + 2], y: x[at + 3] }, velocity),
            speed_cap(distance, input),
        ),
        limited_by(
            limit,
            finite_or(Vec2 { x: x[at + 4], y: x[at + 5] }, acceleration),
            acceleration_cap(distance, input),
        ),
        pair_error,
    )
}

fn find_solved_motion<
    P: Fn(Real64, Real64) -> Real64,
    M: Fn(Real64, Real64) -> Real64,
    D: Fn(Vec2, Vec2) -> Real64,
    L: Fn(Vec2, Real64) -> Vec2,
>(
    frame: &TickFrame,
    input: &SoccerFormationLpSlotInput,
    x: &Vec<Real64>,
    at: usize,
    pair_error: Real64,
    plus: &P,
    times: &M,
    distance: &D,
    limit: &L,
) -> (r: GuidanceMotion)
    requires
        is_operation(*plus),
        is_operation(*times),
        is_distance(*distance),
        is_limit(*limit),
        at + 5 < VARIABLES,
        x@.len() >= VARIABLES,
    ensures
        r == solved_motion(
            *plus,
            *times,
            *distance,
            *limit,
            *frame,
            *input,
            x@,
            at as int,
            pair_error,
        ),
{
    let zero_vector: Vec2 = Vec2 { x: at_bits(D0), y: at_bits(D0) };
    let (current, _, _): (Vec2, Vec2, Option<Vec2>) = find_places(frame, input, times);
    let (top, most): (Real64, Real64) = find_caps(input, distance);
    let target: Vec2 = take_place(
        Vec2 { x: x[at], y: x[at + 1] },
        frame.width,
        frame.length,
        current,
    );
    let velocity: Vec2 = take_finite(
        Vec2 { x: x[at + 2], y: x[at + 3] },
        take_finite(input.velocity, zero_vector),
    );
    let acceleration: Vec2 = take_finite(
        Vec2 { x: x[at + 4], y: x[at + 5] },
        take_finite(input.acceleration, zero_vector),
    );
    lead_to(
        frame,
        input,
        target,
        limit_size(limit, velocity, top),
        limit_size(limit, acceleration, most),
        pair_error,
        plus,
        times,
        distance,
    )
}

/// Where a player heads without a solution: between the anchor and where the player presses.
pub open spec fn fallback_anchor<P: Fn(Real64, Real64) -> Real64, M: Fn(Real64, Real64) -> Real64>(
    plus: P,
    times: M,
    frame: TickFrame,
    input: SoccerFormationLpSlotInput,
) -> Vec2 {
    let anchor = belonging(times, frame, input);
    let share = unit_value(fitted(input.pressure_weight, D0, D0, D1_4));
    kept_in(
        match pressing_at(times, frame, input) {
            Some(p) => joined(
                plus,
                stretched(times, anchor, outcome(plus, num(D1), share.negated())),
                stretched(times, p, share),
            ),
            None => anchor,
        },
        frame.width,
        frame.length,
    )
}

/// How far a player gets on the way: the whole of it, or as far as the player reaches.
pub open spec fn part_of_way<
    M: Fn(Real64, Real64) -> Real64,
    D: Fn(Vec2, Vec2) -> Real64,
    U: Fn(Vec2) -> Vec2,
>(times: M, distance: D, unit: U, desired: Vec2, reach: Real64) -> Vec2 {
    if reach.less(size_of(distance, desired)) && num(D1EM09).less(reach) {
        stretched(times, heading_of(unit, desired), reach)
    } else {
        desired
    }
}

/// The motion of a slot without a solution.
pub open spec fn fallback_motion<
    P: Fn(Real64, Real64) -> Real64,
    M: Fn(Real64, Real64) -> Real64,
    Q: Fn(Real64, Real64) -> Real64,
    D: Fn(Vec2, Vec2) -> Real64,
    U: Fn(Vec2) -> Vec2,
    L: Fn(Vec2, Real64) -> Vec2,
>(
    plus: P,
    times: M,
    over: Q,
    distance: D,
    unit: U,
    limit: L,
    frame: TickFrame,
    input: SoccerFormationLpSlotInput,
) -> GuidanceMotion {
    let dt = frame.step();
    let current = standing(times, frame, input);
    let reach = reach_of(plus, times, reach_measures(distance, input, dt));
    let desired = way(plus, current, fallback_anchor(plus, times, frame, input));
    let target = kept_in(
        joined(plus, current, part_of_way(times, distance, unit, desired, reach)),
        frame.width,
        frame.length,
    );
    let velocity = limited_by(
        limit,
        divided(over, way(plus, current, target), dt),
        speed_cap(distance, input),
    );
    let acceleration = limited_by(
        limit,
        divided(over, way(plus, finite_or(input.velocity, origin()), velocity), dt),
        acceleration_cap(distance, input),
    );
    motion_to(plus, times, distance, frame, input, target, velocity, acceleration, num(D0))
}

fn find_fallback_motion<
    P: Fn(Real64, Real64) -> Real64,
    M: Fn(Real64, Real64) -> Real64,
    Q: Fn(Real64, Real64) -> Real64,
    D: Fn(Vec2, Vec2) -> Real64,
    U: Fn(Vec2) -> Vec2,
    L: Fn(Vec2, Real64) -> Vec2,
>(
    frame: &TickFrame,
    input: &SoccerFormationLpSlotInput,
    plus: &P,
    times: &M,
    over: &Q,
    distance: &D,
    unit: &U,
    limit: &L,
) -> (r: GuidanceMotion)
    requires
        is_operation(*plus),
        is_operation(*times),
        is_operation(*over),
        is_distance(*distance),
        is_heading(*unit),
        is_limit(*limit),
    ensures
        r == fallback_motion(*plus, *times, *over, *distance, *unit, *limit, *frame, *input),
{
    let zero_vector: Vec2 = Vec2 { x: at_bits(D0), y: at_bits(D0) };
    let dt: Real64 = frame.step_seconds();
    let (current, anchor, pressing): (Vec2, Vec2, Option<Vec2>) = find_places(frame, input, times);
    let (top, most): (Real64, Real64) = find_caps(input, distance);
    let reach: Real64 = find_reach(input, dt, plus, times, distance);
    let share: Real64 = soccer_lp_unit(soccer_lp_clamped(input.pressure_weight, D0, D1_4, D0));
    let goal: Vec2 = match pressing {
        Some(p) => {
            let less: Real64 = apply(plus, at_bits(D1), share.negate());
            join(stretch(anchor, less, times), stretch(p, share, times), plus)
        },
        None => anchor,
    };
    let desired: Vec2 = find_way(current, keep_in(goal, frame.width, frame.length), plus);
    let part: Vec2 = if reach.is_below(measure_size(distance, desired)) && at_bits(D1EM09).is_below(
        reach,
    ) {
        stretch(head_for(unit, desired), reach, times)
    } else {
        desired
    };
    let target: Vec2 = keep_in(join(current, part, plus), frame.width, frame.length);
    let velocity: Vec2 = limit_size(limit, divide(find_way(current, target, plus), dt, over), top);
    let change: Vec2 = find_way(take_finite(input.velocity, zero_vector), velocity, plus);
    let acceleration: Vec2 = limit_size(limit, divide(change, dt, over), most);
    lead_to(
        frame,
        input,
        target,
        velocity,
        acceleration,
        at_bits(D0),
        plus,
        times,
        distance,
    )
}

/// A pair takes in a slot.
pub open spec fn takes_in(pair: SoccerFormationLpPairVars, slot: int) -> bool {
    pair.a == slot || pair.b == slot
}

/// How far a solution leaves the first `n` pairs of a slot apart from their offsets, added up, and
/// how many there are.
pub open spec fn pair_errors<P: Fn(Real64, Real64) -> Real64>(
    plus: P,
    pairs: Seq<SoccerFormationLpPairVars>,
    x: Seq<Real64>,
    slot: int,
    n: int,
) -> (Real64, int)
    decreases n,
{
    if n <= 0 {
        (num(D0), 0)
    } else {
        let before = pair_errors(plus, pairs, x, slot, n - 1);
        let pair = pairs[n - 1];
        if takes_in(pair, slot) {
            let error = outcome(
                plus,
                x[pair.separation_slack_x as int].absolute(),
                x[pair.separation_slack_y as int].absolute(),
            );
            (outcome(plus, before.0, error), before.1 + 1)
        } else {
            before
        }
    }
}

/// How far a solution leaves the pairs of a slot apart from their offsets, on average.
pub open spec fn pair_error_mean<
    P: Fn(Real64, Real64) -> Real64,
    Q: Fn(Real64, Real64) -> Real64,
    C: Fn(usize) -> Real64,
>(
    plus: P,
    over: Q,
    count: C,
    pairs: Seq<SoccerFormationLpPairVars>,
    x: Seq<Real64>,
    slot: int,
) -> Real64 {
    let (sum, n) = pair_errors(plus, pairs, x, slot, pairs.len() as int);
    if n > 0 {
        outcome(over, sum, number_of(count, n as usize))
    } else {
        num(D0)
    }
}

fn find_pair_error_mean<
    P: Fn(Real64, Real64) -> Real64,
    Q: Fn(Real64, Real64) -> Real64,
    C: Fn(usize) -> Real64,
>(
    pairs: &Vec<SoccerFormationLpPairVars>,
    x: &Vec<Real64>,
    slot: usize,
    plus: &P,
    over: &Q,
    count: &C,
) -> (r: Real64)
    requires
        is_operation(*plus),
        is_operation(*over),
        is_conversion(*count),
        pairs_laid_out(pairs@),
        x@.len() >= VARIABLES,
    ensures
        r == pair_error_mean(*plus, *over, *count, pairs@, x@, slot as int),
{
    let mut sum: Real64 = at_bits(D0);
    let mut n: usize = 0;
    let mut p: usize = 0;
    while p < pairs.len()
        invariant
            p <= pairs@.len(),
            n <= p,
            is_operation(*plus),
            pairs_laid_out(pairs@),
            x@.len() >= VARIABLES,
            (sum, n as int) == pair_errors(*plus, pairs@, x@, slot as int, p as int),
        decreases pairs@.len() - p,
    {
        let pair: SoccerFormationLpPairVars = pairs[p];
        if pair.a == slot || pair.b == slot {
            let error: Real64 = apply(
                plus,
                x[pair.separation_slack_x].abs(),
                x[pair.separation_slack_y].abs(),
            );
            sum = apply(plus, sum, error);
            n += 1;
        }
        p += 1;
    }
    if n > 0 {
        apply(over, sum, to_number(count, n))
    } else {
        at_bits(D0)
    }
}

/// The motion of slot `s`: what the solution says where it is complete, else the fallback.
pub open spec fn motion_of<
    P: Fn(Real64, Real64) -> Real64,
    M: Fn(Real64, Real64) -> Real64,
    Q: Fn(Real64, Real64) -> Real64,
    C: Fn(usize) -> Real64,
    D: Fn(Vec2, Vec2) -> Real64,
    U: Fn(Vec2) -> Vec2,
    L: Fn(Vec2, Real64) -> Vec2,
>(
    plus: P,
    times: M,
    over: Q,
    count: C,
    distance: D,
    unit: U,
    limit: L,
    frame: TickFrame,
    inputs: Seq<SoccerFormationLpSlotInput>,
    pairs: Seq<SoccerFormationLpPairVars>,
    solution: LPSolution,
    s: int,
) -> GuidanceMotion {
    if complete_solution(solution) {
        solved_motion(
            plus,
            times,
            distance,
            limit,
            frame,
            inputs[s],
            solution.x@,
            19 * s,
            pair_error_mean(plus, over, count, pairs, solution.x@, s),
        )
    } else {
        fallback_motion(plus, times, over, distance, unit, limit, frame, inputs[s])
    }
}

/// Works out the motions of all slots.
pub fn find_motions<
    P: Fn(Real64, Real64) -> Real64,
    M: Fn(Real64, Real64) -> Real64,
    Q: Fn(Real64, Real64) -> Real64,
    C: Fn(usize) -> Real64,
    D: Fn(Vec2, Vec2) -> Real64,
    U: Fn(Vec2) -> Vec2,
    L: Fn(Vec2, Real64) -> Vec2,
>(
    frame: &TickFrame,
    inputs: &Vec<SoccerFormationLpSlotInput>,
    pairs: &Vec<SoccerFormationLpPairVars>,
    solution: &LPSolution,
    plus: &P,
    times: &M,
    over: &Q,
    count: &C,
    distance: &D,
    unit: &U,
    limit: &L,
) -> (motions: Vec<GuidanceMotion>)
    requires
        is_operation(*plus),
        is_operation(*times),
        is_operation(*over),
        is_conversion(*count),
        is_distance(*distance),
        is_heading(*unit),
        is_limit(*limit),
        inputs@.len() == SOCCER_FORMATION_LP_PLAYER_CAPACITY,
        pairs_laid_out(pairs@),
    ensures
        motions@.len() == SOCCER_FORMATION_LP_PLAYER_CAPACITY,
        forall|s: int|
            0 <= s < SOCCER_FORMATION_LP_PLAYER_CAPACITY ==> #[trigger] motions@[s] == motion_of(
                *plus,
                *times,
                *over,
                *count,
                *distance,
                *unit,
                *limit,
                *frame,
                inputs@,
                pairs@,
                *solution,
                s,
            ),
{
    let complete: bool = has_complete_finite_solution(solution);
    let mut motions: Vec<GuidanceMotion> = Vec::new();
    let mut s: usize = 0;
    while s < SOCCER_FORMATION_LP_PLAYER_CAPACITY
        invariant
            s <= SOCCER_FORMATION_LP_PLAYER_CAPACITY,
            is_operation(*plus),
            is_operation(*times),
            is_operation(*over),
            is_conversion(*count),
            is_distance(*distance),
            is_heading(*unit),
            is_limit(*limit),
            inputs@.len() == SOCCER_FORMATION_LP_PLAYER_CAPACITY,
            pairs_laid_out(pairs@),
            complete == complete_solution(*solution),
            motions@.len() == s,
            forall|t: int|
                0 <= t < s ==> #[trigger] motions@[t] == motion_of(
                    *plus,
                    *times,
                    *over,
                    *count,
                    *distance,
                    *unit,
                    *limit,
                    *frame,
                    inputs@,
                    pairs@,
                    *solution,
                    t,
                ),
        decreases SOCCER_FORMATION_LP_PLAYER_CAPACITY - s,
    {
        let motion: GuidanceMotion = if complete {
            let error: Real64 = find_pair_error_mean(pairs, &solution.x, s, plus, over, count);
            find_solved_motion(
                frame,
                &inputs[s],
                &solution.x,
                19 * s,
                error,
                plus,
                times,
                distance,
                limit,
            )
        } else {
            find_fallback_motion(frame, &inputs[s], plus, times, over, distance, unit, limit)
        };
        motions.push(motion);
        s += 1;
    }
    motions
}

/// How far a line may spread before it counts as an error, by role.
#[derive(Clone, Copy, Debug, PartialEq, Eq, Structural)]
pub struct LineTolerances {
    pub defender: Real64,
    pub midfielder: Real64,
}

/// The slots' players.
pub open spec fn heads_of(inputs: Seq<SoccerFormationLpSlotInput>) -> Seq<SlotHead> {
    inputs.map_values(|i: SoccerFormationLpSlotInput| i.head())
}

/// Where the player of slot `s` is led.
pub open spec fn led_to(
    heads: Seq<SlotHead>,
    motions: Seq<GuidanceMotion>,
    s: int,
) -> GuidedTarget {
    GuidedTarget { player_id: heads[s].player_id, target_y: motions[s].target.y }
}

/// Where the players of the occupied slots among the first `n` are led.
pub open spec fn led_targets(
    heads: Seq<SlotHead>,
    motions: Seq<GuidanceMotion>,
    n: int,
) -> Seq<GuidedTarget> {
    active_slots(heads, n).map_values(|s: int| led_to(heads, motions, s))
}

/// The motions with the errors of the lines; an empty slot holds no line.
pub open spec fn lined_motions<
    P: Fn(Real64, Real64) -> Real64,
    Q: Fn(Real64, Real64) -> Real64,
    C: Fn(usize) -> Real64,
>(
    plus: P,
    over: Q,
    count: C,
    heads: Seq<SlotHead>,
    motions: Seq<GuidanceMotion>,
    tolerances: LineTolerances,
) -> Seq<GuidanceMotion> {
    Seq::new(
        motions.len(),
        |s: int|
            if heads[s].active {
                GuidanceMotion {
                    role_line_error_yards: line_error(
                        plus,
                        over,
                        count,
                        heads,
                        led_targets(heads, motions, heads.len() as int),
                        tolerances.defender,
                        tolerances.midfielder,
                        led_to(heads, motions, s),
                    ),
                    ..motions[s]
                }
            } else {
                motions[s]
            },
    )
}

/// The occupied slots among the first are the first of the occupied slots.
proof fn active_slots_go_on(heads: Seq<SlotHead>, m: int, n: int)
    requires
        0 <= m <= n <= heads.len(),
    ensures
        active_slots(heads, m).len() <= active_slots(heads, n).len(),
        active_slots(heads, m) == active_slots(heads, n).take(active_slots(heads, m).len() as int),
    decreases n - m,
{
    if m < n {
        active_slots_go_on(heads, m, n - 1);
        assert(active_slots(heads, n).take(active_slots(heads, m).len() as int) =~= active_slots(
            heads,
            n - 1,
        ).take(active_slots(heads, m).len() as int));
    } else {
        assert(active_slots(heads, n).take(active_slots(heads, m).len() as int) =~= active_slots(
            heads,
            n,
        ));
    }
}

/// Lists who stands in the slots.
pub fn take_heads(inputs: &Vec<SoccerFormationLpSlotInput>) -> (heads: Vec<SlotHead>)
    ensures
        heads@ == heads_of(inputs@),
{
    let mut heads: Vec<SlotHead> = Vec::new();
    let mut s: usize = 0;
    while s < inputs.len()
        invariant
            s <= inputs@.len(),
            heads@ == heads_of(inputs@).take(s as int),
        decreases inputs@.len() - s,
    {
        let input: SoccerFormationLpSlotInput = inputs[s];
        heads.push(
            SlotHead { active: input.active, player_id: input.player_id, role: input.role },
        );
        s += 1;
        assert(heads@ =~= heads_of(inputs@).take(s as int));
    }
    assert(heads_of(inputs@).take(s as int) =~= heads_of(inputs@));
    heads
}

/// Measures the lines and notes the errors in the motions.
pub fn find_lined_motions<
    P: Fn(Real64, Real64) -> Real64,
    Q: Fn(Real64, Real64) -> Real64,
    C: Fn(usize) -> Real64,
>(
    heads: &Vec<SlotHead>,
    motions: &Vec<GuidanceMotion>,
    tolerances: &LineTolerances,
    plus: &P,
    over: &Q,
    count: &C,
) -> (r: Vec<GuidanceMotion>)
    requires
        is_operation(*plus),
        is_operation(*over),
        is_conversion(*count),
        heads@.len() == motions@.len(),
    ensures
        r@ == lined_motions(*plus, *over, *count, heads@, motions@, *tolerances),
{
    let ghost size = heads@.len() as int;
    let mut targets: Vec<GuidedTarget> = Vec::new();
    let mut s: usize = 0;
    while s < heads.len()
        invariant
            s <= heads@.len(),
            heads@.len() == motions@.len(),
            targets@ == led_targets(heads@, motions@, s as int),
        decreases heads@.len() - s,
    {
        if heads[s].active {
            targets.push(
                GuidedTarget { player_id: heads[s].player_id, target_y: motions[s].target.y },
            );
        }
        s += 1;
        assert(targets@ =~= led_targets(heads@, motions@, s as int));
    }
    let errors: Vec<Real64> = annotate_formation_lp_role_line_errors(
        &targets,
        heads,
        tolerances.defender,
        tolerances.midfielder,
        plus,
        over,
        count,
    );
    let ghost goal = lined_motions(*plus, *over, *count, heads@, motions@, *tolerances);
    let mut r: Vec<GuidanceMotion> = Vec::new();
    let mut k: usize = 0;
    let mut s: usize = 0;
    while s < heads.len()
        invariant
            s <= heads@.len(),
            size == heads@.len(),
            heads@.len() == motions@.len(),
            goal == lined_motions(*plus, *over, *count, heads@, motions@, *tolerances),
            targets@ == led_targets(heads@, motions@, size),
            errors@ == targets@.map_values(
                |g: GuidedTarget|
                    line_error(
                        *plus,
                        *over,
                        *count,
                        heads@,
                        targets@,
                        tolerances.defender,
                        tolerances.midfielder,
                        g,
                    ),
            ),
            k == active_slots(heads@, s as int).len(),
            r@ == goal.take(s as int),
        decreases heads@.len() - s,
    {
        let ghost at = s as int;
        if heads[s].active {
            proof {
                active_slots_go_on(heads@, at + 1, size);
                let all = active_slots(heads@, size);
                assert(active_slots(heads@, at + 1).last() == at);
                assert(active_slots(heads@, at + 1)[k as int] == all.take(k + 1)[k as int]);
                assert(targets@[k as int] == led_to(heads@, motions@, at));
            }
            let mut motion: GuidanceMotion = motions[s];
            motion.role_line_error_yards = errors[k];
            r.push(motion);
            assert(k < errors.len());
            k += 1;
        } else {
            r.push(motions[s]);
        }
        s += 1;
        assert(r@ =~= goal.take(s as int));
    }
    assert(goal.take(s as int) =~= goal);
    r
}

/// Where a slot is led lies on the pitch: always with a complete solution, and without one wherever
/// the arithmetic gives numbers.
pub proof fn targets_stay_on_the_pitch<
    P: Fn(Real64, Real64) -> Real64,
    M: Fn(Real64, Real64) -> Real64,
    Q: Fn(Real64, Real64) -> Real64,
    C: Fn(usize) -> Real64,
    D: Fn(Vec2, Vec2) -> Real64,
    U: Fn(Vec2) -> Vec2,
    L: Fn(Vec2, Real64) -> Vec2,
>(
    plus: P,
    times: M,
    over: Q,
    count: C,
    distance: D,
    unit: U,
    limit: L,
    frame: TickFrame,
    inputs: Seq<SoccerFormationLpSlotInput>,
    pairs: Seq<SoccerFormationLpPairVars>,
    solution: LPSolution,
    s: int,
)
    requires
        is_pitch(times, frame),
        0 <= s < SOCCER_FORMATION_LP_PLAYER_CAPACITY,
    ensures
        ({
            let target = motion_of(
                plus,
                times,
                over,
                count,
                distance,
                unit,
                limit,
                frame,
                inputs,
                pairs,
                solution,
                s,
            ).target;
            &&& complete_solution(solution) ==> !target.x.nan() && !target.y.nan()
            &&& !target.x.nan() ==> 0 <= target.x.key() <= frame.width.key()
            &&& !target.y.nan() ==> 0 <= target.y.key() <= frame.length.key()
        }),
{
    if complete_solution(solution) {
        assert(solution.x@[19 * s].finite());
        assert(solution.x@[19 * s + 1].finite());
    }
}

/// Slots without players are led nowhere: exactly the occupied ones are guided, each once, in
/// order.
pub proof fn occupied_slots_are_guided(heads: Seq<SlotHead>, n: int)
    requires
        0 <= n <= heads.len(),
    ensures
        forall|s: int|
            0 <= s < n ==> (heads[s].active <==> #[trigger] active_slots(heads, n).contains(s)),
        forall|i: int, j: int|
            0 <= i < j < active_slots(heads, n).len() ==> #[trigger] active_slots(heads, n)[i]
                < #[trigger] active_slots(heads, n)[j],
        forall|i: int|
            0 <= i < active_slots(heads, n).len() ==> 0 <= #[trigger] active_slots(heads, n)[i] < n,
    decreases n,
{
    if n > 0 {
        occupied_slots_are_guided(heads, n - 1);
        let before = active_slots(heads, n - 1);
        let now = active_slots(heads, n);
        assert forall|s: int| 0 <= s < n implies (heads[s].active
            <==> #[trigger] now.contains(s)) by {
            if s < n - 1 {
                assert(heads[s].active <==> before.contains(s));
                if before.contains(s) {
                    let i = before.index_of(s);
                    assert(now[i] == s);
                }
                if now.contains(s) {
                    let i = now.index_of(s);
                    assert(before[i] == s);
                }
            } else if heads[s].active {
                assert(now.last() == s);
            } else if now.contains(s) {
                let i = now.index_of(s);
                assert(before[i] == s);
            }
        }
    }
}

/// Without a solution a player is drawn from where the formation wants them to where they are to
/// press, by the pressing weight, kept on the pitch.
pub proof fn fallbacks_press_by_the_weight<
    P: Fn(Real64, Real64) -> Real64,
    M: Fn(Real64, Real64) -> Real64,
>(
    means: spec_fn(Real64, real) -> bool,
    plus: P,
    times: M,
    frame: TickFrame,
    input: SoccerFormationLpSlotInput,
    press: Vec2,
    ax: real,
    ay: real,
    px: real,
    py: real,
    share: real,
    w: real,
    l: real,
)
    requires
        is_faithful(means, plus, times),
        stands_at(means, belonging(times, frame, input), ax, ay),
        pressing_at(times, frame, input) == Some(press),
        stands_at(means, press, px, py),
        means(unit_value(fitted(input.pressure_weight, D0, D0, D1_4)), share),
        means(frame.width, w),
        means(frame.length, l),
    ensures
        stands_at(
            means,
            fallback_anchor(plus, times, frame, input),
            bounded(ax * (1real - share) + px * share, 0real, w),
            bounded(ay * (1real - share) + py * share, 0real, l),
        ),
{
    decimals_are_read(means);
    assert(1real + -share == 1real - share);
}

/// What is reported of a motion is what it is off: the way from where the player stands to the
/// target, its length, and how far the target is from the anchor, from the player and from the
/// place to press at. A motion without a solution goes that way in one tick, at a speed and an
/// acceleration that are limited to the player's own.
pub proof fn motions_report_what_they_are_off<
    P: Fn(Real64, Real64) -> Real64,
    M: Fn(Real64, Real64) -> Real64,
    Q: Fn(Real64, Real64) -> Real64,
    D: Fn(Vec2, Vec2) -> Real64,
    U: Fn(Vec2) -> Vec2,
    L: Fn(Vec2, Real64) -> Vec2,
>(
    plus: P,
    times: M,
    over: Q,
    distance: D,
    unit: U,
    limit: L,
    frame: TickFrame,
    input: SoccerFormationLpSlotInput,
)
    ensures
        ({
            let r = fallback_motion(plus, times, over, distance, unit, limit, frame, input);
            let own = finite_or(input.velocity, origin());
            let run = divided(over, r.recommended_move, frame.step());
            let push = divided(over, way(plus, own, r.target_velocity), frame.step());
            &&& r.recommended_move == way(plus, r.current, r.target)
            &&& r.recommended_move_yards == size_of(distance, r.recommended_move)
            &&& r.formation_error_yards == distance_of(distance, r.target, r.formation_anchor)
            &&& r.movement_error_yards == distance_of(distance, r.target, r.current)
            &&& r.pressure_target is Some ==> r.pressure_error_yards == distance_of(
                distance,
                r.target,
                r.pressure_target->0,
            )
            &&& r.pressure_target is None ==> r.pressure_error_yards == num(D0)
            &&& r.recommended_speed_yps == size_of(distance, r.target_velocity)
            &&& r.recommended_acceleration_yps2 == size_of(distance, r.target_acceleration)
            &&& r.target_velocity == limited_by(limit, run, speed_cap(distance, input))
            &&& r.target_acceleration == limited_by(limit, push, acceleration_cap(distance, input))
            &&& r.pair_error_yards == num(D0)
        }),
{
}

proof fn pair_slacks_add_up<P: Fn(Real64, Real64) -> Real64>(
    means: spec_fn(Real64, real) -> bool,
    plus: P,
    pairs: Seq<SoccerFormationLpPairVars>,
    x: Seq<Real64>,
    slot: int,
    inside: Seq<bool>,
    off: Seq<real>,
    n: int,
)
    requires
        reads_sums(means, plus),
        reads_order(means),
        reads_decimals(means),
        0 <= n <= pairs.len(),
        inside.len() == pairs.len(),
        off.len() == pairs.len(),
        forall|p: int| 0 <= p < pairs.len() ==> inside[p] == takes_in(#[trigger] pairs[p], slot),
        forall|p: int|
            0 <= p < pairs.len() ==> if takes_in(#[trigger] pairs[p], slot) {
                exists|a: real, b: real|
                    #![trigger
                        means(x[pairs[p].separation_slack_x as int], a),
                        means(x[pairs[p].separation_slack_y as int], b)
                    ]
                    means(x[pairs[p].separation_slack_x as int], a) && means(
                        x[pairs[p].separation_slack_y as int],
                        b,
                    ) && off[p] == size(a) + size(b)
            } else {
                off[p] == 0real
            },
    ensures
        means(pair_errors(plus, pairs, x, slot, n).0, real_sum(off, n)),
        pair_errors(plus, pairs, x, slot, n).1 == set_flags(inside, n),
        0 <= set_flags(inside, n) <= n,
    decreases n,
{
    decimals_are_read(means);
    if n > 0 {
        pair_slacks_add_up(means, plus, pairs, x, slot, inside, off, n - 1);
        let last = pairs[n - 1];
    }
}

/// The pair error of a player is the mean, over the pairs that the player is in, of the sizes of
/// the slacks on both axes; the other pairs do not count.
pub proof fn pair_errors_are_mean_slacks<
    P: Fn(Real64, Real64) -> Real64,
    Q: Fn(Real64, Real64) -> Real64,
    C: Fn(usize) -> Real64,
>(
    means: spec_fn(Real64, real) -> bool,
    plus: P,
    over: Q,
    count: C,
    pairs: Seq<SoccerFormationLpPairVars>,
    x: Seq<Real64>,
    slot: int,
    inside: Seq<bool>,
    off: Seq<real>,
)
    requires
        reads_sums(means, plus),
        reads_quotients(means, over),
        reads_counts(means, count),
        reads_order(means),
        reads_decimals(means),
        pairs.len() <= usize::MAX,
        inside.len() == pairs.len(),
        off.len() == pairs.len(),
        forall|p: int| 0 <= p < pairs.len() ==> inside[p] == takes_in(#[trigger] pairs[p], slot),
        forall|p: int|
            0 <= p < pairs.len() ==> if takes_in(#[trigger] pairs[p], slot) {
                exists|a: real, b: real|
                    #![trigger
                        means(x[pairs[p].separation_slack_x as int], a),
                        means(x[pairs[p].separation_slack_y as int], b)
                    ]
                    means(x[pairs[p].separation_slack_x as int], a) && means(
                        x[pairs[p].separation_slack_y as int],
                        b,
                    ) && off[p] == size(a) + size(b)
            } else {
                off[p] == 0real
            },
    ensures
        ({
            let n = pairs.len() as int;
            let counted = set_flags(inside, n);
            counted > 0 ==> means(
                pair_error_mean(plus, over, count, pairs, x, slot),
                real_sum(off, n) / (counted as real),
            )
        }),
{
    let n = pairs.len() as int;
    pair_slacks_add_up(means, plus, pairs, x, slot, inside, off, n);
    let counted = set_flags(inside, n);
    if counted > 0 {
        assert(means(number_of(count, counted as usize), counted as real));
    }
}

} // verus!
