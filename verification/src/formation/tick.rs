//! What a tick writes into the formation program, worked out from the slots and the weights.
use crate::decimals::{
    D0, D0_006, D0_008, D0_01, D0_012, D0_05, D0_06, D0_1, D0_12, D0_15, D0_16, D0_18, D0_22, D0_24,
    D0_26, D0_28, D0_3, D0_42, D0_45, D0_5, D0_62, D0_75, D0_76, D0_82, D1, D1EM06, D1_35, D1_4,
    D20, D30,
};
use crate::formation::anchor::{reach_of, soccer_formation_lp_reach_yards, ReachMeasures};
use crate::formation::brain::{
    motion_limit, slot_objective, soccer_lp_clamped, PairTick, SlotTick, TickInputs,
};
use crate::formation::guidance::{SlotHead, SoccerFormationLpObjectiveWeights};
use crate::formation::inputs::is_pitch;
use crate::formation::layout::{
    pairs_laid_out, zero, SoccerFormationLpPairVars, PAIR_COUNT,
    SOCCER_FORMATION_LP_PLAYER_CAPACITY, STATE_COUNT,
};
use crate::formation::objective::{weigh, weighed, weighing_adds_the_terms, weighted_sum};
use crate::formation::state::{soccer_lp_unit, unit_value};
use crate::geometry::{
    find_middle, find_way, finite_or, is_distance, measure_size, middle, origin, place_or, size_of,
    take_finite, take_place, way,
};
use crate::meaning::{
    bounded, decimals_are_read, is_faithful, reads_decimals, reads_order, reads_signs, reads_sums,
    stands_at,
};
use crate::number::{
    apply, at_bits, clamp_to, clamped_to, is_operation, larger, larger_of, num, outcome, Real64,
};
use crate::pitch::{PlayerRole, Vec2};
use crate::tunables::fitted;
use vstd::prelude::*;

verus! {

/// What a slot of the program is told of its player.
#[derive(Clone, Copy, Debug, PartialEq, Eq, Structural)]
pub struct SoccerFormationLpSlotInput {
    pub active: bool,
    pub player_id: usize,
    pub role: PlayerRole,
    pub current: Vec2,
    pub velocity: Vec2,
    pub acceleration: Vec2,
    pub home_position: Vec2,
    pub top_speed: Real64,
    pub max_acceleration: Real64,
    pub fatigue: Real64,
    pub anchor: Vec2,
    pub pressure_target: Option<Vec2>,
    pub speed_match_velocity_yps: Real64,
    pub pressure_weight: Real64,
    pub speed_match_weight: Real64,
    pub pair_weight: Real64,
    pub alignment_weight: Real64,
}

impl SoccerFormationLpSlotInput {
    /// Who stands in the slot.
    pub open spec fn head(self) -> SlotHead {
        SlotHead { active: self.active, player_id: self.player_id, role: self.role }
    }
}

/// The pitch, the tick length and the direction of attack.
#[derive(Clone, Copy, Debug, PartialEq, Eq, Structural)]
pub struct TickFrame {
    pub width: Real64,
    pub length: Real64,
    pub dt_seconds: Real64,
    pub attack_dir: Real64,
}

impl TickFrame {
    /// The tick length, never zero.
    pub open spec fn step(self) -> Real64 {
        larger(self.dt_seconds, num(D1EM06))
    }

    pub fn step_seconds(&self) -> (r: Real64)
        ensures
            r == self.step(),
    {
        larger_of(self.dt_seconds, at_bits(D1EM06))
    }
}

/// Where the player of a slot stands.
pub open spec fn standing<M: Fn(Real64, Real64) -> Real64>(
    times: M,
    frame: TickFrame,
    input: SoccerFormationLpSlotInput,
) -> Vec2 {
    place_or(input.current, frame.width, frame.length, middle(times, frame.width, frame.length))
}

/// Where the player of a slot belongs.
pub open spec fn belonging<M: Fn(Real64, Real64) -> Real64>(
    times: M,
    frame: TickFrame,
    input: SoccerFormationLpSlotInput,
) -> Vec2 {
    place_or(input.anchor, frame.width, frame.length, standing(times, frame, input))
}

/// Where the player of a slot presses, nowhere without a pressing task.
pub open spec fn pressing_at<M: Fn(Real64, Real64) -> Real64>(
    times: M,
    frame: TickFrame,
    input: SoccerFormationLpSlotInput,
) -> Option<Vec2> {
    match input.pressure_target {
        Some(target) => Some(
            place_or(target, frame.width, frame.length, belonging(times, frame, input)),
        ),
        None => None,
    }
}

/// The places of a slot: where its player stands, belongs and presses.
pub fn find_places<M: Fn(Real64, Real64) -> Real64>(
    frame: &TickFrame,
    input: &SoccerFormationLpSlotInput,
    times: &M,
) -> (r: (Vec2, Vec2, Option<Vec2>))
    requires
        is_operation(*times),
    ensures
        r.0 == standing(*times, *frame, *input),
        r.1 == belonging(*times, *frame, *input),
        r.2 == pressing_at(*times, *frame, *input),
{
    let center: Vec2 = find_middle(frame.width, frame.length, times);
    let current: Vec2 = take_place(input.current, frame.width, frame.length, center);
    let anchor: Vec2 = take_place(input.anchor, frame.width, frame.length, current);
    let pressure: Option<Vec2> = match input.pressure_target {
        Some(target) => Some(take_place(target, frame.width, frame.length, anchor)),
        None => None,
    };
    (current, anchor, pressure)
}

/// The greatest speed of a slot's player: what the player is capable of, or the present speed.
pub open spec fn speed_cap<D: Fn(Vec2, Vec2) -> Real64>(
    distance: D,
    input: SoccerFormationLpSlotInput,
) -> Real64 {
    larger(
        larger(
            fitted(input.top_speed, D0, D0, D20),
            size_of(distance, finite_or(input.velocity, origin())),
        ),
        num(D0),
    )
}

/// The greatest acceleration of a slot's player.
pub open spec fn acceleration_cap<D: Fn(Vec2, Vec2) -> Real64>(
    distance: D,
    input: SoccerFormationLpSlotInput,
) -> Real64 {
    larger(
        larger(
            fitted(input.max_acceleration, D0, D0, D30),
            size_of(distance, finite_or(input.acceleration, origin())),
        ),
        num(D0),
    )
}

/// Works out the greatest speed and acceleration of a slot's player.
pub fn find_caps<D: Fn(Vec2, Vec2) -> Real64>(
    input: &SoccerFormationLpSlotInput,
    distance: &D,
) -> (r: (Real64, Real64))
    requires
        is_distance(*distance),
    ensures
        r.0 == speed_cap(*distance, *input),
        r.1 == acceleration_cap(*distance, *input),
{
    let zero_vector: Vec2 = Vec2 { x: at_bits(D0), y: at_bits(D0) };
    let speed: Real64 = measure_size(distance, take_finite(input.velocity, zero_vector));
    let push: Real64 = measure_size(distance, take_finite(input.acceleration, zero_vector));
    let top: Real64 = soccer_lp_clamped(input.top_speed, D0, D20, D0);
    let most: Real64 = soccer_lp_clamped(input.max_acceleration, D0, D30, D0);
    (
        larger_of(larger_of(top, speed), at_bits(D0)),
        larger_of(larger_of(most, push), at_bits(D0)),
    )
}

/// What decides how far a slot's player reaches.
pub open spec fn reach_measures<D: Fn(Vec2, Vec2) -> Real64>(
    distance: D,
    input: SoccerFormationLpSlotInput,
    dt: Real64,
) -> ReachMeasures {
    ReachMeasures {
        top_speed: input.top_speed,
        speed: size_of(distance, finite_or(input.velocity, origin())),
        max_acceleration: input.max_acceleration,
        acceleration: size_of(distance, finite_or(input.acceleration, origin())),
        fatigue: input.fatigue,
        dt_seconds: dt,
    }
}

/// How far a slot's player reaches within a tick.
pub fn find_reach<
    P: Fn(Real64, Real64) -> Real64,
    M: Fn(Real64, Real64) -> Real64,
    D: Fn(Vec2, Vec2) -> Real64,
>(
    input: &SoccerFormationLpSlotInput,
    dt: Real64,
    plus: &P,
    times: &M,
    distance: &D,
) -> (r: Real64)
    requires
        is_operation(*plus),
        is_operation(*times),
        is_distance(*distance),
    ensures
        r == reach_of(*plus, *times, reach_measures(*distance, *input, dt)),
{
    let zero_vector: Vec2 = Vec2 { x: at_bits(D0), y: at_bits(D0) };
    let m: ReachMeasures = ReachMeasures {
        top_speed: input.top_speed,
        speed: measure_size(distance, take_finite(input.velocity, zero_vector)),
        max_acceleration: input.max_acceleration,
        acceleration: measure_size(distance, take_finite(input.acceleration, zero_vector)),
        fatigue: input.fatigue,
        dt_seconds: dt,
    };
    soccer_formation_lp_reach_yards(&m, plus, times)
}

/// How much a role takes part in the attack.
pub open spec fn role_attack(role: PlayerRole) -> u64 {
    match role {
        PlayerRole::Goalkeeper => D0_05,
        PlayerRole::Defender => D0_3,
        PlayerRole::Midfielder => D0_82,
        PlayerRole::Forward => D1,
    }
}

/// How much a role covers at the back.
pub open spec fn role_rest_defense(role: PlayerRole) -> u64 {
    match role {
        PlayerRole::Goalkeeper => D0_76,
        PlayerRole::Defender => D1,
        PlayerRole::Midfielder => D0_62,
        PlayerRole::Forward => D0_24,
    }
}

fn parts_of_role(role: PlayerRole) -> (r: (Real64, Real64))
    ensures
        r.0 == num(role_attack(role)),
        r.1 == num(role_rest_defense(role)),
{
    match role {
        PlayerRole::Goalkeeper => (at_bits(D0_05), at_bits(D0_76)),
        PlayerRole::Defender => (at_bits(D0_3), at_bits(D1)),
        PlayerRole::Midfielder => (at_bits(D0_82), at_bits(D0_62)),
        PlayerRole::Forward => (at_bits(D1), at_bits(D0_24)),
    }
}

/// What it costs to stand off the anchor.
pub open spec fn anchor_weight<P: Fn(Real64, Real64) -> Real64, M: Fn(Real64, Real64) -> Real64>(
    plus: P,
    times: M,
    w: SoccerFormationLpObjectiveWeights,
    role: PlayerRole,
) -> Real64 {
    let terms = seq![
        (unit_value(w.space_occupation), D0_3),
        (unit_value(w.passing_lane_quality), D0_18),
        (
            outcome(times, unit_value(w.defensive_compactness), num(role_rest_defense(role))),
            D0_26,
        ),
        (outcome(times, unit_value(w.progression), num(role_attack(role))), D0_12),
    ];
    weighed(plus, times, num(D0_42), terms, 4)
}

/// What it costs to move.
pub open spec fn movement_weight<P: Fn(Real64, Real64) -> Real64, M: Fn(Real64, Real64) -> Real64>(
    plus: P,
    times: M,
    fatigue: Real64,
    input_fatigue: Real64,
) -> Real64 {
    outcome(
        plus,
        num(D0_18),
        outcome(
            times,
            fatigue,
            outcome(plus, num(D0_45), outcome(times, input_fatigue, num(D0_75))),
        ),
    )
}

/// What it costs to accelerate.
pub open spec fn acceleration_weight<
    P: Fn(Real64, Real64) -> Real64,
    M: Fn(Real64, Real64) -> Real64,
>(plus: P, times: M, fatigue: Real64, input_fatigue: Real64) -> Real64 {
    weighed(plus, times, num(D0_06), seq![(fatigue, D0_18), (input_fatigue, D0_16)], 2)
}

/// What it costs to break the laws of motion.
pub open spec fn dynamics_weight<P: Fn(Real64, Real64) -> Real64, M: Fn(Real64, Real64) -> Real64>(
    plus: P,
    times: M,
    w: SoccerFormationLpObjectiveWeights,
    role: PlayerRole,
) -> Real64 {
    let terms = seq![
        (unit_value(w.retention), D0_28),
        (
            outcome(times, unit_value(w.defensive_compactness), num(role_rest_defense(role))),
            D0_22,
        ),
    ];
    weighed(plus, times, num(D1_35), terms, 2)
}

/// What draws a player up the pitch: goals in sight and progress, less what is risked behind.
pub open spec fn forward_pull<P: Fn(Real64, Real64) -> Real64, M: Fn(Real64, Real64) -> Real64>(
    plus: P,
    times: M,
    w: SoccerFormationLpObjectiveWeights,
    role: PlayerRole,
) -> Real64 {
    let attack = num(role_attack(role));
    let rest = num(role_rest_defense(role));
    let gain = weighed(
        plus,
        times,
        outcome(times, unit_value(w.expected_goal), num(D0_01)),
        seq![
            (outcome(times, unit_value(w.progression), attack), D0_012),
            (outcome(times, unit_value(w.adversarial_embedding_attack), attack), D0_008),
            (outcome(times, unit_value(w.neural_attack), attack), D0_008),
        ],
        3,
    );
    less(
        plus,
        times,
        less(
            plus,
            times,
            less(plus, times, gain, outcome(times, unit_value(w.transition_risk), rest)),
            outcome(times, unit_value(w.adversarial_embedding_defense), rest),
        ),
        outcome(times, unit_value(w.neural_defense), rest),
    )
}

/// A pull less a little of a risk.
pub open spec fn less<P: Fn(Real64, Real64) -> Real64, M: Fn(Real64, Real64) -> Real64>(
    plus: P,
    times: M,
    pull: Real64,
    risk: Real64,
) -> Real64 {
    outcome(plus, pull, outcome(times, risk, num(D0_006)).negated())
}

fn lessen<P: Fn(Real64, Real64) -> Real64, M: Fn(Real64, Real64) -> Real64>(
    pull: Real64,
    risk: Real64,
    plus: &P,
    times: &M,
) -> (r: Real64)
    requires
        is_operation(*plus),
        is_operation(*times),
    ensures
        r == less(*plus, *times, pull, risk),
{
    apply(plus, pull, apply(times, risk, at_bits(D0_006)).negate())
}

fn find_forward_pull<P: Fn(Real64, Real64) -> Real64, M: Fn(Real64, Real64) -> Real64>(
    w: &SoccerFormationLpObjectiveWeights,
    role: PlayerRole,
    plus: &P,
    times: &M,
) -> (r: Real64)
    requires
        is_operation(*plus),
        is_operation(*times),
    ensures
        r == forward_pull(*plus, *times, *w, role),
{
    let (attack, rest): (Real64, Real64) = parts_of_role(role);
    let terms: Vec<(Real64, u64)> = vec![
        (apply(times, soccer_lp_unit(w.progression), attack), D0_012),
        (apply(times, soccer_lp_unit(w.adversarial_embedding_attack), attack), D0_008),
        (apply(times, soccer_lp_unit(w.neural_attack), attack), D0_008),
    ];
    let first: Real64 = apply(times, soccer_lp_unit(w.expected_goal), at_bits(D0_01));
    assert(terms@ =~= seq![
        (outcome(*times, unit_value(w.progression), attack), D0_012),
        (outcome(*times, unit_value(w.adversarial_embedding_attack), attack), D0_008),
        (outcome(*times, unit_value(w.neural_attack), attack), D0_008),
    ]);
    let gain: Real64 = weigh(first, terms, plus, times);
    let transition: Real64 = apply(times, soccer_lp_unit(w.transition_risk), rest);
    let embedding: Real64 = apply(times, soccer_lp_unit(w.adversarial_embedding_defense), rest);
    let neural: Real64 = apply(times, soccer_lp_unit(w.neural_defense), rest);
    let g1: Real64 = lessen(gain, transition, plus, times);
    let g2: Real64 = lessen(g1, embedding, plus, times);
    lessen(g2, neural, plus, times)
}

/// A cost as it enters the objective.
pub open spec fn charged<P: Fn(Real64, Real64) -> Real64>(plus: P, weight: Real64) -> Real64 {
    outcome(plus, num(D0), weight.negated())
}

fn charge<P: Fn(Real64, Real64) -> Real64>(weight: Real64, plus: &P) -> (r: Real64)
    requires
        is_operation(*plus),
    ensures
        r == charged(*plus, weight),
{
    apply(plus, at_bits(D0), weight.negate())
}

/// What a tick says of a slot.
pub open spec fn slot_tick<
    P: Fn(Real64, Real64) -> Real64,
    M: Fn(Real64, Real64) -> Real64,
    D: Fn(Vec2, Vec2) -> Real64,
>(
    plus: P,
    times: M,
    distance: D,
    frame: TickFrame,
    w: SoccerFormationLpObjectiveWeights,
    input: SoccerFormationLpSlotInput,
) -> SlotTick {
    let dt = frame.step();
    let current = standing(times, frame, input);
    let anchor = belonging(times, frame, input);
    let reach = reach_of(plus, times, reach_measures(distance, input, dt));
    let fatigue = unit_value(w.fatigue);
    let tired = unit_value(input.fatigue);
    SlotTick {
        active: input.active,
        max_speed: speed_cap(distance, input),
        max_acceleration: acceleration_cap(distance, input),
        anchor,
        current,
        reach_upper: Vec2 {
            x: outcome(plus, current.x, reach),
            y: outcome(plus, current.y, reach),
        },
        reach_lower: Vec2 {
            x: outcome(plus, reach, current.x.negated()),
            y: outcome(plus, reach, current.y.negated()),
        },
        pressure: match pressing_at(times, frame, input) {
            Some(target) => target,
            None => anchor,
        },
        speed_match_y: clamped_to(
            outcome(
                plus,
                current.y,
                outcome(times, input.speed_match_velocity_yps.finite_or_zero_value(), dt),
            ),
            num(D0),
            frame.length,
        ),
        velocity: finite_or(input.velocity, origin()),
        anchor_entry: charged(plus, anchor_weight(plus, times, w, input.role)),
        movement_entry: charged(plus, movement_weight(plus, times, fatigue, tired)),
        pressure_entry: charged(plus, fitted(input.pressure_weight, D0, D0, D1_4)),
        speed_entry: charged(plus, unit_value(input.speed_match_weight)),
        acceleration_entry: charged(plus, acceleration_weight(plus, times, fatigue, tired)),
        dynamics_entry: charged(plus, dynamics_weight(plus, times, w, input.role)),
        forward_entry: outcome(
            plus,
            num(D0),
            outcome(times, frame.attack_dir, forward_pull(plus, times, w, input.role)),
        ),
    }
}

/// The costs of a slot that its weights decide: standing off, moving, accelerating, breaking the
/// laws of motion.
fn find_costs<P: Fn(Real64, Real64) -> Real64, M: Fn(Real64, Real64) -> Real64>(
    w: &SoccerFormationLpObjectiveWeights,
    input: &SoccerFormationLpSlotInput,
    plus: &P,
    times: &M,
) -> (r: (Real64, Real64, Real64, Real64))
    requires
        is_operation(*plus),
        is_operation(*times),
    ensures
        r.0 == anchor_weight(*plus, *times, *w, input.role),
        r.1 == movement_weight(*plus, *times, unit_value(w.fatigue), unit_value(input.fatigue)),
        r.2 == acceleration_weight(*plus, *times, unit_value(w.fatigue), unit_value(input.fatigue)),
        r.3 == dynamics_weight(*plus, *times, *w, input.role),
{
    let (attack, rest): (Real64, Real64) = parts_of_role(input.role);
    let compact: Real64 = apply(times, soccer_lp_unit(w.defensive_compactness), rest);
    let onward: Real64 = apply(times, soccer_lp_unit(w.progression), attack);
    let fatigue: Real64 = soccer_lp_unit(w.fatigue);
    let tired: Real64 = soccer_lp_unit(input.fatigue);
    let standing_off: Vec<(Real64, u64)> = vec![
        (soccer_lp_unit(w.space_occupation), D0_3),
        (soccer_lp_unit(w.passing_lane_quality), D0_18),
        (compact, D0_26),
        (onward, D0_12),
    ];
    assert(standing_off@ =~= seq![
        (unit_value(w.space_occupation), D0_3),
        (unit_value(w.passing_lane_quality), D0_18),
        (compact, D0_26),
        (onward, D0_12),
    ]);
    let off: Real64 = weigh(at_bits(D0_42), standing_off, plus, times);
    let more: Real64 = apply(plus, at_bits(D0_45), apply(times, tired, at_bits(D0_75)));
    let moving: Real64 = apply(plus, at_bits(D0_18), apply(times, fatigue, more));
    let speeding: Vec<(Real64, u64)> = vec![(fatigue, D0_18), (tired, D0_16)];
    assert(speeding@ =~= seq![(fatigue, D0_18), (tired, D0_16)]);
    let push: Real64 = weigh(at_bits(D0_06), speeding, plus, times);
    let breaking: Vec<(Real64, u64)> = vec![(soccer_lp_unit(w.retention), D0_28), (compact, D0_22)];
    assert(breaking@ =~= seq![(unit_value(w.retention), D0_28), (compact, D0_22)]);
    let dynamics: Real64 = weigh(at_bits(D1_35), breaking, plus, times);
    (off, moving, push, dynamics)
}

/// Works out what a tick says of a slot.
pub fn find_slot_tick<
    P: Fn(Real64, Real64) -> Real64,
    M: Fn(Real64, Real64) -> Real64,
    D: Fn(Vec2, Vec2) -> Real64,
>(
    frame: &TickFrame,
    w: &SoccerFormationLpObjectiveWeights,
    input: &SoccerFormationLpSlotInput,
    plus: &P,
    times: &M,
    distance: &D,
) -> (r: SlotTick)
    requires
        is_operation(*plus),
        is_operation(*times),
        is_distance(*distance),
    ensures
        r == slot_tick(*plus, *times, *distance, *frame, *w, *input),
{
    let dt: Real64 = frame.step_seconds();
    let (current, anchor, pressure): (Vec2, Vec2, Option<Vec2>) = find_places(frame, input, times);
    let (max_speed, max_acceleration): (Real64, Real64) = find_caps(input, distance);
    let reach: Real64 = find_reach(input, dt, plus, times, distance);
    let matched: Real64 = apply(times, input.speed_match_velocity_yps.finite_or_zero(), dt);
    let (off, moving, push, dynamics): (Real64, Real64, Real64, Real64) = find_costs(
        w,
        input,
        plus,
        times,
    );
    let forward: Real64 = find_forward_pull(w, input.role, plus, times);
    SlotTick {
        active: input.active,
        max_speed,
        max_acceleration,
        anchor,
        current,
        reach_upper: Vec2 { x: apply(plus, current.x, reach), y: apply(plus, current.y, reach) },
        reach_lower: Vec2 {
            x: apply(plus, reach, current.x.negate()),
            y: apply(plus, reach, current.y.negate()),
        },
        pressure: match pressure {
            Some(target) => target,
            None => anchor,
        },
        speed_match_y: clamp_to(apply(plus, current.y, matched), at_bits(D0), frame.length),
        velocity: take_finite(input.velocity, Vec2 { x: at_bits(D0), y: at_bits(D0) }),
        anchor_entry: charge(off, plus),
        movement_entry: charge(moving, plus),
        pressure_entry: charge(soccer_lp_clamped(input.pressure_weight, D0, D1_4, D0), plus),
        speed_entry: charge(soccer_lp_unit(input.speed_match_weight), plus),
        acceleration_entry: charge(push, plus),
        dynamics_entry: charge(dynamics, plus),
        forward_entry: apply(plus, at_bits(D0), apply(times, frame.attack_dir, forward)),
    }
}

/// What it costs a line to fall out of line, by role.
#[derive(Clone, Copy, Debug, PartialEq, Eq, Structural)]
pub struct LineWeights {
    pub defender: Real64,
    pub midfielder: Real64,
}

/// What it costs two players of one line to lose their spacing, and their line.
pub open spec fn line_costs(a: PlayerRole, b: PlayerRole, lines: LineWeights) -> (Real64, Real64) {
    if a == PlayerRole::Defender && b == PlayerRole::Defender {
        (num(D0_18), lines.defender)
    } else if a == PlayerRole::Midfielder && b == PlayerRole::Midfielder {
        (num(D0_1), lines.midfielder)
    } else {
        (num(D0), num(D0))
    }
}

/// What a tick says of a pair of slots, loosened by a relief.
pub open spec fn pair_tick<P: Fn(Real64, Real64) -> Real64, M: Fn(Real64, Real64) -> Real64>(
    plus: P,
    times: M,
    frame: TickFrame,
    a: SoccerFormationLpSlotInput,
    b: SoccerFormationLpSlotInput,
    relief: Real64,
    lines: LineWeights,
) -> PairTick {
    let center = middle(times, frame.width, frame.length);
    let (spacing, line) = line_costs(a.role, b.role, lines);
    let kept = clamped_to(outcome(plus, num(D1), relief.negated()), num(D0_15), num(D1));
    let base = unit_value(
        outcome(times, outcome(plus, a.pair_weight, b.pair_weight), num(D0_5)),
    );
    let apart = outcome(plus, base, outcome(times, spacing, kept));
    PairTick {
        separation: way(
            plus,
            place_or(b.anchor, frame.width, frame.length, center),
            place_or(a.anchor, frame.width, frame.length, center),
        ),
        entry: Vec2 {
            x: charged(plus, unit_value(apart)),
            y: charged(plus, unit_value(outcome(plus, apart, outcome(times, line, kept)))),
        },
    }
}

/// Works out what a tick says of a pair of slots.
pub fn find_pair_tick<P: Fn(Real64, Real64) -> Real64, M: Fn(Real64, Real64) -> Real64>(
    frame: &TickFrame,
    a: &SoccerFormationLpSlotInput,
    b: &SoccerFormationLpSlotInput,
    relief: Real64,
    lines: &LineWeights,
    plus: &P,
    times: &M,
) -> (r: PairTick)
    requires
        is_operation(*plus),
        is_operation(*times),
    ensures
        r == pair_tick(*plus, *times, *frame, *a, *b, relief, *lines),
{
    let center: Vec2 = find_middle(frame.width, frame.length, times);
    let (spacing, line): (Real64, Real64) = if a.role == PlayerRole::Defender && b.role
        == PlayerRole::Defender {
        (at_bits(D0_18), lines.defender)
    } else if a.role == PlayerRole::Midfielder && b.role == PlayerRole::Midfielder {
        (at_bits(D0_1), lines.midfielder)
    } else {
        (at_bits(D0), at_bits(D0))
    };
    let kept: Real64 = clamp_to(
        apply(plus, at_bits(D1), relief.negate()),
        at_bits(D0_15),
        at_bits(D1),
    );
    let shared: Real64 = apply(plus, a.pair_weight, b.pair_weight);
    let base: Real64 = soccer_lp_unit(apply(times, shared, at_bits(D0_5)));
    let apart: Real64 = apply(plus, base, apply(times, spacing, kept));
    let in_line: Real64 = apply(plus, apart, apply(times, line, kept));
    PairTick {
        separation: find_way(
            take_place(b.anchor, frame.width, frame.length, center),
            take_place(a.anchor, frame.width, frame.length, center),
            plus,
        ),
        entry: Vec2 {
            x: charge(soccer_lp_unit(apart), plus),
            y: charge(soccer_lp_unit(in_line), plus),
        },
    }
}

/// The tick says of every slot and pair what follows from the slots' inputs.
pub open spec fn is_tick<
    P: Fn(Real64, Real64) -> Real64,
    M: Fn(Real64, Real64) -> Real64,
    D: Fn(Vec2, Vec2) -> Real64,
>(
    plus: P,
    times: M,
    distance: D,
    frame: TickFrame,
    w: SoccerFormationLpObjectiveWeights,
    inputs: Seq<SoccerFormationLpSlotInput>,
    pairs: Seq<SoccerFormationLpPairVars>,
    reliefs: Seq<Real64>,
    lines: LineWeights,
    tick: TickInputs,
) -> bool {
    &&& tick.well_formed()
    &&& tick.width == frame.width
    &&& tick.length == frame.length
    &&& tick.dt == frame.step()
    &&& forall|s: int|
        0 <= s < SOCCER_FORMATION_LP_PLAYER_CAPACITY ==> #[trigger] tick.slots@[s] == slot_tick(
            plus,
            times,
            distance,
            frame,
            w,
            inputs[s],
        )
    &&& forall|p: int|
        0 <= p < PAIR_COUNT ==> #[trigger] tick.pairs@[p] == pair_tick(
            plus,
            times,
            frame,
            inputs[pairs[p].a as int],
            inputs[pairs[p].b as int],
            reliefs[p],
            lines,
        )
}

/// Works out what a tick says of the whole program.
pub fn find_tick<
    P: Fn(Real64, Real64) -> Real64,
    M: Fn(Real64, Real64) -> Real64,
    D: Fn(Vec2, Vec2) -> Real64,
>(
    frame: &TickFrame,
    w: &SoccerFormationLpObjectiveWeights,
    inputs: &Vec<SoccerFormationLpSlotInput>,
    pairs: &Vec<SoccerFormationLpPairVars>,
    reliefs: &Vec<Real64>,
    lines: &LineWeights,
    state_values: Vec<Real64>,
    plus: &P,
    times: &M,
    distance: &D,
) -> (tick: TickInputs)
    requires
        is_operation(*plus),
        is_operation(*times),
        is_distance(*distance),
        inputs@.len() == SOCCER_FORMATION_LP_PLAYER_CAPACITY,
        pairs_laid_out(pairs@),
        reliefs@.len() == PAIR_COUNT,
        state_values@.len() == STATE_COUNT,
    ensures
        is_tick(
            *plus,
            *times,
            *distance,
            *frame,
            *w,
            inputs@,
            pairs@,
            reliefs@,
            *lines,
            tick,
        ),
        tick.state_values@ == state_values@,
{
    let mut slots: Vec<SlotTick> = Vec::new();
    let mut s: usize = 0;
    while s < SOCCER_FORMATION_LP_PLAYER_CAPACITY
        invariant
            s <= SOCCER_FORMATION_LP_PLAYER_CAPACITY,
            inputs@.len() == SOCCER_FORMATION_LP_PLAYER_CAPACITY,
            is_operation(*plus),
            is_operation(*times),
            is_distance(*distance),
            slots@.len() == s,
            forall|t: int|
                0 <= t < s ==> #[trigger] slots@[t] == slot_tick(
                    *plus,
                    *times,
                    *distance,
                    *frame,
                    *w,
                    inputs@[t],
                ),
        decreases SOCCER_FORMATION_LP_PLAYER_CAPACITY - s,
    {
        slots.push(find_slot_tick(frame, w, &inputs[s], plus, times, distance));
        s += 1;
    }
    let mut ticks: Vec<PairTick> = Vec::new();
    let mut p: usize = 0;
    while p < PAIR_COUNT
        invariant
            p <= PAIR_COUNT,
            inputs@.len() == SOCCER_FORMATION_LP_PLAYER_CAPACITY,
            pairs_laid_out(pairs@),
            reliefs@.len() == PAIR_COUNT,
            is_operation(*plus),
            is_operation(*times),
            ticks@.len() == p,
            forall|q: int|
                0 <= q < p ==> #[trigger] ticks@[q] == pair_tick(
                    *plus,
                    *times,
                    *frame,
                    inputs@[pairs@[q].a as int],
                    inputs@[pairs@[q].b as int],
                    reliefs@[q],
                    *lines,
                ),
        decreases PAIR_COUNT - p,
    {
        let pair: SoccerFormationLpPairVars = pairs[p];
        ticks.push(
            find_pair_tick(
                frame,
                &inputs[pair.a],
                &inputs[pair.b],
                reliefs[p],
                lines,
                plus,
                times,
            ),
        );
        p += 1;
    }
    TickInputs {
        width: frame.width,
        length: frame.length,
        dt: frame.step_seconds(),
        slots,
        pairs: ticks,
        state_values,
    }
}

/// An empty slot costs nothing and does not move, whatever it is told.
pub proof fn empty_slots_are_still<
    P: Fn(Real64, Real64) -> Real64,
    M: Fn(Real64, Real64) -> Real64,
    D: Fn(Vec2, Vec2) -> Real64,
>(
    plus: P,
    times: M,
    distance: D,
    frame: TickFrame,
    w: SoccerFormationLpObjectiveWeights,
    input: SoccerFormationLpSlotInput,
    j: int,
)
    requires
        !input.active,
    ensures
        ({
            let s = slot_tick(plus, times, distance, frame, w, input);
            slot_objective(s, j) == zero() && motion_limit(s, j) == zero()
        }),
{
}

/// What a player stands, belongs and presses at lies on the pitch.
pub proof fn slots_stay_on_the_pitch<
    P: Fn(Real64, Real64) -> Real64,
    M: Fn(Real64, Real64) -> Real64,
    D: Fn(Vec2, Vec2) -> Real64,
>(
    plus: P,
    times: M,
    distance: D,
    frame: TickFrame,
    w: SoccerFormationLpObjectiveWeights,
    input: SoccerFormationLpSlotInput,
)
    requires
        is_pitch(times, frame),
    ensures
        ({
            let s = slot_tick(plus, times, distance, frame, w, input);
            &&& 0 <= s.current.x.key() <= frame.width.key()
            &&& 0 <= s.current.y.key() <= frame.length.key()
            &&& 0 <= s.anchor.x.key() <= frame.width.key()
            &&& 0 <= s.anchor.y.key() <= frame.length.key()
            &&& 0 <= s.pressure.x.key() <= frame.width.key()
            &&& 0 <= s.pressure.y.key() <= frame.length.key()
        }),
{
}

/// What being off the anchor, moving and breaking the dynamics cost a player: by the objectives, by
/// how tired team and player are, and by how much the role attacks and covers.
pub proof fn weights_charge_by_role<
    P: Fn(Real64, Real64) -> Real64,
    M: Fn(Real64, Real64) -> Real64,
>(
    means: spec_fn(Real64, real) -> bool,
    plus: P,
    times: M,
    w: SoccerFormationLpObjectiveWeights,
    role: PlayerRole,
    fatigue: Real64,
    tired: Real64,
    space: real,
    lanes: real,
    compact: real,
    progress: real,
    keep: real,
    f: real,
    t: real,
)
    requires
        is_faithful(means, plus, times),
        w.space_occupation.finite() && means(w.space_occupation, space),
        w.passing_lane_quality.finite() && means(w.passing_lane_quality, lanes),
        w.defensive_compactness.finite() && means(w.defensive_compactness, compact),
        w.progression.finite() && means(w.progression, progress),
        w.retention.finite() && means(w.retention, keep),
        means(fatigue, f),
        means(tired, t),
    ensures
        ({
            let attack = match role {
                PlayerRole::Goalkeeper => (1real / 20real),
                PlayerRole::Defender => (3real / 10real),
                PlayerRole::Midfielder => (41real / 50real),
                PlayerRole::Forward => 1real,
            };
            let rest = match role {
                PlayerRole::Goalkeeper => (19real / 25real),
                PlayerRole::Defender => 1real,
                PlayerRole::Midfielder => (31real / 50real),
                PlayerRole::Forward => (6real / 25real),
            };
            let part = |x: real| bounded(x, 0real, 1real);
            &&& means(
                anchor_weight(plus, times, w, role),
                (21real / 50real) + part(space) * (3real / 10real) + part(lanes)
                    * (9real / 50real) + (part(compact) * rest) * (13real / 50real)
                    + (part(progress) * attack) * (3real / 25real),
            )
            &&& means(
                movement_weight(plus, times, fatigue, tired),
                (9real / 50real) + f * ((9real / 20real) + t * (3real / 4real)),
            )
            &&& means(
                acceleration_weight(plus, times, fatigue, tired),
                (3real / 50real) + f * (9real / 50real) + t * (4real / 25real),
            )
            &&& means(
                dynamics_weight(plus, times, w, role),
                (27real / 20real) + part(keep) * (7real / 25real) + (part(compact) * rest)
                    * (11real / 50real),
            )
        }),
{
    decimals_are_read(means);
    let attack = match role {
        PlayerRole::Goalkeeper => (1real / 20real),
        PlayerRole::Defender => (3real / 10real),
        PlayerRole::Midfielder => (41real / 50real),
        PlayerRole::Forward => 1real,
    };
    let rest = match role {
        PlayerRole::Goalkeeper => (19real / 25real),
        PlayerRole::Defender => 1real,
        PlayerRole::Midfielder => (31real / 50real),
        PlayerRole::Forward => (6real / 25real),
    };
    assert(means(num(role_attack(role)), attack));
    assert(means(num(role_rest_defense(role)), rest));
    let part = |x: real| bounded(x, 0real, 1real);
    assert(means(unit_value(w.space_occupation), part(space)));
    assert(means(unit_value(w.passing_lane_quality), part(lanes)));
    assert(means(unit_value(w.defensive_compactness), part(compact)));
    assert(means(unit_value(w.progression), part(progress)));
    assert(means(unit_value(w.retention), part(keep)));
    let guarded = outcome(
        times,
        unit_value(w.defensive_compactness),
        num(role_rest_defense(role)),
    );
    assert(means(guarded, part(compact) * rest));
    let pushed = outcome(times, unit_value(w.progression), num(role_attack(role)));
    assert(means(pushed, part(progress) * attack));
    reveal_with_fuel(weighted_sum, 5);
    let terms = seq![
        (unit_value(w.space_occupation), D0_3),
        (unit_value(w.passing_lane_quality), D0_18),
        (guarded, D0_26),
        (pushed, D0_12),
    ];
    let x = seq![part(space), part(lanes), part(compact) * rest, part(progress) * attack];
    let c = seq![(3real / 10real), (9real / 50real), (13real / 50real), (3real / 25real)];
    weighing_adds_the_terms(means, plus, times, num(D0_42), terms, (21real / 50real), x, c, 4);
    let terms = seq![(fatigue, D0_18), (tired, D0_16)];
    weighing_adds_the_terms(
        means,
        plus,
        times,
        num(D0_06),
        terms,
        (3real / 50real),
        seq![f, t],
        seq![(9real / 50real), (4real / 25real)],
        2,
    );
    let terms = seq![(unit_value(w.retention), D0_28), (guarded, D0_22)];
    weighing_adds_the_terms(
        means,
        plus,
        times,
        num(D1_35),
        terms,
        (27real / 20real),
        seq![part(keep), part(compact) * rest],
        seq![(7real / 25real), (11real / 50real)],
        2,
    );
}

/// How strongly a player is pulled forward: by what the attack promises, as far as the role
/// attacks, less what is at risk, as far as it covers.
pub proof fn attacks_pull_forward_and_risks_back<
    P: Fn(Real64, Real64) -> Real64,
    M: Fn(Real64, Real64) -> Real64,
>(
    means: spec_fn(Real64, real) -> bool,
    plus: P,
    times: M,
    w: SoccerFormationLpObjectiveWeights,
    role: PlayerRole,
    goal: real,
    progress: real,
    lead: real,
    drive: real,
    risk: real,
    fear: real,
    worry: real,
)
    requires
        is_faithful(means, plus, times),
        w.expected_goal.finite() && means(w.expected_goal, goal),
        w.progression.finite() && means(w.progression, progress),
        w.adversarial_embedding_attack.finite() && means(w.adversarial_embedding_attack, lead),
        w.neural_attack.finite() && means(w.neural_attack, drive),
        w.transition_risk.finite() && means(w.transition_risk, risk),
        w.adversarial_embedding_defense.finite() && means(w.adversarial_embedding_defense, fear),
        w.neural_defense.finite() && means(w.neural_defense, worry),
    ensures
        ({
            let attack = match role {
                PlayerRole::Goalkeeper => (1real / 20real),
                PlayerRole::Defender => (3real / 10real),
                PlayerRole::Midfielder => (41real / 50real),
                PlayerRole::Forward => 1real,
            };
            let rest = match role {
                PlayerRole::Goalkeeper => (19real / 25real),
                PlayerRole::Defender => 1real,
                PlayerRole::Midfielder => (31real / 50real),
                PlayerRole::Forward => (6real / 25real),
            };
            let part = |x: real| bounded(x, 0real, 1real);
            means(
                forward_pull(plus, times, w, role),
                part(goal) * (1real / 100real) + (part(progress) * attack) * (3real / 250real)
                    + (part(lead) * attack)
                    * (1real / 125real) + (part(drive) * attack) * (1real / 125real)
                        - (part(risk) * rest) * (3real / 500real) - (part(fear) * rest)
                        * (3real / 500real) - (part(worry) * rest) * (3real / 500real),
            )
        }),
{
    decimals_are_read(means);
    let attack = match role {
        PlayerRole::Goalkeeper => (1real / 20real),
        PlayerRole::Defender => (3real / 10real),
        PlayerRole::Midfielder => (41real / 50real),
        PlayerRole::Forward => 1real,
    };
    let rest = match role {
        PlayerRole::Goalkeeper => (19real / 25real),
        PlayerRole::Defender => 1real,
        PlayerRole::Midfielder => (31real / 50real),
        PlayerRole::Forward => (6real / 25real),
    };
    let a = num(role_attack(role));
    let r = num(role_rest_defense(role));
    assert(means(a, attack));
    assert(means(r, rest));
    let part = |x: real| bounded(x, 0real, 1real);
    let first = outcome(times, unit_value(w.expected_goal), num(D0_01));
    assert(means(first, part(goal) * (1real / 100real)));
    let t1 = outcome(times, unit_value(w.progression), a);
    let t2 = outcome(times, unit_value(w.adversarial_embedding_attack), a);
    let t3 = outcome(times, unit_value(w.neural_attack), a);
    assert(means(t1, part(progress) * attack));
    assert(means(t2, part(lead) * attack));
    assert(means(t3, part(drive) * attack));
    reveal_with_fuel(weighted_sum, 4);
    let terms = seq![(t1, D0_012), (t2, D0_008), (t3, D0_008)];
    let x = seq![part(progress) * attack, part(lead) * attack, part(drive) * attack];
    let c = seq![(3real / 250real), (1real / 125real), (1real / 125real)];
    weighing_adds_the_terms(
        means,
        plus,
        times,
        first,
        terms,
        part(goal) * (1real / 100real),
        x,
        c,
        3,
    );
    let gain = weighed(plus, times, first, terms, 3);
    let g = part(goal) * (1real / 100real) + (part(progress) * attack) * (3real / 250real)
        + (part(lead) * attack) * (1real / 125real)
        + (part(drive) * attack) * (1real / 125real);
    assert(means(gain, g));
    let y1 = (part(risk) * rest) * (3real / 500real);
    let y2 = (part(fear) * rest) * (3real / 500real);
    let y3 = (part(worry) * rest) * (3real / 500real);
    assert(g + -y1 == g - y1 && g - y1 + -y2 == g - y1 - y2);
    assert(g - y1 - y2 + -y3 == g - y1 - y2 - y3);
    let s1 = less(plus, times, gain, outcome(times, unit_value(w.transition_risk), r));
    assert(means(s1, g - y1));
    let s2 = less(
        plus,
        times,
        s1,
        outcome(times, unit_value(w.adversarial_embedding_defense), r),
    );
    assert(means(s2, g - y1 - y2));
}

/// What a pair costs that is not apart as its anchors are: the mean of both weights, more along a
/// common line, of which relief keeps no less than 0.15.
pub proof fn pairs_cost_by_line_and_relief<
    P: Fn(Real64, Real64) -> Real64,
    M: Fn(Real64, Real64) -> Real64,
>(
    means: spec_fn(Real64, real) -> bool,
    plus: P,
    times: M,
    frame: TickFrame,
    a: SoccerFormationLpSlotInput,
    b: SoccerFormationLpSlotInput,
    relief: Real64,
    lines: LineWeights,
    wa: real,
    wb: real,
    given: real,
    back: real,
    mid: real,
) -> (sums: (Real64, Real64))
    requires
        is_faithful(means, plus, times),
        means(a.pair_weight, wa),
        means(b.pair_weight, wb),
        means(relief, given),
        means(lines.defender, back),
        means(lines.midfielder, mid),
        outcome(times, outcome(plus, a.pair_weight, b.pair_weight), num(D0_5)).finite(),
    ensures
        ({
            let kept = bounded(1real - given, (3real / 20real), 1real);
            let base = bounded((wa + wb) / 2real, 0real, 1real);
            let both = |role: PlayerRole| a.role == role && b.role == role;
            let (spacing, line) = if both(PlayerRole::Defender) {
                ((9real / 50real), back)
            } else if both(PlayerRole::Midfielder) {
                ((1real / 10real), mid)
            } else {
                (0real, 0real)
            };
            let tick = pair_tick(plus, times, frame, a, b, relief, lines);
            &&& means(sums.0, base + spacing * kept)
            &&& means(sums.1, base + spacing * kept + line * kept)
            &&& tick.entry == (Vec2 {
                x: charged(plus, unit_value(sums.0)),
                y: charged(plus, unit_value(sums.1)),
            })
        }),
{
    decimals_are_read(means);
    assert(1real + -given == 1real - given);
    let kept = bounded(1real - given, (3real / 20real), 1real);
    let number = clamped_to(outcome(plus, num(D1), relief.negated()), num(D0_15), num(D1));
    assert(means(number, kept));
    assert((wa + wb) * (1real / 2real) == (wa + wb) / 2real);
    let base = bounded((wa + wb) / 2real, 0real, 1real);
    let half = unit_value(
        outcome(times, outcome(plus, a.pair_weight, b.pair_weight), num(D0_5)),
    );
    assert(means(half, base));
    let (s, l) = line_costs(a.role, b.role, lines);
    let x = outcome(plus, half, outcome(times, s, number));
    let y = outcome(plus, x, outcome(times, l, number));
    let both = |role: PlayerRole| a.role == role && b.role == role;
    let (spacing, line) = if both(PlayerRole::Defender) {
        ((9real / 50real), back)
    } else if both(PlayerRole::Midfielder) {
        ((1real / 10real), mid)
    } else {
        (0real, 0real)
    };
    assert(means(s, spacing) && means(l, line));
    assert(means(x, base + spacing * kept));
    assert(means(y, base + spacing * kept + line * kept));
    (x, y)
}

/// What a weight is worth in the objective: as much less.
pub proof fn charges_are_costs<
    P: Fn(Real64, Real64) -> Real64,
>(
    means: spec_fn(Real64, real) -> bool,
    plus: P,
    weight: Real64,
    w: real,
)
    requires
        reads_sums(means, plus),
        reads_signs(means),
        reads_order(means),
        reads_decimals(means),
        means(weight, w),
    ensures
        means(charged(plus, weight), -w),
{
    decimals_are_read(means);
    assert(0real + -w == -w);
}

/// What a tick writes down for a slot: no further from where the player stands than the reach to
/// both sides, pulled forward along the direction of attack, and the line of the matched speed
/// where the player would be after the moment.
pub proof fn ticks_bound_the_reach<
    P: Fn(Real64, Real64) -> Real64,
    M: Fn(Real64, Real64) -> Real64,
    D: Fn(Vec2, Vec2) -> Real64,
>(
    means: spec_fn(Real64, real) -> bool,
    plus: P,
    times: M,
    distance: D,
    frame: TickFrame,
    w: SoccerFormationLpObjectiveWeights,
    input: SoccerFormationLpSlotInput,
    x: real,
    y: real,
    reach: real,
    dir: real,
    pull: real,
    speed: real,
    dt: real,
    length: real,
)
    requires
        is_faithful(means, plus, times),
        stands_at(means, standing(times, frame, input), x, y),
        means(reach_of(plus, times, reach_measures(distance, input, frame.step())), reach),
        means(frame.attack_dir, dir),
        means(forward_pull(plus, times, w, input.role), pull),
        input.speed_match_velocity_yps.finite() && means(input.speed_match_velocity_yps, speed),
        means(frame.step(), dt),
        means(frame.length, length),
    ensures
        ({
            let tick = slot_tick(plus, times, distance, frame, w, input);
            &&& stands_at(means, tick.reach_upper, x + reach, y + reach)
            &&& stands_at(means, tick.reach_lower, reach - x, reach - y)
            &&& means(tick.forward_entry, dir * pull)
            &&& means(tick.speed_match_y, bounded(y + speed * dt, 0real, length))
            &&& tick.current == standing(times, frame, input)
            &&& tick.anchor == belonging(times, frame, input)
        }),
{
    decimals_are_read(means);
    assert(reach + -x == reach - x && reach + -y == reach - y);
    assert(0real + dir * pull == dir * pull);
}

} // verus!
