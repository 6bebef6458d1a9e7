//! The objective of a team's formation program: what it weighs in the present situation, and how
//! the play that the team is committed to shifts those weights.
//!
//! The arithmetic is handed in; every weight is a fixed mixture of the given measures.
use crate::decimals::{
    D0, D0_04, D0_06, D0_08, D0_09, D0_1, D0_11, D0_12, D0_13, D0_15, D0_16, D0_17, D0_18, D0_2,
    D0_22, D0_24, D0_27, D0_3, D0_36, D0_38, D0_42, D0_48, D0_57, D0_58, D0_6, D0_62, D0_64, D0_65,
    D0_8, D0_85, D0_88, D1, D1_15, D1_2, D1_25, D1_3, D1_35, D1_4, D1_45, D1_5,
};
use crate::formation::guidance::SoccerFormationLpObjectiveWeights;
use crate::meaning::{bounded, decimals_are_read, is_faithful};
use crate::number::{apply, at_bits, clamp_to, clamped_to, is_operation, num, outcome, Real64};
use crate::pitch::Team;
use crate::strategy::{TeamAttackStrategy, TeamDefenseStrategy};
use vstd::prelude::*;

verus! {

/// What the objective is mixed from, each measure on its own scale.
#[derive(Clone, Copy, Debug, PartialEq, Eq, Structural)]
pub struct ObjectiveInputs {
    /// How near the ball is to the opponents' goal.
    pub attacking_depth: Real64,
    /// How near the ball is to the own goal.
    pub own_goal_danger: Real64,
    /// Pressure on the ball holder.
    pub holder_pressure: Real64,
    /// How settled the possession is.
    pub settled: Real64,
    /// How overloaded the attack is.
    pub overload: Real64,
    /// Advantage in numbers.
    pub numbers: Real64,
    /// How much of the width is used.
    pub field_width_usage: Real64,
    pub pass_priority: Real64,
    pub carry_priority: Real64,
    pub press_intensity: Real64,
    pub embedding_attack: Real64,
    pub embedding_defense: Real64,
    pub neural_attack: Real64,
    pub neural_defense: Real64,
    /// Pressure at the ball.
    pub central_pressure: Real64,
    /// How well those behind the ball are placed.
    pub rest_defense: Real64,
    pub fatigue: Real64,
    /// Own players near the ball, out of four.
    pub near_ball: Real64,
    /// Opponents near the ball, out of four.
    pub opponents_near: Real64,
    /// Spread of the team on the wider scale.
    pub spread_wide: Real64,
    /// Spread of the team on the narrower scale.
    pub spread_narrow: Real64,
}

/// What is left of one.
pub open spec fn rest_of<P: Fn(Real64, Real64) -> Real64>(plus: P, x: Real64) -> Real64 {
    outcome(plus, num(D1), x.negated())
}

fn rest<P: Fn(Real64, Real64) -> Real64>(x: Real64, plus: &P) -> (r: Real64)
    requires
        is_operation(*plus),
    ensures
        r == rest_of(*plus, x),
{
    apply(plus, at_bits(D1), x.negate())
}

/// A sum with the first `n` measures added, each by its factor.
pub open spec fn weighed<P: Fn(Real64, Real64) -> Real64, M: Fn(Real64, Real64) -> Real64>(
    plus: P,
    times: M,
    first: Real64,
    terms: Seq<(Real64, u64)>,
    n: int,
) -> Real64
    decreases n,
{
    if n <= 0 {
        first
    } else {
        outcome(
            plus,
            weighed(plus, times, first, terms, n - 1),
            outcome(times, terms[n - 1].0, num(terms[n - 1].1)),
        )
    }
}

/// A sum with measures added by their factors, kept between 0 and 1.
pub open spec fn mixed_from<P: Fn(Real64, Real64) -> Real64, M: Fn(Real64, Real64) -> Real64>(
    plus: P,
    times: M,
    first: Real64,
    terms: Seq<(Real64, u64)>,
) -> Real64 {
    clamped_to(weighed(plus, times, first, terms, terms.len() as int), num(D0), num(D1))
}

/// Measures added up by their factors, kept between 0 and 1.
pub open spec fn mixed<P: Fn(Real64, Real64) -> Real64, M: Fn(Real64, Real64) -> Real64>(
    plus: P,
    times: M,
    terms: Seq<(Real64, u64)>,
) -> Real64 {
    mixed_from(plus, times, outcome(times, terms[0].0, num(terms[0].1)), terms.skip(1))
}

/// Adds up measures by their factors.
pub fn weigh<P: Fn(Real64, Real64) -> Real64, M: Fn(Real64, Real64) -> Real64>(
    first: Real64,
    terms: Vec<(Real64, u64)>,
    plus: &P,
    times: &M,
) -> (r: Real64)
    requires
        is_operation(*plus),
        is_operation(*times),
    ensures
        r == weighed(*plus, *times, first, terms@, terms@.len() as int),
{
    let mut sum: Real64 = first;
    let mut i: usize = 0;
    while i < terms.len()
        invariant
            i <= terms@.len(),
            is_operation(*plus),
            is_operation(*times),
            sum == weighed(*plus, *times, first, terms@, i as int),
        decreases terms@.len() - i,
    {
        let (x, factor): (Real64, u64) = terms[i];
        sum = apply(plus, sum, apply(times, x, at_bits(factor)));
        i += 1;
    }
    sum
}

fn mix_from<P: Fn(Real64, Real64) -> Real64, M: Fn(Real64, Real64) -> Real64>(
    first: Real64,
    terms: Vec<(Real64, u64)>,
    plus: &P,
    times: &M,
) -> (r: Real64)
    requires
        is_operation(*plus),
        is_operation(*times),
    ensures
        r == mixed_from(*plus, *times, first, terms@),
{
    clamp_to(weigh(first, terms, plus, times), at_bits(D0), at_bits(D1))
}

fn mix<P: Fn(Real64, Real64) -> Real64, M: Fn(Real64, Real64) -> Real64>(
    terms: Vec<(Real64, u64)>,
    plus: &P,
    times: &M,
) -> (r: Real64)
    requires
        terms@.len() > 0,
        is_operation(*plus),
        is_operation(*times),
    ensures
        r == mixed(*plus, *times, terms@),
{
    let mut rest: Vec<(Real64, u64)> = terms;
    let ghost all = rest@;
    let (x, factor): (Real64, u64) = rest.remove(0);
    assert(rest@ =~= all.skip(1));
    mix_from(apply(times, x, at_bits(factor)), rest, plus, times)
}

/// The weights of a team that has the ball, defends against it, or neither.
pub open spec fn situation_weights<
    P: Fn(Real64, Real64) -> Real64,
    M: Fn(Real64, Real64) -> Real64,
>(plus: P, times: M, i: ObjectiveInputs, has_ball: bool, defending: bool)
    -> SoccerFormationLpObjectiveWeights {
    SoccerFormationLpObjectiveWeights {
        expected_goal: if has_ball {
            mixed(plus, times, seq![
                (i.attacking_depth, D0_62),
                (i.overload, D0_18),
                (i.numbers, D0_08),
                (i.embedding_attack, D0_12),
            ])
        } else {
            num(D0)
        },
        progression: if has_ball {
            mixed(plus, times, seq![
                (i.attacking_depth, D0_48),
                (i.pass_priority, D0_15),
                (i.carry_priority, D0_11),
                (i.settled, D0_16),
                (i.embedding_attack, D0_1),
            ])
        } else {
            num(D0)
        },
        retention: if has_ball {
            mixed_from(plus, times, outcome(plus, num(D1), outcome(times, i.holder_pressure, num(D0_65)).negated()), seq![
                (i.settled, D0_18),
                (i.rest_defense, D0_13),
                (i.embedding_defense, D0_04),
            ])
        } else {
            num(D0_12)
        },
        expected_goals_against: if !has_ball {
            mixed(plus, times, seq![
                (i.own_goal_danger, D0_64),
                (i.central_pressure, D0_17),
                (rest_of(plus, i.rest_defense), D0_09),
                (i.embedding_defense, D0_1),
            ])
        } else {
            mixed(plus, times, seq![
                (rest_of(plus, i.rest_defense), D0_36),
                (i.own_goal_danger, D0_22),
                (i.embedding_defense, D0_12),
            ])
        },
        fatigue: i.fatigue,
        passing_lane_quality: if has_ball {
            mixed(plus, times, seq![
                (i.field_width_usage, D0_38),
                (i.near_ball, D0_24),
                (rest_of(plus, i.holder_pressure), D0_2),
                (i.overload, D0_12),
                (i.embedding_attack, D0_06),
            ])
        } else {
            num(D0)
        },
        space_occupation: mixed(plus, times, seq![
                (i.field_width_usage, D0_42),
                (i.spread_narrow, D0_3),
                (i.settled, D0_24),
                (i.embedding_attack, D0_04),
            ]),
        numerical_superiority: i.numbers,
        press_resistance: if has_ball {
            clamped_to(rest_of(plus, i.holder_pressure), num(D0), num(D1))
        } else {
            num(D0)
        },
        defensive_compactness: if !has_ball {
            mixed(plus, times, seq![
                (rest_of(plus, i.spread_wide), D0_58),
                (i.press_intensity, D0_22),
                (i.opponents_near, D0_16),
                (i.embedding_defense, D0_04),
            ])
        } else {
            mixed(plus, times, seq![
                (i.rest_defense, D0_48),
                (i.embedding_defense, D0_1),
            ])
        },
        opponent_progression: if defending {
            mixed(plus, times, seq![
                (i.own_goal_danger, D0_57),
                (i.attacking_depth, D0_11),
                (i.holder_pressure, D0_2),
                (i.embedding_defense, D0_12),
            ])
        } else {
            num(D0)
        },
        transition_risk: if has_ball {
            mixed(plus, times, seq![
                (rest_of(plus, i.rest_defense), D0_48),
                (i.holder_pressure, D0_27),
                (i.attacking_depth, D0_13),
                (i.embedding_defense, D0_12),
            ])
        } else {
            mixed(plus, times, seq![
                (i.own_goal_danger, D0_88),
                (i.embedding_defense, D0_12),
            ])
        },
        adversarial_embedding_attack: i.embedding_attack,
        adversarial_embedding_defense: i.embedding_defense,
        neural_attack: i.neural_attack,
        neural_defense: i.neural_defense,
    }
}

fn weights_for_situation<P: Fn(Real64, Real64) -> Real64, M: Fn(Real64, Real64) -> Real64>(
    i: &ObjectiveInputs,
    has_ball: bool,
    defending: bool,
    plus: &P,
    times: &M,
) -> (r: SoccerFormationLpObjectiveWeights)
    requires
        is_operation(*plus),
        is_operation(*times),
    ensures
        r == situation_weights(*plus, *times, *i, has_ball, defending),
{
    SoccerFormationLpObjectiveWeights {
        expected_goal: if has_ball {
            mix(vec![
                (i.attacking_depth, D0_62),
                (i.overload, D0_18),
                (i.numbers, D0_08),
                (i.embedding_attack, D0_12),
            ], plus, times)
        } else {
            at_bits(D0)
        },
        progression: if has_ball {
            mix(vec![
                (i.attacking_depth, D0_48),
                (i.pass_priority, D0_15),
                (i.carry_priority, D0_11),
                (i.settled, D0_16),
                (i.embedding_attack, D0_1),
            ], plus, times)
        } else {
            at_bits(D0)
        },
        retention: if has_ball {
            mix_from(apply(plus, at_bits(D1), apply(times, i.holder_pressure, at_bits(D0_65)).negate()), vec![
                (i.settled, D0_18),
                (i.rest_defense, D0_13),
                (i.embedding_defense, D0_04),
            ], plus, times)
        } else {
            at_bits(D0_12)
        },
        expected_goals_against: if !has_ball {
            mix(vec![
                (i.own_goal_danger, D0_64),
                (i.central_pressure, D0_17),
                (rest(i.rest_defense, plus), D0_09),
                (i.embedding_defense, D0_1),
            ], plus, times)
        } else {
            mix(vec![
                (rest(i.rest_defense, plus), D0_36),
                (i.own_goal_danger, D0_22),
                (i.embedding_defense, D0_12),
            ], plus, times)
        },
        fatigue: i.fatigue,
        passing_lane_quality: if has_ball {
            mix(vec![
                (i.field_width_usage, D0_38),
                (i.near_ball, D0_24),
                (rest(i.holder_pressure, plus), D0_2),
                (i.overload, D0_12),
                (i.embedding_attack, D0_06),
            ], plus, times)
        } else {
            at_bits(D0)
        },
        space_occupation: mix(vec![
                (i.field_width_usage, D0_42),
                (i.spread_narrow, D0_3),
                (i.settled, D0_24),
                (i.embedding_attack, D0_04),
            ], plus, times),
        numerical_superiority: i.numbers,
        press_resistance: if has_ball {
            clamp_to(rest(i.holder_pressure, plus), at_bits(D0), at_bits(D1))
        } else {
            at_bits(D0)
        },
        defensive_compactness: if !has_ball {
            mix(vec![
                (rest(i.spread_wide, plus), D0_58),
                (i.press_intensity, D0_22),
                (i.opponents_near, D0_16),
                (i.embedding_defense, D0_04),
            ], plus, times)
        } else {
            mix(vec![
                (i.rest_defense, D0_48),
                (i.embedding_defense, D0_1),
            ], plus, times)
        },
        opponent_progression: if defending {
            mix(vec![
                (i.own_goal_danger, D0_57),
                (i.attacking_depth, D0_11),
                (i.holder_pressure, D0_2),
                (i.embedding_defense, D0_12),
            ], plus, times)
        } else {
            at_bits(D0)
        },
        transition_risk: if has_ball {
            mix(vec![
                (rest(i.rest_defense, plus), D0_48),
                (i.holder_pressure, D0_27),
                (i.attacking_depth, D0_13),
                (i.embedding_defense, D0_12),
            ], plus, times)
        } else {
            mix(vec![
                (i.own_goal_danger, D0_88),
                (i.embedding_defense, D0_12),
            ], plus, times)
        },
        adversarial_embedding_attack: i.embedding_attack,
        adversarial_embedding_defense: i.embedding_defense,
        neural_attack: i.neural_attack,
        neural_defense: i.neural_defense,
    }
}

/// The weights that a play can shift.
#[derive(Clone, Copy, Debug, PartialEq, Eq, Structural)]
pub enum ObjectiveTerm {
    ExpectedGoal,
    Progression,
    Retention,
    ExpectedGoalsAgainst,
    Fatigue,
    PassingLaneQuality,
    SpaceOccupation,
    NumericalSuperiority,
    PressResistance,
    DefensiveCompactness,
    OpponentProgression,
    TransitionRisk,
}

/// The weights with one of them scaled.
pub open spec fn scaled<M: Fn(Real64, Real64) -> Real64>(
    times: M,
    w: SoccerFormationLpObjectiveWeights,
    term: ObjectiveTerm,
    factor: u64,
) -> SoccerFormationLpObjectiveWeights {
    match term {
        ObjectiveTerm::ExpectedGoal => SoccerFormationLpObjectiveWeights {
            expected_goal: outcome(times, w.expected_goal, num(factor)),
            ..w
        },
        ObjectiveTerm::Progression => SoccerFormationLpObjectiveWeights {
            progression: outcome(times, w.progression, num(factor)),
            ..w
        },
        ObjectiveTerm::Retention => SoccerFormationLpObjectiveWeights {
            retention: outcome(times, w.retention, num(factor)),
            ..w
        },
        ObjectiveTerm::ExpectedGoalsAgainst => SoccerFormationLpObjectiveWeights {
            expected_goals_against: outcome(times, w.expected_goals_against, num(factor)),
            ..w
        },
        ObjectiveTerm::Fatigue => SoccerFormationLpObjectiveWeights {
            fatigue: outcome(times, w.fatigue, num(factor)),
            ..w
        },
        ObjectiveTerm::PassingLaneQuality => SoccerFormationLpObjectiveWeights {
            passing_lane_quality: outcome(times, w.passing_lane_quality, num(factor)),
            ..w
        },
        ObjectiveTerm::SpaceOccupation => SoccerFormationLpObjectiveWeights {
            space_occupation: outcome(times, w.space_occupation, num(factor)),
            ..w
        },
        ObjectiveTerm::NumericalSuperiority => SoccerFormationLpObjectiveWeights {
            numerical_superiority: outcome(times, w.numerical_superiority, num(factor)),
            ..w
        },
        ObjectiveTerm::PressResistance => SoccerFormationLpObjectiveWeights {
            press_resistance: outcome(times, w.press_resistance, num(factor)),
            ..w
        },
        ObjectiveTerm::DefensiveCompactness => SoccerFormationLpObjectiveWeights {
            defensive_compactness: outcome(times, w.defensive_compactness, num(factor)),
            ..w
        },
        ObjectiveTerm::OpponentProgression => SoccerFormationLpObjectiveWeights {
            opponent_progression: outcome(times, w.opponent_progression, num(factor)),
            ..w
        },
        ObjectiveTerm::TransitionRisk => SoccerFormationLpObjectiveWeights {
            transition_risk: outcome(times, w.transition_risk, num(factor)),
            ..w
        },
    }
}

fn scale<M: Fn(Real64, Real64) -> Real64>(
    w: &mut SoccerFormationLpObjectiveWeights,
    term: ObjectiveTerm,
    factor: u64,
    times: &M,
)
    requires
        is_operation(*times),
    ensures
        *final(w) == scaled(*times, *old(w), term, factor),
{
    let f: Real64 = at_bits(factor);
    match term {
        ObjectiveTerm::ExpectedGoal => {
            w.expected_goal = apply(times, w.expected_goal, f);
        },
        ObjectiveTerm::Progression => {
            w.progression = apply(times, w.progression, f);
        },
        ObjectiveTerm::Retention => {
            w.retention = apply(times, w.retention, f);
        },
        ObjectiveTerm::ExpectedGoalsAgainst => {
            w.expected_goals_against = apply(times, w.expected_goals_against, f);
        },
        ObjectiveTerm::Fatigue => {
            w.fatigue = apply(times, w.fatigue, f);
        },
        ObjectiveTerm::PassingLaneQuality => {
            w.passing_lane_quality = apply(times, w.passing_lane_quality, f);
        },
        ObjectiveTerm::SpaceOccupation => {
            w.space_occupation = apply(times, w.space_occupation, f);
        },
        ObjectiveTerm::NumericalSuperiority => {
            w.numerical_superiority = apply(times, w.numerical_superiority, f);
        },
        ObjectiveTerm::PressResistance => {
            w.press_resistance = apply(times, w.press_resistance, f);
        },
        ObjectiveTerm::DefensiveCompactness => {
            w.defensive_compactness = apply(times, w.defensive_compactness, f);
        },
        ObjectiveTerm::OpponentProgression => {
            w.opponent_progression = apply(times, w.opponent_progression, f);
        },
        ObjectiveTerm::TransitionRisk => {
            w.transition_risk = apply(times, w.transition_risk, f);
        },
    }
}

/// How a play shifts the weights: a defending team goes by its defensive play, a team on the ball
/// by its attacking play.
pub open spec fn profile(
    defense: TeamDefenseStrategy,
    attack: TeamAttackStrategy,
    has_ball: bool,
    defending: bool,
) -> Seq<(ObjectiveTerm, u64)> {
    if defending {
        match defense {
            TeamDefenseStrategy::HighPressManOriented
            | TeamDefenseStrategy::HighPressZonalTrigger
            | TeamDefenseStrategy::CounterPressGegenpress
            | TeamDefenseStrategy::PressTriggerOnBackPass
            | TeamDefenseStrategy::WidePressOverloadBall => seq![
                (ObjectiveTerm::OpponentProgression, D1_5),
                (ObjectiveTerm::PressResistance, D1_35),
                (ObjectiveTerm::NumericalSuperiority, D1_25),
                (ObjectiveTerm::DefensiveCompactness, D0_85),
                (ObjectiveTerm::Fatigue, D0_8),
            ],
            TeamDefenseStrategy::LowBlockCompact
            | TeamDefenseStrategy::LowBlockParkBus
            | TeamDefenseStrategy::MidBlockZonal
            | TeamDefenseStrategy::MidBlockManMark
            | TeamDefenseStrategy::DropAndScreenCentral
            | TeamDefenseStrategy::ContainAndDelayCounter
            | TeamDefenseStrategy::RetreatRegroupHalfway
            | TeamDefenseStrategy::ShowInsideClampCentral
            | TeamDefenseStrategy::ManMarkKeyReceiver
            | TeamDefenseStrategy::DoubleTeamBallCarrier => seq![
                (ObjectiveTerm::DefensiveCompactness, D1_5),
                (ObjectiveTerm::ExpectedGoalsAgainst, D1_35),
                (ObjectiveTerm::OpponentProgression, D1_2),
                (ObjectiveTerm::Progression, D0_85),
                (ObjectiveTerm::Fatigue, D1_15),
            ],
            TeamDefenseStrategy::OffsideTrapStepUp
            | TeamDefenseStrategy::ForceWideLeftTrap
            | TeamDefenseStrategy::ForceWideRightTrap => seq![
                (ObjectiveTerm::DefensiveCompactness, D1_35),
                (ObjectiveTerm::OpponentProgression, D1_25),
            ],
        }
    } else if has_ball {
        match attack {
            TeamAttackStrategy::CounterTransitionVertical
            | TeamAttackStrategy::QuickVerticalThroughBall
            | TeamAttackStrategy::DirectLongDiagonalLeft
            | TeamAttackStrategy::DirectLongDiagonalRight => seq![
                (ObjectiveTerm::Progression, D1_3),
                (ObjectiveTerm::ExpectedGoal, D1_2),
                (ObjectiveTerm::Retention, D0_85),
            ],
            TeamAttackStrategy::PatientPossessionProbe
            | TeamAttackStrategy::RecycleViaKeeperReset
            | TeamAttackStrategy::HoldUpfieldUntilOpening => seq![
                (ObjectiveTerm::Retention, D1_3),
                (ObjectiveTerm::PassingLaneQuality, D1_2),
                (ObjectiveTerm::TransitionRisk, D1_2),
            ],
            TeamAttackStrategy::PlayBackwardsToGoad => seq![
                (ObjectiveTerm::Retention, D1_45),
                (ObjectiveTerm::PassingLaneQuality, D1_25),
                (ObjectiveTerm::Progression, D0_6),
                (ObjectiveTerm::TransitionRisk, D1_3),
            ],
            TeamAttackStrategy::OverloadLeftIsolateRight
            | TeamAttackStrategy::OverloadRightIsolateLeft => seq![
                (ObjectiveTerm::NumericalSuperiority, D1_4),
                (ObjectiveTerm::SpaceOccupation, D1_2),
            ],
            TeamAttackStrategy::WingOverlapLeftCross
            | TeamAttackStrategy::WingOverlapRightCross
            | TeamAttackStrategy::UnderlapLeftCutback
            | TeamAttackStrategy::UnderlapRightCutback
            | TeamAttackStrategy::PullWideLeftThenCenter
            | TeamAttackStrategy::PullWideRightThenCenter => seq![
                (ObjectiveTerm::SpaceOccupation, D1_3),
                (ObjectiveTerm::ExpectedGoal, D1_15),
            ],
            _ => Seq::empty(),
        }
    } else {
        Seq::empty()
    }
}

/// Looks up how a play shifts the weights.
pub fn strategy_profile(
    defense: TeamDefenseStrategy,
    attack: TeamAttackStrategy,
    has_ball: bool,
    defending: bool,
) -> (r: Vec<(ObjectiveTerm, u64)>)
    ensures
        r@ == profile(defense, attack, has_ball, defending),
{
    let r: Vec<(ObjectiveTerm, u64)> = if defending {
        match defense {
            TeamDefenseStrategy::HighPressManOriented
            | TeamDefenseStrategy::HighPressZonalTrigger
            | TeamDefenseStrategy::CounterPressGegenpress
            | TeamDefenseStrategy::PressTriggerOnBackPass
            | TeamDefenseStrategy::WidePressOverloadBall => vec![
                (ObjectiveTerm::OpponentProgression, D1_5),
                (ObjectiveTerm::PressResistance, D1_35),
                (ObjectiveTerm::NumericalSuperiority, D1_25),
                (ObjectiveTerm::DefensiveCompactness, D0_85),
                (ObjectiveTerm::Fatigue, D0_8),
            ],
            TeamDefenseStrategy::LowBlockCompact
            | TeamDefenseStrategy::LowBlockParkBus
            | TeamDefenseStrategy::MidBlockZonal
            | TeamDefenseStrategy::MidBlockManMark
            | TeamDefenseStrategy::DropAndScreenCentral
            | TeamDefenseStrategy::ContainAndDelayCounter
            | TeamDefenseStrategy::RetreatRegroupHalfway
            | TeamDefenseStrategy::ShowInsideClampCentral
            | TeamDefenseStrategy::ManMarkKeyReceiver
            | TeamDefenseStrategy::DoubleTeamBallCarrier => vec![
                (ObjectiveTerm::DefensiveCompactness, D1_5),
                (ObjectiveTerm::ExpectedGoalsAgainst, D1_35),
                (ObjectiveTerm::OpponentProgression, D1_2),
                (ObjectiveTerm::Progression, D0_85),
                (ObjectiveTerm::Fatigue, D1_15),
            ],
            TeamDefenseStrategy::OffsideTrapStepUp
            | TeamDefenseStrategy::ForceWideLeftTrap
            | TeamDefenseStrategy::ForceWideRightTrap => vec![
                (ObjectiveTerm::DefensiveCompactness, D1_35),
                (ObjectiveTerm::OpponentProgression, D1_25),
            ],
        }
    } else if has_ball {
        match attack {
            TeamAttackStrategy::CounterTransitionVertical
            | TeamAttackStrategy::QuickVerticalThroughBall
            | TeamAttackStrategy::DirectLongDiagonalLeft
            | TeamAttackStrategy::DirectLongDiagonalRight => vec![
                (ObjectiveTerm::Progression, D1_3),
                (ObjectiveTerm::ExpectedGoal, D1_2),
                (ObjectiveTerm::Retention, D0_85),
            ],
            TeamAttackStrategy::PatientPossessionProbe
            | TeamAttackStrategy::RecycleViaKeeperReset
            | TeamAttackStrategy::HoldUpfieldUntilOpening => vec![
                (ObjectiveTerm::Retention, D1_3),
                (ObjectiveTerm::PassingLaneQuality, D1_2),
                (ObjectiveTerm::TransitionRisk, D1_2),
            ],
            TeamAttackStrategy::PlayBackwardsToGoad => vec![
                (ObjectiveTerm::Retention, D1_45),
                (ObjectiveTerm::PassingLaneQuality, D1_25),
                (ObjectiveTerm::Progression, D0_6),
                (ObjectiveTerm::TransitionRisk, D1_3),
            ],
            TeamAttackStrategy::OverloadLeftIsolateRight
            | TeamAttackStrategy::OverloadRightIsolateLeft => vec![
                (ObjectiveTerm::NumericalSuperiority, D1_4),
                (ObjectiveTerm::SpaceOccupation, D1_2),
            ],
            TeamAttackStrategy::WingOverlapLeftCross
            | TeamAttackStrategy::WingOverlapRightCross
            | TeamAttackStrategy::UnderlapLeftCutback
            | TeamAttackStrategy::UnderlapRightCutback
            | TeamAttackStrategy::PullWideLeftThenCenter
            | TeamAttackStrategy::PullWideRightThenCenter => vec![
                (ObjectiveTerm::SpaceOccupation, D1_3),
                (ObjectiveTerm::ExpectedGoal, D1_15),
            ],
            _ => Vec::new(),
        }
    } else {
        Vec::new()
    };
    assert(r@ =~= profile(defense, attack, has_ball, defending));
    r
}

/// The weights after the first `n` shifts.
pub open spec fn shifted<M: Fn(Real64, Real64) -> Real64>(
    times: M,
    w: SoccerFormationLpObjectiveWeights,
    shifts: Seq<(ObjectiveTerm, u64)>,
    n: int,
) -> SoccerFormationLpObjectiveWeights
    decreases n,
{
    if n <= 0 {
        w
    } else {
        scaled(times, shifted(times, w, shifts, n - 1), shifts[n - 1].0, shifts[n - 1].1)
    }
}

/// Shifts the weights towards the play that the team is committed to.
pub fn soccer_formation_lp_apply_strategy_profile<M: Fn(Real64, Real64) -> Real64>(
    weights: &mut SoccerFormationLpObjectiveWeights,
    defense: TeamDefenseStrategy,
    attack: TeamAttackStrategy,
    has_ball: bool,
    defending: bool,
    times: &M,
)
    requires
        is_operation(*times),
    ensures
        *final(weights) == ({
            let shifts = profile(defense, attack, has_ball, defending);
            shifted(*times, *old(weights), shifts, shifts.len() as int)
        }),
{
    let ghost before = *weights;
    let shifts: Vec<(ObjectiveTerm, u64)> = strategy_profile(defense, attack, has_ball, defending);
    let mut i: usize = 0;
    while i < shifts.len()
        invariant
            i <= shifts@.len(),
            is_operation(*times),
            *weights == shifted(*times, before, shifts@, i as int),
        decreases shifts@.len() - i,
    {
        let (term, factor): (ObjectiveTerm, u64) = shifts[i];
        scale(weights, term, factor, times);
        i += 1;
    }
}

/// The weights of the objective: mixed from the situation, then shifted by the play.
pub open spec fn weights_of<P: Fn(Real64, Real64) -> Real64, M: Fn(Real64, Real64) -> Real64>(
    plus: P,
    times: M,
    inputs: ObjectiveInputs,
    possession: Option<Team>,
    team: Team,
    defense: TeamDefenseStrategy,
    attack: TeamAttackStrategy,
) -> SoccerFormationLpObjectiveWeights {
    let has_ball = possession == Some(team);
    let defending = possession == Some(team.opponent());
    let shifts = profile(defense, attack, has_ball, defending);
    shifted(
        times,
        situation_weights(plus, times, inputs, has_ball, defending),
        shifts,
        shifts.len() as int,
    )
}

/// Computes the weights of a team's objective from the measures, the possession and the plays
/// that the team is committed to.
pub fn soccer_formation_lp_objective_weights<
    P: Fn(Real64, Real64) -> Real64,
    M: Fn(Real64, Real64) -> Real64,
>(
    inputs: &ObjectiveInputs,
    possession: Option<Team>,
    team: Team,
    defense: TeamDefenseStrategy,
    attack: TeamAttackStrategy,
    plus: &P,
    times: &M,
) -> (r: SoccerFormationLpObjectiveWeights)
    requires
        is_operation(*plus),
        is_operation(*times),
    ensures
        r == weights_of(*plus, *times, *inputs, possession, team, defense, attack),
{
    let (has_ball, defending): (bool, bool) = match possession {
        Some(t) => (t == team, t != team),
        None => (false, false),
    };
    let mut weights: SoccerFormationLpObjectiveWeights = weights_for_situation(
        inputs,
        has_ball,
        defending,
        plus,
        times,
    );
    soccer_formation_lp_apply_strategy_profile(
        &mut weights,
        defense,
        attack,
        has_ball,
        defending,
        times,
    );
    weights
}

/// No play shifts a weight twice, and none shifts any while nobody has the ball.
pub proof fn plays_shift_each_weight_once(
    defense: TeamDefenseStrategy,
    attack: TeamAttackStrategy,
    has_ball: bool,
    defending: bool,
)
    ensures
        ({
            let shifts = profile(defense, attack, has_ball, defending);
            forall|i: int, j: int|
                0 <= i < j < shifts.len() ==> (#[trigger] shifts[i]).0 != (#[trigger] shifts[j]).0
        }),
        !has_ball && !defending ==> profile(defense, attack, has_ball, defending).len() == 0,
{
}

/// A mixture that is a number lies between 0 and 1.
pub proof fn mixtures_are_bounded<
    P: Fn(Real64, Real64) -> Real64,
    M: Fn(Real64, Real64) -> Real64,
>(plus: P, times: M, first: Real64, terms: Seq<(Real64, u64)>)
    ensures
        !mixed_from(plus, times, first, terms).nan() ==> 0 <= mixed_from(
            plus,
            times,
            first,
            terms,
        ).key() <= num(D1).key(),
{
}

/// The sum of the first `n` reals, each times its weight.
pub open spec fn weighted_sum(x: Seq<real>, c: Seq<real>, n: int) -> real
    decreases n,
{
    if n <= 0 {
        0real
    } else {
        weighted_sum(x, c, n - 1) + x[n - 1] * c[n - 1]
    }
}

/// The terms stand for reals and their weights.
pub open spec fn stand_for(
    means: spec_fn(Real64, real) -> bool,
    terms: Seq<(Real64, u64)>,
    x: Seq<real>,
    c: Seq<real>,
) -> bool {
    &&& terms.len() == x.len()
    &&& terms.len() == c.len()
    &&& forall|i: int|
        0 <= i < terms.len() ==> means((#[trigger] terms[i]).0, x[i]) && means(
            num(terms[i].1),
            c[i],
        )
}

/// Weighing adds every term times its weight.
pub proof fn weighing_adds_the_terms<
    P: Fn(Real64, Real64) -> Real64,
    M: Fn(Real64, Real64) -> Real64,
>(
    means: spec_fn(Real64, real) -> bool,
    plus: P,
    times: M,
    first: Real64,
    terms: Seq<(Real64, u64)>,
    f: real,
    x: Seq<real>,
    c: Seq<real>,
    n: int,
)
    requires
        is_faithful(means, plus, times),
        means(first, f),
        stand_for(means, terms, x, c),
        0 <= n <= terms.len(),
    ensures
        means(weighed(plus, times, first, terms, n), f + weighted_sum(x, c, n)),
    decreases n,
{
    if n > 0 {
        weighing_adds_the_terms(means, plus, times, first, terms, f, x, c, n - 1);
        let t = terms[n - 1];
        assert(means(t.0, x[n - 1]) && means(num(t.1), c[n - 1]));
        let s = f + weighted_sum(x, c, n - 1);
        assert(s + x[n - 1] * c[n - 1] == f + weighted_sum(x, c, n));
    } else {
        assert(f + 0real == f);
    }
}

proof fn sums_begin_with_the_first(x: Seq<real>, c: Seq<real>, n: int)
    requires
        0 < x.len() == c.len(),
        0 <= n < x.len(),
    ensures
        weighted_sum(x, c, n + 1) == x[0] * c[0] + weighted_sum(x.skip(1), c.skip(1), n),
    decreases n,
{
    if n > 0 {
        sums_begin_with_the_first(x, c, n - 1);
    } else {
        assert(weighted_sum(x, c, 0) == 0real);
    }
}

/// A mixture is the weighted sum of its terms, kept between 0 and 1.
pub proof fn mixtures_are_weighted_sums<
    P: Fn(Real64, Real64) -> Real64,
    M: Fn(Real64, Real64) -> Real64,
>(
    means: spec_fn(Real64, real) -> bool,
    plus: P,
    times: M,
    terms: Seq<(Real64, u64)>,
    x: Seq<real>,
    c: Seq<real>,
)
    requires
        is_faithful(means, plus, times),
        stand_for(means, terms, x, c),
        terms.len() > 0,
    ensures
        means(
            mixed(plus, times, terms),
            bounded(weighted_sum(x, c, x.len() as int), 0real, 1real),
        ),
{
    decimals_are_read(means);
    let t = terms[0];
    assert(means(t.0, x[0]) && means(num(t.1), c[0]));
    let rest = terms.skip(1);
    assert(stand_for(means, rest, x.skip(1), c.skip(1))) by {
        assert forall|i: int| 0 <= i < rest.len() implies means(
            (#[trigger] rest[i]).0,
            x.skip(1)[i],
        ) && means(num(rest[i].1), c.skip(1)[i]) by {
            assert(rest[i] == terms[i + 1]);
        }
    }
    let first = outcome(times, t.0, num(t.1));
    weighing_adds_the_terms(
        means,
        plus,
        times,
        first,
        rest,
        x[0] * c[0],
        x.skip(1),
        c.skip(1),
        rest.len() as int,
    );
    sums_begin_with_the_first(x, c, rest.len() as int);
}

/// With the ball, goals are expected by depth, overload, numbers and what was seen before.
pub proof fn goals_are_expected_up_the_pitch<
    P: Fn(Real64, Real64) -> Real64,
    M: Fn(Real64, Real64) -> Real64,
>(
    means: spec_fn(Real64, real) -> bool,
    plus: P,
    times: M,
    i: ObjectiveInputs,
    defending: bool,
    depth: real,
    overload: real,
    numbers: real,
    lead: real,
)
    requires
        is_faithful(means, plus, times),
        means(i.attacking_depth, depth),
        means(i.overload, overload),
        means(i.numbers, numbers),
        means(i.embedding_attack, lead),
    ensures
        means(
            situation_weights(plus, times, i, true, defending).expected_goal,
            bounded(
                depth * (31real / 50real) + overload * (9real / 50real) + numbers
                    * (2real / 25real) + lead * (3real / 25real),
                0real,
                1real,
            ),
        ),
{
    decimals_are_read(means);
    let terms = seq![
        (i.attacking_depth, D0_62),
        (i.overload, D0_18),
        (i.numbers, D0_08),
        (i.embedding_attack, D0_12),
    ];
    let x = seq![depth, overload, numbers, lead];
    let c = seq![(31real / 50real), (9real / 50real), (2real / 25real), (3real / 25real)];
    reveal_with_fuel(weighted_sum, 5);
    mixtures_are_weighted_sums(means, plus, times, terms, x, c);
    assert(weighted_sum(x, c, 4) == depth * (31real / 50real) + overload * (9real / 50real)
        + numbers * (2real / 25real) + lead * (3real / 25real));
}

/// With the ball, progress counts by depth, by how readily the team passes and carries, and by how
/// settled it is.
pub proof fn progress_counts_with_the_ball<
    P: Fn(Real64, Real64) -> Real64,
    M: Fn(Real64, Real64) -> Real64,
>(
    means: spec_fn(Real64, real) -> bool,
    plus: P,
    times: M,
    i: ObjectiveInputs,
    defending: bool,
    depth: real,
    passes: real,
    carries: real,
    settled: real,
    lead: real,
)
    requires
        is_faithful(means, plus, times),
        means(i.attacking_depth, depth),
        means(i.pass_priority, passes),
        means(i.carry_priority, carries),
        means(i.settled, settled),
        means(i.embedding_attack, lead),
    ensures
        means(
            situation_weights(plus, times, i, true, defending).progression,
            bounded(
                depth * (12real / 25real) + passes * (3real / 20real) + carries
                    * (11real / 100real) + settled * (4real / 25real) + lead * (1real / 10real),
                0real,
                1real,
            ),
        ),
{
    decimals_are_read(means);
    let terms = seq![
        (i.attacking_depth, D0_48),
        (i.pass_priority, D0_15),
        (i.carry_priority, D0_11),
        (i.settled, D0_16),
        (i.embedding_attack, D0_1),
    ];
    let x = seq![depth, passes, carries, settled, lead];
    let c = seq![
        (12real / 25real),
        (3real / 20real),
        (11real / 100real),
        (4real / 25real),
        (1real / 10real),
    ];
    reveal_with_fuel(weighted_sum, 6);
    mixtures_are_weighted_sums(means, plus, times, terms, x, c);
    assert(weighted_sum(x, c, 5) == depth * (12real / 25real) + passes * (3real / 20real)
        + carries * (11real / 100real) + settled * (4real / 25real) + lead * (1real / 10real));
}

/// Against the ball, goals against are expected by the danger, the pressure in the centre and the
/// missing cover.
pub proof fn danger_counts_against_the_ball<
    P: Fn(Real64, Real64) -> Real64,
    M: Fn(Real64, Real64) -> Real64,
>(
    means: spec_fn(Real64, real) -> bool,
    plus: P,
    times: M,
    i: ObjectiveInputs,
    defending: bool,
    danger: real,
    central: real,
    cover: real,
    fear: real,
)
    requires
        is_faithful(means, plus, times),
        means(i.own_goal_danger, danger),
        means(i.central_pressure, central),
        means(i.rest_defense, cover),
        means(i.embedding_defense, fear),
    ensures
        means(
            situation_weights(plus, times, i, false, defending).expected_goals_against,
            bounded(
                danger * (16real / 25real) + central * (17real / 100real) + (1real - cover)
                    * (9real / 100real) + fear * (1real / 10real),
                0real,
                1real,
            ),
        ),
{
    decimals_are_read(means);
    assert(1real + -cover == 1real - cover);
    let terms = seq![
        (i.own_goal_danger, D0_64),
        (i.central_pressure, D0_17),
        (rest_of(plus, i.rest_defense), D0_09),
        (i.embedding_defense, D0_1),
    ];
    let x = seq![danger, central, 1real - cover, fear];
    let c = seq![(16real / 25real), (17real / 100real), (9real / 100real), (1real / 10real)];
    reveal_with_fuel(weighted_sum, 5);
    mixtures_are_weighted_sums(means, plus, times, terms, x, c);
    assert(weighted_sum(x, c, 4) == danger * (16real / 25real) + central * (17real / 100real)
        + (1real - cover) * (9real / 100real) + fear * (1real / 10real));
}

/// With the ball, goals against are expected by the missing cover most of all.
pub proof fn cover_counts_with_the_ball<
    P: Fn(Real64, Real64) -> Real64,
    M: Fn(Real64, Real64) -> Real64,
>(
    means: spec_fn(Real64, real) -> bool,
    plus: P,
    times: M,
    i: ObjectiveInputs,
    defending: bool,
    cover: real,
    danger: real,
    fear: real,
)
    requires
        is_faithful(means, plus, times),
        means(i.rest_defense, cover),
        means(i.own_goal_danger, danger),
        means(i.embedding_defense, fear),
    ensures
        means(
            situation_weights(plus, times, i, true, defending).expected_goals_against,
            bounded(
                (1real - cover) * (9real / 25real) + danger * (11real / 50real) + fear
                    * (3real / 25real),
                0real,
                1real,
            ),
        ),
{
    decimals_are_read(means);
    assert(1real + -cover == 1real - cover);
    let terms = seq![
        (rest_of(plus, i.rest_defense), D0_36),
        (i.own_goal_danger, D0_22),
        (i.embedding_defense, D0_12),
    ];
    let x = seq![1real - cover, danger, fear];
    let c = seq![(9real / 25real), (11real / 50real), (3real / 25real)];
    reveal_with_fuel(weighted_sum, 4);
    mixtures_are_weighted_sums(means, plus, times, terms, x, c);
    assert(weighted_sum(x, c, 3) == (1real - cover) * (9real / 25real) + danger
        * (11real / 50real) + fear * (3real / 25real));
}

/// With the ball, passing lanes are good by the width used, by who is near, and by how little
/// pressure there is.
pub proof fn lanes_open_with_width<
    P: Fn(Real64, Real64) -> Real64,
    M: Fn(Real64, Real64) -> Real64,
>(
    means: spec_fn(Real64, real) -> bool,
    plus: P,
    times: M,
    i: ObjectiveInputs,
    defending: bool,
    width: real,
    near: real,
    pressure: real,
    overload: real,
    lead: real,
)
    requires
        is_faithful(means, plus, times),
        means(i.field_width_usage, width),
        means(i.near_ball, near),
        means(i.holder_pressure, pressure),
        means(i.overload, overload),
        means(i.embedding_attack, lead),
    ensures
        means(
            situation_weights(plus, times, i, true, defending).passing_lane_quality,
            bounded(
                width * (19real / 50real) + near * (6real / 25real) + (1real - pressure)
                    * (1real / 5real) + overload * (3real / 25real) + lead * (3real / 50real),
                0real,
                1real,
            ),
        ),
{
    decimals_are_read(means);
    assert(1real + -pressure == 1real - pressure);
    let terms = seq![
        (i.field_width_usage, D0_38),
        (i.near_ball, D0_24),
        (rest_of(plus, i.holder_pressure), D0_2),
        (i.overload, D0_12),
        (i.embedding_attack, D0_06),
    ];
    let x = seq![width, near, 1real - pressure, overload, lead];
    let c = seq![
        (19real / 50real),
        (6real / 25real),
        (1real / 5real),
        (3real / 25real),
        (3real / 50real),
    ];
    reveal_with_fuel(weighted_sum, 6);
    mixtures_are_weighted_sums(means, plus, times, terms, x, c);
    assert(weighted_sum(x, c, 5) == width * (19real / 50real) + near * (6real / 25real)
        + (1real - pressure) * (1real / 5real) + overload * (3real / 25real) + lead * (3real / 50real));
}

/// Space is held by the width used, the spread, and how settled the team is.
pub proof fn space_is_held_by_width<
    P: Fn(Real64, Real64) -> Real64,
    M: Fn(Real64, Real64) -> Real64,
>(
    means: spec_fn(Real64, real) -> bool,
    plus: P,
    times: M,
    i: ObjectiveInputs,
    has_ball: bool,
    defending: bool,
    width: real,
    narrow: real,
    settled: real,
    lead: real,
)
    requires
        is_faithful(means, plus, times),
        means(i.field_width_usage, width),
        means(i.spread_narrow, narrow),
        means(i.settled, settled),
        means(i.embedding_attack, lead),
    ensures
        means(
            situation_weights(plus, times, i, has_ball, defending).space_occupation,
            bounded(
                width * (21real / 50real) + narrow * (3real / 10real) + settled * (6real / 25real)
                    + lead * (1real / 25real),
                0real,
                1real,
            ),
        ),
{
    decimals_are_read(means);
    let terms = seq![
        (i.field_width_usage, D0_42),
        (i.spread_narrow, D0_3),
        (i.settled, D0_24),
        (i.embedding_attack, D0_04),
    ];
    let x = seq![width, narrow, settled, lead];
    let c = seq![(21real / 50real), (3real / 10real), (6real / 25real), (1real / 25real)];
    reveal_with_fuel(weighted_sum, 5);
    mixtures_are_weighted_sums(means, plus, times, terms, x, c);
    assert(weighted_sum(x, c, 4) == width * (21real / 50real) + narrow * (3real / 10real)
        + settled * (6real / 25real) + lead * (1real / 25real));
}

/// Against the ball, being compact counts by how close together the team is, by pressing, and by
/// the opponents around.
pub proof fn teams_close_up_against_the_ball<
    P: Fn(Real64, Real64) -> Real64,
    M: Fn(Real64, Real64) -> Real64,
>(
    means: spec_fn(Real64, real) -> bool,
    plus: P,
    times: M,
    i: ObjectiveInputs,
    defending: bool,
    wide: real,
    press: real,
    foes: real,
    fear: real,
)
    requires
        is_faithful(means, plus, times),
        means(i.spread_wide, wide),
        means(i.press_intensity, press),
        means(i.opponents_near, foes),
        means(i.embedding_defense, fear),
    ensures
        means(
            situation_weights(plus, times, i, false, defending).defensive_compactness,
            bounded(
                (1real - wide) * (29real / 50real) + press * (11real / 50real) + foes
                    * (4real / 25real) + fear * (1real / 25real),
                0real,
                1real,
            ),
        ),
{
    decimals_are_read(means);
    assert(1real + -wide == 1real - wide);
    let terms = seq![
        (rest_of(plus, i.spread_wide), D0_58),
        (i.press_intensity, D0_22),
        (i.opponents_near, D0_16),
        (i.embedding_defense, D0_04),
    ];
    let x = seq![1real - wide, press, foes, fear];
    let c = seq![(29real / 50real), (11real / 50real), (4real / 25real), (1real / 25real)];
    reveal_with_fuel(weighted_sum, 5);
    mixtures_are_weighted_sums(means, plus, times, terms, x, c);
    assert(weighted_sum(x, c, 4) == (1real - wide) * (29real / 50real) + press * (11real / 50real)
        + foes * (4real / 25real) + fear * (1real / 25real));
}

/// With the ball, being compact counts by the cover.
pub proof fn teams_stay_compact_with_the_ball<
    P: Fn(Real64, Real64) -> Real64,
    M: Fn(Real64, Real64) -> Real64,
>(
    means: spec_fn(Real64, real) -> bool,
    plus: P,
    times: M,
    i: ObjectiveInputs,
    defending: bool,
    cover: real,
    fear: real,
)
    requires
        is_faithful(means, plus, times),
        means(i.rest_defense, cover),
        means(i.embedding_defense, fear),
    ensures
        means(
            situation_weights(plus, times, i, true, defending).defensive_compactness,
            bounded(
                cover * (12real / 25real) + fear * (1real / 10real),
                0real,
                1real,
            ),
        ),
{
    decimals_are_read(means);
    let terms = seq![(i.rest_defense, D0_48), (i.embedding_defense, D0_1)];
    let x = seq![cover, fear];
    let c = seq![(12real / 25real), (1real / 10real)];
    reveal_with_fuel(weighted_sum, 3);
    mixtures_are_weighted_sums(means, plus, times, terms, x, c);
    assert(weighted_sum(x, c, 2) == cover * (12real / 25real) + fear * (1real / 10real));
}

/// While defending, the opponents progress by the danger, the depth and the pressure.
pub proof fn opponents_progress_by_the_danger<
    P: Fn(Real64, Real64) -> Real64,
    M: Fn(Real64, Real64) -> Real64,
>(
    means: spec_fn(Real64, real) -> bool,
    plus: P,
    times: M,
    i: ObjectiveInputs,
    has_ball: bool,
    danger: real,
    depth: real,
    pressure: real,
    fear: real,
)
    requires
        is_faithful(means, plus, times),
        means(i.own_goal_danger, danger),
        means(i.attacking_depth, depth),
        means(i.holder_pressure, pressure),
        means(i.embedding_defense, fear),
    ensures
        means(
            situation_weights(plus, times, i, has_ball, true).opponent_progression,
            bounded(
                danger * (57real / 100real) + depth * (11real / 100real) + pressure
                    * (1real / 5real) + fear * (3real / 25real),
                0real,
                1real,
            ),
        ),
{
    decimals_are_read(means);
    let terms = seq![
        (i.own_goal_danger, D0_57),
        (i.attacking_depth, D0_11),
        (i.holder_pressure, D0_2),
        (i.embedding_defense, D0_12),
    ];
    let x = seq![danger, depth, pressure, fear];
    let c = seq![(57real / 100real), (11real / 100real), (1real / 5real), (3real / 25real)];
    reveal_with_fuel(weighted_sum, 5);
    mixtures_are_weighted_sums(means, plus, times, terms, x, c);
    assert(weighted_sum(x, c, 4) == danger * (57real / 100real) + depth * (11real / 100real)
        + pressure * (1real / 5real) + fear * (3real / 25real));
}

/// With the ball, losing it is a risk by the missing cover, the pressure and the depth.
pub proof fn losing_the_ball_is_a_risk<
    P: Fn(Real64, Real64) -> Real64,
    M: Fn(Real64, Real64) -> Real64,
>(
    means: spec_fn(Real64, real) -> bool,
    plus: P,
    times: M,
    i: ObjectiveInputs,
    defending: bool,
    cover: real,
    pressure: real,
    depth: real,
    fear: real,
)
    requires
        is_faithful(means, plus, times),
        means(i.rest_defense, cover),
        means(i.holder_pressure, pressure),
        means(i.attacking_depth, depth),
        means(i.embedding_defense, fear),
    ensures
        means(
            situation_weights(plus, times, i, true, defending).transition_risk,
            bounded(
                (1real - cover) * (12real / 25real) + pressure * (27real / 100real) + depth
                    * (13real / 100real) + fear * (3real / 25real),
                0real,
                1real,
            ),
        ),
{
    decimals_are_read(means);
    assert(1real + -cover == 1real - cover);
    let terms = seq![
        (rest_of(plus, i.rest_defense), D0_48),
        (i.holder_pressure, D0_27),
        (i.attacking_depth, D0_13),
        (i.embedding_defense, D0_12),
    ];
    let x = seq![1real - cover, pressure, depth, fear];
    let c = seq![(12real / 25real), (27real / 100real), (13real / 100real), (3real / 25real)];
    reveal_with_fuel(weighted_sum, 5);
    mixtures_are_weighted_sums(means, plus, times, terms, x, c);
    assert(weighted_sum(x, c, 4) == (1real - cover) * (12real / 25real) + pressure
        * (27real / 100real) + depth * (13real / 100real) + fear * (3real / 25real));
}

/// Against the ball, the risk is the danger.
pub proof fn danger_is_the_risk_without_the_ball<
    P: Fn(Real64, Real64) -> Real64,
    M: Fn(Real64, Real64) -> Real64,
>(
    means: spec_fn(Real64, real) -> bool,
    plus: P,
    times: M,
    i: ObjectiveInputs,
    defending: bool,
    danger: real,
    fear: real,
)
    requires
        is_faithful(means, plus, times),
        means(i.own_goal_danger, danger),
        means(i.embedding_defense, fear),
    ensures
        means(
            situation_weights(plus, times, i, false, defending).transition_risk,
            bounded(
                danger * (22real / 25real) + fear * (3real / 25real),
                0real,
                1real,
            ),
        ),
{
    decimals_are_read(means);
    let terms = seq![(i.own_goal_danger, D0_88), (i.embedding_defense, D0_12)];
    let x = seq![danger, fear];
    let c = seq![(22real / 25real), (3real / 25real)];
    reveal_with_fuel(weighted_sum, 3);
    mixtures_are_weighted_sums(means, plus, times, terms, x, c);
    assert(weighted_sum(x, c, 2) == danger * (22real / 25real) + fear * (3real / 25real));
}

/// With the ball it is kept by 1 less 0.65 of the pressure, more by how settled the team is and how
/// well it is covered; and it resists by what the pressure leaves. What does not apply counts
/// nothing, but for the 0.12 that keeping the ball counts without it.
pub proof fn pressure_costs_retention<
    P: Fn(Real64, Real64) -> Real64,
    M: Fn(Real64, Real64) -> Real64,
>(
    means: spec_fn(Real64, real) -> bool,
    plus: P,
    times: M,
    i: ObjectiveInputs,
    defending: bool,
    pressure: real,
    settled: real,
    cover: real,
    fear: real,
)
    requires
        is_faithful(means, plus, times),
        means(i.holder_pressure, pressure),
        means(i.settled, settled),
        means(i.rest_defense, cover),
        means(i.embedding_defense, fear),
    ensures
        ({
            let own = situation_weights(plus, times, i, true, defending);
            let off = situation_weights(plus, times, i, false, defending);
            &&& means(
                own.retention,
                bounded(
                    1real - pressure * (13real / 20real) + settled * (9real / 50real) + cover
                        * (13real / 100real) + fear * (1real / 25real),
                    0real,
                    1real,
                ),
            )
            &&& means(own.press_resistance, bounded(1real - pressure, 0real, 1real))
            &&& means(off.retention, (3real / 25real))
            &&& means(off.expected_goal, 0real) && means(off.progression, 0real)
            &&& means(off.passing_lane_quality, 0real) && means(off.press_resistance, 0real)
            &&& means(situation_weights(plus, times, i, true, false).opponent_progression, 0real)
            &&& own.fatigue == i.fatigue && own.numerical_superiority == i.numbers
            &&& own.neural_attack == i.neural_attack && own.neural_defense == i.neural_defense
            &&& own.adversarial_embedding_attack == i.embedding_attack
            &&& own.adversarial_embedding_defense == i.embedding_defense
        }),
{
    decimals_are_read(means);
    assert(1real + -pressure == 1real - pressure);
    let p = pressure * (13real / 20real);
    assert(1real + -p == 1real - p);
    let first = outcome(plus, num(D1), outcome(times, i.holder_pressure, num(D0_65)).negated());
    assert(means(first, 1real - p));
    let terms = seq![(i.settled, D0_18), (i.rest_defense, D0_13), (i.embedding_defense, D0_04)];
    let x = seq![settled, cover, fear];
    let c = seq![(9real / 50real), (13real / 100real), (1real / 25real)];
    reveal_with_fuel(weighted_sum, 4);
    weighing_adds_the_terms(means, plus, times, first, terms, 1real - p, x, c, 3);
    assert(1real - p + weighted_sum(x, c, 3) == 1real - p + settled * (9real / 50real) + cover * (13real / 100real) + fear
        * (1real / 25real));
}

/// A list of factors raises an objective.
pub open spec fn raises(factors: Seq<(ObjectiveTerm, u64)>, term: ObjectiveTerm, i: int) -> bool {
    &&& 0 <= i < factors.len()
    &&& factors[i].0 == term
    &&& num(D1).less(num(factors[i].1))
}

/// A list of factors lowers an objective.
pub open spec fn lowers(factors: Seq<(ObjectiveTerm, u64)>, term: ObjectiveTerm, i: int) -> bool {
    &&& 0 <= i < factors.len()
    &&& factors[i].0 == term
    &&& num(factors[i].1).less(num(D1))
}

/// Pressing plays seek the ball and bear the running: they raise the weight of stopping the
/// opponents, of resisting the press and of numbers, most of all the first, and lower those of
/// compactness and of fatigue. Blocks raise compactness, goals against, stopping and fatigue, most
/// of all the first, and lower progression. Traps raise compactness and stopping.
pub proof fn presses_seek_the_ball_and_blocks_close(attack: TeamAttackStrategy, has_ball: bool)
    ensures
        ({
            let press = profile(
                TeamDefenseStrategy::HighPressManOriented,
                attack,
                has_ball,
                true,
            );
            let block = profile(TeamDefenseStrategy::LowBlockCompact, attack, has_ball, true);
            let trap = profile(TeamDefenseStrategy::OffsideTrapStepUp, attack, has_ball, true);
            let same = |d: TeamDefenseStrategy| profile(d, attack, has_ball, true);
            &&& raises(press, ObjectiveTerm::OpponentProgression, 0)
            &&& raises(press, ObjectiveTerm::PressResistance, 1)
            &&& raises(press, ObjectiveTerm::NumericalSuperiority, 2)
            &&& lowers(press, ObjectiveTerm::DefensiveCompactness, 3)
            &&& lowers(press, ObjectiveTerm::Fatigue, 4)
            &&& num(press[2].1).less(num(press[1].1)) && num(press[1].1).less(num(press[0].1))
            &&& raises(block, ObjectiveTerm::DefensiveCompactness, 0)
            &&& raises(block, ObjectiveTerm::ExpectedGoalsAgainst, 1)
            &&& raises(block, ObjectiveTerm::OpponentProgression, 2)
            &&& lowers(block, ObjectiveTerm::Progression, 3)
            &&& raises(block, ObjectiveTerm::Fatigue, 4)
            &&& num(block[2].1).less(num(block[1].1)) && num(block[1].1).less(num(block[0].1))
            &&& raises(trap, ObjectiveTerm::DefensiveCompactness, 0)
            &&& raises(trap, ObjectiveTerm::OpponentProgression, 1)
            &&& same(TeamDefenseStrategy::CounterPressGegenpress) == press
            &&& same(TeamDefenseStrategy::LowBlockParkBus) == block
            &&& same(TeamDefenseStrategy::ForceWideLeftTrap) == same(
                TeamDefenseStrategy::ForceWideRightTrap,
            )
        }),
{
}

/// With the ball, direct plays raise progression and goals and lower retention; patient ones raise
/// retention, lanes and the risk of a transition; playing backwards does so the more and lowers
/// progression; overloads raise numbers and space, and wide plays space and goals. The left and the
/// right of a play shift the same.
pub proof fn direct_plays_progress_and_patient_ones_retain(defense: TeamDefenseStrategy)
    ensures
        ({
            let play = |a: TeamAttackStrategy| profile(defense, a, true, false);
            let direct = play(TeamAttackStrategy::CounterTransitionVertical);
            let patient = play(TeamAttackStrategy::PatientPossessionProbe);
            let back = play(TeamAttackStrategy::PlayBackwardsToGoad);
            let overload = play(TeamAttackStrategy::OverloadLeftIsolateRight);
            let wide = play(TeamAttackStrategy::WingOverlapLeftCross);
            &&& raises(direct, ObjectiveTerm::Progression, 0)
            &&& raises(direct, ObjectiveTerm::ExpectedGoal, 1)
            &&& lowers(direct, ObjectiveTerm::Retention, 2)
            &&& raises(patient, ObjectiveTerm::Retention, 0)
            &&& raises(patient, ObjectiveTerm::PassingLaneQuality, 1)
            &&& raises(patient, ObjectiveTerm::TransitionRisk, 2)
            &&& raises(back, ObjectiveTerm::Retention, 0)
            &&& lowers(back, ObjectiveTerm::Progression, 2)
            &&& raises(back, ObjectiveTerm::TransitionRisk, 3)
            &&& num(patient[0].1).less(num(back[0].1)) && num(patient[1].1).less(num(back[1].1))
            &&& num(patient[2].1).less(num(back[3].1))
            &&& raises(overload, ObjectiveTerm::NumericalSuperiority, 0)
            &&& raises(overload, ObjectiveTerm::SpaceOccupation, 1)
            &&& raises(wide, ObjectiveTerm::SpaceOccupation, 0)
            &&& raises(wide, ObjectiveTerm::ExpectedGoal, 1)
            &&& play(TeamAttackStrategy::OverloadRightIsolateLeft) == overload
            &&& play(TeamAttackStrategy::WingOverlapRightCross) == wide
            &&& play(TeamAttackStrategy::UnderlapLeftCutback) == play(
                TeamAttackStrategy::UnderlapRightCutback,
            )
            &&& play(TeamAttackStrategy::DirectLongDiagonalLeft) == play(
                TeamAttackStrategy::DirectLongDiagonalRight,
            )
            &&& play(TeamAttackStrategy::PullWideLeftThenCenter) == play(
                TeamAttackStrategy::PullWideRightThenCenter,
            )
        }),
{
}

} // verus!
