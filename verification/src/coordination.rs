//! The coordination of both teams through a tick: phase, commitments, formation, record.
use crate::central::{
    apply_formation_lp_directive_signal, assigns, classify_phase, controller_assignments,
    controller_keys, fed_back, phase_of, CentralBrainDecisionTrace, CentralBrainTeamShapeTrace,
    ControlledPlayer, ControllerAssignment, SoccerNeuralFormationIntent, TeamStrategyCommitment,
    TeamTacticalDirective,
};
use crate::commitment::{
    apply_strategy_commitment, is_committed, CommitmentConstants, CommitmentSituation,
    StrategyValues,
};
use crate::decimals::{D0, D0_32, D0_45, D0_55, D0_68};
use crate::formation::brain::{SoccerFormationLpBrain, SolveTelemetry};
use crate::formation::guidance::{
    SoccerFormationLpPlayerGuidance, SoccerFormationLpTeamSnapshot,
};
use crate::formation::slots::measured;
use crate::meaning::{decimals_are_read, reads_decimals, reads_order, reads_products, reads_signs};
use crate::number::{apply, at_bits, is_conversion, is_operation, num, outcome, Real64};
use crate::order::is_ranking;
use crate::pitch::{TacticalPhase, Team, Vec2};
use crate::strategy::TeamAttackStrategy;
use vstd::prelude::*;
use vstd::string::*;

verus! {

/// What a tick begins with: who has the ball, where it is, and how it stands.
#[derive(Clone, Copy, Debug)]
pub struct StepOpening {
    pub tick: u64,
    pub possession_team: Option<Team>,
    pub ball: Vec2,
    pub field_width: Real64,
    pub field_length: Real64,
    pub score_home: usize,
    pub score_away: usize,
}

impl StepOpening {
    /// The phase that the ball and who has it tell.
    pub open spec fn phase<M: Fn(Real64, Real64) -> Real64>(self, times: M) -> TacticalPhase {
        phase_of(
            self.possession_team,
            self.ball.y,
            outcome(times, self.field_length, num(D0_68)),
            outcome(times, self.field_length, num(D0_32)),
            self.tick,
        )
    }

    /// The scores can be taken from one another.
    pub open spec fn scores_fit(self) -> bool {
        self.score_home <= i32::MAX && self.score_away <= i32::MAX
    }
}

/// How many defend against how many attackers.
#[derive(Clone, Copy, Debug, PartialEq, Eq, Structural)]
pub struct DefensiveCoverProfile {
    pub target: usize,
    pub actual: usize,
    pub foremost_attacker_y: Option<Real64>,
}

impl Default for DefensiveCoverProfile {
    fn default() -> (r: Self)
        ensures
            r == (DefensiveCoverProfile { target: 2, actual: 2, foremost_attacker_y: None }),
    {
        DefensiveCoverProfile { target: 2, actual: 2, foremost_attacker_y: None }
    }
}

/// How many attack against how many defenders.
#[derive(Clone, Copy, Debug, PartialEq, Eq, Structural)]
pub struct AttackingOverloadProfile {
    pub attackers: usize,
    pub defenders: usize,
    pub advantage: i32,
    pub score: Real64,
}

impl Default for AttackingOverloadProfile {
    fn default() -> (r: Self)
        ensures
            r == (AttackingOverloadProfile {
                attackers: 0,
                defenders: 0,
                advantage: 0,
                score: Real64 { bits: 0 },
            }),
    {
        AttackingOverloadProfile {
            attackers: 0,
            defenders: 0,
            advantage: 0,
            score: Real64 { bits: 0 },
        }
    }
}

/// What the rule that proposes a team's directive is asked.
#[derive(Clone, Copy, Debug, PartialEq, Eq, Structural)]
pub struct DirectiveQuestion {
    pub team: Team,
    pub phase: TacticalPhase,
    pub possession_team: Option<Team>,
    pub ball: Vec2,
    /// By how many goals the team is ahead.
    pub score_diff: i32,
    pub field_width: Real64,
    pub field_length: Real64,
    pub cover: DefensiveCoverProfile,
    pub overload: AttackingOverloadProfile,
}

/// By how many goals a team is ahead.
pub open spec fn lead_of(opening: StepOpening, team: Team) -> int {
    match team {
        Team::Home => opening.score_home - opening.score_away,
        Team::Away => opening.score_away - opening.score_home,
    }
}

/// What is asked for a team in a phase.
pub open spec fn question_for(
    opening: StepOpening,
    phase: TacticalPhase,
    team: Team,
    cover: DefensiveCoverProfile,
    overload: AttackingOverloadProfile,
) -> DirectiveQuestion {
    DirectiveQuestion {
        team,
        phase,
        possession_team: opening.possession_team,
        ball: opening.ball,
        score_diff: lead_of(opening, team) as i32,
        field_width: opening.field_width,
        field_length: opening.field_length,
        cover,
        overload,
    }
}

/// Asks for a team's directive: by the phase, the ball, the score as the team sees it, the pitch,
/// and the team's cover and overload.
pub fn directive_question(
    opening: &StepOpening,
    phase: TacticalPhase,
    team: Team,
    cover: DefensiveCoverProfile,
    overload: AttackingOverloadProfile,
) -> (r: DirectiveQuestion)
    requires
        opening.scores_fit(),
    ensures
        r == question_for(*opening, phase, team, cover, overload),
        r.score_diff == lead_of(*opening, team),
{
    let ahead: i32 = opening.score_home as i32 - opening.score_away as i32;
    let score_diff: i32 = match team {
        Team::Home => ahead,
        Team::Away => -ahead,
    };
    DirectiveQuestion {
        team,
        phase,
        possession_team: opening.possession_team,
        ball: opening.ball,
        score_diff,
        field_width: opening.field_width,
        field_length: opening.field_length,
        cover,
        overload,
    }
}

/// What one team leads by, the other trails by, and both are asked about the same phase and ball.
pub proof fn questions_are_opposed(
    opening: StepOpening,
    phase: TacticalPhase,
    cover: DefensiveCoverProfile,
    overload: AttackingOverloadProfile,
)
    requires
        opening.scores_fit(),
    ensures
        ({
            let home = question_for(opening, phase, Team::Home, cover, overload);
            let away = question_for(opening, phase, Team::Away, cover, overload);
            &&& home.score_diff == -away.score_diff
            &&& away == (DirectiveQuestion {
                team: Team::Away,
                score_diff: away.score_diff,
                ..home
            })
        }),
{
}

/// What a tick ends with.
#[derive(Clone, Copy, Debug)]
pub struct StepClosing {
    pub tick: u64,
    pub ball_holder: Option<usize>,
    pub ball_position: Vec2,
    pub ball_velocity: Vec2,
    pub ball_acceleration: Vec2,
    pub ball_jerk: Vec2,
    pub ball_altitude_yards: Real64,
    pub ball_scheduled_index: Option<usize>,
    pub home_shape: CentralBrainTeamShapeTrace,
    pub away_shape: CentralBrainTeamShapeTrace,
    pub tracked_players: usize,
    pub tracked_officials: usize,
}

/// The directive that a team's solved guidance has been fed back into.
pub open spec fn directive_after_feedback<
    P: Fn(Real64, Real64) -> Real64,
    M: Fn(Real64, Real64) -> Real64,
    Q: Fn(Real64, Real64) -> Real64,
    C: Fn(usize) -> Real64,
>(
    plus: P,
    times: M,
    over: Q,
    count: C,
    directive: TeamTacticalDirective,
    brain: SoccerFormationLpBrain,
) -> TeamTacticalDirective {
    let guidance = brain.last_guidance@;
    if brain.last_snapshot.status@ == "optimal"@ && measured(guidance, guidance.len() as int).len()
        > 0 {
        fed_back(plus, times, over, count, directive, guidance)
    } else {
        directive
    }
}

/// A player as the coordination keeps track of it.
#[derive(Clone, Copy, Debug, PartialEq, Eq, Structural)]
pub struct CentralBrainPlayerAwareness {
    pub id: usize,
    pub team: Team,
    pub position: Vec2,
    pub velocity: Vec2,
    pub acceleration: Vec2,
    pub scheduled_index: Option<usize>,
    pub controller_slot: Option<usize>,
}

/// What a snapshot of the coordination reads of the match.
#[derive(Debug)]
pub struct SnapshotReadings {
    pub scheduled_index: Option<usize>,
    /// Who has the ball, where the coordination does not know.
    pub possession_team: Option<Team>,
    pub ball_position: Vec2,
    pub ball_velocity: Vec2,
    pub ball_acceleration: Vec2,
    pub ball_jerk: Vec2,
    pub ball_altitude_yards: Real64,
    pub ball_holder: Option<usize>,
    pub ball_scheduled_index: Option<usize>,
    pub ball_last_action: Option<String>,
    pub player_centroid: Vec2,
    pub live_play_centroid: Vec2,
    pub center_of_play: Vec2,
    pub tracked_players: Vec<CentralBrainPlayerAwareness>,
    pub tracked_officials: usize,
}

/// The coordination as others see it.
#[derive(Debug)]
pub struct CentralBrainSnapshot<'a> {
    pub readings: SnapshotReadings,
    pub phase: TacticalPhase,
    pub possession_team: Option<Team>,
    pub last_decision: Option<&'a CentralBrainDecisionTrace>,
    pub pressure_line_home: Real64,
    pub pressure_line_away: Real64,
    pub controlled_human_players: usize,
    pub controller_assignments: Vec<ControllerAssignment>,
}

/// Per-match coordination of both teams.
#[derive(Debug)]
pub struct CentralBrain {
    pub phase: TacticalPhase,
    pub possession_team: Option<Team>,
    pub pressure_line_home: Real64,
    pub pressure_line_away: Real64,
    pub home_directive: TeamTacticalDirective,
    pub away_directive: TeamTacticalDirective,
    pub home_strategy_commitment: TeamStrategyCommitment,
    pub away_strategy_commitment: TeamStrategyCommitment,
    /// What the home team has learned of its maneuvers.
    pub home_attack_value: StrategyValues,
    /// What the away team has learned of its maneuvers.
    pub away_attack_value: StrategyValues,
    pub last_decision: Option<CentralBrainDecisionTrace>,
    pub home_formation_lp: SoccerFormationLpBrain,
    pub away_formation_lp: SoccerFormationLpBrain,
    pub neural_formation_intent: SoccerNeuralFormationIntent,
}

impl CentralBrain {
    /// Coordination before the kickoff, on a pitch of the usual size. `max_iter` limits the
    /// iterations of a formation solve.
    pub fn kickoff<M: Fn(Real64, Real64) -> Real64>(
        field_width: Real64,
        field_length: Real64,
        max_iter: usize,
        times: &M,
    ) -> (r: CentralBrain)
        requires
            is_operation(*times),
        ensures
            r.phase == TacticalPhase::Kickoff,
            r.possession_team is None,
            r.pressure_line_home == outcome(*times, field_length, num(D0_55)),
            r.pressure_line_away == outcome(*times, field_length, num(D0_45)),
            r.home_directive == TeamTacticalDirective::neutral_for(
                *times,
                Team::Home,
                field_width,
                field_length,
            ),
            r.away_directive == TeamTacticalDirective::neutral_for(
                *times,
                Team::Away,
                field_width,
                field_length,
            ),
            r.home_strategy_commitment == TeamStrategyCommitment::unset(),
            r.away_strategy_commitment == TeamStrategyCommitment::unset(),
            forall|c: u8, s: TeamAttackStrategy| #[trigger]
                r.home_attack_value.learned(c, s) == num(D0),
            forall|c: u8, s: TeamAttackStrategy| #[trigger]
                r.away_attack_value.learned(c, s) == num(D0),
            r.last_decision is None,
            r.home_formation_lp.well_formed(),
            r.home_formation_lp.team == Team::Home,
            r.home_formation_lp.last_guidance@.len() == 0,
            r.home_formation_lp.telemetry == SolveTelemetry::fresh(max_iter),
            r.away_formation_lp.well_formed(),
            r.away_formation_lp.team == Team::Away,
            r.away_formation_lp.last_guidance@.len() == 0,
            r.away_formation_lp.telemetry == SolveTelemetry::fresh(max_iter),
            r.neural_formation_intent == (SoccerNeuralFormationIntent {
                home_attack: num(D0),
                home_defense: num(D0),
                away_attack: num(D0),
                away_defense: num(D0),
            }),
    {
        let nothing: Real64 = at_bits(D0);
        CentralBrain {
            phase: TacticalPhase::Kickoff,
            possession_team: None,
            pressure_line_home: apply(times, field_length, at_bits(D0_55)),
            pressure_line_away: apply(times, field_length, at_bits(D0_45)),
            home_directive: TeamTacticalDirective::neutral(
                Team::Home,
                field_width,
                field_length,
                times,
            ),
            away_directive: TeamTacticalDirective::neutral(
                Team::Away,
                field_width,
                field_length,
                times,
            ),
            home_strategy_commitment: TeamStrategyCommitment::default(),
            away_strategy_commitment: TeamStrategyCommitment::default(),
            home_attack_value: StrategyValues::new(),
            away_attack_value: StrategyValues::new(),
            last_decision: None,
            home_formation_lp: SoccerFormationLpBrain::new(
                Team::Home,
                field_width,
                field_length,
                max_iter,
            ),
            away_formation_lp: SoccerFormationLpBrain::new(
                Team::Away,
                field_width,
                field_length,
                max_iter,
            ),
            neural_formation_intent: SoccerNeuralFormationIntent {
                home_attack: nothing,
                home_defense: nothing,
                away_attack: nothing,
                away_defense: nothing,
            },
        }
    }

    /// After the opening of a tick.
    pub open spec fn opened<M: Fn(Real64, Real64) -> Real64>(
        self,
        opening: StepOpening,
        home_directive: TeamTacticalDirective,
        away_directive: TeamTacticalDirective,
        times: M,
    ) -> Self {
        CentralBrain {
            possession_team: opening.possession_team,
            phase: opening.phase(times),
            home_directive,
            away_directive,
            ..self
        }
    }

    /// Opens a tick: possession, phase, and the directives that the rule proposes in that phase.
    pub fn open_time_step<
        M: Fn(Real64, Real64) -> Real64,
        G: Fn(DirectiveQuestion) -> TeamTacticalDirective,
    >(
        &mut self,
        opening: &StepOpening,
        home_cover: DefensiveCoverProfile,
        home_overload: AttackingOverloadProfile,
        away_cover: DefensiveCoverProfile,
        away_overload: AttackingOverloadProfile,
        times: &M,
        propose: &G,
    )
        requires
            is_operation(*times),
            opening.scores_fit(),
            forall|q: DirectiveQuestion| #[trigger] call_requires(*propose, (q,)),
        ensures
            *final(self) == old(self).opened(
                *opening,
                final(self).home_directive,
                final(self).away_directive,
                *times,
            ),
            call_ensures(
                *propose,
                (question_for(
                    *opening,
                    opening.phase(*times),
                    Team::Home,
                    home_cover,
                    home_overload,
                ),),
                final(self).home_directive,
            ),
            call_ensures(
                *propose,
                (question_for(
                    *opening,
                    opening.phase(*times),
                    Team::Away,
                    away_cover,
                    away_overload,
                ),),
                final(self).away_directive,
            ),
    {
        self.possession_team = opening.possession_team;
        self.phase = classify_phase(
            opening.possession_team,
            opening.ball.y,
            apply(times, opening.field_length, at_bits(D0_68)),
            apply(times, opening.field_length, at_bits(D0_32)),
            opening.tick,
        );
        let phase: TacticalPhase = self.phase;
        self.home_directive = propose(
            directive_question(opening, phase, Team::Home, home_cover, home_overload),
        );
        self.away_directive = propose(
            directive_question(opening, phase, Team::Away, away_cover, away_overload),
        );
    }

    /// After the commitment of a team was credited, reviewed or held.
    pub open spec fn committed_from<
        P: Fn(Real64, Real64) -> Real64,
        M: Fn(Real64, Real64) -> Real64,
    >(
        self,
        before: Self,
        team: Team,
        situation: CommitmentSituation,
        constants: CommitmentConstants,
        plus: P,
        times: M,
    ) -> bool {
        match team {
            Team::Home => {
                &&& is_committed(
                    plus,
                    times,
                    before.home_strategy_commitment,
                    before.home_directive,
                    before.home_attack_value,
                    (CommitmentSituation {
                        opponent_press: before.away_directive.press_intensity,
                        ..situation
                    }),
                    constants,
                    self.home_strategy_commitment,
                    self.home_directive,
                    self.home_attack_value,
                )
                &&& self == (CentralBrain {
                    home_directive: self.home_directive,
                    home_strategy_commitment: self.home_strategy_commitment,
                    home_attack_value: self.home_attack_value,
                    ..before
                })
            },
            Team::Away => {
                &&& is_committed(
                    plus,
                    times,
                    before.away_strategy_commitment,
                    before.away_directive,
                    before.away_attack_value,
                    (CommitmentSituation {
                        opponent_press: before.home_directive.press_intensity,
                        ..situation
                    }),
                    constants,
                    self.away_strategy_commitment,
                    self.away_directive,
                    self.away_attack_value,
                )
                &&& self == (CentralBrain {
                    away_directive: self.away_directive,
                    away_strategy_commitment: self.away_strategy_commitment,
                    away_attack_value: self.away_attack_value,
                    ..before
                })
            },
        }
    }

    /// Credits, reviews or holds the commitment of a team. What the opponents press with is read
    /// from their directive.
    pub fn apply_strategy_commitment<
        P: Fn(Real64, Real64) -> Real64,
        M: Fn(Real64, Real64) -> Real64,
    >(
        &mut self,
        team: Team,
        situation: &CommitmentSituation,
        constants: &CommitmentConstants,
        plus: &P,
        times: &M,
    )
        requires
            is_operation(*plus),
            is_operation(*times),
            !constants.overlap_run_probability.nan(),
        ensures
            final(self).committed_from(*old(self), team, *situation, *constants, *plus, *times),
    {
        let mut seen: CommitmentSituation = *situation;
        match team {
            Team::Home => {
                seen.opponent_press = self.away_directive.press_intensity;
                apply_strategy_commitment(
                    &mut self.home_strategy_commitment,
                    &mut self.home_directive,
                    &mut self.home_attack_value,
                    &seen,
                    constants,
                    plus,
                    times,
                );
            },
            Team::Away => {
                seen.opponent_press = self.home_directive.press_intensity;
                apply_strategy_commitment(
                    &mut self.away_strategy_commitment,
                    &mut self.away_directive,
                    &mut self.away_attack_value,
                    &seen,
                    constants,
                    plus,
                    times,
                );
            },
        }
    }

    /// With an active network intent written into both directives.
    pub open spec fn with_intent(self) -> Self {
        let intent = self.neural_formation_intent;
        if intent.active() {
            CentralBrain {
                home_directive: TeamTacticalDirective {
                    neural_formation_attack_score: intent.home_attack,
                    neural_formation_defense_score: intent.home_defense,
                    ..self.home_directive
                },
                away_directive: TeamTacticalDirective {
                    neural_formation_attack_score: intent.away_attack,
                    neural_formation_defense_score: intent.away_defense,
                    ..self.away_directive
                },
                ..self
            }
        } else {
            self
        }
    }

    /// Writes an active network intent into both directives.
    pub fn apply_neural_intent(&mut self)
        ensures
            *final(self) == old(self).with_intent(),
    {
        if self.neural_formation_intent.is_active() {
            let (home_attack, home_defense) = self.neural_formation_intent.for_team(Team::Home);
            self.home_directive.neural_formation_attack_score = home_attack;
            self.home_directive.neural_formation_defense_score = home_defense;
            let (away_attack, away_defense) = self.neural_formation_intent.for_team(Team::Away);
            self.away_directive.neural_formation_attack_score = away_attack;
            self.away_directive.neural_formation_defense_score = away_defense;
        }
    }

    /// After the close of a tick.
    pub open spec fn closed_from(
        self,
        before: Self,
        closing: StepClosing,
        phase_label: Seq<char>,
        players: Seq<ControlledPlayer>,
        operation_order: Vec<&'static str>,
    ) -> bool {
        &&& self.pressure_line_home == before.home_directive.defensive_line_y
        &&& self.pressure_line_away == before.away_directive.defensive_line_y
        &&& self.last_decision is Some
        &&& ({
            let d = self.last_decision->0;
            &&& d.tick == closing.tick
            &&& d.scheduled_index == Some(0usize)
            &&& d.action@ == "directives-"@ + phase_label
            &&& d.phase == before.phase
            &&& d.possession_team == before.possession_team
            &&& d.ball_holder == closing.ball_holder
            &&& d.ball_position == closing.ball_position
            &&& d.ball_velocity == closing.ball_velocity
            &&& d.ball_acceleration == closing.ball_acceleration
            &&& d.ball_jerk == closing.ball_jerk
            &&& d.ball_altitude_yards == closing.ball_altitude_yards
            &&& d.ball_scheduled_index == closing.ball_scheduled_index
            &&& d.home_shape == closing.home_shape
            &&& d.away_shape == closing.away_shape
            &&& d.tracked_players == closing.tracked_players
            &&& d.tracked_officials == closing.tracked_officials
            &&& d.controlled_human_players == d.controller_assignments@.len()
            &&& d.operation_order == operation_order
            &&& exists|order: Seq<usize>| #[trigger]
                is_ranking(controller_keys(players), order) && d.controller_assignments@.len()
                    == order.len() && (forall|i: int|
                    0 <= i < order.len() ==> assigns(
                        #[trigger] d.controller_assignments@[i],
                        players[order[i] as int],
                    ))
        })
        &&& self == (CentralBrain {
            pressure_line_home: self.pressure_line_home,
            pressure_line_away: self.pressure_line_away,
            last_decision: self.last_decision,
            ..before
        })
    }

    /// Closes a tick: the pressure lines follow the directives, and the decision is recorded.
    pub fn close_time_step(
        &mut self,
        closing: &StepClosing,
        phase_label: &str,
        players: &Vec<ControlledPlayer>,
        operation_order: Vec<&'static str>,
    )
        ensures
            final(self).closed_from(
                *old(self),
                *closing,
                phase_label@,
                players@,
                operation_order,
            ),
    {
        self.pressure_line_home = self.home_directive.defensive_line_y;
        self.pressure_line_away = self.away_directive.defensive_line_y;
        let assignments: Vec<ControllerAssignment> = controller_assignments(players);
        let mut action: String = "directives-".to_owned();
        action.append(phase_label);
        self.last_decision = Some(
            CentralBrainDecisionTrace {
                tick: closing.tick,
                scheduled_index: Some(0),
                action,
                phase: self.phase,
                possession_team: self.possession_team,
                ball_holder: closing.ball_holder,
                ball_position: closing.ball_position,
                ball_velocity: closing.ball_velocity,
                ball_acceleration: closing.ball_acceleration,
                ball_jerk: closing.ball_jerk,
                ball_altitude_yards: closing.ball_altitude_yards,
                ball_scheduled_index: closing.ball_scheduled_index,
                home_shape: closing.home_shape,
                away_shape: closing.away_shape,
                tracked_players: closing.tracked_players,
                tracked_officials: closing.tracked_officials,
                controlled_human_players: assignments.len(),
                controller_assignments: assignments,
                operation_order,
            },
        );
    }

    /// With the solved guidance of a team fed back into its directive.
    pub open spec fn with_feedback<
        P: Fn(Real64, Real64) -> Real64,
        M: Fn(Real64, Real64) -> Real64,
        Q: Fn(Real64, Real64) -> Real64,
        C: Fn(usize) -> Real64,
    >(self, team: Team, plus: P, times: M, over: Q, count: C) -> Self {
        match team {
            Team::Home => CentralBrain {
                home_directive: directive_after_feedback(
                    plus,
                    times,
                    over,
                    count,
                    self.home_directive,
                    self.home_formation_lp,
                ),
                ..self
            },
            Team::Away => CentralBrain {
                away_directive: directive_after_feedback(
                    plus,
                    times,
                    over,
                    count,
                    self.away_directive,
                    self.away_formation_lp,
                ),
                ..self
            },
        }
    }

    /// Feeds the solved guidance of a team back into its directive.
    pub fn feed_back_formation<
        P: Fn(Real64, Real64) -> Real64,
        M: Fn(Real64, Real64) -> Real64,
        Q: Fn(Real64, Real64) -> Real64,
        C: Fn(usize) -> Real64,
    >(&mut self, team: Team, plus: &P, times: &M, over: &Q, count: &C)
        requires
            is_operation(*plus),
            is_operation(*times),
            is_operation(*over),
            is_conversion(*count),
        ensures
            *final(self) == old(self).with_feedback(team, *plus, *times, *over, *count),
    {
        match team {
            Team::Home => apply_formation_lp_directive_signal(
                &mut self.home_directive,
                self.home_formation_lp.last_snapshot.status.as_str(),
                &self.home_formation_lp.last_guidance,
                plus,
                times,
                over,
                count,
            ),
            Team::Away => apply_formation_lp_directive_signal(
                &mut self.away_directive,
                self.away_formation_lp.last_snapshot.status.as_str(),
                &self.away_formation_lp.last_guidance,
                plus,
                times,
                over,
                count,
            ),
        }
    }

    /// The guidance of both teams, home first.
    pub fn formation_lp_guidance(&self) -> (r: Vec<&SoccerFormationLpPlayerGuidance>)
        ensures
            r@.len() == self.home_formation_lp.last_guidance@.len()
                + self.away_formation_lp.last_guidance@.len(),
            forall|i: int|
                0 <= i < r@.len() ==> *(#[trigger] r@[i]) == (self.home_formation_lp.last_guidance@
                    + self.away_formation_lp.last_guidance@)[i],
    {
        let home: &Vec<SoccerFormationLpPlayerGuidance> = &self.home_formation_lp.last_guidance;
        let away: &Vec<SoccerFormationLpPlayerGuidance> = &self.away_formation_lp.last_guidance;
        let mut r: Vec<&SoccerFormationLpPlayerGuidance> = Vec::new();
        let mut i: usize = 0;
        while i < home.len()
            invariant
                i <= home@.len(),
                r@.len() == i,
                forall|k: int| 0 <= k < i ==> *(#[trigger] r@[k]) == (home@ + away@)[k],
            decreases home@.len() - i,
        {
            r.push(&home[i]);
            i += 1;
        }
        let mut j: usize = 0;
        while j < away.len()
            invariant
                j <= away@.len(),
                r@.len() == home@.len() + j,
                forall|k: int| 0 <= k < r@.len() ==> *(#[trigger] r@[k]) == (home@ + away@)[k],
            decreases away@.len() - j,
        {
            r.push(&away[j]);
            j += 1;
        }
        r
    }

    /// The snapshots of both teams' programs, home first.
    pub fn formation_lp_team_snapshots(&self) -> (r: (
        &SoccerFormationLpTeamSnapshot,
        &SoccerFormationLpTeamSnapshot,
    ))
        ensures
            *r.0 == self.home_formation_lp.last_snapshot,
            *r.1 == self.away_formation_lp.last_snapshot,
    {
        (&self.home_formation_lp.last_snapshot, &self.away_formation_lp.last_snapshot)
    }

    /// A tick without the formation program: neither team gets guidance.
    pub fn skip_formation(&mut self)
        ensures
            final(self).home_formation_lp.disabled_from(old(self).home_formation_lp),
            final(self).away_formation_lp.disabled_from(old(self).away_formation_lp),
            *final(self) == (CentralBrain {
                home_formation_lp: final(self).home_formation_lp,
                away_formation_lp: final(self).away_formation_lp,
                ..*old(self)
            }),
    {
        self.home_formation_lp.disable_tick();
        self.away_formation_lp.disable_tick();
    }

    /// The coordination as others see it: what was read of the match, what was decided, and who
    /// controls whom.
    pub fn to_snapshot(
        &self,
        readings: SnapshotReadings,
        players: &Vec<ControlledPlayer>,
    ) -> (r: CentralBrainSnapshot<'_>)
        ensures
            r.readings == readings,
            r.phase == self.phase,
            r.possession_team == if self.possession_team is Some {
                self.possession_team
            } else {
                readings.possession_team
            },
            r.last_decision is Some <==> self.last_decision is Some,
            r.last_decision is Some ==> *(r.last_decision->0) == self.last_decision->0,
            r.pressure_line_home == self.pressure_line_home,
            r.pressure_line_away == self.pressure_line_away,
            r.controlled_human_players == r.controller_assignments@.len(),
            exists|order: Seq<usize>| #[trigger]
                is_ranking(controller_keys(players@), order) && r.controller_assignments@.len()
                    == order.len() && (forall|i: int|
                    0 <= i < order.len() ==> assigns(
                        #[trigger] r.controller_assignments@[i],
                        players@[order[i] as int],
                    )),
    {
        let assignments: Vec<ControllerAssignment> = controller_assignments(players);
        let possession: Option<Team> = match self.possession_team {
            Some(team) => Some(team),
            None => readings.possession_team,
        };
        CentralBrainSnapshot {
            readings,
            phase: self.phase,
            possession_team: possession,
            last_decision: self.last_decision.as_ref(),
            pressure_line_home: self.pressure_line_home,
            pressure_line_away: self.pressure_line_away,
            controlled_human_players: assignments.len(),
            controller_assignments: assignments,
        }
    }

    /// The directive of a team.
    pub fn directive_for(&self, team: Team) -> (r: &TeamTacticalDirective)
        ensures
            *r == if team == Team::Home {
                self.home_directive
            } else {
                self.away_directive
            },
    {
        match team {
            Team::Home => &self.home_directive,
            Team::Away => &self.away_directive,
        }
    }
}

/// A lead is the other side's deficit, and a team leads where it has scored more.
pub proof fn leads_are_opposed(opening: StepOpening)
    ensures
        lead_of(opening, Team::Home) == -lead_of(opening, Team::Away),
        lead_of(opening, Team::Home) > 0 <==> opening.score_home > opening.score_away,
{
}

/// A team attacks with the ball past 0.68 of the length on the way it plays: the home side upwards,
/// the away side, past 0.32, downwards.
pub proof fn attacks_begin_in_the_last_third<
    M: Fn(Real64, Real64) -> Real64,
>(
    means: spec_fn(Real64, real) -> bool,
    times: M,
    opening: StepOpening,
    l: real,
) -> (r: (Real64, Real64))
    requires
        reads_products(means, times),
        reads_signs(means),
        reads_order(means),
        reads_decimals(means),
        means(opening.field_length, l),
    ensures
        means(r.0, l * (17real / 25real)),
        means(r.1, l * (8real / 25real)),
        opening.possession_team == Some(Team::Home)
            ==> (opening.phase(times) == TacticalPhase::HomeAttack <==> r.0.less(opening.ball.y)),
        opening.possession_team == Some(Team::Away)
            ==> (opening.phase(times) == TacticalPhase::AwayAttack <==> opening.ball.y.less(r.1)),
{
    decimals_are_read(means);
    (outcome(times, opening.field_length, num(D0_68)), outcome(times, opening.field_length, num(D0_32)))
}

} // verus!
