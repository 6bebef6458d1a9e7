//! The central brain: phase of play, committed strategies, and the record of a decision.
use crate::decimals::{
    D0, D0_08, D0_1, D0_32, D0_34, D0_4, D0_46, D0_48, D0_5, D0_6, D0_62, D0_67, D0_72, D0_86,
    D0_92, D1, D11, D1EM09, D1_04, D1_15, D1_18, D1_24, D1_32, D20, D36, D40,
};
use crate::formation::guidance::SoccerFormationLpPlayerGuidance;
use crate::formation::layout::zero;
use crate::formation::slots::{formation_lp_feedback, measured, pressing};
use crate::meaning::{
    bounded, decimals_are_read, is_faithful, most, reads_counts, reads_decimals, reads_order,
    reads_products, reads_quotients, reads_signs, reads_sums, real_sum, size, sums_mean_sums,
};
use crate::number::{
    add_up, apply, at_bits, clamp_to, clamped_to, is_conversion, is_operation, larger, larger_of,
    num, number_of, outcome, sum_up, to_number, Real64,
};
use crate::order::{is_ranking, ranking};
use crate::pitch::{TacticalPhase, Team, TeamBrainMode, Vec2};
use crate::strategy::{FlankAttackPolicy, TeamAttackStrategy, TeamDefenseStrategy};
use vstd::prelude::*;
use vstd::string::*;

verus! {

/// What a team is told to do.
#[derive(Clone, Copy, Debug)]
pub struct TeamTacticalDirective {
    pub team: Team,
    pub defensive_line_y: Real64,
    pub defensive_cover_target: usize,
    pub defensive_cover_actual: usize,
    pub foremost_attacker_y: Option<Real64>,
    pub attacking_overload_attackers: usize,
    pub attacking_overload_defenders: usize,
    pub attacking_numbers_advantage: i32,
    pub attacking_overload_score: Real64,
    pub support_depth_yards: Real64,
    pub width_yards: Real64,
    pub press_intensity: Real64,
    pub pass_priority: Real64,
    pub carry_priority: Real64,
    pub shot_threshold_yards: Real64,
    pub risk_tolerance: Real64,
    pub flank_attack_policy: FlankAttackPolicy,
    pub attack_strategy: TeamAttackStrategy,
    pub defense_strategy: TeamDefenseStrategy,
    pub flank_overlap_run_probability: Real64,
    pub adversarial_embedding_attack_score: Real64,
    pub adversarial_embedding_defense_score: Real64,
    pub adversarial_embedding_hits: usize,
    pub neural_formation_attack_score: Real64,
    pub neural_formation_defense_score: Real64,
}

impl TeamTacticalDirective {
    /// The directive before anything is known.
    pub open spec fn neutral_for<M: Fn(Real64, Real64) -> Real64>(
        times: M,
        team: Team,
        field_width: Real64,
        field_length: Real64,
    ) -> Self {
        TeamTacticalDirective {
            team,
            defensive_line_y: outcome(
                times,
                field_length,
                num(
                    match team {
                        Team::Home => D0_4,
                        Team::Away => D0_6,
                    },
                ),
            ),
            defensive_cover_target: 2,
            defensive_cover_actual: 0,
            foremost_attacker_y: None,
            attacking_overload_attackers: 0,
            attacking_overload_defenders: 0,
            attacking_numbers_advantage: 0,
            attacking_overload_score: zero(),
            support_depth_yards: Real64 { bits: D11 },
            width_yards: outcome(times, field_width, num(D0_62)),
            press_intensity: Real64 { bits: D0_48 },
            pass_priority: Real64 { bits: D1 },
            carry_priority: Real64 { bits: D1 },
            shot_threshold_yards: Real64 { bits: D20 },
            risk_tolerance: Real64 { bits: D0_5 },
            flank_attack_policy: FlankAttackPolicy::NoFlank,
            attack_strategy: TeamAttackStrategy::PullWideLeftThenCenter,
            defense_strategy: TeamDefenseStrategy::MidBlockZonal,
            flank_overlap_run_probability: zero(),
            adversarial_embedding_attack_score: zero(),
            adversarial_embedding_defense_score: zero(),
            adversarial_embedding_hits: 0,
            neural_formation_attack_score: zero(),
            neural_formation_defense_score: zero(),
        }
    }

    pub fn neutral<M: Fn(Real64, Real64) -> Real64>(
        team: Team,
        field_width: Real64,
        field_length: Real64,
        times: &M,
    ) -> (r: Self)
        requires
            is_operation(*times),
        ensures
            r == Self::neutral_for(*times, team, field_width, field_length),
    {
        let nothing: Real64 = Real64 { bits: 0 };
        let depth: u64 = match team {
            Team::Home => D0_4,
            Team::Away => D0_6,
        };
        TeamTacticalDirective {
            team,
            defensive_line_y: apply(times, field_length, at_bits(depth)),
            defensive_cover_target: 2,
            defensive_cover_actual: 0,
            foremost_attacker_y: None,
            attacking_overload_attackers: 0,
            attacking_overload_defenders: 0,
            attacking_numbers_advantage: 0,
            attacking_overload_score: nothing,
            support_depth_yards: Real64 { bits: D11 },
            width_yards: apply(times, field_width, at_bits(D0_62)),
            press_intensity: Real64 { bits: D0_48 },
            pass_priority: Real64 { bits: D1 },
            carry_priority: Real64 { bits: D1 },
            shot_threshold_yards: Real64 { bits: D20 },
            risk_tolerance: Real64 { bits: D0_5 },
            flank_attack_policy: FlankAttackPolicy::default(),
            attack_strategy: TeamAttackStrategy::default(),
            defense_strategy: TeamDefenseStrategy::default(),
            flank_overlap_run_probability: nothing,
            adversarial_embedding_attack_score: nothing,
            adversarial_embedding_defense_score: nothing,
            adversarial_embedding_hits: 0,
            neural_formation_attack_score: nothing,
            neural_formation_defense_score: nothing,
        }
    }
}

/// A measure of the picked players of a guidance.
pub open spec fn picked_values(
    guidance: Seq<SoccerFormationLpPlayerGuidance>,
    picks: Seq<usize>,
    measure: spec_fn(SoccerFormationLpPlayerGuidance) -> Real64,
) -> Seq<Real64> {
    picks.map_values(|i: usize| measure(guidance[i as int]))
}

/// The mean of numbers.
pub open spec fn mean_of<
    P: Fn(Real64, Real64) -> Real64,
    Q: Fn(Real64, Real64) -> Real64,
    C: Fn(usize) -> Real64,
>(plus: P, over: Q, count: C, s: Seq<Real64>) -> Real64 {
    outcome(over, sum_up(plus, s, s.len() as int), number_of(count, s.len() as usize))
}

/// How much a player presses, between 0 and 1.
pub open spec fn press_share(g: SoccerFormationLpPlayerGuidance) -> Real64 {
    clamped_to(g.motion.pressure_weight, num(D0), num(D1))
}

/// How far a player is off the pairs, not negative.
pub open spec fn pair_error(g: SoccerFormationLpPlayerGuidance) -> Real64 {
    larger(g.motion.pair_error_yards, num(D0))
}

/// How far a player is off the line, not negative.
pub open spec fn line_error(g: SoccerFormationLpPlayerGuidance) -> Real64 {
    larger(g.motion.role_line_error_yards, num(D0))
}

/// The directive that measured players feed back into: the cover rises to the number of those who
/// press, the press intensity follows their mean by a little, and the risk tolerance falls with
/// their errors.
pub open spec fn fed_back<
    P: Fn(Real64, Real64) -> Real64,
    M: Fn(Real64, Real64) -> Real64,
    Q: Fn(Real64, Real64) -> Real64,
    C: Fn(usize) -> Real64,
>(
    plus: P,
    times: M,
    over: Q,
    count: C,
    directive: TeamTacticalDirective,
    guidance: Seq<SoccerFormationLpPlayerGuidance>,
) -> TeamTacticalDirective {
    let n = guidance.len() as int;
    let picks = measured(guidance, n);
    let pressing_players = pressing(guidance, n);
    let press = mean_of(
        plus,
        over,
        count,
        picked_values(guidance, picks, |g: SoccerFormationLpPlayerGuidance| press_share(g)),
    );
    let pairs = mean_of(
        plus,
        over,
        count,
        picked_values(guidance, picks, |g: SoccerFormationLpPlayerGuidance| pair_error(g)),
    );
    let lines = mean_of(
        plus,
        over,
        count,
        picked_values(guidance, picks, |g: SoccerFormationLpPlayerGuidance| line_error(g)),
    );
    let current_press = if directive.press_intensity.finite() {
        directive.press_intensity
    } else {
        num(D0_48)
    };
    let current_risk = if directive.risk_tolerance.finite() {
        directive.risk_tolerance
    } else {
        num(D0_5)
    };
    let penalty = clamped_to(
        outcome(plus, outcome(over, pairs, num(D40)), outcome(over, lines, num(D36))),
        num(D0),
        num(D0_1),
    );
    TeamTacticalDirective {
        defensive_cover_actual: if directive.defensive_cover_actual < pressing_players {
            pressing_players as usize
        } else {
            directive.defensive_cover_actual
        },
        press_intensity: clamped_to(
            outcome(
                plus,
                outcome(times, current_press, num(D0_92)),
                outcome(times, press, num(D0_08)),
            ),
            num(D0),
            num(D1),
        ),
        risk_tolerance: clamped_to(
            outcome(plus, current_risk, penalty.negated()),
            num(D0),
            num(D1),
        ),
        ..directive
    }
}

fn mean_value<
    P: Fn(Real64, Real64) -> Real64,
    Q: Fn(Real64, Real64) -> Real64,
    C: Fn(usize) -> Real64,
>(s: &Vec<Real64>, plus: &P, over: &Q, count: &C) -> (r: Real64)
    requires
        is_operation(*plus),
        is_operation(*over),
        is_conversion(*count),
    ensures
        r == mean_of(*plus, *over, *count, s@),
{
    apply(over, add_up(s, plus), to_number(count, s.len()))
}

/// Feeds solved guidance back into a directive; without feedback the directive stays as it is.
pub fn apply_formation_lp_directive_signal<
    P: Fn(Real64, Real64) -> Real64,
    M: Fn(Real64, Real64) -> Real64,
    Q: Fn(Real64, Real64) -> Real64,
    C: Fn(usize) -> Real64,
>(
    directive: &mut TeamTacticalDirective,
    status: &str,
    guidance: &Vec<SoccerFormationLpPlayerGuidance>,
    plus: &P,
    times: &M,
    over: &Q,
    count: &C,
)
    requires
        is_operation(*plus),
        is_operation(*times),
        is_operation(*over),
        is_conversion(*count),
    ensures
        *final(directive) == if status@ == "optimal"@ && measured(
            guidance@,
            guidance@.len() as int,
        ).len() > 0 {
            fed_back(*plus, *times, *over, *count, *old(directive), guidance@)
        } else {
            *old(directive)
        },
{
    if let Some((picks, pressing_players)) = formation_lp_feedback(status, guidance) {
        let ghost press_of = |g: SoccerFormationLpPlayerGuidance| press_share(g);
        let ghost pair_of = |g: SoccerFormationLpPlayerGuidance| pair_error(g);
        let ghost line_of = |g: SoccerFormationLpPlayerGuidance| line_error(g);
        let zero_value: Real64 = at_bits(D0);
        let mut press: Vec<Real64> = Vec::new();
        let mut pairs: Vec<Real64> = Vec::new();
        let mut lines: Vec<Real64> = Vec::new();
        let mut k: usize = 0;
        let size: usize = guidance.len();
        assert(size == guidance@.len());
        proof {
            measured_are_listed(guidance@, guidance@.len() as int);
        }
        while k < picks.len()
            invariant
                k <= picks@.len(),
                zero_value == num(D0),
                forall|j: int| 0 <= j < picks@.len() ==> #[trigger] picks@[j] < guidance@.len(),
                press_of == (|g: SoccerFormationLpPlayerGuidance| press_share(g)),
                pair_of == (|g: SoccerFormationLpPlayerGuidance| pair_error(g)),
                line_of == (|g: SoccerFormationLpPlayerGuidance| line_error(g)),
                press@ == picked_values(guidance@, picks@, press_of).take(k as int),
                pairs@ == picked_values(guidance@, picks@, pair_of).take(k as int),
                lines@ == picked_values(guidance@, picks@, line_of).take(k as int),
            decreases picks@.len() - k,
        {
            assert(picks@[k as int] < guidance@.len());
            let g: &SoccerFormationLpPlayerGuidance = &guidance[picks[k]];
            press.push(clamp_to(g.motion.pressure_weight, zero_value, at_bits(D1)));
            pairs.push(larger_of(g.motion.pair_error_yards, zero_value));
            lines.push(larger_of(g.motion.role_line_error_yards, zero_value));
            k += 1;
            assert(press@ =~= picked_values(guidance@, picks@, press_of).take(k as int));
            assert(pairs@ =~= picked_values(guidance@, picks@, pair_of).take(k as int));
            assert(lines@ =~= picked_values(guidance@, picks@, line_of).take(k as int));
        }
        assert(press@ =~= picked_values(guidance@, picks@, press_of));
        assert(pairs@ =~= picked_values(guidance@, picks@, pair_of));
        assert(lines@ =~= picked_values(guidance@, picks@, line_of));
        if directive.defensive_cover_actual < pressing_players {
            directive.defensive_cover_actual = pressing_players;
        }
        let mean_press: Real64 = mean_value(&press, plus, over, count);
        let mean_pairs: Real64 = mean_value(&pairs, plus, over, count);
        let mean_lines: Real64 = mean_value(&lines, plus, over, count);
        let current_press: Real64 = if directive.press_intensity.is_finite() {
            directive.press_intensity
        } else {
            at_bits(D0_48)
        };
        let current_risk: Real64 = if directive.risk_tolerance.is_finite() {
            directive.risk_tolerance
        } else {
            at_bits(D0_5)
        };
        let blended: Real64 = apply(
            plus,
            apply(times, current_press, at_bits(D0_92)),
            apply(times, mean_press, at_bits(D0_08)),
        );
        directive.press_intensity = clamp_to(blended, zero_value, at_bits(D1));
        let penalty: Real64 = clamp_to(
            apply(
                plus,
                apply(over, mean_pairs, at_bits(D40)),
                apply(over, mean_lines, at_bits(D36)),
            ),
            zero_value,
            at_bits(D0_1),
        );
        directive.risk_tolerance = clamp_to(
            apply(plus, current_risk, penalty.negate()),
            zero_value,
            at_bits(D1),
        );
    }
}

proof fn measured_are_listed(guidance: Seq<SoccerFormationLpPlayerGuidance>, n: int)
    requires
        0 <= n <= guidance.len(),
        guidance.len() <= usize::MAX,
    ensures
        forall|j: int|
            0 <= j < measured(guidance, n).len() ==> #[trigger] measured(guidance, n)[j] < n,
    decreases n,
{
    if n > 0 {
        measured_are_listed(guidance, n - 1);
        let rest = measured(guidance, n - 1);
        assert forall|j: int| 0 <= j < measured(guidance, n).len() implies #[trigger] measured(
            guidance,
            n,
        )[j] < n by {
            if j < rest.len() {
                assert(measured(guidance, n)[j] == rest[j]);
                assert(rest[j] < n - 1);
            }
        }
    }
}

/// The phase of play. A team in possession attacks once the ball is past its mark; with the
/// ball loose the first five ticks are the kickoff.
pub open spec fn phase_of(
    possession: Option<Team>,
    ball_y: Real64,
    home_mark: Real64,
    away_mark: Real64,
    tick: u64,
) -> TacticalPhase {
    match possession {
        Some(Team::Home) => if home_mark.less(ball_y) {
            TacticalPhase::HomeAttack
        } else {
            TacticalPhase::HomeBuildUp
        },
        Some(Team::Away) => if ball_y.less(away_mark) {
            TacticalPhase::AwayAttack
        } else {
            TacticalPhase::AwayBuildUp
        },
        None => if tick < 5 {
            TacticalPhase::Kickoff
        } else {
            TacticalPhase::Transition
        },
    }
}

/// Classifies the phase of play.
pub fn classify_phase(
    possession: Option<Team>,
    ball_y: Real64,
    home_mark: Real64,
    away_mark: Real64,
    tick: u64,
) -> (phase: TacticalPhase)
    ensures
        phase == phase_of(possession, ball_y, home_mark, away_mark, tick),
{
    match possession {
        Some(Team::Home) => if home_mark.is_below(ball_y) {
            TacticalPhase::HomeAttack
        } else {
            TacticalPhase::HomeBuildUp
        },
        Some(Team::Away) => if ball_y.is_below(away_mark) {
            TacticalPhase::AwayAttack
        } else {
            TacticalPhase::AwayBuildUp
        },
        None => if tick < 5 {
            TacticalPhase::Kickoff
        } else {
            TacticalPhase::Transition
        },
    }
}

/// The third of the pitch the ball is in, by its distance to the opposing goal as a share of
/// the pitch: 2 near that goal, 0 far from it.
pub open spec fn third_of(to_opponent_goal: Real64) -> int {
    if to_opponent_goal.less(Real64 { bits: D0_34 }) {
        2
    } else if to_opponent_goal.less(Real64 { bits: D0_67 }) {
        1
    } else {
        0
    }
}

/// The bucket of game situations: possession, third of the pitch, opposing press.
pub open spec fn context_of(has_ball: bool, third: int, pressed: bool) -> int {
    (if has_ball {
        8int
    } else {
        0
    }) + 2 * third + (if pressed {
        1int
    } else {
        0
    })
}

/// Buckets the game situation.
pub fn strategy_context(
    has_ball: bool,
    to_opponent_goal: Real64,
    opponent_press: Real64,
) -> (context: u8)
    ensures
        context == context_of(
            has_ball,
            third_of(to_opponent_goal),
            (Real64 { bits: D0_6 }).less(opponent_press),
        ),
{
    let third: u8 = if to_opponent_goal.is_below(Real64 { bits: D0_34 }) {
        2
    } else if to_opponent_goal.is_below(Real64 { bits: D0_67 }) {
        1
    } else {
        0
    };
    let ball: u8 = if has_ball { 8 } else { 0 };
    let press: u8 = if (Real64 { bits: D0_6 }).is_below(opponent_press) { 1 } else { 0 };
    ball + 2 * third + press
}

/// Different situations fall into different buckets.
pub proof fn contexts_are_distinct(a: bool, b: bool, s: int, t: int, p: bool, q: bool)
    requires
        0 <= s < 3,
        0 <= t < 3,
        context_of(a, s, p) == context_of(b, t, q),
    ensures
        a == b,
        s == t,
        p == q,
{
}

/// A team's committed strategy. It is held for a window of ticks and reviewed only when the
/// window ends or possession changes.
#[derive(Clone, Copy, Debug)]
pub struct TeamStrategyCommitment {
    pub attack: TeamAttackStrategy,
    pub defense: TeamDefenseStrategy,
    pub review_tick: u64,
    pub committed_has_ball: bool,
    pub advantage_at_commit: Real64,
    /// The situation in which the strategy was committed.
    pub context: u8,
    /// A pair maneuver that runs inside the team maneuver.
    pub sub: Option<TeamAttackStrategy>,
    pub set: bool,
}

impl TeamStrategyCommitment {
    /// No commitment yet.
    pub open spec fn unset() -> Self {
        TeamStrategyCommitment {
            attack: TeamAttackStrategy::PullWideLeftThenCenter,
            defense: TeamDefenseStrategy::MidBlockZonal,
            review_tick: 0,
            committed_has_ball: false,
            advantage_at_commit: zero(),
            context: 0,
            sub: None,
            set: false,
        }
    }
}

impl Default for TeamStrategyCommitment {
    fn default() -> (r: Self)
        ensures
            r == Self::unset(),
    {
        TeamStrategyCommitment {
            attack: TeamAttackStrategy::default(),
            defense: TeamDefenseStrategy::default(),
            review_tick: 0,
            committed_has_ball: false,
            advantage_at_commit: Real64 { bits: 0 },
            context: 0,
            sub: None,
            set: false,
        }
    }
}

/// What a finished commitment is credited under, and the advantage it started from.
#[derive(Clone, Copy, Debug)]
pub struct CommitmentCredit {
    pub context: u8,
    pub attack: TeamAttackStrategy,
    pub advantage_at_commit: Real64,
}

/// What a review of the commitment reads.
#[derive(Clone, Copy, Debug)]
pub struct CommitmentReview {
    pub tick: u64,
    pub has_ball: bool,
    pub advantage: Real64,
    pub context: u8,
    /// The score of the maneuver that the rules propose.
    pub rule_score: Real64,
    /// The score of the maneuver that is held.
    pub held_score: Real64,
    /// The proposed maneuver is a team maneuver beside which a pair maneuver can run.
    pub rule_hosts_pairs: bool,
    /// The held maneuver is a team maneuver beside which a pair maneuver can run.
    pub held_hosts_pairs: bool,
    pub ball_x: Real64,
    /// Left of this the ball is wide on the left.
    pub left_mark: Real64,
    /// Right of this the ball is wide on the right.
    pub right_mark: Real64,
    /// How many ticks a commitment is held.
    pub commit_ticks: u64,
}

impl TeamStrategyCommitment {
    /// The commitment is reviewed on this tick.
    pub open spec fn due(self, tick: u64, has_ball: bool) -> bool {
        !self.set || tick >= self.review_tick || self.committed_has_ball != has_ball
    }

    /// The maneuver that a review settles on: the held one only where another is proposed and
    /// the held one scores higher.
    pub open spec fn chosen(
        self,
        proposed: TeamAttackStrategy,
        r: CommitmentReview,
    ) -> TeamAttackStrategy {
        if self.set && proposed != self.attack && r.rule_score.less(r.held_score) {
            self.attack
        } else {
            proposed
        }
    }

    /// The commitment after a review.
    pub open spec fn reviewed(self, directive: TeamTacticalDirective, r: CommitmentReview) -> Self {
        let chosen = self.chosen(directive.attack_strategy, r);
        let hosts = if self.set && directive.attack_strategy != self.attack && r.rule_score.less(
            r.held_score,
        ) {
            r.held_hosts_pairs
        } else {
            r.rule_hosts_pairs
        };
        TeamStrategyCommitment {
            attack: chosen,
            defense: directive.defense_strategy,
            sub: nested_maneuver(hosts, r.ball_x, r.left_mark, r.right_mark, r.has_ball),
            review_tick: if r.tick + r.commit_ticks > u64::MAX {
                u64::MAX
            } else {
                (r.tick + r.commit_ticks) as u64
            },
            committed_has_ball: r.has_ball,
            advantage_at_commit: r.advantage,
            context: r.context,
            set: true,
        }
    }

    /// What the commitment is credited with when it ends on this tick: nothing unless it was
    /// set with the ball.
    pub fn credit(&self, tick: u64, has_ball: bool) -> (r: Option<CommitmentCredit>)
        ensures
            r is Some <==> self.due(tick, has_ball) && self.set && self.committed_has_ball,
            r is Some ==> r->0.context == self.context && r->0.attack == self.attack
                && r->0.advantage_at_commit == self.advantage_at_commit,
    {
        if self.set && self.committed_has_ball && (tick >= self.review_tick || !has_ball) {
            Some(
                CommitmentCredit {
                    context: self.context,
                    attack: self.attack,
                    advantage_at_commit: self.advantage_at_commit,
                },
            )
        } else {
            None
        }
    }

    /// Reviews the commitment where it is due and else holds it; the directive takes the
    /// committed maneuvers.
    pub fn apply(&mut self, directive: &mut TeamTacticalDirective, r: &CommitmentReview)
        ensures
            old(self).due(r.tick, r.has_ball) ==> {
                &&& *final(self) == old(self).reviewed(*old(directive), *r)
                &&& *final(directive) == (TeamTacticalDirective {
                    attack_strategy: old(self).chosen(old(directive).attack_strategy, *r),
                    ..*old(directive)
                })
            },
            !old(self).due(r.tick, r.has_ball) ==> {
                &&& *final(self) == *old(self)
                &&& *final(directive) == (TeamTacticalDirective {
                    attack_strategy: old(self).attack,
                    defense_strategy: old(self).defense,
                    ..*old(directive)
                })
            },
    {
        let flip: bool = self.set && self.committed_has_ball != r.has_ball;
        if !self.set || r.tick >= self.review_tick || flip {
            let proposed: TeamAttackStrategy = directive.attack_strategy;
            let keep: bool = self.set && proposed != self.attack && r.rule_score.is_below(
                r.held_score,
            );
            let chosen: TeamAttackStrategy = if keep { self.attack } else { proposed };
            let hosts: bool = if keep { r.held_hosts_pairs } else { r.rule_hosts_pairs };
            directive.attack_strategy = chosen;
            self.attack = chosen;
            self.defense = directive.defense_strategy;
            self.sub = select_nested_sub_maneuver(
                hosts,
                r.ball_x,
                r.left_mark,
                r.right_mark,
                r.has_ball,
            );
            self.review_tick = r.tick.saturating_add(r.commit_ticks);
            self.committed_has_ball = r.has_ball;
            self.advantage_at_commit = r.advantage;
            self.context = r.context;
            self.set = true;
        } else {
            directive.attack_strategy = self.attack;
            directive.defense_strategy = self.defense;
        }
    }
}

/// After a review nothing is reviewed again before the window ends, unless possession changes.
pub proof fn commitments_are_held(
    c: TeamStrategyCommitment,
    directive: TeamTacticalDirective,
    r: CommitmentReview,
    later: u64,
)
    requires
        r.tick <= later,
        later < r.tick + r.commit_ticks,
        later < u64::MAX,
    ensures
        !c.reviewed(directive, r).due(later, r.has_ball),
        c.reviewed(directive, r).due(later, !r.has_ball),
{
}

/// The pair maneuver nested in a team maneuver while the team has the ball: a wide ball invites
/// an overlap, a central one a give-and-go.
pub open spec fn nested_maneuver(
    hosts_pairs: bool,
    ball_x: Real64,
    left_mark: Real64,
    right_mark: Real64,
    has_ball: bool,
) -> Option<TeamAttackStrategy> {
    if !has_ball || !hosts_pairs {
        None
    } else if ball_x.less(left_mark) {
        Some(TeamAttackStrategy::WingOverlapLeftCross)
    } else if right_mark.less(ball_x) {
        Some(TeamAttackStrategy::WingOverlapRightCross)
    } else {
        Some(TeamAttackStrategy::GiveAndGoCentral)
    }
}

pub fn select_nested_sub_maneuver(
    hosts_pairs: bool,
    ball_x: Real64,
    left_mark: Real64,
    right_mark: Real64,
    has_ball: bool,
) -> (r: Option<TeamAttackStrategy>)
    ensures
        r == nested_maneuver(hosts_pairs, ball_x, left_mark, right_mark, has_ball),
{
    if !has_ball || !hosts_pairs {
        None
    } else if ball_x.is_below(left_mark) {
        Some(TeamAttackStrategy::WingOverlapLeftCross)
    } else if right_mark.is_below(ball_x) {
        Some(TeamAttackStrategy::WingOverlapRightCross)
    } else {
        Some(TeamAttackStrategy::GiveAndGoCentral)
    }
}

/// The maneuver sends a runner past the ball on a flank.
pub open spec fn is_overlap(s: TeamAttackStrategy) -> bool {
    ||| s == TeamAttackStrategy::WingOverlapLeftCross
    ||| s == TeamAttackStrategy::WingOverlapRightCross
    ||| s == TeamAttackStrategy::UnderlapLeftCutback
    ||| s == TeamAttackStrategy::UnderlapRightCutback
}

/// The maneuver is a quick exchange of passes.
pub open spec fn is_give_and_go(s: TeamAttackStrategy) -> bool {
    ||| s == TeamAttackStrategy::GiveAndGoCentral
    ||| s == TeamAttackStrategy::OneTwoLeftRelease
    ||| s == TeamAttackStrategy::OneTwoRightRelease
}

/// The directive with a nested maneuver laid over it.
pub open spec fn overlaid(
    directive: TeamTacticalDirective,
    sub: Option<TeamAttackStrategy>,
    run_floor: Real64,
    boosted_pass_priority: Real64,
) -> TeamTacticalDirective {
    if sub is Some && is_overlap(sub->0) {
        TeamTacticalDirective {
            flank_overlap_run_probability: if directive.flank_overlap_run_probability.nan()
                || directive.flank_overlap_run_probability.less(run_floor) {
                run_floor
            } else {
                directive.flank_overlap_run_probability
            },
            ..directive
        }
    } else if sub is Some && is_give_and_go(sub->0) {
        TeamTacticalDirective { pass_priority: boosted_pass_priority, ..directive }
    } else {
        directive
    }
}

/// Lays a nested maneuver over the directive: an overlap raises the run probability to its
/// floor, a give-and-go takes the boosted pass priority.
pub fn overlay_nested_maneuver(
    directive: &mut TeamTacticalDirective,
    sub: Option<TeamAttackStrategy>,
    run_floor: Real64,
    boosted_pass_priority: Real64,
)
    requires
        !run_floor.nan(),
    ensures
        *final(directive) == overlaid(*old(directive), sub, run_floor, boosted_pass_priority),
{
    if let Some(maneuver) = sub {
        match maneuver {
            TeamAttackStrategy::WingOverlapLeftCross
            | TeamAttackStrategy::WingOverlapRightCross
            | TeamAttackStrategy::UnderlapLeftCutback
            | TeamAttackStrategy::UnderlapRightCutback => {
                if directive.flank_overlap_run_probability.is_nan()
                    || directive.flank_overlap_run_probability.is_below(run_floor) {
                    directive.flank_overlap_run_probability = run_floor;
                }
            },
            TeamAttackStrategy::GiveAndGoCentral
            | TeamAttackStrategy::OneTwoLeftRelease
            | TeamAttackStrategy::OneTwoRightRelease => {
                directive.pass_priority = boosted_pass_priority;
            },
            _ => {},
        }
    }
}

/// What the memory of past moments or a value network says for one team.
#[derive(Clone, Copy, Debug)]
pub struct SoccerAdversarialEmbeddingSignal {
    pub attack_score: Real64,
    pub defense_score: Real64,
    pub hits: usize,
}

/// The signals of both teams.
#[derive(Clone, Copy, Debug)]
pub struct SoccerAdversarialEmbeddingSignals {
    pub home: SoccerAdversarialEmbeddingSignal,
    pub away: SoccerAdversarialEmbeddingSignal,
}

impl SoccerAdversarialEmbeddingSignals {
    pub fn signal_for(&self, team: Team) -> (r: SoccerAdversarialEmbeddingSignal)
        ensures
            r == if team == Team::Home {
                self.home
            } else {
                self.away
            },
    {
        match team {
            Team::Home => self.home,
            Team::Away => self.away,
        }
    }

    /// The signal of a team, to be changed in place.
    pub fn signal_for_mut(&mut self, team: Team) -> (r: &mut SoccerAdversarialEmbeddingSignal)
        ensures
            *r == if team == Team::Home {
                old(self).home
            } else {
                old(self).away
            },
            *final(self) == match team {
                Team::Home => SoccerAdversarialEmbeddingSignals {
                    home: *final(r),
                    ..*old(self)
                },
                Team::Away => SoccerAdversarialEmbeddingSignals {
                    away: *final(r),
                    ..*old(self)
                },
            },
    {
        match team {
            Team::Home => &mut self.home,
            Team::Away => &mut self.away,
        }
    }
}

/// The number of hits of two signals together.
pub open spec fn joint_hits(a: usize, b: usize) -> usize {
    if a + b > usize::MAX {
        usize::MAX
    } else {
        (a + b) as usize
    }
}

/// Two signals for one team together: scores summed up to one, hits added up.
pub open spec fn joint_signal<P: Fn(Real64, Real64) -> Real64>(
    plus: P,
    a: SoccerAdversarialEmbeddingSignal,
    b: SoccerAdversarialEmbeddingSignal,
) -> SoccerAdversarialEmbeddingSignal {
    SoccerAdversarialEmbeddingSignal {
        attack_score: clamped_to(
            outcome(plus, a.attack_score, b.attack_score),
            num(D0),
            num(D1),
        ),
        defense_score: clamped_to(
            outcome(plus, a.defense_score, b.defense_score),
            num(D0),
            num(D1),
        ),
        hits: joint_hits(a.hits, b.hits),
    }
}

fn join_signals<P: Fn(Real64, Real64) -> Real64>(
    a: &SoccerAdversarialEmbeddingSignal,
    b: &SoccerAdversarialEmbeddingSignal,
    plus: &P,
) -> (r: SoccerAdversarialEmbeddingSignal)
    requires
        is_operation(*plus),
    ensures
        r == joint_signal(*plus, *a, *b),
{
    let attack: Real64 = apply(plus, a.attack_score, b.attack_score);
    let defense: Real64 = apply(plus, a.defense_score, b.defense_score);
    SoccerAdversarialEmbeddingSignal {
        attack_score: clamp_to(attack, at_bits(D0), at_bits(D1)),
        defense_score: clamp_to(defense, at_bits(D0), at_bits(D1)),
        hits: a.hits.saturating_add(b.hits),
    }
}

/// Combines two sources of signals team by team; where only one is there, it stands.
pub fn merge_soccer_adversarial_embedding_signals<P: Fn(Real64, Real64) -> Real64>(
    memory: Option<SoccerAdversarialEmbeddingSignals>,
    neural: Option<SoccerAdversarialEmbeddingSignals>,
    plus: &P,
) -> (r: Option<SoccerAdversarialEmbeddingSignals>)
    requires
        is_operation(*plus),
    ensures
        r == match (memory, neural) {
            (Some(base), Some(extra)) => Some(
                SoccerAdversarialEmbeddingSignals {
                    home: joint_signal(*plus, base.home, extra.home),
                    away: joint_signal(*plus, base.away, extra.away),
                },
            ),
            (Some(base), None) => Some(base),
            (None, extra) => extra,
        },
{
    match (memory, neural) {
        (Some(base), Some(extra)) => Some(
            SoccerAdversarialEmbeddingSignals {
                home: join_signals(&base.home, &extra.home, plus),
                away: join_signals(&base.away, &extra.away, plus),
            },
        ),
        (Some(base), None) => Some(base),
        (None, extra) => extra,
    }
}

/// How much a value network wants each team to push forward or to hold its shape.
#[derive(Clone, Copy, Debug)]
pub struct SoccerNeuralFormationIntent {
    pub home_attack: Real64,
    pub home_defense: Real64,
    pub away_attack: Real64,
    pub away_defense: Real64,
}

impl SoccerNeuralFormationIntent {
    /// Some intent is above a billionth.
    pub open spec fn active(self) -> bool {
        let edge = Real64 { bits: D1EM09 };
        edge.less(self.home_attack) || edge.less(self.home_defense) || edge.less(self.away_attack)
            || edge.less(self.away_defense)
    }

    pub fn is_active(&self) -> (b: bool)
        ensures
            b == self.active(),
    {
        let edge: Real64 = Real64 { bits: D1EM09 };
        edge.is_below(self.home_attack) || edge.is_below(self.home_defense) || edge.is_below(
            self.away_attack,
        ) || edge.is_below(self.away_defense)
    }

    /// The attack and the defense intent of a team.
    pub fn for_team(&self, team: Team) -> (r: (Real64, Real64))
        ensures
            r == if team == Team::Home {
                (self.home_attack, self.home_defense)
            } else {
                (self.away_attack, self.away_defense)
            },
    {
        match team {
            Team::Home => (self.home_attack, self.home_defense),
            Team::Away => (self.away_attack, self.away_defense),
        }
    }
}

/// The name of the formation step of a tick.
pub fn central_brain_formation_lp_operation_label(formation_lp_enabled: bool) -> (r: &'static str)
    ensures
        r@ == formation_label(formation_lp_enabled)@,
{
    if formation_lp_enabled {
        "solve-formation-lp"
    } else {
        "skip-formation-lp"
    }
}

pub open spec fn formation_label(enabled: bool) -> &'static str {
    if enabled {
        "solve-formation-lp"
    } else {
        "skip-formation-lp"
    }
}

/// The name of the refinement step of a tick.
pub fn central_brain_local_mpc_operation_label(
    local_mpc_enabled: bool,
    solved_players: usize,
) -> (r: &'static str)
    ensures
        r@ == refinement_label(local_mpc_enabled, solved_players)@,
{
    if local_mpc_enabled && solved_players > 0 {
        "solve-local-mpc"
    } else if local_mpc_enabled {
        "fallback-local-mpc"
    } else {
        "skip-local-mpc"
    }
}

pub open spec fn refinement_label(enabled: bool, solved_players: usize) -> &'static str {
    if enabled && solved_players > 0 {
        "solve-local-mpc"
    } else if enabled {
        "fallback-local-mpc"
    } else {
        "skip-local-mpc"
    }
}

/// A step of the central brain with the weight it has when the steps are shuffled.
#[derive(Clone, Copy, Debug)]
pub struct CentralOperation {
    pub label: &'static str,
    pub weight: Real64,
}

pub open spec fn operation_is(op: CentralOperation, label: Seq<char>, weight: u64) -> bool {
    op.label@ == label && op.weight == (Real64 { bits: weight })
}

/// The weighted steps of a tick.
pub open spec fn are_operations(
    ops: Seq<CentralOperation>,
    in_possession: bool,
    formation_lp_enabled: bool,
    local_mpc_enabled: bool,
    solved_players: usize,
) -> bool {
    &&& ops.len() == if formation_lp_enabled && local_mpc_enabled {
        7int
    } else {
        6
    }
    &&& operation_is(ops[0], "sense-possession"@, D1_32)
    &&& operation_is(ops[1], "classify-phase"@, D1_18)
    &&& operation_is(ops[2], "sample-defensive-cover"@, D0_92)
    &&& operation_is(
        ops[3],
        "measure-overloads"@,
        if in_possession {
            D1_15
        } else {
            D0_72
        },
    )
    &&& operation_is(ops[4], "issue-team-directives"@, D1_24)
    &&& operation_is(
        ops[5],
        formation_label(formation_lp_enabled)@,
        if formation_lp_enabled {
            D1_04
        } else {
            D0_46
        },
    )
    &&& formation_lp_enabled && local_mpc_enabled ==> operation_is(
        ops[6],
        refinement_label(true, solved_players)@,
        if solved_players > 0 {
            D0_86
        } else {
            D0_32
        },
    )
}

/// Lists the weighted steps of a tick. The refinement step is there only where both the
/// formation program and the refinement are switched on.
pub fn central_operations(
    in_possession: bool,
    formation_lp_enabled: bool,
    local_mpc_enabled: bool,
    solved_players: usize,
) -> (ops: Vec<CentralOperation>)
    ensures
        are_operations(
            ops@,
            in_possession,
            formation_lp_enabled,
            local_mpc_enabled,
            solved_players,
        ),
{
    let mut ops: Vec<CentralOperation> = Vec::new();
    ops.push(CentralOperation { label: "sense-possession", weight: Real64 { bits: D1_32 } });
    ops.push(CentralOperation { label: "classify-phase", weight: Real64 { bits: D1_18 } });
    ops.push(CentralOperation { label: "sample-defensive-cover", weight: Real64 { bits: D0_92 } });
    let overload: u64 = if in_possession { D1_15 } else { D0_72 };
    ops.push(CentralOperation { label: "measure-overloads", weight: Real64 { bits: overload } });
    ops.push(CentralOperation { label: "issue-team-directives", weight: Real64 { bits: D1_24 } });
    let formation: u64 = if formation_lp_enabled { D1_04 } else { D0_46 };
    ops.push(
        CentralOperation {
            label: central_brain_formation_lp_operation_label(formation_lp_enabled),
            weight: Real64 { bits: formation },
        },
    );
    if formation_lp_enabled && local_mpc_enabled {
        let refinement: u64 = if solved_players > 0 { D0_86 } else { D0_32 };
        ops.push(
            CentralOperation {
                label: central_brain_local_mpc_operation_label(true, solved_players),
                weight: Real64 { bits: refinement },
            },
        );
    }
    ops
}

/// What the assignment of controllers reads of a player.
#[derive(Debug)]
pub struct ControlledPlayer {
    pub id: usize,
    pub name: String,
    pub team: Team,
    pub controller_slot: Option<usize>,
}

/// A controller and the player it controls.
#[derive(Debug)]
pub struct ControllerAssignment {
    pub controller_slot: usize,
    pub player_id: usize,
    pub player_name: String,
    pub team: Team,
}

/// The keys by which assignments are listed: the controller slots.
pub open spec fn controller_keys(players: Seq<ControlledPlayer>) -> Seq<Option<i128>> {
    Seq::new(
        players.len(),
        |i: int|
            match players[i].controller_slot {
                Some(slot) => Some(slot as i128),
                None => None,
            },
    )
}

/// The assignment of a controlled player.
pub open spec fn assigns(a: ControllerAssignment, p: ControlledPlayer) -> bool {
    &&& p.controller_slot == Some(a.controller_slot)
    &&& a.player_id == p.id
    &&& a.player_name@ == p.name@
    &&& a.team == p.team
}

/// Lists the controlled players by controller slot.
pub fn controller_assignments(players: &Vec<ControlledPlayer>) -> (r: Vec<ControllerAssignment>)
    ensures
        exists|order: Seq<usize>| #[trigger]
            is_ranking(controller_keys(players@), order) && r@.len() == order.len() && (forall|
                i: int,
            |
                0 <= i < r@.len() ==> assigns(#[trigger] r@[i], players@[order[i] as int])),
{
    let mut keys: Vec<Option<i128>> = Vec::new();
    let mut i: usize = 0;
    while i < players.len()
        invariant
            i <= players@.len(),
            keys@.len() == i,
            forall|j: int| 0 <= j < i ==> #[trigger] keys@[j] == controller_keys(players@)[j],
        decreases players@.len() - i,
    {
        match players[i].controller_slot {
            Some(slot) => {
                keys.push(Some(slot as i128));
            },
            None => {
                keys.push(None);
            },
        }
        i += 1;
    }
    assert(keys@ =~= controller_keys(players@));
    let order: Vec<usize> = ranking(&keys);
    let mut r: Vec<ControllerAssignment> = Vec::new();
    let mut k: usize = 0;
    while k < order.len()
        invariant
            k <= order@.len(),
            r@.len() == k,
            keys@ == controller_keys(players@),
            is_ranking(keys@, order@),
            forall|j: int| 0 <= j < k ==> assigns(#[trigger] r@[j], players@[order@[j] as int]),
        decreases order@.len() - k,
    {
        let p: &ControlledPlayer = &players[order[k]];
        assert(controller_keys(players@)[order@[k as int] as int] is Some);
        if let Some(slot) = p.controller_slot {
            r.push(
                ControllerAssignment {
                    controller_slot: slot,
                    player_id: p.id,
                    player_name: p.name.clone(),
                    team: p.team,
                },
            );
        }
        k += 1;
    }
    assert(is_ranking(controller_keys(players@), order@));
    r
}

/// How compact a team stands around the ball.
#[derive(Clone, Copy, Debug)]
pub struct CentralBrainTeamShapeTrace {
    pub centroid_to_ball_yards: Real64,
    pub spread_yards: Real64,
    pub players_near_ball: usize,
    pub players_within_1yd: usize,
    pub players_within_3yd: usize,
    pub players_within_5yd: usize,
    pub forward_velocity_yps: Real64,
}

impl CentralBrainTeamShapeTrace {
    pub open spec fn empty() -> Self {
        CentralBrainTeamShapeTrace {
            centroid_to_ball_yards: zero(),
            spread_yards: zero(),
            players_near_ball: 0,
            players_within_1yd: 0,
            players_within_3yd: 0,
            players_within_5yd: 0,
            forward_velocity_yps: zero(),
        }
    }
}

impl Default for CentralBrainTeamShapeTrace {
    fn default() -> (r: Self)
        ensures
            r == Self::empty(),
    {
        let nothing: Real64 = Real64 { bits: 0 };
        CentralBrainTeamShapeTrace {
            centroid_to_ball_yards: nothing,
            spread_yards: nothing,
            players_near_ball: 0,
            players_within_1yd: 0,
            players_within_3yd: 0,
            players_within_5yd: 0,
            forward_velocity_yps: nothing,
        }
    }
}

/// How many of the first `n` distances are at most `radius`.
pub open spec fn within_radius(distances: Seq<Real64>, radius: Real64, n: int) -> int
    decreases n,
{
    if n <= 0 {
        0
    } else {
        within_radius(distances, radius, n - 1) + if !distances[n - 1].nan() && !radius.nan()
            && distances[n - 1].key() <= radius.key() {
            1int
        } else {
            0
        }
    }
}

/// Counts the players at most `radius` from the ball.
pub fn players_within(distances: &Vec<Real64>, radius: Real64) -> (count: usize)
    ensures
        count == within_radius(distances@, radius, distances@.len() as int),
{
    let mut count: usize = 0;
    let mut i: usize = 0;
    while i < distances.len()
        invariant
            i <= distances@.len(),
            count <= i,
            count == within_radius(distances@, radius, i as int),
        decreases distances@.len() - i,
    {
        let d: Real64 = distances[i];
        if !d.is_nan() && !radius.is_nan() && d.order_key() <= radius.order_key() {
            count += 1;
        }
        i += 1;
    }
    count
}

/// A wider ring around the ball holds at least as many players.
pub proof fn wider_rings_hold_more(distances: Seq<Real64>, a: Real64, b: Real64, n: int)
    requires
        !b.nan(),
        a.key() <= b.key(),
        0 <= n <= distances.len(),
    ensures
        within_radius(distances, a, n) <= within_radius(distances, b, n) <= n,
    decreases n,
{
    if n > 0 {
        wider_rings_hold_more(distances, a, b, n - 1);
    }
}

/// The record of a decision.
#[derive(Debug)]
pub struct CentralBrainDecisionTrace {
    pub tick: u64,
    pub scheduled_index: Option<usize>,
    pub action: String,
    pub phase: TacticalPhase,
    pub possession_team: Option<Team>,
    pub ball_holder: Option<usize>,
    pub ball_position: Vec2,
    pub ball_velocity: Vec2,
    pub ball_acceleration: Vec2,
    pub ball_jerk: Vec2,
    pub ball_altitude_yards: Real64,
    pub ball_scheduled_index: Option<usize>,
    pub home_shape: CentralBrainTeamShapeTrace,
    pub away_shape: CentralBrainTeamShapeTrace,
    pub tracked_players: usize,
    pub tracked_officials: usize,
    pub controlled_human_players: usize,
    pub controller_assignments: Vec<ControllerAssignment>,
    pub operation_order: Vec<&'static str>,
}

/// A team's view of the match.
#[derive(Debug)]
pub struct TeamBrainSnapshot {
    pub team: Team,
    pub mode: TeamBrainMode,
    pub phase: TacticalPhase,
    pub possession_team: Option<Team>,
    pub in_possession: bool,
    pub ball_holder: Option<usize>,
    pub ball_position: Vec2,
    pub ball_velocity: Vec2,
    pub ball_acceleration: Vec2,
    pub ball_jerk: Vec2,
    pub ball_altitude_yards: Real64,
    pub ball_scheduled_index: Option<usize>,
    pub ball_last_action: Option<String>,
    pub tracked_team_players: usize,
    pub controlled_human_players: usize,
    pub team_centroid: Vec2,
    pub team_average_velocity: Vec2,
    pub team_spread_yards: Real64,
    pub players_near_ball: usize,
    pub directive: TeamTacticalDirective,
    pub policy_action_entries: usize,
    pub policy_target_entries: usize,
    pub attacking_numbers_advantage: i32,
    pub attacking_overload_score: Real64,
    pub defensive_cover_target: usize,
    pub defensive_cover_actual: usize,
    pub press_intensity: Real64,
    pub risk_tolerance: Real64,
}

/// The origin.
pub open spec fn origin() -> Vec2 {
    Vec2 { x: zero(), y: zero() }
}

impl TeamBrainSnapshot {
    /// The view before the match: nobody has the ball, nothing is tracked, and the numbers are
    /// those of the directive.
    pub open spec fn is_blank(self, directive: TeamTacticalDirective) -> bool {
        &&& self.team == directive.team
        &&& self.mode == TeamBrainMode::Transition
        &&& self.phase == TacticalPhase::Transition
        &&& self.possession_team is None
        &&& !self.in_possession
        &&& self.ball_holder is None
        &&& self.ball_position == origin()
        &&& self.ball_velocity == origin()
        &&& self.ball_acceleration == origin()
        &&& self.ball_jerk == origin()
        &&& self.ball_altitude_yards == zero()
        &&& self.ball_scheduled_index is None
        &&& self.ball_last_action is None
        &&& self.tracked_team_players == 0
        &&& self.controlled_human_players == 0
        &&& self.team_centroid == origin()
        &&& self.team_average_velocity == origin()
        &&& self.team_spread_yards == zero()
        &&& self.players_near_ball == 0
        &&& self.directive == directive
        &&& self.policy_action_entries == 0
        &&& self.policy_target_entries == 0
        &&& self.attacking_numbers_advantage == directive.attacking_numbers_advantage
        &&& self.attacking_overload_score == directive.attacking_overload_score
        &&& self.defensive_cover_target == directive.defensive_cover_target
        &&& self.defensive_cover_actual == directive.defensive_cover_actual
        &&& self.press_intensity == directive.press_intensity
        &&& self.risk_tolerance == directive.risk_tolerance
    }
}

/// A team's view before the match, from its directive.
pub fn default_team_brain_snapshot(directive: TeamTacticalDirective) -> (r: TeamBrainSnapshot)
    ensures
        r.is_blank(directive),
{
    let nothing: Real64 = Real64 { bits: 0 };
    let nowhere: Vec2 = Vec2 { x: nothing, y: nothing };
    TeamBrainSnapshot {
        team: directive.team,
        mode: TeamBrainMode::Transition,
        phase: TacticalPhase::Transition,
        possession_team: None,
        in_possession: false,
        ball_holder: None,
        ball_position: nowhere,
        ball_velocity: nowhere,
        ball_acceleration: nowhere,
        ball_jerk: nowhere,
        ball_altitude_yards: nothing,
        ball_scheduled_index: None,
        ball_last_action: None,
        tracked_team_players: 0,
        controlled_human_players: 0,
        team_centroid: nowhere,
        team_average_velocity: nowhere,
        team_spread_yards: nothing,
        players_near_ball: 0,
        policy_action_entries: 0,
        policy_target_entries: 0,
        attacking_numbers_advantage: directive.attacking_numbers_advantage,
        attacking_overload_score: directive.attacking_overload_score,
        defensive_cover_target: directive.defensive_cover_target,
        defensive_cover_actual: directive.defensive_cover_actual,
        press_intensity: directive.press_intensity,
        risk_tolerance: directive.risk_tolerance,
        directive,
    }
}

/// How near the ball is to a goal line, 1 on it.
pub open spec fn nearness<P: Fn(Real64, Real64) -> Real64, Q: Fn(Real64, Real64) -> Real64>(
    plus: P,
    over: Q,
    ball_y: Real64,
    goal_y: Real64,
    length: Real64,
) -> Real64 {
    clamped_to(
        outcome(
            plus,
            num(D1),
            outcome(
                over,
                outcome(plus, ball_y, goal_y.negated()).absolute(),
                length,
            ).negated(),
        ),
        num(D0),
        num(D1),
    )
}

fn near_goal<P: Fn(Real64, Real64) -> Real64, Q: Fn(Real64, Real64) -> Real64>(
    ball_y: Real64,
    goal_y: Real64,
    length: Real64,
    plus: &P,
    over: &Q,
) -> (r: Real64)
    requires
        is_operation(*plus),
        is_operation(*over),
    ensures
        r == nearness(*plus, *over, ball_y, goal_y, length),
{
    let away: Real64 = apply(plus, ball_y, goal_y.negate()).abs();
    clamp_to(
        apply(plus, at_bits(D1), apply(over, away, length).negate()),
        at_bits(D0),
        at_bits(D1),
    )
}

/// A team's advantage: with the ball how near it is to the opponents' goal, without it how near
/// to the own goal, counted against the team.
pub open spec fn advantage_of<P: Fn(Real64, Real64) -> Real64, Q: Fn(Real64, Real64) -> Real64>(
    plus: P,
    over: Q,
    has_ball: bool,
    ball_y: Real64,
    opponent_goal_y: Real64,
    own_goal_y: Real64,
    field_length: Real64,
) -> Real64 {
    let length = larger(field_length, num(D1));
    if has_ball {
        nearness(plus, over, ball_y, opponent_goal_y, length)
    } else {
        nearness(plus, over, ball_y, own_goal_y, length).negated()
    }
}

/// Measures a team's advantage.
pub fn central_brain_team_advantage<
    P: Fn(Real64, Real64) -> Real64,
    Q: Fn(Real64, Real64) -> Real64,
>(
    has_ball: bool,
    ball_y: Real64,
    opponent_goal_y: Real64,
    own_goal_y: Real64,
    field_length: Real64,
    plus: &P,
    over: &Q,
) -> (r: Real64)
    requires
        is_operation(*plus),
        is_operation(*over),
    ensures
        r == advantage_of(
            *plus,
            *over,
            has_ball,
            ball_y,
            opponent_goal_y,
            own_goal_y,
            field_length,
        ),
{
    let length: Real64 = larger_of(field_length, at_bits(D1));
    if has_ball {
        near_goal(ball_y, opponent_goal_y, length, plus, over)
    } else {
        near_goal(ball_y, own_goal_y, length, plus, over).negate()
    }
}

/// How near the ball is to a goal line: one on it, and less by the distance as a part of the
/// length.
pub proof fn nearness_falls_with_the_distance<
    P: Fn(Real64, Real64) -> Real64,
    Q: Fn(Real64, Real64) -> Real64,
>(
    means: spec_fn(Real64, real) -> bool,
    plus: P,
    over: Q,
    ball_y: Real64,
    goal_y: Real64,
    length: Real64,
    ball: real,
    goal: real,
    l: real,
)
    requires
        reads_sums(means, plus),
        reads_signs(means),
        reads_order(means),
        reads_decimals(means),
        reads_quotients(means, over),
        means(ball_y, ball),
        means(goal_y, goal),
        means(length, l),
        l != 0real,
    ensures
        means(
            nearness(plus, over, ball_y, goal_y, length),
            bounded(1real - size(ball - goal) / l, 0real, 1real),
        ),
{
    decimals_are_read(means);
    assert(ball + -goal == ball - goal);
    let s = size(ball - goal) / l;
    assert(1real + -s == 1real - s);
}

/// Two signals together: both scores add up, to one at most.
pub proof fn joint_signals_add_up<
    P: Fn(Real64, Real64) -> Real64,
>(
    means: spec_fn(Real64, real) -> bool,
    plus: P,
    a: SoccerAdversarialEmbeddingSignal,
    b: SoccerAdversarialEmbeddingSignal,
    x: real,
    y: real,
    v: real,
    w: real,
)
    requires
        reads_sums(means, plus),
        reads_signs(means),
        reads_order(means),
        reads_decimals(means),
        means(a.attack_score, x),
        means(b.attack_score, y),
        means(a.defense_score, v),
        means(b.defense_score, w),
    ensures
        means(joint_signal(plus, a, b).attack_score, bounded(x + y, 0real, 1real)),
        means(joint_signal(plus, a, b).defense_score, bounded(v + w, 0real, 1real)),
{
    decimals_are_read(means);
}

/// A team without a plan defends four tenths of the pitch in front of its own goal and uses 0.62 of
/// the width.
pub proof fn neutral_teams_stand_in_their_half<
    M: Fn(Real64, Real64) -> Real64,
>(
    means: spec_fn(Real64, real) -> bool,
    times: M,
    field_width: Real64,
    field_length: Real64,
    w: real,
    l: real,
)
    requires
        reads_products(means, times),
        reads_signs(means),
        reads_order(means),
        reads_decimals(means),
        means(field_width, w),
        means(field_length, l),
    ensures
        ({
            let home = TeamTacticalDirective::neutral_for(
                times,
                Team::Home,
                field_width,
                field_length,
            );
            let away = TeamTacticalDirective::neutral_for(
                times,
                Team::Away,
                field_width,
                field_length,
            );
            &&& means(home.defensive_line_y, l * (2real / 5real))
            &&& means(away.defensive_line_y, l * (3real / 5real))
            &&& means(home.width_yards, w * (31real / 50real)) && means(
                away.width_yards,
                w * (31real / 50real),
            )
            &&& means(home.support_depth_yards, 11real) && means(
                home.press_intensity,
                (12real / 25real),
            )
            &&& means(home.pass_priority, 1real) && means(home.carry_priority, 1real)
            &&& means(home.shot_threshold_yards, 20real) && means(
                home.risk_tolerance,
                (1real / 2real),
            )
        }),
{
    decimals_are_read(means);
}

/// What a solved formation feeds back: the team presses by 0.92 of what it did and 0.08 of the mean
/// pressing, and takes less risk by a fortieth of the mean pair error and a 36th of the mean line
/// error, a tenth at most.
pub proof fn feedback_follows_the_guidance<
    P: Fn(Real64, Real64) -> Real64,
    M: Fn(Real64, Real64) -> Real64,
    Q: Fn(Real64, Real64) -> Real64,
    C: Fn(usize) -> Real64,
>(
    means: spec_fn(Real64, real) -> bool,
    plus: P,
    times: M,
    over: Q,
    count: C,
    directive: TeamTacticalDirective,
    guidance: Seq<SoccerFormationLpPlayerGuidance>,
    press: real,
    risk: real,
    pressing_mean: real,
    pairs: real,
    lines: real,
)
    requires
        is_faithful(means, plus, times),
        reads_quotients(means, over),
        reads_counts(means, count),
        directive.press_intensity.finite(),
        directive.risk_tolerance.finite(),
        means(directive.press_intensity, press),
        means(directive.risk_tolerance, risk),
        ({
            let picks = measured(guidance, guidance.len() as int);
            let mean = |measure: spec_fn(SoccerFormationLpPlayerGuidance) -> Real64|
                mean_of(plus, over, count, picked_values(guidance, picks, measure));
            &&& means(
                mean(|g: SoccerFormationLpPlayerGuidance| press_share(g)),
                pressing_mean,
            )
            &&& means(mean(|g: SoccerFormationLpPlayerGuidance| pair_error(g)), pairs)
            &&& means(mean(|g: SoccerFormationLpPlayerGuidance| line_error(g)), lines)
        }),
    ensures
        ({
            let after = fed_back(plus, times, over, count, directive, guidance);
            let penalty = bounded(pairs / 40real + lines / 36real, 0real, (1real / 10real));
            &&& means(
                after.press_intensity,
                bounded(press * (23real / 25real) + pressing_mean * (2real / 25real), 0real, 1real),
            )
            &&& means(after.risk_tolerance, bounded(risk - penalty, 0real, 1real))
            &&& after == (TeamTacticalDirective {
                press_intensity: after.press_intensity,
                risk_tolerance: after.risk_tolerance,
                defensive_cover_actual: after.defensive_cover_actual,
                ..directive
            })
        }),
{
    decimals_are_read(means);
    let penalty = bounded(pairs / 40real + lines / 36real, 0real, (1real / 10real));
    assert(risk + -penalty == risk - penalty);
}

/// What is fed back of a player: the pressing kept between 0 and 1, and both errors, which are
/// never below zero.
pub proof fn shares_and_errors_are_read_off(
    means: spec_fn(Real64, real) -> bool,
    g: SoccerFormationLpPlayerGuidance,
    p: real,
    e: real,
    l: real,
)
    requires
        reads_signs(means),
        reads_order(means),
        reads_decimals(means),
        means(g.motion.pressure_weight, p),
        means(g.motion.pair_error_yards, e),
        means(g.motion.role_line_error_yards, l),
    ensures
        means(press_share(g), bounded(p, 0real, 1real)),
        means(pair_error(g), most(e, 0real)),
        means(line_error(g), most(l, 0real)),
{
    decimals_are_read(means);
}

/// The mean of numbers, times how many they are, is their sum.
pub proof fn means_are_means<
    P: Fn(Real64, Real64) -> Real64,
    Q: Fn(Real64, Real64) -> Real64,
    C: Fn(usize) -> Real64,
>(
    means: spec_fn(Real64, real) -> bool,
    plus: P,
    over: Q,
    count: C,
    s: Seq<Real64>,
    x: Seq<real>,
)
    requires
        reads_sums(means, plus),
        reads_signs(means),
        reads_order(means),
        reads_decimals(means),
        reads_quotients(means, over),
        reads_counts(means, count),
        0 < s.len() <= usize::MAX,
        s.len() == x.len(),
        forall|i: int| 0 <= i < s.len() ==> means(#[trigger] s[i], x[i]),
    ensures
        means(mean_of(plus, over, count, s), real_sum(x, x.len() as int) / (s.len() as real)),
{
    decimals_are_read(means);
    sums_mean_sums(means, plus, s, x, s.len() as int);
}

/// Moving the ball towards the goal attacked never ends an attack, and on the mark itself there is
/// none; who has the ball attacks or builds up.
pub proof fn attacks_are_up_the_pitch(
    y: Real64,
    further: Real64,
    home_mark: Real64,
    away_mark: Real64,
    tick: u64,
)
    requires
        !y.nan(),
        !further.nan(),
        y.key() <= further.key(),
    ensures
        ({
            let home = |at: Real64| phase_of(Some(Team::Home), at, home_mark, away_mark, tick);
            let away = |at: Real64| phase_of(Some(Team::Away), at, home_mark, away_mark, tick);
            &&& home(y) == TacticalPhase::HomeAttack ==> home(further) == TacticalPhase::HomeAttack
            &&& away(further) == TacticalPhase::AwayAttack ==> away(y) == TacticalPhase::AwayAttack
            &&& home(y) == TacticalPhase::HomeAttack || home(y) == TacticalPhase::HomeBuildUp
            &&& away(y) == TacticalPhase::AwayAttack || away(y) == TacticalPhase::AwayBuildUp
            &&& home(home_mark) == TacticalPhase::HomeBuildUp
            &&& away(away_mark) == TacticalPhase::AwayBuildUp
            &&& !home_mark.nan() && home_mark.key() < y.key() ==> home(y)
                == TacticalPhase::HomeAttack
            &&& !away_mark.nan() && y.key() < away_mark.key() ==> away(y)
                == TacticalPhase::AwayAttack
        }),
{
}

/// The two teams are mirrored: with the pitch turned round, one attacks where the other does.
pub proof fn phases_are_mirrored(y: Real64, mark: Real64, other: Real64, tick: u64)
    ensures
        phase_of(Some(Team::Home), y, mark, other, tick) == TacticalPhase::HomeAttack
            <==> phase_of(Some(Team::Away), y.negated(), other, mark.negated(), tick)
            == TacticalPhase::AwayAttack,
{
}

/// The nearer the opponents' goal, the higher the third.
pub proof fn thirds_rise_towards_the_goal(near: Real64, far: Real64)
    requires
        !near.nan(),
        !far.nan(),
        near.key() <= far.key(),
    ensures
        third_of(far) <= third_of(near),
        third_of(num(D0)) == 2,
        third_of(num(D0_5)) == 1,
        third_of(num(D1)) == 0,
{
}

/// Overlaps go to the side that the ball is on: further left it stays the left one, further right
/// the right one, and between the marks there is a give-and-go.
pub proof fn overlaps_go_to_the_side_of_the_ball(
    x: Real64,
    right_of_it: Real64,
    left_mark: Real64,
    right_mark: Real64,
)
    requires
        !x.nan(),
        !right_of_it.nan(),
        x.key() <= right_of_it.key(),
        !left_mark.nan(),
        !right_mark.nan(),
        left_mark.key() <= right_mark.key(),
    ensures
        ({
            let nested = |at: Real64| nested_maneuver(true, at, left_mark, right_mark, true);
            &&& nested(right_of_it) == Some(TeamAttackStrategy::WingOverlapLeftCross) ==> nested(x)
                == Some(TeamAttackStrategy::WingOverlapLeftCross)
            &&& nested(x) == Some(TeamAttackStrategy::WingOverlapRightCross) ==> nested(right_of_it)
                == Some(TeamAttackStrategy::WingOverlapRightCross)
            &&& nested(left_mark) == Some(TeamAttackStrategy::GiveAndGoCentral)
            &&& nested(right_mark) == Some(TeamAttackStrategy::GiveAndGoCentral)
            &&& x.key() < left_mark.key() ==> nested(x) != nested(left_mark)
            &&& right_mark.key() < right_of_it.key() ==> nested(right_of_it) != nested(right_mark)
        }),
{
}

/// A nested overlap only ever raises the run probability, to its floor at least, and leaves the
/// passing alone; a give-and-go leaves the runs alone.
pub proof fn overlaps_raise_the_runs(
    directive: TeamTacticalDirective,
    sub: TeamAttackStrategy,
    run_floor: Real64,
    boosted: Real64,
)
    requires
        !run_floor.nan(),
    ensures
        ({
            let after = overlaid(directive, Some(sub), run_floor, boosted);
            let p = directive.flank_overlap_run_probability;
            let q = after.flank_overlap_run_probability;
            &&& is_overlap(sub) ==> !q.nan() && q.key() >= run_floor.key()
            &&& is_overlap(sub) && !p.nan() ==> q.key() >= p.key() && (q == p || q == run_floor)
            &&& is_overlap(sub) ==> after.pass_priority == directive.pass_priority
            &&& !is_overlap(sub) ==> q == p
            &&& is_give_and_go(sub) ==> after.pass_priority == boosted
        }),
{
}

/// With the ball a team gains by every yard towards the opponents' goal; without it, it loses by
/// every yard towards its own. The length is a yard at least.
pub proof fn advantage_is_gained_up_the_pitch<
    P: Fn(Real64, Real64) -> Real64,
    Q: Fn(Real64, Real64) -> Real64,
>(
    means: spec_fn(Real64, real) -> bool,
    plus: P,
    over: Q,
    ball_y: Real64,
    opponent_goal_y: Real64,
    own_goal_y: Real64,
    field_length: Real64,
    y: real,
    theirs: real,
    ours: real,
    l: real,
)
    requires
        reads_sums(means, plus),
        reads_signs(means),
        reads_order(means),
        reads_decimals(means),
        reads_quotients(means, over),
        means(ball_y, y),
        means(opponent_goal_y, theirs),
        means(own_goal_y, ours),
        means(field_length, l),
    ensures
        means(
            advantage_of(plus, over, true, ball_y, opponent_goal_y, own_goal_y, field_length),
            bounded(1real - size(y - theirs) / most(l, 1real), 0real, 1real),
        ),
        means(
            advantage_of(plus, over, false, ball_y, opponent_goal_y, own_goal_y, field_length),
            -bounded(1real - size(y - ours) / most(l, 1real), 0real, 1real),
        ),
{
    decimals_are_read(means);
    let a = size(y - theirs) / most(l, 1real);
    let b = size(y - ours) / most(l, 1real);
    assert(y + -theirs == y - theirs && y + -ours == y - ours);
    assert(1real + -a == 1real - a && 1real + -b == 1real - b);
}

} // verus!
