//! Learning which maneuvers pay: every committed maneuver is credited with the ground that it
//! gained, and a new one has to beat the learned value of the one that is held.
use crate::central::{
    central_brain_team_advantage, context_of, nearness, nearness_falls_with_the_distance, overlaid,
    overlay_nested_maneuver, strategy_context, third_of, CommitmentReview, TeamStrategyCommitment,
    TeamTacticalDirective,
};
use crate::decimals::{D0, D0_12, D0_5, D0_6, D1};
use crate::meaning::{bounded, decimals_are_read, is_faithful, most, reads_quotients, size};
use crate::number::{
    apply, at_bits, is_operation, larger, larger_of, num, outcome, Real64,
};
use crate::pitch::Vec2;
use crate::strategy::TeamAttackStrategy;
use vstd::prelude::*;

verus! {

/// The learned value of a maneuver in a situation.
#[derive(Clone, Copy, Debug, PartialEq, Eq, Structural)]
pub struct StrategyValue {
    pub context: u8,
    pub strategy: TeamAttackStrategy,
    pub value: Real64,
}

/// Learned values; whatever has none is worth nothing.
#[derive(Debug)]
pub struct StrategyValues {
    pub entries: Vec<StrategyValue>,
}

/// The entry speaks of a maneuver in a situation.
pub open spec fn speaks_of(e: StrategyValue, context: u8, strategy: TeamAttackStrategy) -> bool {
    e.context == context && e.strategy == strategy
}

/// The value among the entries from the `i`-th on.
pub open spec fn learned_from(
    entries: Seq<StrategyValue>,
    context: u8,
    strategy: TeamAttackStrategy,
    i: int,
) -> Real64
    decreases entries.len() - i,
{
    if i < 0 || i >= entries.len() {
        num(D0)
    } else if speaks_of(entries[i], context, strategy) {
        entries[i].value
    } else {
        learned_from(entries, context, strategy, i + 1)
    }
}

/// What a value becomes when a window has earned a reward: it moves a part of the way.
pub open spec fn moved_value<P: Fn(Real64, Real64) -> Real64, M: Fn(Real64, Real64) -> Real64>(
    plus: P,
    times: M,
    value: Real64,
    reward: Real64,
    alpha: Real64,
) -> Real64 {
    outcome(
        plus,
        outcome(times, value, outcome(plus, num(D1), alpha.negated())),
        outcome(times, reward, alpha),
    )
}

proof fn first_entry_tells(
    entries: Seq<StrategyValue>,
    context: u8,
    strategy: TeamAttackStrategy,
    i: int,
    k: int,
)
    requires
        0 <= i <= k <= entries.len(),
        forall|j: int| i <= j < k ==> !speaks_of(#[trigger] entries[j], context, strategy),
        k < entries.len() ==> speaks_of(entries[k], context, strategy),
    ensures
        learned_from(entries, context, strategy, i) == if k < entries.len() {
            entries[k].value
        } else {
            num(D0)
        },
    decreases k - i,
{
    if i < k {
        first_entry_tells(entries, context, strategy, i + 1, k);
    }
}

proof fn other_entries_stay(
    before: Seq<StrategyValue>,
    after: Seq<StrategyValue>,
    context: u8,
    strategy: TeamAttackStrategy,
    i: int,
)
    requires
        0 <= i,
        before.len() <= after.len(),
        forall|j: int|
            0 <= j < before.len() ==> (before[j] == #[trigger] after[j] || (!speaks_of(
                before[j],
                context,
                strategy,
            ) && !speaks_of(after[j], context, strategy))),
        forall|j: int|
            before.len() <= j < after.len() ==> !speaks_of(#[trigger] after[j], context, strategy),
    ensures
        learned_from(after, context, strategy, i) == learned_from(before, context, strategy, i),
    decreases after.len() - i,
{
    if i < after.len() {
        assert(after[i] == after[i]);
        other_entries_stay(before, after, context, strategy, i + 1);
    }
}

impl StrategyValues {
    /// The learned value of a maneuver in a situation.
    pub open spec fn learned(self, context: u8, strategy: TeamAttackStrategy) -> Real64 {
        learned_from(self.entries@, context, strategy, 0)
    }

    /// No values yet.
    pub fn new() -> (r: Self)
        ensures
            forall|c: u8, s: TeamAttackStrategy| #[trigger] r.learned(c, s) == num(D0),
    {
        StrategyValues { entries: Vec::new() }
    }

    fn find(&self, context: u8, strategy: TeamAttackStrategy) -> (k: usize)
        ensures
            k <= self.entries@.len(),
            forall|j: int|
                0 <= j < k ==> !speaks_of(#[trigger] self.entries@[j], context, strategy),
            k < self.entries@.len() ==> speaks_of(self.entries@[k as int], context, strategy),
    {
        let mut k: usize = 0;
        while k < self.entries.len()
            invariant
                k <= self.entries@.len(),
                forall|j: int|
                    0 <= j < k ==> !speaks_of(#[trigger] self.entries@[j], context, strategy),
            decreases self.entries@.len() - k,
        {
            let e: StrategyValue = self.entries[k];
            if e.context == context && e.strategy == strategy {
                return k;
            }
            k += 1;
        }
        k
    }

    pub fn value(&self, context: u8, strategy: TeamAttackStrategy) -> (r: Real64)
        ensures
            r == self.learned(context, strategy),
    {
        let k: usize = self.find(context, strategy);
        proof {
            first_entry_tells(self.entries@, context, strategy, 0, k as int);
        }
        if k < self.entries.len() {
            self.entries[k].value
        } else {
            at_bits(D0)
        }
    }

    /// Moves the value of a maneuver in a situation towards a reward; all others stay.
    pub fn learn<P: Fn(Real64, Real64) -> Real64, M: Fn(Real64, Real64) -> Real64>(
        &mut self,
        context: u8,
        strategy: TeamAttackStrategy,
        reward: Real64,
        alpha: Real64,
        plus: &P,
        times: &M,
    )
        requires
            is_operation(*plus),
            is_operation(*times),
        ensures
            final(self).learned(context, strategy) == moved_value(
                *plus,
                *times,
                old(self).learned(context, strategy),
                reward,
                alpha,
            ),
            forall|c: u8, s: TeamAttackStrategy|
                c != context || s != strategy ==> #[trigger] final(self).learned(c, s) == old(
                    self,
                ).learned(c, s),
    {
        let ghost before = self.entries@;
        let held: Real64 = self.value(context, strategy);
        let rest: Real64 = apply(plus, at_bits(D1), alpha.negate());
        let value: Real64 = apply(plus, apply(times, held, rest), apply(times, reward, alpha));
        let k: usize = self.find(context, strategy);
        let entry: StrategyValue = StrategyValue { context, strategy, value };
        if k < self.entries.len() {
            self.entries.set(k, entry);
        } else {
            self.entries.push(entry);
        }
        proof {
            let after = self.entries@;
            first_entry_tells(after, context, strategy, 0, k as int);
            assert forall|c: u8, s: TeamAttackStrategy|
                c != context || s != strategy implies #[trigger] learned_from(after, c, s, 0)
                == learned_from(before, c, s, 0) by {
                other_entries_stay(before, after, c, s, 0);
            }
        }
    }
}

/// The numbers by which commitments are weighed.
#[derive(Clone, Copy, Debug, PartialEq, Eq, Structural)]
pub struct CommitmentConstants {
    /// What a proposed maneuver starts from.
    pub rule_prior: Real64,
    /// What the held maneuver starts from.
    pub held_hysteresis: Real64,
    pub value_weight: Real64,
    /// How far a learned value moves towards a reward.
    pub ema_alpha: Real64,
    pub commit_ticks: u64,
    /// The least probability of an overlapping run beside a nested overlap.
    pub overlap_run_probability: Real64,
    /// By how much a nested give-and-go raises the priority of passes.
    pub give_and_go_pass_boost: Real64,
}

/// What a review of a team's commitment sees.
#[derive(Clone, Copy, Debug, PartialEq, Eq, Structural)]
pub struct CommitmentSituation {
    pub tick: u64,
    pub has_ball: bool,
    pub advantage: Real64,
    /// The ball's distance to the opposing goal, as a share of the pitch.
    pub to_opponent_goal: Real64,
    pub opponent_press: Real64,
    pub ball_x: Real64,
    pub left_mark: Real64,
    pub right_mark: Real64,
    pub proposed_hosts_pairs: bool,
    pub held_hosts_pairs: bool,
}

/// What a situation is read from.
#[derive(Clone, Copy, Debug, PartialEq, Eq, Structural)]
pub struct PossessionReading {
    pub tick: u64,
    pub has_ball: bool,
    pub ball: Vec2,
    pub field_width: Real64,
    pub field_length: Real64,
    pub opponent_goal_y: Real64,
    pub own_goal_y: Real64,
    pub opponent_press: Real64,
    pub proposed_hosts_pairs: bool,
    pub held_hosts_pairs: bool,
}

/// The situation that a reading tells: the advantage, how far the opposing goal is, and where the
/// ball counts as wide.
pub open spec fn situation_from<
    P: Fn(Real64, Real64) -> Real64,
    M: Fn(Real64, Real64) -> Real64,
    Q: Fn(Real64, Real64) -> Real64,
>(plus: P, times: M, over: Q, r: PossessionReading) -> CommitmentSituation {
    let length = larger(r.field_length, num(D1));
    let center = outcome(times, r.field_width, num(D0_5));
    let wide = outcome(times, r.field_width, num(D0_12));
    CommitmentSituation {
        tick: r.tick,
        has_ball: r.has_ball,
        advantage: if r.has_ball {
            nearness(plus, over, r.ball.y, r.opponent_goal_y, length)
        } else {
            nearness(plus, over, r.ball.y, r.own_goal_y, length).negated()
        },
        to_opponent_goal: outcome(
            over,
            outcome(plus, r.ball.y, r.opponent_goal_y.negated()).absolute(),
            length,
        ),
        opponent_press: r.opponent_press,
        ball_x: r.ball.x,
        left_mark: outcome(plus, center, wide.negated()),
        right_mark: outcome(plus, center, wide),
        proposed_hosts_pairs: r.proposed_hosts_pairs,
        held_hosts_pairs: r.held_hosts_pairs,
    }
}

/// Reads a situation.
pub fn read_situation<
    P: Fn(Real64, Real64) -> Real64,
    M: Fn(Real64, Real64) -> Real64,
    Q: Fn(Real64, Real64) -> Real64,
>(r: &PossessionReading, plus: &P, times: &M, over: &Q) -> (s: CommitmentSituation)
    requires
        is_operation(*plus),
        is_operation(*times),
        is_operation(*over),
    ensures
        s == situation_from(*plus, *times, *over, *r),
{
    let length: Real64 = larger_of(r.field_length, at_bits(D1));
    let center: Real64 = apply(times, r.field_width, at_bits(D0_5));
    let wide: Real64 = apply(times, r.field_width, at_bits(D0_12));
    let away: Real64 = apply(plus, r.ball.y, r.opponent_goal_y.negate()).abs();
    CommitmentSituation {
        tick: r.tick,
        has_ball: r.has_ball,
        advantage: central_brain_team_advantage(
            r.has_ball,
            r.ball.y,
            r.opponent_goal_y,
            r.own_goal_y,
            r.field_length,
            plus,
            over,
        ),
        to_opponent_goal: apply(over, away, length),
        opponent_press: r.opponent_press,
        ball_x: r.ball.x,
        left_mark: apply(plus, center, wide.negate()),
        right_mark: apply(plus, center, wide),
        proposed_hosts_pairs: r.proposed_hosts_pairs,
        held_hosts_pairs: r.held_hosts_pairs,
    }
}

/// The bucket of the situation.
pub open spec fn bucket(s: CommitmentSituation) -> u8 {
    context_of(s.has_ball, third_of(s.to_opponent_goal), num(D0_6).less(s.opponent_press)) as u8
}

/// The score of a maneuver: where it starts from, and its learned value by the weight.
pub open spec fn maneuver_score<P: Fn(Real64, Real64) -> Real64, M: Fn(Real64, Real64) -> Real64>(
    plus: P,
    times: M,
    prior: Real64,
    weight: Real64,
    value: Real64,
) -> Real64 {
    outcome(plus, prior, outcome(times, weight, value))
}

/// The learned values once a commitment that ends has been credited.
pub open spec fn is_credited<P: Fn(Real64, Real64) -> Real64, M: Fn(Real64, Real64) -> Real64>(
    plus: P,
    times: M,
    before: StrategyValues,
    held: TeamStrategyCommitment,
    s: CommitmentSituation,
    alpha: Real64,
    after: StrategyValues,
) -> bool {
    if held.due(s.tick, s.has_ball) && held.set && held.committed_has_ball {
        let reward = outcome(plus, s.advantage, held.advantage_at_commit.negated());
        &&& after.learned(held.context, held.attack) == moved_value(
            plus,
            times,
            before.learned(held.context, held.attack),
            reward,
            alpha,
        )
        &&& forall|c: u8, a: TeamAttackStrategy|
            c != held.context || a != held.attack ==> #[trigger] after.learned(c, a)
                == before.learned(c, a)
    } else {
        forall|c: u8, a: TeamAttackStrategy| #[trigger] after.learned(c, a) == before.learned(c, a)
    }
}

/// The review of a commitment, with the scores that the learned values give.
pub open spec fn review_of<P: Fn(Real64, Real64) -> Real64, M: Fn(Real64, Real64) -> Real64>(
    plus: P,
    times: M,
    values: StrategyValues,
    held: TeamStrategyCommitment,
    proposed: TeamAttackStrategy,
    s: CommitmentSituation,
    k: CommitmentConstants,
) -> CommitmentReview {
    CommitmentReview {
        tick: s.tick,
        has_ball: s.has_ball,
        advantage: s.advantage,
        context: bucket(s),
        rule_score: maneuver_score(
            plus,
            times,
            k.rule_prior,
            k.value_weight,
            values.learned(bucket(s), proposed),
        ),
        held_score: maneuver_score(
            plus,
            times,
            k.held_hysteresis,
            k.value_weight,
            values.learned(bucket(s), held.attack),
        ),
        rule_hosts_pairs: s.proposed_hosts_pairs,
        held_hosts_pairs: s.held_hosts_pairs,
        ball_x: s.ball_x,
        left_mark: s.left_mark,
        right_mark: s.right_mark,
        commit_ticks: k.commit_ticks,
    }
}

/// What crediting, reviewing and laying out a commitment leaves.
pub open spec fn is_committed<P: Fn(Real64, Real64) -> Real64, M: Fn(Real64, Real64) -> Real64>(
    plus: P,
    times: M,
    held: TeamStrategyCommitment,
    directive: TeamTacticalDirective,
    values: StrategyValues,
    situation: CommitmentSituation,
    constants: CommitmentConstants,
    held_after: TeamStrategyCommitment,
    directive_after: TeamTacticalDirective,
    values_after: StrategyValues,
) -> bool {
    let review = review_of(
        plus,
        times,
        values_after,
        held,
        directive.attack_strategy,
        situation,
        constants,
    );
    let due = held.due(situation.tick, situation.has_ball);
    let led = if due {
        TeamTacticalDirective {
            attack_strategy: held.chosen(directive.attack_strategy, review),
            ..directive
        }
    } else {
        TeamTacticalDirective {
            attack_strategy: held.attack,
            defense_strategy: held.defense,
            ..directive
        }
    };
    &&& is_credited(plus, times, values, held, situation, constants.ema_alpha, values_after)
    &&& held_after == if due {
        held.reviewed(directive, review)
    } else {
        held
    }
    &&& directive_after == overlaid(
        led,
        held_after.sub,
        constants.overlap_run_probability,
        outcome(times, led.pass_priority, constants.give_and_go_pass_boost),
    )
}

/// Credits, reviews and lays out a team's commitment: a commitment that ends is credited with the
/// ground it gained, then it is reviewed by the learned values or held, and its nested maneuver is
/// laid over the directive.
pub fn apply_strategy_commitment<
    P: Fn(Real64, Real64) -> Real64,
    M: Fn(Real64, Real64) -> Real64,
>(
    commitment: &mut TeamStrategyCommitment,
    directive: &mut TeamTacticalDirective,
    values: &mut StrategyValues,
    situation: &CommitmentSituation,
    constants: &CommitmentConstants,
    plus: &P,
    times: &M,
)
    requires
        is_operation(*plus),
        is_operation(*times),
        !constants.overlap_run_probability.nan(),
    ensures
        is_committed(
            *plus,
            *times,
            *old(commitment),
            *old(directive),
            *old(values),
            *situation,
            *constants,
            *final(commitment),
            *final(directive),
            *final(values),
        ),
{
    let context: u8 = strategy_context(
        situation.has_ball,
        situation.to_opponent_goal,
        situation.opponent_press,
    );
    if let Some(c) = commitment.credit(situation.tick, situation.has_ball) {
        let reward: Real64 = apply(plus, situation.advantage, c.advantage_at_commit.negate());
        values.learn(c.context, c.attack, reward, constants.ema_alpha, plus, times);
    }
    let proposed: Real64 = values.value(context, directive.attack_strategy);
    let held: Real64 = values.value(context, commitment.attack);
    let review: CommitmentReview = CommitmentReview {
        tick: situation.tick,
        has_ball: situation.has_ball,
        advantage: situation.advantage,
        context,
        rule_score: apply(
            plus,
            constants.rule_prior,
            apply(times, constants.value_weight, proposed),
        ),
        held_score: apply(
            plus,
            constants.held_hysteresis,
            apply(times, constants.value_weight, held),
        ),
        rule_hosts_pairs: situation.proposed_hosts_pairs,
        held_hosts_pairs: situation.held_hosts_pairs,
        ball_x: situation.ball_x,
        left_mark: situation.left_mark,
        right_mark: situation.right_mark,
        commit_ticks: constants.commit_ticks,
    };
    commitment.apply(directive, &review);
    let boosted: Real64 = apply(times, directive.pass_priority, constants.give_and_go_pass_boost);
    overlay_nested_maneuver(
        directive,
        commitment.sub,
        constants.overlap_run_probability,
        boosted,
    );
}

/// What was learned of a manoeuvre moves towards its reward by the share that a reward counts.
pub proof fn values_move_towards_the_reward<
    P: Fn(Real64, Real64) -> Real64,
    M: Fn(Real64, Real64) -> Real64,
>(
    means: spec_fn(Real64, real) -> bool,
    plus: P,
    times: M,
    value: Real64,
    reward: Real64,
    alpha: Real64,
    v: real,
    r: real,
    a: real,
)
    requires
        is_faithful(means, plus, times),
        means(value, v),
        means(reward, r),
        means(alpha, a),
    ensures
        means(moved_value(plus, times, value, reward, alpha), v + a * (r - v)),
{
    decimals_are_read(means);
    assert(1real + -a == 1real - a);
    assert(v * (1real - a) + r * a == v + a * (r - v)) by (nonlinear_arith);
}

/// A manoeuvre scores its prior and what was learned of it, weighed.
pub proof fn manoeuvres_score_by_what_was_learned<
    P: Fn(Real64, Real64) -> Real64,
    M: Fn(Real64, Real64) -> Real64,
>(
    means: spec_fn(Real64, real) -> bool,
    plus: P,
    times: M,
    prior: Real64,
    weight: Real64,
    value: Real64,
    p: real,
    w: real,
    v: real,
)
    requires
        is_faithful(means, plus, times),
        means(prior, p),
        means(weight, w),
        means(value, v),
    ensures
        means(maneuver_score(plus, times, prior, weight, value), p + w * v),
{
    decimals_are_read(means);
}

/// The situation of a team: how near the ball is to the goal that it attacks while it has the ball,
/// how near to its own, against it, while it has not; and the flanks begin 0.12 of the width to
/// both sides of the middle.
pub proof fn situations_are_read_off_the_ball<
    P: Fn(Real64, Real64) -> Real64,
    M: Fn(Real64, Real64) -> Real64,
    Q: Fn(Real64, Real64) -> Real64,
>(
    means: spec_fn(Real64, real) -> bool,
    plus: P,
    times: M,
    over: Q,
    r: PossessionReading,
    ball: real,
    theirs: real,
    ours: real,
    l: real,
    w: real,
)
    requires
        is_faithful(means, plus, times),
        reads_quotients(means, over),
        means(r.ball.y, ball),
        means(r.opponent_goal_y, theirs),
        means(r.own_goal_y, ours),
        means(r.field_length, l),
        means(r.field_width, w),
    ensures
        ({
            let s = situation_from(plus, times, over, r);
            let length = most(l, 1real);
            &&& r.has_ball ==> means(
                s.advantage,
                bounded(1real - size(ball - theirs) / length, 0real, 1real),
            )
            &&& !r.has_ball ==> means(
                s.advantage,
                -bounded(1real - size(ball - ours) / length, 0real, 1real),
            )
            &&& means(s.to_opponent_goal, size(ball - theirs) / length)
            &&& means(s.left_mark, w / 2real - w * (3real / 25real))
            &&& means(s.right_mark, w / 2real + w * (3real / 25real))
        }),
{
    decimals_are_read(means);
    let length = larger(r.field_length, num(D1));
    let l1 = most(l, 1real);
    nearness_falls_with_the_distance(
        means,
        plus,
        over,
        r.ball.y,
        r.opponent_goal_y,
        length,
        ball,
        theirs,
        l1,
    );
    nearness_falls_with_the_distance(
        means,
        plus,
        over,
        r.ball.y,
        r.own_goal_y,
        length,
        ball,
        ours,
        l1,
    );
    assert(ball + -theirs == ball - theirs);
    assert(w * (1real / 2real) == w / 2real);
    let wide = w * (3real / 25real);
    assert(w / 2real + -wide == w / 2real - wide);
    assert(means(outcome(times, r.field_width, num(D0_12)), wide));
}

} // verus!
