//! The learned appetite of wingers to pinch in: what it sees, how it is trained, and how its
//! training rows are gathered during a match.
use crate::decimals::{D0, D0_001, D0_4, D0_6, D0_8, D0_9, D1, D2, D4, D7_5, DM1, DM4};
use crate::meaning::{
    bounded, decimals_are_read, is_faithful, is_root, least, most, reads_counts, reads_decimals,
    reads_function, reads_order, reads_quotients, reads_roots, reads_signs, reads_sums, real_sum,
    sums_mean_sums,
};
use crate::number::{
    add_up, apply, at_bits, clamp_to, clamped_to, image, is_conversion, is_function, is_operation,
    larger, larger_of, map_number, num, number_of, outcome, smaller, smaller_of, square_off,
    squares_from, sum_up, to_number, Real64,
};
use crate::geometry::is_distance;
use crate::pitch::{PlayerRole, Team, Vec2};
use crate::winger::sighting::{
    find_sightings, is_measured, is_question, is_room, sightings_of, WingerSituation,
};
use vstd::prelude::*;

verus! {

/// Numbers that the network reads.
pub const WINGER_PINCH_FEATURE_DIM: usize = 8;

/// Width of the hidden layer.
pub const WINGER_PINCH_HIDDEN_UNITS: usize = 14;

/// Ticks between two samplings.
pub const WINGER_PINCH_SAMPLE_INTERVAL_TICKS: u64 = 6;

/// Ticks over which a decision's reward is measured.
pub const WINGER_PINCH_REWARD_WINDOW_TICKS: u64 = 45;

/// How many training rows are kept.
pub const WINGER_PINCH_SAMPLE_CAP: usize = 8192;

/// Training steps before a network is consulted.
pub const WINGER_PINCH_HEAD_MIN_TRAINING_STEPS: usize = 200;

/// Weight of gained territory in the reward, by its bit pattern.
pub const WINGER_PINCH_TERRITORIAL_SHAPING_WEIGHT: u64 = D1;

/// What a gradient is clipped to in training, by its bit pattern.
pub const WINGER_PINCH_GRADIENT_CLIP: u64 = D4;

/// What is mixed into the seed of a network.
pub const WINGER_PINCH_SEED_MASK: u32 = 0x3C8F_A2D1;

/// What a winger sees.
#[derive(Clone, Copy, Debug, PartialEq, Eq, Structural)]
pub struct WingerPinchInputs {
    pub ball_on_my_flank: Real64,
    pub crossing_position_on: Real64,
    pub depth_frac: Real64,
    pub box_congestion: Real64,
    pub back_post_offside: Real64,
    pub back_post_space: Real64,
    pub half_space_space: Real64,
    pub dist_to_ball: Real64,
}

/// The number kept between 0 and 1.
pub open spec fn unit_of(v: Real64) -> Real64 {
    clamped_to(v, num(D0), num(D1))
}

fn unit(v: Real64) -> (r: Real64)
    ensures
        r == unit_of(v),
{
    clamp_to(v, at_bits(D0), at_bits(D1))
}

impl WingerPinchInputs {
    /// What the network reads, in order.
    pub open spec fn features(self) -> Seq<Real64> {
        seq![
            unit_of(self.ball_on_my_flank),
            unit_of(self.crossing_position_on),
            unit_of(self.depth_frac),
            unit_of(self.box_congestion),
            unit_of(self.back_post_offside),
            unit_of(self.back_post_space),
            unit_of(self.half_space_space),
            unit_of(self.dist_to_ball),
        ]
    }

    pub fn to_features(&self) -> (r: Vec<Real64>)
        ensures
            r@ == self.features(),
            r@.len() == WINGER_PINCH_FEATURE_DIM,
    {
        let r: Vec<Real64> = vec![
            unit(self.ball_on_my_flank),
            unit(self.crossing_position_on),
            unit(self.depth_frac),
            unit(self.box_congestion),
            unit(self.back_post_offside),
            unit(self.back_post_space),
            unit(self.half_space_space),
            unit(self.dist_to_ball),
        ];
        assert(r@ =~= self.features());
        r
    }
}

/// Every number that a winger without a NaN hands to the network lies between 0 and 1.
pub proof fn features_are_bounded(inputs: WingerPinchInputs, i: int)
    requires
        0 <= i < WINGER_PINCH_FEATURE_DIM,
        !inputs.features()[i].nan(),
    ensures
        inputs.features()[i].finite(),
        0 <= inputs.features()[i].key() <= num(D1).key(),
{
}

/// The bias before any learning: inwards away from the ball with a deep cross and room, outwards
/// on the ball's flank.
pub open spec fn seed_bias<
    P: Fn(Real64, Real64) -> Real64,
    M: Fn(Real64, Real64) -> Real64,
    T: Fn(Real64) -> Real64,
>(plus: P, times: M, squash: T, inputs: WingerPinchInputs) -> Real64 {
    let weak_side = unit_of(outcome(plus, num(D1), inputs.ball_on_my_flank.negated()));
    let room = larger(inputs.back_post_space, inputs.half_space_space);
    let depth = outcome(plus, num(D0_4), outcome(times, num(D0_6), inputs.depth_frac));
    let inwards = outcome(
        times,
        outcome(
            times,
            outcome(times, outcome(times, num(D0_8), weak_side), inputs.crossing_position_on),
            depth,
        ),
        room,
    );
    let outwards = outcome(times, num(D0_9), inputs.ball_on_my_flank);
    image(squash, outcome(plus, outcome(plus, num(D0), inwards), outwards.negated()))
}

/// Computes the bias before any learning; `squash` maps all numbers between -1 and 1.
pub fn analytic_winger_pinch_bias<
    P: Fn(Real64, Real64) -> Real64,
    M: Fn(Real64, Real64) -> Real64,
    T: Fn(Real64) -> Real64,
>(inputs: &WingerPinchInputs, plus: &P, times: &M, squash: &T) -> (r: Real64)
    requires
        is_operation(*plus),
        is_operation(*times),
        is_function(*squash),
    ensures
        r == seed_bias(*plus, *times, *squash, *inputs),
{
    let weak_side: Real64 = unit(apply(plus, at_bits(D1), inputs.ball_on_my_flank.negate()));
    let room: Real64 = larger_of(inputs.back_post_space, inputs.half_space_space);
    let depth: Real64 = apply(
        plus,
        at_bits(D0_4),
        apply(times, at_bits(D0_6), inputs.depth_frac),
    );
    let side: Real64 = apply(times, at_bits(D0_8), weak_side);
    let cross: Real64 = apply(times, side, inputs.crossing_position_on);
    let deep: Real64 = apply(times, cross, depth);
    let inwards: Real64 = apply(times, deep, room);
    let outwards: Real64 = apply(times, at_bits(D0_9), inputs.ball_on_my_flank);
    let z: Real64 = apply(plus, apply(plus, at_bits(D0), inwards), outwards.negate());
    map_number(squash, z)
}

/// A training row.
#[derive(Clone, Copy, Debug, PartialEq, Eq, Structural)]
pub struct WingerPinchSample {
    pub inputs: WingerPinchInputs,
    /// The bias that was acted on.
    pub action_bias: Real64,
    pub reward: Real64,
}

/// A decision whose reward is still being measured.
#[derive(Clone, Copy, Debug, PartialEq, Eq, Structural)]
pub struct PendingWingerPinchDecision {
    pub team: Team,
    pub player_id: usize,
    pub inputs: WingerPinchInputs,
    pub action_bias: Real64,
    pub decision_territorial: Real64,
    pub reward_accum: Real64,
    pub due_tick: u64,
}

/// What a layer of a network puts its sums through.
#[derive(Clone, Copy, Debug, PartialEq, Eq, Structural)]
pub enum ActivationName {
    Tanh,
}

/// How a network is to be made.
#[derive(Debug)]
pub struct RandomNetworkSpec {
    pub input_dim: usize,
    /// The widths of the layers between.
    pub hidden_layers: Vec<usize>,
    pub output_dim: usize,
    pub hidden_activation: ActivationName,
    pub output_activation: ActivationName,
    pub weight_scale: Option<Real64>,
}

/// The network of a head: from the features through one layer to one number, each between -1 and
/// 1, with weights of the usual scale.
pub open spec fn is_head_network(s: RandomNetworkSpec) -> bool {
    &&& s.input_dim == WINGER_PINCH_FEATURE_DIM
    &&& s.hidden_layers@ == seq![WINGER_PINCH_HIDDEN_UNITS]
    &&& s.output_dim == 1
    &&& s.hidden_activation == ActivationName::Tanh
    &&& s.output_activation == ActivationName::Tanh
    &&& s.weight_scale is None
}

/// Says how the network of a head is to be made.
pub fn head_network() -> (s: RandomNetworkSpec)
    ensures
        is_head_network(s),
{
    let mut hidden_layers: Vec<usize> = Vec::new();
    hidden_layers.push(WINGER_PINCH_HIDDEN_UNITS);
    assert(hidden_layers@ =~= seq![WINGER_PINCH_HIDDEN_UNITS]);
    RandomNetworkSpec {
        input_dim: WINGER_PINCH_FEATURE_DIM,
        hidden_layers,
        output_dim: 1,
        hidden_activation: ActivationName::Tanh,
        output_activation: ActivationName::Tanh,
        weight_scale: None,
    }
}

/// A network may be made for a head from a seed.
pub open spec fn is_made<N, K: Fn(&RandomNetworkSpec, u32) -> N>(
    make: K,
    seed: u32,
    network: N,
) -> bool {
    exists|s: RandomNetworkSpec| #[trigger]
        is_head_network(s) && call_ensures(make, (&s, seed ^ WINGER_PINCH_SEED_MASK), network)
}

/// A network together with the record of its training.
#[derive(Debug)]
pub struct WingerPinchHead<N> {
    pub network: N,
    pub training_steps: usize,
    pub last_loss: Option<Real64>,
}

/// All numbers are finite.
pub open spec fn all_finite(s: Seq<Real64>) -> bool {
    forall|i: int| 0 <= i < s.len() ==> (#[trigger] s[i]).finite()
}

fn every_finite(v: &Vec<Real64>) -> (r: bool)
    ensures
        r == all_finite(v@),
{
    let mut i: usize = 0;
    while i < v.len()
        invariant
            i <= v@.len(),
            forall|j: int| 0 <= j < i ==> (#[trigger] v@[j]).finite(),
        decreases v@.len() - i,
    {
        if !v[i].is_finite() {
            return false;
        }
        i += 1;
    }
    true
}

/// The first number of what a network puts out, where it is finite.
pub open spec fn first_finite(out: Seq<Real64>) -> Option<Real64> {
    if out.len() > 0 && out[0].finite() {
        Some(out[0])
    } else {
        None
    }
}

/// The network may put this out.
pub open spec fn may_put_out<N, R: Fn(&N, &Vec<Real64>) -> Vec<Real64>>(
    run: R,
    network: N,
    features: Seq<Real64>,
    out: Seq<Real64>,
) -> bool {
    exists|v: Vec<Real64>, r: Vec<Real64>|
        v@ == features && out == r@ && #[trigger] call_ensures(run, (&network, &v), r)
}

/// What a network puts out.
pub open spec fn put_out<N, R: Fn(&N, &Vec<Real64>) -> Vec<Real64>>(
    run: R,
    network: N,
    features: Seq<Real64>,
) -> Seq<Real64> {
    choose|out: Seq<Real64>| may_put_out(run, network, features, out)
}

/// The network takes all features, and what it puts out depends on nothing else.
pub open spec fn is_run<N, R: Fn(&N, &Vec<Real64>) -> Vec<Real64>>(run: R) -> bool {
    &&& forall|n: N, v: Vec<Real64>| #[trigger] call_requires(run, (&n, &v))
    &&& forall|n: N, v: Vec<Real64>, r: Vec<Real64>| #[trigger]
        call_ensures(run, (&n, &v), r) ==> r@ == put_out(run, n, v@)
}

impl<N> WingerPinchHead<N> {
    /// An untrained head on a network made from the seed. `make` makes a network.
    pub fn new<K: Fn(&RandomNetworkSpec, u32) -> N>(seed: u32, make: &K) -> (r: Self)
        requires
            forall|s: &RandomNetworkSpec, seed: u32| #[trigger] call_requires(*make, (s, seed)),
        ensures
            is_made(*make, seed, r.network),
            r.training_steps == 0,
            r.last_loss is None,
    {
        let layout: RandomNetworkSpec = head_network();
        let network: N = make(&layout, seed ^ WINGER_PINCH_SEED_MASK);
        assert(is_head_network(layout));
        WingerPinchHead {
            network,
            training_steps: 0,
            last_loss: None,
        }
    }

    /// What the network says, unless it was shown or says something that is not finite.
    pub open spec fn said<R: Fn(&N, &Vec<Real64>) -> Vec<Real64>>(
        self,
        run: R,
        inputs: WingerPinchInputs,
    ) -> Option<Real64> {
        if all_finite(inputs.features()) {
            first_finite(put_out(run, self.network, inputs.features()))
        } else {
            None
        }
    }

    pub fn predict<R: Fn(&N, &Vec<Real64>) -> Vec<Real64>>(
        &self,
        inputs: &WingerPinchInputs,
        run: &R,
    ) -> (r: Option<Real64>)
        requires
            is_run::<N, R>(*run),
        ensures
            r == self.said(*run, *inputs),
    {
        let features: Vec<Real64> = inputs.to_features();
        if !every_finite(&features) {
            return None;
        }
        let out: Vec<Real64> = run(&self.network, &features);
        assert(call_ensures(*run, (&self.network, &features), out));
        if out.len() > 0 && out[0].is_finite() {
            Some(out[0])
        } else {
            None
        }
    }

    pub fn training_steps(&self) -> (r: usize)
        ensures
            r == self.training_steps,
    {
        self.training_steps
    }

    pub fn last_loss(&self) -> (r: Option<Real64>)
        ensures
            r == self.last_loss,
    {
        self.last_loss
    }
}

/// The bias before it is looked at: the head's word where it is trained enough and has one, else
/// the seed bias.
pub open spec fn raw_bias<
    N,
    P: Fn(Real64, Real64) -> Real64,
    M: Fn(Real64, Real64) -> Real64,
    T: Fn(Real64) -> Real64,
    R: Fn(&N, &Vec<Real64>) -> Vec<Real64>,
>(
    plus: P,
    times: M,
    squash: T,
    run: R,
    head: Option<&WingerPinchHead<N>>,
    inputs: WingerPinchInputs,
) -> Real64 {
    let seed = seed_bias(plus, times, squash, inputs);
    match head {
        Some(h) => if h.training_steps >= WINGER_PINCH_HEAD_MIN_TRAINING_STEPS {
            match h.said(run, inputs) {
                Some(said) => said,
                None => seed,
            }
        } else {
            seed
        },
        None => seed,
    }
}

/// The bias to act on; nothing while switched off or where it is not finite.
pub open spec fn bias_of<
    N,
    P: Fn(Real64, Real64) -> Real64,
    M: Fn(Real64, Real64) -> Real64,
    T: Fn(Real64) -> Real64,
    R: Fn(&N, &Vec<Real64>) -> Vec<Real64>,
>(
    plus: P,
    times: M,
    squash: T,
    run: R,
    enabled: bool,
    head: Option<&WingerPinchHead<N>>,
    inputs: WingerPinchInputs,
) -> Option<Real64> {
    let bias = raw_bias(plus, times, squash, run, head, inputs);
    if enabled && bias.finite() {
        Some(clamped_to(bias, num(DM1), num(D1)))
    } else {
        None
    }
}

/// Finds the bias to act on from what a winger sees.
pub fn winger_pinch_bias<
    N,
    P: Fn(Real64, Real64) -> Real64,
    M: Fn(Real64, Real64) -> Real64,
    T: Fn(Real64) -> Real64,
    R: Fn(&N, &Vec<Real64>) -> Vec<Real64>,
>(
    enabled: bool,
    head: Option<&WingerPinchHead<N>>,
    inputs: &WingerPinchInputs,
    plus: &P,
    times: &M,
    squash: &T,
    run: &R,
) -> (r: Option<Real64>)
    requires
        is_operation(*plus),
        is_operation(*times),
        is_function(*squash),
        is_run::<N, R>(*run),
    ensures
        r == bias_of(*plus, *times, *squash, *run, enabled, head, *inputs),
{
    if !enabled {
        return None;
    }
    let word: Option<Real64> = match head {
        Some(h) => if h.training_steps() >= WINGER_PINCH_HEAD_MIN_TRAINING_STEPS {
            h.predict(inputs, run)
        } else {
            None
        },
        None => None,
    };
    let bias: Real64 = match word {
        Some(said) => said,
        None => analytic_winger_pinch_bias(inputs, plus, times, squash),
    };
    if bias.is_finite() {
        Some(clamp_to(bias, at_bits(DM1), at_bits(D1)))
    } else {
        None
    }
}

/// The bias folded into the scores: zero where there is none.
pub fn winger_pinch_effective_bias<
    N,
    P: Fn(Real64, Real64) -> Real64,
    M: Fn(Real64, Real64) -> Real64,
    T: Fn(Real64) -> Real64,
    R: Fn(&N, &Vec<Real64>) -> Vec<Real64>,
>(
    enabled: bool,
    head: Option<&WingerPinchHead<N>>,
    inputs: &WingerPinchInputs,
    plus: &P,
    times: &M,
    squash: &T,
    run: &R,
) -> (r: Real64)
    requires
        is_operation(*plus),
        is_operation(*times),
        is_function(*squash),
        is_run::<N, R>(*run),
    ensures
        r == match bias_of(*plus, *times, *squash, *run, enabled, head, *inputs) {
            Some(bias) => bias,
            None => num(D0),
        },
{
    match winger_pinch_bias(enabled, head, inputs, plus, times, squash, run) {
        Some(bias) => bias,
        None => at_bits(D0),
    }
}

/// The bias that a winger is sampled with: the one to act on, else the seed bias.
pub open spec fn sampled_bias<
    N,
    P: Fn(Real64, Real64) -> Real64,
    M: Fn(Real64, Real64) -> Real64,
    T: Fn(Real64) -> Real64,
    R: Fn(&N, &Vec<Real64>) -> Vec<Real64>,
>(
    plus: P,
    times: M,
    squash: T,
    run: R,
    head: Option<&WingerPinchHead<N>>,
    inputs: WingerPinchInputs,
) -> Real64 {
    match bias_of(plus, times, squash, run, true, head, inputs) {
        Some(bias) => bias,
        None => seed_bias(plus, times, squash, inputs),
    }
}

/// A bias that is acted on lies between -1 and 1, there is none while switched off, and an
/// untrained head has no say in it.
pub proof fn biases_are_bounded<
    N,
    P: Fn(Real64, Real64) -> Real64,
    M: Fn(Real64, Real64) -> Real64,
    T: Fn(Real64) -> Real64,
    R: Fn(&N, &Vec<Real64>) -> Vec<Real64>,
>(
    plus: P,
    times: M,
    squash: T,
    run: R,
    enabled: bool,
    head: Option<&WingerPinchHead<N>>,
    inputs: WingerPinchInputs,
)
    ensures
        ({
            let r = bias_of(plus, times, squash, run, enabled, head, inputs);
            &&& !enabled ==> r is None
            &&& r matches Some(bias) ==> num(DM1).key() <= bias.key() <= num(D1).key()
            &&& (head matches Some(h) ==> h.training_steps < WINGER_PINCH_HEAD_MIN_TRAINING_STEPS)
                ==> r == bias_of(plus, times, squash, run, enabled, None, inputs)
        }),
{
}

/// The row can be trained on.
pub open spec fn usable(s: WingerPinchSample) -> bool {
    s.reward.finite() && s.action_bias.finite()
}

/// The usable ones of the first `n` rows.
pub open spec fn usable_rows(samples: Seq<WingerPinchSample>, n: int) -> Seq<WingerPinchSample>
    decreases n,
{
    if n <= 0 {
        Seq::empty()
    } else if usable(samples[n - 1]) {
        usable_rows(samples, n - 1).push(samples[n - 1])
    } else {
        usable_rows(samples, n - 1)
    }
}

fn pick_usable(samples: &Vec<WingerPinchSample>) -> (r: Vec<WingerPinchSample>)
    ensures
        r@ == usable_rows(samples@, samples@.len() as int),
        r@.len() <= samples@.len(),
{
    let mut r: Vec<WingerPinchSample> = Vec::new();
    let mut i: usize = 0;
    while i < samples.len()
        invariant
            i <= samples@.len(),
            r@ == usable_rows(samples@, i as int),
            r@.len() <= i,
        decreases samples@.len() - i,
    {
        let s: WingerPinchSample = samples[i];
        if s.reward.is_finite() && s.action_bias.is_finite() {
            r.push(s);
        }
        i += 1;
    }
    r
}

/// The rewards of the rows.
pub open spec fn rewards_of(rows: Seq<WingerPinchSample>) -> Seq<Real64> {
    rows.map_values(|s: WingerPinchSample| s.reward)
}

/// How much each row counts, by its reward: the better above the mean, the more, within limits.
pub open spec fn reward_weights<
    P: Fn(Real64, Real64) -> Real64,
    M: Fn(Real64, Real64) -> Real64,
    Q: Fn(Real64, Real64) -> Real64,
    C: Fn(usize) -> Real64,
    R: Fn(Real64) -> Real64,
    E: Fn(Real64) -> Real64,
>(
    plus: P,
    times: M,
    over: Q,
    count: C,
    root: R,
    exp: E,
    rewards: Seq<Real64>,
) -> Seq<Real64> {
    let n = number_of(count, rewards.len() as usize);
    let baseline = outcome(over, sum_up(plus, rewards, rewards.len() as int), n);
    let squares = squares_from(plus, times, rewards, baseline);
    let spread = larger(
        image(root, outcome(over, sum_up(plus, squares, rewards.len() as int), n)),
        num(D0_001),
    );
    rewards.map_values(|r: Real64| reward_weight(plus, over, exp, baseline, spread, r))
}

/// How much a row counts, by how far its reward is above the mean in terms of the spread.
pub open spec fn reward_weight<
    P: Fn(Real64, Real64) -> Real64,
    Q: Fn(Real64, Real64) -> Real64,
    E: Fn(Real64) -> Real64,
>(plus: P, over: Q, exp: E, baseline: Real64, spread: Real64, reward: Real64) -> Real64 {
    smaller(
        image(
            exp,
            clamped_to(
                outcome(over, outcome(plus, reward, baseline.negated()), spread),
                num(DM4),
                num(D2),
            ),
        ),
        num(D7_5),
    )
}

fn weigh_rewards<
    P: Fn(Real64, Real64) -> Real64,
    M: Fn(Real64, Real64) -> Real64,
    Q: Fn(Real64, Real64) -> Real64,
    C: Fn(usize) -> Real64,
    R: Fn(Real64) -> Real64,
    E: Fn(Real64) -> Real64,
>(
    rewards: &Vec<Real64>,
    plus: &P,
    times: &M,
    over: &Q,
    count: &C,
    root: &R,
    exp: &E,
) -> (weights: Vec<Real64>)
    requires
        is_operation(*plus),
        is_operation(*times),
        is_operation(*over),
        is_conversion(*count),
        is_function(*root),
        is_function(*exp),
    ensures
        weights@ == reward_weights(*plus, *times, *over, *count, *root, *exp, rewards@),
        weights@.len() == rewards@.len(),
{
    let n: Real64 = to_number(count, rewards.len());
    let baseline: Real64 = apply(over, add_up(rewards, plus), n);
    let squares: Vec<Real64> = square_off(rewards, baseline, plus, times);
    let variance: Real64 = apply(over, add_up(&squares, plus), n);
    let spread: Real64 = larger_of(map_number(root, variance), at_bits(D0_001));
    let ghost goal = reward_weights(*plus, *times, *over, *count, *root, *exp, rewards@);
    let mut weights: Vec<Real64> = Vec::new();
    let mut i: usize = 0;
    while i < rewards.len()
        invariant
            i <= rewards@.len(),
            is_operation(*plus),
            is_operation(*over),
            is_function(*exp),
            goal == rewards@.map_values(
                |r: Real64| reward_weight(*plus, *over, *exp, baseline, spread, r),
            ),
            weights@ == goal.take(i as int),
        decreases rewards@.len() - i,
    {
        let above: Real64 = apply(over, apply(plus, rewards[i], baseline.negate()), spread);
        let advantage: Real64 = clamp_to(above, at_bits(DM4), at_bits(D2));
        weights.push(smaller_of(map_number(exp, advantage), at_bits(D7_5)));
        i += 1;
        assert(weights@ =~= goal.take(i as int));
    }
    assert(goal.take(i as int) =~= goal);
    weights
}

/// What came of showing a network a row.
#[derive(Debug)]
pub struct TrainOutcome<N> {
    pub network: N,
    pub applied: bool,
    pub loss: Real64,
}

/// This may come of showing a network some features.
pub open spec fn may_come_of<N, T: Fn(N, &Vec<Real64>, Real64, Real64, Real64) -> TrainOutcome<N>>(
    train: T,
    network: N,
    features: Seq<Real64>,
    target: Real64,
    step: Real64,
    clip: Real64,
    out: TrainOutcome<N>,
) -> bool {
    exists|v: Vec<Real64>|
        v@ == features && #[trigger] call_ensures(train, (network, &v, target, step, clip), out)
}

/// What comes of showing a network some features with the target, the step to take, and the
/// bound that a gradient is clipped to.
pub open spec fn shown<N, T: Fn(N, &Vec<Real64>, Real64, Real64, Real64) -> TrainOutcome<N>>(
    train: T,
    network: N,
    features: Seq<Real64>,
    target: Real64,
    step: Real64,
    clip: Real64,
) -> TrainOutcome<N> {
    choose|out: TrainOutcome<N>| may_come_of(train, network, features, target, step, clip, out)
}

/// The training takes all rows and depends on nothing else.
pub open spec fn is_training<N, T: Fn(N, &Vec<Real64>, Real64, Real64, Real64) -> TrainOutcome<N>>(
    train: T,
) -> bool {
    &&& forall|n: N, v: Vec<Real64>, target: Real64, step: Real64, clip: Real64| #[trigger]
        call_requires(train, (n, &v, target, step, clip))
    &&& forall|
        n: N,
        v: Vec<Real64>,
        target: Real64,
        step: Real64,
        clip: Real64,
        out: TrainOutcome<N>,
    | #[trigger]
        call_ensures(train, (n, &v, target, step, clip), out) ==> out == shown(
            train,
            n,
            v@,
            target,
            step,
            clip,
        )
}

/// Where a pass over the rows stands: the network, the losses so far and how many counted.
pub struct PassState<N> {
    pub network: N,
    pub total: Real64,
    pub applied: nat,
}

/// The pass after the first `n` rows: rows with features that are not finite are skipped, and a
/// row counts where it was applied with a finite loss.
pub open spec fn pass_after<
    N,
    T: Fn(N, &Vec<Real64>, Real64, Real64, Real64) -> TrainOutcome<N>,
    P: Fn(Real64, Real64) -> Real64,
    M: Fn(Real64, Real64) -> Real64,
>(
    train: T,
    plus: P,
    times: M,
    network: N,
    rows: Seq<WingerPinchSample>,
    weights: Seq<Real64>,
    rate: Real64,
    n: int,
) -> PassState<N>
    decreases n,
{
    if n <= 0 {
        PassState { network, total: num(D0), applied: 0 }
    } else {
        let before = pass_after(train, plus, times, network, rows, weights, rate, n - 1);
        let row = rows[n - 1];
        if !all_finite(row.inputs.features()) {
            before
        } else {
            let out = shown(
                train,
                before.network,
                row.inputs.features(),
                clamped_to(row.action_bias, num(DM1), num(D1)),
                outcome(times, rate, weights[n - 1]),
                num(WINGER_PINCH_GRADIENT_CLIP),
            );
            if out.applied && out.loss.finite() {
                PassState {
                    network: out.network,
                    total: outcome(plus, before.total, out.loss),
                    applied: before.applied + 1,
                }
            } else {
                PassState { network: out.network, ..before }
            }
        }
    }
}

/// No more rows count than were shown.
pub proof fn few_rows_count<
    N,
    T: Fn(N, &Vec<Real64>, Real64, Real64, Real64) -> TrainOutcome<N>,
    P: Fn(Real64, Real64) -> Real64,
    M: Fn(Real64, Real64) -> Real64,
>(
    train: T,
    plus: P,
    times: M,
    network: N,
    rows: Seq<WingerPinchSample>,
    weights: Seq<Real64>,
    rate: Real64,
    n: int,
)
    requires
        0 <= n,
    ensures
        pass_after(train, plus, times, network, rows, weights, rate, n).applied <= n,
    decreases n,
{
    if n > 0 {
        few_rows_count(train, plus, times, network, rows, weights, rate, n - 1);
    }
}

/// The head after a pass over the rows, and the mean loss: nothing changes without a usable row.
pub open spec fn trained<
    N,
    T: Fn(N, &Vec<Real64>, Real64, Real64, Real64) -> TrainOutcome<N>,
    P: Fn(Real64, Real64) -> Real64,
    M: Fn(Real64, Real64) -> Real64,
    Q: Fn(Real64, Real64) -> Real64,
    C: Fn(usize) -> Real64,
    R: Fn(Real64) -> Real64,
    E: Fn(Real64) -> Real64,
>(
    train: T,
    plus: P,
    times: M,
    over: Q,
    count: C,
    root: R,
    exp: E,
    head: WingerPinchHead<N>,
    samples: Seq<WingerPinchSample>,
    rate: Real64,
) -> (WingerPinchHead<N>, Real64) {
    let rows = usable_rows(samples, samples.len() as int);
    if rows.len() == 0 {
        (head, num(D0))
    } else {
        let end = pass_after(
            train,
            plus,
            times,
            head.network,
            rows,
            reward_weights(plus, times, over, count, root, exp, rewards_of(rows)),
            rate,
            rows.len() as int,
        );
        let loss = if end.applied > 0 {
            outcome(over, end.total, number_of(count, end.applied as usize))
        } else {
            num(D0)
        };
        (
            WingerPinchHead {
                network: end.network,
                training_steps: (head.training_steps + end.applied) as usize,
                last_loss: Some(loss),
            },
            loss,
        )
    }
}

/// Shows a head the usable rows once, the better rewarded ones with larger steps, and hands it
/// back with the mean loss. `root` is the square root, `exp` the exponential.
pub fn train_reward_weighted<
    N,
    T: Fn(N, &Vec<Real64>, Real64, Real64, Real64) -> TrainOutcome<N>,
    P: Fn(Real64, Real64) -> Real64,
    M: Fn(Real64, Real64) -> Real64,
    Q: Fn(Real64, Real64) -> Real64,
    C: Fn(usize) -> Real64,
    R: Fn(Real64) -> Real64,
    E: Fn(Real64) -> Real64,
>(
    head: WingerPinchHead<N>,
    samples: &Vec<WingerPinchSample>,
    learning_rate: Real64,
    train: &T,
    plus: &P,
    times: &M,
    over: &Q,
    count: &C,
    root: &R,
    exp: &E,
) -> (r: (WingerPinchHead<N>, Real64))
    requires
        is_training::<N, T>(*train),
        is_operation(*plus),
        is_operation(*times),
        is_operation(*over),
        is_conversion(*count),
        is_function(*root),
        is_function(*exp),
        head.training_steps + samples@.len() <= usize::MAX,
    ensures
        r == trained(
            *train,
            *plus,
            *times,
            *over,
            *count,
            *root,
            *exp,
            head,
            samples@,
            learning_rate,
        ),
        head.training_steps <= r.0.training_steps <= head.training_steps + samples@.len(),
{
    let rows: Vec<WingerPinchSample> = pick_usable(samples);
    if rows.len() == 0 {
        return (head, at_bits(D0));
    }
    let mut rewards: Vec<Real64> = Vec::new();
    let mut i: usize = 0;
    while i < rows.len()
        invariant
            i <= rows@.len(),
            rewards@ == rewards_of(rows@).take(i as int),
        decreases rows@.len() - i,
    {
        rewards.push(rows[i].reward);
        i += 1;
        assert(rewards@ =~= rewards_of(rows@).take(i as int));
    }
    assert(rewards@ =~= rewards_of(rows@));
    let weights: Vec<Real64> = weigh_rewards(&rewards, plus, times, over, count, root, exp);
    let ghost before = head;
    let mut network: N = head.network;
    let mut total: Real64 = at_bits(D0);
    let mut applied: usize = 0;
    let mut k: usize = 0;
    while k < rows.len()
        invariant
            k <= rows@.len(),
            rows@.len() <= samples@.len(),
            weights@.len() == rows@.len(),
            applied <= k,
            is_training::<N, T>(*train),
            is_operation(*plus),
            is_operation(*times),
            (PassState { network, total, applied: applied as nat }) == pass_after(
                *train,
                *plus,
                *times,
                before.network,
                rows@,
                weights@,
                learning_rate,
                k as int,
            ),
        decreases rows@.len() - k,
    {
        let row: WingerPinchSample = rows[k];
        let features: Vec<Real64> = row.inputs.to_features();
        if every_finite(&features) {
            let target: Real64 = clamp_to(row.action_bias, at_bits(DM1), at_bits(D1));
            let step: Real64 = apply(times, learning_rate, weights[k]);
            let ghost shown_to = network;
            let clip: Real64 = at_bits(WINGER_PINCH_GRADIENT_CLIP);
            let out: TrainOutcome<N> = train(network, &features, target, step, clip);
            assert(call_ensures(*train, (shown_to, &features, target, step, clip), out));
            network = out.network;
            if out.applied && out.loss.is_finite() {
                total = apply(plus, total, out.loss);
                applied = applied + 1;
            }
        }
        k += 1;
    }
    let loss: Real64 = if applied > 0 {
        apply(over, total, to_number(count, applied))
    } else {
        at_bits(D0)
    };
    (
        WingerPinchHead {
            network,
            training_steps: head.training_steps + applied,
            last_loss: Some(loss),
        },
        loss,
    )
}

/// What came of a training.
#[derive(Clone, Copy, Debug, PartialEq, Eq, Structural)]
pub struct WingerPinchTrainingReport {
    pub samples: usize,
    pub training_steps: usize,
    pub epochs: usize,
    pub final_loss: Real64,
}

/// A head after `n` passes, and the loss of the last.
pub open spec fn trained_for<
    N,
    T: Fn(N, &Vec<Real64>, Real64, Real64, Real64) -> TrainOutcome<N>,
    P: Fn(Real64, Real64) -> Real64,
    M: Fn(Real64, Real64) -> Real64,
    Q: Fn(Real64, Real64) -> Real64,
    C: Fn(usize) -> Real64,
    R: Fn(Real64) -> Real64,
    E: Fn(Real64) -> Real64,
>(
    train: T,
    plus: P,
    times: M,
    over: Q,
    count: C,
    root: R,
    exp: E,
    head: WingerPinchHead<N>,
    samples: Seq<WingerPinchSample>,
    rate: Real64,
    n: int,
) -> (WingerPinchHead<N>, Real64)
    decreases n,
{
    if n <= 0 {
        (head, num(D0))
    } else {
        trained(
            train,
            plus,
            times,
            over,
            count,
            root,
            exp,
            trained_for(
                train,
                plus,
                times,
                over,
                count,
                root,
                exp,
                head,
                samples,
                rate,
                n - 1,
            ).0,
            samples,
            rate,
        )
    }
}

/// A fresh head on a network made from the seed.
pub open spec fn is_fresh<N, K: Fn(&RandomNetworkSpec, u32) -> N>(
    make: K,
    seed: u32,
    head: WingerPinchHead<N>,
) -> bool {
    &&& is_made(make, seed, head.network)
    &&& head.training_steps == 0
    &&& head.last_loss is None
}

/// Makes a head and trains it; nothing without a usable row or an epoch.
pub fn train_winger_pinch_head<
    N,
    K: Fn(&RandomNetworkSpec, u32) -> N,
    T: Fn(N, &Vec<Real64>, Real64, Real64, Real64) -> TrainOutcome<N>,
    P: Fn(Real64, Real64) -> Real64,
    M: Fn(Real64, Real64) -> Real64,
    Q: Fn(Real64, Real64) -> Real64,
    C: Fn(usize) -> Real64,
    R: Fn(Real64) -> Real64,
    E: Fn(Real64) -> Real64,
>(
    samples: &Vec<WingerPinchSample>,
    seed: u32,
    epochs: usize,
    learning_rate: Real64,
    make: &K,
    train: &T,
    plus: &P,
    times: &M,
    over: &Q,
    count: &C,
    root: &R,
    exp: &E,
) -> (r: Option<(WingerPinchHead<N>, WingerPinchTrainingReport)>)
    requires
        forall|s: &RandomNetworkSpec, seed: u32| #[trigger] call_requires(*make, (s, seed)),
        is_training::<N, T>(*train),
        is_operation(*plus),
        is_operation(*times),
        is_operation(*over),
        is_conversion(*count),
        is_function(*root),
        is_function(*exp),
        samples@.len() * epochs <= usize::MAX,
    ensures
        r is None <==> usable_rows(samples@, samples@.len() as int).len() == 0 || epochs == 0,
        r matches Some((head, report)) ==> {
            &&& report.samples == usable_rows(samples@, samples@.len() as int).len()
            &&& report.epochs == epochs
            &&& report.training_steps == head.training_steps
            &&& exists|fresh: WingerPinchHead<N>| #[trigger]
                is_fresh(*make, seed, fresh) && (head, report.final_loss) == trained_for(
                    *train,
                    *plus,
                    *times,
                    *over,
                    *count,
                    *root,
                    *exp,
                    fresh,
                    samples@,
                    learning_rate,
                    epochs as int,
                )
        },
{
    let rows: usize = pick_usable(samples).len();
    if rows == 0 || epochs == 0 {
        return None;
    }
    let mut head: WingerPinchHead<N> = WingerPinchHead::new(seed, make);
    let ghost fresh = head;
    assert(is_fresh(*make, seed, fresh));
    let mut final_loss: Real64 = at_bits(D0);
    let mut e: usize = 0;
    while e < epochs
        invariant
            e <= epochs,
            is_training::<N, T>(*train),
            is_operation(*plus),
            is_operation(*times),
            is_operation(*over),
            is_conversion(*count),
            is_function(*root),
            is_function(*exp),
            samples@.len() * epochs <= usize::MAX,
            head.training_steps <= samples@.len() * e,
            (head, final_loss) == trained_for(
                *train,
                *plus,
                *times,
                *over,
                *count,
                *root,
                *exp,
                fresh,
                samples@,
                learning_rate,
                e as int,
            ),
        decreases epochs - e,
    {
        assert(samples@.len() * (e + 1) == samples@.len() * e + samples@.len()) by (nonlinear_arith);
        assert(samples@.len() * (e + 1) <= samples@.len() * epochs) by (nonlinear_arith)
            requires
                e < epochs,
        ;
        let (next, loss): (WingerPinchHead<N>, Real64) = train_reward_weighted(
            head,
            samples,
            learning_rate,
            train,
            plus,
            times,
            over,
            count,
            root,
            exp,
        );
        head = next;
        final_loss = loss;
        e += 1;
    }
    let report: WingerPinchTrainingReport = WingerPinchTrainingReport {
        samples: rows,
        training_steps: head.training_steps,
        epochs,
        final_loss,
    };
    Some((head, report))
}

/// Trains a head and hands out the report alone.
pub fn report_winger_pinch_training<
    N,
    K: Fn(&RandomNetworkSpec, u32) -> N,
    T: Fn(N, &Vec<Real64>, Real64, Real64, Real64) -> TrainOutcome<N>,
    P: Fn(Real64, Real64) -> Real64,
    M: Fn(Real64, Real64) -> Real64,
    Q: Fn(Real64, Real64) -> Real64,
    C: Fn(usize) -> Real64,
    R: Fn(Real64) -> Real64,
    E: Fn(Real64) -> Real64,
>(
    samples: &Vec<WingerPinchSample>,
    seed: u32,
    epochs: usize,
    learning_rate: Real64,
    make: &K,
    train: &T,
    plus: &P,
    times: &M,
    over: &Q,
    count: &C,
    root: &R,
    exp: &E,
) -> (r: Option<WingerPinchTrainingReport>)
    requires
        forall|s: &RandomNetworkSpec, seed: u32| #[trigger] call_requires(*make, (s, seed)),
        is_training::<N, T>(*train),
        is_operation(*plus),
        is_operation(*times),
        is_operation(*over),
        is_conversion(*count),
        is_function(*root),
        is_function(*exp),
        samples@.len() * epochs <= usize::MAX,
    ensures
        r is None <==> usable_rows(samples@, samples@.len() as int).len() == 0 || epochs == 0,
        r matches Some(report) ==> {
            &&& report.samples == usable_rows(samples@, samples@.len() as int).len()
            &&& report.epochs == epochs
            &&& exists|fresh: WingerPinchHead<N>| #[trigger]
                is_fresh(*make, seed, fresh) && ({
                    let (head, loss) = trained_for(
                        *train,
                        *plus,
                        *times,
                        *over,
                        *count,
                        *root,
                        *exp,
                        fresh,
                        samples@,
                        learning_rate,
                        epochs as int,
                    );
                    report.training_steps == head.training_steps && report.final_loss == loss
                })
        },
{
    match train_winger_pinch_head(
        samples,
        seed,
        epochs,
        learning_rate,
        make,
        train,
        plus,
        times,
        over,
        count,
        root,
        exp,
    ) {
        Some((head, report)) => Some(report),
        None => None,
    }
}

/// Whether a winger weighs pinching in: a wide attacker of the team in possession, not on the
/// ball, not led by hand, in open play with the ball in the final third.
pub open spec fn weighs_pinching(
    possession: Option<Team>,
    team: Team,
    holder: Option<usize>,
    player_id: usize,
    controlled: bool,
    wide_attacker: bool,
    set_play: bool,
    final_third: bool,
) -> bool {
    possession == Some(team) && holder != Some(player_id) && !controlled && wide_attacker
        && !set_play && final_third
}

pub fn winger_pinch_applies(
    possession: Option<Team>,
    team: Team,
    holder: Option<usize>,
    player_id: usize,
    controlled: bool,
    wide_attacker: bool,
    set_play: bool,
    final_third: bool,
) -> (r: bool)
    ensures
        r == weighs_pinching(
            possession,
            team,
            holder,
            player_id,
            controlled,
            wide_attacker,
            set_play,
            final_third,
        ),
{
    let in_possession: bool = match possession {
        Some(t) => t == team,
        None => false,
    };
    let on_the_ball: bool = match holder {
        Some(h) => h == player_id,
        None => false,
    };
    in_possession && !on_the_ball && !controlled && wide_attacker && !set_play && final_third
}

/// A player as the box is counted.
#[derive(Clone, Copy, Debug, PartialEq, Eq, Structural)]
pub struct BoxRunner {
    pub id: usize,
    pub team: Team,
    pub role: PlayerRole,
    pub position: Vec2,
    /// Inside the penalty area that the team attacks.
    pub in_attacked_box: bool,
}

/// The player is a runner of the team in the box, other than the winger and the ball holder.
pub open spec fn runs_in(
    p: BoxRunner,
    team: Team,
    player_id: usize,
    holder: Option<usize>,
) -> bool {
    p.team == team && p.id != player_id && holder != Some(p.id) && (p.role == PlayerRole::Forward
        || p.role == PlayerRole::Midfielder) && p.in_attacked_box
}

/// How many of the first `n` players are runners in the box.
pub open spec fn runners(
    players: Seq<BoxRunner>,
    team: Team,
    player_id: usize,
    holder: Option<usize>,
    n: int,
) -> nat
    decreases n,
{
    if n <= 0 {
        0
    } else if runs_in(players[n - 1], team, player_id, holder) {
        runners(players, team, player_id, holder, n - 1) + 1
    } else {
        runners(players, team, player_id, holder, n - 1)
    }
}

/// Counts the runners in the box.
pub fn box_congestion(
    players: &Vec<BoxRunner>,
    team: Team,
    player_id: usize,
    holder: Option<usize>,
) -> (r: usize)
    ensures
        r == runners(players@, team, player_id, holder, players@.len() as int),
{
    let mut r: usize = 0;
    let mut i: usize = 0;
    while i < players.len()
        invariant
            r <= i <= players@.len(),
            r == runners(players@, team, player_id, holder, i as int),
        decreases players@.len() - i,
    {
        let p: BoxRunner = players[i];
        let holds: bool = match holder {
            Some(h) => h == p.id,
            None => false,
        };
        if p.team == team && p.id != player_id && !holds && (p.role == PlayerRole::Forward || p.role
            == PlayerRole::Midfielder) && p.in_attacked_box {
            r += 1;
        }
        i += 1;
    }
    r
}

/// A reward that a player earned.
#[derive(Clone, Copy, Debug, PartialEq, Eq, Structural)]
pub struct RewardEvent {
    pub player_id: usize,
    pub amount: Real64,
}

/// What a team earned in the first `n` events: events of nobody and amounts that are not finite do
/// not count.
pub open spec fn earned<P: Fn(Real64, Real64) -> Real64>(
    plus: P,
    teams: Seq<Team>,
    events: Seq<RewardEvent>,
    team: Team,
    n: int,
) -> Real64
    decreases n,
{
    if n <= 0 {
        num(D0)
    } else {
        let before = earned(plus, teams, events, team, n - 1);
        let e = events[n - 1];
        if e.player_id < teams.len() && e.amount.finite() && teams[e.player_id as int] == team {
            outcome(plus, before, e.amount)
        } else {
            before
        }
    }
}

/// The decision with its team's earnings added.
pub open spec fn credited<P: Fn(Real64, Real64) -> Real64>(
    plus: P,
    d: PendingWingerPinchDecision,
    home: Real64,
    away: Real64,
) -> PendingWingerPinchDecision {
    PendingWingerPinchDecision {
        reward_accum: outcome(
            plus,
            d.reward_accum,
            if d.team == Team::Home {
                home
            } else {
                away
            },
        ),
        ..d
    }
}

/// The open decisions after the tick's events.
pub open spec fn all_credited<P: Fn(Real64, Real64) -> Real64>(
    plus: P,
    teams: Seq<Team>,
    events: Seq<RewardEvent>,
    pending: Seq<PendingWingerPinchDecision>,
) -> Seq<PendingWingerPinchDecision> {
    if events.len() == 0 {
        pending
    } else {
        let home = earned(plus, teams, events, Team::Home, events.len() as int);
        let away = earned(plus, teams, events, Team::Away, events.len() as int);
        pending.map_values(|d: PendingWingerPinchDecision| credited(plus, d, home, away))
    }
}

/// The reward of a decision at its end: what was earned, and the ground gained where both
/// measures of it are finite.
pub open spec fn final_reward<P: Fn(Real64, Real64) -> Real64, M: Fn(Real64, Real64) -> Real64>(
    plus: P,
    times: M,
    d: PendingWingerPinchDecision,
    now: Real64,
) -> Real64 {
    let delta = if now.finite() && d.decision_territorial.finite() {
        outcome(plus, now, d.decision_territorial.negated())
    } else {
        num(D0)
    };
    outcome(
        plus,
        d.reward_accum,
        outcome(times, num(WINGER_PINCH_TERRITORIAL_SHAPING_WEIGHT), delta),
    )
}

/// The rows with one more, the oldest dropped beyond the cap; a reward that is not finite adds
/// none.
pub open spec fn logged(
    samples: Seq<WingerPinchSample>,
    d: PendingWingerPinchDecision,
    reward: Real64,
) -> Seq<WingerPinchSample> {
    if !reward.finite() {
        samples
    } else {
        let more = samples.push(
            WingerPinchSample { inputs: d.inputs, action_bias: d.action_bias, reward },
        );
        if more.len() > WINGER_PINCH_SAMPLE_CAP {
            more.skip(more.len() - WINGER_PINCH_SAMPLE_CAP)
        } else {
            more
        }
    }
}

/// The sequence with the last item in place of the `i`-th.
pub open spec fn swap_removed<T>(s: Seq<T>, i: int) -> Seq<T> {
    s.update(i, s.last()).drop_last()
}

/// The open decisions and the rows once all decisions from the `i`-th on that are due have been
/// settled.
pub open spec fn settled<P: Fn(Real64, Real64) -> Real64, M: Fn(Real64, Real64) -> Real64>(
    plus: P,
    times: M,
    pending: Seq<PendingWingerPinchDecision>,
    samples: Seq<WingerPinchSample>,
    tick: u64,
    now_home: Real64,
    now_away: Real64,
    i: int,
) -> (Seq<PendingWingerPinchDecision>, Seq<WingerPinchSample>)
    decreases pending.len() - i,
{
    if i < 0 || i >= pending.len() {
        (pending, samples)
    } else if pending[i].due_tick <= tick {
        let d = pending[i];
        let now = if d.team == Team::Home {
            now_home
        } else {
            now_away
        };
        settled(
            plus,
            times,
            swap_removed(pending, i),
            logged(samples, d, final_reward(plus, times, d, now)),
            tick,
            now_home,
            now_away,
            i,
        )
    } else {
        settled(plus, times, pending, samples, tick, now_home, now_away, i + 1)
    }
}

/// The decisions that are not due.
pub open spec fn open_at(tick: u64) -> spec_fn(PendingWingerPinchDecision) -> bool {
    |d: PendingWingerPinchDecision| d.due_tick > tick
}

proof fn removing_swaps(s: Seq<PendingWingerPinchDecision>, i: int)
    requires
        0 <= i < s.len(),
    ensures
        s.to_multiset() == swap_removed(s, i).to_multiset().insert(s[i]),
{
    let front = s.drop_last();
    assert(s =~= front.push(s.last()));
    front.to_multiset_ensures();
    s.to_multiset_ensures();
    assert(s.contains(s[i]));
    if i == s.len() - 1 {
        assert(swap_removed(s, i) =~= front);
    } else {
        assert(swap_removed(s, i) =~= front.update(i, s.last()));
        vstd::seq_lib::to_multiset_update(front, i, s.last());
    }
    assert(s.to_multiset() =~= swap_removed(s, i).to_multiset().insert(s[i]));
}

/// Settling keeps exactly the decisions that are not due, however often each occurs.
pub proof fn settling_keeps_what_is_not_due<
    P: Fn(Real64, Real64) -> Real64,
    M: Fn(Real64, Real64) -> Real64,
>(
    plus: P,
    times: M,
    pending: Seq<PendingWingerPinchDecision>,
    samples: Seq<WingerPinchSample>,
    tick: u64,
    now_home: Real64,
    now_away: Real64,
)
    ensures
        settled(plus, times, pending, samples, tick, now_home, now_away, 0).0.to_multiset()
            == pending.to_multiset().filter(open_at(tick)),
{
    settling_from(plus, times, pending, samples, tick, now_home, now_away, 0);
}

proof fn settling_from<P: Fn(Real64, Real64) -> Real64, M: Fn(Real64, Real64) -> Real64>(
    plus: P,
    times: M,
    pending: Seq<PendingWingerPinchDecision>,
    samples: Seq<WingerPinchSample>,
    tick: u64,
    now_home: Real64,
    now_away: Real64,
    i: int,
)
    requires
        0 <= i <= pending.len(),
        forall|j: int| 0 <= j < i ==> (#[trigger] pending[j]).due_tick > tick,
    ensures
        settled(plus, times, pending, samples, tick, now_home, now_away, i).0.to_multiset()
            == pending.to_multiset().filter(open_at(tick)),
    decreases pending.len() - i,
{
    if i >= pending.len() {
        pending.to_multiset_ensures();
        assert forall|d: PendingWingerPinchDecision|
            pending.to_multiset().count(d) == pending.to_multiset().filter(open_at(tick)).count(
                d,
            ) by {
            if pending.to_multiset().count(d) > 0 {
                assert(pending.contains(d));
                let j = choose|j: int| 0 <= j < pending.len() && pending[j] == d;
                assert(pending[j].due_tick > tick);
            }
        }
        assert(pending.to_multiset() =~= pending.to_multiset().filter(open_at(tick)));
    } else if pending[i].due_tick <= tick {
        let d = pending[i];
        let now = if d.team == Team::Home {
            now_home
        } else {
            now_away
        };
        let rest = swap_removed(pending, i);
        removing_swaps(pending, i);
        settling_from(
            plus,
            times,
            rest,
            logged(samples, d, final_reward(plus, times, d, now)),
            tick,
            now_home,
            now_away,
            i,
        );
        assert(rest.to_multiset().insert(d).filter(open_at(tick)) =~= rest.to_multiset().filter(
            open_at(tick),
        ));
    } else {
        settling_from(plus, times, pending, samples, tick, now_home, now_away, i + 1);
    }
}

/// No more rows are kept than the cap, once that many are kept at most.
pub proof fn rows_stay_capped<P: Fn(Real64, Real64) -> Real64, M: Fn(Real64, Real64) -> Real64>(
    plus: P,
    times: M,
    pending: Seq<PendingWingerPinchDecision>,
    samples: Seq<WingerPinchSample>,
    tick: u64,
    now_home: Real64,
    now_away: Real64,
    i: int,
)
    requires
        samples.len() <= WINGER_PINCH_SAMPLE_CAP,
        0 <= i,
    ensures
        settled(plus, times, pending, samples, tick, now_home, now_away, i).1.len()
            <= WINGER_PINCH_SAMPLE_CAP,
    decreases pending.len() - i,
{
    if i < pending.len() {
        if pending[i].due_tick <= tick {
            let d = pending[i];
            let now = if d.team == Team::Home {
                now_home
            } else {
                now_away
            };
            rows_stay_capped(
                plus,
                times,
                swap_removed(pending, i),
                logged(samples, d, final_reward(plus, times, d, now)),
                tick,
                now_home,
                now_away,
                i,
            );
        } else {
            rows_stay_capped(plus, times, pending, samples, tick, now_home, now_away, i + 1);
        }
    }
}

/// A wide attacker as it is sampled, with what it sees where it weighs pinching in.
#[derive(Clone, Copy, Debug, PartialEq, Eq, Structural)]
pub struct WingerSighting {
    pub player_id: usize,
    pub team: Team,
    pub inputs: Option<WingerPinchInputs>,
}

/// The open decisions with those of the first `n` wide attackers that weigh pinching in, while
/// their team's territory is finite.
pub open spec fn opened<
    N,
    P: Fn(Real64, Real64) -> Real64,
    M: Fn(Real64, Real64) -> Real64,
    T: Fn(Real64) -> Real64,
    R: Fn(&N, &Vec<Real64>) -> Vec<Real64>,
>(
    plus: P,
    times: M,
    squash: T,
    run: R,
    head: Option<&WingerPinchHead<N>>,
    pending: Seq<PendingWingerPinchDecision>,
    sightings: Seq<WingerSighting>,
    tick: u64,
    now_home: Real64,
    now_away: Real64,
    n: int,
) -> Seq<PendingWingerPinchDecision>
    decreases n,
{
    if n <= 0 {
        pending
    } else {
        let before = opened(
            plus,
            times,
            squash,
            run,
            head,
            pending,
            sightings,
            tick,
            now_home,
            now_away,
            n - 1,
        );
        let s = sightings[n - 1];
        let now = if s.team == Team::Home {
            now_home
        } else {
            now_away
        };
        match s.inputs {
            Some(inputs) => if now.finite() {
                before.push(
                    PendingWingerPinchDecision {
                        team: s.team,
                        player_id: s.player_id,
                        inputs,
                        action_bias: sampled_bias(plus, times, squash, run, head, inputs),
                        decision_territorial: now,
                        reward_accum: num(D0),
                        due_tick: (tick + WINGER_PINCH_REWARD_WINDOW_TICKS) as u64,
                    },
                )
            } else {
                before
            },
            None => before,
        }
    }
}

/// The training rows that a match gathers.
#[derive(Debug)]
pub struct WingerPinchLog {
    pub pending: Vec<PendingWingerPinchDecision>,
    pub samples: Vec<WingerPinchSample>,
}

impl WingerPinchLog {
    pub fn new() -> (r: Self)
        ensures
            r.pending@.len() == 0,
            r.samples@.len() == 0,
    {
        WingerPinchLog { pending: Vec::new(), samples: Vec::new() }
    }

    /// Adds the tick's rewards to the open decisions.
    pub fn credit<P: Fn(Real64, Real64) -> Real64>(
        &mut self,
        teams: &Vec<Team>,
        events: &Vec<RewardEvent>,
        plus: &P,
    )
        requires
            is_operation(*plus),
        ensures
            final(self).samples@ == old(self).samples@,
            final(self).pending@ == all_credited(*plus, teams@, events@, old(self).pending@),
    {
        if events.len() == 0 {
            return;
        }
        let mut home: Real64 = at_bits(D0);
        let mut away: Real64 = at_bits(D0);
        let mut i: usize = 0;
        while i < events.len()
            invariant
                i <= events@.len(),
                is_operation(*plus),
                home == earned(*plus, teams@, events@, Team::Home, i as int),
                away == earned(*plus, teams@, events@, Team::Away, i as int),
            decreases events@.len() - i,
        {
            let e: RewardEvent = events[i];
            if e.player_id < teams.len() && e.amount.is_finite() {
                match teams[e.player_id] {
                    Team::Home => {
                        home = apply(plus, home, e.amount);
                    },
                    Team::Away => {
                        away = apply(plus, away, e.amount);
                    },
                }
            }
            i += 1;
        }
        let ghost before = self.pending@;
        let mut k: usize = 0;
        while k < self.pending.len()
            invariant
                k <= self.pending@.len(),
                is_operation(*plus),
                self.samples@ == old(self).samples@,
                self.pending@.len() == before.len(),
                forall|j: int|
                    0 <= j < k ==> #[trigger] self.pending@[j] == credited(
                        *plus,
                        before[j],
                        home,
                        away,
                    ),
                forall|j: int| k <= j < before.len() ==> #[trigger] self.pending@[j] == before[j],
            decreases self.pending@.len() - k,
        {
            let mut d: PendingWingerPinchDecision = self.pending[k];
            let reward: Real64 = match d.team {
                Team::Home => home,
                Team::Away => away,
            };
            d.reward_accum = apply(plus, d.reward_accum, reward);
            self.pending.set(k, d);
            k += 1;
        }
        assert(self.pending@ =~= all_credited(*plus, teams@, events@, before));
    }

    /// Turns the decisions that are due into training rows.
    pub fn settle<P: Fn(Real64, Real64) -> Real64, M: Fn(Real64, Real64) -> Real64>(
        &mut self,
        tick: u64,
        now_home: Real64,
        now_away: Real64,
        plus: &P,
        times: &M,
    )
        requires
            is_operation(*plus),
            is_operation(*times),
        ensures
            (final(self).pending@, final(self).samples@) == settled(
                *plus,
                *times,
                old(self).pending@,
                old(self).samples@,
                tick,
                now_home,
                now_away,
                0,
            ),
    {
        let ghost goal = settled(
            *plus,
            *times,
            self.pending@,
            self.samples@,
            tick,
            now_home,
            now_away,
            0,
        );
        let mut i: usize = 0;
        while i < self.pending.len()
            invariant
                i <= self.pending@.len(),
                is_operation(*plus),
                is_operation(*times),
                goal == settled(
                    *plus,
                    *times,
                    self.pending@,
                    self.samples@,
                    tick,
                    now_home,
                    now_away,
                    i as int,
                ),
            decreases self.pending@.len() - i,
        {
            if self.pending[i].due_tick <= tick {
                let ghost before = self.pending@;
                let d: PendingWingerPinchDecision = self.pending.swap_remove(i);
                assert(self.pending@ =~= swap_removed(before, i as int));
                let now: Real64 = match d.team {
                    Team::Home => now_home,
                    Team::Away => now_away,
                };
                let delta: Real64 = if now.is_finite() && d.decision_territorial.is_finite() {
                    apply(plus, now, d.decision_territorial.negate())
                } else {
                    at_bits(D0)
                };
                let reward: Real64 = apply(
                    plus,
                    d.reward_accum,
                    apply(times, at_bits(WINGER_PINCH_TERRITORIAL_SHAPING_WEIGHT), delta),
                );
                self.log(d, reward);
            } else {
                i += 1;
            }
        }
    }

    fn log(&mut self, d: PendingWingerPinchDecision, reward: Real64)
        ensures
            final(self).pending@ == old(self).pending@,
            final(self).samples@ == logged(old(self).samples@, d, reward),
    {
        if !reward.is_finite() {
            return;
        }
        self.samples.push(
            WingerPinchSample { inputs: d.inputs, action_bias: d.action_bias, reward },
        );
        let ghost more = self.samples@;
        if self.samples.len() > WINGER_PINCH_SAMPLE_CAP {
            let overflow: usize = self.samples.len() - WINGER_PINCH_SAMPLE_CAP;
            let kept: Vec<WingerPinchSample> = self.samples.split_off(overflow);
            self.samples = kept;
            assert(self.samples@ =~= more.skip(more.len() - WINGER_PINCH_SAMPLE_CAP));
        }
    }

    /// Opens decisions for the wide attackers that weigh pinching in.
    pub fn open<
        N,
        P: Fn(Real64, Real64) -> Real64,
        M: Fn(Real64, Real64) -> Real64,
        T: Fn(Real64) -> Real64,
        R: Fn(&N, &Vec<Real64>) -> Vec<Real64>,
    >(
        &mut self,
        tick: u64,
        head: Option<&WingerPinchHead<N>>,
        sightings: &Vec<WingerSighting>,
        now_home: Real64,
        now_away: Real64,
        plus: &P,
        times: &M,
        squash: &T,
        run: &R,
    )
        requires
            is_operation(*plus),
            is_operation(*times),
            is_function(*squash),
            is_run::<N, R>(*run),
            tick + WINGER_PINCH_REWARD_WINDOW_TICKS <= u64::MAX,
        ensures
            final(self).samples@ == old(self).samples@,
            final(self).pending@ == opened(
                *plus,
                *times,
                *squash,
                *run,
                head,
                old(self).pending@,
                sightings@,
                tick,
                now_home,
                now_away,
                sightings@.len() as int,
            ),
    {
        let ghost before = self.pending@;
        let mut i: usize = 0;
        while i < sightings.len()
            invariant
                i <= sightings@.len(),
                is_operation(*plus),
                is_operation(*times),
                is_function(*squash),
                is_run::<N, R>(*run),
                tick + WINGER_PINCH_REWARD_WINDOW_TICKS <= u64::MAX,
                self.samples@ == old(self).samples@,
                self.pending@ == opened(
                    *plus,
                    *times,
                    *squash,
                    *run,
                    head,
                    before,
                    sightings@,
                    tick,
                    now_home,
                    now_away,
                    i as int,
                ),
            decreases sightings@.len() - i,
        {
            let s: WingerSighting = sightings[i];
            let now: Real64 = match s.team {
                Team::Home => now_home,
                Team::Away => now_away,
            };
            if let Some(inputs) = s.inputs {
                if now.is_finite() {
                    let word: Option<Real64> = winger_pinch_bias(
                        true,
                        head,
                        &inputs,
                        plus,
                        times,
                        squash,
                        run,
                    );
                    let action_bias: Real64 = match word {
                        Some(bias) => bias,
                        None => analytic_winger_pinch_bias(&inputs, plus, times, squash),
                    };
                    self.pending.push(
                        PendingWingerPinchDecision {
                            team: s.team,
                            player_id: s.player_id,
                            inputs,
                            action_bias,
                            decision_territorial: now,
                            reward_accum: at_bits(D0),
                            due_tick: tick + WINGER_PINCH_REWARD_WINDOW_TICKS,
                        },
                    );
                }
            }
            i += 1;
        }
    }

    /// Gathers a tick: credits the rewards, settles what is due, and opens new decisions at the
    /// sampling interval. Nothing happens while switched off.
    pub fn collect_winger_pinch_rl_samples<
        N,
        P: Fn(Real64, Real64) -> Real64,
        M: Fn(Real64, Real64) -> Real64,
        T: Fn(Real64) -> Real64,
        R: Fn(&N, &Vec<Real64>) -> Vec<Real64>,
        Q: Fn(Real64, Real64) -> Real64,
        C: Fn(usize) -> Real64,
        D: Fn(Vec2, Vec2) -> Real64,
        X: Fn(Team, Vec2) -> bool,
        O: Fn(Team, Vec2) -> bool,
        S: Fn(Team, Vec2) -> Real64,
    >(
        &mut self,
        enabled: bool,
        tick: u64,
        teams: &Vec<Team>,
        events: &Vec<RewardEvent>,
        head: Option<&WingerPinchHead<N>>,
        wingers: &Vec<WingerSituation>,
        players: &Vec<BoxRunner>,
        now_home: Real64,
        now_away: Real64,
        plus: &P,
        times: &M,
        squash: &T,
        run: &R,
        over: &Q,
        count: &C,
        distance: &D,
        crossing: &X,
        offside: &O,
        space: &S,
    )
        requires
            is_operation(*plus),
            is_operation(*times),
            is_function(*squash),
            is_run::<N, R>(*run),
            is_operation(*over),
            is_conversion(*count),
            is_distance(*distance),
            is_question(*crossing),
            is_question(*offside),
            is_room(*space),
            forall|i: int| 0 <= i < wingers@.len() ==> is_measured(#[trigger] wingers@[i]),
            tick + WINGER_PINCH_REWARD_WINDOW_TICKS <= u64::MAX,
        ensures
            !enabled ==> final(self).pending@ == old(self).pending@ && final(self).samples@ == old(
                self,
            ).samples@,
            enabled ==> {
                let end = settled(
                    *plus,
                    *times,
                    all_credited(*plus, teams@, events@, old(self).pending@),
                    old(self).samples@,
                    tick,
                    now_home,
                    now_away,
                    0,
                );
                let sightings = sightings_of(
                    *plus,
                    *times,
                    *over,
                    *count,
                    *distance,
                    *crossing,
                    *offside,
                    *space,
                    wingers@,
                    players@,
                );
                &&& final(self).samples@ == end.1
                &&& final(self).pending@ == if tick % WINGER_PINCH_SAMPLE_INTERVAL_TICKS == 0 {
                    opened(
                        *plus,
                        *times,
                        *squash,
                        *run,
                        head,
                        end.0,
                        sightings,
                        tick,
                        now_home,
                        now_away,
                        sightings.len() as int,
                    )
                } else {
                    end.0
                }
            },
    {
        if !enabled {
            return;
        }
        self.credit(teams, events, plus);
        self.settle(tick, now_home, now_away, plus, times);
        if tick % WINGER_PINCH_SAMPLE_INTERVAL_TICKS != 0 {
            return;
        }
        let sightings: Vec<WingerSighting> = find_sightings(
            wingers,
            players,
            plus,
            times,
            over,
            count,
            distance,
            crossing,
            offside,
            space,
        );
        self.open(tick, head, &sightings, now_home, now_away, plus, times, squash, run);
    }

    /// Hands out the rows and starts anew.
    pub fn drain_winger_pinch_samples(&mut self) -> (r: Vec<WingerPinchSample>)
        ensures
            r@ == old(self).samples@,
            final(self).samples@.len() == 0,
            final(self).pending@ == old(self).pending@,
    {
        let mut r: Vec<WingerPinchSample> = Vec::new();
        std::mem::swap(&mut self.samples, &mut r);
        r
    }
}

/// What was opened at a tick is not due before its window has passed.
pub proof fn windows_are_kept<
    N,
    P: Fn(Real64, Real64) -> Real64,
    M: Fn(Real64, Real64) -> Real64,
    T: Fn(Real64) -> Real64,
    R: Fn(&N, &Vec<Real64>) -> Vec<Real64>,
>(
    plus: P,
    times: M,
    squash: T,
    run: R,
    head: Option<&WingerPinchHead<N>>,
    pending: Seq<PendingWingerPinchDecision>,
    sightings: Seq<WingerSighting>,
    tick: u64,
    now_home: Real64,
    now_away: Real64,
    n: int,
    i: int,
)
    requires
        0 <= n <= sightings.len(),
        tick + WINGER_PINCH_REWARD_WINDOW_TICKS <= u64::MAX,
        pending.len() <= i < opened(
            plus,
            times,
            squash,
            run,
            head,
            pending,
            sightings,
            tick,
            now_home,
            now_away,
            n,
        ).len(),
    ensures
        opened(
            plus,
            times,
            squash,
            run,
            head,
            pending,
            sightings,
            tick,
            now_home,
            now_away,
            n,
        )[i].due_tick == tick
            + WINGER_PINCH_REWARD_WINDOW_TICKS,
    decreases n,
{
    if n > 0 {
        let before = opened(
            plus,
            times,
            squash,
            run,
            head,
            pending,
            sightings,
            tick,
            now_home,
            now_away,
            n - 1,
        );
        if i < before.len() {
            windows_are_kept(
                plus,
                times,
                squash,
                run,
                head,
                pending,
                sightings,
                tick,
                now_home,
                now_away,
                n - 1,
                i,
            );
        }
    }
}

/// How a winger leans without having learned: inwards by 0.8 on the weak side with a cross on, by
/// four tenths and six tenths of the depth, and by the room there is; outwards by 0.9 on the ball's
/// own flank; all through the curve.
pub proof fn the_seed_leans_in_on_the_weak_side<
    P: Fn(Real64, Real64) -> Real64,
    M: Fn(Real64, Real64) -> Real64,
    T: Fn(Real64) -> Real64,
>(
    means: spec_fn(Real64, real) -> bool,
    plus: P,
    times: M,
    squash: T,
    curve: spec_fn(real) -> real,
    inputs: WingerPinchInputs,
    flank: real,
    cross: real,
    depth: real,
    post: real,
    half: real,
)
    requires
        is_faithful(means, plus, times),
        reads_function(means, squash, curve),
        means(inputs.ball_on_my_flank, flank),
        means(inputs.crossing_position_on, cross),
        means(inputs.depth_frac, depth),
        means(inputs.back_post_space, post),
        means(inputs.half_space_space, half),
    ensures
        means(
            seed_bias(plus, times, squash, inputs),
            curve(
                (4real / 5real) * bounded(1real - flank, 0real, 1real) * cross
                    * ((2real / 5real) + (3real / 5real) * depth) * most(
                    post,
                    half,
                ) - (9real / 10real) * flank,
            ),
        ),
{
    decimals_are_read(means);
    assert(1real + -flank == 1real - flank);
    let weak = bounded(1real - flank, 0real, 1real);
    let inwards = (4real / 5real) * weak * cross * ((2real / 5real) + (3real / 5real) * depth)
        * most(post, half);
    let outwards = (9real / 10real) * flank;
    assert(0real + inwards + -outwards == inwards - outwards);
}

/// What a row weighs: the exponential of how many spreads its reward lies above the baseline,
/// counted from -4 to 2, and at most 7.5.
pub proof fn better_rewards_weigh_more<
    P: Fn(Real64, Real64) -> Real64,
    Q: Fn(Real64, Real64) -> Real64,
    E: Fn(Real64) -> Real64,
>(
    means: spec_fn(Real64, real) -> bool,
    plus: P,
    over: Q,
    exp: E,
    curve: spec_fn(real) -> real,
    baseline: Real64,
    spread: Real64,
    reward: Real64,
    b: real,
    s: real,
    r: real,
)
    requires
        reads_sums(means, plus),
        reads_signs(means),
        reads_order(means),
        reads_decimals(means),
        reads_quotients(means, over),
        reads_function(means, exp, curve),
        means(baseline, b),
        means(spread, s),
        means(reward, r),
        s != 0real,
    ensures
        means(
            reward_weight(plus, over, exp, baseline, spread, reward),
            least(curve(bounded((r - b) / s, -4real, 2real)), (15real / 2real)),
        ),
{
    decimals_are_read(means);
    assert(r + -b == r - b);
    assert(means(num(D7_5), (15real / 2real)));
}

/// What a decision earned in the end: what was credited, and the ground that was gained since.
pub proof fn rewards_count_gained_ground<
    P: Fn(Real64, Real64) -> Real64,
    M: Fn(Real64, Real64) -> Real64,
>(
    means: spec_fn(Real64, real) -> bool,
    plus: P,
    times: M,
    d: PendingWingerPinchDecision,
    now: Real64,
    credit: real,
    then: real,
    here: real,
)
    requires
        is_faithful(means, plus, times),
        now.finite(),
        d.decision_territorial.finite(),
        means(d.reward_accum, credit),
        means(d.decision_territorial, then),
        means(now, here),
    ensures
        means(final_reward(plus, times, d, now), credit + (here - then)),
{
    decimals_are_read(means);
    assert(here + -then == here - then);
    assert(1real * (here - then) == here - then);
    assert(means(num(WINGER_PINCH_TERRITORIAL_SHAPING_WEIGHT), 1real));
}

/// A tick credits a decision with what its own team earned.
pub proof fn credits_go_to_the_own_team<
    P: Fn(Real64, Real64) -> Real64,
>(
    means: spec_fn(Real64, real) -> bool,
    plus: P,
    d: PendingWingerPinchDecision,
    home: Real64,
    away: Real64,
    credit: real,
    h: real,
    a: real,
)
    requires
        reads_sums(means, plus),
        reads_signs(means),
        reads_order(means),
        reads_decimals(means),
        means(d.reward_accum, credit),
        means(home, h),
        means(away, a),
    ensures
        means(
            credited(plus, d, home, away).reward_accum,
            credit + if d.team == Team::Home {
                h
            } else {
                a
            },
        ),
{
    decimals_are_read(means);
}

proof fn own_amounts_add_up<P: Fn(Real64, Real64) -> Real64>(
    means: spec_fn(Real64, real) -> bool,
    plus: P,
    teams: Seq<Team>,
    events: Seq<RewardEvent>,
    team: Team,
    amounts: Seq<real>,
    n: int,
)
    requires
        reads_sums(means, plus),
        reads_decimals(means),
        0 <= n <= events.len(),
        amounts.len() == events.len(),
        forall|i: int|
            0 <= i < events.len() ==> if (#[trigger] events[i]).player_id < teams.len()
                && events[i].amount.finite() && teams[events[i].player_id as int] == team {
                means(events[i].amount, amounts[i])
            } else {
                amounts[i] == 0real
            },
    ensures
        means(earned(plus, teams, events, team, n), real_sum(amounts, n)),
    decreases n,
{
    decimals_are_read(means);
    if n > 0 {
        own_amounts_add_up(means, plus, teams, events, team, amounts, n - 1);
        let last = events[n - 1];
    }
}

/// What a team has earned is the sum of the amounts of its own players' events; those of others,
/// and those that are no numbers, count for nothing.
pub proof fn teams_earn_their_own_rewards<P: Fn(Real64, Real64) -> Real64>(
    means: spec_fn(Real64, real) -> bool,
    plus: P,
    teams: Seq<Team>,
    events: Seq<RewardEvent>,
    team: Team,
    amounts: Seq<real>,
)
    requires
        reads_sums(means, plus),
        reads_decimals(means),
        amounts.len() == events.len(),
        forall|i: int|
            0 <= i < events.len() ==> if (#[trigger] events[i]).player_id < teams.len()
                && events[i].amount.finite() && teams[events[i].player_id as int] == team {
                means(events[i].amount, amounts[i])
            } else {
                amounts[i] == 0real
            },
    ensures
        means(
            earned(plus, teams, events, team, events.len() as int),
            real_sum(amounts, events.len() as int),
        ),
{
    own_amounts_add_up(means, plus, teams, events, team, amounts, events.len() as int);
}

/// A reward weighs by how far it lies above the mean of all, as a part of their spread, which is
/// the root of the mean square and a thousandth at least: the exponential of that, between minus
/// four and two, and 7.5 at most.
pub proof fn rewards_are_weighed_against_their_mean<
    P: Fn(Real64, Real64) -> Real64,
    M: Fn(Real64, Real64) -> Real64,
    Q: Fn(Real64, Real64) -> Real64,
    C: Fn(usize) -> Real64,
    R: Fn(Real64) -> Real64,
    E: Fn(Real64) -> Real64,
>(
    means: spec_fn(Real64, real) -> bool,
    plus: P,
    times: M,
    over: Q,
    count: C,
    root: R,
    exp: E,
    power: spec_fn(real) -> real,
    rewards: Seq<Real64>,
    x: Seq<real>,
    i: int,
    spread: real,
)
    requires
        is_faithful(means, plus, times),
        reads_quotients(means, over),
        reads_counts(means, count),
        reads_roots(means, root),
        reads_function(means, exp, power),
        0 < rewards.len() <= usize::MAX,
        x.len() == rewards.len(),
        forall|j: int| 0 <= j < rewards.len() ==> means(#[trigger] rewards[j], x[j]),
        0 <= i < rewards.len(),
        ({
            let n = rewards.len() as real;
            let m = real_sum(x, x.len() as int) / n;
            let off = x.map_values(|v: real| (v - m) * (v - m));
            is_root(real_sum(off, off.len() as int) / n, spread)
        }),
    ensures
        ({
            let m = real_sum(x, x.len() as int) / (rewards.len() as real);
            let far = (x[i] - m) / most(spread, (1real / 1000real));
            means(
                reward_weights(plus, times, over, count, root, exp, rewards)[i],
                least(power(bounded(far, -4real, 2real)), (15real / 2real)),
            )
        }),
{
    decimals_are_read(means);
    let k = rewards.len() as int;
    let n = k as real;
    let m = real_sum(x, x.len() as int) / n;
    let count_of = number_of(count, rewards.len() as usize);
    assert(means(count_of, n));
    sums_mean_sums(means, plus, rewards, x, k);
    let mean = outcome(over, sum_up(plus, rewards, k), count_of);
    assert(means(mean, m));
    let off = x.map_values(|v: real| (v - m) * (v - m));
    let squares = squares_from(plus, times, rewards, mean);
    assert forall|j: int| 0 <= j < squares.len() implies means(#[trigger] squares[j], off[j]) by {
        assert(means(rewards[j], x[j]));
        assert(x[j] + -m == x[j] - m);
    }
    sums_mean_sums(means, plus, squares, off, k);
    let square = outcome(over, sum_up(plus, squares, k), count_of);
    assert(means(square, real_sum(off, k) / n));
    assert(means(larger(image(root, square), num(D0_001)), most(spread, (1real / 1000real))));
    assert(means(rewards[i], x[i]));
    assert(x[i] + -m == x[i] - m);
}

} // verus!
