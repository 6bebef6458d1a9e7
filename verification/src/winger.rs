//! Whether a wide attacker holds the touchline or pinches in as the ball nears the opponents'
//! goal line.
//!
//! Arithmetic on binary64 numbers is handed in: every score is the outcome of the given
//! operations on the given numbers, in a fixed order.
use crate::arithmetic::{
    can_multiply, differences_tell_order, products_keep_order, signs_multiply, sums_keep_order,
    sums_move_with_signs,
};
use crate::decimals::{
    D0, D0_5, D0_6, D0_7, D1, D12, D16, D1_1, D1_4, D1_6, D2, D2_2, D2_4, D3, D4_5, D5_5, DM1,
};
use crate::meaning::{bounded, decimals_are_read, is_faithful, reads_quotients};
use crate::number::{
    apply, at_bits, clamp_to, clamped_to, is_conversion, is_operation, larger, larger_of,
    negation_mirrors, num, number_of, outcome, to_number, Real64,
};
use crate::pitch::Vec2;
use vstd::prelude::*;

pub mod appetite;
pub mod sighting;

verus! {

/// How many own attackers in the box make it crowded.
pub const PINCH_CROWDED_BOX_RUNNERS: usize = 3;

/// Offset from the centre of the half-space target, in yards, by its bit pattern.
pub const PINCH_HALF_SPACE_OFFSET_YARDS: u64 = D12;

/// Distance of the half-space target from the goal line.
pub const PINCH_HALF_SPACE_DEPTH_YARDS: u64 = D16;

/// Offset from the centre of the back-post target.
pub const PINCH_BACK_POST_OFFSET_YARDS: u64 = D4_5;

/// Distance of the back-post target from the goal line.
pub const PINCH_BACK_POST_DEPTH_YARDS: u64 = D5_5;

/// What a wide attacker does off the ball in the final third.
#[derive(Clone, Copy, Debug, PartialEq, Eq, Structural)]
pub enum WingerPinchChoice {
    /// Holds the touchline.
    StayWide,
    /// Tucks into the half-space.
    PinchHalfSpace,
    /// Runs to the back post.
    PinchBackPost,
}

impl WingerPinchChoice {
    pub open spec fn name(self) -> Seq<char> {
        match self {
            WingerPinchChoice::StayWide => "stay-wide"@,
            WingerPinchChoice::PinchHalfSpace => "pinch-half-space"@,
            WingerPinchChoice::PinchBackPost => "pinch-back-post"@,
        }
    }

    pub fn label(self) -> (r: &'static str)
        ensures
            r@ == self.name(),
    {
        match self {
            WingerPinchChoice::StayWide => "stay-wide",
            WingerPinchChoice::PinchHalfSpace => "pinch-half-space",
            WingerPinchChoice::PinchBackPost => "pinch-back-post",
        }
    }
}

/// A choice with the scores that led to it.
#[derive(Clone, Copy, Debug, PartialEq, Eq, Structural)]
pub struct WingerPinchDecisionProfile {
    pub choice: WingerPinchChoice,
    pub stay_score: Real64,
    pub half_space_score: Real64,
    pub back_post_score: Real64,
    pub ball_on_my_flank: bool,
    pub crossing_position_on: bool,
    pub ball_final_third_depth_frac: Real64,
    pub box_congestion: usize,
    pub back_post_offside: bool,
}

/// The scores of the three choices, before any is barred.
#[derive(Clone, Copy, Debug, PartialEq, Eq, Structural)]
pub struct PinchScores {
    pub stay: Real64,
    pub half: Real64,
    pub back: Real64,
}

/// The score for holding the touchline: 1, more on the ball's own flank, a little more while no
/// cross is on.
pub open spec fn stay_score<P: Fn(Real64, Real64) -> Real64>(
    plus: P,
    ball_on_my_flank: bool,
    crossing_position_on: bool,
) -> Real64 {
    if ball_on_my_flank {
        outcome(plus, num(D1), num(D2_4))
    } else if !crossing_position_on {
        outcome(plus, num(D1), num(D1_1))
    } else {
        num(D1)
    }
}

/// The scores from what a winger sees, before any bias. Only the winger away from the ball, with a
/// cross on, draws inwards: to the back post with the ball's depth, to the half-space with each
/// runner already in the box.
pub open spec fn drawn_scores<
    P: Fn(Real64, Real64) -> Real64,
    M: Fn(Real64, Real64) -> Real64,
>(
    plus: P,
    times: M,
    ball_on_my_flank: bool,
    crossing_position_on: bool,
    depth: Real64,
    congestion: Real64,
) -> PinchScores {
    let in_play = !ball_on_my_flank && crossing_position_on;
    let half = if in_play {
        outcome(
            plus,
            outcome(
                plus,
                num(D0),
                outcome(plus, outcome(times, num(D2), num(D0_6)), num(D1_4)),
            ),
            outcome(times, congestion, num(D0_7)),
        )
    } else {
        num(D0)
    };
    let back = if in_play {
        outcome(
            plus,
            outcome(
                plus,
                num(D0),
                outcome(
                    plus,
                    outcome(plus, num(D2), num(D2_2)),
                    outcome(times, depth, num(D2)),
                ),
            ),
            outcome(times, congestion, num(D0_6)).negated(),
        )
    } else {
        num(D0)
    };
    PinchScores { stay: stay_score(plus, ball_on_my_flank, crossing_position_on), half, back }
}

/// The scores with a bias, which moves both ways of pinching alike.
pub open spec fn pinch_scores<
    P: Fn(Real64, Real64) -> Real64,
    M: Fn(Real64, Real64) -> Real64,
>(
    plus: P,
    times: M,
    ball_on_my_flank: bool,
    crossing_position_on: bool,
    depth: Real64,
    congestion: Real64,
    bias: Real64,
) -> PinchScores {
    let drawn = drawn_scores(
        plus,
        times,
        ball_on_my_flank,
        crossing_position_on,
        depth,
        congestion,
    );
    let shift = outcome(times, clamped_to(bias, num(DM1), num(D1)), num(D1_6));
    PinchScores {
        stay: drawn.stay,
        half: outcome(plus, drawn.half, shift),
        back: outcome(plus, drawn.back, shift),
    }
}

/// The best choice; of equal ones the widest. A back post that is offside is barred.
pub open spec fn best_choice(scores: PinchScores, back_post_offside: bool) -> WingerPinchChoice {
    let best = if scores.stay.less(scores.half) {
        scores.half
    } else {
        scores.stay
    };
    if !back_post_offside && best.less(scores.back) {
        WingerPinchChoice::PinchBackPost
    } else if scores.stay.less(scores.half) {
        WingerPinchChoice::PinchHalfSpace
    } else {
        WingerPinchChoice::StayWide
    }
}

/// Picks the best choice.
pub fn choose_winger_pinch(scores: PinchScores, back_post_offside: bool) -> (r: WingerPinchChoice)
    ensures
        r == best_choice(scores, back_post_offside),
{
    let mut best: WingerPinchChoice = WingerPinchChoice::StayWide;
    let mut best_score: Real64 = scores.stay;
    if best_score.is_below(scores.half) {
        best = WingerPinchChoice::PinchHalfSpace;
        best_score = scores.half;
    }
    if !back_post_offside && best_score.is_below(scores.back) {
        best = WingerPinchChoice::PinchBackPost;
    }
    best
}

/// The profile that the scores give.
pub open spec fn profile_of(
    scores: PinchScores,
    ball_on_my_flank: bool,
    crossing_position_on: bool,
    depth: Real64,
    box_congestion: usize,
    back_post_offside: bool,
) -> WingerPinchDecisionProfile {
    WingerPinchDecisionProfile {
        choice: best_choice(scores, back_post_offside),
        stay_score: larger(scores.stay, num(D0)),
        half_space_score: larger(scores.half, num(D0)),
        back_post_score: if back_post_offside {
            num(D0)
        } else {
            larger(scores.back, num(D0))
        },
        ball_on_my_flank,
        crossing_position_on,
        ball_final_third_depth_frac: depth,
        box_congestion,
        back_post_offside,
    }
}

/// The decision of a winger with a bias between -1 and 1 towards pinching in.
pub fn winger_pinch_decision_profile_with_bias<
    P: Fn(Real64, Real64) -> Real64,
    M: Fn(Real64, Real64) -> Real64,
    C: Fn(usize) -> Real64,
>(
    ball_on_my_flank: bool,
    crossing_position_on: bool,
    ball_final_third_depth_frac: Real64,
    box_congestion: usize,
    back_post_offside: bool,
    pinch_bias: Real64,
    plus: &P,
    times: &M,
    count: &C,
) -> (r: WingerPinchDecisionProfile)
    requires
        is_operation(*plus),
        is_operation(*times),
        is_conversion(*count),
    ensures
        r == ({
            let depth = clamped_to(ball_final_third_depth_frac, num(D0), num(D1));
            profile_of(
                pinch_scores(
                    *plus,
                    *times,
                    ball_on_my_flank,
                    crossing_position_on,
                    depth,
                    number_of(*count, box_congestion),
                    pinch_bias,
                ),
                ball_on_my_flank,
                crossing_position_on,
                depth,
                box_congestion,
                back_post_offside,
            )
        }),
{
    let depth: Real64 = clamp_to(ball_final_third_depth_frac, at_bits(D0), at_bits(D1));
    let congestion: Real64 = to_number(count, box_congestion);
    let stay: Real64 = if ball_on_my_flank {
        apply(plus, at_bits(D1), at_bits(D2_4))
    } else if !crossing_position_on {
        apply(plus, at_bits(D1), at_bits(D1_1))
    } else {
        at_bits(D1)
    };
    let mut half: Real64 = at_bits(D0);
    let mut back: Real64 = at_bits(D0);
    if !ball_on_my_flank && crossing_position_on {
        let cross: Real64 = apply(plus, at_bits(D2), at_bits(D2_2));
        let run: Real64 = apply(plus, cross, apply(times, depth, at_bits(D2)));
        back = apply(plus, back, run);
        let tuck: Real64 = apply(
            plus,
            apply(times, at_bits(D2), at_bits(D0_6)),
            at_bits(D1_4),
        );
        half = apply(plus, half, tuck);
        half = apply(plus, half, apply(times, congestion, at_bits(D0_7)));
        back = apply(plus, back, apply(times, congestion, at_bits(D0_6)).negate());
    }
    let shift: Real64 = apply(
        times,
        clamp_to(pinch_bias, at_bits(DM1), at_bits(D1)),
        at_bits(D1_6),
    );
    half = apply(plus, half, shift);
    back = apply(plus, back, shift);
    let scores: PinchScores = PinchScores { stay, half, back };
    WingerPinchDecisionProfile {
        choice: choose_winger_pinch(scores, back_post_offside),
        stay_score: larger_of(stay, at_bits(D0)),
        half_space_score: larger_of(half, at_bits(D0)),
        back_post_score: if back_post_offside {
            at_bits(D0)
        } else {
            larger_of(back, at_bits(D0))
        },
        ball_on_my_flank,
        crossing_position_on,
        ball_final_third_depth_frac: depth,
        box_congestion,
        back_post_offside,
    }
}

/// The decision of a winger without a bias.
pub fn winger_pinch_decision_profile<
    P: Fn(Real64, Real64) -> Real64,
    M: Fn(Real64, Real64) -> Real64,
    C: Fn(usize) -> Real64,
>(
    ball_on_my_flank: bool,
    crossing_position_on: bool,
    ball_final_third_depth_frac: Real64,
    box_congestion: usize,
    back_post_offside: bool,
    plus: &P,
    times: &M,
    count: &C,
) -> (r: WingerPinchDecisionProfile)
    requires
        is_operation(*plus),
        is_operation(*times),
        is_conversion(*count),
    ensures
        r == ({
            let depth = clamped_to(ball_final_third_depth_frac, num(D0), num(D1));
            profile_of(
                pinch_scores(
                    *plus,
                    *times,
                    ball_on_my_flank,
                    crossing_position_on,
                    depth,
                    number_of(*count, box_congestion),
                    num(D0),
                ),
                ball_on_my_flank,
                crossing_position_on,
                depth,
                box_congestion,
                back_post_offside,
            )
        }),
{
    winger_pinch_decision_profile_with_bias(
        ball_on_my_flank,
        crossing_position_on,
        ball_final_third_depth_frac,
        box_congestion,
        back_post_offside,
        at_bits(D0),
        plus,
        times,
        count,
    )
}

/// What a winger without a bias chooses.
pub fn decide_winger_pinch<
    P: Fn(Real64, Real64) -> Real64,
    M: Fn(Real64, Real64) -> Real64,
    C: Fn(usize) -> Real64,
>(
    ball_on_my_flank: bool,
    crossing_position_on: bool,
    ball_final_third_depth_frac: Real64,
    box_congestion: usize,
    back_post_offside: bool,
    plus: &P,
    times: &M,
    count: &C,
) -> (r: WingerPinchChoice)
    requires
        is_operation(*plus),
        is_operation(*times),
        is_conversion(*count),
    ensures
        r == best_choice(
            pinch_scores(
                *plus,
                *times,
                ball_on_my_flank,
                crossing_position_on,
                clamped_to(ball_final_third_depth_frac, num(D0), num(D1)),
                number_of(*count, box_congestion),
                num(D0),
            ),
            back_post_offside,
        ),
{
    winger_pinch_decision_profile(
        ball_on_my_flank,
        crossing_position_on,
        ball_final_third_depth_frac,
        box_congestion,
        back_post_offside,
        plus,
        times,
        count,
    ).choice
}

/// What a winger with a bias chooses.
pub fn decide_winger_pinch_with_bias<
    P: Fn(Real64, Real64) -> Real64,
    M: Fn(Real64, Real64) -> Real64,
    C: Fn(usize) -> Real64,
>(
    ball_on_my_flank: bool,
    crossing_position_on: bool,
    ball_final_third_depth_frac: Real64,
    box_congestion: usize,
    back_post_offside: bool,
    pinch_bias: Real64,
    plus: &P,
    times: &M,
    count: &C,
) -> (r: WingerPinchChoice)
    requires
        is_operation(*plus),
        is_operation(*times),
        is_conversion(*count),
    ensures
        r == best_choice(
            pinch_scores(
                *plus,
                *times,
                ball_on_my_flank,
                crossing_position_on,
                clamped_to(ball_final_third_depth_frac, num(D0), num(D1)),
                number_of(*count, box_congestion),
                pinch_bias,
            ),
            back_post_offside,
        ),
{
    winger_pinch_decision_profile_with_bias(
        ball_on_my_flank,
        crossing_position_on,
        ball_final_third_depth_frac,
        box_congestion,
        back_post_offside,
        pinch_bias,
        plus,
        times,
        count,
    ).choice
}

/// A back post that is offside is never chosen, and the choice has the best score of those left.
pub proof fn the_best_open_choice_wins(scores: PinchScores, back_post_offside: bool)
    requires
        !scores.stay.nan(),
        !scores.half.nan(),
        !scores.back.nan(),
    ensures
        ({
            let choice = best_choice(scores, back_post_offside);
            let score = match choice {
                WingerPinchChoice::StayWide => scores.stay,
                WingerPinchChoice::PinchHalfSpace => scores.half,
                WingerPinchChoice::PinchBackPost => scores.back,
            };
            &&& back_post_offside ==> choice != WingerPinchChoice::PinchBackPost
            &&& score.key() >= scores.stay.key()
            &&& score.key() >= scores.half.key()
            &&& !back_post_offside ==> score.key() >= scores.back.key()
            &&& scores.stay.key() >= scores.half.key() && (back_post_offside || scores.stay.key()
                >= scores.back.key()) ==> choice == WingerPinchChoice::StayWide
        }),
{
}

/// The arithmetic keeps a bias light: whatever lies between -1 and 1 shifts nothing by more than
/// its weight, and both pulls of the touchline weigh as much.
pub open spec fn weighs_biases_lightly<
    P: Fn(Real64, Real64) -> Real64,
    M: Fn(Real64, Real64) -> Real64,
>(plus: P, times: M) -> bool {
    &&& forall|b: Real64|
        #![trigger outcome(times, b, num(D1_6))]
        {
            let shifted = outcome(plus, num(D0), outcome(times, b, num(D1_6)));
            !b.nan() && num(DM1).key() <= b.key() <= num(D1).key() ==> shifted.nan()
                || shifted.key() <= num(D1_6).key()
        }
    &&& forall|b: Real64|
        #![trigger outcome(times, b, num(D1_6))]
        b.nan() ==> outcome(plus, num(D0), outcome(times, b, num(D1_6))).nan()
    &&& num(D1_6).key() <= outcome(plus, num(D1), num(D2_4)).key()
    &&& num(D1_6).key() <= outcome(plus, num(D1), num(D1_1)).key()
}

/// No bias, however large, moves a winger infield on the ball's own flank or where no cross is on.
pub proof fn width_is_held_without_a_cross<
    P: Fn(Real64, Real64) -> Real64,
    M: Fn(Real64, Real64) -> Real64,
>(
    plus: P,
    times: M,
    ball_on_my_flank: bool,
    crossing_position_on: bool,
    depth: Real64,
    congestion: Real64,
    bias: Real64,
    back_post_offside: bool,
)
    requires
        ball_on_my_flank || !crossing_position_on,
        weighs_biases_lightly(plus, times),
    ensures
        best_choice(
            pinch_scores(
                plus,
                times,
                ball_on_my_flank,
                crossing_position_on,
                depth,
                congestion,
                bias,
            ),
            back_post_offside,
        ) == WingerPinchChoice::StayWide,
{
    let b = clamped_to(bias, num(DM1), num(D1));
    let shift = outcome(times, b, num(D1_6));
    assert(b.nan() || num(DM1).key() <= b.key() <= num(D1).key());
}

/// A bias above 1 acts as 1, and one below -1 as -1.
pub proof fn biases_act_within_bounds<
    P: Fn(Real64, Real64) -> Real64,
    M: Fn(Real64, Real64) -> Real64,
>(
    plus: P,
    times: M,
    ball_on_my_flank: bool,
    crossing_position_on: bool,
    depth: Real64,
    congestion: Real64,
    bias: Real64,
)
    ensures
        ({
            let at = |b: Real64|
                pinch_scores(
                    plus,
                    times,
                    ball_on_my_flank,
                    crossing_position_on,
                    depth,
                    congestion,
                    b,
                );
            &&& num(D1).less(bias) ==> at(bias) == at(num(D1))
            &&& bias.less(num(DM1)) ==> at(bias) == at(num(DM1))
        }),
{
}

/// Two numbers that compare alike: equal, zeros of either sign among them, or neither a number.
pub open spec fn compare_alike(a: Real64, b: Real64) -> bool {
    a.nan() == b.nan() && (!a.nan() ==> a.key() == b.key())
}

/// The zeros of either sign weigh nothing, whatever they are added to.
pub open spec fn weighs_zeros_alike<
    P: Fn(Real64, Real64) -> Real64,
    M: Fn(Real64, Real64) -> Real64,
>(plus: P, times: M) -> bool {
    forall|x: Real64, z: Real64|
        !z.nan() && z.key() == 0 ==> compare_alike(
            #[trigger] outcome(plus, x, outcome(times, z, num(D1_6))),
            x,
        )
}

/// A bias of zero, of either sign, changes nothing: the choice is that of a winger without a bias,
/// and both ways of pinching score what they score before any bias.
pub proof fn a_zero_bias_changes_nothing<
    P: Fn(Real64, Real64) -> Real64,
    M: Fn(Real64, Real64) -> Real64,
>(
    plus: P,
    times: M,
    ball_on_my_flank: bool,
    crossing_position_on: bool,
    depth: Real64,
    congestion: Real64,
    bias: Real64,
    back_post_offside: bool,
)
    requires
        !bias.nan(),
        bias.key() == 0,
        weighs_zeros_alike(plus, times),
    ensures
        ({
            let at = |b: Real64|
                pinch_scores(
                    plus,
                    times,
                    ball_on_my_flank,
                    crossing_position_on,
                    depth,
                    congestion,
                    b,
                );
            let drawn = drawn_scores(
                plus,
                times,
                ball_on_my_flank,
                crossing_position_on,
                depth,
                congestion,
            );
            &&& best_choice(at(bias), back_post_offside) == best_choice(
                at(num(D0)),
                back_post_offside,
            )
            &&& compare_alike(at(bias).half, drawn.half)
            &&& compare_alike(at(bias).back, drawn.back)
        }),
{
    assert(num(D0).key() == 0);
    assert(clamped_to(bias, num(DM1), num(D1)) == bias);
    assert(clamped_to(num(D0), num(DM1), num(D1)) == num(D0));
}

/// Where a choice takes the winger: so far from the centre on the winger's own side, so far from
/// the goal line, kept on the pitch. Nowhere for staying wide, or without a place to measure from.
pub open spec fn target_of<P: Fn(Real64, Real64) -> Real64, M: Fn(Real64, Real64) -> Real64>(
    plus: P,
    times: M,
    choice: WingerPinchChoice,
    home_x: Real64,
    attacked_goal_y: Real64,
    attack_dir: Real64,
    field_width: Real64,
    field_length: Real64,
) -> Option<Vec2> {
    if !home_x.finite() || !attacked_goal_y.finite() || !measures_up(field_width) || choice
        == WingerPinchChoice::StayWide {
        None
    } else {
        let center_x = outcome(times, field_width, num(D0_5));
        let side = outcome(plus, home_x, center_x.negated()).sign();
        let (offset, depth) = if choice == WingerPinchChoice::PinchHalfSpace {
            (num(PINCH_HALF_SPACE_OFFSET_YARDS), num(PINCH_HALF_SPACE_DEPTH_YARDS))
        } else {
            (num(PINCH_BACK_POST_OFFSET_YARDS), num(PINCH_BACK_POST_DEPTH_YARDS))
        };
        Some(
            Vec2 {
                x: clamped_to(
                    outcome(plus, center_x, outcome(times, side, offset)),
                    num(D0),
                    field_width,
                ),
                y: clamped_to(
                    outcome(plus, attacked_goal_y, outcome(times, attack_dir, depth).negated()),
                    num(D0),
                    field_length,
                ),
            },
        )
    }
}

/// The length is not at most zero.
pub open spec fn measures_up(length: Real64) -> bool {
    length.nan() || length.key() > 0
}

/// Finds where a choice takes the winger.
pub fn winger_pinch_target<P: Fn(Real64, Real64) -> Real64, M: Fn(Real64, Real64) -> Real64>(
    choice: WingerPinchChoice,
    home_x: Real64,
    attacked_goal_y: Real64,
    attack_dir: Real64,
    field_width: Real64,
    field_length: Real64,
    plus: &P,
    times: &M,
) -> (r: Option<Vec2>)
    requires
        is_operation(*plus),
        is_operation(*times),
        home_x.finite() && attacked_goal_y.finite() && measures_up(field_width) && choice
            != WingerPinchChoice::StayWide ==> !field_width.nan() && !field_length.nan()
            && field_length.key() >= 0,
    ensures
        r == target_of(
            *plus,
            *times,
            choice,
            home_x,
            attacked_goal_y,
            attack_dir,
            field_width,
            field_length,
        ),
{
    if !home_x.is_finite() || !attacked_goal_y.is_finite() || (!field_width.is_nan()
        && field_width.order_key() <= 0) {
        return None;
    }
    let center_x: Real64 = apply(times, field_width, at_bits(D0_5));
    let side: Real64 = apply(plus, home_x, center_x.negate()).signum();
    let (offset, depth): (Real64, Real64) = match choice {
        WingerPinchChoice::StayWide => return None,
        WingerPinchChoice::PinchHalfSpace => (
            at_bits(PINCH_HALF_SPACE_OFFSET_YARDS),
            at_bits(PINCH_HALF_SPACE_DEPTH_YARDS),
        ),
        WingerPinchChoice::PinchBackPost => (
            at_bits(PINCH_BACK_POST_OFFSET_YARDS),
            at_bits(PINCH_BACK_POST_DEPTH_YARDS),
        ),
    };
    let x: Real64 = apply(plus, center_x, apply(times, side, offset));
    let y: Real64 = apply(plus, attacked_goal_y, apply(times, attack_dir, depth).negate());
    Some(
        Vec2 {
            x: clamp_to(x, at_bits(D0), field_width),
            y: clamp_to(y, at_bits(D0), field_length),
        },
    )
}

/// How deep the ball is in the final third: 0 at its edge and short of it, 1 at the goal line.
pub open spec fn depth_of<
    P: Fn(Real64, Real64) -> Real64,
    M: Fn(Real64, Real64) -> Real64,
    Q: Fn(Real64, Real64) -> Real64,
>(
    plus: P,
    times: M,
    over: Q,
    ball_y: Real64,
    attacked_goal_y: Real64,
    field_length: Real64,
) -> Real64 {
    if !ball_y.finite() || !attacked_goal_y.finite() || !measures_up(field_length) {
        num(D0)
    } else {
        let attack_dir = outcome(
            plus,
            attacked_goal_y,
            outcome(times, field_length, num(D0_5)).negated(),
        ).sign();
        let third = outcome(over, field_length, num(D3));
        let to_goal = outcome(
            times,
            outcome(plus, attacked_goal_y, ball_y.negated()),
            attack_dir,
        );
        if to_goal.less(num(D0)) || third.less(to_goal) {
            num(D0)
        } else {
            clamped_to(
                outcome(plus, num(D1), outcome(over, to_goal, third).negated()),
                num(D0),
                num(D1),
            )
        }
    }
}

/// Measures how deep the ball is in the final third.
pub fn final_third_depth_frac<
    P: Fn(Real64, Real64) -> Real64,
    M: Fn(Real64, Real64) -> Real64,
    Q: Fn(Real64, Real64) -> Real64,
>(
    ball_y: Real64,
    attacked_goal_y: Real64,
    field_length: Real64,
    plus: &P,
    times: &M,
    over: &Q,
) -> (r: Real64)
    requires
        is_operation(*plus),
        is_operation(*times),
        is_operation(*over),
    ensures
        r == depth_of(*plus, *times, *over, ball_y, attacked_goal_y, field_length),
{
    if !ball_y.is_finite() || !attacked_goal_y.is_finite() || (!field_length.is_nan()
        && field_length.order_key() <= 0) {
        return at_bits(D0);
    }
    let half: Real64 = apply(times, field_length, at_bits(D0_5));
    let attack_dir: Real64 = apply(plus, attacked_goal_y, half.negate()).signum();
    let third: Real64 = apply(over, field_length, at_bits(D3));
    let to_goal: Real64 = apply(
        times,
        apply(plus, attacked_goal_y, ball_y.negate()),
        attack_dir,
    );
    if to_goal.is_below(at_bits(D0)) || third.is_below(to_goal) {
        return at_bits(D0);
    }
    clamp_to(
        apply(plus, at_bits(D1), apply(over, to_goal, third).negate()),
        at_bits(D0),
        at_bits(D1),
    )
}

/// A run goes to the winger's own side: from a home left of the middle no further than the middle,
/// from one right of it no less far.
pub proof fn runs_stay_on_the_own_side<
    P: Fn(Real64, Real64) -> Real64,
    M: Fn(Real64, Real64) -> Real64,
>(
    plus: P,
    times: M,
    choice: WingerPinchChoice,
    home_x: Real64,
    attacked_goal_y: Real64,
    attack_dir: Real64,
    field_width: Real64,
    field_length: Real64,
)
    requires
        sums_keep_order(plus),
        differences_tell_order(plus),
        products_keep_order(times),
        choice != WingerPinchChoice::StayWide,
        home_x.finite(),
        attacked_goal_y.finite(),
        field_width.finite(),
        field_width.key() > 0,
    ensures
        ({
            let target = target_of(
                plus,
                times,
                choice,
                home_x,
                attacked_goal_y,
                attack_dir,
                field_width,
                field_length,
            );
            let middle = outcome(times, field_width, num(D0_5));
            &&& target is Some
            &&& home_x.key() < middle.key() ==> 0 <= target->0.x.key() <= middle.key()
            &&& home_x.key() > middle.key() ==> middle.key() <= target->0.x.key()
                <= field_width.key()
        }),
{
    let middle = outcome(times, field_width, num(D0_5));
    signs_multiply(times, field_width, num(D0_5));
    assert(can_multiply(field_width, num(D0_5)) && can_multiply(field_width, num(D1)));
    assert(outcome(times, field_width, num(D1)) == field_width);
    assert(middle.key() <= field_width.key());
    assert(middle.finite());
    let off = outcome(plus, home_x, middle.negated());
    let side = off.sign();
    let offset = if choice == WingerPinchChoice::PinchHalfSpace {
        num(PINCH_HALF_SPACE_OFFSET_YARDS)
    } else {
        num(PINCH_BACK_POST_OFFSET_YARDS)
    };
    negation_mirrors(offset);
    if home_x.key() < middle.key() {
        assert(side == num(DM1));
        sums_move_with_signs(plus, middle, offset.negated());
    }
    if home_x.key() > middle.key() {
        assert(side == num(D1));
        sums_move_with_signs(plus, middle, offset);
    }
}

/// Where a run goes: to the half-space 12 yards off the middle and 16 from the goal line, or to
/// the back post 4.5 off the middle and 5.5 from the line, on the winger's own side and kept on
/// the pitch. Wingers of both sides have mirrored targets.
pub proof fn runs_are_mirrored<
    P: Fn(Real64, Real64) -> Real64,
    M: Fn(Real64, Real64) -> Real64,
>(
    means: spec_fn(Real64, real) -> bool,
    plus: P,
    times: M,
    choice: WingerPinchChoice,
    left: Real64,
    right: Real64,
    attacked_goal_y: Real64,
    attack_dir: Real64,
    field_width: Real64,
    field_length: Real64,
    goal: real,
    dir: real,
    width: real,
) -> (places: (Real64, Real64, Real64))
    requires
        is_faithful(means, plus, times),
        differences_tell_order(plus),
        choice != WingerPinchChoice::StayWide,
        left.finite(),
        right.finite(),
        attacked_goal_y.finite(),
        field_width.finite(),
        field_width.key() > 0,
        outcome(times, field_width, num(D0_5)).finite(),
        left.key() < outcome(times, field_width, num(D0_5)).key() < right.key(),
        means(attacked_goal_y, goal),
        means(attack_dir, dir),
        means(field_width, width),
    ensures
        ({
            let run = |home: Real64|
                target_of(
                    plus,
                    times,
                    choice,
                    home,
                    attacked_goal_y,
                    attack_dir,
                    field_width,
                    field_length,
                );
            let (off, deep) = if choice == WingerPinchChoice::PinchHalfSpace {
                (12real, 16real)
            } else {
                (9real / 2real, 11real / 2real)
            };
            &&& means(places.0, width / 2real - off)
            &&& means(places.1, width / 2real + off)
            &&& means(places.2, goal - dir * deep)
            &&& run(left) == Some(
                Vec2 {
                    x: clamped_to(places.0, num(D0), field_width),
                    y: clamped_to(places.2, num(D0), field_length),
                },
            )
            &&& run(right) == Some(
                Vec2 {
                    x: clamped_to(places.1, num(D0), field_width),
                    y: clamped_to(places.2, num(D0), field_length),
                },
            )
        }),
{
    decimals_are_read(means);
    let half = choice == WingerPinchChoice::PinchHalfSpace;
    let middle = outcome(times, field_width, num(D0_5));
    assert(width * (1real / 2real) == width / 2real);
    assert(means(middle, width / 2real));
    let (offset, depth) = if half {
        (num(D12), num(D16))
    } else {
        (num(D4_5), num(D5_5))
    };
    let (off, deep) = if half {
        (12real, 16real)
    } else {
        (9real / 2real, 11real / 2real)
    };
    assert(means(offset, off) && means(depth, deep));
    assert(outcome(plus, left, middle.negated()).sign() == num(DM1));
    assert(outcome(plus, right, middle.negated()).sign() == num(D1));
    let a = outcome(plus, middle, outcome(times, num(DM1), offset));
    let b = outcome(plus, middle, outcome(times, num(D1), offset));
    let y = outcome(plus, attacked_goal_y, outcome(times, attack_dir, depth).negated());
    assert(means(a, width / 2real + (-1real) * off));
    assert(means(b, width / 2real + 1real * off));
    assert(means(y, goal + -(dir * deep)));
    assert(goal + -(dir * deep) == goal - dir * deep);
    (a, b, y)
}

/// What the choices of a winger score. Staying wide: 1, and 2.4 more on the ball's own flank or 1.1
/// more while no cross is on. Else, away from the ball with a cross on, the half-space 2.6 and 0.7
/// for every runner in the box, the back post 4.2 and twice the depth less 0.6 for every runner. A
/// bias shifts both ways of pinching by 1.6 of it.
pub proof fn choices_score_by_the_situation<
    P: Fn(Real64, Real64) -> Real64,
    M: Fn(Real64, Real64) -> Real64,
>(
    means: spec_fn(Real64, real) -> bool,
    plus: P,
    times: M,
    ball_on_my_flank: bool,
    crossing_position_on: bool,
    depth: Real64,
    congestion: Real64,
    bias: Real64,
    d: real,
    c: real,
    b: real,
)
    requires
        is_faithful(means, plus, times),
        means(depth, d),
        means(congestion, c),
        means(bias, b),
    ensures
        ({
            let s = pinch_scores(
                plus,
                times,
                ball_on_my_flank,
                crossing_position_on,
                depth,
                congestion,
                bias,
            );
            let shift = bounded(b, -1real, 1real) * (8real / 5real);
            let on = !ball_on_my_flank && crossing_position_on;
            &&& ball_on_my_flank ==> means(s.stay, (17real / 5real))
            &&& !ball_on_my_flank && !crossing_position_on ==> means(s.stay, (21real / 10real))
            &&& on ==> means(s.stay, 1real)
            &&& on ==> means(s.half, (13real / 5real) + c * (7real / 10real) + shift)
            &&& on ==> means(s.back, (21real / 5real) + d * 2real - c * (3real / 5real) + shift)
            &&& !on ==> means(s.half, shift) && means(s.back, shift)
        }),
{
    decimals_are_read(means);
    let shift = bounded(b, -1real, 1real) * (8real / 5real);
    assert(1real + (12real / 5real) == (17real / 5real) && 1real + (11real / 10real)
        == (21real / 10real));
    let half = 0real + (2real * (3real / 5real) + (7real / 5real)) + c * (7real / 10real);
    let back = 0real + (2real + (11real / 5real) + d * 2real) + -(c * (3real / 5real));
    assert(half + shift == (13real / 5real) + c * (7real / 10real) + shift);
    assert(back + shift == (21real / 5real) + d * 2real - c * (3real / 5real) + shift);
    let drawn = drawn_scores(
        plus,
        times,
        ball_on_my_flank,
        crossing_position_on,
        depth,
        congestion,
    );
    let on = !ball_on_my_flank && crossing_position_on;
    assert(on ==> means(drawn.half, half));
    assert(on ==> means(drawn.back, back));
    assert(0real + shift == shift);
    let number = outcome(times, clamped_to(bias, num(DM1), num(D1)), num(D1_6));
    assert(means(number, shift));
}

/// How deep the ball is in the final third: nothing at its start and one on the goal line, by the
/// distance from the line as a part of a third of the pitch.
pub proof fn depth_grows_towards_the_goal_line<
    P: Fn(Real64, Real64) -> Real64,
    M: Fn(Real64, Real64) -> Real64,
    Q: Fn(Real64, Real64) -> Real64,
>(
    means: spec_fn(Real64, real) -> bool,
    plus: P,
    times: M,
    over: Q,
    ball_y: Real64,
    attacked_goal_y: Real64,
    field_length: Real64,
    ball: real,
    goal: real,
    length: real,
    far: real,
) -> (measures: (Real64, Real64))
    requires
        is_faithful(means, plus, times),
        reads_quotients(means, over),
        differences_tell_order(plus),
        ball_y.finite(),
        attacked_goal_y.finite(),
        field_length.finite(),
        field_length.key() > 0,
        outcome(times, field_length, num(D0_5)).finite(),
        means(ball_y, ball),
        means(attacked_goal_y, goal),
        means(field_length, length),
        length != 0real,
        attacked_goal_y.key() != outcome(times, field_length, num(D0_5)).key(),
        attacked_goal_y.key() > outcome(times, field_length, num(D0_5)).key() ==> far == goal
            - ball,
        attacked_goal_y.key() < outcome(times, field_length, num(D0_5)).key() ==> far == ball
            - goal,
    ensures
        means(measures.0, far),
        means(measures.1, length / 3real),
        ({
            let r = depth_of(plus, times, over, ball_y, attacked_goal_y, field_length);
            if measures.0.less(num(D0)) || measures.1.less(measures.0) {
                r == num(D0)
            } else {
                means(r, bounded(1real - far / (length / 3real), 0real, 1real))
            }
        }),
{
    decimals_are_read(means);
    let middle = outcome(times, field_length, num(D0_5));
    let up = attacked_goal_y.key() > middle.key();
    let dir = outcome(plus, attacked_goal_y, middle.negated()).sign();
    let d = goal - ball;
    assert(goal + -ball == d);
    let third = outcome(over, field_length, num(D3));
    let left = outcome(times, outcome(plus, attacked_goal_y, ball_y.negated()), dir);
    assert(means(third, length / 3real));
    if up {
        assert(dir == num(D1));
        assert(d * 1real == far);
        assert(means(left, far));
    } else {
        assert(dir == num(DM1));
        assert(d * (-1real) == far);
        assert(means(left, far));
    }
    let share = far / (length / 3real);
    assert(length / 3real != 0real);
    assert(1real + -share == 1real - share);
    (left, third)
}

} // verus!
