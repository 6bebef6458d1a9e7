//! Spans and limits that follow from the perception knobs.
use crate::decimals::D0_5;
use crate::meaning::{decimals_are_read, is_faithful, most};
use crate::number::{apply, at_bits, is_operation, larger, larger_of, num, outcome, Real64};
use crate::tunables::perception::PomdpPerceptionTunables;
use vstd::prelude::*;

verus! {

/// The distance from 1 to the next larger number, by its bit pattern.
pub const EPSILON_BITS: u64 = 0x3CB0_0000_0000_0000;

impl PomdpPerceptionTunables {
    /// How far the holder looks over the shoulder: half the core and the shoulder's own angle.
    pub open spec fn scan_limit<
        P: Fn(Real64, Real64) -> Real64,
        M: Fn(Real64, Real64) -> Real64,
    >(self, plus: P, times: M) -> Real64 {
        outcome(
            plus,
            outcome(times, self.ball_holder_core_degrees, num(D0_5)),
            self.ball_holder_shoulder_degrees,
        )
    }

    /// What lies between the slowest and the quickest reaction, a least number at least.
    pub open spec fn reaction_span<P: Fn(Real64, Real64) -> Real64>(self, plus: P) -> Real64 {
        larger(
            outcome(
                plus,
                self.player_reaction_max_seconds,
                self.player_reaction_min_seconds.negated(),
            ),
            num(EPSILON_BITS),
        )
    }

    /// The slowest reaction after the longest scan.
    pub open spec fn latency_bound<P: Fn(Real64, Real64) -> Real64>(self, plus: P) -> Real64 {
        outcome(plus, self.player_reaction_max_seconds, self.ball_holder_head_scan_max_seconds)
    }

    /// How far to the side a glance over the shoulder reaches: half the core, and the shoulder.
    pub fn ball_holder_shoulder_scan_limit_degrees<
        P: Fn(Real64, Real64) -> Real64,
        M: Fn(Real64, Real64) -> Real64,
    >(&self, plus: &P, times: &M) -> (r: Real64)
        requires
            is_operation(*plus),
            is_operation(*times),
        ensures
            r == self.scan_limit(*plus, *times),
    {
        apply(
            plus,
            apply(times, self.ball_holder_core_degrees, at_bits(D0_5)),
            self.ball_holder_shoulder_degrees,
        )
    }

    /// The span of reaction times, never zero.
    pub fn player_reaction_span_seconds<P: Fn(Real64, Real64) -> Real64>(&self, plus: &P) -> (r:
        Real64)
        requires
            is_operation(*plus),
        ensures
            r == self.reaction_span(*plus),
            !r.nan(),
            r.key() > 0,
    {
        let span: Real64 = apply(
            plus,
            self.player_reaction_max_seconds,
            self.player_reaction_min_seconds.negate(),
        );
        larger_of(span, at_bits(EPSILON_BITS))
    }

    /// The longest time from an event to its being perceived.
    pub fn perception_latency_upper_bound_seconds<P: Fn(Real64, Real64) -> Real64>(
        &self,
        plus: &P,
    ) -> (r: Real64)
        requires
            is_operation(*plus),
        ensures
            r == self.latency_bound(*plus),
    {
        apply(plus, self.player_reaction_max_seconds, self.ball_holder_head_scan_max_seconds)
    }
}

/// The holder looks half the core and the shoulder's angle round; reactions span what the slowest
/// takes beyond the quickest, and a tiny number at least; and nothing takes longer to be seen than
/// the slowest reaction after the longest scan.
pub proof fn spans_follow_from_the_knobs<
    P: Fn(Real64, Real64) -> Real64,
    M: Fn(Real64, Real64) -> Real64,
>(
    means: spec_fn(Real64, real) -> bool,
    plus: P,
    times: M,
    knobs: PomdpPerceptionTunables,
    core: real,
    shoulder: real,
    slow: real,
    quick: real,
    scan: real,
    tiny: real,
)
    requires
        is_faithful(means, plus, times),
        means(knobs.ball_holder_core_degrees, core),
        means(knobs.ball_holder_shoulder_degrees, shoulder),
        means(knobs.player_reaction_max_seconds, slow),
        means(knobs.player_reaction_min_seconds, quick),
        means(knobs.ball_holder_head_scan_max_seconds, scan),
        means(num(EPSILON_BITS), tiny),
    ensures
        means(knobs.scan_limit(plus, times), core / 2real + shoulder),
        means(knobs.reaction_span(plus), most(slow - quick, tiny)),
        means(knobs.latency_bound(plus), slow + scan),
{
    decimals_are_read(means);
    assert(core * (1real / 2real) == core / 2real);
    assert(slow + -quick == slow - quick);
}

} // verus!
