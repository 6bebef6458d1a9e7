//! Knobs of the stochastic choice among ranked actions.
use crate::decimals::{D0, D0_1, D0_2, D0_7, D1, D100, D1000, DECIMAL_MAX};
use crate::number::Real64;
use crate::tunables::{Notice, fitted, fitted_is_within, noticed, sanitize_f64, within};
use vstd::prelude::*;

verus! {

/// How many of the best-ranked candidates are drawn from.
pub const POLICY_SELECTION_TOP_RANK_LIMIT: usize = 3;

/// Weights of the stochastic choice among the best-ranked actions.
#[derive(Clone, Copy, Debug)]
pub struct PolicySelectionTunables {
    /// Probability weight of committing to the best (rank-0) candidate.
    pub top1_weight: Real64,
    /// Probability weight of committing to the 2nd-best (rank-1) candidate.
    pub top2_weight: Real64,
    /// Probability weight of committing to the 3rd-best (rank-2) candidate.
    pub top3_weight: Real64,
    pub boltzmann_temperature: Real64,
}

impl Default for PolicySelectionTunables {
    fn default() -> (r: Self)
        ensures
            r == Self::defaults(),
    {
        PolicySelectionTunables {
            top1_weight: Real64 { bits: D0_7 },
            top2_weight: Real64 { bits: D0_2 },
            top3_weight: Real64 { bits: D0_1 },
            boltzmann_temperature: Real64 { bits: D0 },
        }
    }
}

impl PolicySelectionTunables {
    /// The default of every knob.
    pub open spec fn defaults() -> Self {
        PolicySelectionTunables {
            top1_weight: Real64 { bits: D0_7 },
            top2_weight: Real64 { bits: D0_2 },
            top3_weight: Real64 { bits: D0_1 },
            boltzmann_temperature: Real64 { bits: D0 },
        }
    }

    /// Every knob on its own put inside its hard range.
    pub open spec fn clamped(self) -> Self {
        PolicySelectionTunables {
            top1_weight: fitted(self.top1_weight, D0_7, D0, DECIMAL_MAX),
            top2_weight: fitted(self.top2_weight, D0_2, D0, DECIMAL_MAX),
            top3_weight: fitted(self.top3_weight, D0_1, D0, DECIMAL_MAX),
            boltzmann_temperature: fitted(self.boltzmann_temperature, D0, D0, D1000),
        }
    }

    /// What `sanitize` makes of the knobs.
    pub open spec fn repaired(self) -> Self {
        self.clamped()
    }

    /// Every knob is finite and inside its hard range, and paired knobs are in order.
    pub open spec fn in_hard_bounds(self) -> bool {
        &&& within(self.top1_weight, D0, DECIMAL_MAX)
        &&& within(self.top2_weight, D0, DECIMAL_MAX)
        &&& within(self.top3_weight, D0, DECIMAL_MAX)
        &&& within(self.boltzmann_temperature, D0, D1000)
    }

    /// What a repair has to say of these knobs, in the order of the fields, after the notices
    /// `found`.
    pub open spec fn notices(self, found: Seq<Notice>) -> Seq<Notice> {
        let n = found;
        let n = noticed(
            n,
            "policy_selection.top1_weight",
            self.top1_weight,
            D0_7,
            D0,
            DECIMAL_MAX,
            D0,
            D1,
        );
        let n = noticed(
            n,
            "policy_selection.top2_weight",
            self.top2_weight,
            D0_2,
            D0,
            DECIMAL_MAX,
            D0,
            D1,
        );
        let n = noticed(
            n,
            "policy_selection.top3_weight",
            self.top3_weight,
            D0_1,
            D0,
            DECIMAL_MAX,
            D0,
            D1,
        );
        let n = noticed(
            n,
            "policy_selection.boltzmann_temperature",
            self.boltzmann_temperature,
            D0,
            D0,
            D1000,
            D0,
            D100,
        );
        n
    }

    /// Puts every knob inside its hard range and brings paired knobs into order. Notes every
    /// knob that was moved, or that lies outside its sane range.
    pub fn sanitize(&mut self, notices: &mut Vec<Notice>)
        ensures
            *final(self) == old(self).repaired(),
            final(notices)@ == old(self).notices(old(notices)@),
    {
        sanitize_f64(
            "policy_selection.top1_weight",
            &mut self.top1_weight,
            D0_7,
            D0,
            DECIMAL_MAX,
            D0,
            D1,
            notices,
        );
        sanitize_f64(
            "policy_selection.top2_weight",
            &mut self.top2_weight,
            D0_2,
            D0,
            DECIMAL_MAX,
            D0,
            D1,
            notices,
        );
        sanitize_f64(
            "policy_selection.top3_weight",
            &mut self.top3_weight,
            D0_1,
            D0,
            DECIMAL_MAX,
            D0,
            D1,
            notices,
        );
        sanitize_f64(
            "policy_selection.boltzmann_temperature",
            &mut self.boltzmann_temperature,
            D0,
            D0,
            D1000,
            D0,
            D100,
            notices,
        );
    }

    /// What is repaired is in bounds, and what is in bounds is not touched by a repair.
    pub proof fn repair_reaches_bounds(self)
        ensures
            self.repaired().in_hard_bounds(),
            self.in_hard_bounds() ==> self.repaired() == self,
    {
        reveal(within);
        fitted_is_within(self.top1_weight, D0_7, D0, DECIMAL_MAX);
        fitted_is_within(self.top2_weight, D0_2, D0, DECIMAL_MAX);
        fitted_is_within(self.top3_weight, D0_1, D0, DECIMAL_MAX);
        fitted_is_within(self.boltzmann_temperature, D0, D0, D1000);
    }

    /// The defaults are in bounds.
    pub proof fn defaults_reach_bounds()
        ensures
            Self::defaults().in_hard_bounds(),
    {
        reveal(within);
    }

    /// The weights of the best three candidates, best first.
    pub fn rank_weights(&self) -> (r: [Real64; POLICY_SELECTION_TOP_RANK_LIMIT])
        ensures
            r@ == seq![self.top1_weight, self.top2_weight, self.top3_weight],
    {
        [self.top1_weight, self.top2_weight, self.top3_weight]
    }
}

} // verus!
