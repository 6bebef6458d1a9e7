//! The weights by which an over-the-top pass is fitted to its target.

use crate::decimals::D1EM09;
use crate::number::{apply, at_bits, is_operation, num, outcome, Real64};
use crate::tunables::killer_pass::KillerPassOverTopTunables;
use vstd::prelude::*;

verus! {

impl KillerPassOverTopTunables {
    /// The sum of the four fit weights, added from the first to the last.
    pub open spec fn fit_total<P: Fn(Real64, Real64) -> Real64>(self, plus: P) -> Real64 {
        outcome(
            plus,
            outcome(
                plus,
                outcome(plus, self.fit_distance_weight, self.fit_angle_weight),
                self.fit_line_weight,
            ),
            self.fit_keeper_weight,
        )
    }

    /// The fit weights sum to no more than a billionth.
    pub open spec fn fit_vanishes<P: Fn(Real64, Real64) -> Real64>(self, plus: P) -> bool {
        !self.fit_total(plus).nan() && !num(D1EM09).less(self.fit_total(plus))
    }

    pub fn fit_weights_vanish<P: Fn(Real64, Real64) -> Real64>(&self, plus: &P) -> (b: bool)
        requires
            is_operation(*plus),
        ensures
            b == self.fit_vanishes(*plus),
    {
        let two: Real64 = apply(plus, self.fit_distance_weight, self.fit_angle_weight);
        let three: Real64 = apply(plus, two, self.fit_line_weight);
        let total: Real64 = apply(plus, three, self.fit_keeper_weight);
        !total.is_nan() && !at_bits(D1EM09).is_below(total)
    }
}

} // verus!
