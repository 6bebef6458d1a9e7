//! The tree of tunable knobs: defaults, repair to the hard ranges, strict validation.
use crate::meaning::{bounded, decimals_are_read, reads_decimals, reads_order, reads_signs};
use crate::number::{clamped_to, is_operation, num, Real64};
use crate::overlay::{
    answers, env_overlays, env_trees, fold_fitting, layered_fitting, merged, reads_as, some_fits,
    trees, trees_follow_items, var_texts, Json, Tree,
};
use crate::text::{decimal, decimal_text};
use crate::tunables::killer_pass::KillerPassOverTopTunables;
use crate::tunables::lane_affinity::LaneAffinityTunables;
use crate::tunables::perception::PomdpPerceptionTunables;
use crate::tunables::play::{
    DecisionMpcTunables, FlankCrossTunables, RewardTunables, ShootingTunables,
    TrackingInferenceTunables,
};
use crate::tunables::selection::PolicySelectionTunables;
use crate::tunables::shape::{
    CarrierKeepRollingTunables, DefensiveShapeTunables, FreshPossessionEscapeTunables,
};
use crate::tunables::unchecked::{DribbleTuning, GoalkeeperTunables, LaneDisciplineTunables};
use vstd::prelude::*;
use vstd::string::*;

pub mod killer_pass;
pub mod lane_affinity;
pub mod fit;
pub mod latency;
pub mod perception;
pub mod play;
pub mod selection;
pub mod shape;
pub mod unchecked;

verus! {

/// One thing that a repair has to say of a set of knobs. Paths name the group and the knob.
#[derive(Clone, Copy, Debug)]
pub enum Notice {
    /// The knob was infinite or not a number and has its default now.
    NonFinite { path: &'static str, default: Real64 },
    /// The knob lay outside its hard range and was clamped.
    Clamped { path: &'static str, value: Real64, min: Real64, max: Real64, kept: Real64 },
    /// The knob lies outside its sane range and was kept.
    OutsideSane { path: &'static str, value: Real64, min: Real64, max: Real64 },
    /// The count lay outside its hard range and was clamped.
    CountClamped { path: &'static str, count: usize, least: usize, most: usize, kept_count: usize },
    /// The count lies outside its sane range and was kept.
    CountOutsideSane {
        path: &'static str,
        count: usize,
        least: usize,
        most: usize,
        default_count: usize,
    },
    /// Paired knobs were brought into order.
    Reordered { what: &'static str },
}

/// One thing that strict validation holds against a set of knobs.
#[derive(Clone, Copy, Debug)]
pub enum Fault {
    /// The knob is infinite or not a number.
    NonFinite { prefix: &'static str, field: &'static str },
    /// The knob lies outside its hard range.
    Outside {
        prefix: &'static str,
        field: &'static str,
        value: Real64,
        min: Real64,
        max: Real64,
    },
    /// The count lies outside its hard range.
    CountOutside {
        prefix: &'static str,
        field: &'static str,
        count: usize,
        least: usize,
        most: usize,
    },
    /// The left knob is above the right one.
    Above { prefix: &'static str, left: &'static str, right: &'static str },
    /// The left knob is below the right one.
    Below { prefix: &'static str, left: &'static str, right: &'static str },
    /// The knob does not lie between two others.
    NotBetween {
        prefix: &'static str,
        field: &'static str,
        low: &'static str,
        high: &'static str,
    },
    /// The named weights sum to zero.
    WeightsVanish { prefix: &'static str, name: &'static str },
}

impl Fault {
    /// The text of the fault, with the given texts for a value that is no count and for the two
    /// ends of its hard range.
    pub open spec fn text(
        self,
        value_text: Seq<char>,
        min_text: Seq<char>,
        max_text: Seq<char>,
    ) -> Seq<char> {
        match self {
            Fault::NonFinite { prefix, field } => prefix@ + "."@ + field@ + " is non-finite"@,
            Fault::Outside { prefix, field, value, min, max } => prefix@ + "."@ + field@ + "="@
                + value_text + " outside ["@ + min_text + ", "@ + max_text + "]"@,
            Fault::CountOutside { prefix, field, count, least, most } => prefix@ + "."@ + field@
                + "="@ + decimal(count as nat) + " outside ["@ + decimal(least as nat) + ", "@
                + decimal(most as nat) + "]"@,
            Fault::Above { prefix, left, right } => prefix@ + "."@ + left@ + " > "@ + prefix@
                + "."@ + right@,
            Fault::Below { prefix, left, right } => prefix@ + "."@ + left@ + " < "@ + prefix@
                + "."@ + right@,
            Fault::NotBetween { prefix, field, low, high } => prefix@ + "."@ + field@
                + " outside "@ + prefix@ + "."@ + low@ + "..="@ + prefix@ + "."@ + high@,
            Fault::WeightsVanish { prefix, name } => prefix@ + "."@ + name@
                + " weights sum to zero"@,
        }
    }

    /// Writes the fault out, given the texts of the value and of the range it names where these are
    /// no counts.
    pub fn message(&self, value_text: &str, min_text: &str, max_text: &str) -> (r: String)
        ensures
            r@ == self.text(value_text@, min_text@, max_text@),
    {
        match *self {
            Fault::NonFinite { prefix, field } => {
                let mut s: String = prefix.to_owned();
                s.append(".");
                s.append(field);
                s.append(" is non-finite");
                s
            },
            Fault::Outside { prefix, field, .. } => {
                let mut s: String = prefix.to_owned();
                s.append(".");
                s.append(field);
                s.append("=");
                s.append(value_text);
                s.append(" outside [");
                s.append(min_text);
                s.append(", ");
                s.append(max_text);
                s.append("]");
                s
            },
            Fault::CountOutside { prefix, field, count, least, most } => {
                let mut s: String = prefix.to_owned();
                s.append(".");
                s.append(field);
                s.append("=");
                s.append(decimal_text(count).as_str());
                s.append(" outside [");
                s.append(decimal_text(least).as_str());
                s.append(", ");
                s.append(decimal_text(most).as_str());
                s.append("]");
                s
            },
            Fault::Above { prefix, left, right } => {
                let mut s: String = prefix.to_owned();
                s.append(".");
                s.append(left);
                s.append(" > ");
                s.append(prefix);
                s.append(".");
                s.append(right);
                s
            },
            Fault::Below { prefix, left, right } => {
                let mut s: String = prefix.to_owned();
                s.append(".");
                s.append(left);
                s.append(" < ");
                s.append(prefix);
                s.append(".");
                s.append(right);
                s
            },
            Fault::NotBetween { prefix, field, low, high } => {
                let mut s: String = prefix.to_owned();
                s.append(".");
                s.append(field);
                s.append(" outside ");
                s.append(prefix);
                s.append(".");
                s.append(low);
                s.append("..=");
                s.append(prefix);
                s.append(".");
                s.append(high);
                s
            },
            Fault::WeightsVanish { prefix, name } => {
                let mut s: String = prefix.to_owned();
                s.append(".");
                s.append(name);
                s.append(" weights sum to zero");
                s
            },
        }
    }
}

/// The number is finite and lies between the two bounds, given by their bit patterns.
#[verifier::opaque]
pub open spec fn within(value: Real64, min: u64, max: u64) -> bool {
    value.finite() && (Real64 { bits: min }).key() <= value.key() <= (Real64 { bits: max }).key()
}

/// The number put inside its hard range: the default where it is not finite, the nearer
/// bound where it lies outside, else the number itself.
pub open spec fn fitted(value: Real64, default: u64, min: u64, max: u64) -> Real64 {
    if !value.finite() {
        Real64 { bits: default }
    } else if value.key() < (Real64 { bits: min }).key() {
        Real64 { bits: min }
    } else if value.key() > (Real64 { bits: max }).key() {
        Real64 { bits: max }
    } else {
        value
    }
}

/// The count put inside its hard range.
pub open spec fn fitted_count(value: usize, min: usize, max: usize) -> usize {
    if value < min {
        min
    } else if value > max {
        max
    } else {
        value
    }
}

/// `found`, and the fault of one knob where it has one.
#[verifier::opaque]
pub open spec fn checked(
    found: Seq<Fault>,
    prefix: &'static str,
    field: &'static str,
    value: Real64,
    min: u64,
    max: u64,
) -> Seq<Fault> {
    if !value.finite() {
        found.push(Fault::NonFinite { prefix, field })
    } else if !within(value, min, max) {
        found.push(
            Fault::Outside {
                prefix,
                field,
                value,
                min: Real64 { bits: min },
                max: Real64 { bits: max },
            },
        )
    } else {
        found
    }
}

/// `found`, and the fault of one count where it has one.
pub open spec fn checked_count(
    found: Seq<Fault>,
    prefix: &'static str,
    field: &'static str,
    value: usize,
    min: usize,
    max: usize,
) -> Seq<Fault> {
    if value < min || value > max {
        found.push(Fault::CountOutside { prefix, field, count: value, least: min, most: max })
    } else {
        found
    }
}

/// `found`, and the given fault where it applies.
pub open spec fn checked_order(found: Seq<Fault>, applies: bool, fault: Fault) -> Seq<Fault> {
    if applies {
        found.push(fault)
    } else {
        found
    }
}

/// The number where it is finite, else the default.
pub open spec fn finite_or(value: Real64, default: u64) -> Real64 {
    if value.finite() {
        value
    } else {
        Real64 { bits: default }
    }
}

/// `found`, and what a repair has to say of one knob: that it was not finite, that it was clamped,
/// or that it was kept though it lies outside its sane range.
#[verifier::opaque]
pub open spec fn noticed(
    found: Seq<Notice>,
    path: &'static str,
    value: Real64,
    default: u64,
    min: u64,
    max: u64,
    sane_min: u64,
    sane_max: u64,
) -> Seq<Notice> {
    let (low, high) = (Real64 { bits: min }, Real64 { bits: max });
    let (least, most) = (Real64 { bits: sane_min }, Real64 { bits: sane_max });
    if !value.finite() {
        found.push(Notice::NonFinite { path, default: Real64 { bits: default } })
    } else if !within(value, min, max) {
        found.push(
            Notice::Clamped {
                path,
                value,
                min: low,
                max: high,
                kept: fitted(value, default, min, max),
            },
        )
    } else if value.less(least) || most.less(value) {
        found.push(Notice::OutsideSane { path, value, min: least, max: most })
    } else {
        found
    }
}

/// `found`, and a notice where a knob without a range was not finite.
#[verifier::opaque]
pub open spec fn noticed_finite(
    found: Seq<Notice>,
    path: &'static str,
    value: Real64,
    default: u64,
) -> Seq<Notice> {
    if value.finite() {
        found
    } else {
        found.push(Notice::NonFinite { path, default: Real64 { bits: default } })
    }
}

/// `found`, and what a repair has to say of one count.
#[verifier::opaque]
pub open spec fn noticed_count(
    found: Seq<Notice>,
    path: &'static str,
    count: usize,
    default: usize,
    min: usize,
    max: usize,
    sane_min: usize,
    sane_max: usize,
) -> Seq<Notice> {
    if count < min || count > max {
        found.push(
            Notice::CountClamped {
                path,
                count,
                least: min,
                most: max,
                kept_count: fitted_count(count, min, max),
            },
        )
    } else if count < sane_min || count > sane_max {
        found.push(
            Notice::CountOutsideSane {
                path,
                count,
                least: sane_min,
                most: sane_max,
                default_count: default,
            },
        )
    } else {
        found
    }
}

/// `found`, and that paired knobs were brought into order, where they were.
pub open spec fn noticed_order(
    found: Seq<Notice>,
    applies: bool,
    what: &'static str,
) -> Seq<Notice> {
    if applies {
        found.push(Notice::Reordered { what })
    } else {
        found
    }
}

/// Nothing is said of a knob that is kept exactly where it lies inside its sane range, and a
/// knob of which something else than that is said is moved.
pub proof fn notices_tell_of_moves(
    found: Seq<Notice>,
    path: &'static str,
    value: Real64,
    default: u64,
    min: u64,
    max: u64,
    sane_min: u64,
    sane_max: u64,
)
    ensures
        ({
            let after = noticed(found, path, value, default, min, max, sane_min, sane_max);
            let sane = within(value, min, max) && !value.less(Real64 { bits: sane_min })
                && !(Real64 { bits: sane_max }).less(value);
            &&& sane ==> after == found
            &&& !sane ==> after.len() == found.len() + 1 && after.drop_last() == found
            &&& !sane && within(value, min, max) ==> after.last() is OutsideSane
                && fitted(value, default, min, max) == value
        }),
{
    reveal(noticed);
    reveal(within);
    assert(noticed(found, path, value, default, min, max, sane_min, sane_max).len() > found.len()
        ==> noticed(
        found,
        path,
        value,
        default,
        min,
        max,
        sane_min,
        sane_max,
    ).drop_last() =~= found);
}

/// A knob adds one fault exactly where it is out of range.
pub proof fn checked_shows_range(
    found: Seq<Fault>,
    prefix: &'static str,
    field: &'static str,
    value: Real64,
    min: u64,
    max: u64,
)
    ensures
        checked(found, prefix, field, value, min, max).len() == found.len() + (if within(
            value,
            min,
            max,
        ) {
            0int
        } else {
            1
        }),
        within(value, min, max) ==> checked(found, prefix, field, value, min, max) == found,
{
    reveal(checked);
    reveal(within);
}

/// A fitted knob is in range, and a knob in range is not moved.
pub proof fn fitted_is_within(value: Real64, default: u64, min: u64, max: u64)
    requires
        within(Real64 { bits: default }, min, max),
        (Real64 { bits: min }).finite(),
        (Real64 { bits: max }).finite(),
    ensures
        within(fitted(value, default, min, max), min, max),
        within(value, min, max) ==> fitted(value, default, min, max) == value,
{
    reveal(within);
}

/// Puts a number inside a range; the default where it is not finite.
pub fn fit_number(value: Real64, default: u64, min: u64, max: u64) -> (r: Real64)
    requires
        (Real64 { bits: min }).finite(),
        (Real64 { bits: max }).finite(),
        (Real64 { bits: min }).key() <= (Real64 { bits: max }).key(),
    ensures
        r == fitted(value, default, min, max),
{
    let low: Real64 = Real64 { bits: min };
    let high: Real64 = Real64 { bits: max };
    if !value.is_finite() {
        Real64 { bits: default }
    } else if value.is_below(low) {
        low
    } else if high.is_below(value) {
        high
    } else {
        value
    }
}

/// Puts a knob inside its hard range and notes what there is to say of it.
pub fn sanitize_f64(
    path: &'static str,
    value: &mut Real64,
    default: u64,
    hard_min: u64,
    hard_max: u64,
    sane_min: u64,
    sane_max: u64,
    notices: &mut Vec<Notice>,
)
    requires
        (Real64 { bits: hard_min }).finite(),
        (Real64 { bits: hard_max }).finite(),
        (Real64 { bits: hard_min }).key() <= (Real64 { bits: hard_max }).key(),
    ensures
        *final(value) == fitted(*old(value), default, hard_min, hard_max),
        final(notices)@ == noticed(
            old(notices)@,
            path,
            *old(value),
            default,
            hard_min,
            hard_max,
            sane_min,
            sane_max,
        ),
{
    proof {
        reveal(noticed);
        reveal(within);
    }
    let low: Real64 = Real64 { bits: hard_min };
    let high: Real64 = Real64 { bits: hard_max };
    let least: Real64 = Real64 { bits: sane_min };
    let most: Real64 = Real64 { bits: sane_max };
    let given: Real64 = *value;
    if !given.is_finite() {
        *value = Real64 { bits: default };
        notices.push(Notice::NonFinite { path, default: *value });
    } else if given.is_below(low) {
        *value = low;
        notices.push(Notice::Clamped { path, value: given, min: low, max: high, kept: low });
    } else if high.is_below(given) {
        *value = high;
        notices.push(Notice::Clamped { path, value: given, min: low, max: high, kept: high });
    } else if given.is_below(least) || most.is_below(given) {
        notices.push(Notice::OutsideSane { path, value: given, min: least, max: most });
    }
}

/// Puts a knob without a range back to its default where it is not finite, and notes it.
pub fn sanitize_finite(
    path: &'static str,
    value: &mut Real64,
    default: u64,
    notices: &mut Vec<Notice>,
)
    ensures
        *final(value) == finite_or(*old(value), default),
        final(notices)@ == noticed_finite(old(notices)@, path, *old(value), default),
{
    proof {
        reveal(noticed_finite);
    }
    if !value.is_finite() {
        *value = Real64 { bits: default };
        notices.push(Notice::NonFinite { path, default: *value });
    }
}

/// Puts a count inside its hard range and notes what there is to say of it.
pub fn sanitize_usize(
    path: &'static str,
    value: &mut usize,
    default: usize,
    hard_min: usize,
    hard_max: usize,
    sane_min: usize,
    sane_max: usize,
    notices: &mut Vec<Notice>,
)
    requires
        hard_min <= hard_max,
    ensures
        *final(value) == fitted_count(*old(value), hard_min, hard_max),
        final(notices)@ == noticed_count(
            old(notices)@,
            path,
            *old(value),
            default,
            hard_min,
            hard_max,
            sane_min,
            sane_max,
        ),
{
    proof {
        reveal(noticed_count);
    }
    let count: usize = *value;
    if count < hard_min || count > hard_max {
        let kept: usize = if count < hard_min {
            hard_min
        } else {
            hard_max
        };
        *value = kept;
        notices.push(
            Notice::CountClamped {
                path,
                count,
                least: hard_min,
                most: hard_max,
                kept_count: kept,
            },
        );
    } else if count < sane_min || count > sane_max {
        notices.push(
            Notice::CountOutsideSane {
                path,
                count,
                least: sane_min,
                most: sane_max,
                default_count: default,
            },
        );
    }
}

/// Appends the fault of a knob, if it has one.
pub fn validate_f64(
    prefix: &'static str,
    field: &'static str,
    value: Real64,
    hard_min: u64,
    hard_max: u64,
    errors: &mut Vec<Fault>,
)
    requires
        (Real64 { bits: hard_min }).finite(),
        (Real64 { bits: hard_max }).finite(),
    ensures
        final(errors)@ == checked(old(errors)@, prefix, field, value, hard_min, hard_max),
{
    proof {
        reveal(checked);
        reveal(within);
    }
    let min: Real64 = Real64 { bits: hard_min };
    let max: Real64 = Real64 { bits: hard_max };
    if !value.is_finite() {
        errors.push(Fault::NonFinite { prefix, field });
    } else if value.is_below(min) || max.is_below(value) {
        errors.push(Fault::Outside { prefix, field, value, min, max });
    }
}

/// Appends the fault of a count, if it has one.
pub fn validate_usize(
    prefix: &'static str,
    field: &'static str,
    value: usize,
    hard_min: usize,
    hard_max: usize,
    errors: &mut Vec<Fault>,
)
    ensures
        final(errors)@ == checked_count(old(errors)@, prefix, field, value, hard_min, hard_max),
{
    if value < hard_min || value > hard_max {
        errors.push(
            Fault::CountOutside { prefix, field, count: value, least: hard_min, most: hard_max },
        );
    }
}

/// Root of the knob tree, grouped by subsystem.
#[derive(Clone, Copy, Debug)]
pub struct Tunables {
    pub tracking: TrackingInferenceTunables,
    pub flank_cross: FlankCrossTunables,
    pub reward: RewardTunables,
    pub decision_mpc: DecisionMpcTunables,
    pub shooting: ShootingTunables,
    pub defensive_shape: DefensiveShapeTunables,
    pub carrier_keep_rolling: CarrierKeepRollingTunables,
    pub dribble: DribbleTuning,
    pub fresh_possession_escape: FreshPossessionEscapeTunables,
    pub goalkeeper: GoalkeeperTunables,
    pub killer_pass_over_top: KillerPassOverTopTunables,
    pub lane_affinity: LaneAffinityTunables,
    pub lane_discipline: LaneDisciplineTunables,
    pub policy_selection: PolicySelectionTunables,
    pub pomdp_perception: PomdpPerceptionTunables,
}

impl Default for Tunables {
    fn default() -> (r: Self)
        ensures
            r == Self::defaults(),
    {
        Tunables {
            tracking: TrackingInferenceTunables::default(),
            flank_cross: FlankCrossTunables::default(),
            reward: RewardTunables::default(),
            decision_mpc: DecisionMpcTunables::default(),
            shooting: ShootingTunables::default(),
            defensive_shape: DefensiveShapeTunables::default(),
            carrier_keep_rolling: CarrierKeepRollingTunables::default(),
            dribble: DribbleTuning::default(),
            fresh_possession_escape: FreshPossessionEscapeTunables::default(),
            goalkeeper: GoalkeeperTunables::default(),
            killer_pass_over_top: KillerPassOverTopTunables::default(),
            lane_affinity: LaneAffinityTunables::default(),
            lane_discipline: LaneDisciplineTunables::default(),
            policy_selection: PolicySelectionTunables::default(),
            pomdp_perception: PomdpPerceptionTunables::default(),
        }
    }
}

/// The knobs are what the tree is read as once every overlay that fits lies on it, sanitized, and
/// the defaults, sanitized, where none fits. Every overlay was asked about, on those that fit
/// before it.
pub open spec fn is_read_from<
    R: Fn(&Json) -> Option<Tunables>,
    P: Fn(Real64, Real64) -> Real64,
>(
    read: R,
    plus: P,
    base: Tree,
    layers: Seq<Tree>,
    noted: Seq<Notice>,
    t: Tunables,
    fit: Seq<bool>,
    notices: Seq<Notice>,
) -> bool {
    let n = layers.len() as int;
    &&& fit.len() == n
    &&& forall|i: int|
        0 <= i < n ==> answers(
            read,
            merged(layered_fitting(base, layers, fit, i), layers[i]),
            #[trigger] fit[i],
        )
    &&& exists|given: Tunables|
        {
            &&& if some_fits(fit, n) {
                reads_as(read, layered_fitting(base, layers, fit, n), Some(given))
            } else {
                given == Tunables::defaults()
            }
            &&& t == #[trigger] given.repaired(given.repaired_fit_vanishes(plus))
            &&& notices == given.notices(given.repaired_fit_vanishes(plus), noted)
        }
}

impl Tunables {
    /// The default of every knob.
    pub open spec fn defaults() -> Self {
        Tunables {
            tracking: TrackingInferenceTunables::defaults(),
            flank_cross: FlankCrossTunables::defaults(),
            reward: RewardTunables::defaults(),
            decision_mpc: DecisionMpcTunables::defaults(),
            shooting: ShootingTunables::defaults(),
            defensive_shape: DefensiveShapeTunables::defaults(),
            carrier_keep_rolling: CarrierKeepRollingTunables::defaults(),
            dribble: DribbleTuning::defaults(),
            fresh_possession_escape: FreshPossessionEscapeTunables::defaults(),
            goalkeeper: GoalkeeperTunables::defaults(),
            killer_pass_over_top: KillerPassOverTopTunables::defaults(),
            lane_affinity: LaneAffinityTunables::defaults(),
            lane_discipline: LaneDisciplineTunables::defaults(),
            policy_selection: PolicySelectionTunables::defaults(),
            pomdp_perception: PomdpPerceptionTunables::defaults(),
        }
    }

    /// The tree with every group repaired.
    pub open spec fn repaired(self, fit_weights_vanish: bool) -> Self {
        Tunables {
            tracking: self.tracking.repaired(),
            flank_cross: self.flank_cross.repaired(),
            reward: self.reward.repaired(),
            decision_mpc: self.decision_mpc.repaired(),
            shooting: self.shooting.repaired(),
            defensive_shape: self.defensive_shape.repaired(),
            carrier_keep_rolling: self.carrier_keep_rolling.repaired(),
            fresh_possession_escape: self.fresh_possession_escape.repaired(),
            killer_pass_over_top: self.killer_pass_over_top.repaired(fit_weights_vanish),
            lane_affinity: self.lane_affinity.repaired(),
            pomdp_perception: self.pomdp_perception.repaired(),
            policy_selection: self.policy_selection.repaired(),
            dribble: self.dribble.repaired(),
            goalkeeper: self.goalkeeper.repaired(),
            lane_discipline: self.lane_discipline.repaired(),
        }
    }

    /// Every group that strict validation reads is in bounds.
    pub open spec fn in_strict_bounds(self) -> bool {
        &&& self.tracking.in_hard_bounds()
        &&& self.flank_cross.in_hard_bounds()
        &&& self.reward.in_hard_bounds()
        &&& self.decision_mpc.in_hard_bounds()
        &&& self.shooting.in_hard_bounds()
        &&& self.defensive_shape.in_hard_bounds()
        &&& self.carrier_keep_rolling.in_hard_bounds()
        &&& self.fresh_possession_escape.in_hard_bounds()
        &&& self.killer_pass_over_top.in_hard_bounds()
        &&& self.lane_affinity.in_hard_bounds()
        &&& self.pomdp_perception.in_hard_bounds()
    }

    /// Every group is in bounds: finite, and inside the hard ranges where there are some.
    pub open spec fn in_hard_bounds(self) -> bool {
        &&& self.in_strict_bounds()
        &&& self.policy_selection.in_hard_bounds()
        &&& self.dribble.all_finite()
        &&& self.goalkeeper.all_finite()
        &&& self.lane_discipline.all_finite()
    }

    /// What a repair has to say, group by group.
    pub open spec fn notices(self, fit_weights_vanish: bool, found: Seq<Notice>) -> Seq<Notice> {
        let n = self.tracking.notices(found);
        let n = self.flank_cross.notices(n);
        let n = self.reward.notices(n);
        let n = self.decision_mpc.notices(n);
        let n = self.shooting.notices(n);
        let n = self.defensive_shape.notices(n);
        let n = self.carrier_keep_rolling.notices(n);
        let n = self.fresh_possession_escape.notices(n);
        let n = self.killer_pass_over_top.notices(n);
        let n = noticed_order(
            n,
            fit_weights_vanish,
            "killer_pass_over_top fit weights sum to zero; using defaults",
        );
        let n = self.lane_affinity.notices(n);
        let n = self.pomdp_perception.notices(n);
        let n = self.policy_selection.notices(n);
        let n = self.dribble.notices(n);
        let n = self.goalkeeper.notices(n);
        self.lane_discipline.notices(n)
    }

    /// All faults, group by group.
    pub open spec fn faults(self, fit_weights_vanish: bool) -> Seq<Fault> {
        let e = Seq::<Fault>::empty();
        let e = self.tracking.faults("tracking", e);
        let e = self.flank_cross.faults("flank_cross", e);
        let e = self.reward.faults("reward", e);
        let e = self.decision_mpc.faults("decision_mpc", e);
        let e = self.shooting.faults("shooting", e);
        let e = self.defensive_shape.faults("defensive_shape", e);
        let e = self.carrier_keep_rolling.faults("carrier_keep_rolling", e);
        let e = self.fresh_possession_escape.faults("fresh_possession_escape", e);
        let e = self.killer_pass_over_top.faults("killer_pass_over_top", fit_weights_vanish, e);
        let e = self.lane_affinity.faults("lane_affinity", e);
        let e = self.pomdp_perception.faults("pomdp_perception", e);
        e
    }

    /// Whether the fit weights of the over-the-top pass vanish once they are inside their ranges.
    pub open spec fn repaired_fit_vanishes<P: Fn(Real64, Real64) -> Real64>(self, plus: P) -> bool {
        self.killer_pass_over_top.ordered().fit_vanishes(plus)
    }

    /// A copy with every knob finite and inside its hard range where it has one. Notes every knob
    /// that was moved, or that was kept outside its sane range.
    pub fn sanitized<P: Fn(Real64, Real64) -> Real64>(
        self,
        notices: &mut Vec<Notice>,
        plus: &P,
    ) -> (r: Tunables)
        requires
            is_operation(*plus),
        ensures
            r == self.repaired(self.repaired_fit_vanishes(*plus)),
            r.in_hard_bounds(),
            final(notices)@ == self.notices(self.repaired_fit_vanishes(*plus), old(notices)@),
    {
        let mut t: Tunables = self;
        t.tracking.sanitize(notices);
        t.flank_cross.sanitize(notices);
        t.reward.sanitize(notices);
        t.decision_mpc.sanitize(notices);
        t.shooting.sanitize(notices);
        t.defensive_shape.sanitize(notices);
        t.carrier_keep_rolling.sanitize(notices);
        t.fresh_possession_escape.sanitize(notices);
        t.killer_pass_over_top.sanitize(notices);
        let vanish: bool = t.killer_pass_over_top.fit_weights_vanish(plus);
        if vanish {
            notices.push(
                Notice::Reordered {
                    what: "killer_pass_over_top fit weights sum to zero; using defaults",
                },
            );
        }
        t.killer_pass_over_top.repair_fit_weights(vanish);
        t.lane_affinity.sanitize(notices);
        t.pomdp_perception.sanitize(notices);
        t.policy_selection.sanitize(notices);
        t.dribble.sanitize(notices);
        t.goalkeeper.sanitize(notices);
        t.lane_discipline.sanitize(notices);
        proof {
            self.groups_reach_bounds(vanish);
        }
        t
    }

    /// Lays overlays over the tree of the defaults, in order and the later ones on top, and gives
    /// what the tree is then read as, sanitized; the defaults where no overlay fits. An overlay on
    /// which the tree cannot be read any more is skipped. `read` reads a tree. The second part of
    /// the result tells which overlays fit.
    pub fn from_overlays<R: Fn(&Json) -> Option<Tunables>, P: Fn(Real64, Real64) -> Real64>(
        base: Json,
        overlays: Vec<Json>,
        read: &R,
        notices: &mut Vec<Notice>,
        plus: &P,
    ) -> (r: (Tunables, Vec<bool>))
        requires
            forall|j: &Json| #[trigger] call_requires(*read, (j,)),
            is_operation(*plus),
        ensures
            r.0.in_hard_bounds(),
            is_read_from(
                *read,
                *plus,
                base.tree(),
                trees(overlays, overlays.len() as int),
                old(notices)@,
                r.0,
                r.1@,
                final(notices)@,
            ),
    {
        let ghost layers = trees(overlays, overlays.len() as int);
        proof {
            trees_follow_items(overlays, overlays.len() as int);
        }
        let (_, read_last, fit): (Json, Option<Tunables>, Vec<bool>) = fold_fitting(
            base,
            overlays,
            read,
        );
        proof {
            assert forall|i: int| 0 <= i < layers.len() implies answers(
                *read,
                merged(layered_fitting(base.tree(), layers, fit@, i), layers[i]),
                #[trigger] fit@[i],
            ) by {
                assert(layers[i] == overlays[i].tree());
            }
        }
        match read_last {
            Some(tunables) => (tunables.sanitized(notices, plus), fit),
            None => (Tunables::default().sanitized(notices, plus), fit),
        }
    }

    /// The knobs that the environment asks for, from the texts of its variables: `blob` is the
    /// text of `SOCCER_TUNABLES_JSON`, and `vars` holds all names with their texts.
    pub fn from_env<R: Fn(&Json) -> Option<Tunables>, P: Fn(Real64, Real64) -> Real64>(
        base: Json,
        blob: Option<&str>,
        vars: &Vec<(String, String)>,
        read: &R,
        notices: &mut Vec<Notice>,
        plus: &P,
    ) -> (r: (Tunables, Vec<bool>))
        requires
            forall|j: &Json| #[trigger] call_requires(*read, (j,)),
            is_operation(*plus),
        ensures
            r.0.in_hard_bounds(),
            is_read_from(
                *read,
                *plus,
                base.tree(),
                env_trees(
                    match blob {
                        Some(text) => Some(text@),
                        None => None,
                    },
                    var_texts(vars@),
                ),
                old(notices)@,
                r.0,
                r.1@,
                final(notices)@,
            ),
    {
        let overlays: Vec<Json> = env_overlays(blob, vars);
        Tunables::from_overlays(base, overlays, read, notices, plus)
    }

    /// Strict validation: every fault instead of a repair.
    pub fn validate_strict<P: Fn(Real64, Real64) -> Real64>(&self, plus: &P) -> (r: Result<
        (),
        Vec<Fault>,
    >)
        requires
            is_operation(*plus),
        ensures
            r is Ok <==> self.in_strict_bounds() && !self.killer_pass_over_top.fit_vanishes(*plus),
            r is Err ==> r->Err_0@ == self.faults(self.killer_pass_over_top.fit_vanishes(*plus)),
    {
        let vanish: bool = self.killer_pass_over_top.fit_weights_vanish(plus);
        let mut errors: Vec<Fault> = Vec::new();
        self.tracking.validate_strict("tracking", &mut errors);
        self.flank_cross.validate_strict("flank_cross", &mut errors);
        self.reward.validate_strict("reward", &mut errors);
        self.decision_mpc.validate_strict("decision_mpc", &mut errors);
        self.shooting.validate_strict("shooting", &mut errors);
        self.defensive_shape.validate_strict("defensive_shape", &mut errors);
        self.carrier_keep_rolling.validate_strict("carrier_keep_rolling", &mut errors);
        self.fresh_possession_escape.validate_strict("fresh_possession_escape", &mut errors);
        self.killer_pass_over_top.validate_strict(
            "killer_pass_over_top",
            vanish,
            &mut errors,
        );
        self.lane_affinity.validate_strict("lane_affinity", &mut errors);
        self.pomdp_perception.validate_strict("pomdp_perception", &mut errors);
        proof {
            self.faults_are_out_of_bounds(vanish);
        }
        if errors.is_empty() {
            Ok(())
        } else {
            Err(errors)
        }
    }

    /// Strict validation finds nothing exactly where every group is in bounds and the fit
    /// weights do not vanish.
    pub proof fn faults_are_out_of_bounds(self, fit_weights_vanish: bool)
        ensures
            self.faults(fit_weights_vanish).len() == 0 <==> self.in_strict_bounds()
                && !fit_weights_vanish,
    {
        let e = Seq::<Fault>::empty();
        self.tracking.faults_show_bounds("tracking", e);
        let e = self.tracking.faults("tracking", e);
        self.flank_cross.faults_show_bounds("flank_cross", e);
        let e = self.flank_cross.faults("flank_cross", e);
        self.reward.faults_show_bounds("reward", e);
        let e = self.reward.faults("reward", e);
        self.decision_mpc.faults_show_bounds("decision_mpc", e);
        let e = self.decision_mpc.faults("decision_mpc", e);
        self.shooting.faults_show_bounds("shooting", e);
        let e = self.shooting.faults("shooting", e);
        self.defensive_shape.faults_show_bounds("defensive_shape", e);
        let e = self.defensive_shape.faults("defensive_shape", e);
        self.carrier_keep_rolling.faults_show_bounds("carrier_keep_rolling", e);
        let e = self.carrier_keep_rolling.faults("carrier_keep_rolling", e);
        self.fresh_possession_escape.faults_show_bounds("fresh_possession_escape", e);
        let e = self.fresh_possession_escape.faults("fresh_possession_escape", e);
        self.killer_pass_over_top.faults_show_bounds("killer_pass_over_top", fit_weights_vanish, e);
        let e = self.killer_pass_over_top.faults("killer_pass_over_top", fit_weights_vanish, e);
        self.lane_affinity.faults_show_bounds("lane_affinity", e);
        let e = self.lane_affinity.faults("lane_affinity", e);
        self.pomdp_perception.faults_show_bounds("pomdp_perception", e);
    }

    /// Whatever was given, the sanitized tree is in bounds, strict validation accepts it, and
    /// sanitizing it again changes nothing, as long as the default fit weights do not vanish
    /// under the addition that is used.
    pub proof fn sanitized_is_valid_and_stable<P: Fn(Real64, Real64) -> Real64>(self, plus: P)
        requires
            !KillerPassOverTopTunables::defaults().fit_vanishes(plus),
        ensures
            ({
                let t = self.repaired(self.repaired_fit_vanishes(plus));
                &&& t.in_hard_bounds()
                &&& t.faults(t.killer_pass_over_top.fit_vanishes(plus)).len() == 0
                &&& t.repaired(t.repaired_fit_vanishes(plus)) == t
            }),
    {
        let vanish = self.repaired_fit_vanishes(plus);
        let t = self.repaired(vanish);
        self.groups_reach_bounds(vanish);
        t.groups_reach_bounds(false);
        t.faults_are_out_of_bounds(false);
        assert(t.killer_pass_over_top.repaired(false) == t.killer_pass_over_top);
    }

    /// Where strict validation finds nothing, sanitizing leaves every group that it reads as it
    /// is.
    pub proof fn valid_knobs_stay<P: Fn(Real64, Real64) -> Real64>(self, plus: P)
        requires
            self.faults(self.killer_pass_over_top.fit_vanishes(plus)).len() == 0,
        ensures
            ({
                let t = self.repaired(self.repaired_fit_vanishes(plus));
                t == (Tunables {
                    policy_selection: t.policy_selection,
                    dribble: t.dribble,
                    goalkeeper: t.goalkeeper,
                    lane_discipline: t.lane_discipline,
                    ..self
                })
            }),
    {
        self.faults_are_out_of_bounds(self.killer_pass_over_top.fit_vanishes(plus));
        self.groups_reach_bounds(false);
        let p = self.killer_pass_over_top;
        assert(p.repaired(false) == p.ordered());
    }

    proof fn groups_reach_bounds(self, fit_weights_vanish: bool)
        ensures
            self.repaired(fit_weights_vanish).in_hard_bounds(),
            self.in_hard_bounds() ==> self.repaired(false) == self,
            self.in_strict_bounds() ==> ({
                let t = self.repaired(false);
                t == (Tunables {
                    policy_selection: t.policy_selection,
                    dribble: t.dribble,
                    goalkeeper: t.goalkeeper,
                    lane_discipline: t.lane_discipline,
                    ..self
                })
            }),
    {
        self.tracking.repair_reaches_bounds();
        self.flank_cross.repair_reaches_bounds();
        self.reward.repair_reaches_bounds();
        self.decision_mpc.repair_reaches_bounds();
        self.shooting.repair_reaches_bounds();
        self.defensive_shape.repair_reaches_bounds();
        self.carrier_keep_rolling.repair_reaches_bounds();
        self.fresh_possession_escape.repair_reaches_bounds();
        self.killer_pass_over_top.repair_reaches_bounds(fit_weights_vanish);
        self.lane_affinity.repair_reaches_bounds();
        self.pomdp_perception.repair_reaches_bounds();
        self.policy_selection.repair_reaches_bounds();
        self.dribble.repair_reaches_bounds();
        self.goalkeeper.repair_reaches_bounds();
        self.lane_discipline.repair_reaches_bounds();
    }

    /// The defaults are in bounds, so they pass strict validation and sanitizing leaves them as
    /// they are.
    pub proof fn defaults_pass()
        ensures
            Self::defaults().in_hard_bounds(),
            Self::defaults().faults(false).len() == 0,
            Self::defaults().repaired(false) == Self::defaults(),
    {
        TrackingInferenceTunables::defaults_reach_bounds();
        FlankCrossTunables::defaults_reach_bounds();
        RewardTunables::defaults_reach_bounds();
        DecisionMpcTunables::defaults_reach_bounds();
        ShootingTunables::defaults_reach_bounds();
        DefensiveShapeTunables::defaults_reach_bounds();
        CarrierKeepRollingTunables::defaults_reach_bounds();
        FreshPossessionEscapeTunables::defaults_reach_bounds();
        KillerPassOverTopTunables::defaults_reach_bounds();
        LaneAffinityTunables::defaults_reach_bounds();
        PomdpPerceptionTunables::defaults_reach_bounds();
        PolicySelectionTunables::defaults_reach_bounds();
        DribbleTuning::defaults_reach_bounds();
        GoalkeeperTunables::defaults_reach_bounds();
        LaneDisciplineTunables::defaults_reach_bounds();
        Self::defaults().groups_reach_bounds(false);
        Self::defaults().faults_are_out_of_bounds(false);
    }
}

/// A knob that is finite, once it is inside its range, stands for the real kept between the bounds;
/// one that is not stands for the default.
pub proof fn fits_mean_bounds(
    means: spec_fn(Real64, real) -> bool,
    value: Real64,
    default: u64,
    min: u64,
    max: u64,
    x: real,
    d: real,
    low: real,
    high: real,
)
    requires
        reads_signs(means),
        reads_order(means),
        reads_decimals(means),
        means(value, x),
        means(num(default), d),
        means(num(min), low),
        means(num(max), high),
        num(min).finite(),
        num(max).finite(),
    ensures
        value.finite() ==> means(fitted(value, default, min, max), bounded(x, low, high)),
        !value.finite() ==> means(fitted(value, default, min, max), d),
{
    decimals_are_read(means);
    if value.finite() {
        assert(fitted(value, default, min, max) == clamped_to(value, num(min), num(max)));
    }
}

} // verus!
