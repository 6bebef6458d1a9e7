//! The heritable style of a team and the search that varies it.
use crate::decimals::{
    D0, D0_15, D0_2, D0_33, D0_5, D0_6, D0_66, D1, D12, D14, D1_5, D2, D20, D23, D25, D27, D29, D3,
    D30, D5, D7, D8, DM0_15, DM0_2, DM1_5, DM2,
};
use crate::meaning::{
    decimals_are_read, is_faithful, reads_decimals, reads_order, reads_signs, reads_sums, size,
};
use crate::number::{apply, at_bits, is_operation, num, outcome, Real64};
use crate::tunables::{fit_number, fitted, within};
use vstd::array::array_as_slice;
use vstd::prelude::*;

verus! {

/// Lanes across the pitch.
pub const PITCH_GENOME_LANES: u8 = 12;

/// Rows along the pitch.
pub const PITCH_GENOME_ROWS: u8 = 24;

/// The least standoffs of the back line that the search chooses from, by their bit patterns.
pub const DEF_LINE_MIN_DISTANCE_CHOICES_YARDS: [u64; 3] = [D1, D2, D3];

/// The greatest standoffs of the back line that the search chooses from, by their bit patterns.
pub const DEF_LINE_MAX_DISTANCE_CHOICES_YARDS: [u64; 5] = [D20, D23, D25, D27, D29];

/// How many combinations of standoffs there are.
pub const DEF_LINE_BAND_PERMUTATION_COUNT: usize = 15;

/// The increment of the generator.
pub const GAMMA: u64 = 0x9E37_79B9_7F4A_7C15;

/// A generator of pseudo-random numbers, the same from the same seed.
#[derive(Clone, Copy, Debug)]
pub struct GenomeRng {
    pub state: u64,
}

/// The state after one draw.
pub open spec fn advanced(state: u64) -> u64 {
    state.wrapping_add(GAMMA)
}

/// The number drawn in a state.
#[verifier::opaque]
pub open spec fn mixed(z: u64) -> u64 {
    let a = (z ^ (z >> 30u64)).wrapping_mul(0xBF58_476D_1CE4_E5B9);
    let b = (a ^ (a >> 27u64)).wrapping_mul(0x94D0_49BB_1331_11EB);
    b ^ (b >> 31u64)
}

/// The state after `n` draws.
pub open spec fn state_after(state: u64, n: int) -> u64
    decreases n,
{
    if n <= 0 {
        state
    } else {
        advanced(state_after(state, n - 1))
    }
}

/// The `n`-th number drawn, counted from one.
pub open spec fn drawn(state: u64, n: int) -> u64 {
    mixed(state_after(state, n))
}

/// Whether a drawn number shows heads.
pub open spec fn is_heads(draw: u64) -> bool {
    draw & 1u64 == 1u64
}

impl GenomeRng {
    pub fn new(seed: u64) -> (r: Self)
        ensures
            r.state == seed ^ GAMMA,
    {
        GenomeRng { state: seed ^ GAMMA }
    }

    /// Draws a number.
    pub fn next_u64(&mut self) -> (r: u64)
        ensures
            final(self).state == advanced(old(self).state),
            r == mixed(final(self).state),
    {
        proof {
            reveal(mixed);
        }
        self.state = self.state.wrapping_add(GAMMA);
        let z: u64 = self.state;
        let a: u64 = (z ^ (z >> 30u64)).wrapping_mul(0xBF58_476D_1CE4_E5B9);
        let b: u64 = (a ^ (a >> 27u64)).wrapping_mul(0x94D0_49BB_1331_11EB);
        b ^ (b >> 31u64)
    }

    /// Tosses a coin.
    pub fn coin(&mut self) -> (heads: bool)
        ensures
            final(self).state == advanced(old(self).state),
            heads == is_heads(mixed(final(self).state)),
    {
        self.next_u64() & 1u64 == 1u64
    }

    /// Draws an index below `len`; nothing is drawn where there is none.
    pub fn index(&mut self, len: usize) -> (i: usize)
        ensures
            len == 0 ==> i == 0 && final(self).state == old(self).state,
            len > 0 ==> {
                &&& final(self).state == advanced(old(self).state)
                &&& i == mixed(final(self).state) as int % len as int
                &&& i < len
            },
    {
        if len == 0 {
            0
        } else {
            (self.next_u64() % len as u64) as usize
        }
    }
}

/// What an anchor stands for.
#[derive(Clone, Copy, Debug, PartialEq, Eq, Structural)]
pub enum GenomeRole {
    Goalkeeper,
    Defender,
    Midfielder,
    Forward,
}

/// A formation that seeds the anchors.
#[derive(Clone, Copy, Debug, PartialEq, Eq, Structural)]
pub enum TeamFormation {
    F433,
    F442,
}

/// How the first defender engages the ball carrier.
#[derive(Clone, Copy, Debug, PartialEq, Eq, Structural)]
pub enum DefenderEngagement {
    Contain,
    Press,
}

/// The cell of the pitch that a slot prefers. Row 0 is the own goal line.
#[derive(Clone, Copy, Debug, PartialEq, Eq, Structural)]
pub struct PositionAnchor {
    pub role: GenomeRole,
    pub lane: u8,
    pub row: u8,
}

pub open spec fn anchor(role: GenomeRole, lane: u8, row: u8) -> PositionAnchor {
    PositionAnchor { role, lane, row }
}

/// The anchors of a formation.
pub open spec fn anchors_of(formation: TeamFormation) -> Seq<PositionAnchor> {
    match formation {
        TeamFormation::F433 => seq![
            anchor(GenomeRole::Goalkeeper, 6, 1),
            anchor(GenomeRole::Defender, 2, 5),
            anchor(GenomeRole::Defender, 4, 5),
            anchor(GenomeRole::Defender, 8, 5),
            anchor(GenomeRole::Defender, 10, 5),
            anchor(GenomeRole::Midfielder, 3, 11),
            anchor(GenomeRole::Midfielder, 6, 11),
            anchor(GenomeRole::Midfielder, 9, 11),
            anchor(GenomeRole::Forward, 2, 18),
            anchor(GenomeRole::Forward, 6, 19),
            anchor(GenomeRole::Forward, 10, 18),
        ],
        TeamFormation::F442 => seq![
            anchor(GenomeRole::Goalkeeper, 6, 1),
            anchor(GenomeRole::Defender, 2, 5),
            anchor(GenomeRole::Defender, 4, 5),
            anchor(GenomeRole::Defender, 8, 5),
            anchor(GenomeRole::Defender, 10, 5),
            anchor(GenomeRole::Midfielder, 2, 12),
            anchor(GenomeRole::Midfielder, 5, 11),
            anchor(GenomeRole::Midfielder, 8, 11),
            anchor(GenomeRole::Midfielder, 11, 12),
            anchor(GenomeRole::Forward, 4, 18),
            anchor(GenomeRole::Forward, 8, 18),
        ],
    }
}

fn at(role: GenomeRole, lane: u8, row: u8) -> (r: PositionAnchor)
    ensures
        r == anchor(role, lane, row),
{
    PositionAnchor { role, lane, row }
}

pub fn formation_anchors(formation: TeamFormation) -> (r: Vec<PositionAnchor>)
    ensures
        r@ == anchors_of(formation),
{
    let r: Vec<PositionAnchor> = match formation {
        TeamFormation::F433 => vec![
            at(GenomeRole::Goalkeeper, 6, 1),
            at(GenomeRole::Defender, 2, 5),
            at(GenomeRole::Defender, 4, 5),
            at(GenomeRole::Defender, 8, 5),
            at(GenomeRole::Defender, 10, 5),
            at(GenomeRole::Midfielder, 3, 11),
            at(GenomeRole::Midfielder, 6, 11),
            at(GenomeRole::Midfielder, 9, 11),
            at(GenomeRole::Forward, 2, 18),
            at(GenomeRole::Forward, 6, 19),
            at(GenomeRole::Forward, 10, 18),
        ],
        TeamFormation::F442 => vec![
            at(GenomeRole::Goalkeeper, 6, 1),
            at(GenomeRole::Defender, 2, 5),
            at(GenomeRole::Defender, 4, 5),
            at(GenomeRole::Defender, 8, 5),
            at(GenomeRole::Defender, 10, 5),
            at(GenomeRole::Midfielder, 2, 12),
            at(GenomeRole::Midfielder, 5, 11),
            at(GenomeRole::Midfielder, 8, 11),
            at(GenomeRole::Midfielder, 11, 12),
            at(GenomeRole::Forward, 4, 18),
            at(GenomeRole::Forward, 8, 18),
        ],
    };
    assert(r@ =~= anchors_of(formation));
    r
}

/// The heritable preferences of a team.
#[derive(Debug)]
pub struct SoccerTeamGenome {
    pub formation: TeamFormation,
    /// Eleven slots: the keeper and ten outfield players.
    pub anchors: Vec<PositionAnchor>,
    pub def_line_min_dist_from_ball: Real64,
    pub def_line_max_dist_from_ball: Real64,
    pub mid_gap_from_back4_own_half: Real64,
    pub mid_gap_from_back4_opp_half: Real64,
    pub striker_press_synchronized: bool,
    pub press_urgency: Real64,
    pub pass_willingness_under_pressure: Real64,
    /// Preference over pass lengths of 5, 8, 10, 12 and 14 yards.
    pub pass_distance_priority: [Real64; 5],
    pub use_scoop_pass: bool,
    /// 0 for the goal line, 1 for a sweeper's line.
    pub gk_line_height: Real64,
    /// 0 for staying, 1 for coming out.
    pub gk_commit_aggression: Real64,
    pub defender_engagement: DefenderEngagement,
    pub defender_on_ball_opponent_distance: Real64,
    pub defender_on_ball_pass_urgency: Real64,
}

/// What a genome says.
pub struct GenomeView {
    pub formation: TeamFormation,
    pub anchors: Seq<PositionAnchor>,
    pub def_line_min_dist_from_ball: Real64,
    pub def_line_max_dist_from_ball: Real64,
    pub mid_gap_from_back4_own_half: Real64,
    pub mid_gap_from_back4_opp_half: Real64,
    pub striker_press_synchronized: bool,
    pub press_urgency: Real64,
    pub pass_willingness_under_pressure: Real64,
    pub pass_distance_priority: Seq<Real64>,
    pub use_scoop_pass: bool,
    pub gk_line_height: Real64,
    pub gk_commit_aggression: Real64,
    pub defender_engagement: DefenderEngagement,
    pub defender_on_ball_opponent_distance: Real64,
    pub defender_on_ball_pass_urgency: Real64,
}

impl View for SoccerTeamGenome {
    type V = GenomeView;

    open spec fn view(&self) -> GenomeView {
        GenomeView {
            formation: self.formation,
            anchors: self.anchors@,
            def_line_min_dist_from_ball: self.def_line_min_dist_from_ball,
            def_line_max_dist_from_ball: self.def_line_max_dist_from_ball,
            mid_gap_from_back4_own_half: self.mid_gap_from_back4_own_half,
            mid_gap_from_back4_opp_half: self.mid_gap_from_back4_opp_half,
            striker_press_synchronized: self.striker_press_synchronized,
            press_urgency: self.press_urgency,
            pass_willingness_under_pressure: self.pass_willingness_under_pressure,
            pass_distance_priority: self.pass_distance_priority@,
            use_scoop_pass: self.use_scoop_pass,
            gk_line_height: self.gk_line_height,
            gk_commit_aggression: self.gk_commit_aggression,
            defender_engagement: self.defender_engagement,
            defender_on_ball_opponent_distance: self.defender_on_ball_opponent_distance,
            defender_on_ball_pass_urgency: self.defender_on_ball_pass_urgency,
        }
    }
}

/// Five equal weights.
pub open spec fn equal_weights() -> Seq<Real64> {
    seq![num(D1), num(D1), num(D1), num(D1), num(D1)]
}

/// The neutral genome.
pub open spec fn neutral_genome() -> GenomeView {
    GenomeView {
        formation: TeamFormation::F433,
        anchors: anchors_of(TeamFormation::F433),
        def_line_min_dist_from_ball: num(D2),
        def_line_max_dist_from_ball: num(D25),
        mid_gap_from_back4_own_half: num(D8),
        mid_gap_from_back4_opp_half: num(D12),
        striker_press_synchronized: true,
        press_urgency: num(D0_5),
        pass_willingness_under_pressure: num(D0_5),
        pass_distance_priority: equal_weights(),
        use_scoop_pass: true,
        gk_line_height: num(D0_5),
        gk_commit_aggression: num(D0_5),
        defender_engagement: DefenderEngagement::Press,
        defender_on_ball_opponent_distance: num(D3),
        defender_on_ball_pass_urgency: num(D0_5),
    }
}

impl Default for SoccerTeamGenome {
    fn default() -> (r: Self)
        ensures
            r@ == neutral_genome(),
    {
        let r: SoccerTeamGenome = SoccerTeamGenome {
            formation: TeamFormation::F433,
            anchors: formation_anchors(TeamFormation::F433),
            def_line_min_dist_from_ball: at_bits(D2),
            def_line_max_dist_from_ball: at_bits(D25),
            mid_gap_from_back4_own_half: at_bits(D8),
            mid_gap_from_back4_opp_half: at_bits(D12),
            striker_press_synchronized: true,
            press_urgency: at_bits(D0_5),
            pass_willingness_under_pressure: at_bits(D0_5),
            pass_distance_priority: [at_bits(D1), at_bits(D1), at_bits(D1), at_bits(D1), at_bits(D1)],
            use_scoop_pass: true,
            gk_line_height: at_bits(D0_5),
            gk_commit_aggression: at_bits(D0_5),
            defender_engagement: DefenderEngagement::Press,
            defender_on_ball_opponent_distance: at_bits(D3),
            defender_on_ball_pass_urgency: at_bits(D0_5),
        };
        assert(r.pass_distance_priority@ =~= equal_weights());
        r
    }
}

/// How far two numbers are apart.
pub open spec fn apart<P: Fn(Real64, Real64) -> Real64>(plus: P, a: Real64, b: Real64) -> Real64 {
    outcome(plus, a, b.negated()).absolute()
}

fn find_apart<P: Fn(Real64, Real64) -> Real64>(a: Real64, b: Real64, plus: &P) -> (r: Real64)
    requires
        is_operation(*plus),
    ensures
        r == apart(*plus, a, b),
{
    apply(plus, a, b.negate()).abs()
}

/// The nearest of the first `n` choices, the first of several.
pub open spec fn nearest<P: Fn(Real64, Real64) -> Real64>(
    plus: P,
    value: Real64,
    choices: Seq<u64>,
    n: int,
) -> Real64
    decreases n,
{
    if n <= 1 {
        num(choices[0])
    } else {
        let best = nearest(plus, value, choices, n - 1);
        if apart(plus, value, num(choices[n - 1])).less(apart(plus, value, best)) {
            num(choices[n - 1])
        } else {
            best
        }
    }
}

/// The number where it is finite, else the fallback.
pub open spec fn finite_or(value: Real64, fallback: Real64) -> Real64 {
    if value.finite() {
        value
    } else {
        fallback
    }
}

/// The nearest choice to a number; to the fallback where the number is not finite.
pub open spec fn choice_near<P: Fn(Real64, Real64) -> Real64>(
    plus: P,
    value: Real64,
    choices: Seq<u64>,
    fallback: Real64,
) -> Real64 {
    if choices.len() == 0 {
        fallback
    } else {
        nearest(plus, finite_or(value, fallback), choices, choices.len() as int)
    }
}

/// Finds the nearest choice.
pub fn nearest_choice<P: Fn(Real64, Real64) -> Real64>(
    value: Real64,
    choices: &[u64],
    fallback: Real64,
    plus: &P,
) -> (r: Real64)
    requires
        is_operation(*plus),
    ensures
        r == choice_near(*plus, value, choices@, fallback),
{
    if choices.len() == 0 {
        return fallback;
    }
    let v: Real64 = if value.is_finite() { value } else { fallback };
    let mut best: Real64 = at_bits(choices[0]);
    let mut i: usize = 1;
    while i < choices.len()
        invariant
            1 <= i <= choices@.len(),
            is_operation(*plus),
            best == nearest(*plus, v, choices@, i as int),
        decreases choices@.len() - i,
    {
        let candidate: Real64 = at_bits(choices[i]);
        let here: Real64 = find_apart(v, candidate, plus);
        let there: Real64 = find_apart(v, best, plus);
        if here.is_below(there) {
            best = candidate;
        }
        i += 1;
    }
    best
}

/// The greater of two numbers.
pub open spec fn greater(a: Real64, b: Real64) -> Real64 {
    if a.less(b) {
        b
    } else {
        a
    }
}

/// The anchor moved onto the pitch.
pub open spec fn on_pitch(a: PositionAnchor) -> PositionAnchor {
    PositionAnchor {
        lane: if a.lane < PITCH_GENOME_LANES {
            a.lane
        } else {
            (PITCH_GENOME_LANES - 1) as u8
        },
        row: if a.row < PITCH_GENOME_ROWS {
            a.row
        } else {
            (PITCH_GENOME_ROWS - 1) as u8
        },
        ..a
    }
}

/// Eleven anchors on the pitch: the ones given, or those of the formation where it is not eleven.
pub open spec fn repaired_anchors(formation: TeamFormation, anchors: Seq<PositionAnchor>) -> Seq<
    PositionAnchor,
> {
    let eleven = if anchors.len() == 11 {
        anchors
    } else {
        anchors_of(formation)
    };
    Seq::new(eleven.len(), |i: int| on_pitch(eleven[i]))
}

/// Weights between 0 and 1, not all of them 0.
pub open spec fn repaired_weights(weights: Seq<Real64>) -> Seq<Real64> {
    let w = Seq::new(weights.len(), |i: int| fitted(weights[i], D1, D0, D1));
    if forall|i: int| 0 <= i < w.len() ==> (#[trigger] w[i]).key() <= 0 {
        equal_weights()
    } else {
        w
    }
}

impl GenomeView {
    /// The genome with every gene in its range.
    pub open spec fn sanitized<P: Fn(Real64, Real64) -> Real64>(self, plus: P) -> GenomeView {
        let low = choice_near(
            plus,
            self.def_line_min_dist_from_ball,
            DEF_LINE_MIN_DISTANCE_CHOICES_YARDS@,
            num(D2),
        );
        GenomeView {
            formation: self.formation,
            anchors: repaired_anchors(self.formation, self.anchors),
            def_line_min_dist_from_ball: low,
            def_line_max_dist_from_ball: greater(
                choice_near(
                    plus,
                    self.def_line_max_dist_from_ball,
                    DEF_LINE_MAX_DISTANCE_CHOICES_YARDS@,
                    num(D25),
                ),
                low,
            ),
            mid_gap_from_back4_own_half: fitted(self.mid_gap_from_back4_own_half, D8, D3, D30),
            mid_gap_from_back4_opp_half: fitted(self.mid_gap_from_back4_opp_half, D12, D3, D30),
            striker_press_synchronized: self.striker_press_synchronized,
            press_urgency: fitted(self.press_urgency, D0_5, D0, D1),
            pass_willingness_under_pressure: fitted(
                self.pass_willingness_under_pressure,
                D0_5,
                D0,
                D1,
            ),
            pass_distance_priority: repaired_weights(self.pass_distance_priority),
            use_scoop_pass: self.use_scoop_pass,
            gk_line_height: fitted(self.gk_line_height, D0_5, D0, D1),
            gk_commit_aggression: fitted(self.gk_commit_aggression, D0_5, D0, D1),
            defender_engagement: self.defender_engagement,
            defender_on_ball_opponent_distance: fitted(
                self.defender_on_ball_opponent_distance,
                D3,
                D0,
                D12,
            ),
            defender_on_ball_pass_urgency: fitted(
                self.defender_on_ball_pass_urgency,
                D0_5,
                D0,
                D1,
            ),
        }
    }

    /// Every gene is in its range.
    pub open spec fn is_sane(self) -> bool {
        &&& self.anchors.len() == 11
        &&& forall|i: int|
            0 <= i < self.anchors.len() ==> (#[trigger] self.anchors[i]).lane < PITCH_GENOME_LANES
                && self.anchors[i].row < PITCH_GENOME_ROWS
        &&& DEF_LINE_MIN_DISTANCE_CHOICES_YARDS@.contains(self.def_line_min_dist_from_ball.bits)
        &&& DEF_LINE_MAX_DISTANCE_CHOICES_YARDS@.contains(self.def_line_max_dist_from_ball.bits)
        &&& self.def_line_min_dist_from_ball.key() <= self.def_line_max_dist_from_ball.key()
        &&& within(self.mid_gap_from_back4_own_half, D3, D30)
        &&& within(self.mid_gap_from_back4_opp_half, D3, D30)
        &&& within(self.press_urgency, D0, D1)
        &&& within(self.pass_willingness_under_pressure, D0, D1)
        &&& self.pass_distance_priority.len() == 5
        &&& forall|i: int| 0 <= i < 5 ==> within(#[trigger] self.pass_distance_priority[i], D0, D1)
        &&& exists|i: int| 0 <= i < 5 && (#[trigger] self.pass_distance_priority[i]).key() > 0
        &&& within(self.gk_line_height, D0, D1)
        &&& within(self.gk_commit_aggression, D0, D1)
        &&& within(self.defender_on_ball_opponent_distance, D0, D12)
        &&& within(self.defender_on_ball_pass_urgency, D0, D1)
    }
}

proof fn nearest_is_a_choice<P: Fn(Real64, Real64) -> Real64>(
    plus: P,
    value: Real64,
    choices: Seq<u64>,
    n: int,
)
    requires
        0 <= n <= choices.len(),
        choices.len() > 0,
    ensures
        choices.contains(nearest(plus, value, choices, n).bits),
    decreases n,
{
    if n > 1 {
        nearest_is_a_choice(plus, value, choices, n - 1);
        assert(choices.contains(choices[n - 1]));
    } else {
        assert(choices.contains(choices[0]));
    }
}

/// Whatever genome is given, the sanitized one is sane.
pub proof fn sanitized_genomes_are_sane<P: Fn(Real64, Real64) -> Real64>(g: GenomeView, plus: P)
    requires
        g.pass_distance_priority.len() == 5,
    ensures
        g.sanitized(plus).is_sane(),
{
    reveal(within);
    let s = g.sanitized(plus);
    let mins = DEF_LINE_MIN_DISTANCE_CHOICES_YARDS@;
    let maxs = DEF_LINE_MAX_DISTANCE_CHOICES_YARDS@;
    nearest_is_a_choice(plus, finite_or(g.def_line_min_dist_from_ball, num(D2)), mins, 3);
    nearest_is_a_choice(plus, finite_or(g.def_line_max_dist_from_ball, num(D25)), maxs, 5);
    let low = choice_near(plus, g.def_line_min_dist_from_ball, mins, num(D2));
    let high = choice_near(plus, g.def_line_max_dist_from_ball, maxs, num(D25));
    assert(low.bits == D1 || low.bits == D2 || low.bits == D3) by {
        let i = choose|i: int| 0 <= i < mins.len() && mins[i] == low.bits;
        assert(i == 0 || i == 1 || i == 2);
    }
    assert(high.bits == D20 || high.bits == D23 || high.bits == D25 || high.bits == D27 || high.bits
        == D29) by {
        let i = choose|i: int| 0 <= i < maxs.len() && maxs[i] == high.bits;
        assert(i == 0 || i == 1 || i == 2 || i == 3 || i == 4);
    }
    assert(s.def_line_max_dist_from_ball == high);
    let w = Seq::new(5, |i: int| fitted(g.pass_distance_priority[i], D1, D0, D1));
    assert(Seq::new(
        g.pass_distance_priority.len(),
        |i: int| fitted(g.pass_distance_priority[i], D1, D0, D1),
    ) =~= w);
    if forall|i: int| 0 <= i < w.len() ==> (#[trigger] w[i]).key() <= 0 {
        assert(s.pass_distance_priority[0] == num(D1));
    } else {
        let i = choose|i: int| 0 <= i < w.len() && !((#[trigger] w[i]).key() <= 0);
        assert(s.pass_distance_priority[i].key() > 0);
    }
    assert(anchors_of(g.formation).len() == 11);
}

/// The choices can be told apart: no choice is nearer to one of them than itself.
pub open spec fn tells_apart<P: Fn(Real64, Real64) -> Real64>(plus: P, choices: Seq<u64>) -> bool {
    forall|i: int, j: int|
        0 <= i < choices.len() && 0 <= j < choices.len() && i != j ==> (#[trigger] apart(
            plus,
            num(choices[i]),
            num(choices[i]),
        )).less(#[trigger] apart(plus, num(choices[i]), num(choices[j])))
}

proof fn choices_are_nearest_themselves<P: Fn(Real64, Real64) -> Real64>(
    plus: P,
    choices: Seq<u64>,
    i: int,
    n: int,
)
    requires
        tells_apart(plus, choices),
        0 <= i < choices.len(),
        1 <= n <= choices.len(),
        choices.no_duplicates(),
    ensures
        i < n ==> nearest(plus, num(choices[i]), choices, n) == num(choices[i]),
        i >= n ==> exists|j: int|
            0 <= j < n && nearest(plus, num(choices[i]), choices, n) == num(#[trigger] choices[j]),
    decreases n,
{
    let v = num(choices[i]);
    let own = apart(plus, v, v);
    if n > 1 {
        choices_are_nearest_themselves(plus, choices, i, n - 1);
        if i < n - 1 {
            assert(own.less(apart(plus, v, num(choices[n - 1]))));
        } else if i == n - 1 {
            let j = choose|j: int|
                0 <= j < n - 1 && nearest(plus, v, choices, n - 1) == num(#[trigger] choices[j]);
            assert(own.less(apart(plus, v, num(choices[j]))));
        } else {
            let j = choose|j: int|
                0 <= j < n - 1 && nearest(plus, v, choices, n - 1) == num(#[trigger] choices[j]);
            assert(num(choices[j]) == num(choices[j]));
            assert(num(choices[n - 1]) == num(choices[n - 1]));
        }
    } else {
        assert(nearest(plus, v, choices, n) == num(choices[0]));
    }
}

/// Sanitizing a sane genome changes nothing, as long as the choices can be told apart.
pub proof fn sane_genomes_stay<P: Fn(Real64, Real64) -> Real64>(g: GenomeView, plus: P)
    requires
        g.is_sane(),
        tells_apart(plus, DEF_LINE_MIN_DISTANCE_CHOICES_YARDS@),
        tells_apart(plus, DEF_LINE_MAX_DISTANCE_CHOICES_YARDS@),
    ensures
        g.sanitized(plus) == g,
{
    reveal(within);
    let s = g.sanitized(plus);
    let mins = DEF_LINE_MIN_DISTANCE_CHOICES_YARDS@;
    let maxs = DEF_LINE_MAX_DISTANCE_CHOICES_YARDS@;
    let i = choose|i: int| 0 <= i < mins.len() && mins[i] == g.def_line_min_dist_from_ball.bits;
    let j = choose|j: int| 0 <= j < maxs.len() && maxs[j] == g.def_line_max_dist_from_ball.bits;
    assert(mins[0] == D1 && mins[1] == D2 && mins[2] == D3);
    assert(maxs[0] == D20 && maxs[1] == D23 && maxs[2] == D25 && maxs[3] == D27 && maxs[4] == D29);
    assert(mins.no_duplicates());
    assert(maxs.no_duplicates());
    choices_are_nearest_themselves(plus, mins, i, 3);
    choices_are_nearest_themselves(plus, maxs, j, 5);
    assert(s.def_line_min_dist_from_ball == g.def_line_min_dist_from_ball);
    assert(s.def_line_max_dist_from_ball == g.def_line_max_dist_from_ball);
    assert(s.anchors =~= g.anchors);
    let w = Seq::new(5, |i: int| fitted(g.pass_distance_priority[i], D1, D0, D1));
    assert(w =~= g.pass_distance_priority);
    assert(Seq::new(
        g.pass_distance_priority.len(),
        |i: int| fitted(g.pass_distance_priority[i], D1, D0, D1),
    ) =~= w);
    let k = choose|k: int| 0 <= k < 5 && (#[trigger] g.pass_distance_priority[k]).key() > 0;
    assert(!(w[k].key() <= 0));
}

fn fit(value: Real64, default: u64, low: u64, high: u64) -> (r: Real64)
    requires
        num(low).finite(),
        num(high).finite(),
        num(low).key() <= num(high).key(),
    ensures
        r == fitted(value, default, low, high),
{
    fit_number(value, default, low, high)
}

fn max_of(a: Real64, b: Real64) -> (r: Real64)
    ensures
        r == greater(a, b),
{
    if a.is_below(b) {
        b
    } else {
        a
    }
}

fn repair_weights(weights: &[Real64; 5]) -> (r: [Real64; 5])
    ensures
        r@ == repaired_weights(weights@),
{
    let w: [Real64; 5] = [
        fit(weights[0], D1, D0, D1),
        fit(weights[1], D1, D0, D1),
        fit(weights[2], D1, D0, D1),
        fit(weights[3], D1, D0, D1),
        fit(weights[4], D1, D0, D1),
    ];
    assert(w@ =~= Seq::new(weights@.len(), |i: int| fitted(weights@[i], D1, D0, D1)));
    if w[0].order_key() <= 0 && w[1].order_key() <= 0 && w[2].order_key() <= 0 && w[3].order_key()
        <= 0 && w[4].order_key() <= 0 {
        assert(forall|i: int| 0 <= i < w@.len() ==> (#[trigger] w@[i]).key() <= 0);
        let r: [Real64; 5] = [at_bits(D1), at_bits(D1), at_bits(D1), at_bits(D1), at_bits(D1)];
        assert(r@ =~= equal_weights());
        r
    } else {
        proof {
            assert(!(w@[0].key() <= 0) || !(w@[1].key() <= 0) || !(w@[2].key() <= 0) || !(
            w@[3].key() <= 0) || !(w@[4].key() <= 0));
        }
        w
    }
}

impl SoccerTeamGenome {
    /// Brings every gene into its range.
    pub fn sanitize<P: Fn(Real64, Real64) -> Real64>(&mut self, plus: &P)
        requires
            is_operation(*plus),
        ensures
            final(self)@ == old(self)@.sanitized(*plus),
    {
        let ghost before = self@;
        if self.anchors.len() != 11 {
            self.anchors = formation_anchors(self.formation);
        }
        let ghost eleven = self.anchors@;
        let mut i: usize = 0;
        let mut anchors: Vec<PositionAnchor> = Vec::new();
        while i < self.anchors.len()
            invariant
                i <= self.anchors@.len(),
                self.anchors@ == eleven,
                anchors@.len() == i,
                forall|j: int| 0 <= j < i ==> #[trigger] anchors@[j] == on_pitch(eleven[j]),
            decreases self.anchors@.len() - i,
        {
            let a: PositionAnchor = self.anchors[i];
            let lane: u8 = if a.lane < PITCH_GENOME_LANES {
                a.lane
            } else {
                PITCH_GENOME_LANES - 1
            };
            let row: u8 = if a.row < PITCH_GENOME_ROWS { a.row } else { PITCH_GENOME_ROWS - 1 };
            anchors.push(PositionAnchor { role: a.role, lane, row });
            i += 1;
        }
        self.anchors = anchors;
        self.def_line_min_dist_from_ball = nearest_choice(
            self.def_line_min_dist_from_ball,
            array_as_slice(&DEF_LINE_MIN_DISTANCE_CHOICES_YARDS),
            at_bits(D2),
            plus,
        );
        let high: Real64 = nearest_choice(
            self.def_line_max_dist_from_ball,
            array_as_slice(&DEF_LINE_MAX_DISTANCE_CHOICES_YARDS),
            at_bits(D25),
            plus,
        );
        self.def_line_max_dist_from_ball = max_of(high, self.def_line_min_dist_from_ball);
        self.mid_gap_from_back4_own_half = fit(self.mid_gap_from_back4_own_half, D8, D3, D30);
        self.mid_gap_from_back4_opp_half = fit(self.mid_gap_from_back4_opp_half, D12, D3, D30);
        self.press_urgency = fit(self.press_urgency, D0_5, D0, D1);
        self.pass_willingness_under_pressure = fit(
            self.pass_willingness_under_pressure,
            D0_5,
            D0,
            D1,
        );
        self.pass_distance_priority = repair_weights(&self.pass_distance_priority);
        self.defender_on_ball_opponent_distance = fit(
            self.defender_on_ball_opponent_distance,
            D3,
            D0,
            D12,
        );
        self.defender_on_ball_pass_urgency = fit(self.defender_on_ball_pass_urgency, D0_5, D0, D1);
        self.gk_line_height = fit(self.gk_line_height, D0_5, D0, D1);
        self.gk_commit_aggression = fit(self.gk_commit_aggression, D0_5, D0, D1);
        assert(self.anchors@ =~= repaired_anchors(before.formation, before.anchors));
    }

    /// The keeper's strategy that the genome leans towards.
    pub fn gk_strategy_label(&self) -> (r: &'static str)
        ensures
            r@ == keeper_label(self.gk_line_height, self.gk_commit_aggression),
    {
        let high: bool = at_least(self.gk_line_height, at_bits(D0_66));
        let low: bool = at_least(at_bits(D0_33), self.gk_line_height);
        let bold: bool = at_least(self.gk_commit_aggression, at_bits(D0_6));
        if high && bold {
            "sweeper"
        } else if low && bold {
            "off-line-angle-closing"
        } else if low {
            "goal-line-max-reaction"
        } else {
            "no-mans-land-balanced"
        }
    }

    /// The standoffs of the back line, by choice.
    pub fn defensive_line_band_yards<P: Fn(Real64, Real64) -> Real64>(&self, plus: &P) -> (r: (
        Real64,
        Real64,
    ))
        requires
            is_operation(*plus),
        ensures
            r == (
                self@.sanitized(*plus).def_line_min_dist_from_ball,
                self@.sanitized(*plus).def_line_max_dist_from_ball,
            ),
    {
        let low: Real64 = nearest_choice(
            self.def_line_min_dist_from_ball,
            array_as_slice(&DEF_LINE_MIN_DISTANCE_CHOICES_YARDS),
            at_bits(D2),
            plus,
        );
        let high: Real64 = nearest_choice(
            self.def_line_max_dist_from_ball,
            array_as_slice(&DEF_LINE_MAX_DISTANCE_CHOICES_YARDS),
            at_bits(D25),
            plus,
        );
        (low, max_of(high, low))
    }

    /// The standoffs with a number: the least varies fastest, and after all have come up they
    /// repeat.
    pub fn defensive_line_band_for_permutation(index: usize) -> (r: (Real64, Real64))
        ensures
            r == band_number(index as int),
    {
        let low: usize = index % 3;
        let high: usize = (index / 3) % 5;
        (
            at_bits(DEF_LINE_MIN_DISTANCE_CHOICES_YARDS[low]),
            at_bits(DEF_LINE_MAX_DISTANCE_CHOICES_YARDS[high]),
        )
    }

    pub fn apply_defensive_line_band_permutation(&mut self, index: usize)
        ensures
            final(self)@ == (GenomeView {
                def_line_min_dist_from_ball: band_number(index as int).0,
                def_line_max_dist_from_ball: band_number(index as int).1,
                ..old(self)@
            }),
    {
        let (low, high): (Real64, Real64) = Self::defensive_line_band_for_permutation(index);
        self.def_line_min_dist_from_ball = low;
        self.def_line_max_dist_from_ball = high;
    }
}

/// The number is not below another.
pub open spec fn is_at_least(a: Real64, b: Real64) -> bool {
    !a.nan() && !b.nan() && a.key() >= b.key()
}

fn at_least(a: Real64, b: Real64) -> (r: bool)
    ensures
        r == is_at_least(a, b),
{
    !a.is_nan() && !b.is_nan() && a.order_key() >= b.order_key()
}

/// The keeper's strategy for a line height and a boldness.
pub open spec fn keeper_label(height: Real64, boldness: Real64) -> Seq<char> {
    let bold = is_at_least(boldness, num(D0_6));
    if is_at_least(height, num(D0_66)) && bold {
        "sweeper"@
    } else if is_at_least(num(D0_33), height) && bold {
        "off-line-angle-closing"@
    } else if is_at_least(num(D0_33), height) {
        "goal-line-max-reaction"@
    } else {
        "no-mans-land-balanced"@
    }
}

/// The standoffs with a number.
pub open spec fn band_number(index: int) -> (Real64, Real64) {
    (
        num(DEF_LINE_MIN_DISTANCE_CHOICES_YARDS@[index % 3]),
        num(DEF_LINE_MAX_DISTANCE_CHOICES_YARDS@[(index / 3) % 5]),
    )
}

/// The numbered standoffs run through every combination once and then start again.
pub proof fn bands_cycle(i: int, j: int)
    requires
        0 <= i,
        0 <= j < DEF_LINE_BAND_PERMUTATION_COUNT,
    ensures
        band_number(i + DEF_LINE_BAND_PERMUTATION_COUNT) == band_number(i),
        i < DEF_LINE_BAND_PERMUTATION_COUNT && band_number(i) == band_number(j) ==> i == j,
{
    let mins = DEF_LINE_MIN_DISTANCE_CHOICES_YARDS@;
    let maxs = DEF_LINE_MAX_DISTANCE_CHOICES_YARDS@;
    assert(mins[0] == D1 && mins[1] == D2 && mins[2] == D3);
    assert(maxs[0] == D20 && maxs[1] == D23 && maxs[2] == D25 && maxs[3] == D27 && maxs[4] == D29);
    assert((i + 15) % 3 == i % 3);
    assert((i + 15) / 3 == i / 3 + 5);
    if band_number(i) == band_number(j) {
        assert(i % 3 == j % 3);
        assert((i / 3) % 5 == (j / 3) % 5);
    }
}

/// The value moved by a drawn step within `span`, kept in range.
pub open spec fn jittered(value: u8, span: u8, draw: u64) -> u8 {
    let moved = value + (draw as int % (2 * span + 1)) - span;
    if moved < 0 {
        0
    } else if moved > u8::MAX {
        u8::MAX
    } else {
        moved as u8
    }
}

/// Moves a value by a drawn step.
pub fn jitter_u8(value: u8, span: u8, rng: &mut GenomeRng) -> (r: u8)
    ensures
        final(rng).state == advanced(old(rng).state),
        r == jittered(value, span, mixed(final(rng).state)),
{
    let width: u64 = 2 * (span as u64) + 1;
    let step: u64 = rng.next_u64() % width;
    let moved: i64 = value as i64 + step as i64 - span as i64;
    if moved < 0 {
        0
    } else if moved > 255 {
        255
    } else {
        moved as u8
    }
}

/// The share of one that a draw of 53 bits stands for.
pub open spec fn share_of<B: Fn(u64) -> Real64>(share: B, draw: u64) -> Real64 {
    choose|r: Real64| call_ensures(share, (draw,), r)
}

/// The share takes all draws and depends on nothing else.
pub open spec fn is_share<B: Fn(u64) -> Real64>(share: B) -> bool {
    &&& forall|draw: u64| #[trigger] call_requires(share, (draw,))
    &&& forall|draw: u64, r: Real64| #[trigger]
        call_ensures(share, (draw,), r) ==> r == share_of(share, draw)
}

fn draw_share<B: Fn(u64) -> Real64>(rng: &mut GenomeRng, share: &B) -> (r: Real64)
    requires
        is_share(*share),
    ensures
        final(rng).state == advanced(old(rng).state),
        r == share_of(*share, mixed(final(rng).state) >> 11u64),
{
    let draw: u64 = rng.next_u64() >> 11u64;
    let r: Real64 = share(draw);
    assert(call_ensures(*share, (draw,), r));
    r
}

/// The number between two bounds that a draw gives.
pub open spec fn spread<
    B: Fn(u64) -> Real64,
    P: Fn(Real64, Real64) -> Real64,
    M: Fn(Real64, Real64) -> Real64,
>(share: B, plus: P, times: M, low: u64, high: u64, draw: u64) -> Real64 {
    outcome(
        plus,
        num(low),
        outcome(
            times,
            outcome(plus, num(high), num(low).negated()),
            share_of(share, draw >> 11u64),
        ),
    )
}

fn range<
    B: Fn(u64) -> Real64,
    P: Fn(Real64, Real64) -> Real64,
    M: Fn(Real64, Real64) -> Real64,
>(rng: &mut GenomeRng, share: &B, plus: &P, times: &M, low: u64, high: u64) -> (r: Real64)
    requires
        is_share(*share),
        is_operation(*plus),
        is_operation(*times),
    ensures
        final(rng).state == advanced(old(rng).state),
        r == spread(*share, *plus, *times, low, high, mixed(final(rng).state)),
{
    let part: Real64 = draw_share(rng, share);
    let width: Real64 = apply(plus, at_bits(high), at_bits(low).negate());
    apply(plus, at_bits(low), apply(times, width, part))
}

fn range_nth<
    B: Fn(u64) -> Real64,
    P: Fn(Real64, Real64) -> Real64,
    M: Fn(Real64, Real64) -> Real64,
>(
    rng: &mut GenomeRng,
    share: &B,
    plus: &P,
    times: &M,
    low: u64,
    high: u64,
    Ghost(s): Ghost<u64>,
    Ghost(n): Ghost<int>,
) -> (r: Real64)
    requires
        is_share(*share),
        is_operation(*plus),
        is_operation(*times),
        0 <= n,
        old(rng).state == state_after(s, n),
    ensures
        final(rng).state == state_after(s, n + 1),
        r == spread(*share, *plus, *times, low, high, drawn(s, n + 1)),
{
    range(rng, share, plus, times, low, high)
}

fn coin_nth(rng: &mut GenomeRng, Ghost(s): Ghost<u64>, Ghost(n): Ghost<int>) -> (heads: bool)
    requires
        0 <= n,
        old(rng).state == state_after(s, n),
    ensures
        final(rng).state == state_after(s, n + 1),
        heads == is_heads(drawn(s, n + 1)),
{
    rng.coin()
}

fn index_nth(
    rng: &mut GenomeRng,
    len: usize,
    Ghost(s): Ghost<u64>,
    Ghost(n): Ghost<int>,
) -> (i: usize)
    requires
        0 < len,
        0 <= n,
        old(rng).state == state_after(s, n),
    ensures
        final(rng).state == state_after(s, n + 1),
        i == drawn(s, n + 1) as int % len as int,
        i < len,
{
    rng.index(len)
}

/// The first `n` anchors moved by two draws each: up to one lane and up to two rows.
pub open spec fn scattered(anchors: Seq<PositionAnchor>, state: u64, n: int) -> Seq<PositionAnchor>
    decreases n,
{
    if n <= 0 {
        Seq::empty()
    } else {
        scattered(anchors, state, n - 1).push(
            PositionAnchor {
                lane: jittered(anchors[n - 1].lane, 1, drawn(state, 2 * n - 1)),
                row: jittered(anchors[n - 1].row, 2, drawn(state, 2 * n)),
                ..anchors[n - 1]
            },
        )
    }
}

fn scatter(anchors: &Vec<PositionAnchor>, rng: &mut GenomeRng) -> (r: Vec<PositionAnchor>)
    ensures
        r@ == scattered(anchors@, old(rng).state, anchors@.len() as int),
        final(rng).state == state_after(old(rng).state, 2 * anchors@.len() as int),
{
    let ghost start = rng.state;
    let mut r: Vec<PositionAnchor> = Vec::new();
    let mut i: usize = 0;
    while i < anchors.len()
        invariant
            i <= anchors@.len(),
            r@ == scattered(anchors@, start, i as int),
            rng.state == state_after(start, 2 * i),
        decreases anchors@.len() - i,
    {
        let a: PositionAnchor = anchors[i];
        proof {
            reveal_with_fuel(state_after, 3);
            assert(2 * (i + 1) - 1 == 2 * i + 1);
        }
        let lane: u8 = jitter_u8(a.lane, 1, rng);
        assert(rng.state == state_after(start, 2 * i + 1));
        let row: u8 = jitter_u8(a.row, 2, rng);
        assert(rng.state == state_after(start, 2 * i + 2));
        r.push(PositionAnchor { role: a.role, lane, row });
        i += 1;
    }
    r
}

/// The genome drawn from a state, before it is sanitized.
pub open spec fn raw_random<
    B: Fn(u64) -> Real64,
    P: Fn(Real64, Real64) -> Real64,
    M: Fn(Real64, Real64) -> Real64,
>(
    share: B,
    plus: P,
    times: M,
    state: u64,
) -> GenomeView {
    let formation = if is_heads(drawn(state, 1)) {
        TeamFormation::F433
    } else {
        TeamFormation::F442
    };
    GenomeView {
        formation,
        anchors: scattered(anchors_of(formation), state_after(state, 1), 11),
        def_line_min_dist_from_ball: num(
            DEF_LINE_MIN_DISTANCE_CHOICES_YARDS@[drawn(state, 24) as int % 3],
        ),
        def_line_max_dist_from_ball: num(
            DEF_LINE_MAX_DISTANCE_CHOICES_YARDS@[drawn(state, 25) as int % 5],
        ),
        mid_gap_from_back4_own_half: spread(share, plus, times, D5, D14, drawn(state, 26)),
        mid_gap_from_back4_opp_half: spread(share, plus, times, D8, D20, drawn(state, 27)),
        striker_press_synchronized: is_heads(drawn(state, 28)),
        press_urgency: spread(share, plus, times, D0, D1, drawn(state, 29)),
        pass_willingness_under_pressure: spread(share, plus, times, D0, D1, drawn(state, 30)),
        pass_distance_priority: seq![
            spread(share, plus, times, D0, D1, drawn(state, 31)),
            spread(share, plus, times, D0, D1, drawn(state, 32)),
            spread(share, plus, times, D0, D1, drawn(state, 33)),
            spread(share, plus, times, D0, D1, drawn(state, 34)),
            spread(share, plus, times, D0, D1, drawn(state, 35)),
        ],
        use_scoop_pass: is_heads(drawn(state, 36)),
        gk_line_height: spread(share, plus, times, D0, D1, drawn(state, 37)),
        gk_commit_aggression: spread(share, plus, times, D0, D1, drawn(state, 38)),
        defender_engagement: if is_heads(drawn(state, 39)) {
            DefenderEngagement::Contain
        } else {
            DefenderEngagement::Press
        },
        defender_on_ball_opponent_distance: spread(share, plus, times, D1_5, D7, drawn(state, 40)),
        defender_on_ball_pass_urgency: spread(share, plus, times, D0, D1, drawn(state, 41)),
    }
}

proof fn draws_add_up(state: u64, m: int, n: int)
    requires
        0 <= m,
        0 <= n,
    ensures
        state_after(state_after(state, m), n) == state_after(state, m + n),
    decreases n,
{
    if n > 0 {
        draws_add_up(state, m, n - 1);
    }
}

impl SoccerTeamGenome {
    /// A genome of a random style.
    pub fn random<
        B: Fn(u64) -> Real64,
        P: Fn(Real64, Real64) -> Real64,
        M: Fn(Real64, Real64) -> Real64,
    >(
        rng: &mut GenomeRng,
        share: &B,
        plus: &P,
        times: &M,
    ) -> (r: Self)
        requires
            is_share(*share),
            is_operation(*plus),
            is_operation(*times),
        ensures
            r@ == raw_random(*share, *plus, *times, old(rng).state).sanitized(*plus),
            final(rng).state == state_after(old(rng).state, 41),
    {
        let ghost s = rng.state;
        assert(rng.state == state_after(s, 0));
        let formation: TeamFormation = if coin_nth(rng, Ghost(s), Ghost(0)) {
            TeamFormation::F433
        } else {
            TeamFormation::F442
        };
        let seeds: Vec<PositionAnchor> = formation_anchors(formation);
        assert(seeds@.len() == 11);
        let anchors: Vec<PositionAnchor> = scatter(&seeds, rng);
        proof {
            draws_add_up(s, 1, 22);
        }
        let low: usize = index_nth(rng, 3, Ghost(s), Ghost(23));
        let high: usize = index_nth(rng, 5, Ghost(s), Ghost(24));
        let own: Real64 = range_nth(rng, share, plus, times, D5, D14, Ghost(s), Ghost(25));
        let opp: Real64 = range_nth(rng, share, plus, times, D8, D20, Ghost(s), Ghost(26));
        let together: bool = coin_nth(rng, Ghost(s), Ghost(27));
        let urgency: Real64 = range_nth(rng, share, plus, times, D0, D1, Ghost(s), Ghost(28));
        let willing: Real64 = range_nth(rng, share, plus, times, D0, D1, Ghost(s), Ghost(29));
        let w0: Real64 = range_nth(rng, share, plus, times, D0, D1, Ghost(s), Ghost(30));
        let w1: Real64 = range_nth(rng, share, plus, times, D0, D1, Ghost(s), Ghost(31));
        let w2: Real64 = range_nth(rng, share, plus, times, D0, D1, Ghost(s), Ghost(32));
        let w3: Real64 = range_nth(rng, share, plus, times, D0, D1, Ghost(s), Ghost(33));
        let w4: Real64 = range_nth(rng, share, plus, times, D0, D1, Ghost(s), Ghost(34));
        let scoop: bool = coin_nth(rng, Ghost(s), Ghost(35));
        let line: Real64 = range_nth(rng, share, plus, times, D0, D1, Ghost(s), Ghost(36));
        let commit: Real64 = range_nth(rng, share, plus, times, D0, D1, Ghost(s), Ghost(37));
        let engagement: DefenderEngagement = if coin_nth(rng, Ghost(s), Ghost(38)) {
            DefenderEngagement::Contain
        } else {
            DefenderEngagement::Press
        };
        let distance: Real64 = range_nth(rng, share, plus, times, D1_5, D7, Ghost(s), Ghost(39));
        let release: Real64 = range_nth(rng, share, plus, times, D0, D1, Ghost(s), Ghost(40));
        let mut genome: SoccerTeamGenome = SoccerTeamGenome {
            formation,
            anchors,
            def_line_min_dist_from_ball: at_bits(DEF_LINE_MIN_DISTANCE_CHOICES_YARDS[low]),
            def_line_max_dist_from_ball: at_bits(DEF_LINE_MAX_DISTANCE_CHOICES_YARDS[high]),
            mid_gap_from_back4_own_half: own,
            mid_gap_from_back4_opp_half: opp,
            striker_press_synchronized: together,
            press_urgency: urgency,
            pass_willingness_under_pressure: willing,
            pass_distance_priority: [w0, w1, w2, w3, w4],
            use_scoop_pass: scoop,
            gk_line_height: line,
            gk_commit_aggression: commit,
            defender_engagement: engagement,
            defender_on_ball_opponent_distance: distance,
            defender_on_ball_pass_urgency: release,
        };
        proof {
            assert(
                genome.pass_distance_priority@ =~= raw_random(
                    *share,
                    *plus,
                    *times,
                    s,
                ).pass_distance_priority
            );
        }
        let ghost raw = genome@;
        assert(raw == raw_random(*share, *plus, *times, s));
        genome.sanitize(plus);
        genome
    }
}

/// One of two genes by the `n`-th coin: heads for the first parent.
pub open spec fn inherited<T>(a: T, b: T, state: u64, n: int) -> T {
    if is_heads(drawn(state, n)) {
        a
    } else {
        b
    }
}

/// The first `n` anchors, each from one parent by its coin; the second parent's where it has one.
pub open spec fn inherited_anchors(
    a: Seq<PositionAnchor>,
    b: Seq<PositionAnchor>,
    state: u64,
    n: int,
) -> Seq<PositionAnchor>
    decreases n,
{
    if n <= 0 {
        Seq::empty()
    } else {
        inherited_anchors(a, b, state, n - 1).push(
            inherited(
                a[n - 1],
                if n - 1 < b.len() {
                    b[n - 1]
                } else {
                    a[n - 1]
                },
                state,
                n + 1,
            ),
        )
    }
}

/// The genes of a hybrid, each from one of its parents, before it is sanitized.
pub open spec fn raw_hybrid(a: GenomeView, b: GenomeView, s: u64) -> GenomeView {
    let n = a.anchors.len() as int + 1;
    GenomeView {
        formation: inherited(a.formation, b.formation, s, 1),
        anchors: inherited_anchors(a.anchors, b.anchors, s, a.anchors.len() as int),
        pass_distance_priority: seq![
            inherited(a.pass_distance_priority[0], b.pass_distance_priority[0], s, n + 1),
            inherited(a.pass_distance_priority[1], b.pass_distance_priority[1], s, n + 2),
            inherited(a.pass_distance_priority[2], b.pass_distance_priority[2], s, n + 3),
            inherited(a.pass_distance_priority[3], b.pass_distance_priority[3], s, n + 4),
            inherited(a.pass_distance_priority[4], b.pass_distance_priority[4], s, n + 5),
        ],
        def_line_min_dist_from_ball: inherited(
            a.def_line_min_dist_from_ball,
            b.def_line_min_dist_from_ball,
            s,
            n + 6,
        ),
        def_line_max_dist_from_ball: inherited(
            a.def_line_max_dist_from_ball,
            b.def_line_max_dist_from_ball,
            s,
            n + 7,
        ),
        mid_gap_from_back4_own_half: inherited(
            a.mid_gap_from_back4_own_half,
            b.mid_gap_from_back4_own_half,
            s,
            n + 8,
        ),
        mid_gap_from_back4_opp_half: inherited(
            a.mid_gap_from_back4_opp_half,
            b.mid_gap_from_back4_opp_half,
            s,
            n + 9,
        ),
        striker_press_synchronized: inherited(
            a.striker_press_synchronized,
            b.striker_press_synchronized,
            s,
            n + 10,
        ),
        press_urgency: inherited(a.press_urgency, b.press_urgency, s, n + 11),
        pass_willingness_under_pressure: inherited(
            a.pass_willingness_under_pressure,
            b.pass_willingness_under_pressure,
            s,
            n + 12,
        ),
        use_scoop_pass: inherited(a.use_scoop_pass, b.use_scoop_pass, s, n + 13),
        gk_line_height: inherited(a.gk_line_height, b.gk_line_height, s, n + 14),
        gk_commit_aggression: inherited(a.gk_commit_aggression, b.gk_commit_aggression, s, n + 15),
        defender_engagement: inherited(a.defender_engagement, b.defender_engagement, s, n + 16),
        defender_on_ball_opponent_distance: inherited(
            a.defender_on_ball_opponent_distance,
            b.defender_on_ball_opponent_distance,
            s,
            n + 17,
        ),
        defender_on_ball_pass_urgency: inherited(
            a.defender_on_ball_pass_urgency,
            b.defender_on_ball_pass_urgency,
            s,
            n + 18,
        ),
    }
}

fn inherit_real(
    a: Real64,
    b: Real64,
    rng: &mut GenomeRng,
    Ghost(s): Ghost<u64>,
    Ghost(n): Ghost<int>,
) -> (r: Real64)
    requires
        0 <= n,
        old(rng).state == state_after(s, n),
    ensures
        final(rng).state == state_after(s, n + 1),
        r == inherited(a, b, s, n + 1),
{
    if rng.coin() {
        a
    } else {
        b
    }
}

fn inherit_flag(
    a: bool,
    b: bool,
    rng: &mut GenomeRng,
    Ghost(s): Ghost<u64>,
    Ghost(n): Ghost<int>,
) -> (r: bool)
    requires
        0 <= n,
        old(rng).state == state_after(s, n),
    ensures
        final(rng).state == state_after(s, n + 1),
        r == inherited(a, b, s, n + 1),
{
    if rng.coin() {
        a
    } else {
        b
    }
}

impl SoccerTeamGenome {
    /// A hybrid of two parents, gene by gene.
    pub fn crossover<P: Fn(Real64, Real64) -> Real64>(
        a: &SoccerTeamGenome,
        b: &SoccerTeamGenome,
        rng: &mut GenomeRng,
        plus: &P,
    ) -> (r: Self)
        requires
            is_operation(*plus),
        ensures
            r@ == raw_hybrid(a@, b@, old(rng).state).sanitized(*plus),
            final(rng).state == state_after(old(rng).state, a.anchors@.len() as int + 19),
    {
        let ghost s = rng.state;
        proof {
            reveal_with_fuel(state_after, 2);
        }
        let formation: TeamFormation = if rng.coin() { a.formation } else { b.formation };
        assert(rng.state == state_after(s, 1));
        let mut anchors: Vec<PositionAnchor> = Vec::new();
        let mut i: usize = 0;
        while i < a.anchors.len()
            invariant
                i <= a.anchors@.len(),
                rng.state == state_after(s, i + 1),
                anchors@ == inherited_anchors(a.anchors@, b.anchors@, s, i as int),
            decreases a.anchors@.len() - i,
        {
            let first: bool = rng.coin();
            assert(rng.state == state_after(s, i + 2));
            if first {
                anchors.push(a.anchors[i]);
            } else if i < b.anchors.len() {
                anchors.push(b.anchors[i]);
            } else {
                anchors.push(a.anchors[i]);
            }
            i += 1;
        }
        let ghost n = a.anchors@.len() as int + 1;
        let p: &[Real64; 5] = &a.pass_distance_priority;
        let q: &[Real64; 5] = &b.pass_distance_priority;
        let w0: Real64 = inherit_real(p[0], q[0], rng, Ghost(s), Ghost(n));
        let w1: Real64 = inherit_real(p[1], q[1], rng, Ghost(s), Ghost(n + 1));
        let w2: Real64 = inherit_real(p[2], q[2], rng, Ghost(s), Ghost(n + 2));
        let w3: Real64 = inherit_real(p[3], q[3], rng, Ghost(s), Ghost(n + 3));
        let w4: Real64 = inherit_real(p[4], q[4], rng, Ghost(s), Ghost(n + 4));
        let low: Real64 = inherit_real(
            a.def_line_min_dist_from_ball,
            b.def_line_min_dist_from_ball,
            rng,
            Ghost(s),
            Ghost(n + 5),
        );
        let high: Real64 = inherit_real(
            a.def_line_max_dist_from_ball,
            b.def_line_max_dist_from_ball,
            rng,
            Ghost(s),
            Ghost(n + 6),
        );
        let own: Real64 = inherit_real(
            a.mid_gap_from_back4_own_half,
            b.mid_gap_from_back4_own_half,
            rng,
            Ghost(s),
            Ghost(n + 7),
        );
        let opp: Real64 = inherit_real(
            a.mid_gap_from_back4_opp_half,
            b.mid_gap_from_back4_opp_half,
            rng,
            Ghost(s),
            Ghost(n + 8),
        );
        let together: bool = inherit_flag(
            a.striker_press_synchronized,
            b.striker_press_synchronized,
            rng,
            Ghost(s),
            Ghost(n + 9),
        );
        let urgency: Real64 = inherit_real(
            a.press_urgency,
            b.press_urgency,
            rng,
            Ghost(s),
            Ghost(n + 10),
        );
        let willing: Real64 = inherit_real(
            a.pass_willingness_under_pressure,
            b.pass_willingness_under_pressure,
            rng,
            Ghost(s),
            Ghost(n + 11),
        );
        let scoop: bool = inherit_flag(
            a.use_scoop_pass,
            b.use_scoop_pass,
            rng,
            Ghost(s),
            Ghost(n + 12),
        );
        let line: Real64 = inherit_real(
            a.gk_line_height,
            b.gk_line_height,
            rng,
            Ghost(s),
            Ghost(n + 13),
        );
        let commit: Real64 = inherit_real(
            a.gk_commit_aggression,
            b.gk_commit_aggression,
            rng,
            Ghost(s),
            Ghost(n + 14),
        );
        let engagement: DefenderEngagement = if rng.coin() {
            a.defender_engagement
        } else {
            b.defender_engagement
        };
        assert(rng.state == state_after(s, n + 16));
        let distance: Real64 = inherit_real(
            a.defender_on_ball_opponent_distance,
            b.defender_on_ball_opponent_distance,
            rng,
            Ghost(s),
            Ghost(n + 16),
        );
        let release: Real64 = inherit_real(
            a.defender_on_ball_pass_urgency,
            b.defender_on_ball_pass_urgency,
            rng,
            Ghost(s),
            Ghost(n + 17),
        );
        let mut genome: SoccerTeamGenome = SoccerTeamGenome {
            formation,
            anchors,
            def_line_min_dist_from_ball: low,
            def_line_max_dist_from_ball: high,
            mid_gap_from_back4_own_half: own,
            mid_gap_from_back4_opp_half: opp,
            striker_press_synchronized: together,
            press_urgency: urgency,
            pass_willingness_under_pressure: willing,
            pass_distance_priority: [w0, w1, w2, w3, w4],
            use_scoop_pass: scoop,
            gk_line_height: line,
            gk_commit_aggression: commit,
            defender_engagement: engagement,
            defender_on_ball_opponent_distance: distance,
            defender_on_ball_pass_urgency: release,
        };
        proof {
            assert(genome.pass_distance_priority@ =~= seq![w0, w1, w2, w3, w4]);
            assert(genome@ == raw_hybrid(a@, b@, s));
        }
        genome.sanitize(plus);
        genome
    }
}

/// Every gene comes from one of two genomes, an anchor as a whole and the weights left out.
pub open spec fn descends(c: GenomeView, a: GenomeView, b: GenomeView) -> bool {
    &&& c.formation == a.formation || c.formation == b.formation
    &&& c.def_line_min_dist_from_ball == a.def_line_min_dist_from_ball
        || c.def_line_min_dist_from_ball == b.def_line_min_dist_from_ball
    &&& c.def_line_max_dist_from_ball == a.def_line_max_dist_from_ball
        || c.def_line_max_dist_from_ball == b.def_line_max_dist_from_ball
    &&& c.mid_gap_from_back4_own_half == a.mid_gap_from_back4_own_half
        || c.mid_gap_from_back4_own_half == b.mid_gap_from_back4_own_half
    &&& c.mid_gap_from_back4_opp_half == a.mid_gap_from_back4_opp_half
        || c.mid_gap_from_back4_opp_half == b.mid_gap_from_back4_opp_half
    &&& c.striker_press_synchronized == a.striker_press_synchronized || c.striker_press_synchronized
        == b.striker_press_synchronized
    &&& c.press_urgency == a.press_urgency || c.press_urgency == b.press_urgency
    &&& c.pass_willingness_under_pressure == a.pass_willingness_under_pressure
        || c.pass_willingness_under_pressure == b.pass_willingness_under_pressure
    &&& c.use_scoop_pass == a.use_scoop_pass || c.use_scoop_pass == b.use_scoop_pass
    &&& c.gk_line_height == a.gk_line_height || c.gk_line_height == b.gk_line_height
    &&& c.gk_commit_aggression == a.gk_commit_aggression || c.gk_commit_aggression
        == b.gk_commit_aggression
    &&& c.defender_engagement == a.defender_engagement || c.defender_engagement
        == b.defender_engagement
    &&& c.defender_on_ball_opponent_distance == a.defender_on_ball_opponent_distance
        || c.defender_on_ball_opponent_distance == b.defender_on_ball_opponent_distance
    &&& c.defender_on_ball_pass_urgency == a.defender_on_ball_pass_urgency
        || c.defender_on_ball_pass_urgency == b.defender_on_ball_pass_urgency
    &&& c.anchors.len() == a.anchors.len()
    &&& forall|i: int|
        0 <= i < c.anchors.len() ==> #[trigger] c.anchors[i] == a.anchors[i] || c.anchors[i]
            == b.anchors[i]
}

/// Every gene of a hybrid of parents that sanitizing leaves as they are comes from one of them,
/// and sanitizing keeps it. The one exception: where every weight that was inherited is zero, the
/// weights become equal.
pub proof fn hybrids_inherit_every_gene<P: Fn(Real64, Real64) -> Real64>(
    a: GenomeView,
    b: GenomeView,
    s: u64,
    plus: P,
)
    requires
        a.sanitized(plus) == a,
        b.sanitized(plus) == b,
        a.pass_distance_priority.len() == 5,
        b.pass_distance_priority.len() == 5,
    ensures
        ({
            let raw = raw_hybrid(a, b, s);
            let c = raw.sanitized(plus);
            let weights = raw.pass_distance_priority;
            &&& descends(c, a, b)
            &&& c.anchors.len() == 11
            &&& weights.len() == 5
            &&& forall|i: int|
                0 <= i < 5 ==> #[trigger] weights[i] == a.pass_distance_priority[i] || weights[i]
                    == b.pass_distance_priority[i]
            &&& c.pass_distance_priority == if forall|i: int|
                0 <= i < 5 ==> (#[trigger] weights[i]).key() <= 0 {
                equal_weights()
            } else {
                weights
            }
        }),
{
    reveal(within);
    sanitized_genomes_are_sane(a, plus);
    sanitized_genomes_are_sane(b, plus);
    anchors_are_inherited(a.anchors, b.anchors, s, a.anchors.len() as int);
    let raw = raw_hybrid(a, b, s);
    let c = raw.sanitized(plus);
    let weights = raw.pass_distance_priority;
    let mins = DEF_LINE_MIN_DISTANCE_CHOICES_YARDS@;
    let maxs = DEF_LINE_MAX_DISTANCE_CHOICES_YARDS@;
    let i = choose|i: int| 0 <= i < mins.len() && mins[i] == raw.def_line_min_dist_from_ball.bits;
    let j = choose|j: int| 0 <= j < maxs.len() && maxs[j] == raw.def_line_max_dist_from_ball.bits;
    assert(mins[0] == D1 && mins[1] == D2 && mins[2] == D3);
    assert(maxs[0] == D20 && maxs[1] == D23 && maxs[2] == D25 && maxs[3] == D27 && maxs[4] == D29);
    standoffs_are_kept(a, plus);
    standoffs_are_kept(b, plus);
    assert(c.def_line_min_dist_from_ball == raw.def_line_min_dist_from_ball);
    assert(c.def_line_max_dist_from_ball == raw.def_line_max_dist_from_ball);
    assert forall|i: int| 0 <= i < raw.anchors.len() implies on_pitch(#[trigger] raw.anchors[i])
        == raw.anchors[i] by {
        assert(a.anchors[i].lane < PITCH_GENOME_LANES);
        assert(b.anchors[i].lane < PITCH_GENOME_LANES);
    }
    assert(c.anchors =~= raw.anchors);
    let w = Seq::new(weights.len(), |i: int| fitted(weights[i], D1, D0, D1));
    assert forall|i: int| 0 <= i < 5 implies #[trigger] w[i] == weights[i] by {
        assert(within(a.pass_distance_priority[i], D0, D1));
        assert(within(b.pass_distance_priority[i], D0, D1));
    }
    assert(w =~= weights);
}

/// The standoffs of a genome that sanitizing leaves as it is are the nearest choices to
/// themselves.
proof fn standoffs_are_kept<P: Fn(Real64, Real64) -> Real64>(g: GenomeView, plus: P)
    requires
        g.sanitized(plus) == g,
    ensures
        choice_near(
            plus,
            g.def_line_min_dist_from_ball,
            DEF_LINE_MIN_DISTANCE_CHOICES_YARDS@,
            num(D2),
        ) == g.def_line_min_dist_from_ball,
        choice_near(
            plus,
            g.def_line_max_dist_from_ball,
            DEF_LINE_MAX_DISTANCE_CHOICES_YARDS@,
            num(D25),
        ) == g.def_line_max_dist_from_ball,
{
    let mins = DEF_LINE_MIN_DISTANCE_CHOICES_YARDS@;
    let maxs = DEF_LINE_MAX_DISTANCE_CHOICES_YARDS@;
    assert(mins[0] == D1 && mins[1] == D2 && mins[2] == D3);
    assert(maxs[0] == D20 && maxs[1] == D23 && maxs[2] == D25 && maxs[3] == D27 && maxs[4] == D29);
    nearest_is_a_choice(plus, finite_or(g.def_line_min_dist_from_ball, num(D2)), mins, 3);
    nearest_is_a_choice(plus, finite_or(g.def_line_max_dist_from_ball, num(D25)), maxs, 5);
    let low = choice_near(plus, g.def_line_min_dist_from_ball, mins, num(D2));
    let high = choice_near(plus, g.def_line_max_dist_from_ball, maxs, num(D25));
    assert(low.bits == D1 || low.bits == D2 || low.bits == D3) by {
        let i = choose|i: int| 0 <= i < mins.len() && mins[i] == low.bits;
        assert(i == 0 || i == 1 || i == 2);
    }
    assert(high.bits == D20 || high.bits == D23 || high.bits == D25 || high.bits == D27 || high.bits
        == D29) by {
        let i = choose|i: int| 0 <= i < maxs.len() && maxs[i] == high.bits;
        assert(i == 0 || i == 1 || i == 2 || i == 3 || i == 4);
    }
    assert(greater(high, low) == high);
}

/// Sane parents are left as they are, so their hybrids inherit every gene, as long as the choices
/// can be told apart.
pub proof fn sane_parents_pass_their_genes_on<P: Fn(Real64, Real64) -> Real64>(
    a: GenomeView,
    b: GenomeView,
    s: u64,
    plus: P,
)
    requires
        a.is_sane(),
        b.is_sane(),
        tells_apart(plus, DEF_LINE_MIN_DISTANCE_CHOICES_YARDS@),
        tells_apart(plus, DEF_LINE_MAX_DISTANCE_CHOICES_YARDS@),
    ensures
        descends(raw_hybrid(a, b, s).sanitized(plus), a, b),
{
    sane_genomes_stay(a, plus);
    sane_genomes_stay(b, plus);
    hybrids_inherit_every_gene(a, b, s, plus);
}

proof fn anchors_are_inherited(
    a: Seq<PositionAnchor>,
    b: Seq<PositionAnchor>,
    s: u64,
    n: int,
)
    requires
        0 <= n <= a.len(),
    ensures
        inherited_anchors(a, b, s, n).len() == n,
        forall|i: int|
            0 <= i < n ==> #[trigger] inherited_anchors(a, b, s, n)[i] == a[i] || (i < b.len()
                && inherited_anchors(a, b, s, n)[i] == b[i]),
    decreases n,
{
    if n > 0 {
        anchors_are_inherited(a, b, s, n - 1);
        let rest = inherited_anchors(a, b, s, n - 1);
        assert forall|i: int| 0 <= i < n implies #[trigger] inherited_anchors(a, b, s, n)[i]
            == a[i] || (i < b.len() && inherited_anchors(a, b, s, n)[i] == b[i]) by {
            if i < n - 1 {
                assert(inherited_anchors(a, b, s, n)[i] == rest[i]);
            }
        }
    }
}

/// Whether the draw falls below the rate.
pub open spec fn happens<B: Fn(u64) -> Real64>(
    share: B,
    rate: Real64,
    draw: u64,
) -> bool {
    share_of(share, draw >> 11u64).less(rate)
}

fn chance<B: Fn(u64) -> Real64>(
    rng: &mut GenomeRng,
    share: &B,
    rate: Real64,
) -> (r: bool)
    requires
        is_share(*share),
    ensures
        final(rng).state == advanced(old(rng).state),
        r == happens(*share, rate, mixed(final(rng).state)),
{
    draw_share(rng, share).is_below(rate)
}

/// A number that drifts within two bounds at the rate, and the state after the draws.
pub open spec fn drifted<
    B: Fn(u64) -> Real64,
    P: Fn(Real64, Real64) -> Real64,
    M: Fn(Real64, Real64) -> Real64,
>(
    share: B,
    plus: P,
    times: M,
    value: Real64,
    rate: Real64,
    low: u64,
    high: u64,
    s: u64,
) -> (Real64, u64) {
    let s1 = advanced(s);
    let s2 = advanced(s1);
    if happens(share, rate, mixed(s1)) {
        (outcome(plus, value, spread(share, plus, times, low, high, mixed(s2))), s2)
    } else {
        (value, s1)
    }
}

fn drift<
    B: Fn(u64) -> Real64,
    P: Fn(Real64, Real64) -> Real64,
    M: Fn(Real64, Real64) -> Real64,
>(
    rng: &mut GenomeRng,
    share: &B,
    plus: &P,
    times: &M,
    value: Real64,
    rate: Real64,
    low: u64,
    high: u64,
) -> (r: Real64)
    requires
        is_share(*share),
        is_operation(*plus),
        is_operation(*times),
    ensures
        (r, final(rng).state) == drifted(
            *share,
            *plus,
            *times,
            value,
            rate,
            low,
            high,
            old(rng).state,
        ),
{
    if chance(rng, share, rate) {
        let step: Real64 = range(rng, share, plus, times, low, high);
        apply(plus, value, step)
    } else {
        value
    }
}

/// A choice redrawn at the rate, and the state after the draws.
pub open spec fn redrawn<B: Fn(u64) -> Real64>(
    share: B,
    value: Real64,
    rate: Real64,
    choices: Seq<u64>,
    s: u64,
) -> (Real64, u64) {
    let s1 = advanced(s);
    let s2 = advanced(s1);
    if happens(share, rate, mixed(s1)) {
        (num(choices[mixed(s2) as int % choices.len() as int]), s2)
    } else {
        (value, s1)
    }
}

/// A flag turned at the rate, and the state after the draw.
pub open spec fn flipped<B: Fn(u64) -> Real64>(
    share: B,
    value: bool,
    rate: Real64,
    s: u64,
) -> (bool, u64) {
    let s1 = advanced(s);
    (value != happens(share, rate, mixed(s1)), s1)
}

/// One anchor moved at the rate, lane and row each for itself, and the state after the draws.
pub open spec fn nudged<B: Fn(u64) -> Real64>(
    share: B,
    a: PositionAnchor,
    rate: Real64,
    s: u64,
) -> (PositionAnchor, u64) {
    let s1 = advanced(s);
    let (lane, t) = if happens(share, rate, mixed(s1)) {
        (jittered(a.lane, 1, mixed(advanced(s1))), advanced(s1))
    } else {
        (a.lane, s1)
    };
    let t1 = advanced(t);
    let (row, u) = if happens(share, rate, mixed(t1)) {
        (jittered(a.row, 2, mixed(advanced(t1))), advanced(t1))
    } else {
        (a.row, t1)
    };
    (PositionAnchor { role: a.role, lane, row }, u)
}

/// The first `n` anchors moved at the rate, and the state after the draws.
pub open spec fn nudged_anchors<B: Fn(u64) -> Real64>(
    share: B,
    anchors: Seq<PositionAnchor>,
    rate: Real64,
    s: u64,
    n: int,
) -> (Seq<PositionAnchor>, u64)
    decreases n,
{
    if n <= 0 {
        (Seq::empty(), s)
    } else {
        let (before, t) = nudged_anchors(share, anchors, rate, s, n - 1);
        let (a, u) = nudged(share, anchors[n - 1], rate, t);
        (before.push(a), u)
    }
}

/// The genome after a mutation at the rate, before it is sanitized, and the state after the
/// draws.
pub open spec fn raw_mutant<
    B: Fn(u64) -> Real64,
    P: Fn(Real64, Real64) -> Real64,
    M: Fn(Real64, Real64) -> Real64,
>(share: B, plus: P, times: M, g: GenomeView, rate: Real64, s: u64) -> (GenomeView, u64) {
    let s1 = advanced(s);
    let (formation, base, s) = if happens(share, rate, mixed(s1)) {
        let s2 = advanced(s1);
        let f = if is_heads(mixed(s2)) {
            TeamFormation::F433
        } else {
            TeamFormation::F442
        };
        (f, anchors_of(f), s2)
    } else {
        (g.formation, g.anchors, s1)
    };
    let (anchors, s) = nudged_anchors(share, base, rate, s, base.len() as int);
    let (low, s) = redrawn(
        share,
        g.def_line_min_dist_from_ball,
        rate,
        DEF_LINE_MIN_DISTANCE_CHOICES_YARDS@,
        s,
    );
    let (high, s) = redrawn(
        share,
        g.def_line_max_dist_from_ball,
        rate,
        DEF_LINE_MAX_DISTANCE_CHOICES_YARDS@,
        s,
    );
    let (own, s) = drifted(share, plus, times, g.mid_gap_from_back4_own_half, rate, DM2, D2, s);
    let (opp, s) = drifted(share, plus, times, g.mid_gap_from_back4_opp_half, rate, DM2, D2, s);
    let (urgency, s) = drifted(share, plus, times, g.press_urgency, rate, DM0_15, D0_15, s);
    let (willing, s) = drifted(
        share,
        plus,
        times,
        g.pass_willingness_under_pressure,
        rate,
        DM0_15,
        D0_15,
        s,
    );
    let (w0, s) = drifted(share, plus, times, g.pass_distance_priority[0], rate, DM0_2, D0_2, s);
    let (w1, s) = drifted(share, plus, times, g.pass_distance_priority[1], rate, DM0_2, D0_2, s);
    let (w2, s) = drifted(share, plus, times, g.pass_distance_priority[2], rate, DM0_2, D0_2, s);
    let (w3, s) = drifted(share, plus, times, g.pass_distance_priority[3], rate, DM0_2, D0_2, s);
    let (w4, s) = drifted(share, plus, times, g.pass_distance_priority[4], rate, DM0_2, D0_2, s);
    let (distance, s) = drifted(
        share,
        plus,
        times,
        g.defender_on_ball_opponent_distance,
        rate,
        DM1_5,
        D1_5,
        s,
    );
    let (release, s) = drifted(
        share,
        plus,
        times,
        g.defender_on_ball_pass_urgency,
        rate,
        DM0_15,
        D0_15,
        s,
    );
    let (together, s) = flipped(share, g.striker_press_synchronized, rate, s);
    let (scoop, s) = flipped(share, g.use_scoop_pass, rate, s);
    let (line, s) = drifted(share, plus, times, g.gk_line_height, rate, DM0_15, D0_15, s);
    let (commit, s) = drifted(share, plus, times, g.gk_commit_aggression, rate, DM0_15, D0_15, s);
    let s9 = advanced(s);
    let engagement = if happens(share, rate, mixed(s9)) {
        match g.defender_engagement {
            DefenderEngagement::Contain => DefenderEngagement::Press,
            DefenderEngagement::Press => DefenderEngagement::Contain,
        }
    } else {
        g.defender_engagement
    };
    (
        GenomeView {
            formation,
            anchors,
            def_line_min_dist_from_ball: low,
            def_line_max_dist_from_ball: high,
            mid_gap_from_back4_own_half: own,
            mid_gap_from_back4_opp_half: opp,
            striker_press_synchronized: together,
            press_urgency: urgency,
            pass_willingness_under_pressure: willing,
            pass_distance_priority: seq![w0, w1, w2, w3, w4],
            use_scoop_pass: scoop,
            gk_line_height: line,
            gk_commit_aggression: commit,
            defender_engagement: engagement,
            defender_on_ball_opponent_distance: distance,
            defender_on_ball_pass_urgency: release,
        },
        s9,
    )
}

fn redraw<B: Fn(u64) -> Real64>(
    rng: &mut GenomeRng,
    share: &B,
    value: Real64,
    rate: Real64,
    choices: &[u64],
) -> (r: Real64)
    requires
        is_share(*share),
        choices@.len() > 0,
    ensures
        (r, final(rng).state) == redrawn(*share, value, rate, choices@, old(rng).state),
{
    if chance(rng, share, rate) {
        let i: usize = rng.index(choices.len());
        at_bits(choices[i])
    } else {
        value
    }
}

fn flip<B: Fn(u64) -> Real64>(
    rng: &mut GenomeRng,
    share: &B,
    value: bool,
    rate: Real64,
) -> (r: bool)
    requires
        is_share(*share),
    ensures
        (r, final(rng).state) == flipped(*share, value, rate, old(rng).state),
{
    let turn: bool = chance(rng, share, rate);
    value != turn
}

fn nudge<B: Fn(u64) -> Real64>(
    rng: &mut GenomeRng,
    share: &B,
    a: PositionAnchor,
    rate: Real64,
) -> (r: PositionAnchor)
    requires
        is_share(*share),
    ensures
        (r, final(rng).state) == nudged(*share, a, rate, old(rng).state),
{
    let lane: u8 = if chance(rng, share, rate) { jitter_u8(a.lane, 1, rng) } else { a.lane };
    let row: u8 = if chance(rng, share, rate) { jitter_u8(a.row, 2, rng) } else { a.row };
    PositionAnchor { role: a.role, lane, row }
}

impl SoccerTeamGenome {
    /// Lets the genes drift at a rate.
    pub fn mutate<
        B: Fn(u64) -> Real64,
        P: Fn(Real64, Real64) -> Real64,
        M: Fn(Real64, Real64) -> Real64,
    >(&mut self, rng: &mut GenomeRng, rate: Real64, share: &B, plus: &P, times: &M)
        requires
            is_share(*share),
            is_operation(*plus),
            is_operation(*times),
        ensures
            final(self)@ == raw_mutant(
                *share,
                *plus,
                *times,
                old(self)@,
                rate,
                old(rng).state,
            ).0.sanitized(*plus),
            final(rng).state == raw_mutant(
                *share,
                *plus,
                *times,
                old(self)@,
                rate,
                old(rng).state,
            ).1,
    {
        let ghost g = self@;
        let ghost s = rng.state;
        if chance(rng, share, rate) {
            self.formation = if rng.coin() { TeamFormation::F433 } else { TeamFormation::F442 };
            self.anchors = formation_anchors(self.formation);
        }
        let ghost base = self.anchors@;
        let ghost s0 = rng.state;
        let mut anchors: Vec<PositionAnchor> = Vec::new();
        let mut i: usize = 0;
        while i < self.anchors.len()
            invariant
                i <= self.anchors@.len(),
                self.anchors@ == base,
                is_share(*share),
                (anchors@, rng.state) == nudged_anchors(*share, base, rate, s0, i as int),
            decreases self.anchors@.len() - i,
        {
            let a: PositionAnchor = nudge(rng, share, self.anchors[i], rate);
            anchors.push(a);
            i += 1;
        }
        self.anchors = anchors;
        self.def_line_min_dist_from_ball = redraw(
            rng,
            share,
            self.def_line_min_dist_from_ball,
            rate,
            array_as_slice(&DEF_LINE_MIN_DISTANCE_CHOICES_YARDS),
        );
        self.def_line_max_dist_from_ball = redraw(
            rng,
            share,
            self.def_line_max_dist_from_ball,
            rate,
            array_as_slice(&DEF_LINE_MAX_DISTANCE_CHOICES_YARDS),
        );
        self.mid_gap_from_back4_own_half = drift(
            rng,
            share,
            plus,
            times,
            self.mid_gap_from_back4_own_half,
            rate,
            DM2,
            D2,
        );
        self.mid_gap_from_back4_opp_half = drift(
            rng,
            share,
            plus,
            times,
            self.mid_gap_from_back4_opp_half,
            rate,
            DM2,
            D2,
        );
        self.press_urgency = drift(
            rng,
            share,
            plus,
            times,
            self.press_urgency,
            rate,
            DM0_15,
            D0_15,
        );
        self.pass_willingness_under_pressure = drift(
            rng,
            share,
            plus,
            times,
            self.pass_willingness_under_pressure,
            rate,
            DM0_15,
            D0_15,
        );
        let w: [Real64; 5] = self.pass_distance_priority;
        let w0: Real64 = drift(rng, share, plus, times, w[0], rate, DM0_2, D0_2);
        let w1: Real64 = drift(rng, share, plus, times, w[1], rate, DM0_2, D0_2);
        let w2: Real64 = drift(rng, share, plus, times, w[2], rate, DM0_2, D0_2);
        let w3: Real64 = drift(rng, share, plus, times, w[3], rate, DM0_2, D0_2);
        let w4: Real64 = drift(rng, share, plus, times, w[4], rate, DM0_2, D0_2);
        self.pass_distance_priority = [w0, w1, w2, w3, w4];
        assert(self.pass_distance_priority@ =~= seq![w0, w1, w2, w3, w4]);
        self.defender_on_ball_opponent_distance = drift(
            rng,
            share,
            plus,
            times,
            self.defender_on_ball_opponent_distance,
            rate,
            DM1_5,
            D1_5,
        );
        self.defender_on_ball_pass_urgency = drift(
            rng,
            share,
            plus,
            times,
            self.defender_on_ball_pass_urgency,
            rate,
            DM0_15,
            D0_15,
        );
        self.striker_press_synchronized = flip(
            rng,
            share,
            self.striker_press_synchronized,
            rate,
        );
        self.use_scoop_pass = flip(rng, share, self.use_scoop_pass, rate);
        self.gk_line_height = drift(
            rng,
            share,
            plus,
            times,
            self.gk_line_height,
            rate,
            DM0_15,
            D0_15,
        );
        self.gk_commit_aggression = drift(
            rng,
            share,
            plus,
            times,
            self.gk_commit_aggression,
            rate,
            DM0_15,
            D0_15,
        );
        if chance(rng, share, rate) {
            self.defender_engagement = match self.defender_engagement {
                DefenderEngagement::Contain => DefenderEngagement::Press,
                DefenderEngagement::Press => DefenderEngagement::Contain,
            };
        }
        assert((self@, rng.state) == raw_mutant(*share, *plus, *times, g, rate, s));
        self.sanitize(plus);
    }
}

/// How far two numbers are apart.
pub proof fn distances_are_sizes<
    P: Fn(Real64, Real64) -> Real64,
>(
    means: spec_fn(Real64, real) -> bool,
    plus: P,
    a: Real64,
    b: Real64,
    x: real,
    y: real,
)
    requires
        reads_sums(means, plus),
        reads_signs(means),
        reads_order(means),
        reads_decimals(means),
        means(a, x),
        means(b, y),
    ensures
        means(apart(plus, a, b), size(x - y)),
{
    decimals_are_read(means);
    assert(x + -y == x - y);
}

/// No choice is nearer to a value than the nearest, and it is one of the choices.
pub proof fn no_choice_is_nearer<P: Fn(Real64, Real64) -> Real64>(
    plus: P,
    value: Real64,
    choices: Seq<u64>,
    n: int,
    i: int,
)
    requires
        0 <= i < n <= choices.len(),
        forall|j: int|
            0 <= j < choices.len() ==> !(#[trigger] apart(plus, value, num(choices[j]))).nan(),
    ensures
        apart(plus, value, nearest(plus, value, choices, n)).key() <= apart(
            plus,
            value,
            num(choices[i]),
        ).key(),
        exists|j: int|
            0 <= j < n && nearest(plus, value, choices, n) == num(#[trigger] choices[j]),
    decreases n,
{
    assert(!apart(plus, value, num(choices[i])).nan());
    assert(!apart(plus, value, num(choices[n - 1])).nan());
    if n > 1 {
        no_choice_is_nearer(plus, value, choices, n - 1, if i < n - 1 { i } else { 0 });
        let j = choose|j: int|
            0 <= j < n - 1 && nearest(plus, value, choices, n - 1) == num(#[trigger] choices[j]);
        assert(!apart(plus, value, num(choices[j])).nan());
        assert(nearest(plus, value, choices, n) == num(choices[j]) || nearest(
            plus,
            value,
            choices,
            n,
        ) == num(choices[n - 1]));
    } else {
        assert(nearest(plus, value, choices, n) == num(choices[0]));
    }
}

/// A drawn number lies as far between its ends as the draw says, and a drift adds such a number
/// where the first draw falls below the rate.
pub proof fn draws_are_spread_over_the_range<
    B: Fn(u64) -> Real64,
    P: Fn(Real64, Real64) -> Real64,
    M: Fn(Real64, Real64) -> Real64,
>(
    means: spec_fn(Real64, real) -> bool,
    plus: P,
    times: M,
    share: B,
    low: u64,
    high: u64,
    draw: u64,
    lo: real,
    hi: real,
    u: real,
)
    requires
        is_faithful(means, plus, times),
        means(num(low), lo),
        means(num(high), hi),
        means(share_of(share, draw >> 11u64), u),
    ensures
        means(spread(share, plus, times, low, high, draw), lo + (hi - lo) * u),
{
    decimals_are_read(means);
    assert(hi + -lo == hi - lo);
}

/// A gene drifts by a number between the ends where the first draw falls below the rate, and stays
/// otherwise.
pub proof fn genes_drift_by_a_draw<
    B: Fn(u64) -> Real64,
    P: Fn(Real64, Real64) -> Real64,
    M: Fn(Real64, Real64) -> Real64,
>(
    means: spec_fn(Real64, real) -> bool,
    plus: P,
    times: M,
    share: B,
    value: Real64,
    rate: Real64,
    low: u64,
    high: u64,
    s: u64,
    v: real,
    lo: real,
    hi: real,
    u: real,
)
    requires
        is_faithful(means, plus, times),
        means(value, v),
        means(num(low), lo),
        means(num(high), hi),
        means(share_of(share, mixed(advanced(advanced(s))) >> 11u64), u),
    ensures
        share_of(share, mixed(advanced(s)) >> 11u64).less(rate) ==> means(
            drifted(share, plus, times, value, rate, low, high, s).0,
            v + (lo + (hi - lo) * u),
        ),
        !share_of(share, mixed(advanced(s)) >> 11u64).less(rate)
            ==> drifted(share, plus, times, value, rate, low, high, s).0 == value,
{
    decimals_are_read(means);
    draws_are_spread_over_the_range(
        means,
        plus,
        times,
        share,
        low,
        high,
        mixed(advanced(advanced(s))),
        lo,
        hi,
        u,
    );
}

/// Higher rates make more happen: what happens at a rate happens at every higher one, and nothing
/// does at a rate that no draw is below.
pub proof fn higher_rates_make_more_happen<B: Fn(u64) -> Real64>(
    share: B,
    rate: Real64,
    higher: Real64,
    draw: u64,
)
    requires
        !rate.nan(),
        !higher.nan(),
        rate.key() <= higher.key(),
    ensures
        happens(share, rate, draw) ==> happens(share, higher, draw),
        happens(share, rate, draw) ==> !happens(share, share_of(share, draw >> 11u64), draw),
        happens(share, rate, draw) ==> share_of(share, draw >> 11u64).key() < rate.key(),
{
}

/// A jitter stays within its span, and the draws reach every place in it, from the lowest upwards.
pub proof fn jitter_stays_within_its_span(value: u8, span: u8, draw: u64)
    requires
        span <= value,
        value + span <= u8::MAX,
    ensures
        value - span <= jittered(value, span, draw) <= value + span,
        draw <= 2 * span ==> jittered(value, span, draw) == value - span + draw,
{
    if draw <= 2 * span {
        vstd::arithmetic::div_mod::lemma_small_mod(draw as nat, (2 * span + 1) as nat);
    }
}

} // verus!
