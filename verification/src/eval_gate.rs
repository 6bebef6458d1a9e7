//! Promotion: whether a candidate replaces the incumbent.
use crate::confidence::{
    draw_aware_bound, draw_aware_lower_bound, wilson_bound, wilson_lower_bound,
};
use crate::decimals::{D0, D0_35, D0_5, D1_96, D24};
use crate::elo::{
    all_recorded, field_of, half_points, mean_of_field, payoff_in, rating_in, step_size, swept,
    worst_of, CrossPlayMatrix, EloRatings, MatchReport,
};
use crate::meaning::{
    decimals_are_read, is_faithful, reads_counts, reads_decimals, reads_order, reads_quotients,
    reads_signs, reads_sums,
};
use crate::number::{
    apply, at_bits, is_conversion, is_function, is_operation, num, number_of, outcome, to_number,
    Real64,
};
use crate::reals::{cancel, quotient};
use crate::text::{decimal, decimal_text};
use vstd::prelude::*;
use vstd::string::*;

verus! {

/// The least number of games to decide on.
pub const PROMOTION_MIN_GAMES: u32 = 8;

/// The candidate's record against the whole field.
#[derive(Clone, Copy, Debug, PartialEq, Eq, Structural)]
pub struct CandidateRecord {
    pub wins: u32,
    pub draws: u32,
    pub losses: u32,
    pub goals_for: u32,
    pub goals_against: u32,
}

impl Default for CandidateRecord {
    fn default() -> (r: Self)
        ensures
            r == (CandidateRecord {
                wins: 0,
                draws: 0,
                losses: 0,
                goals_for: 0,
                goals_against: 0,
            }),
    {
        CandidateRecord { wins: 0, draws: 0, losses: 0, goals_for: 0, goals_against: 0 }
    }
}

/// A count of 32 bits read as a signed one: counts from the middle on wrap around.
pub open spec fn signed_count(n: u32) -> int {
    if n <= i32::MAX {
        n as int
    } else {
        n - 0x1_0000_0000
    }
}

fn to_signed_count(n: u32) -> (r: i32)
    ensures
        r == signed_count(n),
{
    if n <= 0x7fff_ffff {
        n as i32
    } else {
        let above: u32 = n - 0x8000_0000;
        above as i32 + i32::MIN
    }
}

impl CandidateRecord {
    pub fn games(&self) -> (n: u32)
        requires
            self.wins + self.draws + self.losses <= u32::MAX,
        ensures
            n == self.wins + self.draws + self.losses,
    {
        self.wins + self.draws + self.losses
    }

    /// Twice the sum of the scores, where a win counts one and a draw a half.
    pub fn half_points(&self) -> (n: u64)
        ensures
            n == 2 * self.wins + self.draws,
    {
        2 * (self.wins as u64) + self.draws as u64
    }

    /// The goals scored less those conceded, each read as a signed count.
    pub fn goal_difference(&self) -> (n: i32)
        requires
            i32::MIN <= signed_count(self.goals_for) - signed_count(self.goals_against) <= i32::MAX,
        ensures
            n == signed_count(self.goals_for) - signed_count(self.goals_against),
    {
        to_signed_count(self.goals_for) - to_signed_count(self.goals_against)
    }
}

/// The candidate's goals in a fixture, those of the opponent, and the score in half points;
/// nothing where the candidate did not play.
pub open spec fn seen_by(r: MatchReport, candidate: int) -> Option<(int, int, int)> {
    let shootout = match r.shootout_winner {
        Some(w) => Some(w == candidate),
        None => None,
    };
    if r.home_id == candidate {
        Some(
            (
                r.home_goals as int,
                r.away_goals as int,
                half_points(r.home_goals as int, r.away_goals as int, shootout),
            ),
        )
    } else if r.away_id == candidate {
        Some(
            (
                r.away_goals as int,
                r.home_goals as int,
                half_points(r.away_goals as int, r.home_goals as int, shootout),
            ),
        )
    } else {
        None
    }
}

/// How many of the first `n` fixtures the candidate ended with a score.
pub open spec fn count_scores(reports: Seq<MatchReport>, candidate: int, score: int, n: int) -> int
    decreases n,
{
    if n <= 0 {
        0
    } else {
        count_scores(reports, candidate, score, n - 1) + match seen_by(
            reports[n - 1],
            candidate,
        ) {
            Some(seen) => if seen.2 == score {
                1int
            } else {
                0
            },
            None => 0,
        }
    }
}

/// The candidate's goals over the first `n` fixtures.
pub open spec fn goals_scored(reports: Seq<MatchReport>, candidate: int, n: int) -> int
    decreases n,
{
    if n <= 0 {
        0
    } else {
        goals_scored(reports, candidate, n - 1) + match seen_by(reports[n - 1], candidate) {
            Some(seen) => seen.0,
            None => 0,
        }
    }
}

/// The goals against the candidate over the first `n` fixtures.
pub open spec fn goals_conceded(reports: Seq<MatchReport>, candidate: int, n: int) -> int
    decreases n,
{
    if n <= 0 {
        0
    } else {
        goals_conceded(reports, candidate, n - 1) + match seen_by(reports[n - 1], candidate) {
            Some(seen) => seen.1,
            None => 0,
        }
    }
}

proof fn goals_grow(reports: Seq<MatchReport>, candidate: int, m: int, n: int)
    requires
        0 <= m <= n <= reports.len(),
    ensures
        0 <= goals_scored(reports, candidate, m) <= goals_scored(reports, candidate, n),
        0 <= goals_conceded(reports, candidate, m) <= goals_conceded(reports, candidate, n),
    decreases n,
{
    if n > 0 {
        if m < n {
            goals_grow(reports, candidate, m, n - 1);
        } else {
            goals_grow(reports, candidate, n - 1, n - 1);
        }
    }
}

/// The record is the candidate's over a list of fixtures.
pub open spec fn is_record(
    reports: Seq<MatchReport>,
    candidate: int,
    record: CandidateRecord,
) -> bool {
    let n = reports.len() as int;
    &&& record.wins == count_scores(reports, candidate, 2, n)
    &&& record.draws == count_scores(reports, candidate, 1, n)
    &&& record.losses == count_scores(reports, candidate, 0, n)
    &&& record.goals_for == goals_scored(reports, candidate, n)
    &&& record.goals_against == goals_conceded(reports, candidate, n)
    &&& record.wins + record.draws + record.losses <= reports.len()
}

/// Counts the candidate's record, at home and away.
pub fn candidate_record(reports: &Vec<MatchReport>, candidate_id: usize) -> (record:
    CandidateRecord)
    requires
        reports@.len() <= u32::MAX,
        goals_scored(reports@, candidate_id as int, reports@.len() as int) <= u32::MAX,
        goals_conceded(reports@, candidate_id as int, reports@.len() as int) <= u32::MAX,
    ensures
        is_record(reports@, candidate_id as int, record),
{
    let mut record: CandidateRecord = CandidateRecord::default();
    let mut i: usize = 0;
    while i < reports.len()
        invariant
            i <= reports@.len(),
            reports@.len() <= u32::MAX,
            goals_scored(reports@, candidate_id as int, reports@.len() as int) <= u32::MAX,
            goals_conceded(reports@, candidate_id as int, reports@.len() as int) <= u32::MAX,
            record.wins == count_scores(reports@, candidate_id as int, 2, i as int),
            record.draws == count_scores(reports@, candidate_id as int, 1, i as int),
            record.losses == count_scores(reports@, candidate_id as int, 0, i as int),
            record.goals_for == goals_scored(reports@, candidate_id as int, i as int),
            record.goals_against == goals_conceded(reports@, candidate_id as int, i as int),
            record.wins + record.draws + record.losses <= i,
        decreases reports@.len() - i,
    {
        let r: MatchReport = reports[i];
        proof {
            goals_grow(reports@, candidate_id as int, i + 1, reports@.len() as int);
        }
        if r.home_id == candidate_id || r.away_id == candidate_id {
            let (scored, conceded): (u32, u32) = if r.home_id == candidate_id {
                (r.home_goals, r.away_goals)
            } else {
                (r.away_goals, r.home_goals)
            };
            record.goals_for = record.goals_for + scored;
            record.goals_against = record.goals_against + conceded;
            if scored > conceded {
                record.wins = record.wins + 1;
            } else if scored < conceded {
                record.losses = record.losses + 1;
            } else {
                match r.shootout_winner {
                    Some(w) => {
                        if w == candidate_id {
                            record.wins = record.wins + 1;
                        } else {
                            record.losses = record.losses + 1;
                        }
                    },
                    None => {
                        record.draws = record.draws + 1;
                    },
                }
            }
        }
        i += 1;
    }
    record
}

/// What a list of fixtures adds up to, fixture by fixture.
pub open spec fn adds_up_to(weight: spec_fn(MatchReport) -> int, reports: Seq<MatchReport>) -> int
    decreases reports.len(),
{
    if reports.len() == 0 {
        0
    } else {
        adds_up_to(weight, reports.drop_last()) + weight(reports.last())
    }
}

/// The candidate played in the fixture.
pub open spec fn played(r: MatchReport, candidate: int) -> bool {
    r.home_id == candidate || r.away_id == candidate
}

/// The candidate drew the fixture: a level score that no shootout decided.
pub open spec fn drew(r: MatchReport, candidate: int) -> bool {
    played(r, candidate) && r.home_goals == r.away_goals && r.shootout_winner is None
}

spec fn ended_with(candidate: int, score: int) -> spec_fn(MatchReport) -> int {
    |r: MatchReport|
        match seen_by(r, candidate) {
            Some(seen) => if seen.2 == score {
                1int
            } else {
                0
            },
            None => 0,
        }
}

spec fn scored_in(candidate: int) -> spec_fn(MatchReport) -> int {
    |r: MatchReport|
        match seen_by(r, candidate) {
            Some(seen) => seen.0,
            None => 0,
        }
}

spec fn conceded_in(candidate: int) -> spec_fn(MatchReport) -> int {
    |r: MatchReport|
        match seen_by(r, candidate) {
            Some(seen) => seen.1,
            None => 0,
        }
}

/// The counts of the first `n` fixtures add up fixture by fixture.
proof fn counts_add_up(reports: Seq<MatchReport>, candidate: int, n: int)
    requires
        0 <= n <= reports.len(),
    ensures
        forall|score: int| #[trigger]
            count_scores(reports, candidate, score, n) == adds_up_to(
                ended_with(candidate, score),
                reports.take(n),
            ),
        goals_scored(reports, candidate, n) == adds_up_to(scored_in(candidate), reports.take(n)),
        goals_conceded(reports, candidate, n) == adds_up_to(
            conceded_in(candidate),
            reports.take(n),
        ),
    decreases n,
{
    if n > 0 {
        counts_add_up(reports, candidate, n - 1);
        assert(reports.take(n).drop_last() =~= reports.take(n - 1));
        assert(reports.take(n).last() == reports[n - 1]);
        assert forall|score: int| #[trigger]
            count_scores(reports, candidate, score, n) == adds_up_to(
                ended_with(candidate, score),
                reports.take(n),
            ) by {
            assert(count_scores(reports, candidate, score, n - 1) == adds_up_to(
                ended_with(candidate, score),
                reports.take(n - 1),
            ));
        }
    }
}

/// The sums that a record holds.
proof fn records_hold_sums(reports: Seq<MatchReport>, candidate: int)
    ensures
        ({
            let n = reports.len() as int;
            &&& forall|score: int| #[trigger]
                count_scores(reports, candidate, score, n) == adds_up_to(
                    ended_with(candidate, score),
                    reports,
                )
            &&& goals_scored(reports, candidate, n) == adds_up_to(scored_in(candidate), reports)
            &&& goals_conceded(reports, candidate, n) == adds_up_to(
                conceded_in(candidate),
                reports,
            )
        }),
{
    counts_add_up(reports, candidate, reports.len() as int);
    assert(reports.take(reports.len() as int) =~= reports);
}

proof fn sums_join(weight: spec_fn(MatchReport) -> int, a: Seq<MatchReport>, b: Seq<MatchReport>)
    ensures
        adds_up_to(weight, a + b) == adds_up_to(weight, a) + adds_up_to(weight, b),
    decreases b.len(),
{
    if b.len() > 0 {
        sums_join(weight, a, b.drop_last());
        assert((a + b).drop_last() =~= a + b.drop_last());
    } else {
        assert(a + b =~= a);
    }
}

proof fn sums_without(weight: spec_fn(MatchReport) -> int, s: Seq<MatchReport>, i: int)
    requires
        0 <= i < s.len(),
    ensures
        adds_up_to(weight, s) == adds_up_to(weight, s.remove(i)) + weight(s[i]),
    decreases s.len(),
{
    if i == s.len() - 1 {
        assert(s.remove(i) =~= s.drop_last());
    } else {
        sums_without(weight, s.drop_last(), i);
        assert(s.drop_last().remove(i) =~= s.remove(i).drop_last());
        assert(s.remove(i).last() == s.last());
    }
}

proof fn sums_forget_the_order(
    weight: spec_fn(MatchReport) -> int,
    x: Seq<MatchReport>,
    y: Seq<MatchReport>,
)
    requires
        x.to_multiset() == y.to_multiset(),
    ensures
        adds_up_to(weight, x) == adds_up_to(weight, y),
    decreases x.len(),
{
    broadcast use vstd::seq_lib::group_to_multiset_ensures;

    assert(x.to_multiset().len() == x.len());
    assert(y.to_multiset().len() == y.len());
    if x.len() > 0 {
        let r = x.last();
        assert(x.contains(r));
        assert(x.to_multiset().count(r) > 0);
        assert(y.contains(r));
        let i = choose|i: int| 0 <= i < y.len() && y[i] == r;
        let n = x.len() - 1;
        assert(x.remove(n) =~= x.drop_last());
        assert(x.drop_last().to_multiset() =~= x.to_multiset().remove(r));
        assert(y.remove(i).to_multiset() =~= y.to_multiset().remove(r));
        sums_forget_the_order(weight, x.drop_last(), y.remove(i));
        sums_without(weight, y, i);
    }
}

/// The fixtures that the candidate played in, in their order.
pub open spec fn own_fixtures(reports: Seq<MatchReport>, candidate: int) -> Seq<MatchReport>
    decreases reports.len(),
{
    if reports.len() == 0 {
        Seq::empty()
    } else {
        let rest = own_fixtures(reports.drop_last(), candidate);
        if played(reports.last(), candidate) {
            rest.push(reports.last())
        } else {
            rest
        }
    }
}

proof fn sums_skip_foreign_fixtures(
    weight: spec_fn(MatchReport) -> int,
    reports: Seq<MatchReport>,
    candidate: int,
)
    requires
        forall|r: MatchReport| !played(r, candidate) ==> #[trigger] weight(r) == 0,
    ensures
        adds_up_to(weight, own_fixtures(reports, candidate)) == adds_up_to(weight, reports),
    decreases reports.len(),
{
    if reports.len() > 0 {
        let rest = reports.drop_last();
        sums_skip_foreign_fixtures(weight, rest, candidate);
        if played(reports.last(), candidate) {
            let own = own_fixtures(reports, candidate);
            assert(own.drop_last() =~= own_fixtures(rest, candidate));
        } else {
            assert(weight(reports.last()) == 0);
        }
    }
}

/// The record of two lists joined is the sum of their records, field by field.
pub proof fn records_add_up(
    a: Seq<MatchReport>,
    b: Seq<MatchReport>,
    candidate: int,
    of_a: CandidateRecord,
    of_b: CandidateRecord,
    of_both: CandidateRecord,
)
    requires
        is_record(a, candidate, of_a),
        is_record(b, candidate, of_b),
        is_record(a + b, candidate, of_both),
    ensures
        of_both.wins == of_a.wins + of_b.wins,
        of_both.draws == of_a.draws + of_b.draws,
        of_both.losses == of_a.losses + of_b.losses,
        of_both.goals_for == of_a.goals_for + of_b.goals_for,
        of_both.goals_against == of_a.goals_against + of_b.goals_against,
{
    records_hold_sums(a, candidate);
    records_hold_sums(b, candidate);
    records_hold_sums(a + b, candidate);
    sums_join(ended_with(candidate, 2), a, b);
    sums_join(ended_with(candidate, 1), a, b);
    sums_join(ended_with(candidate, 0), a, b);
    sums_join(scored_in(candidate), a, b);
    sums_join(conceded_in(candidate), a, b);
}

/// The record does not depend on the order of the fixtures.
pub proof fn records_forget_the_order(
    x: Seq<MatchReport>,
    y: Seq<MatchReport>,
    candidate: int,
    record: CandidateRecord,
)
    requires
        x.to_multiset() == y.to_multiset(),
    ensures
        is_record(x, candidate, record) <==> is_record(y, candidate, record),
{
    broadcast use vstd::seq_lib::group_to_multiset_ensures;

    assert(x.to_multiset().len() == x.len());
    assert(y.to_multiset().len() == y.len());
    records_hold_sums(x, candidate);
    records_hold_sums(y, candidate);
    sums_forget_the_order(ended_with(candidate, 2), x, y);
    sums_forget_the_order(ended_with(candidate, 1), x, y);
    sums_forget_the_order(ended_with(candidate, 0), x, y);
    sums_forget_the_order(scored_in(candidate), x, y);
    sums_forget_the_order(conceded_in(candidate), x, y);
}

/// The games of the record are the fixtures that the candidate played in.
pub proof fn games_are_those_played(
    reports: Seq<MatchReport>,
    candidate: int,
    record: CandidateRecord,
)
    requires
        is_record(reports, candidate, record),
    ensures
        record.wins + record.draws + record.losses == own_fixtures(reports, candidate).len(),
        record.draws == adds_up_to(
            |r: MatchReport|
                if drew(r, candidate) {
                    1int
                } else {
                    0
                },
            reports,
        ),
{
    records_hold_sums(reports, candidate);
    results_are_games(reports, candidate);
}

proof fn results_are_games(reports: Seq<MatchReport>, candidate: int)
    ensures
        adds_up_to(ended_with(candidate, 2), reports) + adds_up_to(
            ended_with(candidate, 1),
            reports,
        ) + adds_up_to(ended_with(candidate, 0), reports) == own_fixtures(
            reports,
            candidate,
        ).len(),
        adds_up_to(ended_with(candidate, 1), reports) == adds_up_to(
            |r: MatchReport|
                if drew(r, candidate) {
                    1int
                } else {
                    0
                },
            reports,
        ),
    decreases reports.len(),
{
    if reports.len() > 0 {
        results_are_games(reports.drop_last(), candidate);
    }
}

/// Fixtures of others do not count: the record is that of the candidate's own fixtures.
pub proof fn foreign_fixtures_do_not_count(
    reports: Seq<MatchReport>,
    candidate: int,
    record: CandidateRecord,
)
    ensures
        is_record(reports, candidate, record) <==> is_record(
            own_fixtures(reports, candidate),
            candidate,
            record,
        ),
{
    let own = own_fixtures(reports, candidate);
    records_hold_sums(reports, candidate);
    records_hold_sums(own, candidate);
    results_are_games(reports, candidate);
    own_fixtures_are_few(reports, candidate);
    sums_skip_foreign_fixtures(ended_with(candidate, 2), reports, candidate);
    sums_skip_foreign_fixtures(ended_with(candidate, 1), reports, candidate);
    sums_skip_foreign_fixtures(ended_with(candidate, 0), reports, candidate);
    sums_skip_foreign_fixtures(scored_in(candidate), reports, candidate);
    sums_skip_foreign_fixtures(conceded_in(candidate), reports, candidate);
}

proof fn own_fixtures_are_few(reports: Seq<MatchReport>, candidate: int)
    ensures
        own_fixtures(reports, candidate).len() <= reports.len(),
    decreases reports.len(),
{
    if reports.len() > 0 {
        own_fixtures_are_few(reports.drop_last(), candidate);
    }
}

/// What a promotion asks for.
#[derive(Clone, Copy, Debug)]
pub struct PromotionThresholds {
    pub min_games: u32,
    pub wilson_floor: Real64,
    pub worst_case_floor: Real64,
    pub wilson_z: Real64,
    pub elo_k: Real64,
}

impl Default for PromotionThresholds {
    fn default() -> (r: Self)
        ensures
            r.min_games == PROMOTION_MIN_GAMES,
            r.wilson_floor == (Real64 { bits: D0_5 }),
            r.worst_case_floor == (Real64 { bits: D0_35 }),
            r.wilson_z == (Real64 { bits: D1_96 }),
            r.elo_k == (Real64 { bits: D24 }),
    {
        PromotionThresholds {
            min_games: PROMOTION_MIN_GAMES,
            wilson_floor: Real64 { bits: D0_5 },
            worst_case_floor: Real64 { bits: D0_35 },
            wilson_z: Real64 { bits: D1_96 },
            elo_k: Real64 { bits: D24 },
        }
    }
}

/// One reason of a verdict.
#[derive(Clone, Copy, Debug, PartialEq, Eq, Structural)]
pub enum PromotionReason {
    /// Too few games were played.
    TooFewGames { games: u32, min_games: u32 },
    /// The candidate has met nobody.
    NeverMet,
    /// The lower bound of the mean score is below its floor.
    NotConfident { bound: Real64, floor: Real64, games: u32 },
    /// An opponent beats the candidate too often.
    Exploitable { opponent: usize, payoff: Real64, floor: Real64 },
    /// Every check was passed.
    Promoted { bound: Real64, floor: Real64, games: u32 },
}

impl PromotionReason {
    /// The text of a reason that names no measured number; nothing for the others.
    pub open spec fn plain_text(self) -> Option<Seq<char>> {
        match self {
            PromotionReason::TooFewGames { games, min_games } => Some(
                "insufficient evidence: "@ + decimal(games as nat) + " held-out games < min "@
                    + decimal(min_games as nat),
            ),
            PromotionReason::NeverMet => Some(
                "candidate never met the field (no cross-play payoff)"@,
            ),
            _ => None,
        }
    }

    /// Writes out a reason that names no measured number.
    pub fn plain_message(&self) -> (r: Option<String>)
        ensures
            r is Some <==> self.plain_text() is Some,
            r is Some ==> r->0@ == self.plain_text()->0,
    {
        match *self {
            PromotionReason::TooFewGames { games, min_games } => {
                let mut s: String = "insufficient evidence: ".to_owned();
                s.append(decimal_text(games as usize).as_str());
                s.append(" held-out games < min ");
                s.append(decimal_text(min_games as usize).as_str());
                Some(s)
            },
            PromotionReason::NeverMet => Some(
                "candidate never met the field (no cross-play payoff)".to_owned(),
            ),
            _ => None,
        }
    }
}

/// The measures that a promotion weighs.
#[derive(Clone, Copy, Debug)]
pub struct PromotionMeasures {
    pub games: u32,
    pub met_field: bool,
    /// The lower confidence bound of the mean score.
    pub bound: Real64,
    /// The opponent against whom the candidate does worst, and the mean score there.
    pub worst_case: Option<(usize, Real64)>,
}

/// What speaks against a promotion, in order: too few games, no opponent, no confidence, an
/// opponent who beats the candidate too often.
pub open spec fn objections(m: PromotionMeasures, t: PromotionThresholds) -> Seq<PromotionReason> {
    let a = if m.games < t.min_games {
        seq![PromotionReason::TooFewGames { games: m.games, min_games: t.min_games }]
    } else {
        Seq::empty()
    };
    let b = if !m.met_field {
        a.push(PromotionReason::NeverMet)
    } else {
        a
    };
    let c = if m.bound.less(t.wilson_floor) {
        b.push(
            PromotionReason::NotConfident {
                bound: m.bound,
                floor: t.wilson_floor,
                games: m.games,
            },
        )
    } else {
        b
    };
    match m.worst_case {
        Some((opponent, payoff)) => if payoff.less(t.worst_case_floor) {
            c.push(
                PromotionReason::Exploitable { opponent, payoff, floor: t.worst_case_floor },
            )
        } else {
            c
        },
        None => c,
    }
}

/// The decision: promote exactly where nothing speaks against it. The reasons are
/// the objections, or the note that there are none.
pub fn decide_promotion(m: &PromotionMeasures, t: &PromotionThresholds) -> (r: (
    bool,
    Vec<PromotionReason>,
))
    ensures
        r.0 == (objections(*m, *t).len() == 0),
        r.1@ == if r.0 {
            seq![
                PromotionReason::Promoted {
                    bound: m.bound,
                    floor: t.wilson_floor,
                    games: m.games,
                },
            ]
        } else {
            objections(*m, *t)
        },
{
    let mut reasons: Vec<PromotionReason> = Vec::new();
    if m.games < t.min_games {
        reasons.push(PromotionReason::TooFewGames { games: m.games, min_games: t.min_games });
    }
    assert(m.games < t.min_games ==> reasons@ =~= seq![
        PromotionReason::TooFewGames { games: m.games, min_games: t.min_games },
    ]);
    assert(m.games >= t.min_games ==> reasons@ =~= Seq::empty());
    if !m.met_field {
        reasons.push(PromotionReason::NeverMet);
    }
    if m.bound.is_below(t.wilson_floor) {
        reasons.push(
            PromotionReason::NotConfident {
                bound: m.bound,
                floor: t.wilson_floor,
                games: m.games,
            },
        );
    }
    if let Some((opponent, payoff)) = m.worst_case {
        if payoff.is_below(t.worst_case_floor) {
            reasons.push(
                PromotionReason::Exploitable { opponent, payoff, floor: t.worst_case_floor },
            );
        }
    }
    assert(reasons@ == objections(*m, *t));
    let promote: bool = reasons.len() == 0;
    if promote {
        reasons.push(
            PromotionReason::Promoted { bound: m.bound, floor: t.wilson_floor, games: m.games },
        );
        assert(reasons@ =~= seq![
            PromotionReason::Promoted { bound: m.bound, floor: t.wilson_floor, games: m.games },
        ]);
    }
    (promote, reasons)
}

/// Whoever is promoted has played enough, has met the field, is confidently above the floor, and
/// has no opponent who beats them too often.
pub proof fn promotion_needs_every_check(m: PromotionMeasures, t: PromotionThresholds)
    ensures
        objections(m, t).len() == 0 <==> {
            &&& m.games >= t.min_games
            &&& m.met_field
            &&& !m.bound.less(t.wilson_floor)
            &&& m.worst_case is Some ==> !(m.worst_case->0).1.less(t.worst_case_floor)
        },
{
}

/// The mean score of a record, a draw for half a win; nothing for no games.
pub open spec fn mean_of<
    P: Fn(Real64, Real64) -> Real64,
    M: Fn(Real64, Real64) -> Real64,
    Q: Fn(Real64, Real64) -> Real64,
    C: Fn(usize) -> Real64,
>(plus: P, times: M, over: Q, count: C, record: CandidateRecord) -> Real64 {
    let games = record.wins + record.draws + record.losses;
    if games == 0 {
        num(D0)
    } else {
        outcome(
            over,
            outcome(
                plus,
                number_of(count, record.wins as usize),
                outcome(times, num(D0_5), number_of(count, record.draws as usize)),
            ),
            number_of(count, games as usize),
        )
    }
}

impl CandidateRecord {
    /// The mean score of the record.
    pub fn mean_score<
        P: Fn(Real64, Real64) -> Real64,
        M: Fn(Real64, Real64) -> Real64,
        Q: Fn(Real64, Real64) -> Real64,
        C: Fn(usize) -> Real64,
    >(&self, plus: &P, times: &M, over: &Q, count: &C) -> (r: Real64)
        requires
            self.wins + self.draws + self.losses <= u32::MAX,
            is_operation(*plus),
            is_operation(*times),
            is_operation(*over),
            is_conversion(*count),
        ensures
            r == mean_of(*plus, *times, *over, *count, *self),
    {
        let games: u32 = self.games();
        if games == 0 {
            return at_bits(D0);
        }
        let wins: Real64 = to_number(count, self.wins as usize);
        let draws: Real64 = to_number(count, self.draws as usize);
        let points: Real64 = apply(plus, wins, apply(times, at_bits(D0_5), draws));
        apply(over, points, to_number(count, games as usize))
    }
}

/// The verdict with all that was weighed.
#[derive(Debug)]
pub struct PromotionVerdict {
    pub promote: bool,
    pub candidate_elo: Real64,
    pub baseline_elo: Real64,
    pub elo_delta: Real64,
    /// The mean payoff over everybody the candidate met.
    pub mean_payoff_vs_field: Option<Real64>,
    /// The payoffs against everybody the candidate met, by opponent.
    pub field: Vec<(usize, Real64)>,
    pub payoff_vs_baseline: Option<Real64>,
    /// The least of the payoffs, and the opponent.
    pub worst_case: Option<(usize, Real64)>,
    /// The Wilson bound of the mean score.
    pub wilson_lower_bound: Real64,
    /// The bound that decides: the Wilson bound or the draw-aware one.
    pub bound: Real64,
    pub record: CandidateRecord,
    pub reasons: Vec<PromotionReason>,
}

/// The measures of a verdict.
pub open spec fn measures_of(v: PromotionVerdict) -> PromotionMeasures {
    PromotionMeasures {
        games: (v.record.wins + v.record.draws + v.record.losses) as u32,
        met_field: v.field@.len() > 0,
        bound: v.bound,
        worst_case: v.worst_case,
    }
}

/// What one rating lies above another.
pub open spec fn rating_lead<P: Fn(Real64, Real64) -> Real64>(
    plus: P,
    candidate: Real64,
    baseline: Real64,
) -> Real64 {
    outcome(plus, candidate, baseline.negated())
}

/// Decides whether the candidate replaces the baseline on a list of fixtures. `draw_aware` has
/// the draw-aware bound decide in place of the Wilson bound. `power` raises ten to a power, `root`
/// is the square root.
pub fn evaluate_promotion<
    W: Fn(Real64) -> Real64,
    P: Fn(Real64, Real64) -> Real64,
    M: Fn(Real64, Real64) -> Real64,
    Q: Fn(Real64, Real64) -> Real64,
    C: Fn(usize) -> Real64,
    R: Fn(Real64) -> Real64,
>(
    reports: &Vec<MatchReport>,
    candidate_id: usize,
    baseline_id: usize,
    thresholds: &PromotionThresholds,
    draw_aware: bool,
    power: &W,
    plus: &P,
    times: &M,
    over: &Q,
    count: &C,
    root: &R,
) -> (v: PromotionVerdict)
    requires
        reports@.len() < u32::MAX,
        goals_scored(reports@, candidate_id as int, reports@.len() as int) <= u32::MAX,
        goals_conceded(reports@, candidate_id as int, reports@.len() as int) <= u32::MAX,
        is_function(*power),
        is_operation(*plus),
        is_operation(*times),
        is_operation(*over),
        is_conversion(*count),
        is_function(*root),
    ensures
        is_record(reports@, candidate_id as int, v.record),
        v.candidate_elo == rating_in(
            swept(*power, *plus, *times, *over, step_size(thresholds.elo_k), reports@, 12),
            candidate_id,
        ),
        v.baseline_elo == rating_in(
            swept(*power, *plus, *times, *over, step_size(thresholds.elo_k), reports@, 12),
            baseline_id,
        ),
        v.field@ == field_of(*over, *count, all_recorded(*plus, reports@), candidate_id),
        v.payoff_vs_baseline == payoff_in(
            *over,
            *count,
            all_recorded(*plus, reports@),
            candidate_id,
            baseline_id,
        ),
        v.worst_case == worst_of(v.field@),
        v.elo_delta == rating_lead(*plus, v.candidate_elo, v.baseline_elo),
        v.mean_payoff_vs_field == mean_of_field(*plus, *over, *count, v.field@),
        v.wilson_lower_bound == wilson_bound(
            *plus,
            *times,
            *over,
            *count,
            *root,
            mean_of(*plus, *times, *over, *count, v.record),
            (v.record.wins + v.record.draws + v.record.losses) as u32,
            thresholds.wilson_z,
        ),
        v.bound == if draw_aware {
            draw_aware_bound(
                *plus,
                *times,
                *over,
                *count,
                *root,
                v.record,
                thresholds.wilson_z,
            )
        } else {
            v.wilson_lower_bound
        },
        v.promote == (objections(measures_of(v), *thresholds).len() == 0),
        v.reasons@ == if v.promote {
            seq![
                PromotionReason::Promoted {
                    bound: v.bound,
                    floor: thresholds.wilson_floor,
                    games: (v.record.wins + v.record.draws + v.record.losses) as u32,
                },
            ]
        } else {
            objections(measures_of(v), *thresholds)
        },
{
    let elo: EloRatings = EloRatings::from_match_reports(
        reports,
        thresholds.elo_k,
        12,
        power,
        plus,
        times,
        over,
    );
    let matrix: CrossPlayMatrix = CrossPlayMatrix::from_match_reports(reports, plus);
    let record: CandidateRecord = candidate_record(reports, candidate_id);
    let field: Vec<(usize, Real64)> = matrix.payoffs_vs_field(candidate_id, over, count);
    let payoff_vs_baseline: Option<Real64> = matrix.payoff(candidate_id, baseline_id, over, count);
    let worst_case: Option<(usize, Real64)> = matrix.worst_case(candidate_id, over, count);
    let mean_payoff: Option<Real64> = matrix.mean_payoff_vs_field(candidate_id, plus, over, count);
    let z: Real64 = thresholds.wilson_z;
    let mean: Real64 = record.mean_score(plus, times, over, count);
    let lower: Real64 = wilson_lower_bound(
        mean,
        record.games(),
        z,
        plus,
        times,
        over,
        count,
        root,
    );
    let bound: Real64 = if draw_aware {
        draw_aware_lower_bound(&record, z, plus, times, over, count, root)
    } else {
        lower
    };
    let measures: PromotionMeasures = PromotionMeasures {
        games: record.games(),
        met_field: field.len() > 0,
        bound,
        worst_case,
    };
    let (promote, reasons): (bool, Vec<PromotionReason>) = decide_promotion(&measures, thresholds);
    let candidate_elo: Real64 = elo.rating(candidate_id);
    let baseline_elo: Real64 = elo.rating(baseline_id);
    PromotionVerdict {
        promote,
        candidate_elo,
        baseline_elo,
        elo_delta: apply(plus, candidate_elo, baseline_elo.negate()),
        mean_payoff_vs_field: mean_payoff,
        field,
        payoff_vs_baseline,
        worst_case,
        wilson_lower_bound: lower,
        bound,
        record,
        reasons,
    }
}

/// The mean score: wins and half of the draws, over all games.
pub proof fn mean_scores_count_draws_half<
    P: Fn(Real64, Real64) -> Real64,
    M: Fn(Real64, Real64) -> Real64,
    Q: Fn(Real64, Real64) -> Real64,
    C: Fn(usize) -> Real64,
>(
    means: spec_fn(Real64, real) -> bool,
    plus: P,
    times: M,
    over: Q,
    count: C,
    record: CandidateRecord,
    mean: real,
)
    requires
        is_faithful(means, plus, times),
        reads_quotients(means, over),
        reads_counts(means, count),
        0 < record.wins + record.draws + record.losses <= u32::MAX,
        mean * ((record.wins + record.draws + record.losses) as real)
            == (record.wins as int as real) + (record.draws as int as real) / 2real,
    ensures
        means(mean_of(plus, times, over, count, record), mean),
{
    decimals_are_read(means);
    let w = record.wins as int as real;
    let d = record.draws as int as real;
    let n = (record.wins + record.draws + record.losses) as real;
    let points = w + (1real / 2real) * d;
    quotient(points, n);
    cancel(points / n, mean, n);
}

/// Doing better raises no objection: with more games, the field met, a higher bound and a higher
/// worst payoff there are no more objections than before, and asking for more takes none away.
pub proof fn doing_better_raises_no_objection(
    m: PromotionMeasures,
    better: PromotionMeasures,
    t: PromotionThresholds,
    easier: PromotionThresholds,
    opponent: usize,
    payoff: Real64,
    higher: Real64,
)
    requires
        m.games <= better.games,
        m.met_field ==> better.met_field,
        !m.bound.nan() && !better.bound.nan(),
        m.bound.key() <= better.bound.key(),
        !payoff.nan() && !higher.nan(),
        payoff.key() <= higher.key(),
        m.worst_case == Some((opponent, payoff)),
        better.worst_case == Some((opponent, higher)),
        easier.min_games <= t.min_games,
        !easier.wilson_floor.nan() && !t.wilson_floor.nan(),
        easier.wilson_floor.key() <= t.wilson_floor.key(),
        !easier.worst_case_floor.nan() && !t.worst_case_floor.nan(),
        easier.worst_case_floor.key() <= t.worst_case_floor.key(),
    ensures
        objections(better, t).len() <= objections(m, t).len(),
        objections(m, easier).len() <= objections(m, t).len(),
        better.games < t.min_games ==> objections(better, t).len() > 0,
        !better.met_field ==> objections(better, t).len() > 0,
        better.bound.key() < t.wilson_floor.key() ==> objections(better, t).len() > 0,
        higher.key() < t.worst_case_floor.key() ==> objections(better, t).len() > 0,
{
}

/// A fixture is seen from the own side: a goal of the home side is one more for it and one more
/// against the away side, and never costs the home side points.
pub proof fn goals_count_for_their_side(r: MatchReport, one_more: MatchReport)
    requires
        r.home_id != r.away_id,
        one_more.home_id == r.home_id && one_more.away_id == r.away_id,
        one_more.home_goals == r.home_goals + 1 && one_more.away_goals == r.away_goals,
        one_more.shootout_winner == r.shootout_winner,
    ensures
        ({
            let home = seen_by(r, r.home_id as int)->0;
            let away = seen_by(r, r.away_id as int)->0;
            let home_after = seen_by(one_more, r.home_id as int)->0;
            let away_after = seen_by(one_more, r.away_id as int)->0;
            &&& seen_by(r, r.home_id as int) is Some && seen_by(r, r.away_id as int) is Some
            &&& home_after.0 == home.0 + 1 && home_after.1 == home.1
            &&& away_after.0 == away.0 && away_after.1 == away.1 + 1
            &&& home_after.2 >= home.2 && away_after.2 <= away.2
            &&& home.0 == away.1 && home.1 == away.0
            &&& home.0 > home.1 ==> home.2 > away.2
        }),
{
}

/// The lead is the candidate's rating less the baseline's.
pub proof fn leads_are_over_the_baseline<
    P: Fn(Real64, Real64) -> Real64,
>(
    means: spec_fn(Real64, real) -> bool,
    plus: P,
    candidate: Real64,
    baseline: Real64,
    c: real,
    b: real,
)
    requires
        reads_sums(means, plus),
        reads_signs(means),
        reads_order(means),
        reads_decimals(means),
        means(candidate, c),
        means(baseline, b),
    ensures
        means(rating_lead(plus, candidate, baseline), c - b),
{
    decimals_are_read(means);
    assert(c + -b == c - b);
}

} // verus!
