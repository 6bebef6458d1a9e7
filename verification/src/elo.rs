//! Relative strength: ratings folded from results, and the cross-play record of every pair.
use crate::arithmetic::{
    can_multiply, differences_tell_order, products_keep_order, sums_keep_order,
    sums_move_with_signs,
};
use crate::decimals::{D0, D0_5, D1, D1500, D24, D400};
use crate::meaning::{
    decimals_are_read, is_faithful, reads_counts, reads_decimals, reads_order, reads_quotients,
    reads_signs,
};
use crate::number::{
    add_up, apply, at_bits, clamp_to, clamped_to, image, is_conversion, is_function, is_operation,
    map_number, negation_mirrors, num, number_of, outcome, sum_up, to_number, Real64,
};
use crate::order::{is_ranking, precedes, ranking};
use crate::reals::{cancel, quotient};
use std::collections::BTreeMap;
use vstd::prelude::*;
use vstd::std_specs::iter::IteratorSpec;

verus! {

broadcast use {vstd::std_specs::btree::group_btree_axioms, vstd::laws_cmp::group_laws_cmp};

/// A played fixture.
#[derive(Clone, Copy, Debug)]
pub struct MatchReport {
    pub home_id: usize,
    pub away_id: usize,
    pub home_goals: u32,
    pub away_goals: u32,
    /// Who won the shootout, if there was one.
    pub shootout_winner: Option<usize>,
}

/// The first side's score in half points: 2 for a win, 1 for a draw, 0 for a loss. A shootout
/// decides a level game.
pub open spec fn half_points(
    home_goals: int,
    away_goals: int,
    home_won_shootout: Option<bool>,
) -> int {
    if home_goals > away_goals {
        2
    } else if home_goals < away_goals {
        0
    } else {
        match home_won_shootout {
            Some(true) => 2,
            Some(false) => 0,
            None => 1,
        }
    }
}

pub fn half_points_of(
    home_goals: u32,
    away_goals: u32,
    home_won_shootout: Option<bool>,
) -> (n: u8)
    ensures
        n == half_points(home_goals as int, away_goals as int, home_won_shootout),
{
    if home_goals > away_goals {
        2
    } else if home_goals < away_goals {
        0
    } else {
        match home_won_shootout {
            Some(true) => 2,
            Some(false) => 0,
            None => 1,
        }
    }
}

/// The number that half points stand for, at most one.
pub open spec fn points(half_points: int) -> Real64 {
    if half_points <= 0 {
        num(D0)
    } else if half_points == 1 {
        num(D0_5)
    } else {
        num(D1)
    }
}

/// The first side's score: 1 for a win, a half for a draw, 0 for a loss.
pub fn match_score(
    home_goals: u32,
    away_goals: u32,
    home_won_shootout: Option<bool>,
) -> (score: Real64)
    ensures
        score == points(half_points(home_goals as int, away_goals as int, home_won_shootout)),
{
    let n: u8 = half_points_of(home_goals, away_goals, home_won_shootout);
    if n == 0 {
        at_bits(D0)
    } else if n == 1 {
        at_bits(D0_5)
    } else {
        at_bits(D1)
    }
}

/// What the home side scored in a fixture, in half points.
pub open spec fn home_score(r: MatchReport) -> int {
    half_points(
        r.home_goals as int,
        r.away_goals as int,
        match r.shootout_winner {
            Some(w) => Some(w == r.home_id),
            None => None,
        },
    )
}

fn home_score_of(r: &MatchReport) -> (score: Real64)
    ensures
        score == points(home_score(*r)),
{
    let won: Option<bool> = match r.shootout_winner {
        Some(w) => Some(w == r.home_id),
        None => None,
    };
    match_score(r.home_goals, r.away_goals, won)
}

/// The two perspectives of a fixture share its two half points.
pub proof fn scores_share_the_points(r: MatchReport)
    requires
        r.home_id != r.away_id,
        r.shootout_winner is Some ==> r.shootout_winner->0 == r.home_id || r.shootout_winner->0
            == r.away_id,
    ensures
        home_score(r) + home_score(
            MatchReport {
                home_id: r.away_id,
                away_id: r.home_id,
                home_goals: r.away_goals,
                away_goals: r.home_goals,
                ..r
            },
        ) == 2,
{
}

/// What a fixture adds to the record of `a` against `b`: half points and games.
pub open spec fn adds(r: MatchReport, a: int, b: int) -> (int, int) {
    if r.home_id == r.away_id {
        (0, 0)
    } else if r.home_id == a && r.away_id == b {
        (home_score(r), 1)
    } else if r.home_id == b && r.away_id == a {
        (2 - home_score(r), 1)
    } else {
        (0, 0)
    }
}

/// The record of `a` against `b` over some fixtures.
pub open spec fn record_of(reports: Seq<MatchReport>, a: int, b: int) -> (int, int)
    decreases reports.len(),
{
    if reports.len() == 0 {
        (0, 0)
    } else {
        let before = record_of(reports.drop_last(), a, b);
        let add = adds(reports.last(), a, b);
        (before.0 + add.0, before.1 + add.1)
    }
}

/// The record of one ordered pair: what the first scored in all, and over how many games.
#[derive(Clone, Copy, Debug, PartialEq, Eq, Structural)]
pub struct PairTally {
    pub score: Real64,
    pub games: u32,
}

/// The tally of a pair, an empty one where they have never met.
pub open spec fn tally_in(pairs: Map<(usize, usize), PairTally>, a: usize, b: usize) -> PairTally {
    if pairs.contains_key((a, b)) {
        pairs[(a, b)]
    } else {
        PairTally { score: num(D0), games: 0 }
    }
}

/// The tallies after a game that the first of a pair ended with a score.
pub open spec fn bumped<P: Fn(Real64, Real64) -> Real64>(
    plus: P,
    pairs: Map<(usize, usize), PairTally>,
    a: usize,
    b: usize,
    score: Real64,
) -> Map<(usize, usize), PairTally> {
    let t = tally_in(pairs, a, b);
    pairs.insert(
        (a, b),
        PairTally { score: outcome(plus, t.score, score), games: (t.games + 1) as u32 },
    )
}

/// The tallies after a fixture, from both sides. The score of the first, kept between 0 and 1,
/// leaves the rest of 1 for the second; a side does not play itself.
pub open spec fn recorded<P: Fn(Real64, Real64) -> Real64>(
    plus: P,
    pairs: Map<(usize, usize), PairTally>,
    a: usize,
    b: usize,
    score: Real64,
) -> Map<(usize, usize), PairTally> {
    if a == b {
        pairs
    } else {
        let s = clamped_to(score, num(D0), num(D1));
        bumped(
            plus,
            bumped(plus, pairs, a, b, s),
            b,
            a,
            outcome(plus, num(D1), s.negated()),
        )
    }
}

/// The tallies over a list of fixtures.
pub open spec fn all_recorded<P: Fn(Real64, Real64) -> Real64>(
    plus: P,
    reports: Seq<MatchReport>,
) -> Map<(usize, usize), PairTally>
    decreases reports.len(),
{
    if reports.len() == 0 {
        Map::empty()
    } else {
        let r = reports.last();
        recorded(
            plus,
            all_recorded(plus, reports.drop_last()),
            r.home_id,
            r.away_id,
            points(home_score(r)),
        )
    }
}

/// The mean score of one side against another, nothing where they have never met.
pub open spec fn payoff_in<Q: Fn(Real64, Real64) -> Real64, C: Fn(usize) -> Real64>(
    over: Q,
    count: C,
    pairs: Map<(usize, usize), PairTally>,
    a: usize,
    b: usize,
) -> Option<Real64> {
    let t = tally_in(pairs, a, b);
    if t.games == 0 {
        None
    } else {
        Some(outcome(over, t.score, number_of(count, t.games as usize)))
    }
}

/// The payoffs of a side against everybody below `n` that it has met, by opponent upwards.
pub open spec fn field_below<Q: Fn(Real64, Real64) -> Real64, C: Fn(usize) -> Real64>(
    over: Q,
    count: C,
    pairs: Map<(usize, usize), PairTally>,
    id: usize,
    n: int,
) -> Seq<(usize, Real64)>
    decreases n,
{
    if n <= 0 {
        Seq::empty()
    } else {
        let before = field_below(over, count, pairs, id, n - 1);
        let other = (n - 1) as usize;
        match payoff_in(over, count, pairs, id, other) {
            Some(p) => if other != id {
                before.push((other, p))
            } else {
                before
            },
            None => before,
        }
    }
}

/// The payoffs of a side against everybody it has met, by opponent upwards.
pub open spec fn field_of<Q: Fn(Real64, Real64) -> Real64, C: Fn(usize) -> Real64>(
    over: Q,
    count: C,
    pairs: Map<(usize, usize), PairTally>,
    id: usize,
) -> Seq<(usize, Real64)> {
    field_below(over, count, pairs, id, usize::MAX + 1)
}

/// The mean of the payoffs of a list; nothing for an empty list.
pub open spec fn mean_of_field<
    P: Fn(Real64, Real64) -> Real64,
    Q: Fn(Real64, Real64) -> Real64,
    C: Fn(usize) -> Real64,
>(plus: P, over: Q, count: C, field: Seq<(usize, Real64)>) -> Option<Real64> {
    if field.len() == 0 {
        None
    } else {
        Some(
            outcome(
                over,
                sum_up(plus, field.map_values(|e: (usize, Real64)| e.1), field.len() as int),
                number_of(count, field.len() as usize),
            ),
        )
    }
}

/// Where the least of the first `n` payoffs stands, the first of several.
pub open spec fn least_place(field: Seq<(usize, Real64)>, n: int) -> int
    decreases n,
{
    if n <= 1 {
        0
    } else {
        let best = least_place(field, n - 1);
        if field[n - 1].1.less(field[best].1) {
            n - 1
        } else {
            best
        }
    }
}

/// The opponent of a list with the least payoff, and the payoff; nothing for an empty list.
pub open spec fn worst_of(field: Seq<(usize, Real64)>) -> Option<(usize, Real64)> {
    if field.len() == 0 {
        None
    } else {
        Some(field[least_place(field, field.len() as int)])
    }
}

proof fn least_places_are_least(field: Seq<(usize, Real64)>, n: int)
    requires
        1 <= n <= field.len(),
        forall|i: int| 0 <= i < n ==> !(#[trigger] field[i]).1.nan(),
    ensures
        ({
            let best = least_place(field, n);
            &&& 0 <= best < n
            &&& forall|i: int| 0 <= i < n ==> field[best].1.key() <= (#[trigger] field[i]).1.key()
            &&& forall|i: int| 0 <= i < best ==> field[best].1.key() < (#[trigger] field[i]).1.key()
        }),
    decreases n,
{
    if n > 1 {
        least_places_are_least(field, n - 1);
        assert(!field[n - 1].1.nan());
        assert(!field[least_place(field, n - 1)].1.nan());
    }
}

/// The worst case of a field of numbers is the least payoff, and of equally bad ones the first.
pub proof fn worst_cases_are_least(field: Seq<(usize, Real64)>)
    requires
        field.len() > 0,
        forall|i: int| 0 <= i < field.len() ==> !(#[trigger] field[i]).1.nan(),
    ensures
        exists|best: int|
            0 <= best < field.len() && worst_of(field) == Some(#[trigger] field[best]) && (forall|
                i: int,
            |
                0 <= i < field.len() ==> field[best].1.key() <= (#[trigger] field[i]).1.key())
                && forall|i: int|
                0 <= i < best ==> field[best].1.key() < (#[trigger] field[i]).1.key(),
{
    least_places_are_least(field, field.len() as int);
    let best = least_place(field, field.len() as int);
    assert(worst_of(field) == Some(field[best]));
}

/// The field below `n` lists whoever was met there, upwards and with the payoffs.
proof fn fields_list_the_met<Q: Fn(Real64, Real64) -> Real64, C: Fn(usize) -> Real64>(
    over: Q,
    count: C,
    pairs: Map<(usize, usize), PairTally>,
    id: usize,
    n: int,
)
    requires
        n <= usize::MAX + 1,
    ensures
        ({
            let field = field_below(over, count, pairs, id, n);
            &&& forall|i: int|
                0 <= i < field.len() ==> (#[trigger] field[i]).0 < n && field[i].0 != id
                    && payoff_in(over, count, pairs, id, field[i].0) == Some(field[i].1)
            &&& forall|i: int, j: int|
                0 <= i < j < field.len() ==> (#[trigger] field[i]).0 < (#[trigger] field[j]).0
            &&& forall|q: usize|
                q < n && q != id && (#[trigger] payoff_in(over, count, pairs, id, q)) is Some
                    ==> exists|i: int| 0 <= i < field.len() && (#[trigger] field[i]).0 == q
        }),
    decreases n,
{
    if n > 0 {
        fields_list_the_met(over, count, pairs, id, n - 1);
        let before = field_below(over, count, pairs, id, n - 1);
        let field = field_below(over, count, pairs, id, n);
        let last = (n - 1) as usize;
        assert forall|i: int| 0 <= i < before.len() implies #[trigger] field[i] == before[i] by {}
        assert forall|q: usize|
            q < n && q != id && (#[trigger] payoff_in(over, count, pairs, id, q)) is Some implies
            exists|i: int| 0 <= i < field.len() && (#[trigger] field[i]).0 == q by {
            if q == last {
                assert(field[before.len() as int].0 == q);
            } else {
                let i = choose|i: int| 0 <= i < before.len() && (#[trigger] before[i]).0 == q;
                assert(field[i].0 == q);
            }
        }
    }
}

/// The worst case of a side is nobody exactly where it has met nobody. Else it is an opponent
/// with the payoff against them, no opponent gave a smaller payoff, and of those that gave the
/// same it is the one with the smallest id. The payoffs have to be numbers.
pub proof fn worst_cases_are_worst<Q: Fn(Real64, Real64) -> Real64, C: Fn(usize) -> Real64>(
    over: Q,
    count: C,
    pairs: Map<(usize, usize), PairTally>,
    id: usize,
)
    requires
        forall|q: usize|
            (#[trigger] payoff_in(over, count, pairs, id, q)) matches Some(p) ==> !p.nan(),
    ensures
        match worst_of(field_of(over, count, pairs, id)) {
            None => forall|q: usize|
                q != id ==> (#[trigger] payoff_in(over, count, pairs, id, q)) is None,
            Some((worst, p)) => {
                &&& worst != id
                &&& payoff_in(over, count, pairs, id, worst) == Some(p)
                &&& forall|q: usize|
                    q != id ==> ((#[trigger] payoff_in(over, count, pairs, id, q)) matches Some(x)
                        ==> p.key() <= x.key() && (p.key() == x.key() ==> worst <= q))
            },
        },
{
    let field = field_of(over, count, pairs, id);
    fields_list_the_met(over, count, pairs, id, usize::MAX + 1);
    if field.len() > 0 {
        assert forall|i: int| 0 <= i < field.len() implies !(#[trigger] field[i]).1.nan() by {
            assert(payoff_in(over, count, pairs, id, field[i].0) == Some(field[i].1));
        }
        least_places_are_least(field, field.len() as int);
        let best = least_place(field, field.len() as int);
        assert(payoff_in(over, count, pairs, id, field[best].0) == Some(field[best].1));
        assert forall|q: usize| q != id implies ((#[trigger] payoff_in(
            over,
            count,
            pairs,
            id,
            q,
        )) matches Some(x) ==> field[best].1.key() <= x.key() && (field[best].1.key() == x.key()
            ==> field[best].0 <= q)) by {
            if payoff_in(over, count, pairs, id, q) is Some {
                let i = choose|i: int| 0 <= i < field.len() && (#[trigger] field[i]).0 == q;
                assert(payoff_in(over, count, pairs, id, field[i].0) == Some(field[i].1));
                assert(field[best].1.key() <= field[i].1.key());
                if i < best {
                    assert(field[best].1.key() < field[i].1.key());
                } else if i > best {
                    assert(field[best].0 < field[i].0);
                }
            }
        }
    } else {
        assert forall|q: usize| q != id implies (#[trigger] payoff_in(
            over,
            count,
            pairs,
            id,
            q,
        )) is None by {
            if payoff_in(over, count, pairs, id, q) is Some {
                let i = choose|i: int| 0 <= i < field.len() && (#[trigger] field[i]).0 == q;
            }
        }
    }
}

/// Nobody below `b` and from `a` on adds to the field.
proof fn gaps_add_nothing<Q: Fn(Real64, Real64) -> Real64, C: Fn(usize) -> Real64>(
    over: Q,
    count: C,
    pairs: Map<(usize, usize), PairTally>,
    id: usize,
    a: int,
    b: int,
)
    requires
        0 <= a <= b <= usize::MAX + 1,
        forall|x: usize| a <= x < b ==> #[trigger] payoff_in(over, count, pairs, id, x) is None,
    ensures
        field_below(over, count, pairs, id, b) == field_below(over, count, pairs, id, a),
    decreases b - a,
{
    if a < b {
        gaps_add_nothing(over, count, pairs, id, a, b - 1);
        assert(payoff_in(over, count, pairs, id, (b - 1) as usize) is None);
    }
}

/// The pairs that have met.
fn met(pairs: &BTreeMap<(usize, usize), PairTally>) -> (r: Vec<(usize, usize)>)
    ensures
        forall|k: (usize, usize)| #[trigger] pairs@.contains_key(k) <==> r@.contains(k),
{
    let mut r: Vec<(usize, usize)> = Vec::new();
    let walk = pairs.iter();
    let ghost all = walk.remaining();
    for e in it: walk
        invariant
            it.seq() == all,
            r@.len() == it.index(),
            forall|i: int| 0 <= i < r@.len() ==> #[trigger] r@[i] == *all[i].0,
    {
        r.push(*e.0);
    }
    proof {
        assert forall|k: (usize, usize)| #[trigger] pairs@.contains_key(k) <==> r@.contains(k) by {
            if pairs@.contains_key(k) {
                assert(all.contains((&k, &pairs@[k])));
                let i = choose|i: int| 0 <= i < all.len() && all[i] == (&k, &pairs@[k]);
                assert(r@[i] == k);
            }
            if r@.contains(k) {
                let i = choose|i: int| 0 <= i < r@.len() && r@[i] == k;
                assert(pairs@.contains_key(*all[i].0));
            }
        }
    }
    r
}

/// The cross-play record of every ordered pair that has met.
#[derive(Debug)]
pub struct CrossPlayMatrix {
    pub pairs: BTreeMap<(usize, usize), PairTally>,
}

impl Default for CrossPlayMatrix {
    fn default() -> (r: Self)
        ensures
            r@ == Map::<(usize, usize), PairTally>::empty(),
    {
        CrossPlayMatrix { pairs: BTreeMap::new() }
    }
}

impl View for CrossPlayMatrix {
    type V = Map<(usize, usize), PairTally>;

    /// The tallies of the ordered pairs.
    open spec fn view(&self) -> Map<(usize, usize), PairTally> {
        self.pairs@
    }
}

impl CrossPlayMatrix {
    pub fn new() -> (r: Self)
        ensures
            r@ == Map::<(usize, usize), PairTally>::empty(),
    {
        CrossPlayMatrix { pairs: BTreeMap::new() }
    }

    fn tally(&self, a: usize, b: usize) -> (r: PairTally)
        ensures
            r == tally_in(self@, a, b),
    {
        match self.pairs.get(&(a, b)) {
            Some(t) => *t,
            None => PairTally { score: at_bits(D0), games: 0 },
        }
    }

    fn bump<P: Fn(Real64, Real64) -> Real64>(&mut self, a: usize, b: usize, score: Real64, plus: &P)
        requires
            is_operation(*plus),
            tally_in(old(self)@, a, b).games < u32::MAX,
        ensures
            final(self)@ == bumped(*plus, old(self)@, a, b, score),
    {
        let t: PairTally = self.tally(a, b);
        let next: PairTally = PairTally {
            score: apply(plus, t.score, score),
            games: t.games + 1,
        };
        self.pairs.insert((a, b), next);
    }

    /// Records one fixture from both sides. `score_a` is what `id_a` scored, kept between 0 for a
    /// loss and 1 for a win; a side does not play itself.
    pub fn record<P: Fn(Real64, Real64) -> Real64>(
        &mut self,
        id_a: usize,
        id_b: usize,
        score_a: Real64,
        plus: &P,
    )
        requires
            is_operation(*plus),
            tally_in(old(self)@, id_a, id_b).games < u32::MAX,
            tally_in(old(self)@, id_b, id_a).games < u32::MAX,
        ensures
            final(self)@ == recorded(*plus, old(self)@, id_a, id_b, score_a),
    {
        if id_a == id_b {
            return;
        }
        let score: Real64 = clamp_to(score_a, at_bits(D0), at_bits(D1));
        self.bump(id_a, id_b, score, plus);
        self.bump(id_b, id_a, apply(plus, at_bits(D1), score.negate()), plus);
    }

    /// The record over a list of fixtures.
    pub fn from_match_reports<P: Fn(Real64, Real64) -> Real64>(
        reports: &Vec<MatchReport>,
        plus: &P,
    ) -> (matrix: Self)
        requires
            is_operation(*plus),
            reports@.len() < u32::MAX,
        ensures
            matrix@ == all_recorded(*plus, reports@),
    {
        let mut matrix: CrossPlayMatrix = CrossPlayMatrix::new();
        let mut i: usize = 0;
        assert(reports@.take(0) =~= Seq::<MatchReport>::empty());
        while i < reports.len()
            invariant
                i <= reports@.len(),
                is_operation(*plus),
                reports@.len() < u32::MAX,
                matrix@ == all_recorded(*plus, reports@.take(i as int)),
            decreases reports@.len() - i,
        {
            let r: MatchReport = reports[i];
            proof {
                let part = reports@.take(i as int);
                games_are_counted(*plus, part, r.home_id, r.away_id);
                games_are_counted(*plus, part, r.away_id, r.home_id);
                games_are_bounded(part, r.home_id as int, r.away_id as int);
                games_are_bounded(part, r.away_id as int, r.home_id as int);
                assert(reports@.take(i + 1).drop_last() =~= part);
                assert(reports@.take(i + 1).last() == r);
            }
            matrix.record(r.home_id, r.away_id, home_score_of(&r), plus);
            i += 1;
        }
        assert(reports@.take(reports@.len() as int) =~= reports@);
        matrix
    }

    /// The mean score of one side against another, nothing where they have never met.
    pub fn payoff<Q: Fn(Real64, Real64) -> Real64, C: Fn(usize) -> Real64>(
        &self,
        id_a: usize,
        id_b: usize,
        over: &Q,
        count: &C,
    ) -> (r: Option<Real64>)
        requires
            is_operation(*over),
            is_conversion(*count),
        ensures
            r == payoff_in(*over, *count, self@, id_a, id_b),
    {
        let t: PairTally = self.tally(id_a, id_b);
        if t.games == 0 {
            None
        } else {
            Some(apply(over, t.score, to_number(count, t.games as usize)))
        }
    }

    /// How often two sides have met.
    pub fn games_between(&self, id_a: usize, id_b: usize) -> (n: u32)
        ensures
            n == tally_in(self@, id_a, id_b).games,
    {
        self.tally(id_a, id_b).games
    }

    /// Everybody who stands in the record, upwards.
    pub fn ids(&self) -> (ids: Vec<usize>)
        ensures
            forall|i: int, j: int|
                0 <= i < j < ids@.len() ==> #[trigger] ids@[i] < #[trigger] ids@[j],
            forall|x: usize| #[trigger]
                ids@.contains(x) <==> exists|k: (usize, usize)| #[trigger]
                    self@.contains_key(k) && (k.0 == x || k.1 == x),
    {
        let keys: Vec<(usize, usize)> = met(&self.pairs);
        let mut ids: Vec<usize> = Vec::new();
        let mut i: usize = 0;
        while i < keys.len()
            invariant
                i <= keys@.len(),
                forall|i: int, j: int|
                    0 <= i < j < ids@.len() ==> #[trigger] ids@[i] < #[trigger] ids@[j],
                forall|x: usize| #[trigger]
                    ids@.contains(x) <==> exists|k: int|
                        0 <= k < i && ((#[trigger] keys@[k]).0 == x || keys@[k].1 == x),
            decreases keys@.len() - i,
        {
            let t: (usize, usize) = keys[i];
            let ghost before = ids@;
            insert_id(&mut ids, t.0);
            let ghost middle = ids@;
            insert_id(&mut ids, t.1);
            proof {
                assert forall|x: usize| #[trigger] ids@.contains(x) <==> exists|k: int|
                    0 <= k < i + 1 && ((#[trigger] keys@[k]).0 == x || keys@[k].1 == x) by {
                    if ids@.contains(x) {
                        if x == t.0 || x == t.1 {
                            assert(keys@[i as int].0 == x || keys@[i as int].1 == x);
                        } else {
                            assert(middle.contains(x));
                            assert(before.contains(x));
                            let k = choose|k: int|
                                0 <= k < i && ((#[trigger] keys@[k]).0 == x || keys@[k].1 == x);
                            assert(keys@[k].0 == x || keys@[k].1 == x);
                        }
                    }
                    if exists|k: int|
                        0 <= k < i + 1 && ((#[trigger] keys@[k]).0 == x || keys@[k].1 == x) {
                        let k = choose|k: int|
                            0 <= k < i + 1 && ((#[trigger] keys@[k]).0 == x || keys@[k].1 == x);
                        if k < i {
                            assert(before.contains(x));
                            assert(middle.contains(x));
                        } else {
                            assert(middle.contains(t.0));
                        }
                    }
                }
            }
            i += 1;
        }
        proof {
            assert forall|x: usize| #[trigger] ids@.contains(x) <==> exists|k: (usize, usize)|
                #[trigger] self@.contains_key(k) && (k.0 == x || k.1 == x) by {
                if ids@.contains(x) {
                    let k = choose|k: int|
                        0 <= k < keys@.len() && ((#[trigger] keys@[k]).0 == x || keys@[k].1 == x);
                    assert(keys@.contains(keys@[k]));
                    assert(self@.contains_key(keys@[k]));
                }
                if exists|k: (usize, usize)| #[trigger]
                    self@.contains_key(k) && (k.0 == x || k.1 == x) {
                    let k = choose|k: (usize, usize)| #[trigger]
                        self@.contains_key(k) && (k.0 == x || k.1 == x);
                    assert(keys@.contains(k));
                    let i = choose|i: int| 0 <= i < keys@.len() && keys@[i] == k;
                    assert(keys@[i].0 == x || keys@[i].1 == x);
                }
            }
        }
        ids
    }

    /// The payoffs of a side against everybody it has met, by opponent upwards.
    pub fn payoffs_vs_field<Q: Fn(Real64, Real64) -> Real64, C: Fn(usize) -> Real64>(
        &self,
        id: usize,
        over: &Q,
        count: &C,
    ) -> (r: Vec<(usize, Real64)>)
        requires
            is_operation(*over),
            is_conversion(*count),
        ensures
            r@ == field_of(*over, *count, self@, id),
    {
        let ids: Vec<usize> = self.ids();
        let mut r: Vec<(usize, Real64)> = Vec::new();
        let mut i: usize = 0;
        let ghost mut seen: int = 0;
        while i < ids.len()
            invariant
                i <= ids@.len(),
                is_operation(*over),
                is_conversion(*count),
                forall|i: int, j: int|
                    0 <= i < j < ids@.len() ==> #[trigger] ids@[i] < #[trigger] ids@[j],
                forall|x: usize| #[trigger]
                    payoff_in(*over, *count, self@, id, x) is Some ==> ids@.contains(x),
                seen == if i == 0 {
                    0
                } else {
                    ids@[i - 1] + 1
                },
                r@ == field_below(*over, *count, self@, id, seen),
            decreases ids@.len() - i,
        {
            let other: usize = ids[i];
            proof {
                self.nobody_between(*over, *count, id, ids@, i as int, seen, other as int);
                gaps_add_nothing(*over, *count, self@, id, seen, other as int);
                seen = other + 1;
            }
            if other != id {
                if let Some(p) = self.payoff(id, other, over, count) {
                    r.push((other, p));
                }
            }
            i += 1;
        }
        proof {
            self.nobody_between(*over, *count, id, ids@, i as int, seen, usize::MAX + 1);
            gaps_add_nothing(*over, *count, self@, id, seen, usize::MAX + 1);
        }
        r
    }

    /// Nobody that a side has met lies between two neighbours of the list.
    proof fn nobody_between<Q: Fn(Real64, Real64) -> Real64, C: Fn(usize) -> Real64>(
        &self,
        over: Q,
        count: C,
        id: usize,
        ids: Seq<usize>,
        i: int,
        a: int,
        b: int,
    )
        requires
            0 <= i <= ids.len(),
            forall|i: int, j: int|
                0 <= i < j < ids.len() ==> #[trigger] ids[i] < #[trigger] ids[j],
            forall|x: usize| #[trigger]
                payoff_in(over, count, self@, id, x) is Some ==> ids.contains(x),
            a == if i == 0 {
                0
            } else {
                ids[i - 1] + 1
            },
            b == if i < ids.len() {
                ids[i] as int
            } else {
                usize::MAX + 1
            },
        ensures
            a <= b <= usize::MAX + 1,
            forall|x: usize|
                a <= x < b ==> #[trigger] payoff_in(over, count, self@, id, x) is None,
    {
        if 0 < i < ids.len() {
            assert(ids[i - 1] < ids[i]);
        }
        assert forall|x: usize| a <= x < b implies #[trigger] payoff_in(
            over,
            count,
            self@,
            id,
            x,
        ) is None by {
            if payoff_in(over, count, self@, id, x) is Some {
                let k = choose|k: int| 0 <= k < ids.len() && ids[k] == x;
                if k < i - 1 {
                    assert(ids[k] < ids[i - 1]);
                } else if k > i {
                    assert(ids[i] < ids[k]);
                }
            }
        }
    }

    /// The mean payoff of a side over everybody it has met; nothing where it has met nobody.
    pub fn mean_payoff_vs_field<
        P: Fn(Real64, Real64) -> Real64,
        Q: Fn(Real64, Real64) -> Real64,
        C: Fn(usize) -> Real64,
    >(&self, id: usize, plus: &P, over: &Q, count: &C) -> (r: Option<Real64>)
        requires
            is_operation(*plus),
            is_operation(*over),
            is_conversion(*count),
        ensures
            r == mean_of_field(*plus, *over, *count, field_of(*over, *count, self@, id)),
    {
        let field: Vec<(usize, Real64)> = self.payoffs_vs_field(id, over, count);
        let mut payoffs: Vec<Real64> = Vec::new();
        let mut i: usize = 0;
        while i < field.len()
            invariant
                i <= field@.len(),
                payoffs@ == field@.map_values(|e: (usize, Real64)| e.1).take(i as int),
            decreases field@.len() - i,
        {
            payoffs.push(field[i].1);
            i += 1;
            assert(payoffs@ =~= field@.map_values(|e: (usize, Real64)| e.1).take(i as int));
        }
        assert(payoffs@ =~= field@.map_values(|e: (usize, Real64)| e.1));
        if field.len() == 0 {
            return None;
        }
        let total: Real64 = add_up(&payoffs, plus);
        Some(apply(over, total, to_number(count, field.len())))
    }

    /// The opponent against whom a side does worst, the first of several, and the payoff.
    pub fn worst_case<Q: Fn(Real64, Real64) -> Real64, C: Fn(usize) -> Real64>(
        &self,
        id: usize,
        over: &Q,
        count: &C,
    ) -> (r: Option<(usize, Real64)>)
        requires
            is_operation(*over),
            is_conversion(*count),
        ensures
            r == worst_of(field_of(*over, *count, self@, id)),
    {
        let field: Vec<(usize, Real64)> = self.payoffs_vs_field(id, over, count);
        if field.len() == 0 {
            return None;
        }
        let mut best: usize = 0;
        let mut i: usize = 1;
        while i < field.len()
            invariant
                1 <= i <= field@.len(),
                best < i,
                best == least_place(field@, i as int),
            decreases field@.len() - i,
        {
            if field[i].1.is_below(field[best].1) {
                best = i;
            }
            i += 1;
        }
        Some(field[best])
    }
}

fn insert_id(ids: &mut Vec<usize>, x: usize)
    requires
        forall|i: int, j: int|
            0 <= i < j < old(ids)@.len() ==> #[trigger] old(ids)@[i] < #[trigger] old(ids)@[j],
    ensures
        forall|i: int, j: int|
            0 <= i < j < final(ids)@.len() ==> #[trigger] final(ids)@[i]
                < #[trigger] final(ids)@[j],
        forall|y: usize| #[trigger]
            final(ids)@.contains(y) <==> old(ids)@.contains(y) || y == x,
{
    let mut p: usize = 0;
    while p < ids.len() && ids[p] < x
        invariant
            p <= ids@.len(),
            forall|i: int| 0 <= i < p ==> #[trigger] ids@[i] < x,
        decreases ids@.len() - p,
    {
        p += 1;
    }
    if p < ids.len() && ids[p] == x {
        assert(ids@.contains(x));
        return;
    }
    let ghost before = ids@;
    ids.insert(p, x);
    proof {
        assert(ids@ =~= before.insert(p as int, x));
        assert forall|i: int, j: int| 0 <= i < j < ids@.len() implies #[trigger] ids@[i]
            < #[trigger] ids@[j] by {
            let bi = if i < p { i } else { i - 1 };
            let bj = if j < p { j } else { j - 1 };
            if i != p {
                assert(ids@[i] == before[bi]);
            }
            if j != p {
                assert(ids@[j] == before[bj]);
            }
            if i == p && bj > p {
                assert(before[p as int] < before[bj]);
            }
        }
        assert forall|y: usize| #[trigger] ids@.contains(y) <==> before.contains(y) || y == x by {
            if ids@.contains(y) {
                let i = choose|i: int| 0 <= i < ids@.len() && ids@[i] == y;
                if i < p {
                    assert(before[i] == y);
                } else if i > p {
                    assert(before[i - 1] == y);
                }
            }
            if before.contains(y) {
                let i = choose|i: int| 0 <= i < before.len() && before[i] == y;
                if i < p {
                    assert(ids@[i] == y);
                } else {
                    assert(ids@[i + 1] == y);
                }
            }
            if y == x {
                assert(ids@[p as int] == x);
            }
        }
    }
}

/// The games of a pair are those that its record counts.
proof fn games_are_counted<P: Fn(Real64, Real64) -> Real64>(
    plus: P,
    reports: Seq<MatchReport>,
    a: usize,
    b: usize,
)
    requires
        reports.len() < u32::MAX,
    ensures
        tally_in(all_recorded(plus, reports), a, b).games == record_of(
            reports,
            a as int,
            b as int,
        ).1,
        all_recorded(plus, reports).contains_key((a, b)) <==> record_of(
            reports,
            a as int,
            b as int,
        ).1 > 0,
    decreases reports.len(),
{
    if reports.len() > 0 {
        let rest = reports.drop_last();
        let r = reports.last();
        games_are_counted(plus, rest, a, b);
        games_are_counted(plus, rest, r.home_id, r.away_id);
        games_are_counted(plus, rest, r.away_id, r.home_id);
        games_are_bounded(rest, a as int, b as int);
    }
}

proof fn games_are_bounded(reports: Seq<MatchReport>, a: int, b: int)
    ensures
        0 <= record_of(reports, a, b).1 <= reports.len(),
        0 <= record_of(reports, a, b).0 <= 2 * record_of(reports, a, b).1,
    decreases reports.len(),
{
    if reports.len() > 0 {
        games_are_bounded(reports.drop_last(), a, b);
    }
}

/// The two sides of a pair have met equally often and share the points of their games.
pub proof fn records_mirror(reports: Seq<MatchReport>, a: int, b: int)
    requires
        a != b,
    ensures
        record_of(reports, a, b).1 == record_of(reports, b, a).1,
        record_of(reports, a, b).0 + record_of(reports, b, a).0 == 2 * record_of(reports, a, b).1,
    decreases reports.len(),
{
    if reports.len() > 0 {
        records_mirror(reports.drop_last(), a, b);
    }
}

proof fn record_without(reports: Seq<MatchReport>, i: int, a: int, b: int)
    requires
        0 <= i < reports.len(),
    ensures
        record_of(reports, a, b).0 == record_of(reports.remove(i), a, b).0 + adds(
            reports[i],
            a,
            b,
        ).0,
        record_of(reports, a, b).1 == record_of(reports.remove(i), a, b).1 + adds(
            reports[i],
            a,
            b,
        ).1,
    decreases reports.len(),
{
    if i == reports.len() - 1 {
        assert(reports.remove(i) =~= reports.drop_last());
    } else {
        record_without(reports.drop_last(), i, a, b);
        assert(reports.drop_last().remove(i) =~= reports.remove(i).drop_last());
        assert(reports.remove(i).last() == reports.last());
    }
}

/// The record depends on which fixtures were played, not on their order.
pub proof fn order_does_not_matter(x: Seq<MatchReport>, y: Seq<MatchReport>, a: int, b: int)
    requires
        x.to_multiset() == y.to_multiset(),
    ensures
        record_of(x, a, b) == record_of(y, a, b),
    decreases x.len(),
{
    broadcast use vstd::seq_lib::group_to_multiset_ensures;

    assert(x.to_multiset().len() == x.len());
    assert(y.to_multiset().len() == y.len());
    if x.len() > 0 {
        let r = x.last();
        assert(x.contains(r));
        assert(x.to_multiset().count(r) > 0);
        assert(y.contains(r));
        let i = choose|i: int| 0 <= i < y.len() && y[i] == r;
        let n = x.len() - 1;
        assert(x.remove(n) =~= x.drop_last());
        assert(x.drop_last().to_multiset() =~= x.to_multiset().remove(r));
        assert(y.remove(i).to_multiset() =~= y.to_multiset().remove(r));
        order_does_not_matter(x.drop_last(), y.remove(i), a, b);
        record_without(y, i, a, b);
    }
}

/// `half` gives the numbers of half points, and sums of up to so many games add up exactly.
pub open spec fn halves_add<P: Fn(Real64, Real64) -> Real64>(
    plus: P,
    half: spec_fn(int) -> Real64,
    games: int,
) -> bool {
    &&& half(0) == num(D0)
    &&& half(1) == num(D0_5)
    &&& half(2) == num(D1)
    &&& forall|a: int, b: int|
        0 <= a <= 2 * games && 0 <= b <= 2 ==> outcome(
            plus,
            #[trigger] half(a),
            #[trigger] half(b),
        ) == half(a + b)
    &&& forall|b: int|
        0 <= b <= 2 ==> outcome(plus, num(D1), (#[trigger] half(b)).negated()) == half(2 - b)
}

/// The tally of a pair holds its record: the score is what the half points come to.
pub proof fn tallies_hold_the_record<P: Fn(Real64, Real64) -> Real64>(
    plus: P,
    half: spec_fn(int) -> Real64,
    reports: Seq<MatchReport>,
    a: usize,
    b: usize,
)
    requires
        reports.len() < u32::MAX,
        halves_add(plus, half, reports.len() as int),
    ensures
        ({
            let t = tally_in(all_recorded(plus, reports), a, b);
            let record = record_of(reports, a as int, b as int);
            t.score == half(record.0) && t.games == record.1
        }),
    decreases reports.len(),
{
    games_are_counted(plus, reports, a, b);
    if reports.len() > 0 {
        let rest = reports.drop_last();
        let r = reports.last();
        tallies_hold_the_record(plus, half, rest, a, b);
        games_are_bounded(rest, a as int, b as int);
        let h = home_score(r);
        assert(0 <= h <= 2);
        assert(points(h) == half(h));
        scores_are_kept(h);
        assert(outcome(plus, num(D1), half(h).negated()) == half(2 - h));
        let before = record_of(rest, a as int, b as int).0;
        assert(outcome(plus, half(before), half(h)) == half(before + h));
        assert(outcome(plus, half(before), half(2 - h)) == half(before + (2 - h)));
    }
}

proof fn scores_are_kept(h: int)
    requires
        0 <= h <= 2,
    ensures
        clamped_to(points(h), num(D0), num(D1)) == points(h),
{
}

/// The payoffs depend on which fixtures were played, not on their order.
pub proof fn payoffs_do_not_depend_on_order<P: Fn(Real64, Real64) -> Real64>(
    plus: P,
    half: spec_fn(int) -> Real64,
    x: Seq<MatchReport>,
    y: Seq<MatchReport>,
)
    requires
        x.len() < u32::MAX,
        halves_add(plus, half, x.len() as int),
        x.to_multiset() == y.to_multiset(),
    ensures
        all_recorded(plus, x) == all_recorded(plus, y),
{
    broadcast use vstd::seq_lib::group_to_multiset_ensures;

    assert(x.to_multiset().len() == x.len());
    assert(y.to_multiset().len() == y.len());
    let m = all_recorded(plus, x);
    let n = all_recorded(plus, y);
    assert forall|k: (usize, usize)| #[trigger] m.contains_key(k) == n.contains_key(k) && (
    m.contains_key(k) ==> m[k] == n[k]) by {
        order_does_not_matter(x, y, k.0 as int, k.1 as int);
        games_are_counted(plus, x, k.0, k.1);
        games_are_counted(plus, y, k.0, k.1);
        tallies_hold_the_record(plus, half, x, k.0, k.1);
        tallies_hold_the_record(plus, half, y, k.0, k.1);
    }
    assert(m =~= n);
}

/// How many fixtures pair two sides.
pub open spec fn pairings(reports: Seq<MatchReport>, a: int, b: int) -> int
    decreases reports.len(),
{
    if reports.len() == 0 {
        0
    } else {
        let r = reports.last();
        pairings(reports.drop_last(), a, b) + if (r.home_id == a && r.away_id == b) || (r.home_id
            == b && r.away_id == a) {
            1int
        } else {
            0
        }
    }
}

proof fn records_count_pairings(reports: Seq<MatchReport>, a: int, b: int)
    requires
        a != b,
    ensures
        record_of(reports, a, b).1 == pairings(reports, a, b),
        record_of(reports, b, a).1 == pairings(reports, a, b),
    decreases reports.len(),
{
    if reports.len() > 0 {
        records_count_pairings(reports.drop_last(), a, b);
    }
}

/// The games of two sides are the fixtures that pair them, seen from either side, and a payoff is
/// known exactly where there is one.
pub proof fn games_are_pairings<
    P: Fn(Real64, Real64) -> Real64,
    Q: Fn(Real64, Real64) -> Real64,
    C: Fn(usize) -> Real64,
>(plus: P, over: Q, count: C, reports: Seq<MatchReport>, a: usize, b: usize)
    requires
        a != b,
        reports.len() < u32::MAX,
    ensures
        ({
            let pairs = all_recorded(plus, reports);
            let n = pairings(reports, a as int, b as int);
            &&& tally_in(pairs, a, b).games == n
            &&& tally_in(pairs, b, a).games == n
            &&& payoff_in(over, count, pairs, a, b) is None <==> n == 0
            &&& payoff_in(over, count, pairs, b, a) is None <==> n == 0
        }),
{
    games_are_counted(plus, reports, a, b);
    games_are_counted(plus, reports, b, a);
    records_count_pairings(reports, a as int, b as int);
}

/// Two sides share the points of their games: what one did not score, the other did.
#[verifier::spinoff_prover]
#[verifier::rlimit(60)]
pub proof fn tallies_share_the_points<P: Fn(Real64, Real64) -> Real64>(
    plus: P,
    half: spec_fn(int) -> Real64,
    reports: Seq<MatchReport>,
    a: usize,
    b: usize,
)
    requires
        a != b,
        reports.len() < u32::MAX,
        halves_add(plus, half, reports.len() as int),
    ensures
        ({
            let pairs = all_recorded(plus, reports);
            let scored = record_of(reports, a as int, b as int).0;
            let games = tally_in(pairs, a, b).games;
            &&& 0 <= scored <= 2 * games
            &&& tally_in(pairs, a, b).score == half(scored)
            &&& tally_in(pairs, b, a).score == half(2 * games - scored)
        }),
{
    tallies_hold_the_record(plus, half, reports, a, b);
    tallies_hold_the_record(plus, half, reports, b, a);
    records_mirror(reports, a as int, b as int);
    games_are_bounded(reports, a as int, b as int);
}

/// The rating that is reckoned with: the anchor where it is not finite.
pub open spec fn settled_rating(r: Real64) -> Real64 {
    if r.finite() {
        r
    } else {
        num(D1500)
    }
}

/// What the first of two rated sides is expected to score: by the logistic curve on a scale of
/// four hundred points. `power` raises ten to a power.
pub open spec fn expected_score<
    W: Fn(Real64) -> Real64,
    P: Fn(Real64, Real64) -> Real64,
    Q: Fn(Real64, Real64) -> Real64,
>(power: W, plus: P, over: Q, a: Real64, b: Real64) -> Real64 {
    let ahead = outcome(plus, settled_rating(b), settled_rating(a).negated());
    outcome(
        over,
        num(D1),
        outcome(plus, num(D1), image(power, outcome(over, ahead, num(D400)))),
    )
}

/// The arithmetic keeps expectations in bounds: sums and shares of what is finite are numbers,
/// powers are not negative, one and more is at least one, and one over that is at most one.
pub open spec fn keeps_expectations<
    W: Fn(Real64) -> Real64,
    P: Fn(Real64, Real64) -> Real64,
    Q: Fn(Real64, Real64) -> Real64,
>(power: W, plus: P, over: Q) -> bool {
    &&& forall|a: Real64, b: Real64|
        a.finite() && b.finite() ==> !(#[trigger] outcome(plus, a, b)).nan()
    &&& forall|x: Real64| !x.nan() ==> !(#[trigger] outcome(over, x, num(D400))).nan()
    &&& forall|x: Real64|
        !x.nan() ==> !(#[trigger] image(power, x)).nan() && image(power, x).key() >= 0
    &&& forall|x: Real64|
        !x.nan() && x.key() >= 0 ==> !(#[trigger] outcome(plus, num(D1), x)).nan() && outcome(
            plus,
            num(D1),
            x,
        ).key() >= num(D1).key()
    &&& forall|x: Real64|
        !x.nan() && x.key() >= num(D1).key() ==> !(#[trigger] outcome(over, num(D1), x)).nan()
            && 0 <= outcome(over, num(D1), x).key() <= num(D1).key()
}

/// Whatever the ratings, the expected score lies between 0 and 1.
pub proof fn expectations_are_shares<
    W: Fn(Real64) -> Real64,
    P: Fn(Real64, Real64) -> Real64,
    Q: Fn(Real64, Real64) -> Real64,
>(power: W, plus: P, over: Q, a: Real64, b: Real64)
    requires
        keeps_expectations(power, plus, over),
    ensures
        !expected_score(power, plus, over, a, b).nan(),
        0 <= expected_score(power, plus, over, a, b).key() <= num(D1).key(),
{
    let first = settled_rating(a);
    let second = settled_rating(b);
    assert(first.finite() && second.negated().finite() && first.negated().finite());
    assert(!outcome(plus, second, first.negated()).nan());
}

/// Computes what the first of two rated sides is expected to score.
pub fn elo_expected_score<
    W: Fn(Real64) -> Real64,
    P: Fn(Real64, Real64) -> Real64,
    Q: Fn(Real64, Real64) -> Real64,
>(rating_a: Real64, rating_b: Real64, power: &W, plus: &P, over: &Q) -> (r: Real64)
    requires
        is_function(*power),
        is_operation(*plus),
        is_operation(*over),
    ensures
        r == expected_score(*power, *plus, *over, rating_a, rating_b),
{
    let a: Real64 = if rating_a.is_finite() { rating_a } else { at_bits(D1500) };
    let b: Real64 = if rating_b.is_finite() { rating_b } else { at_bits(D1500) };
    let ahead: Real64 = apply(over, apply(plus, b, a.negate()), at_bits(D400));
    apply(over, at_bits(D1), apply(plus, at_bits(D1), map_number(power, ahead)))
}

/// By how much a result moves the ratings: the step times what the score is above the expected
/// one.
pub open spec fn rating_step<
    W: Fn(Real64) -> Real64,
    P: Fn(Real64, Real64) -> Real64,
    M: Fn(Real64, Real64) -> Real64,
    Q: Fn(Real64, Real64) -> Real64,
>(
    power: W,
    plus: P,
    times: M,
    over: Q,
    a: Real64,
    b: Real64,
    score: Real64,
    k: Real64,
) -> Real64 {
    outcome(
        times,
        k,
        outcome(
            plus,
            clamped_to(score, num(D0), num(D1)),
            expected_score(power, plus, over, a, b).negated(),
        ),
    )
}

/// Two ratings after a result: the first moves by the step, the second by the same against it.
pub open spec fn shifted<
    W: Fn(Real64) -> Real64,
    P: Fn(Real64, Real64) -> Real64,
    M: Fn(Real64, Real64) -> Real64,
    Q: Fn(Real64, Real64) -> Real64,
>(
    power: W,
    plus: P,
    times: M,
    over: Q,
    a: Real64,
    b: Real64,
    score: Real64,
    k: Real64,
) -> (Real64, Real64) {
    let delta = rating_step(power, plus, times, over, a, b, score, k);
    (outcome(plus, a, delta), outcome(plus, b, delta.negated()))
}

/// A rating of one side.
#[derive(Clone, Copy, Debug)]
pub struct Rating {
    pub id: usize,
    pub rating: Real64,
}

/// The rating in a map, the anchor where there is none.
pub open spec fn rating_in(ratings: Map<usize, Real64>, id: usize) -> Real64 {
    if ratings.contains_key(id) {
        ratings[id]
    } else {
        Real64 { bits: D1500 }
    }
}

/// The ratings after a result between two sides.
pub open spec fn updated<
    W: Fn(Real64) -> Real64,
    P: Fn(Real64, Real64) -> Real64,
    M: Fn(Real64, Real64) -> Real64,
    Q: Fn(Real64, Real64) -> Real64,
>(
    power: W,
    plus: P,
    times: M,
    over: Q,
    k: Real64,
    ratings: Map<usize, Real64>,
    a: usize,
    b: usize,
    score: Real64,
) -> Map<usize, Real64> {
    if a == b {
        ratings
    } else {
        let r = shifted(
            power,
            plus,
            times,
            over,
            rating_in(ratings, a),
            rating_in(ratings, b),
            score,
            k,
        );
        ratings.insert(a, r.0).insert(b, r.1)
    }
}

/// The ratings after a list of fixtures, taken in order.
pub open spec fn folded<
    W: Fn(Real64) -> Real64,
    P: Fn(Real64, Real64) -> Real64,
    M: Fn(Real64, Real64) -> Real64,
    Q: Fn(Real64, Real64) -> Real64,
>(
    power: W,
    plus: P,
    times: M,
    over: Q,
    k: Real64,
    ratings: Map<usize, Real64>,
    reports: Seq<MatchReport>,
) -> Map<usize, Real64>
    decreases reports.len(),
{
    if reports.len() == 0 {
        ratings
    } else {
        let r = reports.last();
        updated(
            power,
            plus,
            times,
            over,
            k,
            folded(power, plus, times, over, k, ratings, reports.drop_last()),
            r.home_id,
            r.away_id,
            points(home_score(r)),
        )
    }
}

/// The ratings after sweeping the list several times, from nothing.
pub open spec fn swept<
    W: Fn(Real64) -> Real64,
    P: Fn(Real64, Real64) -> Real64,
    M: Fn(Real64, Real64) -> Real64,
    Q: Fn(Real64, Real64) -> Real64,
>(
    power: W,
    plus: P,
    times: M,
    over: Q,
    k: Real64,
    reports: Seq<MatchReport>,
    passes: int,
) -> Map<usize, Real64>
    decreases passes,
{
    if passes <= 0 {
        Map::empty()
    } else {
        folded(
            power,
            plus,
            times,
            over,
            k,
            swept(power, plus, times, over, k, reports, passes - 1),
            reports,
        )
    }
}

/// The step size: the one asked for where it is a positive number, else the usual one.
pub open spec fn step_size(k: Real64) -> Real64 {
    if k.finite() && (Real64 { bits: D0 }).less(k) {
        k
    } else {
        Real64 { bits: D24 }
    }
}

/// The ratings of a map, one by one.
fn listed(ratings: &BTreeMap<usize, Real64>) -> (r: Vec<Rating>)
    ensures
        forall|i: int, j: int|
            0 <= i < j < r@.len() ==> (#[trigger] r@[i]).id != (#[trigger] r@[j]).id,
        forall|i: int|
            0 <= i < r@.len() ==> ratings@.contains_key((#[trigger] r@[i]).id)
                && ratings@[r@[i].id] == r@[i].rating,
        forall|id: usize| #[trigger]
            ratings@.contains_key(id) ==> exists|i: int|
                0 <= i < r@.len() && (#[trigger] r@[i]).id == id,
{
    let mut r: Vec<Rating> = Vec::new();
    let walk = ratings.iter();
    let ghost all = walk.remaining();
    for e in it: walk
        invariant
            it.seq() == all,
            r@.len() == it.index(),
            forall|i: int|
                0 <= i < r@.len() ==> (#[trigger] r@[i]).id == *all[i].0 && r@[i].rating
                    == *all[i].1,
    {
        r.push(Rating { id: *e.0, rating: *e.1 });
    }
    proof {
        assert forall|i: int| 0 <= i < r@.len() implies ratings@.contains_key(
            (#[trigger] r@[i]).id,
        ) && ratings@[r@[i].id] == r@[i].rating by {
            assert(ratings@.contains_key(*all[i].0));
        }
        assert forall|i: int, j: int| 0 <= i < j < r@.len() implies (#[trigger] r@[i]).id != (
        #[trigger] r@[j]).id by {
            assert(all[i] != all[j]);
            assert(ratings@[*all[i].0] == *all[i].1);
            assert(ratings@[*all[j].0] == *all[j].1);
        }
        assert forall|id: usize| #[trigger] ratings@.contains_key(id) implies exists|i: int|
            0 <= i < r@.len() && (#[trigger] r@[i]).id == id by {
            assert(all.contains((&id, &ratings@[id])));
            let i = choose|i: int| 0 <= i < all.len() && all[i] == (&id, &ratings@[id]);
            assert(r@[i].id == id);
        }
    }
    r
}

/// Ratings of sides, folded from results.
#[derive(Debug)]
pub struct EloRatings {
    pub ratings: BTreeMap<usize, Real64>,
    pub k: Real64,
}

impl Default for EloRatings {
    fn default() -> (r: Self)
        ensures
            r@ == Map::<usize, Real64>::empty(),
            r.k == (Real64 { bits: D24 }),
    {
        EloRatings::new(Real64 { bits: D24 })
    }
}

impl View for EloRatings {
    type V = Map<usize, Real64>;

    /// The ratings as a map.
    open spec fn view(&self) -> Map<usize, Real64> {
        self.ratings@
    }
}

impl EloRatings {
    pub fn new(k: Real64) -> (r: Self)
        ensures
            r@ == Map::<usize, Real64>::empty(),
            r.k == step_size(k),
    {
        let step: Real64 = if k.is_finite() && (Real64 { bits: D0 }).is_below(k) {
            k
        } else {
            Real64 { bits: D24 }
        };
        EloRatings { ratings: BTreeMap::new(), k: step }
    }

    /// The rating of a side, the anchor where it has never played.
    pub fn rating(&self, id: usize) -> (r: Real64)
        ensures
            r == rating_in(self@, id),
    {
        match self.ratings.get(&id) {
            Some(r) => *r,
            None => Real64 { bits: D1500 },
        }
    }

    /// Applies one result. `score_a` is what `id_a` scored, kept between 0 for a loss and 1 for a
    /// win; a side does not play itself.
    pub fn update<
        W: Fn(Real64) -> Real64,
        P: Fn(Real64, Real64) -> Real64,
        M: Fn(Real64, Real64) -> Real64,
        Q: Fn(Real64, Real64) -> Real64,
    >(
        &mut self,
        id_a: usize,
        id_b: usize,
        score_a: Real64,
        power: &W,
        plus: &P,
        times: &M,
        over: &Q,
    )
        requires
            is_function(*power),
            is_operation(*over),
            is_operation(*plus),
            is_operation(*times),
        ensures
            final(self).k == old(self).k,
            final(self)@ == updated(
                *power,
                *plus,
                *times,
                *over,
                old(self).k,
                old(self)@,
                id_a,
                id_b,
                score_a,
            ),
    {
        if id_a == id_b {
            return;
        }
        let ra: Real64 = self.rating(id_a);
        let rb: Real64 = self.rating(id_b);
        let k: Real64 = self.k;
        let score: Real64 = clamp_to(score_a, at_bits(D0), at_bits(D1));
        let expected: Real64 = elo_expected_score(ra, rb, power, plus, over);
        let delta: Real64 = apply(times, k, apply(plus, score, expected.negate()));
        let next_a: Real64 = apply(plus, ra, delta);
        let next_b: Real64 = apply(plus, rb, delta.negate());
        self.ratings.insert(id_a, next_a);
        self.ratings.insert(id_b, next_b);
    }

    /// Folds a list of fixtures, swept at least once.
    pub fn from_match_reports<
        W: Fn(Real64) -> Real64,
        P: Fn(Real64, Real64) -> Real64,
        M: Fn(Real64, Real64) -> Real64,
        Q: Fn(Real64, Real64) -> Real64,
    >(
        reports: &Vec<MatchReport>,
        k: Real64,
        passes: usize,
        power: &W,
        plus: &P,
        times: &M,
        over: &Q,
    ) -> (r: Self)
        requires
            is_function(*power),
            is_operation(*over),
            is_operation(*plus),
            is_operation(*times),
        ensures
            r.k == step_size(k),
            r@ == swept(
                *power,
                *plus,
                *times,
                *over,
                step_size(k),
                reports@,
                if passes < 1 {
                    1
                } else {
                    passes as int
                },
            ),
    {
        let mut ratings: EloRatings = EloRatings::new(k);
        let sweeps: usize = if passes < 1 { 1 } else { passes };
        let mut n: usize = 0;
        while n < sweeps
            invariant
                n <= sweeps,
                is_function(*power),
                is_operation(*over),
                is_operation(*plus),
                is_operation(*times),
                ratings.k == step_size(k),
                ratings@ == swept(*power, *plus, *times, *over, step_size(k), reports@, n as int),
            decreases sweeps - n,
        {
            let ghost start = ratings@;
            let mut i: usize = 0;
            assert(reports@.take(0) =~= Seq::<MatchReport>::empty());
            while i < reports.len()
                invariant
                    i <= reports@.len(),
                    is_function(*power),
                    is_operation(*over),
                    is_operation(*plus),
                    is_operation(*times),
                        ratings.k == step_size(k),
                    ratings@ == folded(
                        *power,
                        *plus,
                        *times,
                        *over,
                        step_size(k),
                        start,
                        reports@.take(i as int),
                    ),
                decreases reports@.len() - i,
            {
                let r: MatchReport = reports[i];
                let score: Real64 = home_score_of(&r);
                ratings.update(r.home_id, r.away_id, score, power, plus, times, over);
                proof {
                    assert(reports@.take(i + 1).drop_last() =~= reports@.take(i as int));
                    assert(reports@.take(i + 1).last() == r);
                }
                i += 1;
            }
            assert(reports@.take(reports@.len() as int) =~= reports@);
            n += 1;
        }
        ratings
    }

    /// The sides best first; of equally rated ones the smaller id comes first.
    pub fn ranked(&self) -> (r: Vec<Rating>)
        ensures
            forall|i: int, j: int|
                0 <= i < j < r@.len() ==> outranks(#[trigger] r@[i], #[trigger] r@[j]),
            forall|i: int|
                0 <= i < r@.len() ==> self@.contains_key((#[trigger] r@[i]).id)
                    && self@[r@[i].id] == r@[i].rating,
            forall|id: usize| #[trigger]
                self@.contains_key(id) ==> exists|i: int|
                    0 <= i < r@.len() && (#[trigger] r@[i]).id == id,
    {
        let rated: Vec<Rating> = listed(&self.ratings);
        let mut keys: Vec<Option<i128>> = Vec::new();
        let mut i: usize = 0;
        while i < rated.len()
            invariant
                i <= rated@.len(),
                keys@.len() == i,
                forall|j: int|
                    0 <= j < i ==> #[trigger] keys@[j] == Some(
                        (-rated@[j].rating.key() * 0x1_0000_0000_0000_0000
                            + rated@[j].id) as i128,
                    ),
            decreases rated@.len() - i,
        {
            let key: i128 = rated[i].rating.order_key() as i128;
            keys.push(Some(-key * 0x1_0000_0000_0000_0000 + rated[i].id as i128));
            i += 1;
        }
        let order: Vec<usize> = ranking(&keys);
        let mut r: Vec<Rating> = Vec::new();
        let mut k: usize = 0;
        while k < order.len()
            invariant
                k <= order@.len(),
                keys@.len() == rated@.len(),
                is_ranking(keys@, order@),
                r@.len() == k,
                forall|j: int| 0 <= j < k ==> #[trigger] r@[j] == rated@[order@[j] as int],
            decreases order@.len() - k,
        {
            r.push(rated[order[k]]);
            k += 1;
        }
        proof {
            assert forall|i: int, j: int| 0 <= i < j < r@.len() implies outranks(
                #[trigger] r@[i],
                #[trigger] r@[j],
            ) by {
                let a = order@[i] as int;
                let b = order@[j] as int;
                assert(precedes(keys@, a, b));
                if a < b {
                    assert(rated@[a].id != rated@[b].id);
                } else if b < a {
                    assert(rated@[b].id != rated@[a].id);
                }
            }
            assert forall|id: usize| #[trigger] self@.contains_key(id) implies exists|i: int|
                0 <= i < r@.len() && (#[trigger] r@[i]).id == id by {
                let p = choose|p: int|
                    0 <= p < rated@.len() && (#[trigger] rated@[p]).id == id;
                assert(keys@[p] is Some);
                assert(order@.contains(p as usize));
                let i = choose|i: int| 0 <= i < order@.len() && order@[i] == p as usize;
                assert(r@[i].id == id);
            }
        }
        r
    }

    /// The best rated side, nothing where nobody has played.
    pub fn leader(&self) -> (r: Option<usize>)
        ensures
            r is Some <==> exists|id: usize| #[trigger] self@.contains_key(id),
            r is Some ==> self@.contains_key(r->0),
            r is Some ==> forall|id: usize|
                self@.contains_key(id) && id != r->0 ==> outranks(
                    Rating { id: r->0, rating: self@[r->0] },
                    Rating { id, rating: #[trigger] self@[id] },
                ),
    {
        let ranked: Vec<Rating> = self.ranked();
        if ranked.len() == 0 {
            assert forall|id: usize| !#[trigger] self@.contains_key(id) by {
                if self@.contains_key(id) {
                    let i = choose|i: int| 0 <= i < ranked@.len() && (#[trigger] ranked@[i]).id
                        == id;
                }
            }
            return None;
        }
        assert(self@.contains_key(ranked@[0].id));
        proof {
            let top = ranked@[0];
            assert forall|id: usize| self@.contains_key(id) && id != top.id implies outranks(
                Rating { id: top.id, rating: self@[top.id] },
                Rating { id, rating: #[trigger] self@[id] },
            ) by {
                let i = choose|i: int| 0 <= i < ranked@.len() && (#[trigger] ranked@[i]).id == id;
                assert(outranks(ranked@[0], ranked@[i]));
                assert(self@[ranked@[i].id] == ranked@[i].rating);
            }
        }
        Some(ranked[0].id)
    }
}

/// The first of two rated sides comes before the second.
pub open spec fn outranks(a: Rating, b: Rating) -> bool {
    a.rating.key() > b.rating.key() || (a.rating.key() == b.rating.key() && a.id < b.id)
}

/// A result moves the ratings of its two sides and of nobody else.
pub proof fn results_move_two_ratings<
    W: Fn(Real64) -> Real64,
    P: Fn(Real64, Real64) -> Real64,
    M: Fn(Real64, Real64) -> Real64,
    Q: Fn(Real64, Real64) -> Real64,
>(
    power: W,
    plus: P,
    times: M,
    over: Q,
    k: Real64,
    ratings: Map<usize, Real64>,
    a: usize,
    b: usize,
    score: Real64,
    other: usize,
)
    requires
        other != a,
        other != b,
    ensures
        rating_in(updated(power, plus, times, over, k, ratings, a, b, score), other) == rating_in(
            ratings,
            other,
        ),
{
}

/// Results are zero-sum: what one side's rating gains is what the other's loses.
pub proof fn results_are_zero_sum<
    W: Fn(Real64) -> Real64,
    P: Fn(Real64, Real64) -> Real64,
    M: Fn(Real64, Real64) -> Real64,
    Q: Fn(Real64, Real64) -> Real64,
>(
    power: W,
    plus: P,
    times: M,
    over: Q,
    k: Real64,
    ratings: Map<usize, Real64>,
    a: usize,
    b: usize,
    score: Real64,
)
    requires
        a != b,
    ensures
        ({
            let ra = rating_in(ratings, a);
            let rb = rating_in(ratings, b);
            let gain = rating_step(power, plus, times, over, ra, rb, score, k);
            let after = updated(power, plus, times, over, k, ratings, a, b, score);
            &&& rating_in(after, a) == outcome(plus, ra, gain)
            &&& rating_in(after, b) == outcome(plus, rb, gain.negated())
        }),
{
}

/// The arithmetic keeps the order of ratings: sums and products by finite numbers keep order, so
/// do powers and shares of four hundred, one over more is no more, and what is taken from itself
/// leaves nothing.
pub open spec fn keeps_rating_order<
    W: Fn(Real64) -> Real64,
    P: Fn(Real64, Real64) -> Real64,
    M: Fn(Real64, Real64) -> Real64,
    Q: Fn(Real64, Real64) -> Real64,
>(power: W, plus: P, times: M, over: Q) -> bool {
    &&& sums_keep_order(plus)
    &&& differences_tell_order(plus)
    &&& products_keep_order(times)
    &&& keeps_expectations(power, plus, over)
    &&& forall|x: Real64, y: Real64|
        !x.nan() && !y.nan() && x.key() <= y.key() ==> (#[trigger] outcome(
            over,
            x,
            num(D400),
        )).key() <= (#[trigger] outcome(over, y, num(D400))).key()
    &&& forall|x: Real64, y: Real64|
        !x.nan() && !y.nan() && x.key() <= y.key() ==> (#[trigger] image(power, x)).key() <= (
        #[trigger] image(power, y)).key()
    &&& forall|x: Real64, y: Real64|
        !x.nan() && !y.nan() && num(D1).key() <= x.key() <= y.key() ==> (#[trigger] outcome(
            over,
            num(D1),
            y,
        )).key() <= (#[trigger] outcome(over, num(D1), x)).key()
}

/// The higher a side is rated the more it is expected to score, and the higher its opponent is
/// rated the less.
pub proof fn higher_rated_sides_are_expected_to_score_more<
    W: Fn(Real64) -> Real64,
    P: Fn(Real64, Real64) -> Real64,
    M: Fn(Real64, Real64) -> Real64,
    Q: Fn(Real64, Real64) -> Real64,
>(power: W, plus: P, times: M, over: Q, low: Real64, high: Real64, other: Real64)
    requires
        keeps_rating_order(power, plus, times, over),
        low.finite(),
        high.finite(),
        other.finite(),
        low.key() <= high.key(),
    ensures
        expected_score(power, plus, over, low, other).key() <= expected_score(
            power,
            plus,
            over,
            high,
            other,
        ).key(),
        expected_score(power, plus, over, other, high).key() <= expected_score(
            power,
            plus,
            over,
            other,
            low,
        ).key(),
{
    negation_mirrors(low);
    negation_mirrors(high);
    negation_mirrors(other);
    leads_decide(
        power,
        plus,
        times,
        over,
        outcome(plus, other, high.negated()),
        outcome(plus, other, low.negated()),
    );
    leads_decide(
        power,
        plus,
        times,
        over,
        outcome(plus, low, other.negated()),
        outcome(plus, high, other.negated()),
    );
}

/// The further behind, the less is expected.
proof fn leads_decide<
    W: Fn(Real64) -> Real64,
    P: Fn(Real64, Real64) -> Real64,
    M: Fn(Real64, Real64) -> Real64,
    Q: Fn(Real64, Real64) -> Real64,
>(power: W, plus: P, times: M, over: Q, x: Real64, y: Real64)
    requires
        keeps_rating_order(power, plus, times, over),
        !x.nan(),
        !y.nan(),
        x.key() <= y.key(),
    ensures
        outcome(
            over,
            num(D1),
            outcome(plus, num(D1), image(power, outcome(over, y, num(D400)))),
        ).key() <= outcome(
            over,
            num(D1),
            outcome(plus, num(D1), image(power, outcome(over, x, num(D400)))),
        ).key(),
{
    let a = image(power, outcome(over, x, num(D400)));
    let b = image(power, outcome(over, y, num(D400)));
    assert(a.key() <= b.key());
    assert(outcome(plus, num(D1), a).key() <= outcome(plus, num(D1), b).key());
}

/// A favourite gains no more from a result than an underdog: of two sides that score the same
/// against the same opponent, the higher rated one moves up by no more.
pub proof fn favourites_gain_no_more<
    W: Fn(Real64) -> Real64,
    P: Fn(Real64, Real64) -> Real64,
    M: Fn(Real64, Real64) -> Real64,
    Q: Fn(Real64, Real64) -> Real64,
>(
    power: W,
    plus: P,
    times: M,
    over: Q,
    low: Real64,
    high: Real64,
    other: Real64,
    score: Real64,
    k: Real64,
)
    requires
        keeps_rating_order(power, plus, times, over),
        low.finite(),
        high.finite(),
        other.finite(),
        low.key() <= high.key(),
        !score.nan(),
        k.finite(),
        k.key() > 0,
    ensures
        rating_step(power, plus, times, over, high, other, score, k).key() <= rating_step(
            power,
            plus,
            times,
            over,
            low,
            other,
            score,
            k,
        ).key(),
{
    higher_rated_sides_are_expected_to_score_more(power, plus, times, over, low, high, other);
    expectations_are_shares(power, plus, over, low, other);
    expectations_are_shares(power, plus, over, high, other);
    let e = expected_score(power, plus, over, low, other);
    let f = expected_score(power, plus, over, high, other);
    negation_mirrors(e);
    negation_mirrors(f);
    let s = clamped_to(score, num(D0), num(D1));
    assert(s.finite());
    let x = outcome(plus, s, f.negated());
    let y = outcome(plus, s, e.negated());
    assert(x.key() <= y.key());
    assert(can_multiply(k, x) && can_multiply(k, y));
}

/// A side that scores what it is expected to against its opponent keeps its rating, and so does
/// the opponent. A side that scores more does not fall, and one that scores less does not rise.
pub proof fn expected_scores_move_nothing<
    W: Fn(Real64) -> Real64,
    P: Fn(Real64, Real64) -> Real64,
    M: Fn(Real64, Real64) -> Real64,
    Q: Fn(Real64, Real64) -> Real64,
>(
    power: W,
    plus: P,
    times: M,
    over: Q,
    a: Real64,
    b: Real64,
    score: Real64,
    k: Real64,
)
    requires
        keeps_rating_order(power, plus, times, over),
        a.finite(),
        b.finite(),
        k.finite(),
        k.key() > 0,
        score.finite(),
        0 <= score.key() <= num(D1).key(),
    ensures
        ({
            let due = expected_score(power, plus, over, a, b);
            let after = shifted(power, plus, times, over, a, b, score, k);
            &&& score.key() == due.key() ==> after.0.key() == a.key() && after.1.key() == b.key()
            &&& score.key() >= due.key() ==> after.0.key() >= a.key() && after.1.key() <= b.key()
            &&& score.key() <= due.key() ==> after.0.key() <= a.key() && after.1.key() >= b.key()
        }),
{
    let due = expected_score(power, plus, over, a, b);
    expectations_are_shares(power, plus, over, a, b);
    assert(due.finite());
    assert(clamped_to(score, num(D0), num(D1)) == score);
    let ahead = outcome(plus, score, due.negated());
    assert(can_multiply(k, ahead) && can_multiply(k, num(0)));
    assert(outcome(times, k, num(0)).key() == 0);
    let step = rating_step(power, plus, times, over, a, b, score, k);
    negation_mirrors(step);
    sums_move_with_signs(plus, a, step);
    sums_move_with_signs(plus, b, step.negated());
}

/// `raised` gives the powers of ten, and the arithmetic reads them.
pub open spec fn reads_powers<W: Fn(Real64) -> Real64>(
    means: spec_fn(Real64, real) -> bool,
    power: W,
    raised: spec_fn(real) -> real,
) -> bool {
    &&& forall|x: real| #[trigger] raised(x) > 0real
    &&& forall|x: real| raised(x) * #[trigger] raised(-x) == 1real
    &&& forall|a: Real64, x: real|
        #![trigger image(power, a), means(a, x)]
        means(a, x) ==> means(image(power, a), raised(x))
}

/// What a side is expected to score: the odds of the two sides are as ten to the four hundredth
/// part of what one is rated above the other, and both expectations together are one.
pub proof fn odds_follow_the_ratings<
    W: Fn(Real64) -> Real64,
    P: Fn(Real64, Real64) -> Real64,
    M: Fn(Real64, Real64) -> Real64,
    Q: Fn(Real64, Real64) -> Real64,
>(
    means: spec_fn(Real64, real) -> bool,
    power: W,
    plus: P,
    times: M,
    over: Q,
    raised: spec_fn(real) -> real,
    rating_a: Real64,
    rating_b: Real64,
    a: real,
    b: real,
) -> (shares: (real, real))
    requires
        is_faithful(means, plus, times),
        reads_quotients(means, over),
        reads_powers(means, power, raised),
        rating_a.finite(),
        rating_b.finite(),
        means(rating_a, a),
        means(rating_b, b),
    ensures
        means(expected_score(power, plus, over, rating_a, rating_b), shares.0),
        means(expected_score(power, plus, over, rating_b, rating_a), shares.1),
        shares.0 > 0real,
        shares.1 > 0real,
        shares.0 + shares.1 == 1real,
        shares.0 == raised((a - b) / 400real) * shares.1,
{
    decimals_are_read(means);
    let x = (b - a) / 400real;
    let y = (a - b) / 400real;
    assert(y == -x) by (nonlinear_arith)
        requires
            x == (b - a) / 400real,
            y == (a - b) / 400real,
    ;
    let f = raised(x);
    let g = raised(y);
    assert(f * g == 1real);
    let e = 1real / (1real + f);
    let d = 1real / (1real + g);
    let ahead = outcome(plus, rating_b, rating_a.negated());
    assert(b + -a == b - a && a + -b == a - b);
    assert(means(ahead, b - a));
    assert(means(outcome(over, ahead, num(D400)), x));
    assert(means(expected_score(power, plus, over, rating_a, rating_b), e));
    let behind = outcome(plus, rating_a, rating_b.negated());
    assert(means(behind, a - b));
    assert(means(outcome(over, behind, num(D400)), y));
    assert(means(expected_score(power, plus, over, rating_b, rating_a), d));
    quotient(1real, 1real + f);
    quotient(1real, 1real + g);
    assert(e * (1real + f) == 1real && d * (1real + g) == 1real);
    // e = g d, since both times (1 + f) (1 + g) are 1 + g = g (1 + f).
    assert((g * d) * (1real + f) == g * d + d * (f * g)) by (nonlinear_arith);
    assert(d * (1real + g) == d + g * d) by (nonlinear_arith);
    assert(d * (f * g) == d) by (nonlinear_arith)
        requires
            f * g == 1real,
    ;
    cancel(e, g * d, 1real + f);
    assert(e > 0real) by (nonlinear_arith)
        requires
            e * (1real + f) == 1real,
            f > 0real,
    ;
    assert(d > 0real) by (nonlinear_arith)
        requires
            d * (1real + g) == 1real,
            g > 0real,
    ;
    (e, d)
}

/// A result moves the first side by the step times what its score is above its expectation, and
/// the second by as much against it, so that both ratings keep their sum.
pub proof fn ratings_move_by_the_surplus<
    W: Fn(Real64) -> Real64,
    P: Fn(Real64, Real64) -> Real64,
    M: Fn(Real64, Real64) -> Real64,
    Q: Fn(Real64, Real64) -> Real64,
>(
    means: spec_fn(Real64, real) -> bool,
    power: W,
    plus: P,
    times: M,
    over: Q,
    rating_a: Real64,
    rating_b: Real64,
    score: Real64,
    k: Real64,
    a: real,
    b: real,
    s: real,
    e: real,
    step: real,
)
    requires
        is_faithful(means, plus, times),
        means(rating_a, a),
        means(rating_b, b),
        means(score, s),
        score.finite(),
        0 <= score.key() <= num(D1).key(),
        means(k, step),
        means(expected_score(power, plus, over, rating_a, rating_b), e),
    ensures
        ({
            let after = shifted(power, plus, times, over, rating_a, rating_b, score, k);
            &&& means(after.0, a + step * (s - e))
            &&& means(after.1, b - step * (s - e))
        }),
{
    decimals_are_read(means);
    assert(clamped_to(score, num(D0), num(D1)) == score);
    assert(s + -e == s - e);
    assert(b + -(step * (s - e)) == b - step * (s - e));
}

/// Goals decide: one more never costs points, the side with more goals has both half points, and of
/// a level game the winner of the shootout.
pub proof fn more_goals_score_more(
    scored: int,
    conceded: int,
    won_shootout: Option<bool>,
)
    ensures
        half_points(scored, conceded, won_shootout) <= half_points(
            scored + 1,
            conceded,
            won_shootout,
        ),
        half_points(scored, conceded, won_shootout) >= half_points(
            scored,
            conceded + 1,
            won_shootout,
        ),
        scored != conceded ==> (half_points(scored, conceded, won_shootout) > half_points(
            conceded,
            scored,
            won_shootout,
        ) <==> scored > conceded),
        half_points(scored, scored, Some(true)) > half_points(scored, scored, None),
        half_points(scored, scored, None) > half_points(scored, scored, Some(false)),
{
}

/// The payoff of one side against another: what it scored against it, per game.
pub proof fn payoffs_are_points_per_game<
    Q: Fn(Real64, Real64) -> Real64,
    C: Fn(usize) -> Real64,
>(
    means: spec_fn(Real64, real) -> bool,
    over: Q,
    count: C,
    pairs: Map<(usize, usize), PairTally>,
    a: usize,
    b: usize,
    scored: real,
)
    requires
        reads_signs(means),
        reads_order(means),
        reads_decimals(means),
        reads_quotients(means, over),
        reads_counts(means, count),
        means(tally_in(pairs, a, b).score, scored),
    ensures
        payoff_in(over, count, pairs, a, b) is Some <==> tally_in(pairs, a, b).games > 0,
        payoff_in(over, count, pairs, a, b) is Some ==> means(
            payoff_in(over, count, pairs, a, b)->0,
            scored / (tally_in(pairs, a, b).games as int as real),
        ),
{
    decimals_are_read(means);
    let n = tally_in(pairs, a, b).games;
    if n > 0 {
        assert(means(number_of(count, n as usize), n as int as real));
    }
}

} // verus!
