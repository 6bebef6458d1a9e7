//! The affinities of the sample problem, from a stream of draws.
use crate::decimals::{
    D0, D0_05, D0_1, D0_15, D0_2, D0_25, D0_3, D0_35, D0_5, D0_55, D0_7, D0_85, D0_95, D1, D1_05,
    D2,
};
use crate::meaning::{
    decimals_are_read, is_faithful, least, most, reads_counts, reads_function, reads_quotients,
};
use crate::number::{
    apply, at_bits, image, is_conversion, is_counting, is_function, is_operation, larger, larger_of,
    map_number, num, number_of, outcome, smaller, smaller_of, steps_of, to_number, Real64,
};
use crate::rotation::problem::SoccerProblem;
use crate::rotation::simulate::{
    assemble_sample_problem, is_sample, sample_size, AffinityBuilderOptions,
};
use vstd::prelude::*;

verus! {

/// How a player's form changes over a match.
#[derive(Clone, Copy, Debug, PartialEq, Eq, Structural)]
pub enum StaminaProfile {
    Starter,
    Closer,
    Iron,
}

/// What is drawn for a player: the positions the player is used to, the profile and the fitness.
#[derive(Clone, Copy, Debug, PartialEq, Eq, Structural)]
pub struct PlayerTraits {
    pub natural: usize,
    pub second: usize,
    pub third: usize,
    pub profile: StaminaProfile,
    pub fitness: Real64,
}

impl PlayerTraits {
    /// The player is used to the position, as a natural or a secondary one.
    pub open spec fn knows(self, pos: int) -> bool {
        self.natural == pos || self.second == pos || self.third == pos
    }
}

/// A start and a part of a draw.
pub open spec fn drawn_from<
    P: Fn(Real64, Real64) -> Real64,
    M: Fn(Real64, Real64) -> Real64,
    G: Fn(usize) -> Real64,
>(plus: P, times: M, draw: G, start: u64, part: u64, k: int) -> Real64 {
    outcome(plus, num(start), outcome(times, num(part), number_of(draw, k as usize)))
}

fn draw_from<
    P: Fn(Real64, Real64) -> Real64,
    M: Fn(Real64, Real64) -> Real64,
    G: Fn(usize) -> Real64,
>(start: u64, part: u64, k: usize, plus: &P, times: &M, draw: &G) -> (r: Real64)
    requires
        is_operation(*plus),
        is_operation(*times),
        is_conversion(*draw),
    ensures
        r == drawn_from(*plus, *times, *draw, start, part, k as int),
{
    apply(plus, at_bits(start), apply(times, at_bits(part), to_number(draw, k)))
}

/// A position drawn from all positions.
pub open spec fn drawn_position<
    M: Fn(Real64, Real64) -> Real64,
    C: Fn(usize) -> Real64,
    G: Fn(usize) -> Real64,
    F: Fn(Real64) -> usize,
>(times: M, count: C, draw: G, floor: F, num_positions: usize, k: int) -> usize {
    steps_of(floor, outcome(times, number_of(draw, k as usize), number_of(count, num_positions)))
}

fn draw_position<
    M: Fn(Real64, Real64) -> Real64,
    C: Fn(usize) -> Real64,
    G: Fn(usize) -> Real64,
    F: Fn(Real64) -> usize,
>(num_positions: usize, k: usize, times: &M, count: &C, draw: &G, floor: &F) -> (r: usize)
    requires
        is_operation(*times),
        is_conversion(*count),
        is_conversion(*draw),
        is_counting(*floor),
    ensures
        r == drawn_position(*times, *count, *draw, *floor, num_positions, k as int),
{
    let x: Real64 = apply(times, to_number(draw, k), to_number(count, num_positions));
    let r: usize = floor(x);
    assert(call_ensures(*floor, (x,), r));
    r
}

/// The profile that a draw stands for.
pub open spec fn profile_of(x: Real64) -> StaminaProfile {
    if x.less(num(D0_35)) {
        StaminaProfile::Starter
    } else if x.less(num(D0_7)) {
        StaminaProfile::Closer
    } else {
        StaminaProfile::Iron
    }
}

/// The traits of a player: five draws, one after the other.
pub open spec fn traits_of<
    P: Fn(Real64, Real64) -> Real64,
    M: Fn(Real64, Real64) -> Real64,
    C: Fn(usize) -> Real64,
    G: Fn(usize) -> Real64,
    F: Fn(Real64) -> usize,
>(plus: P, times: M, count: C, draw: G, floor: F, num_positions: usize, p: int) -> PlayerTraits {
    PlayerTraits {
        natural: drawn_position(times, count, draw, floor, num_positions, 5 * p),
        second: drawn_position(times, count, draw, floor, num_positions, 5 * p + 1),
        third: drawn_position(times, count, draw, floor, num_positions, 5 * p + 2),
        profile: profile_of(number_of(draw, (5 * p + 3) as usize)),
        fitness: drawn_from(plus, times, draw, D0_7, D0_3, 5 * p + 4),
    }
}

fn draw_traits<
    P: Fn(Real64, Real64) -> Real64,
    M: Fn(Real64, Real64) -> Real64,
    C: Fn(usize) -> Real64,
    G: Fn(usize) -> Real64,
    F: Fn(Real64) -> usize,
>(
    num_positions: usize,
    p: usize,
    plus: &P,
    times: &M,
    count: &C,
    draw: &G,
    floor: &F,
) -> (r: PlayerTraits)
    requires
        5 * p + 4 <= usize::MAX,
        is_operation(*plus),
        is_operation(*times),
        is_conversion(*count),
        is_conversion(*draw),
        is_counting(*floor),
    ensures
        r == traits_of(*plus, *times, *count, *draw, *floor, num_positions, p as int),
{
    let k: usize = 5 * p;
    let x: Real64 = to_number(draw, k + 3);
    PlayerTraits {
        natural: draw_position(num_positions, k, times, count, draw, floor),
        second: draw_position(num_positions, k + 1, times, count, draw, floor),
        third: draw_position(num_positions, k + 2, times, count, draw, floor),
        profile: if x.is_below(at_bits(D0_35)) {
            StaminaProfile::Starter
        } else if x.is_below(at_bits(D0_7)) {
            StaminaProfile::Closer
        } else {
            StaminaProfile::Iron
        },
        fitness: draw_from(D0_7, D0_3, k + 4, plus, times, draw),
    }
}

/// How well a player fits a position, from the draw at `k` and, for a position the player is used
/// to, the one behind it.
pub open spec fn fit_of<
    P: Fn(Real64, Real64) -> Real64,
    M: Fn(Real64, Real64) -> Real64,
    G: Fn(usize) -> Real64,
>(plus: P, times: M, draw: G, traits: PlayerTraits, pos: int, k: int) -> Real64 {
    if traits.natural == pos {
        drawn_from(plus, times, draw, D0_85, D0_15, k + 1)
    } else if traits.knows(pos) {
        drawn_from(plus, times, draw, D0_55, D0_2, k + 1)
    } else {
        drawn_from(plus, times, draw, D0_2, D0_25, k)
    }
}

/// How a profile changes a player's form in period `t` of `num_periods`.
pub open spec fn form_of<
    P: Fn(Real64, Real64) -> Real64,
    M: Fn(Real64, Real64) -> Real64,
    Q: Fn(Real64, Real64) -> Real64,
    C: Fn(usize) -> Real64,
    H: Fn(Real64) -> Real64,
>(
    plus: P,
    times: M,
    over: Q,
    count: C,
    cosine: H,
    profile: StaminaProfile,
    num_periods: usize,
    t: int,
) -> Real64 {
    let last = outcome(plus, number_of(count, num_periods), num(D1).negated());
    let span = larger(num(D1), last);
    let now = number_of(count, t as usize);
    match profile {
        StaminaProfile::Starter => outcome(
            plus,
            num(D1_05),
            outcome(times, num(D0_2), outcome(over, now, span)).negated(),
        ),
        StaminaProfile::Closer => outcome(
            plus,
            num(D0_85),
            outcome(times, num(D0_2), outcome(over, now, span)),
        ),
        StaminaProfile::Iron => outcome(
            plus,
            num(D0_95),
            outcome(
                times,
                num(D0_05),
                image(
                    cosine,
                    outcome(
                        over,
                        outcome(plus, now, outcome(over, last, num(D2)).negated()),
                        span,
                    ),
                ),
            ),
        ),
    }
}

fn find_form<
    P: Fn(Real64, Real64) -> Real64,
    M: Fn(Real64, Real64) -> Real64,
    Q: Fn(Real64, Real64) -> Real64,
    C: Fn(usize) -> Real64,
    H: Fn(Real64) -> Real64,
>(
    profile: StaminaProfile,
    num_periods: usize,
    t: usize,
    plus: &P,
    times: &M,
    over: &Q,
    count: &C,
    cosine: &H,
) -> (r: Real64)
    requires
        is_operation(*plus),
        is_operation(*times),
        is_operation(*over),
        is_conversion(*count),
        is_function(*cosine),
    ensures
        r == form_of(*plus, *times, *over, *count, *cosine, profile, num_periods, t as int),
{
    let last: Real64 = apply(plus, to_number(count, num_periods), at_bits(D1).negate());
    let span: Real64 = larger_of(at_bits(D1), last);
    let now: Real64 = to_number(count, t);
    match profile {
        StaminaProfile::Starter => {
            let lost: Real64 = apply(times, at_bits(D0_2), apply(over, now, span));
            apply(plus, at_bits(D1_05), lost.negate())
        },
        StaminaProfile::Closer => {
            let won: Real64 = apply(times, at_bits(D0_2), apply(over, now, span));
            apply(plus, at_bits(D0_85), won)
        },
        StaminaProfile::Iron => {
            let mid: Real64 = apply(over, last, at_bits(D2));
            let angle: Real64 = apply(over, apply(plus, now, mid.negate()), span);
            let wave: Real64 = apply(times, at_bits(D0_05), map_number(cosine, angle));
            apply(plus, at_bits(D0_95), wave)
        },
    }
}

/// How many draws a player's position takes: one for the fit, one more for a position the player
/// is used to, and one for every period.
pub open spec fn draws_for(traits: PlayerTraits, pos: int, num_periods: int) -> int {
    1 + (if traits.knows(pos) {
        1int
    } else {
        0
    }) + num_periods
}

/// The draw with which the position `pos` of player `p` begins.
pub open spec fn first_draw(
    traits: Seq<PlayerTraits>,
    num_positions: int,
    num_periods: int,
    p: int,
    pos: int,
) -> int
    decreases p, pos,
{
    if p < 0 || pos < 0 {
        0
    } else if pos > 0 {
        first_draw(traits, num_positions, num_periods, p, pos - 1) + draws_for(
            traits[p],
            pos - 1,
            num_periods,
        )
    } else if p > 0 {
        first_draw(traits, num_positions, num_periods, p - 1, num_positions)
    } else {
        5 * traits.len() as int
    }
}

/// The affinity of player `p` for a position in period `t`.
pub open spec fn sample_affinity<
    P: Fn(Real64, Real64) -> Real64,
    M: Fn(Real64, Real64) -> Real64,
    Q: Fn(Real64, Real64) -> Real64,
    C: Fn(usize) -> Real64,
    G: Fn(usize) -> Real64,
    H: Fn(Real64) -> Real64,
>(
    plus: P,
    times: M,
    over: Q,
    count: C,
    draw: G,
    cosine: H,
    traits: Seq<PlayerTraits>,
    num_positions: usize,
    num_periods: usize,
    p: int,
    pos: int,
    t: int,
) -> Real64 {
    let k = first_draw(traits, num_positions as int, num_periods as int, p, pos);
    let noise = drawn_from(
        plus,
        times,
        draw,
        D0_95,
        D0_1,
        k + draws_for(traits[p], pos, 0) + t,
    );
    let value = outcome(
        times,
        outcome(
            times,
            outcome(
                times,
                fit_of(plus, times, draw, traits[p], pos, k),
                form_of(plus, times, over, count, cosine, traits[p].profile, num_periods, t),
            ),
            traits[p].fitness,
        ),
        noise,
    );
    smaller(larger(value, num(D0)), num(D1))
}

/// The table holds the sample's affinities.
pub open spec fn holds_sample<
    P: Fn(Real64, Real64) -> Real64,
    M: Fn(Real64, Real64) -> Real64,
    Q: Fn(Real64, Real64) -> Real64,
    C: Fn(usize) -> Real64,
    G: Fn(usize) -> Real64,
    H: Fn(Real64) -> Real64,
>(
    plus: P,
    times: M,
    over: Q,
    count: C,
    draw: G,
    cosine: H,
    traits: Seq<PlayerTraits>,
    num_positions: usize,
    num_periods: usize,
    table: Seq<Vec<Vec<Real64>>>,
) -> bool {
    &&& forall|p: int|
        0 <= p < table.len() ==> (#[trigger] table[p])@.len() == num_positions
    &&& forall|p: int, pos: int|
        0 <= p < table.len() && 0 <= pos < num_positions ==> (#[trigger] table[p]@[pos])@.len()
            == num_periods
    &&& forall|p: int, pos: int, t: int|
        0 <= p < table.len() && 0 <= pos < num_positions && 0 <= t < num_periods
            ==> #[trigger] table[p]@[pos]@[t] == sample_affinity(
            plus,
            times,
            over,
            count,
            draw,
            cosine,
            traits,
            num_positions,
            num_periods,
            p,
            pos,
            t,
        )
}

/// The traits of all players.
pub open spec fn all_traits<
    P: Fn(Real64, Real64) -> Real64,
    M: Fn(Real64, Real64) -> Real64,
    C: Fn(usize) -> Real64,
    G: Fn(usize) -> Real64,
    F: Fn(Real64) -> usize,
>(
    plus: P,
    times: M,
    count: C,
    draw: G,
    floor: F,
    num_players: usize,
    num_positions: usize,
) -> Seq<PlayerTraits> {
    Seq::new(
        num_players as nat,
        |p: int| traits_of(plus, times, count, draw, floor, num_positions, p),
    )
}

/// The most draws that a sample takes.
pub open spec fn most_draws(num_players: int, num_positions: int, num_periods: int) -> int {
    5 * num_players + num_players * num_positions * (num_periods + 2)
}

/// The draws begin where they should.
proof fn draws_are_bounded(
    traits: Seq<PlayerTraits>,
    num_positions: int,
    num_periods: int,
    p: int,
    pos: int,
)
    requires
        0 <= p <= traits.len(),
        0 <= pos <= num_positions,
        0 <= num_periods,
    ensures
        5 * traits.len() <= first_draw(traits, num_positions, num_periods, p, pos) <= 5
            * traits.len() + (p * num_positions + pos) * (num_periods + 2),
    decreases p, pos,
{
    let w = num_periods + 2;
    if pos > 0 {
        draws_are_bounded(traits, num_positions, num_periods, p, pos - 1);
        assert((p * num_positions + pos) * w == (p * num_positions + pos - 1) * w + w)
            by (nonlinear_arith);
    } else if p > 0 {
        draws_are_bounded(traits, num_positions, num_periods, p - 1, num_positions);
        assert((p - 1) * num_positions + num_positions == p * num_positions) by (nonlinear_arith);
    } else {
        assert(0 * num_positions == 0);
    }
}

fn build_cell<
    P: Fn(Real64, Real64) -> Real64,
    M: Fn(Real64, Real64) -> Real64,
    Q: Fn(Real64, Real64) -> Real64,
    C: Fn(usize) -> Real64,
    G: Fn(usize) -> Real64,
    H: Fn(Real64) -> Real64,
>(
    traits: &Vec<PlayerTraits>,
    num_positions: usize,
    num_periods: usize,
    p: usize,
    pos: usize,
    k: usize,
    plus: &P,
    times: &M,
    over: &Q,
    count: &C,
    draw: &G,
    cosine: &H,
) -> (r: (Vec<Real64>, usize))
    requires
        p < traits@.len(),
        pos < num_positions,
        k == first_draw(traits@, num_positions as int, num_periods as int, p as int, pos as int),
        k + num_periods + 2 <= usize::MAX,
        is_operation(*plus),
        is_operation(*times),
        is_operation(*over),
        is_conversion(*count),
        is_conversion(*draw),
        is_function(*cosine),
    ensures
        r.0@.len() == num_periods,
        forall|t: int|
            0 <= t < num_periods ==> #[trigger] r.0@[t] == sample_affinity(
                *plus,
                *times,
                *over,
                *count,
                *draw,
                *cosine,
                traits@,
                num_positions,
                num_periods,
                p as int,
                pos as int,
                t,
            ),
        r.1 == k + draws_for(traits@[p as int], pos as int, num_periods as int),
{
    let who: PlayerTraits = traits[p];
    let known: bool = who.natural == pos || who.second == pos || who.third == pos;
    let fit: Real64 = if who.natural == pos {
        draw_from(D0_85, D0_15, k + 1, plus, times, draw)
    } else if known {
        draw_from(D0_55, D0_2, k + 1, plus, times, draw)
    } else {
        draw_from(D0_2, D0_25, k, plus, times, draw)
    };
    let start: usize = if known { k + 2 } else { k + 1 };
    let mut row: Vec<Real64> = Vec::new();
    let mut t: usize = 0;
    while t < num_periods
        invariant
            t <= num_periods,
            p < traits@.len(),
            who == traits@[p as int],
            k == first_draw(
                traits@,
                num_positions as int,
                num_periods as int,
                p as int,
                pos as int,
            ),
            fit == fit_of(*plus, *times, *draw, who, pos as int, k as int),
            start == k + draws_for(who, pos as int, 0),
            start + num_periods <= usize::MAX,
            is_operation(*plus),
            is_operation(*times),
            is_operation(*over),
            is_conversion(*count),
            is_conversion(*draw),
            is_function(*cosine),
            row@.len() == t,
            forall|i: int|
                0 <= i < t ==> #[trigger] row@[i] == sample_affinity(
                    *plus,
                    *times,
                    *over,
                    *count,
                    *draw,
                    *cosine,
                    traits@,
                    num_positions,
                    num_periods,
                    p as int,
                    pos as int,
                    i,
                ),
        decreases num_periods - t,
    {
        let form: Real64 = find_form(
            who.profile,
            num_periods,
            t,
            plus,
            times,
            over,
            count,
            cosine,
        );
        let noise: Real64 = draw_from(D0_95, D0_1, start + t, plus, times, draw);
        let fitted: Real64 = apply(times, apply(times, fit, form), who.fitness);
        let value: Real64 = apply(times, fitted, noise);
        row.push(smaller_of(larger_of(value, at_bits(D0)), at_bits(D1)));
        t += 1;
    }
    (row, start + num_periods)
}

/// Builds the table of affinities from the draws.
fn build_table<
    P: Fn(Real64, Real64) -> Real64,
    M: Fn(Real64, Real64) -> Real64,
    Q: Fn(Real64, Real64) -> Real64,
    C: Fn(usize) -> Real64,
    G: Fn(usize) -> Real64,
    H: Fn(Real64) -> Real64,
>(
    traits: &Vec<PlayerTraits>,
    num_positions: usize,
    num_periods: usize,
    plus: &P,
    times: &M,
    over: &Q,
    count: &C,
    draw: &G,
    cosine: &H,
) -> (table: Vec<Vec<Vec<Real64>>>)
    requires
        most_draws(traits@.len() as int, num_positions as int, num_periods as int) <= usize::MAX,
        is_operation(*plus),
        is_operation(*times),
        is_operation(*over),
        is_conversion(*count),
        is_conversion(*draw),
        is_function(*cosine),
    ensures
        table@.len() == traits@.len(),
        holds_sample(
            *plus,
            *times,
            *over,
            *count,
            *draw,
            *cosine,
            traits@,
            num_positions,
            num_periods,
            table@,
        ),
{
    let ghost players = traits@.len() as int;
    let ghost positions = num_positions as int;
    let ghost periods = num_periods as int;
    let mut table: Vec<Vec<Vec<Real64>>> = Vec::new();
    proof {
        assert(players * positions * (periods + 2) >= 0) by (nonlinear_arith)
            requires
                players >= 0,
                positions >= 0,
                periods >= 0,
        ;
    }
    let mut k: usize = 5 * traits.len();
    let mut p: usize = 0;
    while p < traits.len()
        invariant
            p <= traits@.len(),
            players == traits@.len(),
            positions == num_positions,
            periods == num_periods,
            most_draws(players, positions, periods) <= usize::MAX,
            is_operation(*plus),
            is_operation(*times),
            is_operation(*over),
            is_conversion(*count),
            is_conversion(*draw),
            is_function(*cosine),
            k == first_draw(traits@, positions, periods, p as int, 0),
            table@.len() == p,
            holds_sample(
                *plus,
                *times,
                *over,
                *count,
                *draw,
                *cosine,
                traits@,
                num_positions,
                num_periods,
                table@,
            ),
        decreases traits@.len() - p,
    {
        let mut rows: Vec<Vec<Real64>> = Vec::new();
        let mut pos: usize = 0;
        while pos < num_positions
            invariant
                pos <= num_positions,
                p < traits@.len(),
                players == traits@.len(),
                positions == num_positions,
                periods == num_periods,
                most_draws(players, positions, periods) <= usize::MAX,
                is_operation(*plus),
                is_operation(*times),
                is_operation(*over),
                is_conversion(*count),
                is_conversion(*draw),
                is_function(*cosine),
                k == first_draw(traits@, positions, periods, p as int, pos as int),
                rows@.len() == pos,
                forall|q: int| 0 <= q < pos ==> (#[trigger] rows@[q])@.len() == num_periods,
                forall|q: int, t: int|
                    0 <= q < pos && 0 <= t < num_periods ==> #[trigger] rows@[q]@[t]
                        == sample_affinity(
                        *plus,
                        *times,
                        *over,
                        *count,
                        *draw,
                        *cosine,
                        traits@,
                        num_positions,
                        num_periods,
                        p as int,
                        q,
                        t,
                    ),
            decreases num_positions - pos,
        {
            proof {
                draws_are_bounded(traits@, positions, periods, p as int, pos as int);
                let cell = p * positions + pos;
                let w = periods + 2;
                assert((cell + 1) * w <= players * positions * w) by (nonlinear_arith)
                    requires
                        cell == p * positions + pos,
                        p + 1 <= players,
                        pos + 1 <= positions,
                        w >= 0,
                        p >= 0,
                ;
                assert((cell + 1) * w == cell * w + w) by (nonlinear_arith);
            }
            let (row, next): (Vec<Real64>, usize) = build_cell(
                traits,
                num_positions,
                num_periods,
                p,
                pos,
                k,
                plus,
                times,
                over,
                count,
                draw,
                cosine,
            );
            rows.push(row);
            k = next;
            pos += 1;
        }
        table.push(rows);
        p += 1;
        assert(first_draw(traits@, positions, periods, p as int, 0) == first_draw(
            traits@,
            positions,
            periods,
            p - 1,
            positions,
        ));
    }
    table
}

/// Builds the sample problem from a stream of draws: `draw` gives the draw with a number, `floor`
/// the whole part, `cosine` the cosine.
pub fn build_sample_soccer_problem<
    P: Fn(Real64, Real64) -> Real64,
    M: Fn(Real64, Real64) -> Real64,
    Q: Fn(Real64, Real64) -> Real64,
    C: Fn(usize) -> Real64,
    G: Fn(usize) -> Real64,
    F: Fn(Real64) -> usize,
    H: Fn(Real64) -> Real64,
>(
    opts: &AffinityBuilderOptions,
    plus: &P,
    times: &M,
    over: &Q,
    count: &C,
    draw: &G,
    floor: &F,
    cosine: &H,
) -> (problem: SoccerProblem)
    requires
        sample_size(*opts).0 > sample_size(*opts).1,
        sample_size(*opts).1 <= 14,
        most_draws(sample_size(*opts).0, sample_size(*opts).1, sample_size(*opts).2) <= usize::MAX,
        is_operation(*plus),
        is_operation(*times),
        is_operation(*over),
        is_conversion(*count),
        is_conversion(*draw),
        is_counting(*floor),
        is_function(*cosine),
    ensures
        is_sample(*opts, problem.affinity, problem),
        problem.has_affinities(),
        holds_sample(
            *plus,
            *times,
            *over,
            *count,
            *draw,
            *cosine,
            all_traits(
                *plus,
                *times,
                *count,
                *draw,
                *floor,
                problem.num_players,
                problem.num_positions,
            ),
            problem.num_positions,
            problem.num_periods,
            problem.affinity@,
        ),
{
    let num_players: usize = opts.num_players.unwrap_or(12);
    let num_positions: usize = opts.num_positions.unwrap_or(7);
    let num_periods: usize = opts.num_periods.unwrap_or(4);
    let ghost goal = all_traits(
        *plus,
        *times,
        *count,
        *draw,
        *floor,
        num_players,
        num_positions,
    );
    proof {
        assert(num_players * num_positions * (num_periods + 2) >= 0) by (nonlinear_arith)
            requires
                num_players >= 0,
                num_positions >= 0,
                num_periods >= 0,
        ;
    }
    let mut traits: Vec<PlayerTraits> = Vec::new();
    let mut p: usize = 0;
    while p < num_players
        invariant
            p <= num_players,
            5 * num_players <= usize::MAX,
            is_operation(*plus),
            is_operation(*times),
            is_conversion(*count),
            is_conversion(*draw),
            is_counting(*floor),
            goal == all_traits(
                *plus,
                *times,
                *count,
                *draw,
                *floor,
                num_players,
                num_positions,
            ),
            traits@ == goal.take(p as int),
        decreases num_players - p,
    {
        traits.push(draw_traits(num_positions, p, plus, times, count, draw, floor));
        p += 1;
        assert(traits@ =~= goal.take(p as int));
    }
    assert(traits@ =~= goal);
    let table: Vec<Vec<Vec<Real64>>> = build_table(
        &traits,
        num_positions,
        num_periods,
        plus,
        times,
        over,
        count,
        draw,
        cosine,
    );
    assemble_sample_problem(opts, table)
}

/// Whatever is drawn, an affinity lies between 0 and 1.
pub proof fn affinities_are_shares<
    P: Fn(Real64, Real64) -> Real64,
    M: Fn(Real64, Real64) -> Real64,
    Q: Fn(Real64, Real64) -> Real64,
    C: Fn(usize) -> Real64,
    G: Fn(usize) -> Real64,
    H: Fn(Real64) -> Real64,
>(
    plus: P,
    times: M,
    over: Q,
    count: C,
    draw: G,
    cosine: H,
    traits: Seq<PlayerTraits>,
    num_positions: usize,
    num_periods: usize,
    p: int,
    pos: int,
    t: int,
)
    ensures
        ({
            let a = sample_affinity(
                plus,
                times,
                over,
                count,
                draw,
                cosine,
                traits,
                num_positions,
                num_periods,
                p,
                pos,
                t,
            );
            !a.nan() && 0 <= a.key() <= num(D1).key()
        }),
{
}

/// No draw is used twice: a position's draws end where the next position's begin.
pub proof fn draws_are_used_once(
    traits: Seq<PlayerTraits>,
    num_positions: int,
    num_periods: int,
    p: int,
    pos: int,
)
    requires
        0 <= p < traits.len(),
        0 <= pos < num_positions,
        0 <= num_periods,
    ensures
        ({
            let next = if pos + 1 < num_positions {
                first_draw(traits, num_positions, num_periods, p, pos + 1)
            } else {
                first_draw(traits, num_positions, num_periods, p + 1, 0)
            };
            &&& next == first_draw(traits, num_positions, num_periods, p, pos) + draws_for(
                traits[p],
                pos,
                num_periods,
            )
            &&& 5 * traits.len() <= first_draw(traits, num_positions, num_periods, p, pos)
        }),
{
    draws_are_bounded(traits, num_positions, num_periods, p, pos);
    assert(first_draw(traits, num_positions, num_periods, p, pos + 1) == first_draw(
        traits,
        num_positions,
        num_periods,
        p,
        pos,
    ) + draws_for(traits[p], pos, num_periods));
    assert(first_draw(traits, num_positions, num_periods, p + 1, 0) == first_draw(
        traits,
        num_positions,
        num_periods,
        p,
        num_positions,
    ));
}

/// How the form of a player goes over the periods: starters begin at 1.05 and fall by 0.2, closers
/// begin at 0.85 and rise by 0.2, and the others stay around 0.95 by a twentieth of a curve around
/// the middle.
pub proof fn forms_follow_the_profile<
    P: Fn(Real64, Real64) -> Real64,
    M: Fn(Real64, Real64) -> Real64,
    Q: Fn(Real64, Real64) -> Real64,
    C: Fn(usize) -> Real64,
    H: Fn(Real64) -> Real64,
>(
    means: spec_fn(Real64, real) -> bool,
    plus: P,
    times: M,
    over: Q,
    count: C,
    cosine: H,
    curve: spec_fn(real) -> real,
    num_periods: usize,
    t: int,
)
    requires
        is_faithful(means, plus, times),
        reads_quotients(means, over),
        reads_counts(means, count),
        reads_function(means, cosine, curve),
        0 <= t < num_periods,
    ensures
        ({
            let last = num_periods as int as real - 1real;
            let span = most(1real, last);
            let now = t as real;
            let form = |p: StaminaProfile|
                form_of(plus, times, over, count, cosine, p, num_periods, t);
            &&& means(
                form(StaminaProfile::Starter),
                (21real / 20real) - (1real / 5real) * (now / span),
            )
            &&& means(
                form(StaminaProfile::Closer),
                (17real / 20real) + (1real / 5real) * (now / span),
            )
            &&& means(
                form(StaminaProfile::Iron),
                (19real / 20real) + (1real / 20real) * curve((now - last / 2real) / span),
            )
        }),
{
    decimals_are_read(means);
    let n = num_periods as int as real;
    let last = n - 1real;
    assert(n + -1real == last);
    let span = most(1real, last);
    assert(span != 0real);
    let now = t as real;
    assert(means(number_of(count, t as usize), now));
    let fall = (1real / 5real) * (now / span);
    assert((21real / 20real) + -fall == (21real / 20real) - fall);
    let half = last / 2real;
    assert(now + -half == now - half);
}

/// How well a player fits: from 0.85 to one in the natural position, from 0.55 to three quarters in
/// another that is known, and from a fifth to 0.45 elsewhere, as the draw says.
pub proof fn known_positions_fit_better<
    G: Fn(usize) -> Real64,
    P: Fn(Real64, Real64) -> Real64,
    M: Fn(Real64, Real64) -> Real64,
>(
    means: spec_fn(Real64, real) -> bool,
    plus: P,
    times: M,
    draw: G,
    traits: PlayerTraits,
    pos: int,
    k: int,
    u: real,
    w: real,
)
    requires
        is_faithful(means, plus, times),
        means(number_of(draw, (k + 1) as usize), u),
        means(number_of(draw, k as usize), w),
    ensures
        traits.natural == pos ==> means(
            fit_of(plus, times, draw, traits, pos, k),
            (17real / 20real) + (3real / 20real) * u,
        ),
        traits.natural != pos && traits.knows(pos) ==> means(
            fit_of(plus, times, draw, traits, pos, k),
            (11real / 20real) + (1real / 5real) * u,
        ),
        !traits.knows(pos) ==> means(
            fit_of(plus, times, draw, traits, pos, k),
            (1real / 5real) + (1real / 4real) * w,
        ),
{
    decimals_are_read(means);
}

/// An affinity is the fit times the form times the fitness, give or take a twentieth, kept between
/// nothing and one.
pub proof fn affinities_multiply_fit_form_and_fitness<
    G: Fn(usize) -> Real64,
    H: Fn(Real64) -> Real64,
    P: Fn(Real64, Real64) -> Real64,
    M: Fn(Real64, Real64) -> Real64,
    Q: Fn(Real64, Real64) -> Real64,
    C: Fn(usize) -> Real64,
>(
    means: spec_fn(Real64, real) -> bool,
    plus: P,
    times: M,
    over: Q,
    count: C,
    draw: G,
    cosine: H,
    traits: Seq<PlayerTraits>,
    num_positions: usize,
    num_periods: usize,
    p: int,
    pos: int,
    t: int,
    fit: real,
    form: real,
    fitness: real,
    u: real,
)
    requires
        is_faithful(means, plus, times),
        reads_quotients(means, over),
        reads_counts(means, count),
        means(
            fit_of(
                plus,
                times,
                draw,
                traits[p],
                pos,
                first_draw(traits, num_positions as int, num_periods as int, p, pos),
            ),
            fit,
        ),
        means(form_of(plus, times, over, count, cosine, traits[p].profile, num_periods, t), form),
        means(traits[p].fitness, fitness),
        means(
            number_of(
                draw,
                (first_draw(traits, num_positions as int, num_periods as int, p, pos) + draws_for(traits[p], pos, 0) + t) as usize,
            ),
            u,
        ),
    ensures
        means(
            sample_affinity(
                plus,
                times,
                over,
                count,
                draw,
                cosine,
                traits,
                num_positions,
                num_periods,
                p,
                pos,
                t,
            ),
            least(
                most(fit * form * fitness * ((19real / 20real) + (1real / 10real) * u), 0real),
                1real,
            ),
        ),
{
    decimals_are_read(means);
}

/// Profiles go by the draw: low ones make starters, high ones make players who last, and the
/// closers lie between.
pub proof fn profiles_go_by_the_draw(low: Real64, high: Real64)
    requires
        !low.nan(),
        !high.nan(),
        low.key() <= high.key(),
    ensures
        profile_of(high) == StaminaProfile::Starter ==> profile_of(low) == StaminaProfile::Starter,
        profile_of(low) == StaminaProfile::Iron ==> profile_of(high) == StaminaProfile::Iron,
        profile_of(num(D0)) == StaminaProfile::Starter,
        profile_of(num(D0_5)) == StaminaProfile::Closer,
        profile_of(num(D1)) == StaminaProfile::Iron,
        profile_of(num(D0_35)) == StaminaProfile::Closer,
        profile_of(num(D0_7)) == StaminaProfile::Iron,
{
}

} // verus!
