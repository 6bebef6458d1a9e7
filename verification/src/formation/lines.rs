//! How far guided players stand off the line that they hold with others.
use crate::decimals::D0;
use crate::formation::guidance::SlotHead;
use crate::formation::slots::{held_line, line_peers, role_line_peers};
use crate::meaning::{
    decimals_are_read, most, reads_counts, reads_decimals, reads_order, reads_quotients,
    reads_signs, reads_sums, real_sum, size, sums_mean_sums,
};
use crate::number::{
    add_up, apply, at_bits, is_conversion, is_operation, larger, larger_of, num, number_of, outcome,
    sum_up, to_number, Real64,
};
use crate::pitch::PlayerRole;
use vstd::prelude::*;

verus! {

/// A guided player and how far up the pitch the guidance leads.
#[derive(Clone, Copy, Debug, PartialEq, Eq, Structural)]
pub struct GuidedTarget {
    pub player_id: usize,
    pub target_y: Real64,
}

/// The last of the first `n` targets of a player.
pub open spec fn target_of(guided: Seq<GuidedTarget>, player_id: usize, n: int) -> Option<Real64>
    decreases n,
{
    if n <= 0 {
        None
    } else if guided[n - 1].player_id == player_id {
        Some(guided[n - 1].target_y)
    } else {
        target_of(guided, player_id, n - 1)
    }
}

/// The guided players.
pub open spec fn guided_ids(guided: Seq<GuidedTarget>) -> Seq<usize> {
    guided.map_values(|g: GuidedTarget| g.player_id)
}

/// Where the players of some slots are led.
pub open spec fn targets_of(
    slots: Seq<SlotHead>,
    guided: Seq<GuidedTarget>,
    peers: Seq<usize>,
) -> Seq<Real64> {
    peers.map_values(
        |s: usize| target_of(guided, slots[s as int].player_id, guided.len() as int)->0,
    )
}

/// How far off the mean of a line a place is, beyond the tolerance.
pub open spec fn off_line<
    P: Fn(Real64, Real64) -> Real64,
    Q: Fn(Real64, Real64) -> Real64,
    C: Fn(usize) -> Real64,
>(plus: P, over: Q, count: C, y: Real64, line: Seq<Real64>, tolerance: Real64) -> Real64 {
    let mean = outcome(
        over,
        sum_up(plus, line, line.len() as int),
        number_of(count, line.len() as usize),
    );
    larger(
        outcome(plus, outcome(plus, y, mean.negated()).absolute(), tolerance.negated()),
        num(D0),
    )
}

/// How far a guided player stands off the line: zero for one who holds none, or holds it with
/// fewer than two others.
pub open spec fn line_error<
    P: Fn(Real64, Real64) -> Real64,
    Q: Fn(Real64, Real64) -> Real64,
    C: Fn(usize) -> Real64,
>(
    plus: P,
    over: Q,
    count: C,
    slots: Seq<SlotHead>,
    guided: Seq<GuidedTarget>,
    defender_tolerance: Real64,
    midfielder_tolerance: Real64,
    g: GuidedTarget,
) -> Real64 {
    match held_line(slots, g.player_id) {
        Some(line) => {
            let peers = line_peers(
                slots,
                guided_ids(guided),
                g.player_id,
                line,
                slots.len() as int,
            );
            if peers.len() < 2 {
                num(D0)
            } else {
                off_line(
                    plus,
                    over,
                    count,
                    g.target_y,
                    targets_of(slots, guided, peers),
                    if line == PlayerRole::Defender {
                        defender_tolerance
                    } else {
                        midfielder_tolerance
                    },
                )
            }
        },
        None => num(D0),
    }
}

fn find_target(guided: &Vec<GuidedTarget>, player_id: usize) -> (r: Real64)
    requires
        guided_ids(guided@).contains(player_id),
    ensures
        target_of(guided@, player_id, guided@.len() as int) == Some(r),
{
    let mut i: usize = guided.len();
    while i > 0
        invariant
            i <= guided@.len(),
            guided_ids(guided@).contains(player_id),
            target_of(guided@, player_id, guided@.len() as int) == target_of(
                guided@,
                player_id,
                i as int,
            ),
            forall|j: int|
                i <= j < guided@.len() ==> (#[trigger] guided@[j]).player_id != player_id,
        decreases i,
    {
        if guided[i - 1].player_id == player_id {
            return guided[i - 1].target_y;
        }
        i -= 1;
    }
    proof {
        let k = choose|k: int|
            0 <= k < guided_ids(guided@).len() && guided_ids(guided@)[k] == player_id;
        assert(guided@[k].player_id == player_id);
    }
    at_bits(D0)
}

proof fn peers_are_guided(
    slots: Seq<SlotHead>,
    guided: Seq<usize>,
    player_id: usize,
    line: PlayerRole,
    n: int,
)
    requires
        0 <= n <= slots.len(),
        slots.len() <= usize::MAX,
    ensures
        forall|i: int|
            0 <= i < line_peers(slots, guided, player_id, line, n).len() ==> {
                let s = #[trigger] line_peers(slots, guided, player_id, line, n)[i];
                s < n && guided.contains(slots[s as int].player_id)
            },
    decreases n,
{
    if n > 0 {
        peers_are_guided(slots, guided, player_id, line, n - 1);
    }
}

/// Measures for every guided player how far the guidance stands off the line.
pub fn annotate_formation_lp_role_line_errors<
    P: Fn(Real64, Real64) -> Real64,
    Q: Fn(Real64, Real64) -> Real64,
    C: Fn(usize) -> Real64,
>(
    guided: &Vec<GuidedTarget>,
    slots: &Vec<SlotHead>,
    defender_tolerance: Real64,
    midfielder_tolerance: Real64,
    plus: &P,
    over: &Q,
    count: &C,
) -> (r: Vec<Real64>)
    requires
        is_operation(*plus),
        is_operation(*over),
        is_conversion(*count),
    ensures
        r@ == guided@.map_values(
            |g: GuidedTarget|
                line_error(
                    *plus,
                    *over,
                    *count,
                    slots@,
                    guided@,
                    defender_tolerance,
                    midfielder_tolerance,
                    g,
                ),
        ),
{
    let mut ids: Vec<usize> = Vec::new();
    let mut i: usize = 0;
    while i < guided.len()
        invariant
            i <= guided@.len(),
            ids@ == guided_ids(guided@).take(i as int),
        decreases guided@.len() - i,
    {
        ids.push(guided[i].player_id);
        i += 1;
        assert(ids@ =~= guided_ids(guided@).take(i as int));
    }
    assert(ids@ =~= guided_ids(guided@));
    let ghost goal = guided@.map_values(
        |g: GuidedTarget|
            line_error(
                *plus,
                *over,
                *count,
                slots@,
                guided@,
                defender_tolerance,
                midfielder_tolerance,
                g,
            ),
    );
    let mut r: Vec<Real64> = Vec::new();
    let mut i: usize = 0;
    let size: usize = slots.len();
    while i < guided.len()
        invariant
            i <= guided@.len(),
            size == slots@.len(),
            is_operation(*plus),
            is_operation(*over),
            is_conversion(*count),
            ids@ == guided_ids(guided@),
            goal == guided@.map_values(
                |g: GuidedTarget|
                    line_error(
                        *plus,
                        *over,
                        *count,
                        slots@,
                        guided@,
                        defender_tolerance,
                        midfielder_tolerance,
                        g,
                    ),
            ),
            r@ == goal.take(i as int),
        decreases guided@.len() - i,
    {
        let g: GuidedTarget = guided[i];
        match role_line_peers(slots, &ids, g.player_id) {
            Some((line, peers)) => {
                proof {
                    peers_are_guided(slots@, ids@, g.player_id, line, slots@.len() as int);
                }
                let mut ys: Vec<Real64> = Vec::new();
                let mut k: usize = 0;
                while k < peers.len()
                    invariant
                        k <= peers@.len(),
                        ids@ == guided_ids(guided@),
                        forall|j: int|
                            0 <= j < peers@.len() ==> #[trigger] peers@[j] < slots@.len()
                                && ids@.contains(slots@[peers@[j] as int].player_id),
                        ys@ == targets_of(slots@, guided@, peers@).take(k as int),
                    decreases peers@.len() - k,
                {
                    let s: usize = peers[k];
                    assert(peers@[k as int] < slots@.len());
                    ys.push(find_target(guided, slots[s].player_id));
                    k += 1;
                    assert(ys@ =~= targets_of(slots@, guided@, peers@).take(k as int));
                }
                assert(ys@ =~= targets_of(slots@, guided@, peers@));
                let tolerance: Real64 = if line == PlayerRole::Defender {
                    defender_tolerance
                } else {
                    midfielder_tolerance
                };
                let mean: Real64 = apply(over, add_up(&ys, plus), to_number(count, ys.len()));
                let off: Real64 = apply(plus, g.target_y, mean.negate()).abs();
                r.push(larger_of(apply(plus, off, tolerance.negate()), at_bits(D0)));
            },
            None => {
                r.push(at_bits(D0));
            },
        }
        i += 1;
        assert(r@ =~= goal.take(i as int));
    }
    assert(r@ =~= goal);
    r
}

/// How far a player is off the line: what the distance from the mean of the line is beyond the
/// tolerance.
pub proof fn lines_are_left_by_what_lies_beyond<
    P: Fn(Real64, Real64) -> Real64,
    Q: Fn(Real64, Real64) -> Real64,
    C: Fn(usize) -> Real64,
>(
    means: spec_fn(Real64, real) -> bool,
    plus: P,
    over: Q,
    count: C,
    y: Real64,
    line: Seq<Real64>,
    tolerance: Real64,
    at: real,
    x: Seq<real>,
    t: real,
)
    requires
        reads_sums(means, plus),
        reads_signs(means),
        reads_order(means),
        reads_decimals(means),
        reads_quotients(means, over),
        reads_counts(means, count),
        0 < line.len() <= usize::MAX,
        line.len() == x.len(),
        forall|i: int| 0 <= i < line.len() ==> means(#[trigger] line[i], x[i]),
        means(y, at),
        means(tolerance, t),
    ensures
        ({
            let m = real_sum(x, x.len() as int) / (line.len() as real);
            means(off_line(plus, over, count, y, line, tolerance), most(size(at - m) - t, 0real))
        }),
{
    decimals_are_read(means);
    sums_mean_sums(means, plus, line, x, line.len() as int);
    let m = real_sum(x, x.len() as int) / (line.len() as real);
    assert(at + -m == at - m);
    let s = size(at - m);
    assert(s + -t == s - t);
}

} // verus!
