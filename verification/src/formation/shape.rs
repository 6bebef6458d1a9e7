//! The relative shape of a team: lines that stay apart, and players who keep their offsets.
//!
//! Arithmetic and distances are handed in; every coordinate is the outcome of the given
//! operations in a fixed order.
use crate::decimals::{D0, D0_5, D0_6};
use crate::geometry::{distance_of, finite_point, is_distance, is_finite_point, measure};
use crate::meaning::{
    decimals_are_read, is_faithful, least, most, reads_counts, reads_decimals, reads_order,
    reads_quotients, reads_signs, reads_sums, real_sum, set_flags, stands_at,
};
use crate::number::{
    apply, at_bits, clamp_to, clamped_to, is_conversion, is_operation, larger, larger_of,
    negation_mirrors, num, number_of, outcome, smaller, smaller_of, to_number, Real64,
};
use crate::order::{is_ranking, ranking, ranking_is_unique};
use crate::pitch::{PlayerRole, Team, Vec2};
use vstd::prelude::*;

verus! {

/// A place in the formation as its shape is looked at.
#[derive(Clone, Copy, Debug, PartialEq, Eq, Structural)]
pub struct ShapeSlot {
    pub active: bool,
    pub role: PlayerRole,
    /// Where the player stands across the pitch by default.
    pub home_x: Real64,
    pub anchor: Vec2,
}

/// The slot belongs to the line of a role.
pub open spec fn in_line(s: ShapeSlot, role: PlayerRole) -> bool {
    s.active && s.role == role
}

/// The keys by which a line is ordered across the pitch.
pub open spec fn line_keys(slots: Seq<ShapeSlot>, role: PlayerRole) -> Seq<Option<i128>> {
    Seq::new(
        slots.len(),
        |i: int|
            if in_line(slots[i], role) {
                Some(slots[i].home_x.key() as i128)
            } else {
                None
            },
    )
}

/// Homes are numbers.
pub open spec fn homes_are_numbers(slots: Seq<ShapeSlot>) -> bool {
    forall|i: int| 0 <= i < slots.len() ==> !(#[trigger] slots[i]).home_x.nan()
}

/// A slot moved across the pitch.
pub open spec fn moved_x<P: Fn(Real64, Real64) -> Real64>(
    plus: P,
    s: ShapeSlot,
    by: Real64,
) -> ShapeSlot {
    ShapeSlot { anchor: Vec2 { x: outcome(plus, s.anchor.x, by), ..s.anchor }, ..s }
}

/// How far the right neighbour stands from the left one.
pub open spec fn gap_between<P: Fn(Real64, Real64) -> Real64>(
    plus: P,
    left: ShapeSlot,
    right: ShapeSlot,
) -> Real64 {
    outcome(plus, right.anchor.x, left.anchor.x.negated())
}

/// Two neighbours pushed apart, each by half of what is missing, times the correction; unchanged
/// where nothing is missing.
pub open spec fn pushed<P: Fn(Real64, Real64) -> Real64, M: Fn(Real64, Real64) -> Real64>(
    plus: P,
    times: M,
    slots: Seq<ShapeSlot>,
    l: int,
    r: int,
    min_gap: Real64,
    correction: Real64,
) -> Seq<ShapeSlot> {
    let dx = gap_between(plus, slots[l], slots[r]);
    if dx.less(min_gap) {
        let push = outcome(
            times,
            outcome(times, outcome(plus, min_gap, dx.negated()), num(D0_5)),
            correction,
        );
        slots.update(l, moved_x(plus, slots[l], push.negated())).update(
            r,
            moved_x(plus, slots[r], push),
        )
    } else {
        slots
    }
}

/// The slots after the first `n` players of a line have been pushed apart, from left to right.
pub open spec fn spread_out<P: Fn(Real64, Real64) -> Real64, M: Fn(Real64, Real64) -> Real64>(
    plus: P,
    times: M,
    slots: Seq<ShapeSlot>,
    order: Seq<usize>,
    min_gap: Real64,
    correction: Real64,
    n: int,
) -> Seq<ShapeSlot>
    decreases n,
{
    if n <= 1 {
        slots
    } else {
        pushed(
            plus,
            times,
            spread_out(plus, times, slots, order, min_gap, correction, n - 1),
            order[n - 2] as int,
            order[n - 1] as int,
            min_gap,
            correction,
        )
    }
}

/// The slots are those of a line spread out over its order.
pub open spec fn is_spread<P: Fn(Real64, Real64) -> Real64, M: Fn(Real64, Real64) -> Real64>(
    plus: P,
    times: M,
    before: Seq<ShapeSlot>,
    role: PlayerRole,
    min_gap: Real64,
    correction: Real64,
    after: Seq<ShapeSlot>,
) -> bool {
    exists|order: Seq<usize>| #[trigger]
        is_ranking(line_keys(before, role), order) && after == spread_out(
            plus,
            times,
            before,
            order,
            min_gap,
            correction,
            order.len() as int,
        )
}

proof fn spreading_keeps_heads<P: Fn(Real64, Real64) -> Real64, M: Fn(Real64, Real64) -> Real64>(
    plus: P,
    times: M,
    slots: Seq<ShapeSlot>,
    order: Seq<usize>,
    min_gap: Real64,
    correction: Real64,
    n: int,
)
    requires
        n <= order.len(),
        forall|i: int| 0 <= i < order.len() ==> #[trigger] order[i] < slots.len(),
    ensures
        ({
            let after = spread_out(plus, times, slots, order, min_gap, correction, n);
            &&& after.len() == slots.len()
            &&& forall|i: int|
                0 <= i < slots.len() ==> (#[trigger] after[i]).active == slots[i].active
                    && after[i].role == slots[i].role && after[i].home_x == slots[i].home_x
        }),
    decreases n,
{
    if n > 1 {
        spreading_keeps_heads(plus, times, slots, order, min_gap, correction, n - 1);
        assert(order[n - 2] < slots.len());
        assert(order[n - 1] < slots.len());
    }
}

/// Pushes the neighbours of a line apart where they stand closer than `min_gap`, in the order of
/// their homes from left to right.
pub fn soccer_formation_lp_spread_line_x<
    P: Fn(Real64, Real64) -> Real64,
    M: Fn(Real64, Real64) -> Real64,
>(
    slots: &mut Vec<ShapeSlot>,
    role: PlayerRole,
    min_gap: Real64,
    correction: Real64,
    plus: &P,
    times: &M,
)
    requires
        homes_are_numbers(old(slots)@),
        is_operation(*plus),
        is_operation(*times),
    ensures
        is_spread(*plus, *times, old(slots)@, role, min_gap, correction, final(slots)@),
        homes_are_numbers(final(slots)@),
        final(slots)@.len() == old(slots)@.len(),
{
    let ghost before = slots@;
    let mut keys: Vec<Option<i128>> = Vec::new();
    let mut i: usize = 0;
    while i < slots.len()
        invariant
            i <= slots@.len(),
            slots@ == before,
            keys@ == line_keys(before, role).take(i as int),
        decreases slots@.len() - i,
    {
        let s: ShapeSlot = slots[i];
        if s.active && s.role == role {
            keys.push(Some(s.home_x.order_key() as i128));
        } else {
            keys.push(None);
        }
        i += 1;
        assert(keys@ =~= line_keys(before, role).take(i as int));
    }
    assert(keys@ =~= line_keys(before, role));
    let order: Vec<usize> = ranking(&keys);
    let mut w: usize = 1;
    while w < order.len()
        invariant
            1 <= w,
            w <= order@.len() || (order@.len() == 0 && w == 1),
            is_operation(*plus),
            is_operation(*times),
            is_ranking(line_keys(before, role), order@),
            line_keys(before, role).len() == before.len(),
            slots@ == spread_out(*plus, *times, before, order@, min_gap, correction, w as int),
            slots@.len() == before.len(),
        decreases order@.len() - w,
    {
        let left: usize = order[w - 1];
        let right: usize = order[w];
        assert(order@[w - 1] < before.len());
        assert(order@[w as int] < before.len());
        let a: ShapeSlot = slots[left];
        let b: ShapeSlot = slots[right];
        let dx: Real64 = apply(plus, b.anchor.x, a.anchor.x.negate());
        if dx.is_below(min_gap) {
            let missing: Real64 = apply(plus, min_gap, dx.negate());
            let push: Real64 = apply(times, apply(times, missing, at_bits(D0_5)), correction);
            let ax: Real64 = apply(plus, a.anchor.x, push.negate());
            let bx: Real64 = apply(plus, b.anchor.x, push);
            slots.set(left, ShapeSlot { anchor: Vec2 { x: ax, y: a.anchor.y }, ..a });
            slots.set(right, ShapeSlot { anchor: Vec2 { x: bx, y: b.anchor.y }, ..b });
        }
        w += 1;
    }
    proof {
        spreading_keeps_heads(
            *plus,
            *times,
            before,
            order@,
            min_gap,
            correction,
            order@.len() as int,
        );
        assert(is_ranking(line_keys(before, role), order@));
    }
}

/// A line whose neighbours already stand far enough apart is left as it is.
pub proof fn spread_lines_stay<P: Fn(Real64, Real64) -> Real64, M: Fn(Real64, Real64) -> Real64>(
    plus: P,
    times: M,
    slots: Seq<ShapeSlot>,
    order: Seq<usize>,
    min_gap: Real64,
    correction: Real64,
    n: int,
)
    requires
        n <= order.len(),
        forall|w: int|
            1 <= w < n ==> !gap_between(
                plus,
                slots[order[w - 1] as int],
                slots[#[trigger] order[w] as int],
            ).less(min_gap),
    ensures
        spread_out(plus, times, slots, order, min_gap, correction, n) == slots,
    decreases n,
{
    if n > 1 {
        spread_lines_stay(plus, times, slots, order, min_gap, correction, n - 1);
        assert(!gap_between(
            plus,
            slots[order[n - 2] as int],
            slots[order[n - 1] as int],
        ).less(min_gap));
    }
}

/// How far up the pitch the first `n` slots of a line stand, added up, and how many there are.
pub open spec fn line_sum<P: Fn(Real64, Real64) -> Real64, M: Fn(Real64, Real64) -> Real64>(
    plus: P,
    times: M,
    slots: Seq<ShapeSlot>,
    role: PlayerRole,
    attack_dir: Real64,
    n: int,
) -> (Real64, int)
    decreases n,
{
    if n <= 0 {
        (num(D0), 0)
    } else {
        let before = line_sum(plus, times, slots, role, attack_dir, n - 1);
        if in_line(slots[n - 1], role) {
            (
                outcome(plus, before.0, outcome(times, slots[n - 1].anchor.y, attack_dir)),
                before.1 + 1,
            )
        } else {
            before
        }
    }
}

/// How far up the pitch a line stands on average; nothing for a line of nobody.
pub open spec fn line_mean<
    P: Fn(Real64, Real64) -> Real64,
    M: Fn(Real64, Real64) -> Real64,
    Q: Fn(Real64, Real64) -> Real64,
    C: Fn(usize) -> Real64,
>(
    plus: P,
    times: M,
    over: Q,
    count: C,
    slots: Seq<ShapeSlot>,
    role: PlayerRole,
    attack_dir: Real64,
) -> Option<Real64> {
    let (sum, n) = line_sum(plus, times, slots, role, attack_dir, slots.len() as int);
    if n > 0 {
        Some(outcome(over, sum, number_of(count, n as usize)))
    } else {
        None
    }
}

fn mean_of_line<
    P: Fn(Real64, Real64) -> Real64,
    M: Fn(Real64, Real64) -> Real64,
    Q: Fn(Real64, Real64) -> Real64,
    C: Fn(usize) -> Real64,
>(
    slots: &Vec<ShapeSlot>,
    role: PlayerRole,
    attack_dir: Real64,
    plus: &P,
    times: &M,
    over: &Q,
    count: &C,
) -> (r: Option<Real64>)
    requires
        is_operation(*plus),
        is_operation(*times),
        is_operation(*over),
        is_conversion(*count),
    ensures
        r == line_mean(*plus, *times, *over, *count, slots@, role, attack_dir),
{
    let mut sum: Real64 = at_bits(D0);
    let mut n: usize = 0;
    let mut i: usize = 0;
    while i < slots.len()
        invariant
            n <= i <= slots@.len(),
            is_operation(*plus),
            is_operation(*times),
            (sum, n as int) == line_sum(*plus, *times, slots@, role, attack_dir, i as int),
        decreases slots@.len() - i,
    {
        let s: ShapeSlot = slots[i];
        if s.active && s.role == role {
            sum = apply(plus, sum, apply(times, s.anchor.y, attack_dir));
            n += 1;
        }
        i += 1;
    }
    if n > 0 {
        Some(apply(over, sum, to_number(count, n)))
    } else {
        None
    }
}

/// A slot moved up the pitch.
pub open spec fn moved_y<P: Fn(Real64, Real64) -> Real64>(
    plus: P,
    s: ShapeSlot,
    by: Real64,
) -> ShapeSlot {
    ShapeSlot { anchor: Vec2 { y: outcome(plus, s.anchor.y, by), ..s.anchor }, ..s }
}

/// The slots with a whole line moved up the pitch.
pub open spec fn line_moved<P: Fn(Real64, Real64) -> Real64>(
    plus: P,
    slots: Seq<ShapeSlot>,
    role: PlayerRole,
    by: Real64,
) -> Seq<ShapeSlot> {
    slots.map_values(
        |s: ShapeSlot|
            if in_line(s, role) {
                moved_y(plus, s, by)
            } else {
                s
            },
    )
}

/// The slots with the front line lifted by a part of what it lacks to stand `min_gap` ahead of the
/// line behind it, both taken on average.
pub open spec fn lifted<
    P: Fn(Real64, Real64) -> Real64,
    M: Fn(Real64, Real64) -> Real64,
    Q: Fn(Real64, Real64) -> Real64,
    C: Fn(usize) -> Real64,
>(
    plus: P,
    times: M,
    over: Q,
    count: C,
    slots: Seq<ShapeSlot>,
    back: PlayerRole,
    front: PlayerRole,
    attack_dir: Real64,
    min_gap: Real64,
) -> Seq<ShapeSlot> {
    match (
        line_mean(plus, times, over, count, slots, back, attack_dir),
        line_mean(plus, times, over, count, slots, front, attack_dir),
    ) {
        (Some(behind), Some(ahead)) => {
            let gap = outcome(plus, ahead, behind.negated());
            if gap.less(min_gap) {
                let lift = outcome(times, outcome(plus, min_gap, gap.negated()), num(D0_6));
                line_moved(plus, slots, front, outcome(times, attack_dir, lift))
            } else {
                slots
            }
        },
        _ => slots,
    }
}

fn lift_line<
    P: Fn(Real64, Real64) -> Real64,
    M: Fn(Real64, Real64) -> Real64,
    Q: Fn(Real64, Real64) -> Real64,
    C: Fn(usize) -> Real64,
>(
    slots: &mut Vec<ShapeSlot>,
    back: PlayerRole,
    front: PlayerRole,
    attack_dir: Real64,
    min_gap: Real64,
    plus: &P,
    times: &M,
    over: &Q,
    count: &C,
)
    requires
        is_operation(*plus),
        is_operation(*times),
        is_operation(*over),
        is_conversion(*count),
    ensures
        final(slots)@ == lifted(
            *plus,
            *times,
            *over,
            *count,
            old(slots)@,
            back,
            front,
            attack_dir,
            min_gap,
        ),
        final(slots)@.len() == old(slots)@.len(),
        homes_are_numbers(old(slots)@) ==> homes_are_numbers(final(slots)@),
{
    let ghost before = slots@;
    let behind: Option<Real64> = mean_of_line(slots, back, attack_dir, plus, times, over, count);
    let ahead: Option<Real64> = mean_of_line(slots, front, attack_dir, plus, times, over, count);
    if let (Some(behind), Some(ahead)) = (behind, ahead) {
        let gap: Real64 = apply(plus, ahead, behind.negate());
        if gap.is_below(min_gap) {
            let lift: Real64 = apply(times, apply(plus, min_gap, gap.negate()), at_bits(D0_6));
            let by: Real64 = apply(times, attack_dir, lift);
            let ghost goal = line_moved(*plus, before, front, by);
            let mut i: usize = 0;
            while i < slots.len()
                invariant
                    i <= slots@.len(),
                    slots@.len() == before.len(),
                    is_operation(*plus),
                    goal == line_moved(*plus, before, front, by),
                    forall|j: int| 0 <= j < i ==> #[trigger] slots@[j] == goal[j],
                    forall|j: int| i <= j < before.len() ==> #[trigger] slots@[j] == before[j],
                decreases slots@.len() - i,
            {
                let s: ShapeSlot = slots[i];
                if s.active && s.role == front {
                    let y: Real64 = apply(plus, s.anchor.y, by);
                    slots.set(i, ShapeSlot { anchor: Vec2 { x: s.anchor.x, y }, ..s });
                }
                i += 1;
            }
            assert(slots@ =~= goal);
            assert(homes_are_numbers(before) ==> homes_are_numbers(slots@)) by {
                if homes_are_numbers(before) {
                    assert forall|j: int| 0 <= j < slots@.len() implies !(
                    #[trigger] slots@[j]).home_x.nan() by {
                        assert(slots@[j].home_x == before[j].home_x);
                        assert(!before[j].home_x.nan());
                    }
                }
            }
        }
    }
}

/// The distances that a staggered shape keeps, in yards.
#[derive(Clone, Copy, Debug, PartialEq, Eq, Structural)]
pub struct StaggerBands {
    /// From the back line to the midfield.
    pub mid_ahead: Real64,
    /// From the midfield to the forwards.
    pub forward_ahead: Real64,
    /// Between neighbours of the back line.
    pub backline_gap: Real64,
    /// Between neighbours of the midfield.
    pub midline_gap: Real64,
}

/// The active slots kept on the pitch.
pub open spec fn kept_on_pitch(slots: Seq<ShapeSlot>, width: Real64, length: Real64) -> Seq<
    ShapeSlot,
> {
    slots.map_values(
        |s: ShapeSlot|
            if s.active {
                ShapeSlot {
                    anchor: Vec2 {
                        x: clamped_to(s.anchor.x, num(D0), width),
                        y: clamped_to(s.anchor.y, num(D0), length),
                    },
                    ..s
                }
            } else {
                s
            },
    )
}

/// The stages of staggering: the midfield lifted off the back line, the forwards lifted off the
/// midfield, both back lines spread out, and everything kept on the pitch.
pub open spec fn is_staggered<
    P: Fn(Real64, Real64) -> Real64,
    M: Fn(Real64, Real64) -> Real64,
    Q: Fn(Real64, Real64) -> Real64,
    C: Fn(usize) -> Real64,
>(
    plus: P,
    times: M,
    over: Q,
    count: C,
    before: Seq<ShapeSlot>,
    attack_dir: Real64,
    bands: StaggerBands,
    width: Real64,
    length: Real64,
    after: Seq<ShapeSlot>,
) -> bool {
    let lifted_once = lifted(
        plus,
        times,
        over,
        count,
        before,
        PlayerRole::Defender,
        PlayerRole::Midfielder,
        attack_dir,
        bands.mid_ahead,
    );
    let lifted_twice = lifted(
        plus,
        times,
        over,
        count,
        lifted_once,
        PlayerRole::Midfielder,
        PlayerRole::Forward,
        attack_dir,
        bands.forward_ahead,
    );
    exists|back: Seq<ShapeSlot>, middle: Seq<ShapeSlot>|
        is_spread(
            plus,
            times,
            lifted_twice,
            PlayerRole::Defender,
            bands.backline_gap,
            num(D0_6),
            back,
        ) && #[trigger] is_spread(
            plus,
            times,
            back,
            PlayerRole::Midfielder,
            bands.midline_gap,
            num(D0_6),
            middle,
        ) && after == kept_on_pitch(middle, width, length)
}

/// Staggers the lines of a team: whole lines that stand too close to the one behind are lifted,
/// neighbours of a line are pushed apart, each only by a part of what is missing.
pub fn soccer_formation_lp_stagger_role_layers<
    P: Fn(Real64, Real64) -> Real64,
    M: Fn(Real64, Real64) -> Real64,
    Q: Fn(Real64, Real64) -> Real64,
    C: Fn(usize) -> Real64,
>(
    slots: &mut Vec<ShapeSlot>,
    attack_dir: Real64,
    bands: &StaggerBands,
    width: Real64,
    length: Real64,
    plus: &P,
    times: &M,
    over: &Q,
    count: &C,
)
    requires
        homes_are_numbers(old(slots)@),
        is_operation(*plus),
        is_operation(*times),
        is_operation(*over),
        is_conversion(*count),
    ensures
        is_staggered(
            *plus,
            *times,
            *over,
            *count,
            old(slots)@,
            attack_dir,
            *bands,
            width,
            length,
            final(slots)@,
        ),
        final(slots)@.len() == old(slots)@.len(),
{
    lift_line(
        slots,
        PlayerRole::Defender,
        PlayerRole::Midfielder,
        attack_dir,
        bands.mid_ahead,
        plus,
        times,
        over,
        count,
    );
    lift_line(
        slots,
        PlayerRole::Midfielder,
        PlayerRole::Forward,
        attack_dir,
        bands.forward_ahead,
        plus,
        times,
        over,
        count,
    );
    soccer_formation_lp_spread_line_x(
        slots,
        PlayerRole::Defender,
        bands.backline_gap,
        at_bits(D0_6),
        plus,
        times,
    );
    soccer_formation_lp_spread_line_x(
        slots,
        PlayerRole::Midfielder,
        bands.midline_gap,
        at_bits(D0_6),
        plus,
        times,
    );
    let ghost middle = slots@;
    let ghost goal = kept_on_pitch(middle, width, length);
    let mut i: usize = 0;
    while i < slots.len()
        invariant
            i <= slots@.len(),
            slots@.len() == middle.len(),
            goal == kept_on_pitch(middle, width, length),
            forall|j: int| 0 <= j < i ==> #[trigger] slots@[j] == goal[j],
            forall|j: int| i <= j < middle.len() ==> #[trigger] slots@[j] == middle[j],
        decreases slots@.len() - i,
    {
        let s: ShapeSlot = slots[i];
        if s.active {
            let x: Real64 = clamp_to(s.anchor.x, at_bits(D0), width);
            let y: Real64 = clamp_to(s.anchor.y, at_bits(D0), length);
            slots.set(i, ShapeSlot { anchor: Vec2 { x, y }, ..s });
        }
        i += 1;
    }
    assert(slots@ =~= goal);
}

/// A player with the place held by default.
#[derive(Clone, Copy, Debug, PartialEq, Eq, Structural)]
pub struct RosterEntry {
    pub id: usize,
    pub team: Team,
    pub role: PlayerRole,
    pub current: Vec2,
    pub home: Vec2,
}

/// The entry can anchor a player's shape: an outfield teammate at finite places.
pub open spec fn anchors_shape(e: RosterEntry, me_id: usize, me_team: Team) -> bool {
    &&& e.team == me_team
    &&& e.id != me_id
    &&& e.role != PlayerRole::Goalkeeper
    &&& is_finite_point(e.current)
    &&& is_finite_point(e.home)
}

/// The keys by which neighbours are picked: the nearest homes first.
pub open spec fn neighbour_keys<D: Fn(Vec2, Vec2) -> Real64>(
    distance: D,
    roster: Seq<RosterEntry>,
    me_id: usize,
    me_team: Team,
    me_home: Vec2,
) -> Seq<Option<i128>> {
    Seq::new(
        roster.len(),
        |i: int|
            if anchors_shape(roster[i], me_id, me_team) {
                Some(distance_of(distance, me_home, roster[i].home).key() as i128)
            } else {
                None
            },
    )
}

/// The places that keep the offsets from the first `n` neighbours, added up.
pub open spec fn offsets_sum<P: Fn(Real64, Real64) -> Real64>(
    plus: P,
    roster: Seq<RosterEntry>,
    order: Seq<usize>,
    me_home: Vec2,
    n: int,
) -> Vec2
    decreases n,
{
    if n <= 0 {
        Vec2 { x: num(D0), y: num(D0) }
    } else {
        let before = offsets_sum(plus, roster, order, me_home, n - 1);
        let e = roster[order[n - 1] as int];
        Vec2 {
            x: outcome(
                plus,
                before.x,
                outcome(plus, e.current.x, outcome(plus, me_home.x, e.home.x.negated())),
            ),
            y: outcome(
                plus,
                before.y,
                outcome(plus, e.current.y, outcome(plus, me_home.y, e.home.y.negated())),
            ),
        }
    }
}

/// The mean of the places that keep the offsets from the nearest neighbours, where it is finite.
pub open spec fn mean_offset<
    P: Fn(Real64, Real64) -> Real64,
    Q: Fn(Real64, Real64) -> Real64,
    C: Fn(usize) -> Real64,
>(
    plus: P,
    over: Q,
    count: C,
    roster: Seq<RosterEntry>,
    order: Seq<usize>,
    me_home: Vec2,
    neighbours: usize,
) -> Option<Vec2> {
    let wanted = if neighbours > 1 {
        neighbours as int
    } else {
        1
    };
    let k = if order.len() < wanted {
        order.len() as int
    } else {
        wanted
    };
    let sum = offsets_sum(plus, roster, order, me_home, k);
    let n = number_of(count, k as usize);
    let target = Vec2 { x: outcome(over, sum.x, n), y: outcome(over, sum.y, n) };
    if order.len() > 0 && is_finite_point(target) {
        Some(target)
    } else {
        None
    }
}

/// The target is where a player keeps the offsets from the nearest neighbours; there is none
/// without a finite home or without neighbours.
pub open spec fn is_cohesion_target<
    P: Fn(Real64, Real64) -> Real64,
    Q: Fn(Real64, Real64) -> Real64,
    C: Fn(usize) -> Real64,
    D: Fn(Vec2, Vec2) -> Real64,
>(
    plus: P,
    over: Q,
    count: C,
    distance: D,
    roster: Seq<RosterEntry>,
    me_id: usize,
    me_team: Team,
    me_home: Vec2,
    neighbours: usize,
    r: Option<Vec2>,
) -> bool {
    if is_finite_point(me_home) {
        exists|order: Seq<usize>| #[trigger]
            is_ranking(neighbour_keys(distance, roster, me_id, me_team, me_home), order) && r
                == mean_offset(plus, over, count, roster, order, me_home, neighbours)
    } else {
        r is None
    }
}

/// Where a player keeps the offsets from the nearest neighbours, where there is such a place.
pub open spec fn cohesion_of<
    P: Fn(Real64, Real64) -> Real64,
    Q: Fn(Real64, Real64) -> Real64,
    C: Fn(usize) -> Real64,
    D: Fn(Vec2, Vec2) -> Real64,
>(
    plus: P,
    over: Q,
    count: C,
    distance: D,
    roster: Seq<RosterEntry>,
    me_id: usize,
    me_team: Team,
    me_home: Vec2,
    neighbours: usize,
) -> Option<Vec2> {
    choose|r: Option<Vec2>| #[trigger]
        is_cohesion_target(
            plus,
            over,
            count,
            distance,
            roster,
            me_id,
            me_team,
            me_home,
            neighbours,
            r,
        )
}

/// There is one place at most where a player keeps the offsets.
pub proof fn cohesion_is_unique<
    P: Fn(Real64, Real64) -> Real64,
    Q: Fn(Real64, Real64) -> Real64,
    C: Fn(usize) -> Real64,
    D: Fn(Vec2, Vec2) -> Real64,
>(
    plus: P,
    over: Q,
    count: C,
    distance: D,
    roster: Seq<RosterEntry>,
    me_id: usize,
    me_team: Team,
    me_home: Vec2,
    neighbours: usize,
    r: Option<Vec2>,
)
    requires
        roster.len() <= usize::MAX,
        is_cohesion_target(
            plus,
            over,
            count,
            distance,
            roster,
            me_id,
            me_team,
            me_home,
            neighbours,
            r,
        ),
    ensures
        r == cohesion_of(
            plus,
            over,
            count,
            distance,
            roster,
            me_id,
            me_team,
            me_home,
            neighbours,
        ),
{
    let other = cohesion_of(
        plus,
        over,
        count,
        distance,
        roster,
        me_id,
        me_team,
        me_home,
        neighbours,
    );
    assert(is_cohesion_target(
        plus,
        over,
        count,
        distance,
        roster,
        me_id,
        me_team,
        me_home,
        neighbours,
        other,
    ));
    if is_finite_point(me_home) {
        let keys = neighbour_keys(distance, roster, me_id, me_team, me_home);
        let a = choose|order: Seq<usize>| #[trigger]
            is_ranking(keys, order) && r == mean_offset(
                plus,
                over,
                count,
                roster,
                order,
                me_home,
                neighbours,
            );
        let b = choose|order: Seq<usize>| #[trigger]
            is_ranking(keys, order) && other == mean_offset(
                plus,
                over,
                count,
                roster,
                order,
                me_home,
                neighbours,
            );
        ranking_is_unique(keys, a, b);
    }
}

/// Finds where a player keeps the offsets from the nearest neighbours of the default formation.
pub fn relational_shape_cohesion_target<
    P: Fn(Real64, Real64) -> Real64,
    Q: Fn(Real64, Real64) -> Real64,
    C: Fn(usize) -> Real64,
    D: Fn(Vec2, Vec2) -> Real64,
>(
    roster: &Vec<RosterEntry>,
    me_id: usize,
    me_team: Team,
    me_home: Vec2,
    neighbours: usize,
    plus: &P,
    over: &Q,
    count: &C,
    distance: &D,
) -> (r: Option<Vec2>)
    requires
        is_operation(*plus),
        is_operation(*over),
        is_conversion(*count),
        is_distance(*distance),
    ensures
        is_cohesion_target(
            *plus,
            *over,
            *count,
            *distance,
            roster@,
            me_id,
            me_team,
            me_home,
            neighbours,
            r,
        ),
{
    if !finite_point(me_home) {
        return None;
    }
    let ghost all = neighbour_keys(*distance, roster@, me_id, me_team, me_home);
    let mut keys: Vec<Option<i128>> = Vec::new();
    let mut i: usize = 0;
    while i < roster.len()
        invariant
            i <= roster@.len(),
            is_distance(*distance),
            all == neighbour_keys(*distance, roster@, me_id, me_team, me_home),
            keys@ == all.take(i as int),
        decreases roster@.len() - i,
    {
        let e: RosterEntry = roster[i];
        if e.team == me_team && e.id != me_id && e.role != PlayerRole::Goalkeeper && finite_point(
            e.current,
        ) && finite_point(e.home) {
            let d: Real64 = measure(distance, me_home, e.home);
            keys.push(Some(d.order_key() as i128));
        } else {
            keys.push(None);
        }
        i += 1;
        assert(keys@ =~= all.take(i as int));
    }
    assert(keys@ =~= all);
    let order: Vec<usize> = ranking(&keys);
    assert(is_ranking(all, order@));
    if order.len() == 0 {
        return None;
    }
    let wanted: usize = if neighbours > 1 { neighbours } else { 1 };
    let k: usize = if order.len() < wanted { order.len() } else { wanted };
    let mut x: Real64 = at_bits(D0);
    let mut y: Real64 = at_bits(D0);
    let mut j: usize = 0;
    while j < k
        invariant
            j <= k <= order@.len(),
            is_operation(*plus),
            all.len() == roster@.len(),
            is_ranking(all, order@),
            (Vec2 { x, y }) == offsets_sum(*plus, roster@, order@, me_home, j as int),
        decreases k - j,
    {
        assert(order@[j as int] < roster@.len());
        let e: RosterEntry = roster[order[j]];
        let dx: Real64 = apply(plus, me_home.x, e.home.x.negate());
        let dy: Real64 = apply(plus, me_home.y, e.home.y.negate());
        x = apply(plus, x, apply(plus, e.current.x, dx));
        y = apply(plus, y, apply(plus, e.current.y, dy));
        j += 1;
    }
    let n: Real64 = to_number(count, k);
    let target: Vec2 = Vec2 { x: apply(over, x, n), y: apply(over, y, n) };
    if finite_point(target) {
        Some(target)
    } else {
        None
    }
}

/// How far a place is from a target beyond a tolerance; nothing without a target.
pub open spec fn error_beyond<P: Fn(Real64, Real64) -> Real64, D: Fn(Vec2, Vec2) -> Real64>(
    plus: P,
    distance: D,
    target: Option<Vec2>,
    current: Vec2,
    tolerance: Real64,
) -> Real64 {
    match target {
        Some(t) => larger(
            outcome(plus, distance_of(distance, current, t), tolerance.negated()),
            num(D0),
        ),
        None => num(D0),
    }
}

/// Measures how far a player is out of shape.
pub fn relational_shape_error_yards<
    P: Fn(Real64, Real64) -> Real64,
    D: Fn(Vec2, Vec2) -> Real64,
>(
    target: Option<Vec2>,
    current: Vec2,
    tolerance: Real64,
    plus: &P,
    distance: &D,
) -> (r: Real64)
    requires
        is_operation(*plus),
        is_distance(*distance),
    ensures
        r == error_beyond(*plus, *distance, target, current, tolerance),
{
    match target {
        Some(t) => larger_of(
            apply(plus, measure(distance, current, t), tolerance.negate()),
            at_bits(D0),
        ),
        None => at_bits(D0),
    }
}

/// The share of the error that remains by which every step is penalised: light beside what the
/// error shrinks by.
pub const STANDING_SHARE: u64 = 0x3FB9_9999_9999_999A;

/// The reward for coming back into shape: what the error shrank by, less a light standing penalty
/// on the error that remains, each error capped.
pub open spec fn shape_reward<P: Fn(Real64, Real64) -> Real64, M: Fn(Real64, Real64) -> Real64>(
    plus: P,
    times: M,
    before: Real64,
    after: Real64,
    cap: Real64,
    per_yard: Real64,
) -> Real64 {
    let left = smaller(after, cap);
    let gain = outcome(plus, smaller(before, cap), left.negated());
    let standing = outcome(times, num(STANDING_SHARE), left);
    outcome(times, outcome(plus, gain, standing.negated()), per_yard)
}

/// An error that is held is penalised: where it is the same before and after a step, above zero
/// and under the cap, the reward is negative, as long as the arithmetic takes a number from itself
/// to zero, adds nothing to what is added to zero, and keeps the signs of the products.
pub proof fn held_errors_cost<P: Fn(Real64, Real64) -> Real64, M: Fn(Real64, Real64) -> Real64>(
    plus: P,
    times: M,
    held: Real64,
    cap: Real64,
    per_yard: Real64,
)
    requires
        !held.nan(),
        0 < held.key(),
        !cap.nan(),
        held.key() <= cap.key(),
        outcome(plus, held, held.negated()).key() == 0,
        forall|zero: Real64, b: Real64|
            zero.key() == 0 ==> (#[trigger] outcome(plus, zero, b)).key() == b.key(),
        outcome(times, num(STANDING_SHARE), held).key() > 0,
        forall|loss: Real64| loss.key() < 0 ==> (#[trigger] outcome(times, loss, per_yard)).key() < 0,
    ensures
        shape_reward(plus, times, held, held, cap, per_yard).key() < 0,
{
    negation_mirrors(outcome(times, num(STANDING_SHARE), held));
}

/// The home of the first entry with an id, from entry `i` on.
pub open spec fn home_from(roster: Seq<RosterEntry>, id: usize, i: int) -> Option<Vec2>
    decreases roster.len() - i,
{
    if i < 0 || i >= roster.len() {
        None
    } else if roster[i].id == id {
        Some(roster[i].home)
    } else {
        home_from(roster, id, i + 1)
    }
}

fn find_home(roster: &Vec<RosterEntry>, id: usize) -> (r: Option<Vec2>)
    ensures
        r == home_from(roster@, id, 0),
{
    let mut i: usize = 0;
    while i < roster.len()
        invariant
            i <= roster@.len(),
            home_from(roster@, id, 0) == home_from(roster@, id, i as int),
        decreases roster@.len() - i,
    {
        if roster[i].id == id {
            return Some(roster[i].home);
        }
        i += 1;
    }
    None
}

/// The home of a player: as it is listed after a step, else as it was before it.
pub open spec fn home_in(
    after: Seq<RosterEntry>,
    before: Seq<RosterEntry>,
    id: usize,
) -> Option<Vec2> {
    match home_from(after, id, 0) {
        Some(home) => Some(home),
        None => home_from(before, id, 0),
    }
}

/// What a step is rewarded by: the size of the neighbourhood, the tolerance, the cap on an error,
/// and the reward per yard.
#[derive(Clone, Copy, Debug, PartialEq, Eq, Structural)]
pub struct ShapeRewardRates {
    pub neighbours: usize,
    pub tolerance: Real64,
    pub cap: Real64,
    pub per_yard: Real64,
}

/// A player before a step and after it.
#[derive(Clone, Copy, Debug, PartialEq, Eq, Structural)]
pub struct ShapeStep {
    pub player_id: usize,
    pub team: Team,
    pub before: Vec2,
    pub after: Vec2,
}

/// The reward follows from the places that restore the player's offsets before and after a step.
pub open spec fn is_shape_reward<
    P: Fn(Real64, Real64) -> Real64,
    M: Fn(Real64, Real64) -> Real64,
    Q: Fn(Real64, Real64) -> Real64,
    C: Fn(usize) -> Real64,
    D: Fn(Vec2, Vec2) -> Real64,
>(
    plus: P,
    times: M,
    over: Q,
    count: C,
    distance: D,
    before: Seq<RosterEntry>,
    after: Seq<RosterEntry>,
    step: ShapeStep,
    rates: ShapeRewardRates,
    home: Vec2,
    r: Real64,
) -> bool {
    exists|target_before: Option<Vec2>, target_after: Option<Vec2>|
        {
            &&& #[trigger] is_cohesion_target(
                plus,
                over,
                count,
                distance,
                before,
                step.player_id,
                step.team,
                home,
                rates.neighbours,
                target_before,
            )
            &&& #[trigger] is_cohesion_target(
                plus,
                over,
                count,
                distance,
                after,
                step.player_id,
                step.team,
                home,
                rates.neighbours,
                target_after,
            )
            &&& r == shape_reward(
                plus,
                times,
                error_beyond(plus, distance, target_before, step.before, rates.tolerance),
                error_beyond(plus, distance, target_after, step.after, rates.tolerance),
                rates.cap,
                rates.per_yard,
            )
        }
}

/// Rewards a step that brings a player back into shape, and penalises the error that remains; a
/// player who is listed nowhere gets nothing.
pub fn relational_shape_learning_reward<
    P: Fn(Real64, Real64) -> Real64,
    M: Fn(Real64, Real64) -> Real64,
    Q: Fn(Real64, Real64) -> Real64,
    C: Fn(usize) -> Real64,
    D: Fn(Vec2, Vec2) -> Real64,
>(
    before: &Vec<RosterEntry>,
    after: &Vec<RosterEntry>,
    step: &ShapeStep,
    rates: &ShapeRewardRates,
    plus: &P,
    times: &M,
    over: &Q,
    count: &C,
    distance: &D,
) -> (r: Real64)
    requires
        is_operation(*plus),
        is_operation(*times),
        is_operation(*over),
        is_conversion(*count),
        is_distance(*distance),
    ensures
        match home_in(after@, before@, step.player_id) {
            Some(home) => is_shape_reward(
                *plus,
                *times,
                *over,
                *count,
                *distance,
                before@,
                after@,
                *step,
                *rates,
                home,
                r,
            ),
            None => r == num(D0),
        },
{
    let found: Option<Vec2> = match find_home(after, step.player_id) {
        Some(home) => Some(home),
        None => find_home(before, step.player_id),
    };
    let home: Vec2 = match found {
        Some(home) => home,
        None => {
            return at_bits(D0);
        },
    };
    let target_before: Option<Vec2> = relational_shape_cohesion_target(
        before,
        step.player_id,
        step.team,
        home,
        rates.neighbours,
        plus,
        over,
        count,
        distance,
    );
    let target_after: Option<Vec2> = relational_shape_cohesion_target(
        after,
        step.player_id,
        step.team,
        home,
        rates.neighbours,
        plus,
        over,
        count,
        distance,
    );
    let error_before: Real64 = relational_shape_error_yards(
        target_before,
        step.before,
        rates.tolerance,
        plus,
        distance,
    );
    let error_after: Real64 = relational_shape_error_yards(
        target_after,
        step.after,
        rates.tolerance,
        plus,
        distance,
    );
    let left: Real64 = smaller_of(error_after, rates.cap);
    let gain: Real64 = apply(plus, smaller_of(error_before, rates.cap), left.negate());
    let standing: Real64 = apply(times, at_bits(STANDING_SHARE), left);
    apply(times, apply(plus, gain, standing.negate()), rates.per_yard)
}

/// An error is never negative and never NaN.
pub proof fn errors_are_not_negative<
    P: Fn(Real64, Real64) -> Real64,
    D: Fn(Vec2, Vec2) -> Real64,
>(plus: P, distance: D, target: Option<Vec2>, current: Vec2, tolerance: Real64)
    ensures
        !error_beyond(plus, distance, target, current, tolerance).nan(),
        error_beyond(plus, distance, target, current, tolerance).key() >= 0,
{
}

/// What a step towards the shape earns: per yard, what the error fell by less a tenth of what is
/// left, each counted up to the cap.
pub proof fn rewards_pay_for_what_was_gained<
    P: Fn(Real64, Real64) -> Real64,
    M: Fn(Real64, Real64) -> Real64,
>(
    means: spec_fn(Real64, real) -> bool,
    plus: P,
    times: M,
    before: Real64,
    after: Real64,
    cap: Real64,
    per_yard: Real64,
    b: real,
    a: real,
    c: real,
    rate: real,
)
    requires
        is_faithful(means, plus, times),
        means(before, b),
        means(after, a),
        means(cap, c),
        means(per_yard, rate),
    ensures
        means(
            shape_reward(plus, times, before, after, cap, per_yard),
            (least(b, c) - least(a, c) - least(a, c) / 10real) * rate,
        ),
{
    decimals_are_read(means);
    let l = least(a, c);
    let k = least(b, c);
    assert(means(num(STANDING_SHARE), 1real / 10real));
    assert(k + -l == k - l);
    assert(means(outcome(times, num(STANDING_SHARE), smaller(after, cap)), (1real / 10real) * l));
    assert(k - l + -((1real / 10real) * l) == k - l - l / 10real);
}

/// How far a player is off the shape: what the distance from the target is beyond the tolerance,
/// and nothing without a target.
pub proof fn errors_are_what_lies_beyond_the_tolerance<
    P: Fn(Real64, Real64) -> Real64,
    D: Fn(Vec2, Vec2) -> Real64,
>(
    means: spec_fn(Real64, real) -> bool,
    plus: P,
    distance: D,
    target: Option<Vec2>,
    current: Vec2,
    tolerance: Real64,
    d: real,
    t: real,
)
    requires
        reads_sums(means, plus),
        reads_signs(means),
        reads_order(means),
        reads_decimals(means),
        target matches Some(place) ==> means(distance_of(distance, current, place), d),
        means(tolerance, t),
    ensures
        means(
            error_beyond(plus, distance, target, current, tolerance),
            if target is Some { most(d - t, 0real) } else { 0real },
        ),
{
    decimals_are_read(means);
    assert(d + -t == d - t);
}

/// Two neighbours of a line that stand closer than the least gap are pushed apart, each by the
/// corrected half of what is missing, and the rest stay.
pub proof fn close_neighbours_are_pushed_apart<
    P: Fn(Real64, Real64) -> Real64,
    M: Fn(Real64, Real64) -> Real64,
>(
    means: spec_fn(Real64, real) -> bool,
    plus: P,
    times: M,
    slots: Seq<ShapeSlot>,
    l: int,
    r: int,
    min_gap: Real64,
    correction: Real64,
    x: real,
    y: real,
    gap: real,
    share: real,
)
    requires
        is_faithful(means, plus, times),
        0 <= l < slots.len(),
        0 <= r < slots.len(),
        l != r,
        means(slots[l].anchor.x, x),
        means(slots[r].anchor.x, y),
        means(min_gap, gap),
        means(correction, share),
    ensures
        ({
            let after = pushed(plus, times, slots, l, r, min_gap, correction);
            let close = gap_between(plus, slots[l], slots[r]).less(min_gap);
            let push = (gap - (y - x)) / 2real * share;
            &&& means(gap_between(plus, slots[l], slots[r]), y - x)
            &&& after.len() == slots.len()
            &&& forall|i: int| 0 <= i < slots.len() && i != l && i != r ==> after[i] == slots[i]
            &&& after[l].anchor.y == slots[l].anchor.y && after[r].anchor.y == slots[r].anchor.y
            &&& close ==> means(after[l].anchor.x, x - push) && means(after[r].anchor.x, y + push)
            &&& !close ==> after == slots
        }),
{
    decimals_are_read(means);
    assert(y + -x == y - x);
    let d = y - x;
    assert(gap + -d == gap - d);
    let push = (gap - d) / 2real * share;
    assert((gap - d) * (1real / 2real) == (gap - d) / 2real);
    assert(x + -push == x - push);
    let dx = gap_between(plus, slots[l], slots[r]);
    assert(means(dx, d));
    let half = outcome(times, outcome(plus, min_gap, dx.negated()), num(D0_5));
    assert(means(half, (gap - d) / 2real));
    assert(means(outcome(times, half, correction), push));
    let number = outcome(times, half, correction);
    assert(means(number.negated(), -push));
    assert(means(outcome(plus, slots[l].anchor.x, number.negated()), x + -push));
    assert(means(outcome(plus, slots[r].anchor.x, number), y + push));
}

proof fn lines_add_up<P: Fn(Real64, Real64) -> Real64, M: Fn(Real64, Real64) -> Real64>(
    means: spec_fn(Real64, real) -> bool,
    plus: P,
    times: M,
    slots: Seq<ShapeSlot>,
    role: PlayerRole,
    attack_dir: Real64,
    dir: real,
    inside: Seq<bool>,
    y: Seq<real>,
    n: int,
)
    requires
        is_faithful(means, plus, times),
        0 <= n <= slots.len(),
        inside.len() == slots.len(),
        y.len() == slots.len(),
        means(attack_dir, dir),
        forall|i: int| 0 <= i < slots.len() ==> inside[i] == in_line(#[trigger] slots[i], role),
        forall|i: int|
            0 <= i < slots.len() ==> if in_line(#[trigger] slots[i], role) {
                exists|at: real| #[trigger] means(slots[i].anchor.y, at) && y[i] == at * dir
            } else {
                y[i] == 0real
            },
    ensures
        means(line_sum(plus, times, slots, role, attack_dir, n).0, real_sum(y, n)),
        line_sum(plus, times, slots, role, attack_dir, n).1 == set_flags(inside, n),
        0 <= set_flags(inside, n) <= n,
    decreases n,
{
    decimals_are_read(means);
    if n > 0 {
        lines_add_up(means, plus, times, slots, role, attack_dir, dir, inside, y, n - 1);
        let last = slots[n - 1];
    }
}

/// Where a line stands is the mean of how far its players are up the pitch, along the attack; who
/// is not of the line does not count.
pub proof fn lines_stand_at_their_mean_depth<
    P: Fn(Real64, Real64) -> Real64,
    M: Fn(Real64, Real64) -> Real64,
    Q: Fn(Real64, Real64) -> Real64,
    C: Fn(usize) -> Real64,
>(
    means: spec_fn(Real64, real) -> bool,
    plus: P,
    times: M,
    over: Q,
    count: C,
    slots: Seq<ShapeSlot>,
    role: PlayerRole,
    attack_dir: Real64,
    dir: real,
    inside: Seq<bool>,
    y: Seq<real>,
)
    requires
        is_faithful(means, plus, times),
        reads_quotients(means, over),
        reads_counts(means, count),
        slots.len() <= usize::MAX,
        inside.len() == slots.len(),
        y.len() == slots.len(),
        means(attack_dir, dir),
        forall|i: int| 0 <= i < slots.len() ==> inside[i] == in_line(#[trigger] slots[i], role),
        forall|i: int|
            0 <= i < slots.len() ==> if in_line(#[trigger] slots[i], role) {
                exists|at: real| #[trigger] means(slots[i].anchor.y, at) && y[i] == at * dir
            } else {
                y[i] == 0real
            },
    ensures
        ({
            let n = slots.len() as int;
            let counted = set_flags(inside, n);
            let line = line_mean(plus, times, over, count, slots, role, attack_dir);
            &&& line is Some <==> counted > 0
            &&& line is Some ==> means(line->0, real_sum(y, n) / (counted as real))
        }),
{
    let n = slots.len() as int;
    lines_add_up(means, plus, times, slots, role, attack_dir, dir, inside, y, n);
    let counted = set_flags(inside, n);
    if counted > 0 {
        assert(means(number_of(count, counted as usize), counted as real));
    }
}

/// Where the front line is less than the least gap ahead of the one behind, its players go on along
/// the attack by six tenths of what is missing; nobody else moves, and nobody across the pitch.
pub proof fn close_lines_are_pulled_apart<
    P: Fn(Real64, Real64) -> Real64,
    M: Fn(Real64, Real64) -> Real64,
    Q: Fn(Real64, Real64) -> Real64,
    C: Fn(usize) -> Real64,
>(
    means: spec_fn(Real64, real) -> bool,
    plus: P,
    times: M,
    over: Q,
    count: C,
    slots: Seq<ShapeSlot>,
    back: PlayerRole,
    front: PlayerRole,
    attack_dir: Real64,
    min_gap: Real64,
    i: int,
    behind: Real64,
    ahead: Real64,
    b: real,
    a: real,
    g: real,
    dir: real,
    y: real,
)
    requires
        is_faithful(means, plus, times),
        reads_quotients(means, over),
        reads_counts(means, count),
        0 <= i < slots.len(),
        line_mean(plus, times, over, count, slots, back, attack_dir) == Some(behind),
        line_mean(plus, times, over, count, slots, front, attack_dir) == Some(ahead),
        means(behind, b),
        means(ahead, a),
        means(min_gap, g),
        means(attack_dir, dir),
        means(slots[i].anchor.y, y),
    ensures
        ({
            let after = lifted(plus, times, over, count, slots, back, front, attack_dir, min_gap);
            let short = outcome(plus, ahead, behind.negated()).less(min_gap);
            &&& after.len() == slots.len()
            &&& after[i].anchor.x == slots[i].anchor.x && after[i].role == slots[i].role
            &&& short && in_line(slots[i], front) ==> means(
                after[i].anchor.y,
                y + dir * ((g - (a - b)) * (3real / 5real)),
            )
            &&& !short || !in_line(slots[i], front) ==> after[i] == slots[i]
        }),
{
    decimals_are_read(means);
    assert(a + -b == a - b);
    assert(g + -(a - b) == g - (a - b));
}

proof fn offsets_add_up<P: Fn(Real64, Real64) -> Real64>(
    means: spec_fn(Real64, real) -> bool,
    plus: P,
    roster: Seq<RosterEntry>,
    order: Seq<usize>,
    me_home: Vec2,
    hx: real,
    hy: real,
    x: Seq<real>,
    y: Seq<real>,
    n: int,
)
    requires
        reads_sums(means, plus),
        reads_signs(means),
        reads_decimals(means),
        0 <= n <= order.len(),
        x.len() == order.len(),
        y.len() == order.len(),
        stands_at(means, me_home, hx, hy),
        forall|i: int|
            0 <= i < order.len() ==> exists|cx: real, cy: real, ox: real, oy: real|
                #![trigger
                    stands_at(means, roster[order[i] as int].current, cx, cy),
                    stands_at(means, roster[order[i] as int].home, ox, oy)
                ]
                stands_at(means, roster[(#[trigger] order[i]) as int].current, cx, cy) && stands_at(
                    means,
                    roster[order[i] as int].home,
                    ox,
                    oy,
                ) && x[i] == cx + (hx - ox) && y[i] == cy + (hy - oy),
    ensures
        stands_at(
            means,
            offsets_sum(plus, roster, order, me_home, n),
            real_sum(x, n),
            real_sum(y, n),
        ),
    decreases n,
{
    decimals_are_read(means);
    if n > 0 {
        offsets_add_up(means, plus, roster, order, me_home, hx, hy, x, y, n - 1);
        let e = roster[order[n - 1] as int];
        let (cx, cy, ox, oy) = choose|cx: real, cy: real, ox: real, oy: real|
            stands_at(means, e.current, cx, cy) && stands_at(means, e.home, ox, oy) && x[n - 1]
                == cx + (hx - ox) && y[n - 1] == cy + (hy - oy);
        assert(hx + -ox == hx - ox && hy + -oy == hy - oy);
    }
}

/// The place that keeps the shape is the mean, over the neighbours, of where each is now and how
/// far the own home lies from theirs.
pub proof fn shape_is_kept_with_the_neighbours<
    P: Fn(Real64, Real64) -> Real64,
    Q: Fn(Real64, Real64) -> Real64,
    C: Fn(usize) -> Real64,
>(
    means: spec_fn(Real64, real) -> bool,
    plus: P,
    over: Q,
    count: C,
    roster: Seq<RosterEntry>,
    order: Seq<usize>,
    me_home: Vec2,
    neighbours: usize,
    hx: real,
    hy: real,
    x: Seq<real>,
    y: Seq<real>,
)
    requires
        reads_sums(means, plus),
        reads_quotients(means, over),
        reads_counts(means, count),
        reads_signs(means),
        reads_decimals(means),
        0 < neighbours <= order.len(),
        x.len() == order.len(),
        y.len() == order.len(),
        stands_at(means, me_home, hx, hy),
        mean_offset(plus, over, count, roster, order, me_home, neighbours) is Some,
        forall|i: int|
            0 <= i < order.len() ==> exists|cx: real, cy: real, ox: real, oy: real|
                #![trigger
                    stands_at(means, roster[order[i] as int].current, cx, cy),
                    stands_at(means, roster[order[i] as int].home, ox, oy)
                ]
                stands_at(means, roster[(#[trigger] order[i]) as int].current, cx, cy) && stands_at(
                    means,
                    roster[order[i] as int].home,
                    ox,
                    oy,
                ) && x[i] == cx + (hx - ox) && y[i] == cy + (hy - oy),
    ensures
        stands_at(
            means,
            mean_offset(plus, over, count, roster, order, me_home, neighbours)->0,
            real_sum(x, neighbours as int) / (neighbours as int as real),
            real_sum(y, neighbours as int) / (neighbours as int as real),
        ),
{
    offsets_add_up(means, plus, roster, order, me_home, hx, hy, x, y, neighbours as int);
    assert(means(number_of(count, neighbours), neighbours as int as real));
}

} // verus!
