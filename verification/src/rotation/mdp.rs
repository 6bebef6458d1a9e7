//! The rotation as a decision process over benches, solved backwards from the last period.
use crate::number::{apply, at_bits, is_operation, num, outcome, Real64, INFINITY_BITS, SIGN_BIT};
use crate::rotation::policy::{
    hungarian_assign_period, is_assigned, is_solver, unchosen, unchosen_of, AssignmentResult,
};
use crate::rotation::problem::{Schedule, SoccerProblem};
use vstd::prelude::*;

verus! {

/// The subsets with `k` members of the numbers below `n` that start with `prefix` and go on with
/// numbers from `v` on, in lexicographic order.
pub open spec fn subsets(n: int, k: int, prefix: Seq<usize>, v: int) -> Seq<Seq<usize>>
    decreases n - v,
{
    if prefix.len() == k {
        seq![prefix]
    } else if v >= n {
        Seq::empty()
    } else {
        subsets(n, k, prefix.push(v as usize), v + 1) + subsets(n, k, prefix, v + 1)
    }
}

/// The lists read as the subsets say.
pub open spec fn lists_all(lists: Seq<Vec<usize>>, all: Seq<Seq<usize>>) -> bool {
    &&& lists.len() == all.len()
    &&& forall|i: int| 0 <= i < lists.len() ==> (#[trigger] lists[i])@ == all[i]
}

proof fn no_room_no_subsets(n: int, k: int, prefix: Seq<usize>, v: int)
    requires
        prefix.len() < k,
        v <= n,
        n - v < k - prefix.len(),
    ensures
        subsets(n, k, prefix, v).len() == 0,
    decreases n - v,
{
    if v < n {
        no_room_no_subsets(n, k, prefix.push(v as usize), v + 1);
        no_room_no_subsets(n, k, prefix, v + 1);
    }
}

fn extend_subsets(
    out: &mut Vec<Vec<usize>>,
    n: usize,
    k: usize,
    prefix: &Vec<usize>,
    v: usize,
)
    requires
        prefix@.len() <= k,
        v <= n,
    ensures
        final(out)@.len() == old(out)@.len() + subsets(n as int, k as int, prefix@, v as int).len(),
        forall|i: int|
            0 <= i < old(out)@.len() ==> #[trigger] final(out)@[i] == old(out)@[i],
        forall|i: int|
            old(out)@.len() <= i < final(out)@.len() ==> (#[trigger] final(out)@[i])@ == subsets(
                n as int,
                k as int,
                prefix@,
                v as int,
            )[i - old(out)@.len()],
    decreases n - v,
{
    let mut whole: Vec<usize> = Vec::new();
    let mut i: usize = 0;
    while i < prefix.len()
        invariant
            i <= prefix@.len(),
            whole@ == prefix@.take(i as int),
        decreases prefix@.len() - i,
    {
        whole.push(prefix[i]);
        i += 1;
        assert(whole@ =~= prefix@.take(i as int));
    }
    assert(whole@ =~= prefix@);
    if prefix.len() == k {
        out.push(whole);
    } else if n - v < k - prefix.len() {
        proof {
            no_room_no_subsets(n as int, k as int, prefix@, v as int);
        }
    } else {
        whole.push(v);
        let ghost first = subsets(n as int, k as int, prefix@.push(v), v + 1);
        let ghost start = out@.len() as int;
        extend_subsets(out, n, k, &whole, v + 1);
        let ghost middle = out@;
        extend_subsets(out, n, k, prefix, v + 1);
        proof {
            assert forall|i: int| start <= i < out@.len() implies (#[trigger] out@[i])@ == subsets(
                n as int,
                k as int,
                prefix@,
                v as int,
            )[i - start] by {
                if i < start + first.len() {
                    assert(out@[i] == middle[i]);
                }
            }
            assert forall|i: int| 0 <= i < start implies #[trigger] out@[i] == old(out)@[i] by {
                assert(out@[i] == middle[i]);
            }
        }
    }
}

/// Lists all subsets with `k` members of the numbers below `n`, in lexicographic order.
pub fn combinations(n: usize, k: usize) -> (out: Vec<Vec<usize>>)
    ensures
        lists_all(out@, subsets(n as int, k as int, Seq::empty(), 0)),
{
    let mut out: Vec<Vec<usize>> = Vec::new();
    let none: Vec<usize> = Vec::new();
    assert(none@ =~= Seq::<usize>::empty());
    extend_subsets(&mut out, n, k, &none, 0);
    out
}

/// `s` is a subset with `k` members of the numbers below `n`, listed upwards.
pub open spec fn is_subset(s: Seq<usize>, n: int, k: int) -> bool {
    &&& s.len() == k
    &&& forall|i: int| 0 <= i < s.len() ==> #[trigger] s[i] < n
    &&& forall|i: int, j: int| 0 <= i < j < s.len() ==> #[trigger] s[i] < #[trigger] s[j]
}

/// One list comes before another of the same length.
pub open spec fn lex_before(a: Seq<usize>, b: Seq<usize>) -> bool {
    exists|d: int|
        0 <= d < a.len() && d < b.len() && #[trigger] a[d] < b[d] && a.take(d) == b.take(d)
}

/// The members of `subsets(n, k, prefix, v)`.
pub open spec fn continues(s: Seq<usize>, n: int, k: int, prefix: Seq<usize>, v: int) -> bool {
    &&& is_subset(s, n, k)
    &&& prefix.len() <= k
    &&& s.take(prefix.len() as int) == prefix
    &&& forall|i: int| prefix.len() <= i < s.len() ==> #[trigger] s[i] >= v
}

proof fn subsets_continue(n: int, k: int, prefix: Seq<usize>, v: int)
    requires
        0 <= v <= n <= usize::MAX,
        prefix.len() <= k,
        is_subset(prefix, v, prefix.len() as int),
    ensures
        forall|i: int|
            0 <= i < subsets(n, k, prefix, v).len() ==> continues(
                #[trigger] subsets(n, k, prefix, v)[i],
                n,
                k,
                prefix,
                v,
            ),
        forall|i: int, j: int|
            0 <= i < j < subsets(n, k, prefix, v).len() ==> lex_before(
                #[trigger] subsets(n, k, prefix, v)[i],
                #[trigger] subsets(n, k, prefix, v)[j],
            ),
    decreases n - v,
{
    let all = subsets(n, k, prefix, v);
    if prefix.len() == k {
        assert(prefix.take(k) =~= prefix);
        assert forall|i: int| 0 <= i < all.len() implies continues(
            #[trigger] all[i],
            n,
            k,
            prefix,
            v,
        ) by {
            assert(all[i] == prefix);
            assert forall|i: int| 0 <= i < prefix.len() implies #[trigger] prefix[i] < n by {
                assert(prefix[i] < v);
            }
        }
    } else if v < n {
        let longer = prefix.push(v as usize);
        assert(is_subset(longer, v + 1, longer.len() as int)) by {
            assert forall|i: int| 0 <= i < longer.len() implies #[trigger] longer[i] < v + 1 by {
                if i < prefix.len() {
                    assert(prefix[i] < v);
                }
            }
        }
        assert(is_subset(prefix, v + 1, prefix.len() as int)) by {
            assert forall|i: int| 0 <= i < prefix.len() implies #[trigger] prefix[i] < v + 1 by {
                assert(prefix[i] < v);
            }
        }
        subsets_continue(n, k, longer, v + 1);
        subsets_continue(n, k, prefix, v + 1);
        let first = subsets(n, k, longer, v + 1);
        let second = subsets(n, k, prefix, v + 1);
        let m = prefix.len() as int;
        assert forall|i: int| 0 <= i < first.len() implies continues(
            #[trigger] first[i],
            n,
            k,
            prefix,
            v,
        ) && first[i][m] == v by {
            let s = first[i];
            assert(continues(s, n, k, longer, v + 1));
            assert(s.take(m + 1)[m] == longer[m]);
            assert(s.take(m) =~= prefix) by {
                assert(s.take(m + 1) == longer);
                assert forall|j: int| 0 <= j < m implies s[j] == prefix[j] by {
                    assert(s.take(m + 1)[j] == longer[j]);
                }
            }
            assert forall|j: int| m <= j < s.len() implies #[trigger] s[j] >= v by {
                if j > m {
                    assert(s[j] >= v + 1);
                }
            }
        }
        assert forall|i: int| 0 <= i < second.len() implies continues(
            #[trigger] second[i],
            n,
            k,
            prefix,
            v,
        ) && second[i][m] > v by {
            assert(continues(second[i], n, k, prefix, v + 1));
            assert(second[i][m] >= v + 1);
        }
        assert forall|i: int| 0 <= i < all.len() implies continues(
            #[trigger] all[i],
            n,
            k,
            prefix,
            v,
        ) by {
            if i < first.len() {
                assert(all[i] == first[i]);
            } else {
                assert(all[i] == second[i - first.len()]);
            }
        }
        assert forall|i: int, j: int| 0 <= i < j < all.len() implies lex_before(
            #[trigger] all[i],
            #[trigger] all[j],
        ) by {
            if j < first.len() {
                assert(all[i] == first[i] && all[j] == first[j]);
            } else if i >= first.len() {
                assert(all[i] == second[i - first.len()] && all[j] == second[j - first.len()]);
            } else {
                let a = first[i];
                let b = second[j - first.len()];
                assert(all[i] == a && all[j] == b);
                assert(a[m] < b[m] && a.take(m) == b.take(m));
            }
        }
    }
}

proof fn subsets_are_all(n: int, k: int, prefix: Seq<usize>, v: int, s: Seq<usize>)
    requires
        0 <= v <= n <= usize::MAX,
        continues(s, n, k, prefix, v),
    ensures
        subsets(n, k, prefix, v).contains(s),
    decreases n - v,
{
    let all = subsets(n, k, prefix, v);
    let m = prefix.len() as int;
    if m == k {
        assert(s.take(k) =~= s);
        assert(all[0] == s);
    } else {
        assert(v <= s[m] < n);
        let first = subsets(n, k, prefix.push(v as usize), v + 1);
        let second = subsets(n, k, prefix, v + 1);
        if s[m] == v {
            assert(s.take(m + 1) =~= prefix.push(v as usize)) by {
                assert forall|j: int| 0 <= j < m implies s[j] == prefix[j] by {
                    assert(s.take(m)[j] == prefix[j]);
                }
            }
            assert forall|j: int| m + 1 <= j < s.len() implies #[trigger] s[j] >= v + 1 by {
                assert(s[m] < s[j]);
            }
            subsets_are_all(n, k, prefix.push(v as usize), v + 1, s);
            let i = choose|i: int| 0 <= i < first.len() && first[i] == s;
            assert(all[i] == s);
        } else {
            assert forall|j: int| m <= j < s.len() implies #[trigger] s[j] >= v + 1 by {
                if j > m {
                    assert(s[m] < s[j]);
                }
            }
            subsets_are_all(n, k, prefix, v + 1, s);
            let i = choose|i: int| 0 <= i < second.len() && second[i] == s;
            assert(all[first.len() + i] == s);
        }
    }
}

/// The combinations are exactly the subsets of the size, in lexicographic order and each once.
pub proof fn combinations_are_the_subsets(n: int, k: int, s: Seq<usize>)
    requires
        0 <= n <= usize::MAX,
        0 <= k,
    ensures
        subsets(n, k, Seq::empty(), 0).contains(s) <==> is_subset(s, n, k),
        forall|i: int, j: int|
            0 <= i < j < subsets(n, k, Seq::empty(), 0).len() ==> lex_before(
                #[trigger] subsets(n, k, Seq::empty(), 0)[i],
                #[trigger] subsets(n, k, Seq::empty(), 0)[j],
            ),
{
    subsets_continue(n, k, Seq::empty(), 0);
    let all = subsets(n, k, Seq::empty(), 0);
    if is_subset(s, n, k) {
        assert(s.take(0) =~= Seq::<usize>::empty());
        subsets_are_all(n, k, Seq::empty(), 0, s);
    }
    if all.contains(s) {
        let i = choose|i: int| 0 <= i < all.len() && all[i] == s;
        assert(continues(all[i], n, k, Seq::empty(), 0));
    }
}

/// The addition yields numbers and keeps the order of its second argument.
pub open spec fn is_monotone<A: Fn(Real64, Real64) -> Real64>(plus: A) -> bool {
    &&& forall|x: Real64, a: Real64|
        !x.nan() && !a.nan() ==> !(#[trigger] outcome(plus, x, a)).nan()
    &&& forall|x: Real64, a: Real64, b: Real64|
        !x.nan() && !a.nan() && !b.nan() && a.key() <= b.key() ==> (#[trigger] outcome(
            plus,
            x,
            a,
        )).key() <= (#[trigger] outcome(plus, x, b)).key()
}

/// Minus infinity, below every value.
pub open spec fn lowest() -> Real64 {
    Real64 { bits: (SIGN_BIT + INFINITY_BITS) as u64 }
}

/// No member of one list is on the other.
pub open spec fn is_disjoint(a: Seq<usize>, b: Seq<usize>) -> bool {
    forall|i: int| 0 <= i < b.len() ==> !a.contains(#[trigger] b[i])
}

/// Bench `b` may follow bench `prev`: nobody sits on both.
pub open spec fn may_follow(benches: Seq<Vec<usize>>, prev: Option<int>, b: int) -> bool {
    match prev {
        Some(a) => is_disjoint(benches[a]@, benches[b]@),
        None => true,
    }
}

/// The best of the first `n` benches for period `t` after bench `prev`, the first of several,
/// and its value: the reward of the period and the value of what can follow.
pub open spec fn best_bench<A: Fn(Real64, Real64) -> Real64>(
    plus: A,
    benches: Seq<Vec<usize>>,
    rewards: Seq<Vec<Real64>>,
    t: int,
    prev: Option<int>,
    n: int,
) -> (Option<int>, Real64)
    decreases rewards.len() - t, n,
{
    if n <= 0 {
        (None, lowest())
    } else {
        let best = best_bench(plus, benches, rewards, t, prev, n - 1);
        if !may_follow(benches, prev, n - 1) {
            best
        } else {
            let value = outcome(
                plus,
                rewards[t]@[n - 1],
                if t + 1 >= rewards.len() {
                    Real64 { bits: 0 }
                } else {
                    best_bench(
                        plus,
                        benches,
                        rewards,
                        t + 1,
                        Some(n - 1),
                        benches.len() as int,
                    ).1
                },
            );
            if best.1.less(value) {
                (Some(n - 1), value)
            } else {
                best
            }
        }
    }
}

/// The value of what can follow bench `b` of period `t - 1`.
pub open spec fn value_after<A: Fn(Real64, Real64) -> Real64>(
    plus: A,
    benches: Seq<Vec<usize>>,
    rewards: Seq<Vec<Real64>>,
    t: int,
    b: int,
) -> Real64 {
    if t >= rewards.len() {
        Real64 { bits: 0 }
    } else {
        best_bench(plus, benches, rewards, t, Some(b), benches.len() as int).1
    }
}

/// The bench of the period before `t`.
pub open spec fn previous(path: Seq<usize>, t: int) -> Option<int> {
    if t > 0 {
        Some(path[t - 1] as int)
    } else {
        None
    }
}

/// The first `t` benches of the path are the best ones, each after the one before it.
pub open spec fn is_best_path<A: Fn(Real64, Real64) -> Real64>(
    plus: A,
    benches: Seq<Vec<usize>>,
    rewards: Seq<Vec<Real64>>,
    path: Seq<usize>,
    t: int,
) -> bool {
    &&& path.len() == t
    &&& forall|u: int|
        0 <= u < t ==> #[trigger] path[u] < benches.len() && best_bench(
            plus,
            benches,
            rewards,
            u,
            previous(path, u),
            benches.len() as int,
        ).0 == Some(path[u] as int)
}

/// There is a reward for every bench in every period.
pub open spec fn rewards_all(benches: Seq<Vec<usize>>, rewards: Seq<Vec<Real64>>) -> bool {
    forall|t: int| 0 <= t < rewards.len() ==> (#[trigger] rewards[t])@.len() == benches.len()
}

/// A plan: the bench of every period, by its number, and the value of the whole.
#[derive(Debug)]
pub struct MdpPlan {
    pub picks: Vec<usize>,
    pub value: Real64,
}

fn disjoint(a: &Vec<usize>, b: &Vec<usize>) -> (r: bool)
    ensures
        r == is_disjoint(a@, b@),
{
    let mut i: usize = 0;
    while i < b.len()
        invariant
            i <= b@.len(),
            forall|k: int| 0 <= k < i ==> !a@.contains(#[trigger] b@[k]),
        decreases b@.len() - i,
    {
        let mut j: usize = 0;
        while j < a.len()
            invariant
                j <= a@.len(),
                i < b@.len(),
                forall|k: int| 0 <= k < j ==> a@[k] != b@[i as int],
            decreases a@.len() - j,
        {
            if a[j] == b[i] {
                assert(a@.contains(b@[i as int]));
                return false;
            }
            j += 1;
        }
        i += 1;
    }
    true
}

fn best_bench_of<A: Fn(Real64, Real64) -> Real64>(
    plus: &A,
    benches: &Vec<Vec<usize>>,
    rewards: &Vec<Vec<Real64>>,
    t: usize,
    prev: Option<usize>,
    after: &Vec<Real64>,
) -> (r: (Option<usize>, Real64))
    requires
        is_operation(*plus),
        t < rewards@.len(),
        rewards_all(benches@, rewards@),
        prev is Some ==> prev->0 < benches@.len(),
        after@.len() == benches@.len(),
        forall|b: int|
            0 <= b < after@.len() ==> #[trigger] after@[b] == value_after(
                *plus,
                benches@,
                rewards@,
                t + 1,
                b,
            ),
    ensures
        ({
            let p = match prev {
                Some(a) => Some(a as int),
                None => None,
            };
            let best = best_bench(*plus, benches@, rewards@, t as int, p, benches@.len() as int);
            &&& r.1 == best.1
            &&& r.0 is Some <==> best.0 is Some
            &&& r.0 is Some ==> r.0->0 == best.0->0 && r.0->0 < benches@.len()
        }),
{
    let ghost p = match prev {
        Some(a) => Some(a as int),
        None => None,
    };
    let mut pick: Option<usize> = None;
    let mut value: Real64 = Real64 { bits: SIGN_BIT + INFINITY_BITS };
    let n: usize = benches.len();
    assert(rewards@[t as int]@.len() == n);
    let mut b: usize = 0;
    while b < n
        invariant
            b <= n,
            n == benches@.len(),
            is_operation(*plus),
            t < rewards@.len(),
            rewards@[t as int]@.len() == n,
            prev is Some ==> prev->0 < benches@.len(),
            p == match prev {
                Some(a) => Some(a as int),
                None => None,
            },
            after@.len() == n,
            forall|b: int|
                0 <= b < after@.len() ==> #[trigger] after@[b] == value_after(
                    *plus,
                    benches@,
                    rewards@,
                    t + 1,
                    b,
                ),
            ({
                let best = best_bench(*plus, benches@, rewards@, t as int, p, b as int);
                &&& value == best.1
                &&& pick is Some <==> best.0 is Some
                &&& pick is Some ==> pick->0 == best.0->0 && pick->0 < b
            }),
        decreases n - b,
    {
        let open: bool = match prev {
            Some(a) => disjoint(&benches[a], &benches[b]),
            None => true,
        };
        if open {
            let reward: Real64 = rewards[t][b];
            assert(after@[b as int] == value_after(*plus, benches@, rewards@, t + 1, b as int));
            let total: Real64 = apply(plus, reward, after[b]);
            if value.is_below(total) {
                value = total;
                pick = Some(b);
            }
        }
        b += 1;
    }
    (pick, value)
}

/// Finds the best path of benches by working backwards from the last period. There is none
/// where at some point no bench has a value.
pub fn backward_induction<A: Fn(Real64, Real64) -> Real64>(
    benches: &Vec<Vec<usize>>,
    rewards: &Vec<Vec<Real64>>,
    plus: &A,
) -> (r: Option<MdpPlan>)
    requires
        is_operation(*plus),
        rewards_all(benches@, rewards@),
        rewards@.len() > 0,
    ensures
        r is Some ==> is_best_path(
            *plus,
            benches@,
            rewards@,
            r->0.picks@,
            rewards@.len() as int,
        ) && r->0.value == best_bench(
            *plus,
            benches@,
            rewards@,
            0,
            None,
            benches@.len() as int,
        ).1,
        r is None ==> exists|path: Seq<usize>, t: int| #[trigger]
            is_best_path(*plus, benches@, rewards@, path, t) && 0 <= t < rewards@.len()
                && best_bench(
                *plus,
                benches@,
                rewards@,
                t,
                previous(path, t),
                benches@.len() as int,
            ).0 is None,
{
    let periods: usize = rewards.len();
    let n: usize = benches.len();
    // choices[periods - t] holds, for every bench of period t - 1, the best bench of period t.
    let mut choices: Vec<Vec<Option<usize>>> = Vec::new();
    let mut after: Vec<Real64> = Vec::new();
    let mut b: usize = 0;
    while b < n
        invariant
            b <= n,
            n == benches@.len(),
            after@.len() == b,
            forall|c: int| 0 <= c < b ==> #[trigger] after@[c] == (Real64 { bits: 0 }),
        decreases n - b,
    {
        after.push(Real64 { bits: 0 });
        b += 1;
    }
    let mut t: usize = periods - 1;
    while t > 0
        invariant
            t < periods,
            periods == rewards@.len(),
            n == benches@.len(),
            is_operation(*plus),
            rewards_all(benches@, rewards@),
            after@.len() == n,
            forall|c: int|
                0 <= c < n ==> #[trigger] after@[c] == value_after(
                    *plus,
                    benches@,
                    rewards@,
                    t + 1,
                    c,
                ),
            choices@.len() == periods - 1 - t,
            forall|k: int| 0 <= k < choices@.len() ==> (#[trigger] choices@[k])@.len() == n,
            forall|k: int, c: int|
                0 <= k < choices@.len() && 0 <= c < n ==> {
                    let best = best_bench(
                        *plus,
                        benches@,
                        rewards@,
                        periods - 1 - k,
                        Some(c),
                        n as int,
                    ).0;
                    let choice = #[trigger] choices@[k]@[c];
                    &&& choice is Some <==> best is Some
                    &&& choice is Some ==> choice->0 == best->0 && choice->0 < n
                },
        decreases t,
    {
        let mut row: Vec<Option<usize>> = Vec::new();
        let mut values: Vec<Real64> = Vec::new();
        let mut c: usize = 0;
        while c < n
            invariant
                c <= n,
                0 < t < periods,
                periods == rewards@.len(),
                n == benches@.len(),
                is_operation(*plus),
                rewards_all(benches@, rewards@),
                after@.len() == n,
                forall|c: int|
                    0 <= c < n ==> #[trigger] after@[c] == value_after(
                        *plus,
                        benches@,
                        rewards@,
                        t + 1,
                        c,
                    ),
                row@.len() == c,
                values@.len() == c,
                forall|d: int|
                    0 <= d < c ==> #[trigger] values@[d] == value_after(
                        *plus,
                        benches@,
                        rewards@,
                        t as int,
                        d,
                    ),
                forall|d: int|
                    0 <= d < c ==> {
                        let best = best_bench(
                            *plus,
                            benches@,
                            rewards@,
                            t as int,
                            Some(d),
                            n as int,
                        ).0;
                        let choice = #[trigger] row@[d];
                        &&& choice is Some <==> best is Some
                        &&& choice is Some ==> choice->0 == best->0 && choice->0 < n
                    },
            decreases n - c,
        {
            let (pick, value): (Option<usize>, Real64) = best_bench_of(
                plus,
                benches,
                rewards,
                t,
                Some(c),
                &after,
            );
            row.push(pick);
            values.push(value);
            c += 1;
        }
        choices.push(row);
        after = values;
        t -= 1;
    }
    let (first, value): (Option<usize>, Real64) = best_bench_of(
        plus,
        benches,
        rewards,
        0,
        None,
        &after,
    );
    let mut picks: Vec<usize> = Vec::new();
    let start: usize = match first {
        Some(b) => b,
        None => {
            assert(is_best_path(*plus, benches@, rewards@, picks@, 0));
            return None;
        },
    };
    picks.push(start);
    let mut u: usize = 1;
    while u < periods
        invariant
            1 <= u <= periods,
            periods == rewards@.len(),
            n == benches@.len(),
            is_best_path(*plus, benches@, rewards@, picks@, u as int),
            choices@.len() == periods - 1,
            forall|k: int| 0 <= k < choices@.len() ==> (#[trigger] choices@[k])@.len() == n,
            forall|k: int, c: int|
                0 <= k < choices@.len() && 0 <= c < n ==> {
                    let best = best_bench(
                        *plus,
                        benches@,
                        rewards@,
                        periods - 1 - k,
                        Some(c),
                        n as int,
                    ).0;
                    let choice = #[trigger] choices@[k]@[c];
                    &&& choice is Some <==> best is Some
                    &&& choice is Some ==> choice->0 == best->0 && choice->0 < n
                },
        decreases periods - u,
    {
        assert(picks@[u - 1] < n);
        let prev: usize = picks[u - 1];
        assert(choices@[periods - 1 - u]@.len() == n);
        let ghost known = choices@[periods - 1 - u]@[prev as int];
        let next: Option<usize> = choices[periods - 1 - u][prev];
        let ghost before = picks@;
        match next {
            Some(b) => {
                picks.push(b);
                proof {
                    assert forall|v: int| 0 <= v < u + 1 implies #[trigger] picks@[v] < n
                        && best_bench(
                        *plus,
                        benches@,
                        rewards@,
                        v,
                        previous(picks@, v),
                        n as int,
                    ).0 == Some(picks@[v] as int) by {
                        if v < u {
                            assert(picks@[v] == before[v]);
                            if v > 0 {
                                assert(picks@[v - 1] == before[v - 1]);
                            }
                        } else {
                            assert(picks@[v - 1] == before[v - 1]);
                        }
                    }
                }
            },
            None => {
                return None;
            },
        }
        u += 1;
    }
    Some(MdpPlan { picks, value })
}

pub(crate) proof fn best_may_follow<A: Fn(Real64, Real64) -> Real64>(
    plus: A,
    benches: Seq<Vec<usize>>,
    rewards: Seq<Vec<Real64>>,
    t: int,
    prev: Option<int>,
    n: int,
)
    ensures
        ({
            let best = best_bench(plus, benches, rewards, t, prev, n);
            best.0 is Some ==> 0 <= best.0->0 < n && may_follow(benches, prev, best.0->0)
                && best.1 == outcome(
                plus,
                rewards[t]@[best.0->0],
                value_after(plus, benches, rewards, t + 1, best.0->0),
            )
        }),
    decreases n,
{
    if n > 0 {
        best_may_follow(plus, benches, rewards, t, prev, n - 1);
    }
}

/// The best path benches nobody twice in a row.
pub proof fn best_paths_are_fair<A: Fn(Real64, Real64) -> Real64>(
    plus: A,
    benches: Seq<Vec<usize>>,
    rewards: Seq<Vec<Real64>>,
    path: Seq<usize>,
    t: int,
)
    requires
        is_best_path(plus, benches, rewards, path, rewards.len() as int),
        0 < t < rewards.len(),
    ensures
        is_disjoint(benches[path[t - 1] as int]@, benches[path[t] as int]@),
{
    assert(path[t] < benches.len());
    best_may_follow(
        plus,
        benches,
        rewards,
        t,
        previous(path, t),
        benches.len() as int,
    );
}

/// The value of a path from period `t` on: its rewards summed from the last one backwards.
pub open spec fn path_value<A: Fn(Real64, Real64) -> Real64>(
    plus: A,
    rewards: Seq<Vec<Real64>>,
    path: Seq<usize>,
    t: int,
) -> Real64
    decreases rewards.len() - t,
{
    if t >= rewards.len() {
        Real64 { bits: 0 }
    } else {
        outcome(plus, rewards[t]@[path[t] as int], path_value(plus, rewards, path, t + 1))
    }
}

/// The value of the best path is what its own rewards come to.
pub proof fn best_path_earns_its_value<A: Fn(Real64, Real64) -> Real64>(
    plus: A,
    benches: Seq<Vec<usize>>,
    rewards: Seq<Vec<Real64>>,
    path: Seq<usize>,
    t: int,
)
    requires
        is_best_path(plus, benches, rewards, path, rewards.len() as int),
        0 <= t < rewards.len(),
    ensures
        best_bench(
            plus,
            benches,
            rewards,
            t,
            previous(path, t),
            benches.len() as int,
        ).1 == path_value(plus, rewards, path, t),
    decreases rewards.len() - t,
{
    assert(path[t] < benches.len());
    best_may_follow(
        plus,
        benches,
        rewards,
        t,
        previous(path, t),
        benches.len() as int,
    );
    reveal_with_fuel(path_value, 2);
    if t + 1 < rewards.len() {
        best_path_earns_its_value(plus, benches, rewards, path, t + 1);
        assert(previous(path, t + 1) == Some(path[t] as int));
    }
}

/// The path names benches that there are, and nobody sits on two of them in a row.
pub open spec fn is_fair_path(benches: Seq<Vec<usize>>, path: Seq<usize>, periods: int) -> bool {
    &&& path.len() == periods
    &&& forall|t: int| 0 <= t < periods ==> #[trigger] path[t] < benches.len()
    &&& forall|t: int|
        0 < t < periods ==> is_disjoint(
            benches[path[t - 1] as int]@,
            benches[#[trigger] path[t] as int]@,
        )
}

/// No reward is NaN.
pub open spec fn rewards_are_numbers(rewards: Seq<Vec<Real64>>) -> bool {
    forall|t: int, b: int|
        0 <= t < rewards.len() && 0 <= b < rewards[t]@.len() ==> !(#[trigger] rewards[t]@[b]).nan()
}

pub(crate) proof fn best_is_a_number<A: Fn(Real64, Real64) -> Real64>(
    plus: A,
    benches: Seq<Vec<usize>>,
    rewards: Seq<Vec<Real64>>,
    t: int,
    prev: Option<int>,
    n: int,
)
    requires
        is_monotone(plus),
        rewards_all(benches, rewards),
        rewards_are_numbers(rewards),
        0 <= t < rewards.len(),
        0 <= n <= benches.len(),
    ensures
        !best_bench(plus, benches, rewards, t, prev, n).1.nan(),
    decreases rewards.len() - t, n,
{
    if n > 0 {
        best_is_a_number(plus, benches, rewards, t, prev, n - 1);
    }
}

proof fn best_is_no_worse<A: Fn(Real64, Real64) -> Real64>(
    plus: A,
    benches: Seq<Vec<usize>>,
    rewards: Seq<Vec<Real64>>,
    t: int,
    prev: Option<int>,
    n: int,
    b: int,
)
    requires
        is_monotone(plus),
        rewards_all(benches, rewards),
        rewards_are_numbers(rewards),
        0 <= t < rewards.len(),
        0 <= b < n <= benches.len(),
        may_follow(benches, prev, b),
    ensures
        outcome(plus, rewards[t]@[b], value_after(plus, benches, rewards, t + 1, b)).key()
            <= best_bench(plus, benches, rewards, t, prev, n).1.key(),
    decreases n,
{
    best_is_a_number(plus, benches, rewards, t, prev, n - 1);
    if b < n - 1 {
        best_is_no_worse(plus, benches, rewards, t, prev, n - 1, b);
    } else {
        assert(rewards[t]@.len() == benches.len());
        assert(!rewards[t]@[b].nan());
        if t + 1 < rewards.len() {
            best_is_a_number(plus, benches, rewards, t + 1, Some(b), benches.len() as int);
        }
    }
}

/// No fair path is worth more than the best one, as long as the addition keeps order.
pub proof fn best_path_dominates<A: Fn(Real64, Real64) -> Real64>(
    plus: A,
    benches: Seq<Vec<usize>>,
    rewards: Seq<Vec<Real64>>,
    path: Seq<usize>,
    t: int,
)
    requires
        is_monotone(plus),
        rewards_all(benches, rewards),
        rewards_are_numbers(rewards),
        is_fair_path(benches, path, rewards.len() as int),
        0 <= t < rewards.len(),
    ensures
        !path_value(plus, rewards, path, t).nan(),
        path_value(plus, rewards, path, t).key() <= best_bench(
            plus,
            benches,
            rewards,
            t,
            previous(path, t),
            benches.len() as int,
        ).1.key(),
    decreases rewards.len() - t,
{
    let b = path[t] as int;
    assert(path[t] < benches.len());
    assert(rewards[t]@.len() == benches.len());
    assert(!rewards[t]@[b].nan());
    if t > 0 {
        assert(is_disjoint(benches[path[t - 1] as int]@, benches[path[t] as int]@));
    }
    let n = benches.len() as int;
    reveal_with_fuel(path_value, 2);
    if t + 1 < rewards.len() {
        best_path_dominates(plus, benches, rewards, path, t + 1);
        best_is_a_number(plus, benches, rewards, t + 1, Some(b), n);
        assert(previous(path, t + 1) == Some(b));
    }
    best_is_no_worse(plus, benches, rewards, t, previous(path, t), n, b);
}

/// The reward of a bench in a period is the total of the solver's match of the others, and the
/// line-up seats them as matched.
pub open spec fn is_priced<F: Fn(&Vec<Vec<Real64>>) -> AssignmentResult>(
    problem: SoccerProblem,
    solve: F,
    t: int,
    bench: Seq<usize>,
    reward: Real64,
    line_up: Seq<i64>,
) -> bool {
    is_assigned(
        problem,
        solve,
        t,
        unchosen(bench, problem.num_players as int),
        reward,
        line_up,
    )
}

/// Prices a bench in a period.
pub fn period_reward_and_assignment<F: Fn(&Vec<Vec<Real64>>) -> AssignmentResult>(
    problem: &SoccerProblem,
    t: usize,
    bench: &Vec<usize>,
    solve: &F,
) -> (r: (Real64, Vec<i64>))
    requires
        problem.has_affinities(),
        problem.num_players <= i64::MAX,
        t < problem.num_periods,
        is_solver(*solve),
    ensures
        is_priced(*problem, *solve, t as int, bench@, r.0, r.1@),
{
    let side: Vec<usize> = unchosen_of(bench, problem.num_players);
    proof {
        unchosen_are_players(bench@, problem.num_players as int, problem.num_players as int);
    }
    hungarian_assign_period(problem, t, &side, solve)
}

proof fn unchosen_are_players(chosen: Seq<usize>, n: int, players: int)
    requires
        0 <= n <= players <= usize::MAX,
    ensures
        forall|i: int|
            0 <= i < unchosen(chosen, n).len() ==> #[trigger] unchosen(chosen, n)[i] < players,
    decreases n,
{
    if n > 0 {
        unchosen_are_players(chosen, n - 1, players);
        let rest = unchosen(chosen, n - 1);
        assert forall|i: int| 0 <= i < unchosen(chosen, n).len() implies #[trigger] unchosen(
            chosen,
            n,
        )[i] < players by {
            if i < rest.len() {
                assert(rest[i] < players);
            }
        }
    }
}

/// The rewards and line-ups of every bench in every period.
pub open spec fn is_price_table<F: Fn(&Vec<Vec<Real64>>) -> AssignmentResult>(
    problem: SoccerProblem,
    solve: F,
    benches: Seq<Vec<usize>>,
    rewards: Seq<Vec<Real64>>,
    line_ups: Seq<Vec<Vec<i64>>>,
) -> bool {
    &&& rewards.len() == problem.num_periods
    &&& line_ups.len() == problem.num_periods
    &&& rewards_all(benches, rewards)
    &&& forall|t: int|
        0 <= t < line_ups.len() ==> (#[trigger] line_ups[t])@.len() == benches.len()
    &&& forall|t: int, b: int|
        0 <= t < rewards.len() && 0 <= b < benches.len() ==> is_priced(
            problem,
            solve,
            t,
            benches[b]@,
            #[trigger] rewards[t]@[b],
            line_ups[t]@[b]@,
        )
}

fn price_table<F: Fn(&Vec<Vec<Real64>>) -> AssignmentResult>(
    problem: &SoccerProblem,
    benches: &Vec<Vec<usize>>,
    solve: &F,
) -> (r: (Vec<Vec<Real64>>, Vec<Vec<Vec<i64>>>))
    requires
        problem.has_affinities(),
        problem.num_players <= i64::MAX,
        is_solver(*solve),
    ensures
        is_price_table(*problem, *solve, benches@, r.0@, r.1@),
{
    let n: usize = benches.len();
    let mut rewards: Vec<Vec<Real64>> = Vec::new();
    let mut line_ups: Vec<Vec<Vec<i64>>> = Vec::new();
    let mut t: usize = 0;
    while t < problem.num_periods
        invariant
            t <= problem.num_periods,
            n == benches@.len(),
            problem.has_affinities(),
            problem.num_players <= i64::MAX,
            is_solver(*solve),
            rewards@.len() == t,
            line_ups@.len() == t,
            forall|u: int| 0 <= u < t ==> (#[trigger] rewards@[u])@.len() == n,
            forall|u: int| 0 <= u < t ==> (#[trigger] line_ups@[u])@.len() == n,
            forall|u: int, b: int|
                0 <= u < t && 0 <= b < n ==> is_priced(
                    *problem,
                    *solve,
                    u,
                    benches@[b]@,
                    #[trigger] rewards@[u]@[b],
                    line_ups@[u]@[b]@,
                ),
        decreases problem.num_periods - t,
    {
        let mut row: Vec<Real64> = Vec::new();
        let mut seats: Vec<Vec<i64>> = Vec::new();
        let mut b: usize = 0;
        while b < n
            invariant
                b <= n,
                n == benches@.len(),
                t < problem.num_periods,
                problem.has_affinities(),
                problem.num_players <= i64::MAX,
                is_solver(*solve),
                row@.len() == b,
                seats@.len() == b,
                forall|c: int|
                    0 <= c < b ==> is_priced(
                        *problem,
                        *solve,
                        t as int,
                        benches@[c]@,
                        #[trigger] row@[c],
                        seats@[c]@,
                    ),
            decreases n - b,
        {
            let (reward, line_up): (Real64, Vec<i64>) = period_reward_and_assignment(
                problem,
                t,
                &benches[b],
                solve,
            );
            row.push(reward);
            seats.push(line_up);
            b += 1;
        }
        rewards.push(row);
        line_ups.push(seats);
        t += 1;
    }
    (rewards, line_ups)
}

/// A schedule with the value of its benches.
#[derive(Debug)]
pub struct MdpScheduleResult {
    pub assignment: Vec<Vec<i64>>,
    pub bench: Vec<Vec<usize>>,
    pub optimal_value: Real64,
}

pub(crate) fn copy_seats(row: &Vec<i64>) -> (r: Vec<i64>)
    ensures
        r@ == row@,
{
    let mut r: Vec<i64> = Vec::new();
    let mut i: usize = 0;
    while i < row.len()
        invariant
            i <= row@.len(),
            r@ == row@.take(i as int),
        decreases row@.len() - i,
    {
        r.push(row[i]);
        i += 1;
        assert(r@ =~= row@.take(i as int));
    }
    assert(row@.take(row@.len() as int) =~= row@);
    r
}

pub(crate) fn copy_bench(row: &Vec<usize>) -> (r: Vec<usize>)
    ensures
        r@ == row@,
{
    let mut r: Vec<usize> = Vec::new();
    let mut i: usize = 0;
    while i < row.len()
        invariant
            i <= row@.len(),
            r@ == row@.take(i as int),
        decreases row@.len() - i,
    {
        r.push(row[i]);
        i += 1;
        assert(r@ =~= row@.take(i as int));
    }
    assert(row@.take(row@.len() as int) =~= row@);
    r
}

impl MdpScheduleResult {
    /// The schedule without the value.
    pub fn to_schedule(&self) -> (s: Schedule)
        ensures
            s.assignment@.len() == self.assignment@.len(),
            s.bench@.len() == self.bench@.len(),
            forall|t: int|
                0 <= t < s.assignment@.len() ==> (#[trigger] s.assignment@[t])@
                    == self.assignment@[t]@,
            forall|t: int|
                0 <= t < s.bench@.len() ==> (#[trigger] s.bench@[t])@ == self.bench@[t]@,
    {
        let mut assignment: Vec<Vec<i64>> = Vec::new();
        let mut t: usize = 0;
        while t < self.assignment.len()
            invariant
                t <= self.assignment@.len(),
                assignment@.len() == t,
                forall|u: int|
                    0 <= u < t ==> (#[trigger] assignment@[u])@ == self.assignment@[u]@,
            decreases self.assignment@.len() - t,
        {
            assignment.push(copy_seats(&self.assignment[t]));
            t += 1;
        }
        let mut bench: Vec<Vec<usize>> = Vec::new();
        let mut t: usize = 0;
        while t < self.bench.len()
            invariant
                t <= self.bench@.len(),
                bench@.len() == t,
                forall|u: int| 0 <= u < t ==> (#[trigger] bench@[u])@ == self.bench@[u]@,
            decreases self.bench@.len() - t,
        {
            bench.push(copy_bench(&self.bench[t]));
            t += 1;
        }
        Schedule { assignment, bench }
    }
}

/// The result takes the benches and line-ups that the picks name.
pub open spec fn takes_picks(
    benches: Seq<Vec<usize>>,
    line_ups: Seq<Vec<Vec<i64>>>,
    picks: Seq<usize>,
    assignment: Seq<Vec<i64>>,
    bench: Seq<Vec<usize>>,
    periods: int,
) -> bool {
    &&& assignment.len() == periods
    &&& bench.len() == periods
    &&& forall|t: int|
        0 <= t < periods ==> (#[trigger] assignment[t])@ == line_ups[t]@[picks[t] as int]@
    &&& forall|t: int| 0 <= t < periods ==> (#[trigger] bench[t])@ == benches[picks[t] as int]@
}

/// The benches and line-ups that the picks name.
fn take_picks(
    benches: &Vec<Vec<usize>>,
    line_ups: &Vec<Vec<Vec<i64>>>,
    picks: &Vec<usize>,
) -> (r: (Vec<Vec<i64>>, Vec<Vec<usize>>))
    requires
        picks@.len() == line_ups@.len(),
        forall|t: int| 0 <= t < picks@.len() ==> #[trigger] picks@[t] < benches@.len(),
        forall|t: int|
            0 <= t < line_ups@.len() ==> (#[trigger] line_ups@[t])@.len() == benches@.len(),
    ensures
        takes_picks(benches@, line_ups@, picks@, r.0@, r.1@, picks@.len() as int),
{
    let mut assignment: Vec<Vec<i64>> = Vec::new();
    let mut bench: Vec<Vec<usize>> = Vec::new();
    let mut t: usize = 0;
    while t < picks.len()
        invariant
            t <= picks@.len(),
            picks@.len() == line_ups@.len(),
            forall|t: int| 0 <= t < picks@.len() ==> #[trigger] picks@[t] < benches@.len(),
            forall|t: int|
                0 <= t < line_ups@.len() ==> (#[trigger] line_ups@[t])@.len() == benches@.len(),
            takes_picks(benches@, line_ups@, picks@, assignment@, bench@, t as int),
        decreases picks@.len() - t,
    {
        assert(picks@[t as int] < benches@.len());
        assert(line_ups@[t as int]@.len() == benches@.len());
        let pick: usize = picks[t];
        assignment.push(copy_seats(&line_ups[t][pick]));
        bench.push(copy_bench(&benches[pick]));
        t += 1;
    }
    (assignment, bench)
}

/// One period with nobody on the field and nobody on the bench.
pub open spec fn is_bare_period(m: MdpScheduleResult) -> bool {
    &&& m.assignment@.len() == 1
    &&& m.assignment@[0]@.len() == 0
    &&& m.bench@.len() == 1
    &&& m.bench@[0]@.len() == 0
}

pub(crate) proof fn empty_benches_follow_all<A: Fn(Real64, Real64) -> Real64>(
    plus: A,
    benches: Seq<Vec<usize>>,
    rewards: Seq<Vec<Real64>>,
    t: int,
    prev: Option<int>,
    n: int,
)
    requires
        0 <= n <= benches.len(),
        forall|b: int| 0 <= b < benches.len() ==> (#[trigger] benches[b])@.len() == 0,
    ensures
        best_bench(plus, benches, rewards, t, prev, n) == best_bench(
            plus,
            benches,
            rewards,
            t,
            None,
            n,
        ),
    decreases n,
{
    if n > 0 {
        empty_benches_follow_all(plus, benches, rewards, t, prev, n - 1);
        assert(benches[n - 1]@.len() == 0);
        assert(may_follow(benches, prev, n - 1));
    }
}

/// The plan of a match without a bench: everybody plays as matched in every period from which on
/// there is a value, nobody in the others.
pub open spec fn is_benchless_plan<A: Fn(Real64, Real64) -> Real64>(
    plus: A,
    benches: Seq<Vec<usize>>,
    rewards: Seq<Vec<Real64>>,
    line_ups: Seq<Vec<Vec<i64>>>,
    m: MdpScheduleResult,
) -> bool {
    let n = benches.len() as int;
    &&& m.assignment@.len() == rewards.len()
    &&& m.bench@.len() == rewards.len()
    &&& forall|t: int| 0 <= t < rewards.len() ==> (#[trigger] m.bench@[t])@.len() == 0
    &&& forall|t: int|
        0 <= t < rewards.len() ==> (#[trigger] m.assignment@[t])@ == match best_bench(
            plus,
            benches,
            rewards,
            t,
            None,
            n,
        ).0 {
            Some(b) => line_ups[t]@[b]@,
            None => Seq::empty(),
        }
    &&& m.optimal_value == best_bench(plus, benches, rewards, 0, None, n).1
}

/// Plans a match without a bench.
fn plan_without_bench<A: Fn(Real64, Real64) -> Real64>(
    benches: &Vec<Vec<usize>>,
    rewards: &Vec<Vec<Real64>>,
    line_ups: &Vec<Vec<Vec<i64>>>,
    plus: &A,
) -> (m: MdpScheduleResult)
    requires
        is_operation(*plus),
        rewards_all(benches@, rewards@),
        rewards@.len() > 0,
        line_ups@.len() == rewards@.len(),
        forall|t: int|
            0 <= t < line_ups@.len() ==> (#[trigger] line_ups@[t])@.len() == benches@.len(),
        forall|b: int| 0 <= b < benches@.len() ==> (#[trigger] benches@[b])@.len() == 0,
    ensures
        is_benchless_plan(*plus, benches@, rewards@, line_ups@, m),
{
    let periods: usize = rewards.len();
    let n: usize = benches.len();
    let mut after: Vec<Real64> = Vec::new();
    let mut b: usize = 0;
    while b < n
        invariant
            b <= n,
            after@.len() == b,
            forall|c: int| 0 <= c < b ==> #[trigger] after@[c] == (Real64 { bits: 0 }),
        decreases n - b,
    {
        after.push(Real64 { bits: 0 });
        b += 1;
    }
    // picks[periods - 1 - t] is the pick of period t.
    let mut picks: Vec<Option<usize>> = Vec::new();
    let mut value: Real64 = Real64 { bits: 0 };
    let mut t: usize = periods;
    while t > 0
        invariant
            t <= periods,
            periods == rewards@.len(),
            n == benches@.len(),
            is_operation(*plus),
            rewards_all(benches@, rewards@),
            forall|b: int| 0 <= b < benches@.len() ==> (#[trigger] benches@[b])@.len() == 0,
            picks@.len() == periods - t,
            after@.len() == n,
            forall|b: int|
                0 <= b < n ==> #[trigger] after@[b] == value_after(
                    *plus,
                    benches@,
                    rewards@,
                    t as int,
                    b,
                ),
            forall|u: int|
                t <= u < periods ==> {
                    let best = best_bench(*plus, benches@, rewards@, u, None, n as int).0;
                    &&& (#[trigger] picks@[periods - 1 - u]) is Some <==> best is Some
                    &&& picks@[periods - 1 - u] is Some ==> picks@[periods - 1 - u]->0 == best->0
                        && picks@[periods - 1 - u]->0 < n
                },
            t < periods ==> value == best_bench(
                *plus,
                benches@,
                rewards@,
                t as int,
                None,
                n as int,
            ).1,
        decreases t,
    {
        t -= 1;
        let ghost before = picks@;
        let (pick, worth): (Option<usize>, Real64) = best_bench_of(
            plus,
            benches,
            rewards,
            t,
            None,
            &after,
        );
        picks.push(pick);
        value = worth;
        assert forall|u: int| t <= u < periods implies {
            let best = best_bench(*plus, benches@, rewards@, u, None, n as int).0;
            &&& (#[trigger] picks@[periods - 1 - u]) is Some <==> best is Some
            &&& picks@[periods - 1 - u] is Some ==> picks@[periods - 1 - u]->0 == best->0
                && picks@[periods - 1 - u]->0 < n
        } by {
            if u > t {
                assert(picks@[periods - 1 - u] == before[periods - 1 - u]);
            }
        }
        let mut next: Vec<Real64> = Vec::new();
        let mut c: usize = 0;
        while c < n
            invariant
                c <= n,
                next@.len() == c,
                forall|b: int| 0 <= b < c ==> #[trigger] next@[b] == worth,
            decreases n - c,
        {
            next.push(worth);
            c += 1;
        }
        assert forall|b: int| 0 <= b < n implies #[trigger] next@[b] == value_after(
            *plus,
            benches@,
            rewards@,
            t as int,
            b,
        ) by {
            empty_benches_follow_all(*plus, benches@, rewards@, t as int, Some(b), n as int);
        }
        after = next;
    }
    let mut assignment: Vec<Vec<i64>> = Vec::new();
    let mut bench: Vec<Vec<usize>> = Vec::new();
    let mut u: usize = 0;
    while u < periods
        invariant
            u <= periods,
            periods == rewards@.len(),
            n == benches@.len(),
            line_ups@.len() == periods,
            forall|t: int|
                0 <= t < line_ups@.len() ==> (#[trigger] line_ups@[t])@.len() == benches@.len(),
            picks@.len() == periods,
            forall|u: int|
                0 <= u < periods ==> {
                    let best = best_bench(*plus, benches@, rewards@, u, None, n as int).0;
                    &&& (#[trigger] picks@[periods - 1 - u]) is Some <==> best is Some
                    &&& picks@[periods - 1 - u] is Some ==> picks@[periods - 1 - u]->0 == best->0
                        && picks@[periods - 1 - u]->0 < n
                },
            assignment@.len() == u,
            bench@.len() == u,
            forall|t: int| 0 <= t < u ==> (#[trigger] bench@[t])@.len() == 0,
            forall|t: int|
                0 <= t < u ==> (#[trigger] assignment@[t])@ == match best_bench(
                    *plus,
                    benches@,
                    rewards@,
                    t,
                    None,
                    n as int,
                ).0 {
                    Some(b) => line_ups@[t]@[b]@,
                    None => Seq::empty(),
                },
        decreases periods - u,
    {
        let pick: Option<usize> = picks[periods - 1 - u];
        assert(picks@[periods - 1 - u as int] == pick);
        assert(line_ups@[u as int]@.len() == benches@.len());
        let seats: Vec<i64> = match pick {
            Some(b) => copy_seats(&line_ups[u][b]),
            None => Vec::new(),
        };
        assignment.push(seats);
        bench.push(Vec::new());
        u += 1;
    }
    MdpScheduleResult { assignment, bench, optimal_value: value }
}

/// The result of solving the rotation exactly: with every bench priced for every period, the
/// schedule of a best path through the benches. Without a bench there is always a plan. Else,
/// where at some point no bench has a value, there is nothing, or a bare period where it is the
/// only one.
pub open spec fn is_exact_plan<
    F: Fn(&Vec<Vec<Real64>>) -> AssignmentResult,
    A: Fn(Real64, Real64) -> Real64,
>(problem: SoccerProblem, solve: F, plus: A, r: Option<MdpScheduleResult>) -> bool {
    if problem.num_periods == 0 {
        r matches Some(m) && m.assignment@.len() == 0 && m.bench@.len() == 0 && m.optimal_value
            == num(0)
    } else {
    exists|benches: Seq<Vec<usize>>, rewards: Seq<Vec<Real64>>, line_ups: Seq<Vec<Vec<i64>>>|
        {
            let all = subsets(
                problem.num_players as int,
                problem.bench_size as int,
                Seq::empty(),
                0,
            );
            &&& lists_all(benches, all)
            &&& #[trigger] is_price_table(problem, solve, benches, rewards, line_ups)
            &&& problem.bench_size == 0 ==> r is Some && is_benchless_plan(
                plus,
                benches,
                rewards,
                line_ups,
                r->0,
            )
            &&& problem.bench_size > 0 && r is Some ==> {
                ||| exists|picks: Seq<usize>| #[trigger]
                    is_best_path(
                        plus,
                        benches,
                        rewards,
                        picks,
                        problem.num_periods as int,
                    ) && takes_picks(
                        benches,
                        line_ups,
                        picks,
                        r->0.assignment@,
                        r->0.bench@,
                        problem.num_periods as int,
                    ) && r->0.optimal_value == path_value(plus, rewards, picks, 0)
                ||| problem.num_periods == 1 && is_bare_period(r->0) && r->0.optimal_value
                    == lowest() && best_bench(
                    plus,
                    benches,
                    rewards,
                    0,
                    None,
                    benches.len() as int,
                ).0 is None
            }
            &&& problem.bench_size > 0 && r is None ==> problem.num_periods > 1 && exists|
                path: Seq<usize>,
                t: int,
            | #[trigger]
                is_best_path(plus, benches, rewards, path, t) && 0 <= t < rewards.len()
                    && best_bench(
                    plus,
                    benches,
                    rewards,
                    t,
                    previous(path, t),
                    benches.len() as int,
                ).0 is None
        }
    }
}

/// Solves the rotation exactly: of all ways to bench nobody twice in a row the one of the
/// greatest value. Nothing where there is a bench and over several periods no way has a value.
pub fn policy_mdp_vi<
    F: Fn(&Vec<Vec<Real64>>) -> AssignmentResult,
    A: Fn(Real64, Real64) -> Real64,
>(problem: &SoccerProblem, solve: &F, plus: &A) -> (r: Option<MdpScheduleResult>)
    requires
        problem.has_affinities(),
        problem.num_players <= i64::MAX,
        is_solver(*solve),
        is_operation(*plus),
    ensures
        is_exact_plan(*problem, *solve, *plus, r),
{
    if problem.num_periods == 0 {
        return Some(
            MdpScheduleResult {
                assignment: Vec::new(),
                bench: Vec::new(),
                optimal_value: Real64::zero(),
            },
        );
    }
    let benches: Vec<Vec<usize>> = combinations(problem.num_players, problem.bench_size);
    let (rewards, line_ups): (Vec<Vec<Real64>>, Vec<Vec<Vec<i64>>>) = price_table(
        problem,
        &benches,
        solve,
    );
    if problem.bench_size == 0 {
        proof {
            assert forall|b: int| 0 <= b < benches@.len() implies (
            #[trigger] benches@[b])@.len() == 0 by {
                let all = subsets(problem.num_players as int, 0, Seq::empty(), 0);
                assert(benches@[b]@ == all[b]);
            }
        }
        let m: MdpScheduleResult = plan_without_bench(&benches, &rewards, &line_ups, plus);
        assert(is_price_table(*problem, *solve, benches@, rewards@, line_ups@));
        return Some(m);
    }
    match backward_induction(&benches, &rewards, plus) {
        Some(plan) => {
            let (assignment, bench): (Vec<Vec<i64>>, Vec<Vec<usize>>) = take_picks(
                &benches,
                &line_ups,
                &plan.picks,
            );
            proof {
                best_path_earns_its_value(*plus, benches@, rewards@, plan.picks@, 0);
                assert(is_price_table(*problem, *solve, benches@, rewards@, line_ups@));
                assert(is_best_path(
                    *plus,
                    benches@,
                    rewards@,
                    plan.picks@,
                    problem.num_periods as int,
                ));
            }
            Some(MdpScheduleResult { assignment, bench, optimal_value: plan.value })
        },
        None => {
            assert(is_price_table(*problem, *solve, benches@, rewards@, line_ups@));
            if problem.num_periods > 1 {
                return None;
            }
            let no_seats: Vec<i64> = Vec::new();
            let no_bench: Vec<usize> = Vec::new();
            Some(
                MdpScheduleResult {
                    assignment: vec![no_seats],
                    bench: vec![no_bench],
                    optimal_value: at_bits(SIGN_BIT + INFINITY_BITS),
                },
            )
        },
    }
}

/// The best of the first `n` rewards of a period, the first of several, and its value.
pub open spec fn best_alone(rewards: Seq<Real64>, n: int) -> (Option<int>, Real64)
    decreases n,
{
    if n <= 0 {
        (None, lowest())
    } else {
        let best = best_alone(rewards, n - 1);
        if best.1.less(rewards[n - 1]) {
            (Some(n - 1), rewards[n - 1])
        } else {
            best
        }
    }
}

fn best_alone_of(rewards: &Vec<Real64>) -> (r: (Option<usize>, Real64))
    ensures
        ({
            let best = best_alone(rewards@, rewards@.len() as int);
            &&& r.1 == best.1
            &&& r.0 is Some <==> best.0 is Some
            &&& r.0 is Some ==> r.0->0 == best.0->0 && r.0->0 < rewards@.len()
        }),
{
    let mut pick: Option<usize> = None;
    let mut value: Real64 = Real64 { bits: SIGN_BIT + INFINITY_BITS };
    let mut b: usize = 0;
    while b < rewards.len()
        invariant
            b <= rewards@.len(),
            ({
                let best = best_alone(rewards@, b as int);
                &&& value == best.1
                &&& pick is Some <==> best.0 is Some
                &&& pick is Some ==> pick->0 == best.0->0 && pick->0 < b
            }),
        decreases rewards@.len() - b,
    {
        if value.is_below(rewards[b]) {
            value = rewards[b];
            pick = Some(b);
        }
        b += 1;
    }
    (pick, value)
}

/// The values of the first `t` periods, each at its best, summed from the first on.
pub open spec fn sum_alone<A: Fn(Real64, Real64) -> Real64>(
    plus: A,
    rewards: Seq<Vec<Real64>>,
    t: int,
) -> Real64
    decreases t,
{
    if t <= 0 {
        Real64 { bits: 0 }
    } else {
        outcome(
            plus,
            sum_alone(plus, rewards, t - 1),
            best_alone(rewards[t - 1]@, rewards[t - 1]@.len() as int).1,
        )
    }
}

/// A schedule in which every period stands for itself, with the sum of what they earn.
#[derive(Debug)]
pub struct MemorylessMDPResult {
    pub schedule: Schedule,
    pub value: Real64,
}

/// A period's rows are those of its best bench, and bare where no bench has a value.
pub open spec fn stands_alone(
    benches: Seq<Vec<usize>>,
    rewards: Seq<Vec<Real64>>,
    line_ups: Seq<Vec<Vec<i64>>>,
    t: int,
    seats: Seq<i64>,
    bench: Seq<usize>,
) -> bool {
    match best_alone(rewards[t]@, rewards[t]@.len() as int).0 {
        Some(b) => seats == line_ups[t]@[b]@ && bench == benches[b]@,
        None => seats.len() == 0 && bench.len() == 0,
    }
}

/// The first `n` periods each stand for themselves.
pub open spec fn all_stand_alone(
    benches: Seq<Vec<usize>>,
    rewards: Seq<Vec<Real64>>,
    line_ups: Seq<Vec<Vec<i64>>>,
    assignment: Seq<Vec<i64>>,
    bench: Seq<Vec<usize>>,
    n: int,
) -> bool {
    &&& assignment.len() == n
    &&& bench.len() == n
    &&& forall|t: int|
        0 <= t < n ==> #[trigger] stands_alone(
            benches,
            rewards,
            line_ups,
            t,
            assignment[t]@,
            bench[t]@,
        )
}

/// The result of solving every period for itself: with every bench priced for every period, each
/// period has the rows of its best bench.
pub open spec fn is_memoryless_plan<
    F: Fn(&Vec<Vec<Real64>>) -> AssignmentResult,
    A: Fn(Real64, Real64) -> Real64,
>(problem: SoccerProblem, solve: F, plus: A, r: MemorylessMDPResult) -> bool {
    &&& exists|benches: Seq<Vec<usize>>, rewards: Seq<Vec<Real64>>, line_ups: Seq<Vec<Vec<i64>>>|
        {
            let all = subsets(
                problem.num_players as int,
                problem.bench_size as int,
                Seq::empty(),
                0,
            );
            &&& lists_all(benches, all)
            &&& #[trigger] is_price_table(problem, solve, benches, rewards, line_ups)
            &&& all_stand_alone(
                benches,
                rewards,
                line_ups,
                r.schedule.assignment@,
                r.schedule.bench@,
                problem.num_periods as int,
            )
            &&& r.value == sum_alone(plus, rewards, problem.num_periods as int)
        }
}

/// Solves every period for itself, so that fairness plays no part.
pub fn policy_mdp_vi_memoryless<
    F: Fn(&Vec<Vec<Real64>>) -> AssignmentResult,
    A: Fn(Real64, Real64) -> Real64,
>(problem: &SoccerProblem, solve: &F, plus: &A) -> (r: MemorylessMDPResult)
    requires
        problem.has_affinities(),
        problem.num_players <= i64::MAX,
        is_solver(*solve),
        is_operation(*plus),
    ensures
        is_memoryless_plan(*problem, *solve, *plus, r),
{
    let benches: Vec<Vec<usize>> = combinations(problem.num_players, problem.bench_size);
    let (rewards, line_ups): (Vec<Vec<Real64>>, Vec<Vec<Vec<i64>>>) = price_table(
        problem,
        &benches,
        solve,
    );
    let mut assignment: Vec<Vec<i64>> = Vec::new();
    let mut bench: Vec<Vec<usize>> = Vec::new();
    let mut total: Real64 = Real64::zero();
    let mut t: usize = 0;
    assert(is_price_table(*problem, *solve, benches@, rewards@, line_ups@));
    while t < problem.num_periods
        invariant
            t <= problem.num_periods,
            is_price_table(*problem, *solve, benches@, rewards@, line_ups@),
            is_operation(*plus),
            all_stand_alone(benches@, rewards@, line_ups@, assignment@, bench@, t as int),
            total == sum_alone(*plus, rewards@, t as int),
        decreases problem.num_periods - t,
    {
        let ghost seats_before = assignment@;
        let ghost bench_before = bench@;
        let (pick, value): (Option<usize>, Real64) = best_alone_of(&rewards[t]);
        match pick {
            Some(b) => {
                assignment.push(copy_seats(&line_ups[t][b]));
                bench.push(copy_bench(&benches[b]));
            },
            None => {
                assignment.push(Vec::new());
                bench.push(Vec::new());
            },
        }
        total = apply(plus, total, value);
        proof {
            assert forall|u: int| 0 <= u < t + 1 implies #[trigger] stands_alone(
                benches@,
                rewards@,
                line_ups@,
                u,
                assignment@[u]@,
                bench@[u]@,
            ) by {
                if u < t {
                    assert(stands_alone(
                        benches@,
                        rewards@,
                        line_ups@,
                        u,
                        seats_before[u]@,
                        bench_before[u]@,
                    ));
                }
            }
        }
        t += 1;
    }
    MemorylessMDPResult { schedule: Schedule { assignment, bench }, value: total }
}

/// In every period for itself no bench is worth more than the one picked: dropping fairness can
/// only raise what a period earns.
pub proof fn best_alone_is_no_worse(rewards: Seq<Real64>, n: int, b: int)
    requires
        0 <= b < n <= rewards.len(),
        forall|i: int| 0 <= i < rewards.len() ==> !(#[trigger] rewards[i]).nan(),
    ensures
        !best_alone(rewards, n).1.nan(),
        rewards[b].key() <= best_alone(rewards, n).1.key(),
    decreases n,
{
    reveal_with_fuel(best_alone, 2);
    assert(!rewards[n - 1].nan());
    assert(!rewards[b].nan());
    if n - 1 > 0 {
        if b < n - 1 {
            best_alone_is_no_worse(rewards, n - 1, b);
        } else {
            best_alone_is_no_worse(rewards, n - 1, 0);
        }
    }
}

} // verus!
