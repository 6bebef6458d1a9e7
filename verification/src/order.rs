//! Stable ordering of items by an integer key.
use vstd::prelude::*;

verus! {

/// Item `a` comes before item `b`: its key is smaller, or the keys are equal and it stands
/// earlier.
pub open spec fn precedes(keys: Seq<Option<i128>>, a: int, b: int) -> bool {
    keys[a]->0 < keys[b]->0 || (keys[a]->0 == keys[b]->0 && a < b)
}

/// `order` lists the items that have a key, each once and before all that it precedes.
pub open spec fn is_ranking(keys: Seq<Option<i128>>, order: Seq<usize>) -> bool {
    &&& forall|i: int|
        0 <= i < order.len() ==> (#[trigger] order[i]) < keys.len() && keys[order[i] as int] is Some
    &&& forall|i: int, j: int|
        0 <= i < j < order.len() ==> precedes(
            keys,
            #[trigger] order[i] as int,
            #[trigger] order[j] as int,
        )
    &&& forall|k: int|
        0 <= k < keys.len() && keys[k] is Some ==> #[trigger] order.contains(k as usize)
}

/// Ranks the items that have a key, by key and then by position.
pub fn ranking(keys: &Vec<Option<i128>>) -> (order: Vec<usize>)
    ensures
        is_ranking(keys@, order@),
        order@.no_duplicates(),
        order@.len() <= keys@.len(),
{
    let mut order: Vec<usize> = Vec::new();
    let n: usize = keys.len();
    let mut m: usize = 0;
    while m < n
        invariant
            m <= n,
            n == keys@.len(),
            order@.len() <= m,
            forall|i: int|
                0 <= i < order@.len() ==> (#[trigger] order@[i]) < m && keys@[order@[i] as int] is Some,
            forall|i: int, j: int|
                0 <= i < j < order@.len() ==> precedes(
                    keys@,
                    #[trigger] order@[i] as int,
                    #[trigger] order@[j] as int,
                ),
            forall|k: int|
                0 <= k < m && keys@[k] is Some ==> #[trigger] order@.contains(k as usize),
        decreases n - m,
    {
        if let Some(key) = keys[m] {
            let mut p: usize = 0;
            let mut searching: bool = true;
            while searching && p < order.len()
                invariant
                    p <= order@.len(),
                    m < n,
                    n == keys@.len(),
                    keys@[m as int] == Some(key),
                    forall|i: int|
                        0 <= i < order@.len() ==> (#[trigger] order@[i]) < m
                            && keys@[order@[i] as int] is Some,
                    forall|i: int| 0 <= i < p ==> keys@[(#[trigger] order@[i]) as int]->0 <= key,
                    !searching ==> p < order@.len() && keys@[order@[p as int] as int]->0 > key,
                decreases order@.len() - p, if searching { 1int } else { 0 },
            {
                let other: Option<i128> = keys[order[p]];
                if let Some(k) = other {
                    if k <= key {
                        p += 1;
                    } else {
                        searching = false;
                    }
                }
            }
            let ghost before = order@;
            order.insert(p, m);
            proof {
                assert(order@ =~= before.insert(p as int, m));
                assert forall|i: int|
                    0 <= i < order@.len() implies (#[trigger] order@[i]) < m + 1
                    && keys@[order@[i] as int] is Some by {
                    if i < p {
                        assert(order@[i] == before[i]);
                    } else if i > p {
                        assert(order@[i] == before[i - 1]);
                    }
                }
                assert forall|i: int, j: int| 0 <= i < j < order@.len() implies precedes(
                    keys@,
                    #[trigger] order@[i] as int,
                    #[trigger] order@[j] as int,
                ) by {
                    let bi = if i < p { i } else { i - 1 };
                    let bj = if j < p { j } else { j - 1 };
                    if i != p {
                        assert(order@[i] == before[bi]);
                    }
                    if j != p {
                        assert(order@[j] == before[bj]);
                    }
                    if i == p {
                        assert(keys@[before[p as int] as int]->0 > key);
                        if bj > p {
                            assert(precedes(keys@, before[p as int] as int, before[bj] as int));
                        }
                    } else if j == p {
                        assert(keys@[before[bi] as int]->0 <= key);
                    } else {
                        assert(precedes(keys@, before[bi] as int, before[bj] as int));
                    }
                }
                assert forall|k: int|
                    0 <= k < m + 1 && keys@[k] is Some implies #[trigger] order@.contains(
                    k as usize,
                ) by {
                    if k == m {
                        assert(order@[p as int] == k as usize);
                    } else {
                        assert(before.contains(k as usize));
                        let i = choose|i: int| 0 <= i < before.len() && before[i] == k as usize;
                        if i < p {
                            assert(order@[i] == k as usize);
                        } else {
                            assert(order@[i + 1] == k as usize);
                        }
                    }
                }
            }
        }
        m += 1;
    }
    proof {
        assert forall|i: int, j: int|
            0 <= i < order@.len() && 0 <= j < order@.len() && i != j implies order@[i] != order@[j] by {
            if i < j {
                assert(precedes(keys@, order@[i] as int, order@[j] as int));
            } else {
                assert(precedes(keys@, order@[j] as int, order@[i] as int));
            }
        }
    }
    order
}

/// The ranking is fixed by the keys alone.
pub proof fn ranking_is_unique(keys: Seq<Option<i128>>, a: Seq<usize>, b: Seq<usize>)
    requires
        is_ranking(keys, a),
        is_ranking(keys, b),
        keys.len() <= usize::MAX,
    ensures
        a == b,
{
    assert forall|i: int| 0 <= i < a.len() && i < b.len() implies a[i] == b[i] by {
        rankings_agree(keys, a, b, i);
    }
    ranking_has_no_more(keys, a, b);
    ranking_has_no_more(keys, b, a);
    assert(a =~= b);
}

proof fn ranking_has_no_more(keys: Seq<Option<i128>>, a: Seq<usize>, b: Seq<usize>)
    requires
        is_ranking(keys, a),
        is_ranking(keys, b),
        keys.len() <= usize::MAX,
        forall|i: int| 0 <= i < a.len() && i < b.len() ==> #[trigger] a[i] == b[i],
    ensures
        b.len() <= a.len(),
{
    if a.len() < b.len() {
        let x = b[a.len() as int];
        assert(a.contains((x as int) as usize));
        let i = choose|i: int| 0 <= i < a.len() && a[i] == x;
        assert(precedes(keys, b[i] as int, b[a.len() as int] as int));
    }
}

proof fn rankings_agree(keys: Seq<Option<i128>>, a: Seq<usize>, b: Seq<usize>, n: int)
    requires
        is_ranking(keys, a),
        is_ranking(keys, b),
        keys.len() <= usize::MAX,
        0 <= n < a.len(),
        n < b.len(),
    ensures
        a[n] == b[n],
    decreases n,
{
    assert forall|i: int| 0 <= i < n implies a[i] == b[i] by {
        rankings_agree(keys, a, b, i);
    }
    let x = a[n];
    let y = b[n];
    if x != y {
        assert(b.contains((x as int) as usize));
        let j = choose|j: int| 0 <= j < b.len() && b[j] == x;
        assert(a.contains((y as int) as usize));
        let i = choose|i: int| 0 <= i < a.len() && a[i] == y;
        if j < n {
            assert(a[j] == b[j]);
            assert(precedes(keys, a[j] as int, a[n] as int));
        } else if i < n {
            assert(a[i] == b[i]);
            assert(precedes(keys, b[i] as int, b[n] as int));
        } else {
            assert(precedes(keys, b[n] as int, b[j] as int));
            assert(precedes(keys, a[n] as int, a[i] as int));
        }
    }
}

} // verus!
