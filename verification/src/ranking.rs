//! Stable ranking by descending weight: the order in which a stable sort
//! from highest to lowest weight puts a list.

use vstd::prelude::*;

verus! {

/// Inserts index `i` into `order` after every entry whose weight is at
/// least its own, scanning from the back.
pub open spec fn rank_insert(order: Seq<int>, i: int, ws: Seq<u128>) -> Seq<int>
    decreases order.len(),
{
    if order.len() == 0 {
        seq![i]
    } else if ws[order.last()] >= ws[i] {
        order.push(i)
    } else {
        rank_insert(order.drop_last(), i, ws).push(order.last())
    }
}

/// The indices `0..n` ordered by descending weight, earlier index first
/// among equal weights.
pub open spec fn rank_desc(ws: Seq<u128>, n: nat) -> Seq<int>
    decreases n,
{
    if n == 0 {
        Seq::empty()
    } else {
        rank_insert(rank_desc(ws, (n - 1) as nat), n - 1, ws)
    }
}

proof fn lemma_rank_insert_at(order: Seq<int>, i: int, ws: Seq<u128>, k: int)
    requires
        0 <= k <= order.len(),
        forall|j: int| k <= j < order.len() ==> ws[#[trigger] order[j]] < ws[i],
        k > 0 ==> ws[order[k - 1]] >= ws[i],
    ensures
        rank_insert(order, i, ws) == order.subrange(0, k).push(i) + order.subrange(
            k,
            order.len() as int,
        ),
    decreases order.len(),
{
    if order.len() == 0 {
        assert(order.subrange(0, k).push(i) + order.subrange(k, order.len() as int) =~= seq![i]);
    } else if ws[order.last()] >= ws[i] {
        assert(k == order.len());
        assert(order.subrange(0, k) =~= order);
        assert(order.subrange(0, k).push(i) + order.subrange(k, order.len() as int) =~= order.push(
            i,
        ));
    } else {
        let pre = order.drop_last();
        assert(k < order.len());
        assert forall|j: int| k <= j < pre.len() implies ws[#[trigger] pre[j]] < ws[i] by {
            assert(pre[j] == order[j]);
        }
        if k > 0 {
            assert(pre[k - 1] == order[k - 1]);
        }
        lemma_rank_insert_at(pre, i, ws, k);
        assert(pre.subrange(0, k) =~= order.subrange(0, k));
        assert((pre.subrange(0, k).push(i) + pre.subrange(k, pre.len() as int)).push(order.last())
            =~= order.subrange(0, k).push(i) + order.subrange(k, order.len() as int));
    }
}

/// Ranks the indices of `ws` by descending weight, stably.
pub fn rank_by_weight_desc(ws: &Vec<u128>) -> (order: Vec<usize>)
    ensures
        order@.map_values(|x: usize| x as int) == rank_desc(ws@, ws@.len()),
{
    let mut order: Vec<usize> = Vec::new();
    let mut i: usize = 0;
    while i < ws.len()
        invariant
            i <= ws@.len(),
            order@.map_values(|x: usize| x as int) == rank_desc(ws@, i as nat),
            order@.len() == i,
            forall|j: int| 0 <= j < order@.len() ==> #[trigger] order@[j] < i,
        decreases ws@.len() - i,
    {
        let ghost before = order@.map_values(|x: usize| x as int);
        let mut k = order.len();
        while k > 0 && ws[order[k - 1]] < ws[i]
            invariant
                k <= order@.len(),
                i < ws@.len(),
                order@.len() == i,
                forall|j: int| 0 <= j < order@.len() ==> #[trigger] order@[j] < i,
                forall|j: int| k <= j < order@.len() ==> ws@[#[trigger] order@[j] as int] < ws@[i as int],
            decreases k,
        {
            k = k - 1;
        }
        proof {
            assert forall|j: int| k <= j < before.len() implies ws@[#[trigger] before[j]] < ws@[i as int] by {
                assert(before[j] == order@[j] as int);
            }
            if k > 0 {
                assert(before[k - 1] == order@[k - 1] as int);
            }
            lemma_rank_insert_at(before, i as int, ws@, k as int);
        }
        let ghost prev = order@;
        order.insert(k, i);
        proof {
            assert(order@.map_values(|x: usize| x as int) =~= before.subrange(0, k as int).push(
                i as int,
            ) + before.subrange(k as int, before.len() as int));
            assert forall|j: int| 0 <= j < order@.len() implies #[trigger] order@[j] < i + 1 by {
                if j < k {
                    assert(order@[j] == prev[j]);
                } else if j > k {
                    assert(order@[j] == prev[j - 1]);
                }
            }
        }
        i = i + 1;
    }
    order
}

/// Ranking yields one index per weight, each in range.
pub proof fn lemma_rank_desc_in_range(ws: Seq<u128>, n: nat)
    requires
        n <= ws.len(),
    ensures
        rank_desc(ws, n).len() == n,
        forall|j: int| 0 <= j < n ==> 0 <= #[trigger] rank_desc(ws, n)[j] < n,
    decreases n,
{
    if n > 0 {
        lemma_rank_desc_in_range(ws, (n - 1) as nat);
        lemma_rank_insert_in_range(rank_desc(ws, (n - 1) as nat), n - 1, ws, n as int);
    }
}

proof fn lemma_rank_insert_in_range(order: Seq<int>, i: int, ws: Seq<u128>, bound: int)
    requires
        0 <= i < bound,
        forall|j: int| 0 <= j < order.len() ==> 0 <= #[trigger] order[j] < bound,
    ensures
        rank_insert(order, i, ws).len() == order.len() + 1,
        forall|j: int|
            0 <= j < order.len() + 1 ==> 0 <= #[trigger] rank_insert(order, i, ws)[j]
                < bound,
    decreases order.len(),
{
    if order.len() > 0 && ws[order.last()] < ws[i] {
        let pre = order.drop_last();
        assert forall|j: int| 0 <= j < pre.len() implies 0 <= #[trigger] pre[j] < bound by {
            assert(pre[j] == order[j]);
        }
        lemma_rank_insert_in_range(pre, i, ws, bound);
    }
}

/// The summed weights at the given positions.
pub open spec fn weight_at(ws: Seq<u128>, order: Seq<int>) -> nat
    decreases order.len(),
{
    if order.len() == 0 {
        0
    } else {
        weight_at(ws, order.drop_last()) + ws[order.last()] as nat
    }
}

/// The summed first `n` weights.
pub open spec fn weight_prefix(ws: Seq<u128>, n: nat) -> nat
    decreases n,
{
    if n == 0 {
        0
    } else {
        weight_prefix(ws, (n - 1) as nat) + ws[n - 1] as nat
    }
}

proof fn lemma_weight_at_insert(ws: Seq<u128>, order: Seq<int>, i: int)
    ensures
        weight_at(ws, rank_insert(order, i, ws)) == weight_at(ws, order) + ws[i],
    decreases order.len(),
{
    if order.len() > 0 && ws[order.last()] < ws[i] {
        lemma_weight_at_insert(ws, order.drop_last(), i);
        assert(rank_insert(order.drop_last(), i, ws).push(order.last()).drop_last() =~= rank_insert(
            order.drop_last(),
            i,
            ws,
        ));
    } else if order.len() > 0 {
        assert(order.push(i).drop_last() =~= order);
    } else {
        assert(seq![i].drop_last() =~= order);
    }
}

/// Ranking keeps the total: the weights at the ranked positions sum to the
/// first `n` weights.
pub proof fn lemma_rank_desc_total(ws: Seq<u128>, n: nat)
    ensures
        weight_at(ws, rank_desc(ws, n)) == weight_prefix(ws, n),
    decreases n,
{
    if n > 0 {
        lemma_rank_desc_total(ws, (n - 1) as nat);
        lemma_weight_at_insert(ws, rank_desc(ws, (n - 1) as nat), n - 1);
    }
}

/// Whether the weights at the positions never increase.
pub open spec fn descending_at(ws: Seq<u128>, order: Seq<int>) -> bool {
    forall|j: int, k: int| 0 <= j < k < order.len() ==> ws[#[trigger] order[j]] >= ws[#[trigger] order[k]]
}

/// Inserting adds exactly the inserted index.
pub proof fn lemma_rank_insert_members(order: Seq<int>, i: int, ws: Seq<u128>, x: int)
    ensures
        rank_insert(order, i, ws).contains(x) <==> (order.contains(x) || x == i),
    decreases order.len(),
{
    if order.len() == 0 {
        assert(seq![i][0] == i);
    } else if ws[order.last()] >= ws[i] {
        assert(order.push(i)[order.len() as int] == i);
        if order.contains(x) {
            let j = choose|j: int| 0 <= j < order.len() && order[j] == x;
            assert(order.push(i)[j] == x);
        }
        if order.push(i).contains(x) && x != i {
            let j = choose|j: int| 0 <= j < order.len() + 1 && order.push(i)[j] == x;
            assert(order[j] == x);
        }
    } else {
        let pre = order.drop_last();
        lemma_rank_insert_members(pre, i, ws, x);
        let r = rank_insert(pre, i, ws);
        assert(r.push(order.last())[r.len() as int] == order.last());
        if order.contains(x) {
            let j = choose|j: int| 0 <= j < order.len() && order[j] == x;
            if j < pre.len() {
                assert(pre[j] == x);
                let t = choose|t: int| 0 <= t < r.len() && r[t] == x;
                assert(r.push(order.last())[t] == x);
            }
        }
        if x == i {
            let t = choose|t: int| 0 <= t < r.len() && r[t] == x;
            assert(r.push(order.last())[t] == x);
        }
        if r.push(order.last()).contains(x) {
            let t = choose|t: int| 0 <= t < r.len() + 1 && r.push(order.last())[t] == x;
            if t < r.len() {
                assert(r[t] == x);
                if pre.contains(x) {
                    let j = choose|j: int| 0 <= j < pre.len() && pre[j] == x;
                    assert(order[j] == x);
                }
            } else {
                assert(order[order.len() - 1] == x);
            }
        }
    }
}

proof fn lemma_rank_insert_descending(order: Seq<int>, i: int, ws: Seq<u128>)
    requires
        descending_at(ws, order),
    ensures
        descending_at(ws, rank_insert(order, i, ws)),
    decreases order.len(),
{
    if order.len() == 0 {
    } else if ws[order.last()] >= ws[i] {
        let r = order.push(i);
        assert forall|j: int, k: int| 0 <= j < k < r.len() implies ws[#[trigger] r[j]] >= ws[#[trigger] r[k]] by {
            if k == r.len() - 1 {
                assert(r[k] == i);
                assert(r[j] == order[j]);
                if j < order.len() - 1 {
                    assert(ws[order[j]] >= ws[order[order.len() - 1]]);
                }
            } else {
                assert(r[j] == order[j]);
                assert(r[k] == order[k]);
            }
        }
    } else {
        let pre = order.drop_last();
        assert forall|j: int, k: int| 0 <= j < k < pre.len() implies ws[#[trigger] pre[j]] >= ws[#[trigger] pre[k]] by {
            assert(pre[j] == order[j]);
            assert(pre[k] == order[k]);
        }
        lemma_rank_insert_descending(pre, i, ws);
        let r = rank_insert(pre, i, ws);
        let out = r.push(order.last());
        assert forall|j: int, k: int| 0 <= j < k < out.len() implies ws[#[trigger] out[j]] >= ws[#[trigger] out[k]] by {
            if k == out.len() - 1 {
                assert(out[k] == order.last());
                assert(out[j] == r[j]);
                lemma_rank_insert_members(pre, i, ws, r[j]);
                assert(r.contains(r[j]));
                if r[j] != i {
                    let t = choose|t: int| 0 <= t < pre.len() && pre[t] == r[j];
                    assert(pre[t] == order[t]);
                    assert(ws[order[t]] >= ws[order[order.len() - 1]]);
                }
            } else {
                assert(out[j] == r[j]);
                assert(out[k] == r[k]);
            }
        }
    }
}

/// Ranking orders the weights from highest to lowest.
pub proof fn lemma_rank_desc_descending(ws: Seq<u128>, n: nat)
    ensures
        descending_at(ws, rank_desc(ws, n)),
    decreases n,
{
    if n > 0 {
        lemma_rank_desc_descending(ws, (n - 1) as nat);
        lemma_rank_insert_descending(rank_desc(ws, (n - 1) as nat), n - 1, ws);
    }
}

/// Ranking lists every index below `n`.
pub proof fn lemma_rank_desc_complete(ws: Seq<u128>, n: nat, i: int)
    requires
        0 <= i < n,
    ensures
        rank_desc(ws, n).contains(i),
    decreases n,
{
    lemma_rank_insert_members(rank_desc(ws, (n - 1) as nat), n - 1, ws, i);
    if i < n - 1 {
        lemma_rank_desc_complete(ws, (n - 1) as nat, i);
    }
}

} // verus!
