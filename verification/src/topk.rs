use vstd::prelude::*;

verus! {

/// In the ranking of `scores`, candidate `a` comes strictly before
/// candidate `b`: a strictly higher score key, or an equal key and the
/// lower original index (the stable tie-break).
pub open spec fn ranked_before(scores: Seq<u64>, a: int, b: int) -> bool {
    scores[a] > scores[b] || (scores[a] == scores[b] && a < b)
}

/// `order` lists candidate indices of `scores`, each in range, every pair
/// in rank order: score keys non-increasing, equal keys by ascending
/// original index.
pub open spec fn sorted_by_rank(scores: Seq<u64>, order: Seq<usize>) -> bool {
    &&& forall|i: int| 0 <= i < order.len() ==> (order[i] as int) < scores.len()
    &&& forall|i: int, j: int|
        0 <= i < j < order.len() ==> ranked_before(scores, order[i] as int, order[j] as int)
}

/// `order` is the ranking of `scores`: every candidate index exactly once,
/// in rank order. The rank order is strict and total over distinct
/// indices, so at most one sequence satisfies this
/// ([`lemma_ranking_unique`]).
pub open spec fn is_ranking(scores: Seq<u64>, order: Seq<usize>) -> bool {
    &&& order.len() == scores.len()
    &&& sorted_by_rank(scores, order)
    &&& forall|v: usize| order.contains(v) <==> (v as int) < scores.len()
}

proof fn lemma_rankings_agree_at(scores: Seq<u64>, order1: Seq<usize>, order2: Seq<usize>, p: int)
    requires
        is_ranking(scores, order1),
        is_ranking(scores, order2),
        0 <= p < order1.len(),
    ensures
        order1[p] == order2[p],
    decreases p,
{
    assert forall|q: int| 0 <= q < p implies order1[q] == order2[q] by {
        lemma_rankings_agree_at(scores, order1, order2, q);
    };
    if order1[p] != order2[p] {
        let v1 = order1[p];
        let v2 = order2[p];
        assert(order2.contains(v1));
        let q1 = choose|q: int| 0 <= q < order2.len() && order2[q] == v1;
        assert(q1 > p) by {
            if q1 < p {
                assert(order1[q1] == v1);
                assert(ranked_before(scores, order1[q1] as int, order1[p] as int));
            }
        };
        assert(ranked_before(scores, v2 as int, v1 as int));
        assert(order1.contains(v2));
        let q2 = choose|q: int| 0 <= q < order1.len() && order1[q] == v2;
        assert(q2 > p) by {
            if q2 < p {
                assert(order2[q2] == v2);
                assert(ranked_before(scores, order2[q2] as int, order2[p] as int));
            }
        };
        assert(ranked_before(scores, v1 as int, v2 as int));
    }
}

/// Law: the ranking of a score-key list is unique — the rank order is a
/// strict total order over candidate indices, so sortedness and the
/// stable tie-break leave no freedom.
pub proof fn lemma_ranking_unique(scores: Seq<u64>, order1: Seq<usize>, order2: Seq<usize>)
    requires
        is_ranking(scores, order1),
        is_ranking(scores, order2),
    ensures
        order1 == order2,
{
    assert forall|p: int| 0 <= p < order1.len() implies order1[p] == order2[p] by {
        lemma_rankings_agree_at(scores, order1, order2, p);
    };
    assert(order1 =~= order2);
}

/// Ranks all candidate indices `0 .. scores.len()` of a score-key list:
/// highest key first, ties by ascending index.
#[verifier::loop_isolation(false)]
pub fn rank_indices(scores: &Vec<u64>) -> (order: Vec<usize>)
    ensures
        is_ranking(scores@, order@),
{
    let n: usize = scores.len();
    let mut order: Vec<usize> = Vec::new();
    let mut next: usize = 0;
    while next < n
        invariant
            next <= n,
            order@.len() == next,
            sorted_by_rank(scores@, order@),
            forall|v: usize| order@.contains(v) <==> (v as int) < next,
        decreases n - next,
    {
        let mut pos: usize = 0;
        while pos < order.len() && scores[order[pos]] >= scores[next]
            invariant
                pos <= order@.len(),
                forall|j: int|
                    0 <= j < pos ==> scores@[order@[j] as int] >= scores@[next as int],
            decreases order@.len() - pos,
        {
            pos = pos + 1;
        }
        proof {
            assert forall|j: int|
                0 <= j < pos implies ranked_before(
                scores@,
                order@[j] as int,
                next as int,
            ) by {
                assert(order@.contains(order@[j]));
            };
            assert forall|j: int|
                pos <= j < order@.len() implies ranked_before(
                scores@,
                next as int,
                order@[j] as int,
            ) by {
                if pos < j {
                    assert(ranked_before(scores@, order@[pos as int] as int, order@[j] as int));
                }
            };
        }
        let ghost pre = order@;
        order.insert(pos, next);
        proof {
            assert forall|i: int, j: int|
                0 <= i < j < order@.len() implies ranked_before(
                scores@,
                order@[i] as int,
                order@[j] as int,
            ) by {
                if i < pos {
                    assert(order@[i] == pre[i]);
                } else if i == pos {
                    assert(order@[i] == next);
                } else {
                    assert(order@[i] == pre[i - 1]);
                }
                if j < pos {
                    assert(order@[j] == pre[j]);
                } else if j == pos {
                    assert(order@[j] == next);
                } else {
                    assert(order@[j] == pre[j - 1]);
                }
            };
            assert forall|v: usize| order@.contains(v) implies (v as int) < next + 1 by {
                let w = choose|w: int| 0 <= w < order@.len() && order@[w] == v;
                if w < pos {
                    assert(pre[w] == v);
                    assert(pre.contains(v));
                } else if w == pos {
                    assert(v == next);
                } else {
                    assert(pre[w - 1] == v);
                    assert(pre.contains(v));
                }
            };
            assert forall|v: usize| (v as int) < next + 1 implies order@.contains(v) by {
                if (v as int) < next {
                    assert(pre.contains(v));
                    let w = choose|w: int| 0 <= w < pre.len() && pre[w] == v;
                    if w < pos {
                        assert(order@[w] == v);
                    } else {
                        assert(order@[w + 1] == v);
                    }
                } else {
                    assert(order@[pos as int] == v);
                }
            };
        }
        next = next + 1;
    }
    order
}

/// The first `min(k, scores.len())` entries of the full ranking: the `k`
/// best candidates, highest score key first, stable on ties. Every
/// candidate left out ranks after every candidate returned.
pub fn top_k_indices(scores: &Vec<u64>, k: usize) -> (top: Vec<usize>)
    ensures
        top@.len() == if k <= scores@.len() {
            k as int
        } else {
            scores@.len() as int
        },
        sorted_by_rank(scores@, top@),
        forall|v: usize, i: int|
            #![trigger top@.contains(v), top@[i]]
            (v as int) < scores@.len() && !top@.contains(v) && 0 <= i < top@.len()
                ==> ranked_before(scores@, top@[i] as int, v as int),
{
    let mut order = rank_indices(scores);
    let ghost full = order@;
    let len: usize = if k <= order.len() {
        k
    } else {
        order.len()
    };
    order.truncate(len);
    proof {
        assert(order@ =~= full.subrange(0, len as int));
        assert forall|v: usize, i: int|
            (v as int) < scores@.len() && !order@.contains(v) && 0 <= i
                < order@.len() implies ranked_before(scores@, order@[i] as int, v as int) by {
            assert(full.contains(v));
            let w = choose|w: int| 0 <= w < full.len() && full[w] == v;
            if w < len {
                assert(order@[w] == v);
                assert(order@.contains(v));
            } else {
                assert(ranked_before(scores@, full[i] as int, full[w] as int));
            }
        };
    }
    order
}

} // verus!
