//! Ranking of scored candidates: the best `top_k` admitted candidates,
//! highest score first, ties kept in their original order (what a stable
//! descending sort followed by `take(top_k)` gives).
//!
//! Scores are integer keys whose order is the order of the scores they
//! stand for.
use vstd::prelude::*;

verus! {

/// Candidate `a` comes before candidate `b`: a higher key, or an equal key
/// and an earlier position.
pub open spec fn ranks_before(keys: Seq<i64>, a: int, b: int) -> bool {
    keys[a] > keys[b] || (keys[a] == keys[b] && a < b)
}

/// `r` lists admitted candidates from best to worst, without repetition.
pub open spec fn ranked_list(keys: Seq<i64>, admitted: Seq<bool>, r: Seq<usize>) -> bool {
    &&& forall|i: int| 0 <= i < r.len() ==> (#[trigger] r[i]) < keys.len() && admitted[r[i] as int]
    &&& forall|i: int, j: int|
        0 <= i < j < r.len() ==> ranks_before(keys, #[trigger] r[i] as int, #[trigger] r[j] as int)
}

/// `r` is the best `k` admitted candidates (all of them when fewer than
/// `k` are admitted), best first.
pub open spec fn is_top_k(keys: Seq<i64>, admitted: Seq<bool>, k: nat, r: Seq<usize>) -> bool {
    &&& ranked_list(keys, admitted, r)
    &&& r.len() <= k
    &&& forall|a: int|
        0 <= a < keys.len() && admitted[a] && !r.contains(a as usize) ==> {
            &&& r.len() == k
            &&& forall|i: int| 0 <= i < r.len() ==> ranks_before(keys, #[trigger] r[i] as int, a)
        }
}

/// The indices of the best `top_k` admitted candidates, best first; equal
/// keys keep their original order.
pub fn rank_top_k(keys: &Vec<i64>, admitted: &Vec<bool>, top_k: usize) -> (r: Vec<usize>)
    requires
        keys.len() == admitted.len(),
    ensures
        is_top_k(keys@, admitted@, top_k as nat, r@),
{
    let mut full: Vec<usize> = Vec::new();
    let mut i: usize = 0;
    while i < keys.len()
        invariant
            i <= keys.len(),
            keys.len() == admitted.len(),
            ranked_list(keys@, admitted@, full@),
            forall|q: int| 0 <= q < full.len() ==> (#[trigger] full@[q]) < i,
            forall|a: int| 0 <= a < i && admitted@[a] ==> full@.contains(a as usize),
        decreases keys.len() - i,
    {
        if admitted[i] {
            let mut p: usize = 0;
            while p < full.len() && keys[full[p]] >= keys[i]
                invariant
                    p <= full.len(),
                    i < keys.len(),
                    keys.len() == admitted.len(),
                    forall|q: int| 0 <= q < full.len() ==> (#[trigger] full@[q]) < i,
                    forall|q: int| 0 <= q < full.len() ==> (#[trigger] full@[q]) < keys.len(),
                    forall|q: int| 0 <= q < p ==> ranks_before(keys@, #[trigger] full@[q] as int, i as int),
                decreases full.len() - p,
            {
                p += 1;
            }
            proof {
                assert forall|q: int| p <= q < full.len() implies ranks_before(
                    keys@,
                    i as int,
                    #[trigger] full@[q] as int,
                ) by {
                    if q > p {
                        assert(ranks_before(keys@, full@[p as int] as int, full@[q] as int));
                    }
                }
            }
            let ghost old_full = full@;
            full.insert(p, i);
            proof {
                assert(full@ == old_full.insert(p as int, i));
                assert forall|a: int, b: int| 0 <= a < b < full@.len() implies ranks_before(
                    keys@,
                    #[trigger] full@[a] as int,
                    #[trigger] full@[b] as int,
                ) by {
                    if b < p {
                        assert(full@[a] == old_full[a] && full@[b] == old_full[b]);
                    } else if b == p {
                        assert(full@[a] == old_full[a]);
                    } else if a < p {
                        assert(full@[a] == old_full[a] && full@[b] == old_full[b - 1]);
                    } else if a == p {
                        assert(full@[b] == old_full[b - 1]);
                    } else {
                        assert(full@[a] == old_full[a - 1] && full@[b] == old_full[b - 1]);
                    }
                }
                assert forall|q: int| 0 <= q < full@.len() implies (#[trigger] full@[q]) < keys.len()
                    && admitted@[full@[q] as int] by {
                    if q < p {
                        assert(full@[q] == old_full[q]);
                    } else if q > p {
                        assert(full@[q] == old_full[q - 1]);
                    }
                }
                assert forall|q: int| 0 <= q < full@.len() implies (#[trigger] full@[q]) < i + 1 by {
                    if q < p {
                        assert(full@[q] == old_full[q]);
                    } else if q > p {
                        assert(full@[q] == old_full[q - 1]);
                    }
                }
                assert forall|a: int| 0 <= a < i + 1 && admitted@[a] implies full@.contains(
                    a as usize,
                ) by {
                    if a < i {
                        let w = choose|w: int| 0 <= w < old_full.len() && old_full[w] == a as usize;
                        if w < p {
                            assert(full@[w] == a as usize);
                        } else {
                            assert(full@[w + 1] == a as usize);
                        }
                    } else {
                        assert(full@[p as int] == i);
                    }
                }
            }
        }
        i += 1;
    }
    let ghost whole = full@;
    if full.len() > top_k {
        full.truncate(top_k);
    }
    proof {
        assert(full@ == whole.take(full@.len() as int));
        assert forall|a: int|
            0 <= a < keys.len() && admitted@[a] && !full@.contains(a as usize) implies {
            &&& full@.len() == top_k
            &&& forall|x: int|
                0 <= x < full@.len() ==> ranks_before(keys@, #[trigger] full@[x] as int, a)
        } by {
            let w = choose|w: int| 0 <= w < whole.len() && whole[w] == a as usize;
            if w < full@.len() {
                assert(full@[w] == a as usize);
            }
            assert forall|x: int| 0 <= x < full@.len() implies ranks_before(
                keys@,
                #[trigger] full@[x] as int,
                a,
            ) by {
                assert(full@[x] == whole[x]);
            }
        }
    }
    full
}

} // verus!
