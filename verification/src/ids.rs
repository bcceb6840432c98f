//! Ordering result ids.
use vstd::prelude::*;

verus! {

/// The ids are strictly increasing, so each occurs once.
pub open spec fn increasing(ids: Seq<u32>) -> bool {
    forall|i: int, j: int| 0 <= i < j < ids.len() ==> ids[i] < ids[j]
}

/// The same ids, each once, in increasing order.
pub fn sort_ids(keys: &Vec<u32>) -> (r: Vec<u32>)
    requires
        keys@.no_duplicates(),
    ensures
        r@.len() == keys@.len(),
        increasing(r@),
        forall|k: u32| r@.contains(k) <==> keys@.contains(k),
{
    let mut ids: Vec<u32> = Vec::new();
    let mut i: usize = 0;
    while i < keys.len()
        invariant
            i <= keys@.len(),
            keys@.no_duplicates(),
            ids@.len() == i,
            increasing(ids@),
            forall|k: u32| ids@.contains(k) <==> keys@.take(i as int).contains(k),
        decreases keys@.len() - i,
    {
        let k = keys[i];
        let mut p: usize = 0;
        while p < ids.len() && ids[p] < k
            invariant
                p <= ids@.len(),
                forall|q: int| 0 <= q < p ==> ids@[q] < k,
            decreases ids@.len() - p,
        {
            p = p + 1;
        }
        proof {
            assert(!ids@.contains(k)) by {
                if ids@.contains(k) {
                    let ghost pre = keys@.take(i as int);
                    let j = choose|j: int| 0 <= j < pre.len() && pre[j] == k;
                    assert(keys@[j] == keys@[i as int]);
                }
            }
            if p < ids@.len() {
                assert(ids@[p as int] != k);
            }
        }
        let ghost old_ids = ids@;
        ids.insert(p, k);
        proof {
            assert(ids@ == old_ids.insert(p as int, k));
            assert forall|a: int, b: int| 0 <= a < b < ids@.len() implies ids@[a] < ids@[b] by {
                if a < p && b > p {
                    assert(ids@[b] == old_ids[b - 1]);
                } else if a == p && b > p {
                    assert(ids@[b] == old_ids[b - 1]);
                    if p < old_ids.len() {
                        assert(old_ids[p as int] <= old_ids[b - 1]);
                    }
                } else if a > p {
                    assert(ids@[a] == old_ids[a - 1]);
                    assert(ids@[b] == old_ids[b - 1]);
                }
            }
            assert(keys@.take(i + 1) == keys@.take(i as int).push(k));
            assert forall|x: u32| ids@.contains(x) <==> keys@.take(i + 1).contains(x) by {
                if ids@.contains(x) {
                    let q = choose|q: int| 0 <= q < ids@.len() && ids@[q] == x;
                    if q == p {
                        assert(keys@.take(i + 1)[i as int] == x);
                    } else {
                        if q < p {
                            assert(old_ids[q] == x);
                        } else {
                            assert(old_ids[q - 1] == x);
                        }
                        assert(old_ids.contains(x));
                        let pre = keys@.take(i as int);
                        assert(pre.contains(x));
                        let j = choose|j: int| 0 <= j < pre.len() && pre[j] == x;
                        assert(keys@.take(i + 1)[j] == x);
                    }
                }
                if keys@.take(i + 1).contains(x) && x != k {
                    let ghost pre = keys@.take(i + 1);
                    let j = choose|j: int| 0 <= j < pre.len() && pre[j] == x;
                    assert(keys@.take(i as int)[j] == x);
                    assert(old_ids.contains(x));
                    let q = choose|q: int| 0 <= q < old_ids.len() && old_ids[q] == x;
                    if q < p {
                        assert(ids@[q] == x);
                    } else {
                        assert(ids@[q + 1] == x);
                    }
                }
                if x == k {
                    assert(ids@[p as int] == x);
                }
            }
        }
        i = i + 1;
    }
    assert(keys@.take(keys@.len() as int) == keys@);
    ids
}

} // verus!
