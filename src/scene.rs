//! Scene-level choices that need no geometry: the kinds of light, and which of
//! several hits along one ray is the nearest.

use vstd::prelude::*;

verus! {

/// A light infinitely far away: every ray it sends is parallel to the others.
#[derive(Clone, Copy, Debug)]
pub struct Directional {}

/// Rank of a distance, given by its IEEE-754 single precision bits, in the total
/// order of `f32::total_cmp`: negative NaNs first, then the negative numbers,
/// `-0.0`, `+0.0`, the positive numbers, and the positive NaNs last.
pub open spec fn order_key(bits: u32) -> int {
    if bits < 0x8000_0000 {
        bits as int
    } else {
        0x7FFF_FFFF - bits as int
    }
}

/// `k` is the first of the nearest hits in `hits`; `None` marks a miss.
pub open spec fn is_nearest(hits: Seq<Option<u32>>, k: int) -> bool {
    &&& 0 <= k < hits.len()
    &&& hits[k] is Some
    &&& forall|j: int|
        0 <= j < hits.len() && #[trigger] hits[j] is Some ==> order_key(hits[k]->0) <= order_key(
            hits[j]->0,
        )
    &&& forall|j: int|
        0 <= j < k && #[trigger] hits[j] is Some ==> order_key(hits[k]->0) < order_key(hits[j]->0)
}

/// The rank of the distance with these bits, as an `i32` that compares as
/// `f32::total_cmp` compares the distances.
pub fn total_order_key(bits: u32) -> (k: i32)
    ensures
        k == order_key(bits),
{
    if bits < 0x8000_0000 {
        bits as i32
    } else {
        (0x7FFF_FFFF - bits as i64) as i32
    }
}

/// Index of the nearest hit among `hits`, each the bits of a hit's distance or
/// `None` for a miss; of equally near hits, the first. `None` when all miss.
pub fn nearest_hit(hits: &Vec<Option<u32>>) -> (r: Option<usize>)
    ensures
        r is None <==> forall|i: int| 0 <= i < hits@.len() ==> #[trigger] hits@[i] is None,
        r matches Some(k) ==> is_nearest(hits@, k as int),
{
    let mut best: Option<usize> = None;
    let mut best_key: i32 = 0;
    let mut i: usize = 0;
    while i < hits.len()
        invariant
            i <= hits@.len(),
            best is None <==> forall|j: int| 0 <= j < i ==> #[trigger] hits@[j] is None,
            best matches Some(k) ==> {
                &&& k < i
                &&& hits@[k as int] is Some
                &&& best_key == order_key(hits@[k as int]->0)
                &&& forall|j: int|
                    0 <= j < i && #[trigger] hits@[j] is Some ==> best_key <= order_key(hits@[j]->0)
                &&& forall|j: int|
                    0 <= j < k && #[trigger] hits@[j] is Some ==> best_key < order_key(hits@[j]->0)
            },
        decreases hits@.len() - i,
    {
        if let Some(bits) = hits[i] {
            let key = total_order_key(bits);
            let closer = match best {
                None => true,
                Some(_) => key < best_key,
            };
            if closer {
                best = Some(i);
                best_key = key;
            }
        }
        i = i + 1;
    }
    best
}

/// The nearest hit is unique: two indices that both meet `is_nearest` are one.
pub proof fn lemma_nearest_is_unique(hits: Seq<Option<u32>>, k1: int, k2: int)
    requires
        is_nearest(hits, k1),
        is_nearest(hits, k2),
    ensures
        k1 == k2,
{
    if k1 < k2 {
        assert(hits[k1] is Some);
    } else if k2 < k1 {
        assert(hits[k2] is Some);
    }
}

} // verus!
