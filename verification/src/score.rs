//! Class scores and their order.
//!
//! The network reports one single-precision number per class. A score is
//! carried here as the 32 bits of that number, so that nothing is lost on
//! the way in or out; `rank` gives each bit pattern its place in the numeric
//! order.

use vstd::prelude::*;

verus! {

/// The bit that holds the sign of a score.
pub const SIGN_BIT: u32 = 0x8000_0000;

/// The pattern of positive infinity, the largest magnitude that is a number.
pub const INFINITY_BITS: u32 = 0x7F80_0000;

/// The pattern without its sign.
pub open spec fn magnitude(bits: u32) -> int {
    if bits >= SIGN_BIT {
        bits - SIGN_BIT
    } else {
        bits as int
    }
}

/// Whether the pattern encodes a number (an infinity counts as one).
pub open spec fn is_number(bits: u32) -> bool {
    magnitude(bits) <= INFINITY_BITS
}

/// The place of a pattern in the numeric order: of two numbers the greater
/// has the greater rank, the two zeros share rank 0, and a pattern that is
/// not a number ranks below every number.
pub open spec fn rank(bits: u32) -> int {
    if !is_number(bits) {
        -(SIGN_BIT as int)
    } else if bits >= SIGN_BIT {
        -magnitude(bits)
    } else {
        magnitude(bits)
    }
}

/// Computes `rank`.
pub fn rank_of(bits: u32) -> (r: i64)
    ensures
        r == rank(bits),
{
    let negative = bits >= SIGN_BIT;
    let magnitude: u32 = if negative {
        bits - SIGN_BIT
    } else {
        bits
    };
    if magnitude > INFINITY_BITS {
        -0x8000_0000i64
    } else if negative {
        -(magnitude as i64)
    } else {
        magnitude as i64
    }
}

/// A number keeps within the ranks of the two infinities, and whatever is
/// no number ranks below them all.
pub proof fn lemma_rank_bounds(bits: u32)
    ensures
        is_number(bits) ==> -(INFINITY_BITS as int) <= rank(bits) <= INFINITY_BITS as int,
        !is_number(bits) ==> rank(bits) < -(INFINITY_BITS as int),
{
}

/// Two numbers rank alike only where they are the same pattern or the two
/// zeros: a tie between scores is a tie between their values.
pub proof fn lemma_equal_rank_is_equal_value(first: u32, second: u32)
    requires
        is_number(first),
        is_number(second),
        rank(first) == rank(second),
    ensures
        first == second || (magnitude(first) == 0 && magnitude(second) == 0),
{
}

/// `index` is the position of the greatest score, and the first such
/// position where several scores are equally great.
pub open spec fn is_argmax(scores: Seq<u32>, index: int) -> bool {
    &&& 0 <= index < scores.len()
    &&& forall|k: int| 0 <= k < scores.len() ==> rank(#[trigger] scores[k]) <= rank(scores[index])
    &&& forall|k: int| 0 <= k < index ==> rank(#[trigger] scores[k]) < rank(scores[index])
}

/// The position that `is_argmax` singles out; meaningful for a sequence that
/// is not empty.
pub open spec fn argmax_index(scores: Seq<u32>) -> int {
    choose|index: int| is_argmax(scores, index)
}

/// At most one position is the argmax of a sequence.
pub proof fn lemma_argmax_unique(scores: Seq<u32>, first: int, second: int)
    requires
        is_argmax(scores, first),
        is_argmax(scores, second),
    ensures
        first == second,
{
    if first < second {
        assert(rank(scores[first]) < rank(scores[second]));
    } else if second < first {
        assert(rank(scores[second]) < rank(scores[first]));
    }
}

/// Every sequence that is not empty has an argmax, and `argmax_index` is it.
pub proof fn lemma_argmax_exists(scores: Seq<u32>)
    requires
        scores.len() > 0,
    ensures
        is_argmax(scores, argmax_index(scores)),
    decreases scores.len(),
{
    if scores.len() == 1 {
        assert(is_argmax(scores, 0));
    } else {
        let front = scores.drop_last();
        lemma_argmax_exists(front);
        let held = argmax_index(front);
        let last = scores.len() - 1;
        if rank(scores[last]) > rank(scores[held]) {
            assert forall|k: int| 0 <= k < scores.len() implies rank(#[trigger] scores[k]) <= rank(
                scores[last],
            ) by {
                if k < last {
                    assert(rank(front[k]) <= rank(front[held]));
                }
            }
            assert forall|k: int| 0 <= k < last implies rank(#[trigger] scores[k]) < rank(
                scores[last],
            ) by {
                assert(rank(front[k]) <= rank(front[held]));
            }
            assert(is_argmax(scores, last));
        } else {
            assert forall|k: int| 0 <= k < scores.len() implies rank(#[trigger] scores[k]) <= rank(
                scores[held],
            ) by {
                if k < last {
                    assert(rank(front[k]) <= rank(front[held]));
                }
            }
            assert forall|k: int| 0 <= k < held implies rank(#[trigger] scores[k]) < rank(
                scores[held],
            ) by {
                assert(rank(front[k]) < rank(front[held]));
            }
            assert(is_argmax(scores, held));
        }
    }
}

/// The position of the greatest score, the lowest one on a tie; `None` for
/// an empty list.
pub fn argmax(scores: &Vec<u32>) -> (best: Option<usize>)
    ensures
        best is None <==> scores.len() == 0,
        best matches Some(index) ==> index == argmax_index(scores@) && is_argmax(
            scores@,
            index as int,
        ),
{
    if scores.len() == 0 {
        return None;
    }
    let mut best: usize = 0;
    let mut best_rank: i64 = rank_of(scores[0]);
    let mut next: usize = 1;
    while next < scores.len()
        invariant
            1 <= next <= scores.len(),
            best < next,
            best_rank == rank(scores[best as int]),
            forall|k: int| 0 <= k < next ==> rank(#[trigger] scores[k]) <= best_rank,
            forall|k: int| 0 <= k < best ==> rank(#[trigger] scores[k]) < best_rank,
        decreases scores.len() - next,
    {
        let candidate = rank_of(scores[next]);
        if candidate > best_rank {
            best = next;
            best_rank = candidate;
        }
        next += 1;
    }
    proof {
        lemma_argmax_exists(scores@);
        lemma_argmax_unique(scores@, best as int, argmax_index(scores@));
    }
    Some(best)
}

} // verus!
