//! Splitting a known object length into the fixed-size byte ranges that the
//! multipart upload and the ranged download both work over.

use vstd::prelude::*;
use vstd::arithmetic::div_mod::{lemma_div_pos_is_pos, lemma_fundamental_div_mod};
use vstd::arithmetic::mul::{lemma_mul_inequality, lemma_mul_is_distributive_add_other_way};

verus! {

/// One contiguous unit of a transfer: the half-open byte range `[start, end)`.
#[derive(Debug, Clone, Copy, PartialEq, Eq, Structural)]
pub struct ByteRange {
    pub start: u64,
    pub end: u64,
}

/// How many parts a transfer of `total_size` bytes has with parts of
/// `block_size` bytes: the division rounded up.
pub open spec fn range_count(total_size: int, block_size: int) -> int {
    total_size / block_size + if total_size % block_size == 0 {
        0int
    } else {
        1int
    }
}

/// Where part `i` begins.
pub open spec fn part_start(i: int, block_size: int) -> int {
    i * block_size
}

/// Where part `i` ends: one block further, clipped to the object's length.
pub open spec fn part_end(i: int, block_size: int, total_size: int) -> int {
    vstd::math::min((i + 1) * block_size, total_size)
}

/// The rounded-up part count brackets the total size:
/// one block fewer falls short of it, the full count reaches it.
proof fn lemma_range_count_brackets(total_size: int, block_size: int)
    requires
        total_size > 0,
        block_size > 0,
    ensures
        1 <= range_count(total_size, block_size) <= total_size,
        (range_count(total_size, block_size) - 1) * block_size < total_size,
        total_size <= range_count(total_size, block_size) * block_size,
{
    let q = total_size / block_size;
    let r = total_size % block_size;
    lemma_fundamental_div_mod(total_size, block_size);
    lemma_div_pos_is_pos(total_size, block_size);
    assert(q * block_size == total_size - r) by (nonlinear_arith)
        requires total_size == block_size * q + r;
    assert(q <= q * block_size) by (nonlinear_arith)
        requires q >= 0 && block_size >= 1;
    if r == 0 {
        assert(q >= 1) by (nonlinear_arith)
            requires q * block_size == total_size && total_size > 0 && block_size > 0 && q >= 0;
        assert((q - 1) * block_size == q * block_size - block_size) by (nonlinear_arith);
    } else {
        assert((q + 1) * block_size == q * block_size + block_size) by (nonlinear_arith);
    }
}

/// Split `total_size` bytes into ranges of `block_size` bytes each, the last
/// one clipped. The ranges start at zero, are contiguous, non-overlapping,
/// each non-empty, cover exactly `[0, total_size)`, and number
/// `total_size / block_size` rounded up.
pub fn split_into_ranges(total_size: u64, block_size: u64) -> (r: Vec<ByteRange>)
    requires
        total_size > 0,
        block_size > 0,
    ensures
        r@.len() == range_count(total_size as int, block_size as int),
        r@.len() >= 1,
        forall|i: int|
            0 <= i < r@.len() ==> #[trigger] r@[i].start == part_start(i, block_size as int),
        forall|i: int|
            0 <= i < r@.len() ==> #[trigger] r@[i].end == part_end(
                i,
                block_size as int,
                total_size as int,
            ),
        r@[0].start == 0,
        r@[r@.len() - 1].end == total_size,
        forall|i: int| 0 <= i < r@.len() ==> #[trigger] r@[i].start < r@[i].end,
        forall|i: int| 0 < i < r@.len() ==> #[trigger] r@[i].start == r@[i - 1].end,
{
    proof {
        lemma_range_count_brackets(total_size as int, block_size as int);
    }
    let q: u64 = total_size / block_size;
    let count: u64 = if total_size % block_size != 0 {
        q + 1
    } else {
        q
    };
    let mut r: Vec<ByteRange> = Vec::new();
    let mut i: u64 = 0;
    while i < count
        invariant
            total_size > 0,
            block_size > 0,
            count == range_count(total_size as int, block_size as int),
            (count - 1) * block_size < total_size <= count * block_size,
            i <= count,
            r@.len() == i,
            forall|j: int|
                0 <= j < i ==> #[trigger] r@[j].start == part_start(j, block_size as int),
            forall|j: int|
                0 <= j < i ==> #[trigger] r@[j].end == part_end(
                    j,
                    block_size as int,
                    total_size as int,
                ),
        decreases count - i,
    {
        proof {
            lemma_mul_inequality(i as int, count - 1, block_size as int);
        }
        let start: u64 = i * block_size;
        let end: u64 = if total_size - start > block_size {
            start + block_size
        } else {
            total_size
        };
        proof {
            lemma_mul_is_distributive_add_other_way(block_size as int, i as int, 1);
        }
        r.push(ByteRange { start, end });
        i = i + 1;
    }
    proof {
        assert forall|j: int| 0 < j < r@.len() implies #[trigger] r@[j].start == r@[j - 1].end by {
            lemma_mul_inequality(j, r@.len() - 1, block_size as int);
            lemma_mul_is_distributive_add_other_way(block_size as int, j - 1, 1);
        }
        assert forall|j: int| 0 <= j < r@.len() implies #[trigger] r@[j].start < r@[j].end by {
            lemma_mul_inequality(j, r@.len() - 1, block_size as int);
            lemma_mul_is_distributive_add_other_way(block_size as int, j, 1);
        }
    }
    r
}

/// Distinct ranges of one split never overlap: the earlier one ends
/// at or before the later one starts.
pub proof fn lemma_ranges_disjoint(r: Seq<ByteRange>, block_size: int, total_size: int)
    requires
        block_size > 0,
        forall|i: int| 0 <= i < r.len() ==> #[trigger] r[i].start == part_start(i, block_size),
        forall|i: int|
            0 <= i < r.len() ==> #[trigger] r[i].end == part_end(i, block_size, total_size),
    ensures
        forall|i: int, j: int|
            0 <= i < j < r.len() ==> #[trigger] r[i].end <= #[trigger] r[j].start,
{
    assert forall|i: int, j: int|
        0 <= i < j < r.len() implies #[trigger] r[i].end <= #[trigger] r[j].start by {
        lemma_mul_inequality(i + 1, j, block_size);
    }
}

} // verus!
