//! Moving bytes by parts: cutting a part's bytes out of a source, writing a
//! fetched range at its offset into a destination, and the round-trip fact
//! that uploading by parts and downloading by ranges reproduces the content.

use vstd::prelude::*;
use vstd::pervasive::VecAdditionalExecFns;
use vstd::slice::{slice_subrange, slice_to_vec};
use crate::ranges::{part_end, part_start, range_count, split_into_ranges, ByteRange};
use crate::text::{spec_dec, u64_to_dec};
use vstd::string::StringExecFns;

verus! {

/// Cut one range's bytes out of the source.
pub fn extract_chunk(content: &[u8], range: ByteRange) -> (r: Vec<u8>)
    requires
        range.start <= range.end <= content@.len(),
    ensures
        r@ == content@.subrange(range.start as int, range.end as int),
{
    let content_len = content.len();
    proof {
        assert(range.end <= content_len);
    }
    let piece = slice_subrange(content, range.start as usize, range.end as usize);
    slice_to_vec(piece)
}

/// Write `data` into `dest` starting at `offset`, leaving every byte outside
/// `[offset, offset + data.len())` unchanged. Ranges of one split are
/// disjoint, so concurrent range writes never touch the same byte.
pub fn write_chunk(dest: &mut Vec<u8>, offset: usize, data: &[u8])
    requires
        offset + data@.len() <= old(dest)@.len(),
    ensures
        final(dest)@.len() == old(dest)@.len(),
        forall|k: int|
            offset <= k < offset + data@.len() ==> final(dest)@[k] == data@[k - offset],
        forall|k: int|
            0 <= k < old(dest)@.len() && !(offset <= k < offset + data@.len())
                ==> final(dest)@[k] == old(dest)@[k],
{
    let n = data.len();
    let dest_len = dest.len();
    let mut i: usize = 0;
    while i < n
        invariant
            n == data@.len(),
            0 <= i <= n,
            offset + n <= dest@.len(),
            dest@.len() == old(dest)@.len(),
            dest@.len() == dest_len,
            forall|k: int| offset <= k < offset + i ==> dest@[k] == data@[k - offset],
            forall|k: int|
                0 <= k < old(dest)@.len() && !(offset <= k < offset + n) ==> dest@[k] == old(
                    dest,
                )@[k],
        decreases n - i,
    {
        let b = *vstd::slice::slice_index_get(data, i);
        dest.set(offset + i, b);
        i = i + 1;
    }
}

/// The `Range` header of one fetched range: `bytes={first}-{last}` with the
/// first and last byte index of the half-open range, both inclusive as HTTP
/// wants them.
pub open spec fn spec_range_header(range: ByteRange) -> Seq<char> {
    "bytes="@ + spec_dec(range.start as int) + "-"@ + spec_dec(range.end - 1)
}

/// Build the `Range` header value for one fetched range.
pub fn range_header(range: ByteRange) -> (r: String)
    requires
        range.start < range.end,
    ensures
        r@ == spec_range_header(range),
{
    let mut s = "bytes=".to_owned();
    s.append(u64_to_dec(range.start).as_str());
    s.append("-");
    s.append(u64_to_dec(range.end - 1).as_str());
    proof {
        assert(s@ =~= spec_range_header(range));
    }
    s
}

/// Splitting content into parts and writing each part back at its range's
/// offset reproduces the content byte for byte: the round trip of the
/// multipart upload path followed by the ranged download path.
pub fn transfer_round_trip(content: &Vec<u8>, block_size: u64) -> (r: Vec<u8>)
    requires
        content@.len() > 0,
        block_size > 0,
    ensures
        r@ == content@,
{
    let total: u64 = content.len() as u64;
    let ranges = split_into_ranges(total, block_size);
    let mut dest: Vec<u8> = vec![0u8; content.len()];
    let n = ranges.len();
    let mut i: usize = 0;
    while i < n
        invariant
            n == ranges@.len(),
            n >= 1,
            0 <= i <= n,
            total == content@.len(),
            content@.len() <= usize::MAX,
            dest@.len() == content@.len(),
            block_size > 0,
            n == range_count(total as int, block_size as int),
            forall|j: int|
                0 <= j < n ==> #[trigger] ranges@[j].start == part_start(j, block_size as int),
            forall|j: int|
                0 <= j < n ==> #[trigger] ranges@[j].end == part_end(
                    j,
                    block_size as int,
                    total as int,
                ),
            forall|j: int| 0 <= j < n ==> #[trigger] ranges@[j].start < ranges@[j].end,
            forall|j: int| 0 < j < n ==> #[trigger] ranges@[j].start == ranges@[j - 1].end,
            ranges@[n - 1].end == total,
            i > 0 ==> forall|k: int| 0 <= k < ranges@[i - 1].end ==> dest@[k] == content@[k],
        decreases n - i,
    {
        let range = ranges[i];
        let chunk = extract_chunk(content.as_slice(), range);
        write_chunk(&mut dest, range.start as usize, chunk.as_slice());
        proof {
            assert forall|k: int| 0 <= k < ranges@[i as int].end implies dest@[k] == content@[
                k
            ] by {
                if k < range.start {
                    assert(i > 0);
                    assert(ranges@[i as int].start == ranges@[i - 1].end);
                }
            }
        }
        i = i + 1;
    }
    proof {
        assert(dest@ =~= content@);
    }
    dest
}

} // verus!
