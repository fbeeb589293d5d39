//! The client-side ETag of a file: a little-endian block count followed by a
//! SHA-1 digest — of the single block, or of the concatenated per-block
//! hashes — rendered in URL-safe base64.

use vstd::prelude::*;
use crate::codec::{base64_url, sha1, spec_base64_url, spec_sha1};

verus! {

/// The four little-endian bytes of `n`.
pub open spec fn spec_u32_le(n: u32) -> Seq<u8> {
    seq![
        (n & 0xff) as u8,
        ((n >> 8) & 0xff) as u8,
        ((n >> 16) & 0xff) as u8,
        ((n >> 24) & 0xff) as u8,
    ]
}

/// Write `n` as its four little-endian bytes.
pub fn u32_le_bytes(n: u32) -> (r: Vec<u8>)
    ensures
        r@ == spec_u32_le(n),
        r@.len() == 4,
{
    proof {
        assert(n & 0xff < 256 && (n >> 8) & 0xff < 256 && (n >> 16) & 0xff < 256 && (n >> 24)
            & 0xff < 256) by (bit_vector);
    }
    let mut r: Vec<u8> = Vec::new();
    r.push((n & 0xff) as u8);
    r.push(((n >> 8) & 0xff) as u8);
    r.push(((n >> 16) & 0xff) as u8);
    r.push(((n >> 24) & 0xff) as u8);
    proof {
        assert(r@ =~= spec_u32_le(n));
    }
    r
}

/// The concatenation of the blocks' SHA-1 hashes, in block order.
pub open spec fn spec_block_hashes(blocks: Seq<Vec<u8>>) -> Seq<u8>
    decreases blocks.len(),
{
    if blocks.len() == 0 {
        Seq::<u8>::empty()
    } else {
        spec_block_hashes(blocks.drop_last()) + spec_sha1(blocks.last()@)
    }
}

/// A file's client-side ETag: the whole-file tag and, for multi-block files,
/// one tag per block.
#[derive(Debug, PartialEq, Eq, Default)]
pub struct ETag {
    /// The whole file's tag.
    pub etag: String,
    /// One tag per block, for files of more than one block.
    pub part_etags: Vec<String>,
}

impl ETag {
    /// Create a new instance of ETag.
    pub fn new() -> (r: Self)
        ensures
            r.etag@ == Seq::<char>::empty(),
            r.part_etags@.len() == 0,
    {
        ETag { etag: String::new(), part_etags: Vec::new() }
    }

    /// The ETag of a file read as `blocks`: the block count in little-endian
    /// bytes, followed by the SHA-1 of the single block — or, for several
    /// blocks, the SHA-1 of the concatenated block hashes — the 24 bytes
    /// rendered in URL-safe base64. Several blocks also each get their own
    /// base64 SHA-1 tag.
    pub fn from_parts(blocks: &Vec<Vec<u8>>) -> (r: ETag)
        requires
            1 <= blocks@.len() <= u32::MAX,
        ensures
            blocks@.len() == 1 ==> {
                &&& r.etag@ == spec_base64_url(spec_u32_le(1) + spec_sha1(blocks@[0]@))
                &&& r.part_etags@.len() == 0
            },
            blocks@.len() > 1 ==> {
                &&& r.etag@ == spec_base64_url(
                    spec_u32_le(blocks@.len() as u32) + spec_sha1(spec_block_hashes(blocks@)),
                )
                &&& r.part_etags@.len() == blocks@.len()
                &&& forall|i: int|
                    0 <= i < blocks@.len() ==> #[trigger] r.part_etags@[i]@ == spec_base64_url(
                        spec_sha1(blocks@[i]@),
                    )
            },
    {
        let count: u32 = blocks.len() as u32;
        let mut buff = u32_le_bytes(count);
        let mut part_etags: Vec<String> = Vec::new();
        let mut digest: Vec<u8>;
        if blocks.len() > 1 {
            let mut hashes: Vec<u8> = Vec::new();
            let n = blocks.len();
            let mut i: usize = 0;
            proof {
                assert(hashes@ =~= spec_block_hashes(blocks@.subrange(0, 0)));
            }
            while i < n
                invariant
                    n == blocks@.len(),
                    0 <= i <= n,
                    hashes@ == spec_block_hashes(blocks@.subrange(0, i as int)),
                    part_etags@.len() == i,
                    forall|j: int|
                        0 <= j < i ==> #[trigger] part_etags@[j]@ == spec_base64_url(
                            spec_sha1(blocks@[j]@),
                        ),
                decreases n - i,
            {
                let mut block_hash = sha1(blocks[i].as_slice());
                part_etags.push(base64_url(block_hash.as_slice()));
                hashes.append(&mut block_hash);
                proof {
                    assert(blocks@.subrange(0, i + 1).drop_last() =~= blocks@.subrange(
                        0,
                        i as int,
                    ));
                    assert(blocks@.subrange(0, i + 1).last() == blocks@[i as int]);
                }
                i = i + 1;
            }
            proof {
                assert(blocks@.subrange(0, n as int) =~= blocks@);
            }
            digest = sha1(hashes.as_slice());
        } else {
            digest = sha1(blocks[0].as_slice());
        }
        let ghost digest_view = digest@;
        buff.append(&mut digest);
        proof {
            assert(buff@ =~= spec_u32_le(count) + digest_view);
        }
        let etag = base64_url(buff.as_slice());
        ETag { etag, part_etags }
    }
}

} // verus!
