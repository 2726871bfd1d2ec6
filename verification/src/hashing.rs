//! Content hashing for clipboard change detection.
//!
//! Image contents are compared by a 64-bit FNV-1a hash of their raw pixel
//! bytes rather than byte-by-byte. The hash is deterministic and
//! non-cryptographic; a collision at worst makes one clipboard change go
//! unnoticed, it never corrupts the history.

use vstd::prelude::*;

verus! {

/// FNV-1a 64-bit offset basis.
pub const FNV_OFFSET: u64 = 0xcbf29ce484222325;

/// FNV-1a 64-bit prime.
pub const FNV_PRIME: u64 = 0x100000001b3;

/// One FNV-1a round: fold one byte into the running hash.
pub open spec fn hash_step(h: u64, b: u8) -> u64 {
    (h ^ (b as u64)).wrapping_mul(FNV_PRIME)
}

/// The FNV-1a hash of a byte sequence: the offset basis folded once per byte,
/// left to right.
pub open spec fn content_hash(s: Seq<u8>) -> u64
    decreases s.len(),
{
    if s.len() == 0 {
        FNV_OFFSET
    } else {
        hash_step(content_hash(s.drop_last()), s.last())
    }
}

/// Hash of raw content bytes, used by the change tracker to detect new image
/// content.
pub fn calculate_hash(bytes: &[u8]) -> (h: u64)
    ensures
        h == content_hash(bytes@),
{
    let mut h: u64 = FNV_OFFSET;
    let mut i: usize = 0;
    while i < bytes.len()
        invariant
            i <= bytes@.len(),
            h == content_hash(bytes@.take(i as int)),
        decreases bytes@.len() - i,
    {
        h = (h ^ (bytes[i] as u64)).wrapping_mul(FNV_PRIME);
        proof {
            assert(bytes@.take(i + 1).drop_last() =~= bytes@.take(i as int));
        }
        i = i + 1;
    }
    proof {
        assert(bytes@.take(bytes@.len() as int) =~= bytes@);
    }
    h
}

} // verus!
