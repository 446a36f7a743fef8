//! Integer side of the hashing text vectorizer: token hashing and bucket
//! choice.
use vstd::prelude::*;

verus! {

/// Length of an embedding vector.
pub const DIMENSIONS: usize = 128;

pub const FNV_OFFSET_BASIS: u64 = 0xcbf29ce484222325;

pub const FNV_PRIME: u64 = 0x00000100000001b3;

/// 64-bit FNV-1a: starting from the offset basis, each byte is xored in and
/// the state multiplied by the prime modulo 2^64.
pub open spec fn fnv1a_spec(bytes: Seq<u8>) -> u64
    decreases bytes.len(),
{
    if bytes.len() == 0 {
        FNV_OFFSET_BASIS
    } else {
        let h = fnv1a_spec(bytes.drop_last()) ^ (bytes.last() as u64);
        ((h as nat * FNV_PRIME as nat) % 0x1_0000_0000_0000_0000) as u64
    }
}

pub fn fnv1a_hash(bytes: &[u8]) -> (r: u64)
    ensures
        r == fnv1a_spec(bytes@),
{
    let mut hash: u64 = FNV_OFFSET_BASIS;
    let mut i: usize = 0;
    while i < bytes.len()
        invariant
            0 <= i <= bytes@.len(),
            hash == fnv1a_spec(bytes@.take(i as int)),
        decreases bytes@.len() - i,
    {
        assert(bytes@.take(i + 1).drop_last() =~= bytes@.take(i as int));
        hash = hash ^ (bytes[i] as u64);
        hash = hash.wrapping_mul(FNV_PRIME);
        i = i + 1;
    }
    assert(bytes@.take(bytes@.len() as int) =~= bytes@);
    hash
}

/// The vector position a token's weight is added to.
pub fn token_bucket(token: &[u8]) -> (r: usize)
    ensures
        r as int == fnv1a_spec(token@) as int % DIMENSIONS as int,
        r < DIMENSIONS,
{
    (fnv1a_hash(token) % (DIMENSIONS as u64)) as usize
}

} // verus!
