//! Digests: the numbers under which the arenas index their values. A
//! digest is folded from the alternative of a value and from the handles,
//! numbers and lists in it; small enumerations are left out, since they
//! split the values of one digest into a few at most.

use vstd::prelude::*;

verus! {

/// The seed of every digest.
pub const DIGEST_SEED: u64 = 0xcbf29ce484222325;

/// Folds one more number into a digest.
pub open spec fn spec_mix(h: u64, x: u64) -> u64 {
    (h ^ x).wrapping_mul(0x100000001b3)
}

/// Folds one more number into a digest.
#[verifier::when_used_as_spec(spec_mix)]
pub fn mix(h: u64, x: u64) -> (r: u64)
    ensures
        r == spec_mix(h, x),
{
    (h ^ x).wrapping_mul(0x100000001b3)
}

/// The digest of a sequence of bytes.
pub open spec fn digest_bytes(s: Seq<u8>) -> u64
    decreases s.len(),
{
    if s.len() == 0 {
        DIGEST_SEED
    } else {
        mix(digest_bytes(s.drop_last()), s.last() as u64)
    }
}

/// Computes the digest of a sequence of bytes.
pub fn fingerprint_bytes(bytes: &[u8]) -> (r: u64)
    ensures
        r == digest_bytes(bytes@),
{
    let mut h: u64 = DIGEST_SEED;
    let mut i: usize = 0;
    proof {
        assert(bytes@.take(0) =~= Seq::empty());
    }
    while i < bytes.len()
        invariant
            i <= bytes.len(),
            h == digest_bytes(bytes@.take(i as int)),
        decreases bytes.len() - i,
    {
        proof {
            assert(bytes@.take(i + 1).drop_last() =~= bytes@.take(i as int));
            assert(bytes@.take(i + 1).last() == bytes@[i as int]);
        }
        h = mix(h, bytes[i] as u64);
        i += 1;
    }
    proof {
        assert(bytes@.take(bytes.len() as int) =~= bytes@);
    }
    h
}

} // verus!
