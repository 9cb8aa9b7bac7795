//! Content hashing for blocks. A block's identity is the hash of its
//! content, computed by folding the header words and the transaction
//! sequence through a 64-bit mixing step.

use vstd::prelude::*;

verus! {

/// One mixing step: combines an accumulator with the next 64-bit word,
/// truncated back to 64 bits. Opaque: callers treat the hash as abstract and
/// only ever compare hash values.
#[verifier::opaque]
pub open spec fn spec_mix(a: u64, b: u64) -> u64 {
    (((a as int) * 0x100000001b3 + (b as int) + 0x9e3779b97f4a7c15) % 0x1_0000_0000_0000_0000) as u64
}

/// Seed of the fold over a sequence of words.
pub open spec fn fold_seed() -> u64 {
    0xcbf29ce484222325u64
}

/// Hash of a word sequence: the mixing step folded over it, left to right.
/// Opaque, as `spec_mix` is.
#[verifier::opaque]
pub open spec fn spec_fold_words(s: Seq<u64>) -> u64
    decreases s.len(),
{
    if s.len() == 0 {
        fold_seed()
    } else {
        spec_mix(spec_fold_words(s.drop_last()), s.last())
    }
}

/// Executable mixing step.
pub fn mix(a: u64, b: u64) -> (r: u64)
    ensures
        r == spec_mix(a, b),
{
    proof {
        reveal(spec_mix);
    }
    let t: u128 = (a as u128) * 0x100000001b3u128 + (b as u128) + 0x9e3779b97f4a7c15u128;
    (t % 0x1_0000_0000_0000_0000u128) as u64
}

/// Executable fold over a word vector.
pub fn fold_words(v: &Vec<u64>) -> (r: u64)
    ensures
        r == spec_fold_words(v@),
{
    let mut acc: u64 = fold_seed_word();
    proof {
        reveal_with_fuel(spec_fold_words, 1);
    }
    let mut i: usize = 0;
    while i < v.len()
        invariant
            i <= v.len(),
            acc == spec_fold_words(v@.subrange(0, i as int)),
        decreases v.len() - i,
    {
        proof {
            reveal_with_fuel(spec_fold_words, 1);
            assert(v@.subrange(0, i + 1).drop_last() =~= v@.subrange(0, i as int));
            assert(v@.subrange(0, i + 1).last() == v@[i as int]);
        }
        acc = mix(acc, v[i]);
        i = i + 1;
    }
    proof {
        assert(v@.subrange(0, v@.len() as int) =~= v@);
    }
    acc
}

/// Executable seed of the word fold.
pub fn fold_seed_word() -> (r: u64)
    ensures
        r == fold_seed(),
{
    0xcbf29ce484222325u64
}

} // verus!
