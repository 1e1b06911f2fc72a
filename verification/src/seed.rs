//! A number that names a list of paths, for the name of a scratch file.

use vstd::prelude::*;
use vstd::string::*;

verus! {

/// The value the mixing starts from.
pub const SEED_OFFSET: u64 = 1469598103934665603;

/// The factor of each mixing step.
pub const SEED_PRIME: u64 = 1099511628211;

/// One step: the byte is folded into the low bits, then the whole is
/// multiplied, the product cut to 64 bits.
pub open spec fn mix(acc: u64, b: u8) -> u64 {
    (acc ^ (b as u64)).wrapping_mul(SEED_PRIME)
}

/// The steps for the bytes of one text, in order.
pub open spec fn mix_bytes(acc: u64, bytes: Seq<u8>) -> u64
    decreases bytes.len(),
{
    if bytes.len() == 0 {
        acc
    } else {
        mix(mix_bytes(acc, bytes.drop_last()), bytes.last())
    }
}

/// The steps for the UTF-8 bytes of each path, in order.
pub open spec fn mix_paths(acc: u64, paths: Seq<String>) -> u64
    decreases paths.len(),
{
    if paths.len() == 0 {
        acc
    } else {
        mix_bytes(mix_paths(acc, paths.drop_last()), vstd::utf8::encode_utf8(paths.last()@))
    }
}

/// The seed of a list of paths: every byte of every path mixed in, in
/// order, starting from the offset. Where one path ends and the next begins
/// makes no difference.
pub fn uuid_like_seed(paths: &[String]) -> (seed: u64)
    ensures
        seed == mix_paths(SEED_OFFSET, paths@),
{
    let mut acc: u64 = SEED_OFFSET;
    let mut i: usize = 0;
    assert(paths@.take(0) =~= Seq::<String>::empty());
    while i < paths.len()
        invariant
            i <= paths.len(),
            acc == mix_paths(SEED_OFFSET, paths@.take(i as int)),
        decreases paths.len() - i,
    {
        let bytes = paths[i].as_str().as_bytes();
        let ghost before = acc;
        let mut k: usize = 0;
        assert(bytes@.take(0) =~= Seq::<u8>::empty());
        while k < bytes.len()
            invariant
                k <= bytes.len(),
                acc == mix_bytes(before, bytes@.take(k as int)),
            decreases bytes.len() - k,
        {
            assert(bytes@.take(k as int + 1).drop_last() =~= bytes@.take(k as int));
            acc = (acc ^ (bytes[k] as u64)).wrapping_mul(SEED_PRIME);
            k = k + 1;
        }
        assert(bytes@.take(k as int) =~= bytes@);
        assert(paths@.take(i as int + 1).drop_last() =~= paths@.take(i as int));
        assert(paths@.take(i as int + 1).last() == paths@[i as int]);
        i = i + 1;
    }
    assert(paths@.take(i as int) =~= paths@);
    acc
}

} // verus!
