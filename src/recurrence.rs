//! The FNV recurrences as functions of an initial accumulator and a byte
//! sequence, with the facts about them that the hashers rely on.
use vstd::prelude::*;

use crate::word::FnvWord;

verus! {

/// The multiply-then-xor recurrence shared by FNV-0 and FNV-1: starting from
/// `h`, each byte in order multiplies the accumulator by the prime and then
/// xors the byte into it.
pub open spec fn fnv1_fold<T: FnvWord>(h: T, bytes: Seq<u8>) -> T
    decreases bytes.len(),
{
    if bytes.len() == 0 {
        h
    } else {
        fnv1_fold(h, bytes.drop_last()).spec_wrapping_mul(T::spec_prime()).spec_xor(
            T::spec_from_byte(bytes.last()),
        )
    }
}

/// The xor-then-multiply recurrence of FNV-1a: starting from `h`, each byte in
/// order is xored into the accumulator, which is then multiplied by the prime.
pub open spec fn fnv1a_fold<T: FnvWord>(h: T, bytes: Seq<u8>) -> T
    decreases bytes.len(),
{
    if bytes.len() == 0 {
        h
    } else {
        fnv1a_fold(h, bytes.drop_last()).spec_xor(T::spec_from_byte(bytes.last())).spec_wrapping_mul(
            T::spec_prime(),
        )
    }
}

/// Folding `a` and then `b` into `h` is folding `a + b` into `h`: the
/// multiply-then-xor recurrence knows nothing of where one input ends.
pub proof fn lemma_fnv1_fold_concat<T: FnvWord>(h: T, a: Seq<u8>, b: Seq<u8>)
    ensures
        fnv1_fold(fnv1_fold(h, a), b) == fnv1_fold(h, a + b),
    decreases b.len(),
{
    if b.len() == 0 {
        assert(a + b =~= a);
    } else {
        lemma_fnv1_fold_concat(h, a, b.drop_last());
        assert((a + b).drop_last() =~= a + b.drop_last());
        assert((a + b).last() == b.last());
    }
}

/// Folding `a` and then `b` into `h` is folding `a + b` into `h`: the
/// xor-then-multiply recurrence knows nothing of where one input ends.
pub proof fn lemma_fnv1a_fold_concat<T: FnvWord>(h: T, a: Seq<u8>, b: Seq<u8>)
    ensures
        fnv1a_fold(fnv1a_fold(h, a), b) == fnv1a_fold(h, a + b),
    decreases b.len(),
{
    if b.len() == 0 {
        assert(a + b =~= a);
    } else {
        lemma_fnv1a_fold_concat(h, a, b.drop_last());
        assert((a + b).drop_last() =~= a + b.drop_last());
        assert((a + b).last() == b.last());
    }
}

} // verus!
