//! The three FNV hashers and the interface they share.
use vstd::prelude::*;

use crate::recurrence::{fnv1_fold, fnv1a_fold, lemma_fnv1_fold_concat, lemma_fnv1a_fold_concat};
use crate::word::FnvWord;

verus! {

/// The interface of every Fowler-Noll-Vo hasher: bytes are written in, any
/// number of times, and the hash is read out.
pub trait FnvHasher: Sized {
    /// The type of the hash.
    type Hash;

    /// The accumulator as it stands.
    spec fn state(&self) -> Self::Hash;

    /// The accumulator that results from folding `bytes`, in order, into `h`.
    spec fn absorb(h: Self::Hash, bytes: Seq<u8>) -> Self::Hash;

    /// Writing nothing leaves the accumulator as it was.
    proof fn lemma_absorb_empty(h: Self::Hash)
        ensures
            Self::absorb(h, Seq::empty()) == h,
    ;

    /// Writing `a` and then `b` gives the same accumulator as writing `a + b`
    /// at once.
    proof fn lemma_absorb_concat(h: Self::Hash, a: Seq<u8>, b: Seq<u8>)
        ensures
            Self::absorb(Self::absorb(h, a), b) == Self::absorb(h, a + b),
    ;

    /// Returns the hash of what has been written so far, leaving the hasher
    /// as it is.
    fn finish(&self) -> (r: Self::Hash)
        ensures
            r == self.state(),
    ;

    /// Folds `bytes` into the accumulator.
    fn write(&mut self, bytes: &[u8])
        ensures
            final(self).state() == Self::absorb(old(self).state(), bytes@),
    ;
}

/// The FNV-0 hash.
///
/// Its recurrence is that of FNV-1, but it has no offset basis of its own: it
/// starts from whatever key it is given, zero by convention. It is of use
/// today mainly to derive the offset bases of FNV-1 and FNV-1a, which are the
/// FNV-0 hashes, from zero, of the string `chongo <Landon Curt Noll> /\../\`.
#[derive(Debug)]
pub struct Fnv0<T> {
    hash: T,
}

/// The FNV-1 hash: multiply by the prime, then xor in the byte.
#[derive(Debug)]
pub struct Fnv1<T> {
    hash: T,
}

/// The FNV-1a hash: xor in the byte, then multiply by the prime.
#[derive(Debug)]
pub struct Fnv1a<T> {
    hash: T,
}

impl<T> View for Fnv0<T> {
    type V = T;

    closed spec fn view(&self) -> T {
        self.hash
    }
}

impl<T> View for Fnv1<T> {
    type V = T;

    closed spec fn view(&self) -> T {
        self.hash
    }
}

impl<T> View for Fnv1a<T> {
    type V = T;

    closed spec fn view(&self) -> T {
        self.hash
    }
}

impl<T: FnvWord> Fnv0<T> {
    /// Creates an FNV-0 hasher whose accumulator is zero.
    pub fn new() -> (r: Self)
        ensures
            r@ == T::spec_zero(),
    {
        Self { hash: T::zero() }
    }
}

impl<T> Fnv0<T> {
    /// Creates an FNV-0 hasher whose accumulator starts at `key`.
    pub fn with_key(key: T) -> (r: Self)
        ensures
            r@ == key,
    {
        Self { hash: key }
    }
}

impl<T: FnvWord> Fnv1<T> {
    /// Creates an FNV-1 hasher whose accumulator starts at the offset basis.
    pub fn new() -> (r: Self)
        ensures
            r@ == T::spec_offset_basis(),
    {
        Self { hash: T::offset_basis() }
    }
}

impl<T> Fnv1<T> {
    /// Creates an FNV-1 hasher whose accumulator starts at `key`.
    pub fn with_key(key: T) -> (r: Self)
        ensures
            r@ == key,
    {
        Self { hash: key }
    }
}

impl<T: FnvWord> Fnv1a<T> {
    /// Creates an FNV-1a hasher whose accumulator starts at the offset basis.
    pub fn new() -> (r: Self)
        ensures
            r@ == T::spec_offset_basis(),
    {
        Self { hash: T::offset_basis() }
    }
}

impl<T> Fnv1a<T> {
    /// Creates an FNV-1a hasher whose accumulator starts at `key`.
    pub fn with_key(key: T) -> (r: Self)
        ensures
            r@ == key,
    {
        Self { hash: key }
    }
}

/// Folds `bytes` into `start` by the multiply-then-xor recurrence.
fn write_fnv1<T: FnvWord>(start: T, bytes: &[u8]) -> (r: T)
    ensures
        r == fnv1_fold(start, bytes@),
{
    let prime = T::prime();
    let mut hash = start;
    let mut i: usize = 0;
    while i < bytes.len()
        invariant
            i <= bytes@.len(),
            prime == T::spec_prime(),
            hash == fnv1_fold(start, bytes@.subrange(0, i as int)),
        decreases bytes@.len() - i,
    {
        hash = hash.wrapping_mul_by(prime);
        hash = hash.xor_with(T::from_byte(bytes[i]));
        assert(bytes@.subrange(0, i + 1).drop_last() =~= bytes@.subrange(0, i as int));
        i += 1;
    }
    assert(bytes@.subrange(0, i as int) =~= bytes@);
    hash
}

/// Folds `bytes` into `start` by the xor-then-multiply recurrence.
fn write_fnv1a<T: FnvWord>(start: T, bytes: &[u8]) -> (r: T)
    ensures
        r == fnv1a_fold(start, bytes@),
{
    let prime = T::prime();
    let mut hash = start;
    let mut i: usize = 0;
    while i < bytes.len()
        invariant
            i <= bytes@.len(),
            prime == T::spec_prime(),
            hash == fnv1a_fold(start, bytes@.subrange(0, i as int)),
        decreases bytes@.len() - i,
    {
        hash = hash.xor_with(T::from_byte(bytes[i]));
        hash = hash.wrapping_mul_by(prime);
        assert(bytes@.subrange(0, i + 1).drop_last() =~= bytes@.subrange(0, i as int));
        i += 1;
    }
    assert(bytes@.subrange(0, i as int) =~= bytes@);
    hash
}

impl<T: FnvWord> FnvHasher for Fnv0<T> {
    type Hash = T;

    open spec fn state(&self) -> T {
        self@
    }

    open spec fn absorb(h: T, bytes: Seq<u8>) -> T {
        fnv1_fold(h, bytes)
    }

    proof fn lemma_absorb_empty(h: T) {
    }

    proof fn lemma_absorb_concat(h: T, a: Seq<u8>, b: Seq<u8>) {
        lemma_fnv1_fold_concat(h, a, b);
    }

    fn finish(&self) -> (r: T) {
        self.hash
    }

    fn write(&mut self, bytes: &[u8]) {
        self.hash = write_fnv1(self.hash, bytes);
    }
}

impl<T: FnvWord> FnvHasher for Fnv1<T> {
    type Hash = T;

    open spec fn state(&self) -> T {
        self@
    }

    open spec fn absorb(h: T, bytes: Seq<u8>) -> T {
        fnv1_fold(h, bytes)
    }

    proof fn lemma_absorb_empty(h: T) {
    }

    proof fn lemma_absorb_concat(h: T, a: Seq<u8>, b: Seq<u8>) {
        lemma_fnv1_fold_concat(h, a, b);
    }

    fn finish(&self) -> (r: T) {
        self.hash
    }

    fn write(&mut self, bytes: &[u8]) {
        self.hash = write_fnv1(self.hash, bytes);
    }
}

impl<T: FnvWord> FnvHasher for Fnv1a<T> {
    type Hash = T;

    open spec fn state(&self) -> T {
        self@
    }

    open spec fn absorb(h: T, bytes: Seq<u8>) -> T {
        fnv1a_fold(h, bytes)
    }

    proof fn lemma_absorb_empty(h: T) {
    }

    proof fn lemma_absorb_concat(h: T, a: Seq<u8>, b: Seq<u8>) {
        lemma_fnv1a_fold_concat(h, a, b);
    }

    fn finish(&self) -> (r: T) {
        self.hash
    }

    fn write(&mut self, bytes: &[u8]) {
        self.hash = write_fnv1a(self.hash, bytes);
    }
}

/// The 64-bit FNV-0 hasher serves as a `std::hash::Hasher`.
impl std::hash::Hasher for Fnv0<u64> {
    fn finish(&self) -> u64 {
        FnvHasher::finish(self)
    }

    fn write(&mut self, bytes: &[u8]) {
        FnvHasher::write(self, bytes)
    }
}

impl<T: FnvWord> Default for Fnv0<T> {
    /// The same as `new`: the accumulator starts at zero.
    fn default() -> (r: Self)
        ensures
            r@ == T::spec_zero(),
    {
        Self::new()
    }
}

/// The 64-bit FNV-1 hasher serves as a `std::hash::Hasher`.
impl std::hash::Hasher for Fnv1<u64> {
    fn finish(&self) -> u64 {
        FnvHasher::finish(self)
    }

    fn write(&mut self, bytes: &[u8]) {
        FnvHasher::write(self, bytes)
    }
}

impl<T: FnvWord> Default for Fnv1<T> {
    /// The same as `new`: the accumulator starts at the offset basis.
    fn default() -> (r: Self)
        ensures
            r@ == T::spec_offset_basis(),
    {
        Self::new()
    }
}

/// The 64-bit FNV-1a hasher serves as a `std::hash::Hasher`.
impl std::hash::Hasher for Fnv1a<u64> {
    fn finish(&self) -> u64 {
        FnvHasher::finish(self)
    }

    fn write(&mut self, bytes: &[u8]) {
        FnvHasher::write(self, bytes)
    }
}

impl<T: FnvWord> Default for Fnv1a<T> {
    /// The same as `new`: the accumulator starts at the offset basis.
    fn default() -> (r: Self)
        ensures
            r@ == T::spec_offset_basis(),
    {
        Self::new()
    }
}

} // verus!
