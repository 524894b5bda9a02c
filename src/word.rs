//! The accumulator widths: the numeric operations and the constants that the
//! FNV recurrences need, for `u32`, `u64` and `u128`.
use vstd::prelude::*;

verus! {

/// The 32-bit FNV prime, 2^24 + 2^8 + 0x93.
pub const PRIME_32: u32 = 0x0100_0193;

/// The 32-bit FNV offset basis.
pub const OFFSET_BASIS_32: u32 = 0x811c_9dc5;

/// The 64-bit FNV prime, 2^40 + 2^8 + 0xb3.
pub const PRIME_64: u64 = 0x0100_0000_01b3;

/// The 64-bit FNV offset basis.
pub const OFFSET_BASIS_64: u64 = 0xcbf2_9ce4_8422_2325;

/// The 128-bit FNV prime, 2^88 + 2^8 + 0x3b.
pub const PRIME_128: u128 = 0x0000_0000_0100_0000_0000_0000_0000_013b;

/// The 128-bit FNV offset basis.
pub const OFFSET_BASIS_128: u128 = 0x6c62_272e_07bb_0142_62b8_2175_6295_c58d;

/// An unsigned integer width that an FNV accumulator can have.
///
/// The recurrences need exactly three operations of a width: multiplication
/// modulo 2^W, exclusive or, and zero-extension of a byte. Besides those, a
/// width supplies its FNV prime and its offset basis.
pub trait FnvWord: Copy + Sized {
    /// `self * rhs` modulo 2^W.
    spec fn spec_wrapping_mul(self, rhs: Self) -> Self;

    /// Bitwise exclusive or of `self` and `rhs`.
    spec fn spec_xor(self, rhs: Self) -> Self;

    /// The byte `b` zero-extended to this width.
    spec fn spec_from_byte(b: u8) -> Self;

    /// The number zero at this width.
    spec fn spec_zero() -> Self;

    /// The FNV prime of this width.
    spec fn spec_prime() -> Self;

    /// The FNV offset basis of this width.
    spec fn spec_offset_basis() -> Self;

    /// Multiplies, wrapping around at 2^W.
    fn wrapping_mul_by(self, rhs: Self) -> (r: Self)
        ensures
            r == self.spec_wrapping_mul(rhs),
    ;

    /// Bitwise exclusive or.
    fn xor_with(self, rhs: Self) -> (r: Self)
        ensures
            r == self.spec_xor(rhs),
    ;

    /// Zero-extends a byte to this width.
    fn from_byte(b: u8) -> (r: Self)
        ensures
            r == Self::spec_from_byte(b),
    ;

    /// Zero at this width.
    fn zero() -> (r: Self)
        ensures
            r == Self::spec_zero(),
    ;

    /// The FNV prime of this width.
    fn prime() -> (r: Self)
        ensures
            r == Self::spec_prime(),
    ;

    /// The FNV offset basis of this width.
    fn offset_basis() -> (r: Self)
        ensures
            r == Self::spec_offset_basis(),
    ;
}

fn u32_from_byte(byte: u8) -> (r: u32)
    ensures
        r == byte as u32,
{
    byte.into()
}

impl FnvWord for u32 {
    open spec fn spec_wrapping_mul(self, rhs: u32) -> u32 {
        ((self as nat * rhs as nat) % 0x1_0000_0000nat) as u32
    }

    open spec fn spec_xor(self, rhs: u32) -> u32 {
        self ^ rhs
    }

    open spec fn spec_from_byte(b: u8) -> u32 {
        b as u32
    }

    open spec fn spec_zero() -> u32 {
        0
    }

    open spec fn spec_prime() -> u32 {
        PRIME_32
    }

    open spec fn spec_offset_basis() -> u32 {
        OFFSET_BASIS_32
    }

    fn wrapping_mul_by(self, rhs: u32) -> (r: u32) {
        self.wrapping_mul(rhs)
    }

    fn xor_with(self, rhs: u32) -> (r: u32) {
        self ^ rhs
    }

    fn from_byte(b: u8) -> (r: u32) {
        u32_from_byte(b)
    }

    fn zero() -> (r: u32) {
        0
    }

    fn prime() -> (r: u32) {
        PRIME_32
    }

    fn offset_basis() -> (r: u32) {
        OFFSET_BASIS_32
    }
}

fn u64_from_byte(byte: u8) -> (r: u64)
    ensures
        r == byte as u64,
{
    byte.into()
}

impl FnvWord for u64 {
    open spec fn spec_wrapping_mul(self, rhs: u64) -> u64 {
        ((self as nat * rhs as nat) % 0x1_0000_0000_0000_0000nat) as u64
    }

    open spec fn spec_xor(self, rhs: u64) -> u64 {
        self ^ rhs
    }

    open spec fn spec_from_byte(b: u8) -> u64 {
        b as u64
    }

    open spec fn spec_zero() -> u64 {
        0
    }

    open spec fn spec_prime() -> u64 {
        PRIME_64
    }

    open spec fn spec_offset_basis() -> u64 {
        OFFSET_BASIS_64
    }

    fn wrapping_mul_by(self, rhs: u64) -> (r: u64) {
        self.wrapping_mul(rhs)
    }

    fn xor_with(self, rhs: u64) -> (r: u64) {
        self ^ rhs
    }

    fn from_byte(b: u8) -> (r: u64) {
        u64_from_byte(b)
    }

    fn zero() -> (r: u64) {
        0
    }

    fn prime() -> (r: u64) {
        PRIME_64
    }

    fn offset_basis() -> (r: u64) {
        OFFSET_BASIS_64
    }
}

fn u128_from_byte(byte: u8) -> (r: u128)
    ensures
        r == byte as u128,
{
    byte.into()
}

impl FnvWord for u128 {
    open spec fn spec_wrapping_mul(self, rhs: u128) -> u128 {
        ((self as nat * rhs as nat) % 0x1_0000_0000_0000_0000_0000_0000_0000_0000nat) as u128
    }

    open spec fn spec_xor(self, rhs: u128) -> u128 {
        self ^ rhs
    }

    open spec fn spec_from_byte(b: u8) -> u128 {
        b as u128
    }

    open spec fn spec_zero() -> u128 {
        0
    }

    open spec fn spec_prime() -> u128 {
        PRIME_128
    }

    open spec fn spec_offset_basis() -> u128 {
        OFFSET_BASIS_128
    }

    fn wrapping_mul_by(self, rhs: u128) -> (r: u128) {
        self.wrapping_mul(rhs)
    }

    fn xor_with(self, rhs: u128) -> (r: u128) {
        self ^ rhs
    }

    fn from_byte(b: u8) -> (r: u128) {
        u128_from_byte(b)
    }

    fn zero() -> (r: u128) {
        0
    }

    fn prime() -> (r: u128) {
        PRIME_128
    }

    fn offset_basis() -> (r: u128) {
        OFFSET_BASIS_128
    }
}

} // verus!
