//! Fixed-width integer types as sources and targets of bit streams.

use crate::numeral::pattern_of;
use vstd::arithmetic::power2::{lemma2_to64, lemma2_to64_rest, lemma_pow2_adds, pow2};
use vstd::prelude::*;

verus! {

/// A fixed-width integer type, seen through its width, its value and its
/// bit pattern.
pub trait FixedWidth: Sized + Copy {
    /// Number of bits of the type.
    spec fn bit_width() -> nat;

    /// The mathematical value of `self`.
    spec fn int_value(self) -> int;

    /// The largest value of the type.
    spec fn max_int() -> int;

    /// The smallest value of the type.
    spec fn min_int() -> int;

    /// The type's width lies between 8 and 128 bits, and its values run over
    /// `0 ..= 2^w - 1` when unsigned, over `-2^(w-1) ..= 2^(w-1) - 1` when signed.
    proof fn lemma_width()
        ensures
            8 <= Self::bit_width() <= 128,
            (Self::min_int() == 0 && Self::max_int() == pow2(Self::bit_width()) - 1) || (
            Self::min_int() == -pow2((Self::bit_width() - 1) as nat) && Self::max_int() == pow2(
                (Self::bit_width() - 1) as nat,
            ) - 1),
    ;

    /// Every value lies in the type's range, and a value is fixed by what it is worth.
    proof fn lemma_value(x: Self, y: Self)
        ensures
            Self::min_int() <= x.int_value() <= Self::max_int(),
            x.int_value() == y.int_value() ==> x == y,
    ;

    /// Number of bits of the type.
    fn width() -> (r: u32)
        ensures
            r as nat == Self::bit_width(),
            8 <= r <= 128,
    ;

    /// The bit pattern of `self` on the type's width (two's complement for a
    /// negative value).
    fn to_pattern(self) -> (r: u128)
        ensures
            r as nat == pattern_of(self.int_value(), Self::bit_width()),
            r < pow2(Self::bit_width()),
    ;

    /// The value of the type equal to `v`, if the type can hold it.
    fn from_numeral(v: u128) -> (r: Option<Self>)
        ensures
            r is Some <==> v <= Self::max_int(),
            r matches Some(x) ==> x.int_value() == v,
    ;
}

/// `2^128`, the number of values of a 128-bit type.
pub proof fn lemma_pow2_128()
    ensures
        pow2(127) == 0x8000_0000_0000_0000_0000_0000_0000_0000,
        pow2(128) == 0x1_0000_0000_0000_0000_0000_0000_0000_0000,
{
    lemma2_to64();
    lemma2_to64_rest();
    lemma_pow2_adds(63, 64);
    lemma_pow2_adds(64, 64);
}

/// Widths of the pointer-sized types.
pub proof fn lemma_pointer_width()
    ensures
        usize::BITS == 32 ==> pow2(32) == usize::MAX + 1 && pow2(31) == isize::MAX + 1
            && isize::MIN == -pow2(31),
        usize::BITS == 64 ==> pow2(64) == usize::MAX + 1 && pow2(63) == isize::MAX + 1
            && isize::MIN == -pow2(63),
        usize::BITS == 32 || usize::BITS == 64,
{
    lemma2_to64();
    lemma2_to64_rest();
}

impl FixedWidth for u8 {
    open spec fn bit_width() -> nat {
        8
    }

    open spec fn int_value(self) -> int {
        self as int
    }

    open spec fn max_int() -> int {
        u8::MAX as int
    }

    open spec fn min_int() -> int {
        u8::MIN as int
    }

    proof fn lemma_width() {
        lemma2_to64();
        lemma2_to64_rest();
    }

    proof fn lemma_value(x: u8, y: u8) {
    }

    fn width() -> (r: u32) {
        8
    }

    fn to_pattern(self) -> (r: u128) {
        proof {
            lemma2_to64();
            lemma2_to64_rest();
        }
        self as u128
    }

    fn from_numeral(v: u128) -> (r: Option<u8>) {
        if v <= u8::MAX as u128 {
            Some(v as u8)
        } else {
            None
        }
    }
}

impl FixedWidth for u16 {
    open spec fn bit_width() -> nat {
        16
    }

    open spec fn int_value(self) -> int {
        self as int
    }

    open spec fn max_int() -> int {
        u16::MAX as int
    }

    open spec fn min_int() -> int {
        u16::MIN as int
    }

    proof fn lemma_width() {
        lemma2_to64();
        lemma2_to64_rest();
    }

    proof fn lemma_value(x: u16, y: u16) {
    }

    fn width() -> (r: u32) {
        16
    }

    fn to_pattern(self) -> (r: u128) {
        proof {
            lemma2_to64();
            lemma2_to64_rest();
        }
        self as u128
    }

    fn from_numeral(v: u128) -> (r: Option<u16>) {
        if v <= u16::MAX as u128 {
            Some(v as u16)
        } else {
            None
        }
    }
}

impl FixedWidth for u32 {
    open spec fn bit_width() -> nat {
        32
    }

    open spec fn int_value(self) -> int {
        self as int
    }

    open spec fn max_int() -> int {
        u32::MAX as int
    }

    open spec fn min_int() -> int {
        u32::MIN as int
    }

    proof fn lemma_width() {
        lemma2_to64();
        lemma2_to64_rest();
    }

    proof fn lemma_value(x: u32, y: u32) {
    }

    fn width() -> (r: u32) {
        32
    }

    fn to_pattern(self) -> (r: u128) {
        proof {
            lemma2_to64();
            lemma2_to64_rest();
        }
        self as u128
    }

    fn from_numeral(v: u128) -> (r: Option<u32>) {
        if v <= u32::MAX as u128 {
            Some(v as u32)
        } else {
            None
        }
    }
}

impl FixedWidth for u64 {
    open spec fn bit_width() -> nat {
        64
    }

    open spec fn int_value(self) -> int {
        self as int
    }

    open spec fn max_int() -> int {
        u64::MAX as int
    }

    open spec fn min_int() -> int {
        u64::MIN as int
    }

    proof fn lemma_width() {
        lemma2_to64();
        lemma2_to64_rest();
    }

    proof fn lemma_value(x: u64, y: u64) {
    }

    fn width() -> (r: u32) {
        64
    }

    fn to_pattern(self) -> (r: u128) {
        proof {
            lemma2_to64();
            lemma2_to64_rest();
        }
        self as u128
    }

    fn from_numeral(v: u128) -> (r: Option<u64>) {
        if v <= u64::MAX as u128 {
            Some(v as u64)
        } else {
            None
        }
    }
}

impl FixedWidth for u128 {
    open spec fn bit_width() -> nat {
        128
    }

    open spec fn int_value(self) -> int {
        self as int
    }

    open spec fn max_int() -> int {
        u128::MAX as int
    }

    open spec fn min_int() -> int {
        u128::MIN as int
    }

    proof fn lemma_width() {
        lemma_pow2_128();
    }

    proof fn lemma_value(x: u128, y: u128) {
    }

    fn width() -> (r: u32) {
        128
    }

    fn to_pattern(self) -> (r: u128) {
        proof {
            lemma_pow2_128();
        }
        self as u128
    }

    fn from_numeral(v: u128) -> (r: Option<u128>) {
        if v <= u128::MAX as u128 {
            Some(v as u128)
        } else {
            None
        }
    }
}

impl FixedWidth for usize {
    open spec fn bit_width() -> nat {
        usize::BITS as nat
    }

    open spec fn int_value(self) -> int {
        self as int
    }

    open spec fn max_int() -> int {
        usize::MAX as int
    }

    open spec fn min_int() -> int {
        usize::MIN as int
    }

    proof fn lemma_width() {
        lemma_pointer_width();
    }

    proof fn lemma_value(x: usize, y: usize) {
    }

    fn width() -> (r: u32) {
        usize::BITS
    }

    fn to_pattern(self) -> (r: u128) {
        proof {
            lemma_pointer_width();
        }
        self as u128
    }

    fn from_numeral(v: u128) -> (r: Option<usize>) {
        if v <= usize::MAX as u128 {
            Some(v as usize)
        } else {
            None
        }
    }
}

impl FixedWidth for i8 {
    open spec fn bit_width() -> nat {
        8
    }

    open spec fn int_value(self) -> int {
        self as int
    }

    open spec fn max_int() -> int {
        i8::MAX as int
    }

    open spec fn min_int() -> int {
        i8::MIN as int
    }

    proof fn lemma_width() {
        lemma2_to64();
        lemma2_to64_rest();
    }

    proof fn lemma_value(x: i8, y: i8) {
    }

    fn width() -> (r: u32) {
        8
    }

    fn to_pattern(self) -> (r: u128) {
        proof {
            lemma2_to64();
            lemma2_to64_rest();
        }
        if self >= 0 {
            self as u128
        } else {
            (self - i8::MIN) as u128 + (i8::MAX as u128 + 1)
        }
    }

    fn from_numeral(v: u128) -> (r: Option<i8>) {
        if v <= i8::MAX as u128 {
            Some(v as i8)
        } else {
            None
        }
    }
}

impl FixedWidth for i16 {
    open spec fn bit_width() -> nat {
        16
    }

    open spec fn int_value(self) -> int {
        self as int
    }

    open spec fn max_int() -> int {
        i16::MAX as int
    }

    open spec fn min_int() -> int {
        i16::MIN as int
    }

    proof fn lemma_width() {
        lemma2_to64();
        lemma2_to64_rest();
    }

    proof fn lemma_value(x: i16, y: i16) {
    }

    fn width() -> (r: u32) {
        16
    }

    fn to_pattern(self) -> (r: u128) {
        proof {
            lemma2_to64();
            lemma2_to64_rest();
        }
        if self >= 0 {
            self as u128
        } else {
            (self - i16::MIN) as u128 + (i16::MAX as u128 + 1)
        }
    }

    fn from_numeral(v: u128) -> (r: Option<i16>) {
        if v <= i16::MAX as u128 {
            Some(v as i16)
        } else {
            None
        }
    }
}

impl FixedWidth for i32 {
    open spec fn bit_width() -> nat {
        32
    }

    open spec fn int_value(self) -> int {
        self as int
    }

    open spec fn max_int() -> int {
        i32::MAX as int
    }

    open spec fn min_int() -> int {
        i32::MIN as int
    }

    proof fn lemma_width() {
        lemma2_to64();
        lemma2_to64_rest();
    }

    proof fn lemma_value(x: i32, y: i32) {
    }

    fn width() -> (r: u32) {
        32
    }

    fn to_pattern(self) -> (r: u128) {
        proof {
            lemma2_to64();
            lemma2_to64_rest();
        }
        if self >= 0 {
            self as u128
        } else {
            (self - i32::MIN) as u128 + (i32::MAX as u128 + 1)
        }
    }

    fn from_numeral(v: u128) -> (r: Option<i32>) {
        if v <= i32::MAX as u128 {
            Some(v as i32)
        } else {
            None
        }
    }
}

impl FixedWidth for i64 {
    open spec fn bit_width() -> nat {
        64
    }

    open spec fn int_value(self) -> int {
        self as int
    }

    open spec fn max_int() -> int {
        i64::MAX as int
    }

    open spec fn min_int() -> int {
        i64::MIN as int
    }

    proof fn lemma_width() {
        lemma2_to64();
        lemma2_to64_rest();
    }

    proof fn lemma_value(x: i64, y: i64) {
    }

    fn width() -> (r: u32) {
        64
    }

    fn to_pattern(self) -> (r: u128) {
        proof {
            lemma2_to64();
            lemma2_to64_rest();
        }
        if self >= 0 {
            self as u128
        } else {
            (self - i64::MIN) as u128 + (i64::MAX as u128 + 1)
        }
    }

    fn from_numeral(v: u128) -> (r: Option<i64>) {
        if v <= i64::MAX as u128 {
            Some(v as i64)
        } else {
            None
        }
    }
}

impl FixedWidth for i128 {
    open spec fn bit_width() -> nat {
        128
    }

    open spec fn int_value(self) -> int {
        self as int
    }

    open spec fn max_int() -> int {
        i128::MAX as int
    }

    open spec fn min_int() -> int {
        i128::MIN as int
    }

    proof fn lemma_width() {
        lemma_pow2_128();
    }

    proof fn lemma_value(x: i128, y: i128) {
    }

    fn width() -> (r: u32) {
        128
    }

    fn to_pattern(self) -> (r: u128) {
        proof {
            lemma_pow2_128();
        }
        if self >= 0 {
            self as u128
        } else {
            (self - i128::MIN) as u128 + (i128::MAX as u128 + 1)
        }
    }

    fn from_numeral(v: u128) -> (r: Option<i128>) {
        if v <= i128::MAX as u128 {
            Some(v as i128)
        } else {
            None
        }
    }
}

impl FixedWidth for isize {
    open spec fn bit_width() -> nat {
        usize::BITS as nat
    }

    open spec fn int_value(self) -> int {
        self as int
    }

    open spec fn max_int() -> int {
        isize::MAX as int
    }

    open spec fn min_int() -> int {
        isize::MIN as int
    }

    proof fn lemma_width() {
        lemma_pointer_width();
    }

    proof fn lemma_value(x: isize, y: isize) {
    }

    fn width() -> (r: u32) {
        usize::BITS
    }

    fn to_pattern(self) -> (r: u128) {
        proof {
            lemma_pointer_width();
        }
        if self >= 0 {
            self as u128
        } else {
            (self - isize::MIN) as u128 + (isize::MAX as u128 + 1)
        }
    }

    fn from_numeral(v: u128) -> (r: Option<isize>) {
        if v <= isize::MAX as u128 {
            Some(v as isize)
        } else {
            None
        }
    }
}

} // verus!
