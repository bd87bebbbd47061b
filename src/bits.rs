//! A stream of bits with a read cursor, built from fixed-width integers and
//! read back in chunks of any width.

use crate::numeral::{
    bits_of, encode, lemma_bits_of_len, lemma_bits_of_value, lemma_encode_chunk,
    lemma_numeral_value_bound, numeral_value, pattern_of,
};
use crate::width::FixedWidth;
use vstd::arithmetic::power2::{lemma_pow2_strictly_increases, pow2};
use vstd::prelude::*;

verus! {

/// How the bits of each source value were laid out in a stream.
#[derive(Debug, Clone, Copy, PartialEq, Eq, Structural)]
pub enum Endianness {
    /// Each value's bits, most significant bit first.
    BigEndian,
    /// Each value's bits in reversed order: least significant bit first.
    LittleEndian,
}

/// Why a read was refused. A refused read leaves the cursor where it was.
#[derive(Debug, Clone, Copy, PartialEq, Eq, Structural)]
pub enum ReadError {
    /// No bit was asked for.
    Empty,
    /// Fewer bits remain after the cursor than were asked for.
    OutOfRange,
    /// The bits, read as a base-2 numeral, exceed the largest value of the
    /// target type.
    Overflow,
}

/// The bits of a sequence of values, in order, each on its type's width.
pub open spec fn encoding<T: FixedWidth>(data: Seq<T>, little: bool) -> Seq<bool> {
    encode(
        data.map_values(|x: T| pattern_of(x.int_value(), T::bit_width())),
        T::bit_width(),
        little,
    )
}

/// `s` written with the characters `'0'` and `'1'`.
pub open spec fn render(s: Seq<bool>) -> Seq<char> {
    s.map_values(|b: bool| if b { '1' } else { '0' })
}

/// A bit stream and its read cursor. The bits are fixed when the stream is
/// made; only the cursor moves.
#[derive(Debug)]
pub struct Bits {
    bits: Vec<bool>,
    cursor: usize,
    endianness: Endianness,
}

impl Bits {
    #[verifier::type_invariant]
    spec fn cursor_in_bounds(self) -> bool {
        self.cursor <= self.bits.len()
    }

    /// All the bits of the stream, read or not.
    pub closed spec fn stream(self) -> Seq<bool> {
        self.bits@
    }

    /// Index of the next unread bit.
    pub closed spec fn cursor(self) -> nat {
        self.cursor as nat
    }

    /// The layout the stream was made with.
    pub closed spec fn order(self) -> Endianness {
        self.endianness
    }

    /// Number of bits after the cursor.
    pub open spec fn remaining(self) -> int {
        self.stream().len() - self.cursor()
    }

    /// The `n` bits after the cursor, reversed when `reversed` holds.
    pub open spec fn next_bits(self, n: nat, reversed: bool) -> Seq<bool> {
        let s = self.stream().subrange(self.cursor() as int, (self.cursor() + n) as int);
        if reversed {
            s.reverse()
        } else {
            s
        }
    }

    /// Why reading `n` bits as a value of `T` is refused, if it is.
    pub open spec fn read_error<T: FixedWidth>(self, n: nat, reversed: bool) -> Option<ReadError> {
        if n == 0 {
            Some(ReadError::Empty)
        } else if self.cursor() + n > self.stream().len() {
            Some(ReadError::OutOfRange)
        } else if numeral_value(self.next_bits(n, reversed)) > T::max_int() {
            Some(ReadError::Overflow)
        } else {
            None
        }
    }

    /// `r` is the outcome of reading `n` bits after the cursor as a value of `T`.
    pub open spec fn peeked<T: FixedWidth>(
        self,
        n: nat,
        reversed: bool,
        r: Result<T, ReadError>,
    ) -> bool {
        match r {
            Ok(x) => self.read_error::<T>(n, reversed) is None && x.int_value() == numeral_value(
                self.next_bits(n, reversed),
            ),
            Err(e) => self.read_error::<T>(n, reversed) == Some(e),
        }
    }

    /// `r` is the outcome of reading `n` bits as a value of `T`, and `after` is
    /// the stream with its cursor moved past them when the read succeeded.
    pub open spec fn consumed<T: FixedWidth>(
        self,
        after: Bits,
        n: nat,
        reversed: bool,
        r: Result<T, ReadError>,
    ) -> bool {
        &&& self.peeked::<T>(n, reversed, r)
        &&& after.stream() == self.stream()
        &&& after.order() == self.order()
        &&& after.cursor() == if r is Ok {
            self.cursor() + n
        } else {
            self.cursor()
        }
    }
}

impl Bits {
    /// A stream holding the bits of `data` in order, each value on its type's
    /// width: most significant bit first for `BigEndian`, least significant
    /// bit first for `LittleEndian`. The cursor starts at the first bit.
    pub fn from_values<T: FixedWidth>(data: &[T], endianness: Endianness) -> (r: Bits)
        requires
            data@.len() * T::bit_width() <= usize::MAX,
        ensures
            r.stream() == encoding(data@, endianness == Endianness::LittleEndian),
            r.stream().len() == data@.len() * T::bit_width(),
            r.cursor() == 0,
            r.order() == endianness,
    {
        let little = match endianness {
            Endianness::BigEndian => false,
            Endianness::LittleEndian => true,
        };
        let w = T::width();
        let ghost pats = data@.map_values(|x: T| pattern_of(x.int_value(), T::bit_width()));
        let mut bits: Vec<bool> = Vec::new();
        let mut i: usize = 0;
        while i < data.len()
            invariant
                i <= data@.len(),
                w as nat == T::bit_width(),
                pats == data@.map_values(|x: T| pattern_of(x.int_value(), T::bit_width())),
                bits@ == encode(pats.subrange(0, i as int), w as nat, little),
            decreases data@.len() - i,
        {
            let p = data[i].to_pattern();
            if little {
                push_lsb_first(&mut bits, p, w);
            } else {
                push_msb_first(&mut bits, p, w);
            }
            proof {
                assert(pats.subrange(0, i + 1).drop_last() =~= pats.subrange(0, i as int));
            }
            i += 1;
        }
        proof {
            assert(pats.subrange(0, i as int) =~= pats);
            crate::numeral::lemma_encode_len(pats, w as nat, little);
        }
        Bits { bits, cursor: 0, endianness }
    }

    /// The `n` bits after the cursor, reversed when `reversed` holds, read as
    /// a base-2 numeral.
    fn numeral_at(&self, n: usize, reversed: bool) -> (r: u128)
        requires
            n <= 128,
            self.cursor() + n <= self.stream().len(),
        ensures
            r as nat == numeral_value(self.next_bits(n as nat, reversed)),
    {
        let c = self.cursor;
        let ghost s = self.bits@;
        let len = self.bits.len();
        let mut acc: u128 = 0;
        if !reversed {
            let mut k: usize = 0;
            while k < n
                invariant
                    k <= n <= 128,
                    c + n <= s.len(),
                    len == s.len(),
                    s == self.bits@,
                    c == self.cursor,
                    acc as nat == numeral_value(s.subrange(c as int, c + k)),
                decreases n - k,
            {
                proof {
                    lemma_numeral_value_bound(s.subrange(c as int, c + k));
                    lemma_pow2_below_128(k as nat);
                    assert(s.subrange(c as int, c + k + 1).drop_last() =~= s.subrange(
                        c as int,
                        c + k,
                    ));
                }
                let bit: u128 = if self.bits[c + k] {
                    1
                } else {
                    0
                };
                acc = 2 * acc + bit;
                k += 1;
            }
        } else {
            let mut k: usize = n;
            while k > 0
                invariant
                    k <= n <= 128,
                    c + n <= s.len(),
                    len == s.len(),
                    s == self.bits@,
                    c == self.cursor,
                    acc as nat == numeral_value(s.subrange(c + k, c + n).reverse()),
                decreases k,
            {
                proof {
                    lemma_numeral_value_bound(s.subrange(c + k, c + n).reverse());
                    lemma_pow2_below_128((n - k) as nat);
                    assert(s.subrange(c + k - 1, c + n).reverse().drop_last() =~= s.subrange(
                        c + k,
                        c + n,
                    ).reverse());
                }
                k -= 1;
                let bit: u128 = if self.bits[c + k] {
                    1
                } else {
                    0
                };
                acc = 2 * acc + bit;
            }
        }
        acc
    }

    /// Reads `size_to_read` bits after the cursor as a value of `T`, without
    /// moving the cursor. The bits are read in stream order, or in reversed
    /// order when `reversed` holds, and taken as a plain base-2 numeral: a
    /// leading 1 is no sign, so a signed target refuses a numeral above its
    /// largest value.
    pub fn peek<T: FixedWidth>(&self, size_to_read: usize, reversed: bool) -> (r: Result<
        T,
        ReadError,
    >)
        requires
            size_to_read <= T::bit_width(),
        ensures
            self.peeked::<T>(size_to_read as nat, reversed, r),
    {
        proof {
            use_type_invariant(self);
            T::lemma_width();
        }
        if size_to_read == 0 {
            return Err(ReadError::Empty);
        }
        if size_to_read > self.bits.len() - self.cursor {
            return Err(ReadError::OutOfRange);
        }
        let v = self.numeral_at(size_to_read, reversed);
        match T::from_numeral(v) {
            Some(x) => Ok(x),
            None => Err(ReadError::Overflow),
        }
    }

    /// Reads `size_to_read` bits after the cursor as a value of `T`, as `peek`
    /// does, and on success moves the cursor past them.
    pub fn consume<T: FixedWidth>(&mut self, size_to_read: usize, reversed: bool) -> (r: Result<
        T,
        ReadError,
    >)
        requires
            size_to_read <= T::bit_width(),
        ensures
            old(self).consumed::<T>(*final(self), size_to_read as nat, reversed, r),
            final(self).cursor() <= final(self).stream().len(),
    {
        proof {
            use_type_invariant(&*self);
        }
        let r = self.peek::<T>(size_to_read, reversed);
        if r.is_ok() {
            self.cursor = self.cursor + size_to_read;
        }
        r
    }
}

impl Bits {
    /// A stream of the bits of `data`, each value on 8 bits, most significant bit first.
    pub fn from_u8_big_endian(data: &[u8]) -> (r: Bits)
        requires
            data@.len() * 8 <= usize::MAX,
        ensures
            r.stream() == encoding(data@, false),
            r.stream().len() == data@.len() * 8,
            r.cursor() == 0,
            r.order() == Endianness::BigEndian,
    {
        Bits::from_values(data, Endianness::BigEndian)
    }

    /// A stream of the bits of `data`, each value on 8 bits, with its bit order reversed (least significant bit first).
    pub fn from_u8_little_endian(data: &[u8]) -> (r: Bits)
        requires
            data@.len() * 8 <= usize::MAX,
        ensures
            r.stream() == encoding(data@, true),
            r.stream().len() == data@.len() * 8,
            r.cursor() == 0,
            r.order() == Endianness::LittleEndian,
    {
        Bits::from_values(data, Endianness::LittleEndian)
    }

    /// A stream of the bits of `data`, each value on 16 bits, most significant bit first.
    pub fn from_u16_big_endian(data: &[u16]) -> (r: Bits)
        requires
            data@.len() * 16 <= usize::MAX,
        ensures
            r.stream() == encoding(data@, false),
            r.stream().len() == data@.len() * 16,
            r.cursor() == 0,
            r.order() == Endianness::BigEndian,
    {
        Bits::from_values(data, Endianness::BigEndian)
    }

    /// A stream of the bits of `data`, each value on 16 bits, with its bit order reversed (least significant bit first).
    pub fn from_u16_little_endian(data: &[u16]) -> (r: Bits)
        requires
            data@.len() * 16 <= usize::MAX,
        ensures
            r.stream() == encoding(data@, true),
            r.stream().len() == data@.len() * 16,
            r.cursor() == 0,
            r.order() == Endianness::LittleEndian,
    {
        Bits::from_values(data, Endianness::LittleEndian)
    }

    /// A stream of the bits of `data`, each value on 32 bits, most significant bit first.
    pub fn from_u32_big_endian(data: &[u32]) -> (r: Bits)
        requires
            data@.len() * 32 <= usize::MAX,
        ensures
            r.stream() == encoding(data@, false),
            r.stream().len() == data@.len() * 32,
            r.cursor() == 0,
            r.order() == Endianness::BigEndian,
    {
        Bits::from_values(data, Endianness::BigEndian)
    }

    /// A stream of the bits of `data`, each value on 32 bits, with its bit order reversed (least significant bit first).
    pub fn from_u32_little_endian(data: &[u32]) -> (r: Bits)
        requires
            data@.len() * 32 <= usize::MAX,
        ensures
            r.stream() == encoding(data@, true),
            r.stream().len() == data@.len() * 32,
            r.cursor() == 0,
            r.order() == Endianness::LittleEndian,
    {
        Bits::from_values(data, Endianness::LittleEndian)
    }

    /// A stream of the bits of `data`, each value on 64 bits, most significant bit first.
    pub fn from_u64_big_endian(data: &[u64]) -> (r: Bits)
        requires
            data@.len() * 64 <= usize::MAX,
        ensures
            r.stream() == encoding(data@, false),
            r.stream().len() == data@.len() * 64,
            r.cursor() == 0,
            r.order() == Endianness::BigEndian,
    {
        Bits::from_values(data, Endianness::BigEndian)
    }

    /// A stream of the bits of `data`, each value on 64 bits, with its bit order reversed (least significant bit first).
    pub fn from_u64_little_endian(data: &[u64]) -> (r: Bits)
        requires
            data@.len() * 64 <= usize::MAX,
        ensures
            r.stream() == encoding(data@, true),
            r.stream().len() == data@.len() * 64,
            r.cursor() == 0,
            r.order() == Endianness::LittleEndian,
    {
        Bits::from_values(data, Endianness::LittleEndian)
    }

    /// A stream of the bits of `data`, each value on 128 bits, most significant bit first.
    pub fn from_u128_big_endian(data: &[u128]) -> (r: Bits)
        requires
            data@.len() * 128 <= usize::MAX,
        ensures
            r.stream() == encoding(data@, false),
            r.stream().len() == data@.len() * 128,
            r.cursor() == 0,
            r.order() == Endianness::BigEndian,
    {
        Bits::from_values(data, Endianness::BigEndian)
    }

    /// A stream of the bits of `data`, each value on 128 bits, with its bit order reversed (least significant bit first).
    pub fn from_u128_little_endian(data: &[u128]) -> (r: Bits)
        requires
            data@.len() * 128 <= usize::MAX,
        ensures
            r.stream() == encoding(data@, true),
            r.stream().len() == data@.len() * 128,
            r.cursor() == 0,
            r.order() == Endianness::LittleEndian,
    {
        Bits::from_values(data, Endianness::LittleEndian)
    }

    /// A stream of the bits of `data`, each value on the pointer width, most significant bit first.
    pub fn from_usize_big_endian(data: &[usize]) -> (r: Bits)
        requires
            data@.len() * usize::BITS <= usize::MAX,
        ensures
            r.stream() == encoding(data@, false),
            r.stream().len() == data@.len() * usize::BITS,
            r.cursor() == 0,
            r.order() == Endianness::BigEndian,
    {
        Bits::from_values(data, Endianness::BigEndian)
    }

    /// A stream of the bits of `data`, each value on the pointer width, with its bit order reversed (least significant bit first).
    pub fn from_usize_little_endian(data: &[usize]) -> (r: Bits)
        requires
            data@.len() * usize::BITS <= usize::MAX,
        ensures
            r.stream() == encoding(data@, true),
            r.stream().len() == data@.len() * usize::BITS,
            r.cursor() == 0,
            r.order() == Endianness::LittleEndian,
    {
        Bits::from_values(data, Endianness::LittleEndian)
    }

    /// A stream of the bits of `data`, each value on 8 bits, most significant bit first.
    pub fn from_i8_big_endian(data: &[i8]) -> (r: Bits)
        requires
            data@.len() * 8 <= usize::MAX,
        ensures
            r.stream() == encoding(data@, false),
            r.stream().len() == data@.len() * 8,
            r.cursor() == 0,
            r.order() == Endianness::BigEndian,
    {
        Bits::from_values(data, Endianness::BigEndian)
    }

    /// A stream of the bits of `data`, each value on 8 bits, with its bit order reversed (least significant bit first).
    pub fn from_i8_little_endian(data: &[i8]) -> (r: Bits)
        requires
            data@.len() * 8 <= usize::MAX,
        ensures
            r.stream() == encoding(data@, true),
            r.stream().len() == data@.len() * 8,
            r.cursor() == 0,
            r.order() == Endianness::LittleEndian,
    {
        Bits::from_values(data, Endianness::LittleEndian)
    }

    /// A stream of the bits of `data`, each value on 16 bits, most significant bit first.
    pub fn from_i16_big_endian(data: &[i16]) -> (r: Bits)
        requires
            data@.len() * 16 <= usize::MAX,
        ensures
            r.stream() == encoding(data@, false),
            r.stream().len() == data@.len() * 16,
            r.cursor() == 0,
            r.order() == Endianness::BigEndian,
    {
        Bits::from_values(data, Endianness::BigEndian)
    }

    /// A stream of the bits of `data`, each value on 16 bits, with its bit order reversed (least significant bit first).
    pub fn from_i16_little_endian(data: &[i16]) -> (r: Bits)
        requires
            data@.len() * 16 <= usize::MAX,
        ensures
            r.stream() == encoding(data@, true),
            r.stream().len() == data@.len() * 16,
            r.cursor() == 0,
            r.order() == Endianness::LittleEndian,
    {
        Bits::from_values(data, Endianness::LittleEndian)
    }

    /// A stream of the bits of `data`, each value on 32 bits, most significant bit first.
    pub fn from_i32_big_endian(data: &[i32]) -> (r: Bits)
        requires
            data@.len() * 32 <= usize::MAX,
        ensures
            r.stream() == encoding(data@, false),
            r.stream().len() == data@.len() * 32,
            r.cursor() == 0,
            r.order() == Endianness::BigEndian,
    {
        Bits::from_values(data, Endianness::BigEndian)
    }

    /// A stream of the bits of `data`, each value on 32 bits, with its bit order reversed (least significant bit first).
    pub fn from_i32_little_endian(data: &[i32]) -> (r: Bits)
        requires
            data@.len() * 32 <= usize::MAX,
        ensures
            r.stream() == encoding(data@, true),
            r.stream().len() == data@.len() * 32,
            r.cursor() == 0,
            r.order() == Endianness::LittleEndian,
    {
        Bits::from_values(data, Endianness::LittleEndian)
    }

    /// A stream of the bits of `data`, each value on 64 bits, most significant bit first.
    pub fn from_i64_big_endian(data: &[i64]) -> (r: Bits)
        requires
            data@.len() * 64 <= usize::MAX,
        ensures
            r.stream() == encoding(data@, false),
            r.stream().len() == data@.len() * 64,
            r.cursor() == 0,
            r.order() == Endianness::BigEndian,
    {
        Bits::from_values(data, Endianness::BigEndian)
    }

    /// A stream of the bits of `data`, each value on 64 bits, with its bit order reversed (least significant bit first).
    pub fn from_i64_little_endian(data: &[i64]) -> (r: Bits)
        requires
            data@.len() * 64 <= usize::MAX,
        ensures
            r.stream() == encoding(data@, true),
            r.stream().len() == data@.len() * 64,
            r.cursor() == 0,
            r.order() == Endianness::LittleEndian,
    {
        Bits::from_values(data, Endianness::LittleEndian)
    }

    /// A stream of the bits of `data`, each value on 128 bits, most significant bit first.
    pub fn from_i128_big_endian(data: &[i128]) -> (r: Bits)
        requires
            data@.len() * 128 <= usize::MAX,
        ensures
            r.stream() == encoding(data@, false),
            r.stream().len() == data@.len() * 128,
            r.cursor() == 0,
            r.order() == Endianness::BigEndian,
    {
        Bits::from_values(data, Endianness::BigEndian)
    }

    /// A stream of the bits of `data`, each value on 128 bits, with its bit order reversed (least significant bit first).
    pub fn from_i128_little_endian(data: &[i128]) -> (r: Bits)
        requires
            data@.len() * 128 <= usize::MAX,
        ensures
            r.stream() == encoding(data@, true),
            r.stream().len() == data@.len() * 128,
            r.cursor() == 0,
            r.order() == Endianness::LittleEndian,
    {
        Bits::from_values(data, Endianness::LittleEndian)
    }

    /// A stream of the bits of `data`, each value on the pointer width, most significant bit first.
    pub fn from_isize_big_endian(data: &[isize]) -> (r: Bits)
        requires
            data@.len() * usize::BITS <= usize::MAX,
        ensures
            r.stream() == encoding(data@, false),
            r.stream().len() == data@.len() * usize::BITS,
            r.cursor() == 0,
            r.order() == Endianness::BigEndian,
    {
        Bits::from_values(data, Endianness::BigEndian)
    }

    /// A stream of the bits of `data`, each value on the pointer width, with its bit order reversed (least significant bit first).
    pub fn from_isize_little_endian(data: &[isize]) -> (r: Bits)
        requires
            data@.len() * usize::BITS <= usize::MAX,
        ensures
            r.stream() == encoding(data@, true),
            r.stream().len() == data@.len() * usize::BITS,
            r.cursor() == 0,
            r.order() == Endianness::LittleEndian,
    {
        Bits::from_values(data, Endianness::LittleEndian)
    }

    /// Reads the next `size_to_read` bits, in stream order, as a `u8`, and moves the cursor past them.
    pub fn consume_next_data_as_u8(&mut self, size_to_read: usize) -> (r: Result<u8, ReadError>)
        requires
            size_to_read <= 8,
        ensures
            old(self).consumed::<u8>(*final(self), size_to_read as nat, false, r),
    {
        self.consume::<u8>(size_to_read, false)
    }

    /// Reads the next `size_to_read` bits, in reversed order, as a `u8`, and moves the cursor past them.
    pub fn consume_next_data_as_u8_reversed(&mut self, size_to_read: usize) -> (r: Result<u8, ReadError>)
        requires
            size_to_read <= 8,
        ensures
            old(self).consumed::<u8>(*final(self), size_to_read as nat, true, r),
    {
        self.consume::<u8>(size_to_read, true)
    }

    /// Reads the next `size_to_read` bits, in stream order, as a `u16`, and moves the cursor past them.
    pub fn consume_next_data_as_u16(&mut self, size_to_read: usize) -> (r: Result<u16, ReadError>)
        requires
            size_to_read <= 16,
        ensures
            old(self).consumed::<u16>(*final(self), size_to_read as nat, false, r),
    {
        self.consume::<u16>(size_to_read, false)
    }

    /// Reads the next `size_to_read` bits, in reversed order, as a `u16`, and moves the cursor past them.
    pub fn consume_next_data_as_u16_reversed(&mut self, size_to_read: usize) -> (r: Result<u16, ReadError>)
        requires
            size_to_read <= 16,
        ensures
            old(self).consumed::<u16>(*final(self), size_to_read as nat, true, r),
    {
        self.consume::<u16>(size_to_read, true)
    }

    /// Reads the next `size_to_read` bits, in stream order, as a `u32`, and moves the cursor past them.
    pub fn consume_next_data_as_u32(&mut self, size_to_read: usize) -> (r: Result<u32, ReadError>)
        requires
            size_to_read <= 32,
        ensures
            old(self).consumed::<u32>(*final(self), size_to_read as nat, false, r),
    {
        self.consume::<u32>(size_to_read, false)
    }

    /// Reads the next `size_to_read` bits, in reversed order, as a `u32`, and moves the cursor past them.
    pub fn consume_next_data_as_u32_reversed(&mut self, size_to_read: usize) -> (r: Result<u32, ReadError>)
        requires
            size_to_read <= 32,
        ensures
            old(self).consumed::<u32>(*final(self), size_to_read as nat, true, r),
    {
        self.consume::<u32>(size_to_read, true)
    }

    /// Reads the next `size_to_read` bits, in stream order, as a `u64`, and moves the cursor past them.
    pub fn consume_next_data_as_u64(&mut self, size_to_read: usize) -> (r: Result<u64, ReadError>)
        requires
            size_to_read <= 64,
        ensures
            old(self).consumed::<u64>(*final(self), size_to_read as nat, false, r),
    {
        self.consume::<u64>(size_to_read, false)
    }

    /// Reads the next `size_to_read` bits, in reversed order, as a `u64`, and moves the cursor past them.
    pub fn consume_next_data_as_u64_reversed(&mut self, size_to_read: usize) -> (r: Result<u64, ReadError>)
        requires
            size_to_read <= 64,
        ensures
            old(self).consumed::<u64>(*final(self), size_to_read as nat, true, r),
    {
        self.consume::<u64>(size_to_read, true)
    }

    /// Reads the next `size_to_read` bits, in stream order, as a `u128`, and moves the cursor past them.
    pub fn consume_next_data_as_u128(&mut self, size_to_read: usize) -> (r: Result<u128, ReadError>)
        requires
            size_to_read <= 128,
        ensures
            old(self).consumed::<u128>(*final(self), size_to_read as nat, false, r),
    {
        self.consume::<u128>(size_to_read, false)
    }

    /// Reads the next `size_to_read` bits, in reversed order, as a `u128`, and moves the cursor past them.
    pub fn consume_next_data_as_u128_reversed(&mut self, size_to_read: usize) -> (r: Result<u128, ReadError>)
        requires
            size_to_read <= 128,
        ensures
            old(self).consumed::<u128>(*final(self), size_to_read as nat, true, r),
    {
        self.consume::<u128>(size_to_read, true)
    }

    /// Reads the next `size_to_read` bits, in stream order, as a `usize`, and moves the cursor past them.
    pub fn consume_next_data_as_usize(&mut self, size_to_read: usize) -> (r: Result<usize, ReadError>)
        requires
            size_to_read <= usize::BITS,
        ensures
            old(self).consumed::<usize>(*final(self), size_to_read as nat, false, r),
    {
        self.consume::<usize>(size_to_read, false)
    }

    /// Reads the next `size_to_read` bits, in reversed order, as a `usize`, and moves the cursor past them.
    pub fn consume_next_data_as_usize_reversed(&mut self, size_to_read: usize) -> (r: Result<usize, ReadError>)
        requires
            size_to_read <= usize::BITS,
        ensures
            old(self).consumed::<usize>(*final(self), size_to_read as nat, true, r),
    {
        self.consume::<usize>(size_to_read, true)
    }

    /// Reads the next `size_to_read` bits, in stream order, as a `i8`, and moves the cursor past them.
    pub fn consume_next_data_as_i8(&mut self, size_to_read: usize) -> (r: Result<i8, ReadError>)
        requires
            size_to_read <= 8,
        ensures
            old(self).consumed::<i8>(*final(self), size_to_read as nat, false, r),
    {
        self.consume::<i8>(size_to_read, false)
    }

    /// Reads the next `size_to_read` bits, in reversed order, as a `i8`, and moves the cursor past them.
    pub fn consume_next_data_as_i8_reversed(&mut self, size_to_read: usize) -> (r: Result<i8, ReadError>)
        requires
            size_to_read <= 8,
        ensures
            old(self).consumed::<i8>(*final(self), size_to_read as nat, true, r),
    {
        self.consume::<i8>(size_to_read, true)
    }

    /// Reads the next `size_to_read` bits, in stream order, as a `i16`, and moves the cursor past them.
    pub fn consume_next_data_as_i16(&mut self, size_to_read: usize) -> (r: Result<i16, ReadError>)
        requires
            size_to_read <= 16,
        ensures
            old(self).consumed::<i16>(*final(self), size_to_read as nat, false, r),
    {
        self.consume::<i16>(size_to_read, false)
    }

    /// Reads the next `size_to_read` bits, in reversed order, as a `i16`, and moves the cursor past them.
    pub fn consume_next_data_as_i16_reversed(&mut self, size_to_read: usize) -> (r: Result<i16, ReadError>)
        requires
            size_to_read <= 16,
        ensures
            old(self).consumed::<i16>(*final(self), size_to_read as nat, true, r),
    {
        self.consume::<i16>(size_to_read, true)
    }

    /// Reads the next `size_to_read` bits, in stream order, as a `i32`, and moves the cursor past them.
    pub fn consume_next_data_as_i32(&mut self, size_to_read: usize) -> (r: Result<i32, ReadError>)
        requires
            size_to_read <= 32,
        ensures
            old(self).consumed::<i32>(*final(self), size_to_read as nat, false, r),
    {
        self.consume::<i32>(size_to_read, false)
    }

    /// Reads the next `size_to_read` bits, in reversed order, as a `i32`, and moves the cursor past them.
    pub fn consume_next_data_as_i32_reversed(&mut self, size_to_read: usize) -> (r: Result<i32, ReadError>)
        requires
            size_to_read <= 32,
        ensures
            old(self).consumed::<i32>(*final(self), size_to_read as nat, true, r),
    {
        self.consume::<i32>(size_to_read, true)
    }

    /// Reads the next `size_to_read` bits, in stream order, as a `i64`, and moves the cursor past them.
    pub fn consume_next_data_as_i64(&mut self, size_to_read: usize) -> (r: Result<i64, ReadError>)
        requires
            size_to_read <= 64,
        ensures
            old(self).consumed::<i64>(*final(self), size_to_read as nat, false, r),
    {
        self.consume::<i64>(size_to_read, false)
    }

    /// Reads the next `size_to_read` bits, in reversed order, as a `i64`, and moves the cursor past them.
    pub fn consume_next_data_as_i64_reversed(&mut self, size_to_read: usize) -> (r: Result<i64, ReadError>)
        requires
            size_to_read <= 64,
        ensures
            old(self).consumed::<i64>(*final(self), size_to_read as nat, true, r),
    {
        self.consume::<i64>(size_to_read, true)
    }

    /// Reads the next `size_to_read` bits, in stream order, as a `i128`, and moves the cursor past them.
    pub fn consume_next_data_as_i128(&mut self, size_to_read: usize) -> (r: Result<i128, ReadError>)
        requires
            size_to_read <= 128,
        ensures
            old(self).consumed::<i128>(*final(self), size_to_read as nat, false, r),
    {
        self.consume::<i128>(size_to_read, false)
    }

    /// Reads the next `size_to_read` bits, in reversed order, as a `i128`, and moves the cursor past them.
    pub fn consume_next_data_as_i128_reversed(&mut self, size_to_read: usize) -> (r: Result<i128, ReadError>)
        requires
            size_to_read <= 128,
        ensures
            old(self).consumed::<i128>(*final(self), size_to_read as nat, true, r),
    {
        self.consume::<i128>(size_to_read, true)
    }

    /// Reads the next `size_to_read` bits, in stream order, as a `isize`, and moves the cursor past them.
    pub fn consume_next_data_as_isize(&mut self, size_to_read: usize) -> (r: Result<isize, ReadError>)
        requires
            size_to_read <= usize::BITS,
        ensures
            old(self).consumed::<isize>(*final(self), size_to_read as nat, false, r),
    {
        self.consume::<isize>(size_to_read, false)
    }

    /// Reads the next `size_to_read` bits, in reversed order, as a `isize`, and moves the cursor past them.
    pub fn consume_next_data_as_isize_reversed(&mut self, size_to_read: usize) -> (r: Result<isize, ReadError>)
        requires
            size_to_read <= usize::BITS,
        ensures
            old(self).consumed::<isize>(*final(self), size_to_read as nat, true, r),
    {
        self.consume::<isize>(size_to_read, true)
    }

    /// Reads the next 8 bits, in stream order, as a `u8`, and moves the cursor past them.
    pub fn consume_next_unsigned_8_bits(&mut self) -> (r: Result<u8, ReadError>)
        ensures
            old(self).consumed::<u8>(*final(self), 8, false, r),
    {
        self.consume_next_data_as_u8(8)
    }

    /// Reads the next 8 bits, in reversed order, as a `u8`, and moves the cursor past them.
    pub fn consume_next_unsigned_8_bits_reversed(&mut self) -> (r: Result<u8, ReadError>)
        ensures
            old(self).consumed::<u8>(*final(self), 8, true, r),
    {
        self.consume_next_data_as_u8_reversed(8)
    }

    /// Reads the next 16 bits, in stream order, as a `u16`, and moves the cursor past them.
    pub fn consume_next_unsigned_16_bits(&mut self) -> (r: Result<u16, ReadError>)
        ensures
            old(self).consumed::<u16>(*final(self), 16, false, r),
    {
        self.consume_next_data_as_u16(16)
    }

    /// Reads the next 16 bits, in reversed order, as a `u16`, and moves the cursor past them.
    pub fn consume_next_unsigned_16_bits_reversed(&mut self) -> (r: Result<u16, ReadError>)
        ensures
            old(self).consumed::<u16>(*final(self), 16, true, r),
    {
        self.consume_next_data_as_u16_reversed(16)
    }

    /// Reads the next 32 bits, in stream order, as a `u32`, and moves the cursor past them.
    pub fn consume_next_unsigned_32_bits(&mut self) -> (r: Result<u32, ReadError>)
        ensures
            old(self).consumed::<u32>(*final(self), 32, false, r),
    {
        self.consume_next_data_as_u32(32)
    }

    /// Reads the next 32 bits, in reversed order, as a `u32`, and moves the cursor past them.
    pub fn consume_next_unsigned_32_bits_reversed(&mut self) -> (r: Result<u32, ReadError>)
        ensures
            old(self).consumed::<u32>(*final(self), 32, true, r),
    {
        self.consume_next_data_as_u32_reversed(32)
    }

    /// Reads the next 64 bits, in stream order, as a `u64`, and moves the cursor past them.
    pub fn consume_next_unsigned_64_bits(&mut self) -> (r: Result<u64, ReadError>)
        ensures
            old(self).consumed::<u64>(*final(self), 64, false, r),
    {
        self.consume_next_data_as_u64(64)
    }

    /// Reads the next 64 bits, in reversed order, as a `u64`, and moves the cursor past them.
    pub fn consume_next_unsigned_64_bits_reversed(&mut self) -> (r: Result<u64, ReadError>)
        ensures
            old(self).consumed::<u64>(*final(self), 64, true, r),
    {
        self.consume_next_data_as_u64_reversed(64)
    }

    /// Reads the next 128 bits, in stream order, as a `u128`, and moves the cursor past them.
    pub fn consume_next_unsigned_128_bits(&mut self) -> (r: Result<u128, ReadError>)
        ensures
            old(self).consumed::<u128>(*final(self), 128, false, r),
    {
        self.consume_next_data_as_u128(128)
    }

    /// Reads the next 128 bits, in reversed order, as a `u128`, and moves the cursor past them.
    pub fn consume_next_unsigned_128_bits_reversed(&mut self) -> (r: Result<u128, ReadError>)
        ensures
            old(self).consumed::<u128>(*final(self), 128, true, r),
    {
        self.consume_next_data_as_u128_reversed(128)
    }

    /// Reads the next 8 bits, in stream order, as a `i8`, and moves the cursor past them.
    pub fn consume_next_signed_8_bits(&mut self) -> (r: Result<i8, ReadError>)
        ensures
            old(self).consumed::<i8>(*final(self), 8, false, r),
    {
        self.consume_next_data_as_i8(8)
    }

    /// Reads the next 8 bits, in reversed order, as a `i8`, and moves the cursor past them.
    pub fn consume_next_signed_8_bits_reversed(&mut self) -> (r: Result<i8, ReadError>)
        ensures
            old(self).consumed::<i8>(*final(self), 8, true, r),
    {
        self.consume_next_data_as_i8_reversed(8)
    }

    /// Reads the next 16 bits, in stream order, as a `i16`, and moves the cursor past them.
    pub fn consume_next_signed_16_bits(&mut self) -> (r: Result<i16, ReadError>)
        ensures
            old(self).consumed::<i16>(*final(self), 16, false, r),
    {
        self.consume_next_data_as_i16(16)
    }

    /// Reads the next 16 bits, in reversed order, as a `i16`, and moves the cursor past them.
    pub fn consume_next_signed_16_bits_reversed(&mut self) -> (r: Result<i16, ReadError>)
        ensures
            old(self).consumed::<i16>(*final(self), 16, true, r),
    {
        self.consume_next_data_as_i16_reversed(16)
    }

    /// Reads the next 32 bits, in stream order, as a `i32`, and moves the cursor past them.
    pub fn consume_next_signed_32_bits(&mut self) -> (r: Result<i32, ReadError>)
        ensures
            old(self).consumed::<i32>(*final(self), 32, false, r),
    {
        self.consume_next_data_as_i32(32)
    }

    /// Reads the next 32 bits, in reversed order, as a `i32`, and moves the cursor past them.
    pub fn consume_next_signed_32_bits_reversed(&mut self) -> (r: Result<i32, ReadError>)
        ensures
            old(self).consumed::<i32>(*final(self), 32, true, r),
    {
        self.consume_next_data_as_i32_reversed(32)
    }

    /// Reads the next 64 bits, in stream order, as a `i64`, and moves the cursor past them.
    pub fn consume_next_signed_64_bits(&mut self) -> (r: Result<i64, ReadError>)
        ensures
            old(self).consumed::<i64>(*final(self), 64, false, r),
    {
        self.consume_next_data_as_i64(64)
    }

    /// Reads the next 64 bits, in reversed order, as a `i64`, and moves the cursor past them.
    pub fn consume_next_signed_64_bits_reversed(&mut self) -> (r: Result<i64, ReadError>)
        ensures
            old(self).consumed::<i64>(*final(self), 64, true, r),
    {
        self.consume_next_data_as_i64_reversed(64)
    }

    /// Reads the next 128 bits, in stream order, as a `i128`, and moves the cursor past them.
    pub fn consume_next_signed_128_bits(&mut self) -> (r: Result<i128, ReadError>)
        ensures
            old(self).consumed::<i128>(*final(self), 128, false, r),
    {
        self.consume_next_data_as_i128(128)
    }

    /// Reads the next 128 bits, in reversed order, as a `i128`, and moves the cursor past them.
    pub fn consume_next_signed_128_bits_reversed(&mut self) -> (r: Result<i128, ReadError>)
        ensures
            old(self).consumed::<i128>(*final(self), 128, true, r),
    {
        self.consume_next_data_as_i128_reversed(128)
    }

    /// Reads the next `size_to_read` bits, in stream order, as a `u8`, leaving the cursor where it is.
    pub fn peek_next_data_as_u8(&mut self, size_to_read: usize) -> (r: Result<u8, ReadError>)
        requires
            size_to_read <= 8,
        ensures
            *final(self) == *old(self),
            old(self).peeked::<u8>(size_to_read as nat, false, r),
    {
        self.peek::<u8>(size_to_read, false)
    }

    /// Reads the next `size_to_read` bits, in reversed order, as a `u8`, leaving the cursor where it is.
    pub fn peek_next_data_as_u8_reversed(&mut self, size_to_read: usize) -> (r: Result<u8, ReadError>)
        requires
            size_to_read <= 8,
        ensures
            *final(self) == *old(self),
            old(self).peeked::<u8>(size_to_read as nat, true, r),
    {
        self.peek::<u8>(size_to_read, true)
    }

    /// Reads the next `size_to_read` bits, in stream order, as a `u16`, leaving the cursor where it is.
    pub fn peek_next_data_as_u16(&mut self, size_to_read: usize) -> (r: Result<u16, ReadError>)
        requires
            size_to_read <= 16,
        ensures
            *final(self) == *old(self),
            old(self).peeked::<u16>(size_to_read as nat, false, r),
    {
        self.peek::<u16>(size_to_read, false)
    }

    /// Reads the next `size_to_read` bits, in reversed order, as a `u16`, leaving the cursor where it is.
    pub fn peek_next_data_as_u16_reversed(&mut self, size_to_read: usize) -> (r: Result<u16, ReadError>)
        requires
            size_to_read <= 16,
        ensures
            *final(self) == *old(self),
            old(self).peeked::<u16>(size_to_read as nat, true, r),
    {
        self.peek::<u16>(size_to_read, true)
    }

    /// Reads the next `size_to_read` bits, in stream order, as a `u32`, leaving the cursor where it is.
    pub fn peek_next_data_as_u32(&mut self, size_to_read: usize) -> (r: Result<u32, ReadError>)
        requires
            size_to_read <= 32,
        ensures
            *final(self) == *old(self),
            old(self).peeked::<u32>(size_to_read as nat, false, r),
    {
        self.peek::<u32>(size_to_read, false)
    }

    /// Reads the next `size_to_read` bits, in reversed order, as a `u32`, leaving the cursor where it is.
    pub fn peek_next_data_as_u32_reversed(&mut self, size_to_read: usize) -> (r: Result<u32, ReadError>)
        requires
            size_to_read <= 32,
        ensures
            *final(self) == *old(self),
            old(self).peeked::<u32>(size_to_read as nat, true, r),
    {
        self.peek::<u32>(size_to_read, true)
    }

    /// Reads the next `size_to_read` bits, in stream order, as a `u64`, leaving the cursor where it is.
    pub fn peek_next_data_as_u64(&mut self, size_to_read: usize) -> (r: Result<u64, ReadError>)
        requires
            size_to_read <= 64,
        ensures
            *final(self) == *old(self),
            old(self).peeked::<u64>(size_to_read as nat, false, r),
    {
        self.peek::<u64>(size_to_read, false)
    }

    /// Reads the next `size_to_read` bits, in reversed order, as a `u64`, leaving the cursor where it is.
    pub fn peek_next_data_as_u64_reversed(&mut self, size_to_read: usize) -> (r: Result<u64, ReadError>)
        requires
            size_to_read <= 64,
        ensures
            *final(self) == *old(self),
            old(self).peeked::<u64>(size_to_read as nat, true, r),
    {
        self.peek::<u64>(size_to_read, true)
    }

    /// Reads the next `size_to_read` bits, in stream order, as a `u128`, leaving the cursor where it is.
    pub fn peek_next_data_as_u128(&mut self, size_to_read: usize) -> (r: Result<u128, ReadError>)
        requires
            size_to_read <= 128,
        ensures
            *final(self) == *old(self),
            old(self).peeked::<u128>(size_to_read as nat, false, r),
    {
        self.peek::<u128>(size_to_read, false)
    }

    /// Reads the next `size_to_read` bits, in reversed order, as a `u128`, leaving the cursor where it is.
    pub fn peek_next_data_as_u128_reversed(&mut self, size_to_read: usize) -> (r: Result<u128, ReadError>)
        requires
            size_to_read <= 128,
        ensures
            *final(self) == *old(self),
            old(self).peeked::<u128>(size_to_read as nat, true, r),
    {
        self.peek::<u128>(size_to_read, true)
    }

    /// Reads the next `size_to_read` bits, in stream order, as a `usize`, leaving the cursor where it is.
    pub fn peek_next_data_as_usize(&mut self, size_to_read: usize) -> (r: Result<usize, ReadError>)
        requires
            size_to_read <= usize::BITS,
        ensures
            *final(self) == *old(self),
            old(self).peeked::<usize>(size_to_read as nat, false, r),
    {
        self.peek::<usize>(size_to_read, false)
    }

    /// Reads the next `size_to_read` bits, in reversed order, as a `usize`, leaving the cursor where it is.
    pub fn peek_next_data_as_usize_reversed(&mut self, size_to_read: usize) -> (r: Result<usize, ReadError>)
        requires
            size_to_read <= usize::BITS,
        ensures
            *final(self) == *old(self),
            old(self).peeked::<usize>(size_to_read as nat, true, r),
    {
        self.peek::<usize>(size_to_read, true)
    }

    /// Reads the next `size_to_read` bits, in stream order, as a `i8`, leaving the cursor where it is.
    pub fn peek_next_data_as_i8(&mut self, size_to_read: usize) -> (r: Result<i8, ReadError>)
        requires
            size_to_read <= 8,
        ensures
            *final(self) == *old(self),
            old(self).peeked::<i8>(size_to_read as nat, false, r),
    {
        self.peek::<i8>(size_to_read, false)
    }

    /// Reads the next `size_to_read` bits, in reversed order, as a `i8`, leaving the cursor where it is.
    pub fn peek_next_data_as_i8_reversed(&mut self, size_to_read: usize) -> (r: Result<i8, ReadError>)
        requires
            size_to_read <= 8,
        ensures
            *final(self) == *old(self),
            old(self).peeked::<i8>(size_to_read as nat, true, r),
    {
        self.peek::<i8>(size_to_read, true)
    }

    /// Reads the next `size_to_read` bits, in stream order, as a `i16`, leaving the cursor where it is.
    pub fn peek_next_data_as_i16(&mut self, size_to_read: usize) -> (r: Result<i16, ReadError>)
        requires
            size_to_read <= 16,
        ensures
            *final(self) == *old(self),
            old(self).peeked::<i16>(size_to_read as nat, false, r),
    {
        self.peek::<i16>(size_to_read, false)
    }

    /// Reads the next `size_to_read` bits, in reversed order, as a `i16`, leaving the cursor where it is.
    pub fn peek_next_data_as_i16_reversed(&mut self, size_to_read: usize) -> (r: Result<i16, ReadError>)
        requires
            size_to_read <= 16,
        ensures
            *final(self) == *old(self),
            old(self).peeked::<i16>(size_to_read as nat, true, r),
    {
        self.peek::<i16>(size_to_read, true)
    }

    /// Reads the next `size_to_read` bits, in stream order, as a `i32`, leaving the cursor where it is.
    pub fn peek_next_data_as_i32(&mut self, size_to_read: usize) -> (r: Result<i32, ReadError>)
        requires
            size_to_read <= 32,
        ensures
            *final(self) == *old(self),
            old(self).peeked::<i32>(size_to_read as nat, false, r),
    {
        self.peek::<i32>(size_to_read, false)
    }

    /// Reads the next `size_to_read` bits, in reversed order, as a `i32`, leaving the cursor where it is.
    pub fn peek_next_data_as_i32_reversed(&mut self, size_to_read: usize) -> (r: Result<i32, ReadError>)
        requires
            size_to_read <= 32,
        ensures
            *final(self) == *old(self),
            old(self).peeked::<i32>(size_to_read as nat, true, r),
    {
        self.peek::<i32>(size_to_read, true)
    }

    /// Reads the next `size_to_read` bits, in stream order, as a `i64`, leaving the cursor where it is.
    pub fn peek_next_data_as_i64(&mut self, size_to_read: usize) -> (r: Result<i64, ReadError>)
        requires
            size_to_read <= 64,
        ensures
            *final(self) == *old(self),
            old(self).peeked::<i64>(size_to_read as nat, false, r),
    {
        self.peek::<i64>(size_to_read, false)
    }

    /// Reads the next `size_to_read` bits, in reversed order, as a `i64`, leaving the cursor where it is.
    pub fn peek_next_data_as_i64_reversed(&mut self, size_to_read: usize) -> (r: Result<i64, ReadError>)
        requires
            size_to_read <= 64,
        ensures
            *final(self) == *old(self),
            old(self).peeked::<i64>(size_to_read as nat, true, r),
    {
        self.peek::<i64>(size_to_read, true)
    }

    /// Reads the next `size_to_read` bits, in stream order, as a `i128`, leaving the cursor where it is.
    pub fn peek_next_data_as_i128(&mut self, size_to_read: usize) -> (r: Result<i128, ReadError>)
        requires
            size_to_read <= 128,
        ensures
            *final(self) == *old(self),
            old(self).peeked::<i128>(size_to_read as nat, false, r),
    {
        self.peek::<i128>(size_to_read, false)
    }

    /// Reads the next `size_to_read` bits, in reversed order, as a `i128`, leaving the cursor where it is.
    pub fn peek_next_data_as_i128_reversed(&mut self, size_to_read: usize) -> (r: Result<i128, ReadError>)
        requires
            size_to_read <= 128,
        ensures
            *final(self) == *old(self),
            old(self).peeked::<i128>(size_to_read as nat, true, r),
    {
        self.peek::<i128>(size_to_read, true)
    }

    /// Reads the next `size_to_read` bits, in stream order, as a `isize`, leaving the cursor where it is.
    pub fn peek_next_data_as_isize(&mut self, size_to_read: usize) -> (r: Result<isize, ReadError>)
        requires
            size_to_read <= usize::BITS,
        ensures
            *final(self) == *old(self),
            old(self).peeked::<isize>(size_to_read as nat, false, r),
    {
        self.peek::<isize>(size_to_read, false)
    }

    /// Reads the next `size_to_read` bits, in reversed order, as a `isize`, leaving the cursor where it is.
    pub fn peek_next_data_as_isize_reversed(&mut self, size_to_read: usize) -> (r: Result<isize, ReadError>)
        requires
            size_to_read <= usize::BITS,
        ensures
            *final(self) == *old(self),
            old(self).peeked::<isize>(size_to_read as nat, true, r),
    {
        self.peek::<isize>(size_to_read, true)
    }

    /// Reads the next 8 bits, in stream order, as a `u8`, leaving the cursor where it is.
    pub fn peek_next_unsigned_8_bits(&mut self) -> (r: Result<u8, ReadError>)
        ensures
            *final(self) == *old(self),
            old(self).peeked::<u8>(8, false, r),
    {
        self.peek_next_data_as_u8(8)
    }

    /// Reads the next 8 bits, in reversed order, as a `u8`, leaving the cursor where it is.
    pub fn peek_next_unsigned_8_bits_reversed(&mut self) -> (r: Result<u8, ReadError>)
        ensures
            *final(self) == *old(self),
            old(self).peeked::<u8>(8, true, r),
    {
        self.peek_next_data_as_u8_reversed(8)
    }

    /// Reads the next 16 bits, in stream order, as a `u16`, leaving the cursor where it is.
    pub fn peek_next_unsigned_16_bits(&mut self) -> (r: Result<u16, ReadError>)
        ensures
            *final(self) == *old(self),
            old(self).peeked::<u16>(16, false, r),
    {
        self.peek_next_data_as_u16(16)
    }

    /// Reads the next 16 bits, in reversed order, as a `u16`, leaving the cursor where it is.
    pub fn peek_next_unsigned_16_bits_reversed(&mut self) -> (r: Result<u16, ReadError>)
        ensures
            *final(self) == *old(self),
            old(self).peeked::<u16>(16, true, r),
    {
        self.peek_next_data_as_u16_reversed(16)
    }

    /// Reads the next 32 bits, in stream order, as a `u32`, leaving the cursor where it is.
    pub fn peek_next_unsigned_32_bits(&mut self) -> (r: Result<u32, ReadError>)
        ensures
            *final(self) == *old(self),
            old(self).peeked::<u32>(32, false, r),
    {
        self.peek_next_data_as_u32(32)
    }

    /// Reads the next 32 bits, in reversed order, as a `u32`, leaving the cursor where it is.
    pub fn peek_next_unsigned_32_bits_reversed(&mut self) -> (r: Result<u32, ReadError>)
        ensures
            *final(self) == *old(self),
            old(self).peeked::<u32>(32, true, r),
    {
        self.peek_next_data_as_u32_reversed(32)
    }

    /// Reads the next 64 bits, in stream order, as a `u64`, leaving the cursor where it is.
    pub fn peek_next_unsigned_64_bits(&mut self) -> (r: Result<u64, ReadError>)
        ensures
            *final(self) == *old(self),
            old(self).peeked::<u64>(64, false, r),
    {
        self.peek_next_data_as_u64(64)
    }

    /// Reads the next 64 bits, in reversed order, as a `u64`, leaving the cursor where it is.
    pub fn peek_next_unsigned_64_bits_reversed(&mut self) -> (r: Result<u64, ReadError>)
        ensures
            *final(self) == *old(self),
            old(self).peeked::<u64>(64, true, r),
    {
        self.peek_next_data_as_u64_reversed(64)
    }

    /// Reads the next 128 bits, in stream order, as a `u128`, leaving the cursor where it is.
    pub fn peek_next_unsigned_128_bits(&mut self) -> (r: Result<u128, ReadError>)
        ensures
            *final(self) == *old(self),
            old(self).peeked::<u128>(128, false, r),
    {
        self.peek_next_data_as_u128(128)
    }

    /// Reads the next 128 bits, in reversed order, as a `u128`, leaving the cursor where it is.
    pub fn peek_next_unsigned_128_bits_reversed(&mut self) -> (r: Result<u128, ReadError>)
        ensures
            *final(self) == *old(self),
            old(self).peeked::<u128>(128, true, r),
    {
        self.peek_next_data_as_u128_reversed(128)
    }

    /// Reads the next 8 bits, in stream order, as a `i8`, leaving the cursor where it is.
    pub fn peek_next_signed_8_bits(&mut self) -> (r: Result<i8, ReadError>)
        ensures
            *final(self) == *old(self),
            old(self).peeked::<i8>(8, false, r),
    {
        self.peek_next_data_as_i8(8)
    }

    /// Reads the next 8 bits, in reversed order, as a `i8`, leaving the cursor where it is.
    pub fn peek_next_signed_8_bits_reversed(&mut self) -> (r: Result<i8, ReadError>)
        ensures
            *final(self) == *old(self),
            old(self).peeked::<i8>(8, true, r),
    {
        self.peek_next_data_as_i8_reversed(8)
    }

    /// Reads the next 16 bits, in stream order, as a `i16`, leaving the cursor where it is.
    pub fn peek_next_signed_16_bits(&mut self) -> (r: Result<i16, ReadError>)
        ensures
            *final(self) == *old(self),
            old(self).peeked::<i16>(16, false, r),
    {
        self.peek_next_data_as_i16(16)
    }

    /// Reads the next 16 bits, in reversed order, as a `i16`, leaving the cursor where it is.
    pub fn peek_next_signed_16_bits_reversed(&mut self) -> (r: Result<i16, ReadError>)
        ensures
            *final(self) == *old(self),
            old(self).peeked::<i16>(16, true, r),
    {
        self.peek_next_data_as_i16_reversed(16)
    }

    /// Reads the next 32 bits, in stream order, as a `i32`, leaving the cursor where it is.
    pub fn peek_next_signed_32_bits(&mut self) -> (r: Result<i32, ReadError>)
        ensures
            *final(self) == *old(self),
            old(self).peeked::<i32>(32, false, r),
    {
        self.peek_next_data_as_i32(32)
    }

    /// Reads the next 32 bits, in reversed order, as a `i32`, leaving the cursor where it is.
    pub fn peek_next_signed_32_bits_reversed(&mut self) -> (r: Result<i32, ReadError>)
        ensures
            *final(self) == *old(self),
            old(self).peeked::<i32>(32, true, r),
    {
        self.peek_next_data_as_i32_reversed(32)
    }

    /// Reads the next 64 bits, in stream order, as a `i64`, leaving the cursor where it is.
    pub fn peek_next_signed_64_bits(&mut self) -> (r: Result<i64, ReadError>)
        ensures
            *final(self) == *old(self),
            old(self).peeked::<i64>(64, false, r),
    {
        self.peek_next_data_as_i64(64)
    }

    /// Reads the next 64 bits, in reversed order, as a `i64`, leaving the cursor where it is.
    pub fn peek_next_signed_64_bits_reversed(&mut self) -> (r: Result<i64, ReadError>)
        ensures
            *final(self) == *old(self),
            old(self).peeked::<i64>(64, true, r),
    {
        self.peek_next_data_as_i64_reversed(64)
    }

    /// Reads the next 128 bits, in stream order, as a `i128`, leaving the cursor where it is.
    pub fn peek_next_signed_128_bits(&mut self) -> (r: Result<i128, ReadError>)
        ensures
            *final(self) == *old(self),
            old(self).peeked::<i128>(128, false, r),
    {
        self.peek_next_data_as_i128(128)
    }

    /// Reads the next 128 bits, in reversed order, as a `i128`, leaving the cursor where it is.
    pub fn peek_next_signed_128_bits_reversed(&mut self) -> (r: Result<i128, ReadError>)
        ensures
            *final(self) == *old(self),
            old(self).peeked::<i128>(128, true, r),
    {
        self.peek_next_data_as_i128_reversed(128)
    }

}

impl Bits {
    /// The `n` bits after the cursor, reversed when `reversed` holds, written
    /// with `'0'` and `'1'`.
    fn slice_as_string(&self, n: usize, reversed: bool) -> (r: Result<String, ReadError>)
        ensures
            match r {
                Ok(s) => self.cursor() + n <= self.stream().len() && s@ == render(
                    self.next_bits(n as nat, reversed),
                ),
                Err(e) => e == ReadError::OutOfRange && self.cursor() + n > self.stream().len(),
            },
    {
        proof {
            use_type_invariant(self);
        }
        if n > self.bits.len() - self.cursor {
            return Err(ReadError::OutOfRange);
        }
        let c = self.cursor;
        let len = self.bits.len();
        let ghost want = render(self.next_bits(n as nat, reversed));
        let mut out = String::new();
        let mut k: usize = 0;
        while k < n
            invariant
                k <= n,
                c == self.cursor,
                c + n <= self.bits@.len(),
                len == self.bits@.len(),
                want == render(self.next_bits(n as nat, reversed)),
                out@ == want.subrange(0, k as int),
            decreases n - k,
        {
            let b = if reversed {
                self.bits[c + (n - 1 - k)]
            } else {
                self.bits[c + k]
            };
            push_char(&mut out, if b { '1' } else { '0' });
            proof {
                assert(want.subrange(0, k + 1) =~= want.subrange(0, k as int).push(want[k as int]));
            }
            k += 1;
        }
        proof {
            assert(want.subrange(0, n as int) =~= want);
        }
        Ok(out)
    }

    /// The next `size_to_read` bits, in stream order, written with `'0'` and
    /// `'1'`, leaving the cursor where it is.
    pub fn peek_next_data_as_string(&mut self, size_to_read: usize) -> (r: Result<String, ReadError>)
        ensures
            *final(self) == *old(self),
            match r {
                Ok(s) => old(self).cursor() + size_to_read <= old(self).stream().len() && s@
                    == render(old(self).next_bits(size_to_read as nat, false)),
                Err(e) => e == ReadError::OutOfRange && old(self).cursor() + size_to_read > old(
                    self,
                ).stream().len(),
            },
    {
        self.slice_as_string(size_to_read, false)
    }

    /// The next `size_to_read` bits, in reversed order, written with `'0'` and
    /// `'1'`, leaving the cursor where it is.
    pub fn peek_next_data_as_string_reversed(&mut self, size_to_read: usize) -> (r: Result<
        String,
        ReadError,
    >)
        ensures
            *final(self) == *old(self),
            match r {
                Ok(s) => old(self).cursor() + size_to_read <= old(self).stream().len() && s@
                    == render(old(self).next_bits(size_to_read as nat, true)),
                Err(e) => e == ReadError::OutOfRange && old(self).cursor() + size_to_read > old(
                    self,
                ).stream().len(),
            },
    {
        self.slice_as_string(size_to_read, true)
    }

    /// Every bit of the stream, read or not, `true` for a 1.
    pub fn as_vec_bool(&self) -> (r: Vec<bool>)
        ensures
            r@ == self.stream(),
    {
        let mut out: Vec<bool> = Vec::new();
        let mut k: usize = 0;
        while k < self.bits.len()
            invariant
                k <= self.bits@.len(),
                out@ == self.bits@.subrange(0, k as int),
            decreases self.bits@.len() - k,
        {
            out.push(self.bits[k]);
            proof {
                assert(self.bits@.subrange(0, k + 1) =~= self.bits@.subrange(0, k as int).push(
                    self.bits@[k as int],
                ));
            }
            k += 1;
        }
        proof {
            assert(self.bits@.subrange(0, k as int) =~= self.bits@);
        }
        out
    }

    /// The bits of `value` on its type's full width, most significant bit
    /// first (two's complement for a negative value).
    pub fn transform_as_vec_bool<T: FixedWidth>(value: T) -> (r: Vec<bool>)
        ensures
            r@ == bits_of(pattern_of(value.int_value(), T::bit_width()), T::bit_width()),
            r@.len() == T::bit_width(),
    {
        let mut out: Vec<bool> = Vec::new();
        push_msb_first(&mut out, value.to_pattern(), T::width());
        proof {
            assert(Seq::<bool>::empty() + bits_of(
                pattern_of(value.int_value(), T::bit_width()),
                T::bit_width(),
            ) =~= bits_of(pattern_of(value.int_value(), T::bit_width()), T::bit_width()));
            lemma_bits_of_len(pattern_of(value.int_value(), T::bit_width()), T::bit_width());
        }
        out
    }

    /// The layout the stream was made with.
    pub fn endianness(&self) -> (r: &Endianness)
        ensures
            *r == self.order(),
    {
        &self.endianness
    }

    /// Every bit of the stream, read or not, written with `'0'` and `'1'`.
    pub fn to_string(&self) -> (r: String)
        ensures
            r@ == render(self.stream()),
    {
        let mut out = String::new();
        let mut k: usize = 0;
        while k < self.bits.len()
            invariant
                k <= self.bits@.len(),
                out@ == render(self.bits@).subrange(0, k as int),
            decreases self.bits@.len() - k,
        {
            push_char(&mut out, if self.bits[k] { '1' } else { '0' });
            proof {
                let all = render(self.bits@);
                assert(all.subrange(0, k + 1) =~= all.subrange(0, k as int).push(all[k as int]));
            }
            k += 1;
        }
        proof {
            assert(render(self.bits@).subrange(0, k as int) =~= render(self.bits@));
        }
        out
    }
}

/// Relies on `String::push`, which appends `c` to the end of `s`.
#[verifier::external_body]
fn push_char(s: &mut String, c: char)
    ensures
        final(s)@ == old(s)@.push(c),
{
    s.push(c);
}

/// Reading back a big-endian stream of an unsigned type: with the cursor at
/// the start of the `i`-th value, consuming the type's width of bits in stream
/// order succeeds, returns that very value, and leaves the cursor at the start
/// of the next one.
pub proof fn lemma_round_trip<T: FixedWidth>(
    b: Bits,
    after: Bits,
    data: Seq<T>,
    i: int,
    r: Result<T, ReadError>,
)
    requires
        b.stream() == encoding(data, false),
        b.cursor() == i * T::bit_width(),
        0 <= i < data.len(),
        T::min_int() == 0,
        b.consumed::<T>(after, T::bit_width(), false, r),
    ensures
        r == Ok::<T, ReadError>(data[i]),
        after.cursor() == (i + 1) * T::bit_width(),
        after.stream() == b.stream(),
{
    let w = T::bit_width();
    let pats = data.map_values(|x: T| pattern_of(x.int_value(), w));
    T::lemma_width();
    T::lemma_value(data[i], data[i]);
    vstd::arithmetic::power2::lemma_pow2_pos((w - 1) as nat);
    assert(T::max_int() == pow2(w) - 1);
    assert(pats[i] == data[i].int_value());
    lemma_encode_chunk(pats, w, false, i);
    lemma_bits_of_value(pats[i], w);
    vstd::arithmetic::mul::lemma_mul_is_distributive_add_other_way(w as int, i, 1);
    assert(b.next_bits(w, false) == bits_of(pats[i], w));
    assert(b.read_error::<T>(w, false) is None);
    if let Ok(x) = r {
        T::lemma_value(x, data[i]);
    }
}

/// A peek depends on the stream alone: the same peek made twice gives the same
/// result, and a consume with the same arguments gives that result too.
pub proof fn lemma_peek_repeats<T: FixedWidth>(
    b: Bits,
    after: Bits,
    n: nat,
    reversed: bool,
    r1: Result<T, ReadError>,
    r2: Result<T, ReadError>,
    r3: Result<T, ReadError>,
)
    requires
        b.peeked::<T>(n, reversed, r1),
        b.peeked::<T>(n, reversed, r2),
        b.consumed::<T>(after, n, reversed, r3),
    ensures
        r1 == r2,
        r1 == r3,
{
    match (r1, r2) {
        (Ok(x), Ok(y)) => T::lemma_value(x, y),
        _ => {},
    }
    match (r1, r3) {
        (Ok(x), Ok(y)) => T::lemma_value(x, y),
        _ => {},
    }
}

/// A successful consume takes exactly the bits it read off what remains; a
/// refused one takes none.
pub proof fn lemma_consume_remaining<T: FixedWidth>(
    b: Bits,
    after: Bits,
    n: nat,
    reversed: bool,
    r: Result<T, ReadError>,
)
    requires
        b.consumed::<T>(after, n, reversed, r),
    ensures
        r is Ok ==> after.remaining() == b.remaining() - n && n > 0,
        r is Err ==> after.remaining() == b.remaining(),
{
}

/// Below 128 bits, one more bit still fits in a `u128`.
proof fn lemma_pow2_below_128(k: nat)
    requires
        k < 128,
    ensures
        2 * pow2(k) <= 0x1_0000_0000_0000_0000_0000_0000_0000_0000,
{
    crate::width::lemma_pow2_128();
    if k < 127 {
        lemma_pow2_strictly_increases(k, 127);
    }
}

/// Appends the `w` lowest bits of `v`, most significant first.
fn push_msb_first(out: &mut Vec<bool>, v: u128, w: u32)
    ensures
        final(out)@ == old(out)@ + bits_of(v as nat, w as nat),
    decreases w,
{
    if w > 0 {
        push_msb_first(out, v / 2, w - 1);
        out.push(v % 2 == 1);
        proof {
            let b = bits_of(v as nat / 2, (w - 1) as nat);
            assert(old(out)@ + b.push(v % 2 == 1) =~= (old(out)@ + b).push(v % 2 == 1));
        }
    }
}

/// Appends the `w` lowest bits of `v`, least significant first.
fn push_lsb_first(out: &mut Vec<bool>, v: u128, w: u32)
    ensures
        final(out)@ == old(out)@ + bits_of(v as nat, w as nat).reverse(),
    decreases w,
{
    if w > 0 {
        out.push(v % 2 == 1);
        push_lsb_first(out, v / 2, w - 1);
        proof {
            let b = bits_of(v as nat / 2, (w - 1) as nat);
            lemma_bits_of_len(v as nat / 2, (w - 1) as nat);
            assert(b.push(v % 2 == 1).reverse() =~= seq![v % 2 == 1] + b.reverse());
            assert(old(out)@ + (seq![v % 2 == 1] + b.reverse()) =~= old(out)@.push(v % 2 == 1)
                + b.reverse());
        }
    } else {
        assert(bits_of(v as nat, 0).reverse() =~= Seq::<bool>::empty());
        assert(old(out)@ + Seq::<bool>::empty() =~= old(out)@);
    }
}

} // verus!
