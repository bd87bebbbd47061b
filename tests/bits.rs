use collectors::bits::{Bits, Endianness, ReadError};

#[test]
fn big_endian_stream_length_is_count_times_width() {
    assert_eq!(Bits::from_u8_big_endian(&[1, 2, 3]).as_vec_bool().len(), 24);
    assert_eq!(Bits::from_u16_big_endian(&[1, 2, 3]).as_vec_bool().len(), 48);
    assert_eq!(Bits::from_u32_big_endian(&[7]).as_vec_bool().len(), 32);
    assert_eq!(Bits::from_u64_big_endian(&[7, 8]).as_vec_bool().len(), 128);
    assert_eq!(Bits::from_u128_big_endian(&[7]).as_vec_bool().len(), 128);
    assert_eq!(Bits::from_i32_big_endian(&[-7, 7]).as_vec_bool().len(), 64);
    assert_eq!(
        Bits::from_usize_big_endian(&[1, 2]).as_vec_bool().len(),
        2 * usize::BITS as usize
    );
    assert_eq!(Bits::from_u8_big_endian(&[]).as_vec_bool().len(), 0);
}

#[test]
fn big_endian_text_form() {
    let bits = Bits::from_u8_big_endian(&[0, 1, 2, 3]);
    assert_eq!(bits.to_string(), "00000000000000010000001000000011");
}

#[test]
fn little_endian_text_form_reverses_each_value() {
    let bits = Bits::from_u8_little_endian(&[0, 1, 2, 3]);
    assert_eq!(bits.to_string(), "00000000100000000100000011000000");
}

#[test]
fn little_endian_single_byte_is_bit_reversed() {
    let bits = Bits::from_u8_little_endian(&[0b0000_0001]);
    assert_eq!(
        bits.as_vec_bool(),
        vec![true, false, false, false, false, false, false, false]
    );
}

#[test]
fn little_endian_reverses_bits_not_bytes() {
    let bits = Bits::from_u16_little_endian(&[0x0102]);
    assert_eq!(bits.to_string(), "0100000010000000");
}

#[test]
fn round_trip_unsigned_big_endian() {
    let data: [u8; 5] = [0, 1, 127, 128, 255];
    let mut bits = Bits::from_u8_big_endian(&data);
    for v in data.iter() {
        assert_eq!(bits.consume_next_unsigned_8_bits(), Ok(*v));
    }
    assert_eq!(bits.consume_next_data_as_u8(1), Err(ReadError::OutOfRange));

    let data16: [u16; 3] = [0xBEEF, 0, 0xFFFF];
    let mut bits = Bits::from_u16_big_endian(&data16);
    for v in data16.iter() {
        assert_eq!(bits.consume_next_unsigned_16_bits(), Ok(*v));
    }

    let data32: [u32; 2] = [0xDEAD_BEEF, 12];
    let mut bits = Bits::from_u32_big_endian(&data32);
    for v in data32.iter() {
        assert_eq!(bits.consume_next_unsigned_32_bits(), Ok(*v));
    }

    let data64: [u64; 2] = [u64::MAX, 0x0123_4567_89AB_CDEF];
    let mut bits = Bits::from_u64_big_endian(&data64);
    for v in data64.iter() {
        assert_eq!(bits.consume_next_unsigned_64_bits(), Ok(*v));
    }

    let data128: [u128; 2] = [u128::MAX, 1 << 100];
    let mut bits = Bits::from_u128_big_endian(&data128);
    for v in data128.iter() {
        assert_eq!(bits.consume_next_unsigned_128_bits(), Ok(*v));
    }

    let datausize: [usize; 2] = [usize::MAX, 42];
    let mut bits = Bits::from_usize_big_endian(&datausize);
    for v in datausize.iter() {
        assert_eq!(
            bits.consume_next_data_as_usize(usize::BITS as usize),
            Ok(*v)
        );
    }
}

#[test]
fn round_trip_little_endian_with_reversed_reads() {
    let data: [u16; 3] = [0x0102, 0x8000, 3];
    let mut bits = Bits::from_u16_little_endian(&data);
    for v in data.iter() {
        assert_eq!(bits.consume_next_unsigned_16_bits_reversed(), Ok(*v));
    }
}

#[test]
fn peek_repeats_and_keeps_the_cursor() {
    let mut bits = Bits::from_u8_big_endian(&[0b1011_0010, 0xFF]);
    let first = bits.peek_next_data_as_u8(4);
    let second = bits.peek_next_data_as_u8(4);
    assert_eq!(first, Ok(0b1011));
    assert_eq!(first, second);
    assert_eq!(bits.peek_next_unsigned_16_bits(), Ok(0b1011_0010_1111_1111));
    assert_eq!(bits.consume_next_data_as_u8(4), Ok(0b1011));
    assert_eq!(bits.peek_next_data_as_u8(4), Ok(0b0010));
    assert_eq!(bits.consume_next_data_as_u16(12), Ok(0b0010_1111_1111));
    assert_eq!(bits.peek_next_data_as_u8(1), Err(ReadError::OutOfRange));
}

#[test]
fn signed_target_refuses_a_leading_one() {
    let mut bits = Bits::from_u8_big_endian(&[0b1000_0000]);
    assert_eq!(bits.peek_next_signed_8_bits(), Err(ReadError::Overflow));
    assert_eq!(bits.peek_next_data_as_i8(8), Err(ReadError::Overflow));
    assert_eq!(bits.consume_next_signed_8_bits(), Err(ReadError::Overflow));
    assert_eq!(bits.peek_next_unsigned_8_bits(), Ok(128));
    assert_eq!(bits.consume_next_unsigned_8_bits(), Ok(128));
}

#[test]
fn signed_targets_read_small_numerals() {
    let mut bits = Bits::from_u8_big_endian(&[0b0111_1111, 0b0000_0001]);
    assert_eq!(bits.peek_next_signed_8_bits(), Ok(127));
    assert_eq!(bits.peek_next_signed_16_bits(), Ok(0x7F01));
    assert_eq!(bits.peek_next_data_as_i32(16), Ok(0x7F01));
    assert_eq!(bits.peek_next_data_as_i64(9), Ok(0b0111_1111_0));
    assert_eq!(bits.peek_next_data_as_i128(3), Ok(3));
    assert_eq!(bits.peek_next_data_as_isize(2), Ok(1));
    assert_eq!(bits.peek_next_signed_8_bits_reversed(), Err(ReadError::Overflow));
    assert_eq!(bits.consume_next_data_as_i8_reversed(7), Ok(126));
    assert_eq!(bits.consume_next_data_as_i16_reversed(9), Ok(0b1_0000_0001));
}

#[test]
fn reversed_read_of_a_slice() {
    let mut bits = Bits::from_u8_big_endian(&[0b0100_0000]);
    assert_eq!(bits.peek_next_data_as_u8(4), Ok(4));
    assert_eq!(bits.peek_next_data_as_u8_reversed(4), Ok(2));
    assert_eq!(bits.peek_next_data_as_u32_reversed(4), Ok(2));
    assert_eq!(bits.consume_next_data_as_u64_reversed(4), Ok(2));
    assert_eq!(bits.peek_next_data_as_u128(4), Ok(0));
}

#[test]
fn consume_past_the_end_is_refused_without_moving() {
    let mut bits = Bits::from_u8_big_endian(&[0b1010_0110]);
    assert_eq!(bits.consume_next_data_as_u8(4), Ok(0b1010));
    assert_eq!(bits.consume_next_data_as_u8(5), Err(ReadError::OutOfRange));
    assert_eq!(bits.consume_next_data_as_u8(4), Ok(0b0110));
    assert_eq!(bits.consume_next_data_as_u8(1), Err(ReadError::OutOfRange));
}

#[test]
fn reading_nothing_is_refused() {
    let mut bits = Bits::from_u8_big_endian(&[0xFF]);
    assert_eq!(bits.peek_next_data_as_u8(0), Err(ReadError::Empty));
    assert_eq!(bits.consume_next_data_as_u16(0), Err(ReadError::Empty));
    assert_eq!(bits.consume_next_unsigned_8_bits(), Ok(0xFF));
}

#[test]
fn empty_stream_refuses_every_read() {
    let mut bits = Bits::from_u32_big_endian(&[]);
    assert_eq!(bits.consume_next_unsigned_8_bits(), Err(ReadError::OutOfRange));
    assert_eq!(bits.peek_next_signed_128_bits(), Err(ReadError::OutOfRange));
    assert_eq!(bits.peek_next_data_as_string(0), Ok(String::new()));
    assert_eq!(bits.peek_next_data_as_string(1), Err(ReadError::OutOfRange));
}

#[test]
fn negative_values_are_written_in_twos_complement() {
    let bits = Bits::from_i8_big_endian(&[-1, -2, 5]);
    assert_eq!(bits.to_string(), "111111111111111000000101");
    let bits = Bits::from_i8_little_endian(&[-2]);
    assert_eq!(bits.to_string(), "01111111");
    let bits = Bits::from_i16_big_endian(&[i16::MIN]);
    assert_eq!(bits.to_string(), "1000000000000000");
    let mut bits = Bits::from_i128_big_endian(&[-1]);
    assert_eq!(bits.peek_next_unsigned_128_bits(), Ok(u128::MAX));
    assert_eq!(bits.consume_next_signed_128_bits(), Err(ReadError::Overflow));
    let mut bits = Bits::from_i64_big_endian(&[i64::MIN]);
    assert_eq!(bits.consume_next_unsigned_64_bits(), Ok(1u64 << 63));
    let mut bits = Bits::from_isize_little_endian(&[-1]);
    assert_eq!(
        bits.consume_next_data_as_usize_reversed(usize::BITS as usize),
        Ok(usize::MAX)
    );
}

#[test]
fn signed_round_trip_of_non_negative_values() {
    let mut bits = Bits::from_i32_big_endian(&[0, 1, i32::MAX]);
    assert_eq!(bits.consume_next_signed_32_bits(), Ok(0));
    assert_eq!(bits.consume_next_signed_32_bits(), Ok(1));
    assert_eq!(bits.consume_next_signed_32_bits(), Ok(i32::MAX));
    let mut bits = Bits::from_i16_little_endian(&[300]);
    assert_eq!(bits.consume_next_signed_16_bits_reversed(), Ok(300));
    let mut bits = Bits::from_i64_little_endian(&[1]);
    assert_eq!(bits.consume_next_signed_64_bits_reversed(), Ok(1));
    let mut bits = Bits::from_i128_little_endian(&[9]);
    assert_eq!(bits.peek_next_signed_128_bits_reversed(), Ok(9));
    let mut bits = Bits::from_isize_big_endian(&[77]);
    assert_eq!(
        bits.peek_next_data_as_isize_reversed(usize::BITS as usize),
        Err(ReadError::Overflow)
    );
    assert_eq!(
        bits.consume_next_data_as_isize(usize::BITS as usize),
        Ok(77)
    );
}

#[test]
fn string_peeks() {
    let mut bits = Bits::from_u8_big_endian(&[0b1100_1010]);
    assert_eq!(bits.peek_next_data_as_string(5), Ok(String::from("11001")));
    assert_eq!(
        bits.peek_next_data_as_string_reversed(5),
        Ok(String::from("10011"))
    );
    assert_eq!(bits.consume_next_data_as_u8(3), Ok(0b110));
    assert_eq!(bits.peek_next_data_as_string(5), Ok(String::from("01010")));
    assert_eq!(bits.peek_next_data_as_string(6), Err(ReadError::OutOfRange));
}

#[test]
fn whole_stream_ignores_the_cursor() {
    let mut bits = Bits::from_u8_big_endian(&[0b1000_0001]);
    assert_eq!(bits.consume_next_data_as_u8(3), Ok(0b100));
    assert_eq!(
        bits.as_vec_bool(),
        vec![true, false, false, false, false, false, false, true]
    );
    assert_eq!(bits.to_string(), "10000001");
}

#[test]
fn value_to_bits() {
    assert_eq!(
        Bits::transform_as_vec_bool(5u8),
        vec![false, false, false, false, false, true, false, true]
    );
    assert_eq!(Bits::transform_as_vec_bool(-1i16), vec![true; 16]);
    assert_eq!(Bits::transform_as_vec_bool(0u64), vec![false; 64]);
    let mut top = vec![false; 128];
    top[0] = true;
    assert_eq!(Bits::transform_as_vec_bool(i128::MIN), top);
    assert_eq!(
        Bits::transform_as_vec_bool(1usize).len(),
        usize::BITS as usize
    );
}

#[test]
fn endianness_is_recorded() {
    let bits = Bits::from_u8_big_endian(&[1]);
    assert_eq!(*bits.endianness(), Endianness::BigEndian);
    let bits = Bits::from_u32_little_endian(&[1]);
    assert_eq!(*bits.endianness(), Endianness::LittleEndian);
}

#[test]
fn generic_read_matches_named_forms() {
    let mut bits = Bits::from_values(&[0x12u8, 0x34u8], Endianness::BigEndian);
    assert_eq!(bits.peek::<u16>(16, false), Ok(0x1234));
    assert_eq!(bits.peek::<u8>(8, true), Ok(0x48));
    assert_eq!(bits.consume::<u8>(4, false), Ok(1));
    assert_eq!(bits.consume::<i8>(8, false), Ok(0x23));
    assert_eq!(bits.consume::<u64>(5, false), Err(ReadError::OutOfRange));
    assert_eq!(bits.consume::<u32>(4, false), Ok(4));
}
