use atomic_bitfield::BitWord;

#[test]
fn set_mask_is_one_shifted_left() {
    assert_eq!(u8::set_mask(0), 0b0000_0001);
    assert_eq!(u8::set_mask(3), 0b0000_1000);
    assert_eq!(u8::set_mask(7), 0b1000_0000);
    assert_eq!(u16::set_mask(15), 0x8000);
    assert_eq!(u32::set_mask(31), 0x8000_0000);
    assert_eq!(u64::set_mask(63), 0x8000_0000_0000_0000);
    assert_eq!(usize::set_mask(usize::bit_count() - 1), usize::MAX - usize::MAX / 2);
    assert_eq!(usize::set_mask(5), 32);
}

#[test]
fn set_mask_of_a_signed_word_is_a_bit_pattern() {
    assert_eq!(i8::set_mask(0), 1);
    assert_eq!(i8::set_mask(6), 64);
    assert_eq!(i8::set_mask(7), i8::MIN);
    assert_eq!(i16::set_mask(15), i16::MIN);
    assert_eq!(i32::set_mask(31), i32::MIN);
    assert_eq!(i64::set_mask(63), i64::MIN);
    assert_eq!(isize::set_mask(isize::bit_count() - 1), isize::MIN);
    assert_eq!(isize::set_mask(4), 16);
}

#[test]
fn reset_mask_is_the_complement() {
    assert_eq!(u8::reset_mask(0), 0b1111_1110);
    assert_eq!(u8::reset_mask(3), 0b1111_0111);
    assert_eq!(u8::reset_mask(7), 0b0111_1111);
    assert_eq!(u16::reset_mask(15), 0x7fff);
    assert_eq!(u32::reset_mask(0), 0xffff_fffe);
    assert_eq!(u64::reset_mask(63), 0x7fff_ffff_ffff_ffff);
    assert_eq!(usize::reset_mask(usize::bit_count() - 1), usize::MAX / 2);
    assert_eq!(i8::reset_mask(0), -2);
    assert_eq!(i8::reset_mask(7), i8::MAX);
    assert_eq!(i16::reset_mask(15), i16::MAX);
    assert_eq!(i32::reset_mask(31), i32::MAX);
    assert_eq!(i64::reset_mask(63), i64::MAX);
    assert_eq!(isize::reset_mask(isize::bit_count() - 1), isize::MAX);
}

#[test]
fn masks_of_one_bit_are_complements() {
    for bit in 0..8 {
        assert_eq!(u8::set_mask(bit) | u8::reset_mask(bit), u8::MAX);
        assert_eq!(u8::set_mask(bit) & u8::reset_mask(bit), 0);
    }
    for bit in 0..64 {
        assert_eq!(i64::set_mask(bit) | i64::reset_mask(bit), -1);
        assert_eq!(i64::set_mask(bit) & i64::reset_mask(bit), 0);
    }
}

#[test]
fn has_bit_reads_the_flag() {
    assert_eq!(0b0010_0100u8.has_bit(2), true);
    assert_eq!(0b0010_0100u8.has_bit(5), true);
    assert_eq!(0b0010_0100u8.has_bit(0), false);
    assert_eq!(0b0010_0100u8.has_bit(7), false);
    assert_eq!(0x8000u16.has_bit(15), true);
    assert_eq!(0x7fffu16.has_bit(15), false);
    assert_eq!(1u32.has_bit(0), true);
    assert_eq!(1u32.has_bit(31), false);
    assert_eq!(u64::MAX.has_bit(63), true);
    assert_eq!(usize::MAX.has_bit(usize::bit_count() - 1), true);
    assert_eq!((usize::MAX / 2).has_bit(usize::bit_count() - 1), false);
    assert_eq!((-1i8).has_bit(7), true);
    assert_eq!(i8::MAX.has_bit(7), false);
    assert_eq!(i16::MIN.has_bit(15), true);
    assert_eq!(i16::MIN.has_bit(14), false);
    assert_eq!((-2i32).has_bit(0), false);
    assert_eq!((-2i32).has_bit(31), true);
    assert_eq!(i64::MIN.has_bit(63), true);
    assert_eq!(isize::MIN.has_bit(isize::bit_count() - 1), true);
    assert_eq!(isize::MAX.has_bit(isize::bit_count() - 1), false);
}

#[test]
fn extract_bit_reads_the_flag_u8() {
    assert_eq!(0b0010_0100u8.extract_bit(2), true);
    assert_eq!(0b0010_0100u8.extract_bit(3), false);
    assert_eq!(0x80u8.extract_bit(7), true);
    assert_eq!(0x7fu8.extract_bit(7), false);
}

#[test]
fn extract_bit_reads_the_flag_u16() {
    assert_eq!(0x8000u16.extract_bit(15), true);
    assert_eq!(0x8000u16.extract_bit(0), false);
    assert_eq!(0x0100u16.extract_bit(8), true);
}

#[test]
fn extract_bit_reads_the_flag_u32() {
    assert_eq!(0x8000_0000u32.extract_bit(31), true);
    assert_eq!(0x8000_0000u32.extract_bit(30), false);
    assert_eq!(0x0001_0000u32.extract_bit(16), true);
}

#[test]
fn extract_bit_reads_the_flag_u64() {
    assert_eq!(0x8000_0000_0000_0000u64.extract_bit(63), true);
    assert_eq!(0x8000_0000_0000_0000u64.extract_bit(62), false);
    assert_eq!(0x0000_0001_0000_0000u64.extract_bit(32), true);
}

#[test]
fn extract_bit_reads_the_flag_usize() {
    let top = usize::bit_count() - 1;
    assert_eq!((usize::MAX - usize::MAX / 2).extract_bit(top), true);
    assert_eq!((usize::MAX / 2).extract_bit(top), false);
    assert_eq!(2usize.extract_bit(1), true);
    assert_eq!(2usize.extract_bit(0), false);
}

#[test]
fn extract_bit_reads_the_flag_i8() {
    assert_eq!(i8::MIN.extract_bit(7), true);
    assert_eq!(i8::MIN.extract_bit(6), false);
    assert_eq!((-1i8).extract_bit(3), true);
    assert_eq!(5i8.extract_bit(1), false);
}

#[test]
fn extract_bit_reads_the_flag_i16() {
    assert_eq!(i16::MIN.extract_bit(15), true);
    assert_eq!(i16::MAX.extract_bit(15), false);
    assert_eq!(i16::MAX.extract_bit(14), true);
}

#[test]
fn extract_bit_reads_the_flag_i32() {
    assert_eq!(i32::MIN.extract_bit(31), true);
    assert_eq!(i32::MAX.extract_bit(31), false);
    assert_eq!((-2i32).extract_bit(0), false);
}

#[test]
fn extract_bit_reads_the_flag_i64() {
    assert_eq!(i64::MIN.extract_bit(63), true);
    assert_eq!(i64::MAX.extract_bit(63), false);
    assert_eq!((-1i64).extract_bit(40), true);
}

#[test]
fn extract_bit_reads_the_flag_isize() {
    let top = isize::bit_count() - 1;
    assert_eq!(isize::MIN.extract_bit(top), true);
    assert_eq!(isize::MAX.extract_bit(top), false);
    assert_eq!(4isize.extract_bit(2), true);
}

#[test]
fn has_bit_and_extract_bit_agree() {
    for word in [0u8, 1, 0x55, 0xaa, 0xff, 0x80] {
        for bit in 0..8 {
            assert_eq!(word.has_bit(bit), word.extract_bit(bit));
        }
    }
    for word in [0i16, -1, i16::MIN, i16::MAX, 0x1234] {
        for bit in 0..16 {
            assert_eq!(word.has_bit(bit), word.extract_bit(bit));
        }
    }
}
