use atomic_bitfield::field::index_in_range;
use atomic_bitfield::AtomicBitField;
use atomic_bitfield::BitWord;
use std::mem::size_of;
use std::sync::atomic::AtomicI16;
use std::sync::atomic::AtomicI32;
use std::sync::atomic::AtomicI64;
use std::sync::atomic::AtomicI8;
use std::sync::atomic::AtomicIsize;
use std::sync::atomic::AtomicU16;
use std::sync::atomic::AtomicU32;
use std::sync::atomic::AtomicU64;
use std::sync::atomic::AtomicU8;
use std::sync::atomic::AtomicUsize;

#[test]
fn test_bit_len() {
    assert_eq!(AtomicU8::bit_len(), 8);
    assert_eq!(AtomicU16::bit_len(), 16);
    assert_eq!(AtomicU32::bit_len(), 32);
    assert_eq!(AtomicUsize::bit_len(), 8 * size_of::<usize>());

    assert_eq!(AtomicI8::bit_len(), 8);
    assert_eq!(AtomicI16::bit_len(), 16);
    assert_eq!(AtomicI32::bit_len(), 32);
    assert_eq!(AtomicIsize::bit_len(), 8 * size_of::<isize>());
}

#[test]
fn bit_len_of_the_64_bit_atomics() {
    assert_eq!(AtomicU64::bit_len(), 64);
    assert_eq!(AtomicI64::bit_len(), 64);
}

#[test]
fn bit_len_is_eight_times_the_size_of_the_atomic() {
    assert_eq!(AtomicU8::bit_len(), 8 * size_of::<AtomicU8>());
    assert_eq!(AtomicU16::bit_len(), 8 * size_of::<AtomicU16>());
    assert_eq!(AtomicU32::bit_len(), 8 * size_of::<AtomicU32>());
    assert_eq!(AtomicU64::bit_len(), 8 * size_of::<AtomicU64>());
    assert_eq!(AtomicUsize::bit_len(), 8 * size_of::<AtomicUsize>());
    assert_eq!(AtomicI8::bit_len(), 8 * size_of::<AtomicI8>());
    assert_eq!(AtomicI16::bit_len(), 8 * size_of::<AtomicI16>());
    assert_eq!(AtomicI32::bit_len(), 8 * size_of::<AtomicI32>());
    assert_eq!(AtomicI64::bit_len(), 8 * size_of::<AtomicI64>());
    assert_eq!(AtomicIsize::bit_len(), 8 * size_of::<AtomicIsize>());
}

#[test]
fn bit_len_of_a_pointer_sized_atomic_is_the_pointer_width() {
    let bits = usize::try_from(usize::BITS).unwrap();
    assert_eq!(AtomicUsize::bit_len(), bits);
    assert_eq!(AtomicIsize::bit_len(), bits);
}

#[test]
fn bit_count_of_every_word() {
    assert_eq!(u8::bit_count(), 8);
    assert_eq!(u16::bit_count(), 16);
    assert_eq!(u32::bit_count(), 32);
    assert_eq!(u64::bit_count(), 64);
    assert_eq!(usize::bit_count(), 8 * size_of::<usize>());
    assert_eq!(i8::bit_count(), 8);
    assert_eq!(i16::bit_count(), 16);
    assert_eq!(i32::bit_count(), 32);
    assert_eq!(i64::bit_count(), 64);
    assert_eq!(isize::bit_count(), 8 * size_of::<isize>());
}

#[test]
fn an_index_is_in_range_below_bit_len() {
    assert!(index_in_range::<AtomicU8>(0));
    assert!(index_in_range::<AtomicU8>(7));
    assert!(!index_in_range::<AtomicU8>(8));
    assert!(!index_in_range::<AtomicU8>(9));
    assert!(index_in_range::<AtomicI16>(15));
    assert!(!index_in_range::<AtomicI16>(16));
    assert!(index_in_range::<AtomicU32>(31));
    assert!(!index_in_range::<AtomicU32>(32));
    assert!(index_in_range::<AtomicI64>(63));
    assert!(!index_in_range::<AtomicI64>(64));
    assert!(!index_in_range::<AtomicU64>(usize::MAX));
}

#[test]
fn bit_len_is_the_first_index_out_of_range() {
    assert!(!index_in_range::<AtomicU8>(AtomicU8::bit_len()));
    assert!(!index_in_range::<AtomicU16>(AtomicU16::bit_len()));
    assert!(!index_in_range::<AtomicU32>(AtomicU32::bit_len()));
    assert!(!index_in_range::<AtomicU64>(AtomicU64::bit_len()));
    assert!(!index_in_range::<AtomicUsize>(AtomicUsize::bit_len()));
    assert!(!index_in_range::<AtomicI8>(AtomicI8::bit_len()));
    assert!(!index_in_range::<AtomicI16>(AtomicI16::bit_len()));
    assert!(!index_in_range::<AtomicI32>(AtomicI32::bit_len()));
    assert!(!index_in_range::<AtomicI64>(AtomicI64::bit_len()));
    assert!(!index_in_range::<AtomicIsize>(AtomicIsize::bit_len()));
    assert!(index_in_range::<AtomicUsize>(AtomicUsize::bit_len() - 1));
    assert!(index_in_range::<AtomicIsize>(AtomicIsize::bit_len() - 1));
}
