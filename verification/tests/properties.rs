use atomic_bitfield::AtomicBitField;
use quickcheck::quickcheck;
use std::sync::atomic::AtomicI16;
use std::sync::atomic::AtomicI32;
use std::sync::atomic::AtomicI64;
use std::sync::atomic::AtomicI8;
use std::sync::atomic::AtomicIsize;
use std::sync::atomic::AtomicU16;
use std::sync::atomic::AtomicU32;
use std::sync::atomic::AtomicU64;
use std::sync::atomic::AtomicU8;
use std::sync::atomic::AtomicUsize;
use std::sync::atomic::Ordering;

// Sets a bit and swaps the reported value back in: the word must be what it was.
fn flips_back<A, Int>(test_vals: Vec<(Int, u8)>, new: fn(Int) -> A, load: fn(&A) -> Int) -> bool
where
    A: AtomicBitField,
    Int: Copy + PartialEq,
{
    test_vals.iter().all(|&(int, bit)| {
        let aint = new(int);
        let bit = usize::from(bit) % A::bit_len();
        let prev = aint.set_bit(bit, Ordering::Relaxed);
        let set = aint.get_bit(bit, Ordering::Relaxed);
        aint.swap_bit(bit, prev, Ordering::Relaxed);
        set && load(&aint) == int
    })
}

// Toggles a bit twice: the word must be what it was, and differ in between.
fn toggles_back<A, Int>(test_vals: Vec<(Int, u8)>, new: fn(Int) -> A, load: fn(&A) -> Int) -> bool
where
    A: AtomicBitField,
    Int: Copy + PartialEq,
{
    test_vals.iter().all(|&(int, bit)| {
        let aint = new(int);
        let bit = usize::from(bit) % A::bit_len();
        let first = aint.toggle_bit(bit, Ordering::Relaxed);
        let between = load(&aint);
        let second = aint.toggle_bit(bit, Ordering::Relaxed);
        first != second && between != int && load(&aint) == int
    })
}

// Resets a bit: it must read as false, and every other bit as before.
fn resets_one_bit<A, Int>(test_vals: Vec<(Int, u8)>, new: fn(Int) -> A) -> bool
where
    A: AtomicBitField,
    Int: Copy,
{
    test_vals.iter().all(|&(int, bit)| {
        let aint = new(int);
        let bit = usize::from(bit) % A::bit_len();
        let before: Vec<bool> = (0..A::bit_len()).map(|b| aint.get_bit(b, Ordering::Relaxed)).collect();
        let prev = aint.reset_bit(bit, Ordering::Relaxed);
        prev == before[bit]
            && (0..A::bit_len()).all(|b| aint.get_bit(b, Ordering::Relaxed) == (b != bit && before[b]))
    })
}

// Sets a bit: it must read as true, and every other bit as before.
fn sets_one_bit<A, Int>(test_vals: Vec<(Int, u8)>, new: fn(Int) -> A) -> bool
where
    A: AtomicBitField,
    Int: Copy,
{
    test_vals.iter().all(|&(int, bit)| {
        let aint = new(int);
        let bit = usize::from(bit) % A::bit_len();
        let before: Vec<bool> = (0..A::bit_len()).map(|b| aint.get_bit(b, Ordering::Relaxed)).collect();
        let prev = aint.set_bit(bit, Ordering::Relaxed);
        prev == before[bit]
            && (0..A::bit_len()).all(|b| aint.get_bit(b, Ordering::Relaxed) == (b == bit || before[b]))
    })
}

fn flip_u8(test_vals: Vec<(u8, u8)>) -> bool {
    flips_back(test_vals, AtomicU8::new, |a: &AtomicU8| a.load(Ordering::Relaxed))
}

fn toggle_u8(test_vals: Vec<(u8, u8)>) -> bool {
    toggles_back(test_vals, AtomicU8::new, |a: &AtomicU8| a.load(Ordering::Relaxed))
}

fn reset_u8(test_vals: Vec<(u8, u8)>) -> bool {
    resets_one_bit(test_vals, AtomicU8::new)
}

fn set_u8(test_vals: Vec<(u8, u8)>) -> bool {
    sets_one_bit(test_vals, AtomicU8::new)
}

#[test]
fn bit_flip_u8() {
    let prop: fn(Vec<(u8, u8)>) -> bool = flip_u8;
    quickcheck(prop);
}

#[test]
fn bit_toggle_u8() {
    let prop: fn(Vec<(u8, u8)>) -> bool = toggle_u8;
    quickcheck(prop);
}

#[test]
fn bit_reset_u8() {
    let prop: fn(Vec<(u8, u8)>) -> bool = reset_u8;
    quickcheck(prop);
}

#[test]
fn bit_set_u8() {
    let prop: fn(Vec<(u8, u8)>) -> bool = set_u8;
    quickcheck(prop);
}

fn flip_u16(test_vals: Vec<(u16, u8)>) -> bool {
    flips_back(test_vals, AtomicU16::new, |a: &AtomicU16| a.load(Ordering::Relaxed))
}

fn toggle_u16(test_vals: Vec<(u16, u8)>) -> bool {
    toggles_back(test_vals, AtomicU16::new, |a: &AtomicU16| a.load(Ordering::Relaxed))
}

fn reset_u16(test_vals: Vec<(u16, u8)>) -> bool {
    resets_one_bit(test_vals, AtomicU16::new)
}

fn set_u16(test_vals: Vec<(u16, u8)>) -> bool {
    sets_one_bit(test_vals, AtomicU16::new)
}

#[test]
fn bit_flip_u16() {
    let prop: fn(Vec<(u16, u8)>) -> bool = flip_u16;
    quickcheck(prop);
}

#[test]
fn bit_toggle_u16() {
    let prop: fn(Vec<(u16, u8)>) -> bool = toggle_u16;
    quickcheck(prop);
}

#[test]
fn bit_reset_u16() {
    let prop: fn(Vec<(u16, u8)>) -> bool = reset_u16;
    quickcheck(prop);
}

#[test]
fn bit_set_u16() {
    let prop: fn(Vec<(u16, u8)>) -> bool = set_u16;
    quickcheck(prop);
}

fn flip_u32(test_vals: Vec<(u32, u8)>) -> bool {
    flips_back(test_vals, AtomicU32::new, |a: &AtomicU32| a.load(Ordering::Relaxed))
}

fn toggle_u32(test_vals: Vec<(u32, u8)>) -> bool {
    toggles_back(test_vals, AtomicU32::new, |a: &AtomicU32| a.load(Ordering::Relaxed))
}

fn reset_u32(test_vals: Vec<(u32, u8)>) -> bool {
    resets_one_bit(test_vals, AtomicU32::new)
}

fn set_u32(test_vals: Vec<(u32, u8)>) -> bool {
    sets_one_bit(test_vals, AtomicU32::new)
}

#[test]
fn bit_flip_u32() {
    let prop: fn(Vec<(u32, u8)>) -> bool = flip_u32;
    quickcheck(prop);
}

#[test]
fn bit_toggle_u32() {
    let prop: fn(Vec<(u32, u8)>) -> bool = toggle_u32;
    quickcheck(prop);
}

#[test]
fn bit_reset_u32() {
    let prop: fn(Vec<(u32, u8)>) -> bool = reset_u32;
    quickcheck(prop);
}

#[test]
fn bit_set_u32() {
    let prop: fn(Vec<(u32, u8)>) -> bool = set_u32;
    quickcheck(prop);
}

fn flip_u64(test_vals: Vec<(u64, u8)>) -> bool {
    flips_back(test_vals, AtomicU64::new, |a: &AtomicU64| a.load(Ordering::Relaxed))
}

fn toggle_u64(test_vals: Vec<(u64, u8)>) -> bool {
    toggles_back(test_vals, AtomicU64::new, |a: &AtomicU64| a.load(Ordering::Relaxed))
}

fn reset_u64(test_vals: Vec<(u64, u8)>) -> bool {
    resets_one_bit(test_vals, AtomicU64::new)
}

fn set_u64(test_vals: Vec<(u64, u8)>) -> bool {
    sets_one_bit(test_vals, AtomicU64::new)
}

#[test]
fn bit_flip_u64() {
    let prop: fn(Vec<(u64, u8)>) -> bool = flip_u64;
    quickcheck(prop);
}

#[test]
fn bit_toggle_u64() {
    let prop: fn(Vec<(u64, u8)>) -> bool = toggle_u64;
    quickcheck(prop);
}

#[test]
fn bit_reset_u64() {
    let prop: fn(Vec<(u64, u8)>) -> bool = reset_u64;
    quickcheck(prop);
}

#[test]
fn bit_set_u64() {
    let prop: fn(Vec<(u64, u8)>) -> bool = set_u64;
    quickcheck(prop);
}

fn flip_usize(test_vals: Vec<(usize, u8)>) -> bool {
    flips_back(test_vals, AtomicUsize::new, |a: &AtomicUsize| a.load(Ordering::Relaxed))
}

fn toggle_usize(test_vals: Vec<(usize, u8)>) -> bool {
    toggles_back(test_vals, AtomicUsize::new, |a: &AtomicUsize| a.load(Ordering::Relaxed))
}

fn reset_usize(test_vals: Vec<(usize, u8)>) -> bool {
    resets_one_bit(test_vals, AtomicUsize::new)
}

fn set_usize(test_vals: Vec<(usize, u8)>) -> bool {
    sets_one_bit(test_vals, AtomicUsize::new)
}

#[test]
fn bit_flip_usize() {
    let prop: fn(Vec<(usize, u8)>) -> bool = flip_usize;
    quickcheck(prop);
}

#[test]
fn bit_toggle_usize() {
    let prop: fn(Vec<(usize, u8)>) -> bool = toggle_usize;
    quickcheck(prop);
}

#[test]
fn bit_reset_usize() {
    let prop: fn(Vec<(usize, u8)>) -> bool = reset_usize;
    quickcheck(prop);
}

#[test]
fn bit_set_usize() {
    let prop: fn(Vec<(usize, u8)>) -> bool = set_usize;
    quickcheck(prop);
}

fn flip_i8(test_vals: Vec<(i8, u8)>) -> bool {
    flips_back(test_vals, AtomicI8::new, |a: &AtomicI8| a.load(Ordering::Relaxed))
}

fn toggle_i8(test_vals: Vec<(i8, u8)>) -> bool {
    toggles_back(test_vals, AtomicI8::new, |a: &AtomicI8| a.load(Ordering::Relaxed))
}

fn reset_i8(test_vals: Vec<(i8, u8)>) -> bool {
    resets_one_bit(test_vals, AtomicI8::new)
}

fn set_i8(test_vals: Vec<(i8, u8)>) -> bool {
    sets_one_bit(test_vals, AtomicI8::new)
}

#[test]
fn bit_flip_i8() {
    let prop: fn(Vec<(i8, u8)>) -> bool = flip_i8;
    quickcheck(prop);
}

#[test]
fn bit_toggle_i8() {
    let prop: fn(Vec<(i8, u8)>) -> bool = toggle_i8;
    quickcheck(prop);
}

#[test]
fn bit_reset_i8() {
    let prop: fn(Vec<(i8, u8)>) -> bool = reset_i8;
    quickcheck(prop);
}

#[test]
fn bit_set_i8() {
    let prop: fn(Vec<(i8, u8)>) -> bool = set_i8;
    quickcheck(prop);
}

fn flip_i16(test_vals: Vec<(i16, u8)>) -> bool {
    flips_back(test_vals, AtomicI16::new, |a: &AtomicI16| a.load(Ordering::Relaxed))
}

fn toggle_i16(test_vals: Vec<(i16, u8)>) -> bool {
    toggles_back(test_vals, AtomicI16::new, |a: &AtomicI16| a.load(Ordering::Relaxed))
}

fn reset_i16(test_vals: Vec<(i16, u8)>) -> bool {
    resets_one_bit(test_vals, AtomicI16::new)
}

fn set_i16(test_vals: Vec<(i16, u8)>) -> bool {
    sets_one_bit(test_vals, AtomicI16::new)
}

#[test]
fn bit_flip_i16() {
    let prop: fn(Vec<(i16, u8)>) -> bool = flip_i16;
    quickcheck(prop);
}

#[test]
fn bit_toggle_i16() {
    let prop: fn(Vec<(i16, u8)>) -> bool = toggle_i16;
    quickcheck(prop);
}

#[test]
fn bit_reset_i16() {
    let prop: fn(Vec<(i16, u8)>) -> bool = reset_i16;
    quickcheck(prop);
}

#[test]
fn bit_set_i16() {
    let prop: fn(Vec<(i16, u8)>) -> bool = set_i16;
    quickcheck(prop);
}

fn flip_i32(test_vals: Vec<(i32, u8)>) -> bool {
    flips_back(test_vals, AtomicI32::new, |a: &AtomicI32| a.load(Ordering::Relaxed))
}

fn toggle_i32(test_vals: Vec<(i32, u8)>) -> bool {
    toggles_back(test_vals, AtomicI32::new, |a: &AtomicI32| a.load(Ordering::Relaxed))
}

fn reset_i32(test_vals: Vec<(i32, u8)>) -> bool {
    resets_one_bit(test_vals, AtomicI32::new)
}

fn set_i32(test_vals: Vec<(i32, u8)>) -> bool {
    sets_one_bit(test_vals, AtomicI32::new)
}

#[test]
fn bit_flip_i32() {
    let prop: fn(Vec<(i32, u8)>) -> bool = flip_i32;
    quickcheck(prop);
}

#[test]
fn bit_toggle_i32() {
    let prop: fn(Vec<(i32, u8)>) -> bool = toggle_i32;
    quickcheck(prop);
}

#[test]
fn bit_reset_i32() {
    let prop: fn(Vec<(i32, u8)>) -> bool = reset_i32;
    quickcheck(prop);
}

#[test]
fn bit_set_i32() {
    let prop: fn(Vec<(i32, u8)>) -> bool = set_i32;
    quickcheck(prop);
}

fn flip_i64(test_vals: Vec<(i64, u8)>) -> bool {
    flips_back(test_vals, AtomicI64::new, |a: &AtomicI64| a.load(Ordering::Relaxed))
}

fn toggle_i64(test_vals: Vec<(i64, u8)>) -> bool {
    toggles_back(test_vals, AtomicI64::new, |a: &AtomicI64| a.load(Ordering::Relaxed))
}

fn reset_i64(test_vals: Vec<(i64, u8)>) -> bool {
    resets_one_bit(test_vals, AtomicI64::new)
}

fn set_i64(test_vals: Vec<(i64, u8)>) -> bool {
    sets_one_bit(test_vals, AtomicI64::new)
}

#[test]
fn bit_flip_i64() {
    let prop: fn(Vec<(i64, u8)>) -> bool = flip_i64;
    quickcheck(prop);
}

#[test]
fn bit_toggle_i64() {
    let prop: fn(Vec<(i64, u8)>) -> bool = toggle_i64;
    quickcheck(prop);
}

#[test]
fn bit_reset_i64() {
    let prop: fn(Vec<(i64, u8)>) -> bool = reset_i64;
    quickcheck(prop);
}

#[test]
fn bit_set_i64() {
    let prop: fn(Vec<(i64, u8)>) -> bool = set_i64;
    quickcheck(prop);
}

fn flip_isize(test_vals: Vec<(isize, u8)>) -> bool {
    flips_back(test_vals, AtomicIsize::new, |a: &AtomicIsize| a.load(Ordering::Relaxed))
}

fn toggle_isize(test_vals: Vec<(isize, u8)>) -> bool {
    toggles_back(test_vals, AtomicIsize::new, |a: &AtomicIsize| a.load(Ordering::Relaxed))
}

fn reset_isize(test_vals: Vec<(isize, u8)>) -> bool {
    resets_one_bit(test_vals, AtomicIsize::new)
}

fn set_isize(test_vals: Vec<(isize, u8)>) -> bool {
    sets_one_bit(test_vals, AtomicIsize::new)
}

#[test]
fn bit_flip_isize() {
    let prop: fn(Vec<(isize, u8)>) -> bool = flip_isize;
    quickcheck(prop);
}

#[test]
fn bit_toggle_isize() {
    let prop: fn(Vec<(isize, u8)>) -> bool = toggle_isize;
    quickcheck(prop);
}

#[test]
fn bit_reset_isize() {
    let prop: fn(Vec<(isize, u8)>) -> bool = reset_isize;
    quickcheck(prop);
}

#[test]
fn bit_set_isize() {
    let prop: fn(Vec<(isize, u8)>) -> bool = set_isize;
    quickcheck(prop);
}

// The plain computation that an atomic byte is held against.
fn plain_step(word: u8, bit: u8, op: u8) -> (u8, bool) {
    let mask = 1u8 << bit;
    let prev = word & mask != 0;
    match op % 4 {
        0 => (word | mask, prev),
        1 => (word & !mask, prev),
        2 => (word ^ mask, prev),
        _ => (word, prev),
    }
}

fn follows_the_plain_steps(word: u8, steps: Vec<(u8, u8)>) -> bool {
    let aint = AtomicU8::new(word);
    let mut plain = word;
    steps.iter().all(|&(bit, op)| {
        let bit = bit % 8;
        let (next, prev) = plain_step(plain, bit, op);
        plain = next;
        let index = usize::from(bit);
        let reported = match op % 4 {
            0 => aint.set_bit(index, Ordering::Relaxed),
            1 => aint.reset_bit(index, Ordering::Relaxed),
            2 => aint.toggle_bit(index, Ordering::Relaxed),
            _ => aint.get_bit(index, Ordering::Relaxed),
        };
        reported == prev && aint.load(Ordering::Relaxed) == plain
    })
}

#[test]
fn a_byte_follows_the_plain_steps() {
    let prop: fn(u8, Vec<(u8, u8)>) -> bool = follows_the_plain_steps;
    quickcheck(prop);
}

fn swap_assigns(word: u32, bit: u8, value: bool) -> bool {
    let aint = AtomicU32::new(word);
    let index = usize::from(bit % 32);
    let mask = 1u32 << (bit % 32);
    let prev = aint.swap_bit(index, value, Ordering::Relaxed);
    let expected = if value { word | mask } else { word & !mask };
    prev == (word & mask != 0) && aint.load(Ordering::Relaxed) == expected
}

#[test]
fn swap_bit_assigns_the_value() {
    let prop: fn(u32, u8, bool) -> bool = swap_assigns;
    quickcheck(prop);
}
