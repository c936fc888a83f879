use flywheel::math::numeric::Numeric;
use flywheel::math::power::{is_power_of_two, next_power_of_two};

#[test]
fn zero_is_zero() {
    assert_eq!(<i8 as Numeric>::zero(), 0);
    assert_eq!(<i16 as Numeric>::zero(), 0);
    assert_eq!(<i32 as Numeric>::zero(), 0);
    assert_eq!(<i64 as Numeric>::zero(), 0);
    assert_eq!(<isize as Numeric>::zero(), 0);
    assert_eq!(<u8 as Numeric>::zero(), 0);
    assert_eq!(<u16 as Numeric>::zero(), 0);
    assert_eq!(<u32 as Numeric>::zero(), 0);
    assert_eq!(<u64 as Numeric>::zero(), 0);
    assert_eq!(<usize as Numeric>::zero(), 0);
}

#[test]
fn arithmetic_inside_the_window_is_plain() {
    assert_eq!(3i32.plus(4), 7);
    assert_eq!(3i32.minus(4), -1);
    assert_eq!(3i32.times(-4), -12);
    assert_eq!(3u64.plus(4), 7);
    assert_eq!(9u64.minus(4), 5);
    assert_eq!(3u64.times(4), 12);
    assert_eq!(5isize.times(-5), -25);
    assert_eq!(5usize.times(5), 25);
}

#[test]
fn unsigned_arithmetic_wraps() {
    assert_eq!(200u8.plus(100), 44);
    assert_eq!(3u8.minus(5), 254);
    assert_eq!(200u8.times(2), 144);
    assert_eq!(u16::MAX.plus(1), 0);
    assert_eq!(0u16.minus(1), u16::MAX);
    assert_eq!(u32::MAX.times(u32::MAX), 1);
    assert_eq!(u64::MAX.plus(2), 1);
    assert_eq!(0usize.minus(1), usize::MAX);
    assert_eq!(usize::MAX.times(2), usize::MAX - 1);
}

#[test]
fn signed_arithmetic_wraps() {
    assert_eq!(100i8.plus(100), -56);
    assert_eq!((-100i8).minus(100), 56);
    assert_eq!(100i8.times(3), 44);
    assert_eq!(i8::MIN.times(-1), i8::MIN);
    assert_eq!(i16::MAX.plus(1), i16::MIN);
    assert_eq!(i32::MIN.minus(1), i32::MAX);
    assert_eq!(i32::MAX.times(2), -2);
    assert_eq!(i64::MAX.plus(1), i64::MIN);
    assert_eq!(i64::MIN.times(i64::MIN), 0);
    assert_eq!(isize::MAX.plus(1), isize::MIN);
    assert_eq!(isize::MIN.minus(1), isize::MAX);
}

#[test]
fn accumulate_adds_in_place() {
    let mut x = 5i32;
    x.accumulate(7);
    assert_eq!(x, 12);
    let mut y = 250u8;
    y.accumulate(10);
    assert_eq!(y, 4);
    let mut z = i64::MAX;
    z.accumulate(1);
    assert_eq!(z, i64::MIN);
}

#[test]
fn powers_of_two_are_recognised() {
    assert!(!is_power_of_two(0));
    assert!(is_power_of_two(1));
    assert!(is_power_of_two(2));
    assert!(!is_power_of_two(3));
    assert!(is_power_of_two(4));
    assert!(!is_power_of_two(6));
    assert!(is_power_of_two(256));
    assert!(!is_power_of_two(257));
    assert!(is_power_of_two(1usize << (usize::BITS - 1)));
    assert!(!is_power_of_two(usize::MAX));
}

#[test]
fn rounding_up_to_a_power_of_two() {
    assert_eq!(next_power_of_two(0), 1);
    assert_eq!(next_power_of_two(1), 1);
    assert_eq!(next_power_of_two(2), 2);
    assert_eq!(next_power_of_two(3), 4);
    assert_eq!(next_power_of_two(4), 4);
    assert_eq!(next_power_of_two(5), 8);
    assert_eq!(next_power_of_two(256), 256);
    assert_eq!(next_power_of_two(257), 512);
    assert_eq!(next_power_of_two(16777217), 33554432);
}
