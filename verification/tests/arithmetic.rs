//! The fixed-point scalar, fractions, the clamped signal, and the
//! running-effect set.

use racing_wheel::fixed::{Fixed, FixedFFB, Frac};
use racing_wheel::misc::{DSignal, FixedSet};
use racing_wheel::racing_wheel::RunningEffect;

#[test]
fn fixed_basics() {
    let one = FixedFFB::one();
    assert_eq!(one.value(), 10000);
    assert_eq!(FixedFFB::new(123).value(), 123);
    assert_eq!(FixedFFB::default().value(), 0);
    let half = Fixed::<10000>(5000);
    assert_eq!(half.add(half).value(), 10000);
    assert_eq!(one.sub(half).value(), 5000);
    assert_eq!(half.neg().value(), -5000);
}

#[test]
fn fixed_mul_divides_by_the_unit_once() {
    let half = FixedFFB::new(5000);
    let third = FixedFFB::new(3333);
    assert_eq!(half.mul(half).value(), 2500);
    assert_eq!(half.mul(third).value(), 1666); // truncates toward zero
    assert_eq!(half.neg().mul(third).value(), -1666);
    assert_eq!(half.div(FixedFFB::new(2500)).value(), 20000);
}

#[test]
fn fixed_div_is_exact_on_clean_ratios() {
    let one = FixedFFB::one();
    let half = FixedFFB::new(5000);
    assert_eq!(one.div(half).value(), 20000);
    assert_eq!(half.div(one).value(), 5000);
    assert_eq!(half.neg().div(one).value(), -5000);
}

#[test]
fn fixed_overflow_saturates_to_the_default() {
    // 3.2 * 3.2 = 10.24, beyond the 16-bit range: the sentinel 0
    let big = FixedFFB::new(32000);
    assert_eq!(big.mul(big).value(), 0);
}

#[test]
fn fixed_conversion_rescales() {
    let v = Fixed::<10000>(5000);
    let w: Fixed<100> = v.convert();
    assert_eq!(w.value(), 50);
    let f = v.to_frac(200);
    assert_eq!(f.value(), 100);
    assert_eq!(f.denom(), 200);
    let back: Fixed<10000> = Frac::new(1i16, 2i16).convert();
    assert_eq!(back.value(), 5000);
}

#[test]
fn fixed_min_max_clamp() {
    let a = FixedFFB::new(-3);
    let b = FixedFFB::new(7);
    assert_eq!(a.min(b).value(), -3);
    assert_eq!(a.max(b).value(), 7);
    assert_eq!(FixedFFB::new(50).clamp(a, b).value(), 7);
    assert_eq!(FixedFFB::new(-50).clamp(a, b).value(), -3);
    assert_eq!(FixedFFB::new(5).clamp(a, b).value(), 5);
}

#[test]
fn frac_mul_scales_without_intermediate_rounding() {
    let v = FixedFFB::new(9000);
    assert_eq!(v.mul_frac_u32(Frac::new(1u32, 3u32)).value(), 3000);
    assert_eq!(v.mul_frac_i64(Frac::new(-1i64, 3i64)).value(), -3000);
    assert_eq!(Frac::new(-7i64, 9i64).neg().value(), 7);
}

#[test]
fn dsignal_clamps_and_rescales() {
    let s = DSignal::new(150, 0, 100);
    assert_eq!(s.value(), 100);
    assert_eq!(s.min(), 0);
    assert_eq!(s.max(), 100);
    let t = DSignal::new(50, 0, 100).convert(0, 1000);
    assert_eq!(t.value(), 500);
    let u = DSignal::new(-200, -100, 100).convert(0, 10);
    assert_eq!(u.value(), 0);
}

#[test]
fn fixed_set_deduplicates_by_index() {
    let mut set: FixedSet<4> = FixedSet::new();
    assert!(set.insert(RunningEffect { index: 1, time: 0 }));
    assert!(set.insert(RunningEffect { index: 2, time: 5 }));
    // same index, different time: a duplicate
    assert!(!set.insert(RunningEffect { index: 1, time: 99 }));
    assert_eq!(set.size(), 2);
    assert!(set.contains_index(1));
    assert!(!set.contains_index(3));
}

#[test]
fn fixed_set_respects_capacity() {
    let mut set: FixedSet<2> = FixedSet::new();
    assert!(set.insert(RunningEffect { index: 1, time: 0 }));
    assert!(set.insert(RunningEffect { index: 2, time: 0 }));
    assert!(!set.insert(RunningEffect { index: 3, time: 0 }));
    assert_eq!(set.size(), 2);
}

#[test]
fn fixed_set_remove_reports_like_the_wire() {
    let mut set: FixedSet<4> = FixedSet::new();
    let _ = set.insert(RunningEffect { index: 1, time: 0 });
    let _ = set.insert(RunningEffect { index: 2, time: 0 });
    // removal reports whether the size was kept
    assert!(!set.remove(RunningEffect { index: 1, time: 123 }));
    assert!(set.remove(RunningEffect { index: 9, time: 0 }));
    assert_eq!(set.size(), 1);
    assert_eq!(set.get(0).index, 2);
}
