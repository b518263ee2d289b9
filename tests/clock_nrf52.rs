use monotonic_clock::monotonic_nrf52::{Duration, Instant, Tim1, U32Ext};
use std::cmp::Ordering;
use std::convert::TryInto;

#[test]
fn timer_ratio_is_64_system_cycles_per_tick() {
    let r = Tim1::ratio();
    assert_eq!(r.numerator, 64);
    assert_eq!(r.denominator, 1);
    assert_eq!(Tim1::zero().counts(), 0);
}

#[test]
fn unit_conversions_at_one_megahertz() {
    assert_eq!(7u32.micros().as_cycles(), 7);
    assert_eq!(2000u32.millis().as_cycles(), 2_000_000);
    assert_eq!(3u32.secs().as_cycles(), 3_000_000);
    assert_eq!(0u32.millis().as_cycles(), 0);
    assert_eq!(4294u32.secs().as_cycles(), 4_294_000_000);
    assert_eq!(4_294_967u32.millis().as_cycles(), 4_294_967_000);
    assert_eq!(67_108_863u32.micros().as_cycles(), 67_108_863);
    assert_eq!(67_108_864u32.micros().as_cycles(), 67_108_864);
    assert_eq!(u32::MAX.micros().as_cycles(), u32::MAX);
}

#[test]
fn instant_at_max_count_wraps_to_zero_32() {
    let max = Instant::from_counts(u32::MAX);
    let next = max + Duration::from_cycles(1);
    assert_eq!(next.counts(), 0);
    assert_eq!(next, Tim1::zero());
}

#[test]
fn adding_in_steps_equals_adding_the_sum_32() {
    let now = Instant::from_counts(0xFFFF_0000);
    let d1 = Duration::from_cycles(0x0001_0000);
    let d2 = Duration::from_cycles(0x0000_0042);
    assert_eq!((now + d1) + d2, now + (d1 + d2));
    assert_eq!((now + d1 + d2).counts(), 0x42);
}

#[test]
fn difference_added_back_gives_the_later_instant_32() {
    let a = Instant::from_counts(10);
    let b = Instant::from_counts(u32::MAX - 9);
    let d = a - b;
    assert_eq!(d.as_cycles(), 20);
    assert_eq!(b + d, a);
    assert_eq!(a - d, b);
    assert_eq!(b.elapsed(a).as_cycles(), 20);
    assert_eq!(a.duration_since(a).as_cycles(), 0);
}

#[test]
fn comparison_is_circular_32() {
    let before_wrap = Instant::from_counts(u32::MAX);
    let after_wrap = Instant::from_counts(1);
    assert_eq!(before_wrap.cmp(&after_wrap), Ordering::Less);
    assert_eq!(after_wrap.cmp(&before_wrap), Ordering::Greater);
    assert!(before_wrap < after_wrap);
    let far = Instant::from_counts(0x8000_0000);
    assert_eq!(Instant::from_counts(0).cmp(&far), Ordering::Less);
    assert_eq!(far.cmp(&Instant::from_counts(0)), Ordering::Less);
}

#[test]
fn duration_arithmetic_32() {
    let a = Duration::from_cycles(3_000_000);
    let b = Duration::from_cycles(1_000_000);
    assert_eq!((a + b).as_cycles(), 4_000_000);
    assert_eq!((a - b).as_cycles(), 2_000_000);
    assert_eq!((b * 1000).as_cycles(), 1_000_000_000);
    let mut c = b;
    c += a;
    c -= b;
    c *= 2;
    assert_eq!(c.as_cycles(), 6_000_000);
    assert!(b < a);
    assert_eq!(Duration::default(), Duration::from_cycles(0));
    let t: Result<u32, _> = a.try_into();
    assert_eq!(t, Ok(3_000_000));
}

#[test]
fn instant_minus_duration_wraps_32() {
    let mut t = Instant::from_counts(3);
    t -= Duration::from_cycles(5);
    assert_eq!(t.counts(), u32::MAX - 1);
    t += Duration::from_cycles(2);
    assert_eq!(t.counts(), 0);
    assert_eq!((t - Duration::from_cycles(1)).counts(), u32::MAX);
}
