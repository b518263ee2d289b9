use monotonic_clock::monotonic_stm32l0::{Duration, Instant, Tim6Monotonic, U16Ext, CORE_CLOCK, PRESCALER};
use std::cmp::Ordering;
use std::convert::TryInto;

#[test]
fn tick_is_2048_core_clock_cycles() {
    assert_eq!(CORE_CLOCK, 16_000_000);
    assert_eq!(PRESCALER, 2048);
    let r = Tim6Monotonic::ratio();
    assert_eq!(r.numerator, 2048);
    assert_eq!(r.denominator, 1);
}

#[test]
fn half_second_is_3906_ticks() {
    assert_eq!(500u16.millis().as_ticks(), 3906);
    assert_eq!(500u16.millis(), Duration::from_ticks(3906));
}

#[test]
fn zero_millis_is_zero_ticks() {
    assert_eq!(0u16.millis(), Duration::from_ticks(0));
    assert_eq!(0u16.secs().as_ticks(), 0);
    assert_eq!(0u16.micros().as_ticks(), 0);
}

#[test]
fn millis_truncate_fractional_ticks() {
    // 7.8125 ticks per millisecond, rounded down
    assert_eq!(1u16.millis().as_ticks(), 7);
    assert_eq!(3u16.millis().as_ticks(), 23);
    assert_eq!(128u16.millis().as_ticks(), 1000);
    assert_eq!(8388u16.millis().as_ticks(), 65531);
}

#[test]
fn secs_and_micros() {
    assert_eq!(1u16.secs().as_ticks(), 7812);
    assert_eq!(2u16.secs().as_ticks(), 15625);
    assert_eq!(8u16.secs().as_ticks(), 62500);
    assert_eq!(1000u16.micros().as_ticks(), 7);
    assert_eq!(127u16.micros().as_ticks(), 0);
    assert_eq!(128u16.micros().as_ticks(), 1);
    assert_eq!(65535u16.micros().as_ticks(), 511);
}

#[test]
fn instant_at_max_count_wraps_to_zero() {
    let max = Instant::from_counts(u16::MAX);
    assert_eq!(max.counts(), 65535);
    let next = max + Duration::from_ticks(1);
    assert_eq!(next.counts(), 0);
    assert_eq!(next, Tim6Monotonic::zero());
}

#[test]
fn adding_in_steps_equals_adding_the_sum() {
    let now = Instant::from_counts(60000);
    let d1 = Duration::from_ticks(4000);
    let d2 = Duration::from_ticks(3000);
    let stepwise = (now + d1) + d2;
    let at_once = now + (d1 + d2);
    assert_eq!(stepwise, at_once);
    assert_eq!(at_once.counts(), 1464);
}

#[test]
fn difference_added_back_gives_the_later_instant() {
    let a = Instant::from_counts(100);
    let b = Instant::from_counts(65000);
    let d = a - b;
    assert_eq!(d.as_ticks(), 636);
    assert_eq!(b + d, a);
    assert_eq!(a - d, b);
    assert_eq!(a.duration_since(b), d);
    assert_eq!(b.elapsed(a), d);
}

#[test]
fn comparison_is_circular() {
    let before_wrap = Instant::from_counts(0xFFF0);
    let after_wrap = Instant::from_counts(0x0010);
    assert_eq!(before_wrap.cmp(&after_wrap), Ordering::Less);
    assert_eq!(after_wrap.cmp(&before_wrap), Ordering::Greater);
    assert_eq!(after_wrap.cmp(&after_wrap), Ordering::Equal);
    assert!(before_wrap < after_wrap);
    assert!(after_wrap > before_wrap);
    assert_eq!(before_wrap.partial_cmp(&after_wrap), Some(Ordering::Less));
}

#[test]
fn comparison_at_half_range_reads_backwards() {
    let a = Instant::from_counts(0);
    let b = Instant::from_counts(0x8000);
    assert_eq!(a.cmp(&b), Ordering::Less);
    assert_eq!(b.cmp(&a), Ordering::Less);
    let c = Instant::from_counts(0x7FFF);
    assert_eq!(c.cmp(&a), Ordering::Greater);
    assert_eq!(a.cmp(&c), Ordering::Less);
}

#[test]
fn instant_minus_duration_wraps_below_zero() {
    let t = Instant::from_counts(5) - Duration::from_ticks(10);
    assert_eq!(t.counts(), 65531);
    let mut u = Instant::from_counts(65531);
    u += Duration::from_ticks(10);
    assert_eq!(u.counts(), 5);
    u -= Duration::from_ticks(6);
    assert_eq!(u.counts(), 65535);
}

#[test]
fn duration_arithmetic() {
    let a = Duration::from_ticks(1200);
    let b = Duration::from_ticks(200);
    assert_eq!((a + b).as_ticks(), 1400);
    assert_eq!((a - b).as_ticks(), 1000);
    assert_eq!((a * 3).as_ticks(), 3600);
    let mut c = a;
    c += b;
    assert_eq!(c.as_ticks(), 1400);
    c -= a;
    assert_eq!(c.as_ticks(), 200);
    c *= 7;
    assert_eq!(c.as_ticks(), 1400);
    assert!(b < a);
    assert_eq!(Duration::default().as_ticks(), 0);
}

#[test]
fn duration_widens_to_u32() {
    let d = Duration::from_ticks(40000);
    assert_eq!(u32::from(d), 40000);
    let t: Result<u32, _> = d.try_into();
    assert_eq!(t, Ok(40000));
}

#[test]
fn counts_round_trip() {
    for c in [0u16, 1, 0x7FFF, 0x8000, 0xFFFE, 0xFFFF] {
        assert_eq!(Instant::from_counts(c).counts(), c);
    }
    assert_eq!(Tim6Monotonic::zero().counts(), 0);
}
