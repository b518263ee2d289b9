//! A 16 bit monotonic clock on the STM32L0's TIM6 counter.
//!
//! The core clock runs at 16 MHz and the counter's prescaler divides it by
//! 2048, so one tick lasts 128 µs (7812.5 ticks per second). The counter
//! wraps every 2^16 ticks (about 8.39 s); instants can be compared and
//! subtracted only within half of that, so tasks can safely be scheduled
//! about 4.19 s into the future.
use crate::Fraction;
use core::cmp::Ordering;
use core::ops::{AddAssign, MulAssign, SubAssign};
use vstd::prelude::*;
use vstd::std_specs::ops::{AddSpec, SubSpec};

verus! {

/// Frequency of the core clock, in Hz.
pub const CORE_CLOCK: u32 = 16_000_000;

/// Division factor between the core clock and the counter.
pub const PRESCALER: u32 = 2048;

/// Number of distinct counter values.
pub open spec fn period() -> int {
    0x1_0000
}

/// Half the counter's period: the width of the window in which two instants
/// can be compared, and the bound on a `Duration` added to an `Instant`.
pub open spec fn half_period() -> int {
    0x8000
}

/// Reduces `x` into the counter's range `[0, period())`.
pub open spec fn wrap(x: int) -> int {
    x % period()
}

/// Circular difference `a - b` of two counter values, in
/// `[-half_period(), half_period())`.
pub open spec fn offset(a: int, b: int) -> int {
    if wrap(a - b) < half_period() {
        wrap(a - b)
    } else {
        wrap(a - b) - period()
    }
}

/// Wrap-aware ordering of two counter values: the sign of their circular
/// difference.
pub open spec fn circular_cmp(a: int, b: int) -> Ordering {
    if offset(a, b) < 0 {
        Ordering::Less
    } else if offset(a, b) == 0 {
        Ordering::Equal
    } else {
        Ordering::Greater
    }
}

proof fn lemma_signed_as_unsigned(x: i16)
    ensures
        x as u16 == wrap(x as int),
{
    assert(x >= 0 ==> x as u16 == x as int) by (bit_vector);
    assert(x < 0 ==> x as u16 == x as int + 0x1_0000) by (bit_vector);
}

proof fn lemma_unsigned_as_signed(x: u16)
    ensures
        wrap((x as i16) as int) == x as int,
        x < 0x8000 ==> x as i16 == x as int,
{
    assert(x < 0x8000 ==> x as i16 == x as int) by (bit_vector);
    assert(x >= 0x8000 ==> x as i16 == x as int - 0x1_0000) by (bit_vector);
}

/// A signed 16 bit value is the circular difference of any two counter
/// values whose difference it equals modulo the period.
proof fn lemma_offset_unique(d: int, a: int, b: int)
    requires
        -half_period() <= d < half_period(),
        wrap(d) == wrap(a - b),
    ensures
        d == offset(a, b),
{
}

/// A measurement of the counter. Opaque and useful only with `Duration`.
///
/// Adding or subtracting a `Duration` of `half_period()` ticks or more makes
/// the result wrap around into an instant that compares wrongly; the same
/// holds when it is done in steps, e.g. `(instant + dur) + dur` where `dur`
/// is `half_period() / 2` ticks.
#[derive(Clone, Copy, Debug, PartialEq, Eq, Structural)]
pub struct Instant {
    inner: i16,
}

impl View for Instant {
    type V = int;

    /// The counter value, in `[0, period())`.
    closed spec fn view(&self) -> int {
        wrap(self.inner as int)
    }
}

/// Two instants are the same exactly when their counter values are; a
/// counter value lies in `[0, period())`.
pub proof fn lemma_instant_view(a: Instant, b: Instant)
    ensures
        0 <= a@ < period(),
        a@ == b@ <==> a == b,
{
}

impl Instant {
    /// The instant at which the counter reads `counts`.
    pub fn from_counts(counts: u16) -> (r: Instant)
        ensures
            r@ == counts,
    {
        proof { lemma_unsigned_as_signed(counts); }
        Instant { inner: counts as i16 }
    }

    /// Returns the amount of time elapsed from this instant until `now`.
    pub fn elapsed(&self, now: Instant) -> (r: Duration)
        requires
            offset(now@, self@) >= 0,
        ensures
            r@ == offset(now@, self@),
            r@ == wrap(now@ - self@),
    {
        now - *self
    }

    /// Returns the underlying count.
    pub fn counts(&self) -> (r: u16)
        ensures
            r == self@,
    {
        proof { lemma_signed_as_unsigned(self.inner); }
        self.inner as u16
    }

    /// Returns the amount of time elapsed from another instant to this one.
    pub fn duration_since(&self, earlier: Instant) -> (r: Duration)
        requires
            offset(self@, earlier@) >= 0,
        ensures
            r@ == offset(self@, earlier@),
            r@ == wrap(self@ - earlier@),
    {
        let diff = self.inner.wrapping_sub(earlier.inner);
        proof { lemma_offset_unique(diff as int, self@, earlier@); }
        Duration { inner: diff as u16 }
    }

    /// Wrap-aware comparison: the sign of the circular difference.
    pub fn cmp(&self, rhs: &Instant) -> (r: Ordering)
        ensures
            r == circular_cmp(self@, rhs@),
    {
        let diff = self.inner.wrapping_sub(rhs.inner);
        proof { lemma_offset_unique(diff as int, self@, rhs@); }
        diff.cmp(&0)
    }
}

impl PartialOrd for Instant {
    fn partial_cmp(&self, rhs: &Instant) -> (r: Option<Ordering>)
        ensures
            r == Some(circular_cmp(self@, rhs@)),
    {
        Some(self.cmp(rhs))
    }
}

impl vstd::std_specs::cmp::PartialOrdSpecImpl for Instant {
    open spec fn obeys_partial_cmp_spec() -> bool {
        true
    }

    open spec fn partial_cmp_spec(&self, rhs: &Instant) -> Option<Ordering> {
        Some(circular_cmp(self@, rhs@))
    }
}

impl AddAssign<Duration> for Instant {
    fn add_assign(&mut self, dur: Duration)
        requires
            dur@ < half_period(),
        ensures
            final(self)@ == wrap(old(self)@ + dur@),
    {
        proof { lemma_unsigned_as_signed(dur.inner); }
        self.inner = self.inner.wrapping_add(dur.inner as i16);
    }
}

impl core::ops::Add<Duration> for Instant {
    type Output = Instant;

    fn add(self, dur: Duration) -> (r: Instant)
        ensures
            r@ == wrap(self@ + dur@),
    {
        let mut r = self;
        r.add_assign(dur);
        r
    }
}

impl vstd::std_specs::ops::AddSpecImpl<Duration> for Instant {
    open spec fn obeys_add_spec() -> bool {
        true
    }

    open spec fn add_req(self, dur: Duration) -> bool {
        dur@ < half_period()
    }

    closed spec fn add_spec(self, dur: Duration) -> Instant {
        Instant { inner: self.inner.wrapping_add(dur.inner as i16) }
    }
}

impl SubAssign<Duration> for Instant {
    fn sub_assign(&mut self, dur: Duration)
        requires
            dur@ < half_period(),
        ensures
            final(self)@ == wrap(old(self)@ - dur@),
    {
        proof { lemma_unsigned_as_signed(dur.inner); }
        self.inner = self.inner.wrapping_sub(dur.inner as i16);
    }
}

impl core::ops::Sub<Duration> for Instant {
    type Output = Instant;

    fn sub(self, dur: Duration) -> (r: Instant)
        ensures
            r@ == wrap(self@ - dur@),
    {
        let mut r = self;
        r.sub_assign(dur);
        r
    }
}

impl vstd::std_specs::ops::SubSpecImpl<Duration> for Instant {
    open spec fn obeys_sub_spec() -> bool {
        true
    }

    open spec fn sub_req(self, dur: Duration) -> bool {
        dur@ < half_period()
    }

    closed spec fn sub_spec(self, dur: Duration) -> Instant {
        Instant { inner: self.inner.wrapping_sub(dur.inner as i16) }
    }
}

impl core::ops::Sub<Instant> for Instant {
    type Output = Duration;

    fn sub(self, other: Instant) -> (r: Duration)
        ensures
            r@ == offset(self@, other@),
    {
        self.duration_since(other)
    }
}

impl vstd::std_specs::ops::SubSpecImpl<Instant> for Instant {
    open spec fn obeys_sub_spec() -> bool {
        true
    }

    open spec fn sub_req(self, other: Instant) -> bool {
        offset(self@, other@) >= 0
    }

    closed spec fn sub_spec(self, other: Instant) -> Duration {
        Duration { inner: offset(self@, other@) as u16 }
    }
}

/// A span of time, in timer ticks.
#[derive(Clone, Copy, Debug, PartialEq, Eq, Structural, PartialOrd, Ord)]
pub struct Duration {
    inner: u16,
}

impl View for Duration {
    type V = int;

    /// The number of ticks.
    closed spec fn view(&self) -> int {
        self.inner as int
    }
}

/// Two durations are the same exactly when their tick counts are; a tick
/// count lies in the range of a `u16`.
pub proof fn lemma_duration_view(a: Duration, b: Duration)
    ensures
        0 <= a@ <= u16::MAX,
        a@ == b@ <==> a == b,
{
}

impl Duration {
    /// Creates a new `Duration` from the specified number of timer ticks.
    pub fn from_ticks(ticks: u16) -> (r: Duration)
        ensures
            r@ == ticks,
    {
        Duration { inner: ticks }
    }

    /// Returns the total number of timer ticks contained by this `Duration`.
    pub fn as_ticks(&self) -> (r: u16)
        ensures
            r == self@,
    {
        self.inner
    }
}

impl Default for Duration {
    fn default() -> (r: Duration)
        ensures
            r@ == 0,
    {
        Duration { inner: 0 }
    }
}

impl From<Duration> for u32 {
    /// The number of ticks, widened; this also gives `Duration` its
    /// infallible `TryInto<u32>`.
    fn from(d: Duration) -> (r: u32)
        ensures
            r == d@,
    {
        d.as_ticks() as u32
    }
}

impl vstd::std_specs::convert::FromSpecImpl<Duration> for u32 {
    open spec fn obeys_from_spec() -> bool {
        true
    }

    open spec fn from_spec(d: Duration) -> u32 {
        d@ as u32
    }
}

impl AddAssign<Duration> for Duration {
    fn add_assign(&mut self, dur: Duration)
        requires
            old(self)@ + dur@ <= u16::MAX,
        ensures
            final(self)@ == old(self)@ + dur@,
    {
        self.inner += dur.inner;
    }
}

impl core::ops::Add<Duration> for Duration {
    type Output = Duration;

    fn add(self, other: Duration) -> (r: Duration)
        ensures
            r@ == self@ + other@,
    {
        Duration { inner: self.inner + other.inner }
    }
}

impl vstd::std_specs::ops::AddSpecImpl<Duration> for Duration {
    open spec fn obeys_add_spec() -> bool {
        true
    }

    open spec fn add_req(self, other: Duration) -> bool {
        self@ + other@ <= u16::MAX
    }

    closed spec fn add_spec(self, other: Duration) -> Duration {
        Duration { inner: (self.inner + other.inner) as u16 }
    }
}

impl core::ops::Mul<u16> for Duration {
    type Output = Duration;

    fn mul(self, other: u16) -> (r: Duration)
        ensures
            r@ == self@ * other,
    {
        Duration { inner: self.inner * other }
    }
}

impl vstd::std_specs::ops::MulSpecImpl<u16> for Duration {
    open spec fn obeys_mul_spec() -> bool {
        true
    }

    open spec fn mul_req(self, other: u16) -> bool {
        self@ * other <= u16::MAX
    }

    closed spec fn mul_spec(self, other: u16) -> Duration {
        Duration { inner: (self.inner * other) as u16 }
    }
}

impl MulAssign<u16> for Duration {
    fn mul_assign(&mut self, other: u16)
        requires
            old(self)@ * other <= u16::MAX,
        ensures
            final(self)@ == old(self)@ * other,
    {
        *self = *self * other;
    }
}

impl SubAssign<Duration> for Duration {
    fn sub_assign(&mut self, rhs: Duration)
        requires
            rhs@ <= old(self)@,
        ensures
            final(self)@ == old(self)@ - rhs@,
    {
        self.inner -= rhs.inner;
    }
}

impl core::ops::Sub<Duration> for Duration {
    type Output = Duration;

    fn sub(self, rhs: Duration) -> (r: Duration)
        ensures
            r@ == self@ - rhs@,
    {
        Duration { inner: self.inner - rhs.inner }
    }
}

impl vstd::std_specs::ops::SubSpecImpl<Duration> for Duration {
    open spec fn obeys_sub_spec() -> bool {
        true
    }

    open spec fn sub_req(self, rhs: Duration) -> bool {
        rhs@ <= self@
    }

    closed spec fn sub_spec(self, rhs: Duration) -> Duration {
        Duration { inner: (self.inner - rhs.inner) as u16 }
    }
}


/// Adds the `secs`, `millis` and `micros` methods to the `u16` type.
///
/// A `Duration` holds at most 8 seconds, or 8388 milliseconds.
pub trait U16Ext: Sized {
    /// Whether the value, taken as seconds, fits in a `Duration`.
    spec fn secs_in_range(self) -> bool;

    /// Whether the value, taken as milliseconds, fits in a `Duration`.
    spec fn millis_in_range(self) -> bool;

    /// Converts the value as seconds into ticks.
    fn secs(self) -> Duration
        requires
            self.secs_in_range(),
    ;

    /// Converts the value as milliseconds into ticks.
    fn millis(self) -> Duration
        requires
            self.millis_in_range(),
    ;

    /// Converts the value as microseconds into ticks.
    fn micros(self) -> Duration;
}

impl U16Ext for u16 {
    open spec fn secs_in_range(self) -> bool {
        self <= 8
    }

    open spec fn millis_in_range(self) -> bool {
        self <= 8388
    }

    fn secs(self) -> (r: Duration)
        ensures
            r@ == CORE_CLOCK * self / (PRESCALER as int),
    {
        let ticks: u64 = CORE_CLOCK as u64 * self as u64 / PRESCALER as u64;
        assert(ticks <= 62500) by (nonlinear_arith)
            requires
                ticks == 16_000_000 * self / 2048,
                self <= 8,
        ;
        Duration { inner: ticks as u16 }
    }

    fn millis(self) -> (r: Duration)
        ensures
            r@ == CORE_CLOCK * self / (PRESCALER * 1_000int),
    {
        let ticks: u64 = CORE_CLOCK as u64 * self as u64 / (PRESCALER as u64 * 1_000);
        assert(ticks <= 65531) by (nonlinear_arith)
            requires
                ticks == 16_000_000 * self / 2_048_000,
                self <= 8388,
        ;
        Duration { inner: ticks as u16 }
    }

    fn micros(self) -> (r: Duration)
        ensures
            r@ == CORE_CLOCK * self / (PRESCALER * 1_000_000int),
            r@ == self / 128,
    {
        let ticks: u64 = CORE_CLOCK as u64 * self as u64 / (PRESCALER as u64 * 1_000_000);
        assert(ticks == self / 128) by (nonlinear_arith)
            requires
                ticks == 16_000_000 * self / 2_048_000_000,
                self <= 0xFFFF,
        ;
        Duration { inner: ticks as u16 }
    }
}

/// Owner of the TIM6 counter, which backs this clock.
pub struct Tim6Monotonic;

impl Tim6Monotonic {
    /// How many core clock cycles make one counter tick.
    pub fn ratio() -> (r: Fraction)
        ensures
            r.numerator == PRESCALER,
            r.denominator == 1,
    {
        Fraction { numerator: PRESCALER, denominator: 1 }
    }

    /// The instant at which the counter reads zero, right after a reset.
    pub fn zero() -> (r: Instant)
        ensures
            r@ == 0,
    {
        Instant { inner: 0 }
    }
}

/// Adding two durations to an instant one after the other gives the instant
/// that adding their sum gives, while the sum stays within half the period.
pub proof fn lemma_add_associative(now: Instant, d1: Duration, d2: Duration)
    requires
        d1@ + d2@ < half_period(),
    ensures
        now.add_spec(d1).add_spec(d2) == now.add_spec(d1.add_spec(d2)),
{
    lemma_unsigned_as_signed(d1.inner);
    lemma_unsigned_as_signed(d2.inner);
    lemma_unsigned_as_signed(d1.add_spec(d2).inner);
}

/// Within half the period of each other, the circular difference of two
/// instants is the negation of the other way round, so each compares to the
/// other in the opposite way.
pub proof fn lemma_offset_antisymmetric(a: Instant, b: Instant)
    requires
        -half_period() < offset(a@, b@),
    ensures
        offset(a@, b@) == -offset(b@, a@),
        circular_cmp(a@, b@) == Ordering::Less <==> circular_cmp(b@, a@) == Ordering::Greater,
        circular_cmp(a@, b@) == Ordering::Equal <==> circular_cmp(b@, a@) == Ordering::Equal,
        circular_cmp(a@, b@) == Ordering::Greater <==> circular_cmp(b@, a@) == Ordering::Less,
{
}

/// A duration added to an instant, within half the period, is at or after
/// it, and the difference between the two gives the duration back.
pub proof fn lemma_add_then_sub(a: Instant, d: Duration)
    requires
        d@ < half_period(),
    ensures
        0 <= offset(a.add_spec(d)@, a@) == d@,
        a.add_spec(d).sub_spec(a) == d,
{
    lemma_unsigned_as_signed(d.inner);
    lemma_unsigned_as_signed(a.add_spec(d).sub_spec(a).inner);
}

/// Where `a` is at or after `b` (within half the period), the duration
/// `a - b` added to `b` gives `a`, and taken from `a` gives `b`.
pub proof fn lemma_sub_then_add(a: Instant, b: Instant)
    requires
        offset(a@, b@) >= 0,
    ensures
        a.sub_spec(b)@ == offset(a@, b@),
        a.sub_spec(b)@ < half_period(),
        b.add_spec(a.sub_spec(b)) == a,
        a.sub_spec(a.sub_spec(b)) == b,
{
    lemma_unsigned_as_signed(a.sub_spec(b).inner);
}

} // verus!
