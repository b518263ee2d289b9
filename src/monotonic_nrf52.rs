//! A 32 bit monotonic clock on the nRF52's TIMER1.
//!
//! The timer is set to 1 MHz (the 16 MHz timer clock divided by 2^4) and
//! 32 bit mode, so one tick lasts 1 µs and the counter wraps about every
//! 71.6 minutes; instants can be compared and subtracted only within half
//! of that.
use crate::Fraction;
use core::cmp::Ordering;
use core::ops::{AddAssign, MulAssign, SubAssign};
use vstd::prelude::*;
use vstd::std_specs::ops::{AddSpec, SubSpec};

verus! {

/// Frequency of the system clock, in MHz; the timer ticks at 1 MHz.
pub const SYSCLK_MHZ: u32 = 64;

/// Number of distinct counter values.
pub open spec fn period() -> int {
    0x1_0000_0000
}

/// Half the counter's period: the width of the window in which two instants
/// can be compared, and the bound on a `Duration` added to an `Instant`.
pub open spec fn half_period() -> int {
    0x8000_0000
}

/// Reduces `x` into the counter's range `[0, period())`.
pub open spec fn wrap(x: int) -> int {
    x % period()
}

/// Circular difference `a - b` of two counter values, in
/// `[-half_period(), half_period())`.
pub open spec fn offset(a: int, b: int) -> int {
    if wrap(a - b) < half_period() {
        wrap(a - b)
    } else {
        wrap(a - b) - period()
    }
}

/// Wrap-aware ordering of two counter values: the sign of their circular
/// difference.
pub open spec fn circular_cmp(a: int, b: int) -> Ordering {
    if offset(a, b) < 0 {
        Ordering::Less
    } else if offset(a, b) == 0 {
        Ordering::Equal
    } else {
        Ordering::Greater
    }
}

proof fn lemma_signed_as_unsigned(x: i32)
    ensures
        x as u32 == wrap(x as int),
{
    assert(x >= 0 ==> x as u32 == x as int) by (bit_vector);
    assert(x < 0 ==> x as u32 == x as int + 0x1_0000_0000) by (bit_vector);
}

proof fn lemma_unsigned_as_signed(x: u32)
    ensures
        wrap((x as i32) as int) == x as int,
        x < 0x8000_0000 ==> x as i32 == x as int,
{
    assert(x < 0x8000_0000 ==> x as i32 == x as int) by (bit_vector);
    assert(x >= 0x8000_0000 ==> x as i32 == x as int - 0x1_0000_0000) by (bit_vector);
}

/// A signed 32 bit value is the circular difference of any two counter
/// values whose difference it equals modulo the period.
proof fn lemma_offset_unique(d: int, a: int, b: int)
    requires
        -half_period() <= d < half_period(),
        wrap(d) == wrap(a - b),
    ensures
        d == offset(a, b),
{
}

/// A measurement of the counter. Opaque and useful only with `Duration`.
///
/// Adding or subtracting a `Duration` of `half_period()` ticks or more makes
/// the result wrap around into an instant that compares wrongly; the same
/// holds when it is done in steps, e.g. `(instant + dur) + dur` where `dur`
/// is `half_period() / 2` ticks.
#[derive(Clone, Copy, Debug, PartialEq, Eq, Structural)]
pub struct Instant {
    inner: i32,
}

impl View for Instant {
    type V = int;

    /// The counter value, in `[0, period())`.
    closed spec fn view(&self) -> int {
        wrap(self.inner as int)
    }
}

/// Two instants are the same exactly when their counter values are; a
/// counter value lies in `[0, period())`.
pub proof fn lemma_instant_view(a: Instant, b: Instant)
    ensures
        0 <= a@ < period(),
        a@ == b@ <==> a == b,
{
}

impl Instant {
    /// The instant at which the counter reads `counts`.
    pub fn from_counts(counts: u32) -> (r: Instant)
        ensures
            r@ == counts,
    {
        proof { lemma_unsigned_as_signed(counts); }
        Instant { inner: counts as i32 }
    }

    /// Returns the amount of time elapsed from this instant until `now`.
    pub fn elapsed(&self, now: Instant) -> (r: Duration)
        requires
            offset(now@, self@) >= 0,
        ensures
            r@ == offset(now@, self@),
            r@ == wrap(now@ - self@),
    {
        now - *self
    }

    /// Returns the underlying count.
    pub fn counts(&self) -> (r: u32)
        ensures
            r == self@,
    {
        proof { lemma_signed_as_unsigned(self.inner); }
        self.inner as u32
    }

    /// Returns the amount of time elapsed from another instant to this one.
    pub fn duration_since(&self, earlier: Instant) -> (r: Duration)
        requires
            offset(self@, earlier@) >= 0,
        ensures
            r@ == offset(self@, earlier@),
            r@ == wrap(self@ - earlier@),
    {
        let diff = self.inner.wrapping_sub(earlier.inner);
        proof { lemma_offset_unique(diff as int, self@, earlier@); }
        Duration { inner: diff as u32 }
    }

    /// Wrap-aware comparison: the sign of the circular difference.
    pub fn cmp(&self, rhs: &Instant) -> (r: Ordering)
        ensures
            r == circular_cmp(self@, rhs@),
    {
        let diff = self.inner.wrapping_sub(rhs.inner);
        proof { lemma_offset_unique(diff as int, self@, rhs@); }
        diff.cmp(&0)
    }
}

impl PartialOrd for Instant {
    fn partial_cmp(&self, rhs: &Instant) -> (r: Option<Ordering>)
        ensures
            r == Some(circular_cmp(self@, rhs@)),
    {
        Some(self.cmp(rhs))
    }
}

impl vstd::std_specs::cmp::PartialOrdSpecImpl for Instant {
    open spec fn obeys_partial_cmp_spec() -> bool {
        true
    }

    open spec fn partial_cmp_spec(&self, rhs: &Instant) -> Option<Ordering> {
        Some(circular_cmp(self@, rhs@))
    }
}

impl AddAssign<Duration> for Instant {
    fn add_assign(&mut self, dur: Duration)
        requires
            dur@ < half_period(),
        ensures
            final(self)@ == wrap(old(self)@ + dur@),
    {
        proof { lemma_unsigned_as_signed(dur.inner); }
        self.inner = self.inner.wrapping_add(dur.inner as i32);
    }
}

impl core::ops::Add<Duration> for Instant {
    type Output = Instant;

    fn add(self, dur: Duration) -> (r: Instant)
        ensures
            r@ == wrap(self@ + dur@),
    {
        let mut r = self;
        r.add_assign(dur);
        r
    }
}

impl vstd::std_specs::ops::AddSpecImpl<Duration> for Instant {
    open spec fn obeys_add_spec() -> bool {
        true
    }

    open spec fn add_req(self, dur: Duration) -> bool {
        dur@ < half_period()
    }

    closed spec fn add_spec(self, dur: Duration) -> Instant {
        Instant { inner: self.inner.wrapping_add(dur.inner as i32) }
    }
}

impl SubAssign<Duration> for Instant {
    fn sub_assign(&mut self, dur: Duration)
        requires
            dur@ < half_period(),
        ensures
            final(self)@ == wrap(old(self)@ - dur@),
    {
        proof { lemma_unsigned_as_signed(dur.inner); }
        self.inner = self.inner.wrapping_sub(dur.inner as i32);
    }
}

impl core::ops::Sub<Duration> for Instant {
    type Output = Instant;

    fn sub(self, dur: Duration) -> (r: Instant)
        ensures
            r@ == wrap(self@ - dur@),
    {
        let mut r = self;
        r.sub_assign(dur);
        r
    }
}

impl vstd::std_specs::ops::SubSpecImpl<Duration> for Instant {
    open spec fn obeys_sub_spec() -> bool {
        true
    }

    open spec fn sub_req(self, dur: Duration) -> bool {
        dur@ < half_period()
    }

    closed spec fn sub_spec(self, dur: Duration) -> Instant {
        Instant { inner: self.inner.wrapping_sub(dur.inner as i32) }
    }
}

impl core::ops::Sub<Instant> for Instant {
    type Output = Duration;

    fn sub(self, other: Instant) -> (r: Duration)
        ensures
            r@ == offset(self@, other@),
    {
        self.duration_since(other)
    }
}

impl vstd::std_specs::ops::SubSpecImpl<Instant> for Instant {
    open spec fn obeys_sub_spec() -> bool {
        true
    }

    open spec fn sub_req(self, other: Instant) -> bool {
        offset(self@, other@) >= 0
    }

    closed spec fn sub_spec(self, other: Instant) -> Duration {
        Duration { inner: offset(self@, other@) as u32 }
    }
}

/// A span of time, in timer ticks.
#[derive(Clone, Copy, Debug, PartialEq, Eq, Structural, PartialOrd, Ord)]
pub struct Duration {
    inner: u32,
}

impl View for Duration {
    type V = int;

    /// The number of ticks.
    closed spec fn view(&self) -> int {
        self.inner as int
    }
}

/// Two durations are the same exactly when their tick counts are; a tick
/// count lies in the range of a `u32`.
pub proof fn lemma_duration_view(a: Duration, b: Duration)
    ensures
        0 <= a@ <= u32::MAX,
        a@ == b@ <==> a == b,
{
}

impl Duration {
    /// Creates a new `Duration` from the specified number of timer cycles.
    pub fn from_cycles(cycles: u32) -> (r: Duration)
        ensures
            r@ == cycles,
    {
        Duration { inner: cycles }
    }

    /// Returns the total number of timer cycles contained by this `Duration`.
    pub fn as_cycles(&self) -> (r: u32)
        ensures
            r == self@,
    {
        self.inner
    }
}

impl Default for Duration {
    fn default() -> (r: Duration)
        ensures
            r@ == 0,
    {
        Duration { inner: 0 }
    }
}

impl From<Duration> for u32 {
    /// The number of cycles; this also gives `Duration` its infallible
    /// `TryInto<u32>`.
    fn from(d: Duration) -> (r: u32)
        ensures
            r == d@,
    {
        d.as_cycles()
    }
}

impl vstd::std_specs::convert::FromSpecImpl<Duration> for u32 {
    open spec fn obeys_from_spec() -> bool {
        true
    }

    open spec fn from_spec(d: Duration) -> u32 {
        d@ as u32
    }
}

impl AddAssign<Duration> for Duration {
    fn add_assign(&mut self, dur: Duration)
        requires
            old(self)@ + dur@ <= u32::MAX,
        ensures
            final(self)@ == old(self)@ + dur@,
    {
        self.inner += dur.inner;
    }
}

impl core::ops::Add<Duration> for Duration {
    type Output = Duration;

    fn add(self, other: Duration) -> (r: Duration)
        ensures
            r@ == self@ + other@,
    {
        Duration { inner: self.inner + other.inner }
    }
}

impl vstd::std_specs::ops::AddSpecImpl<Duration> for Duration {
    open spec fn obeys_add_spec() -> bool {
        true
    }

    open spec fn add_req(self, other: Duration) -> bool {
        self@ + other@ <= u32::MAX
    }

    closed spec fn add_spec(self, other: Duration) -> Duration {
        Duration { inner: (self.inner + other.inner) as u32 }
    }
}

impl core::ops::Mul<u32> for Duration {
    type Output = Duration;

    fn mul(self, other: u32) -> (r: Duration)
        ensures
            r@ == self@ * other,
    {
        Duration { inner: self.inner * other }
    }
}

impl vstd::std_specs::ops::MulSpecImpl<u32> for Duration {
    open spec fn obeys_mul_spec() -> bool {
        true
    }

    open spec fn mul_req(self, other: u32) -> bool {
        self@ * other <= u32::MAX
    }

    closed spec fn mul_spec(self, other: u32) -> Duration {
        Duration { inner: (self.inner * other) as u32 }
    }
}

impl MulAssign<u32> for Duration {
    fn mul_assign(&mut self, other: u32)
        requires
            old(self)@ * other <= u32::MAX,
        ensures
            final(self)@ == old(self)@ * other,
    {
        *self = *self * other;
    }
}

impl SubAssign<Duration> for Duration {
    fn sub_assign(&mut self, rhs: Duration)
        requires
            rhs@ <= old(self)@,
        ensures
            final(self)@ == old(self)@ - rhs@,
    {
        self.inner -= rhs.inner;
    }
}

impl core::ops::Sub<Duration> for Duration {
    type Output = Duration;

    fn sub(self, rhs: Duration) -> (r: Duration)
        ensures
            r@ == self@ - rhs@,
    {
        Duration { inner: self.inner - rhs.inner }
    }
}

impl vstd::std_specs::ops::SubSpecImpl<Duration> for Duration {
    open spec fn obeys_sub_spec() -> bool {
        true
    }

    open spec fn sub_req(self, rhs: Duration) -> bool {
        rhs@ <= self@
    }

    closed spec fn sub_spec(self, rhs: Duration) -> Duration {
        Duration { inner: (self.inner - rhs.inner) as u32 }
    }
}

/// Adds the `secs`, `millis` and `micros` methods to the `u32` type.
pub trait U32Ext: Sized {
    /// Whether the value, taken as seconds, fits in a `Duration`.
    spec fn secs_in_range(self) -> bool;

    /// Whether the value, taken as milliseconds, fits in a `Duration`.
    spec fn millis_in_range(self) -> bool;

    /// Converts the value as seconds into ticks.
    fn secs(self) -> Duration
        requires
            self.secs_in_range(),
    ;

    /// Converts the value as milliseconds into ticks.
    fn millis(self) -> Duration
        requires
            self.millis_in_range(),
    ;

    /// Converts the value as microseconds into ticks.
    fn micros(self) -> Duration;
}

impl U32Ext for u32 {
    open spec fn secs_in_range(self) -> bool {
        self * 1_000_000 <= u32::MAX
    }

    open spec fn millis_in_range(self) -> bool {
        self * 1_000 <= u32::MAX
    }

    fn secs(self) -> (r: Duration)
        ensures
            r@ == self * 1_000_000,
    {
        self.millis() * 1_000
    }

    fn millis(self) -> (r: Duration)
        ensures
            r@ == self * 1_000,
    {
        self.micros() * 1_000
    }

    fn micros(self) -> (r: Duration)
        ensures
            r@ == self,
    {
        let frac = Tim1::ratio();
        // system clock MHz / fraction: ticks per microsecond
        let ticks: u64 = SYSCLK_MHZ as u64 * frac.denominator as u64 * self as u64
            / frac.numerator as u64;
        assert(ticks == self) by (nonlinear_arith)
            requires
                ticks == 64 * 1 * self / 64,
        ;
        Duration { inner: ticks as u32 }
    }
}

/// Owner of the TIMER1 peripheral, which backs this clock.
pub struct Tim1;

impl Tim1 {
    /// How many system clock cycles make one counter tick.
    pub fn ratio() -> (r: Fraction)
        ensures
            r.numerator == SYSCLK_MHZ,
            r.denominator == 1,
    {
        Fraction { numerator: SYSCLK_MHZ, denominator: 1 }
    }

    /// The instant at which the counter reads zero, right after a reset.
    pub fn zero() -> (r: Instant)
        ensures
            r@ == 0,
    {
        Instant { inner: 0 }
    }
}

/// Adding two durations to an instant one after the other gives the instant
/// that adding their sum gives, while the sum stays within half the period.
pub proof fn lemma_add_associative(now: Instant, d1: Duration, d2: Duration)
    requires
        d1@ + d2@ < half_period(),
    ensures
        now.add_spec(d1).add_spec(d2) == now.add_spec(d1.add_spec(d2)),
{
    lemma_unsigned_as_signed(d1.inner);
    lemma_unsigned_as_signed(d2.inner);
    lemma_unsigned_as_signed(d1.add_spec(d2).inner);
}

/// Within half the period of each other, the circular difference of two
/// instants is the negation of the other way round, so each compares to the
/// other in the opposite way.
pub proof fn lemma_offset_antisymmetric(a: Instant, b: Instant)
    requires
        -half_period() < offset(a@, b@),
    ensures
        offset(a@, b@) == -offset(b@, a@),
        circular_cmp(a@, b@) == Ordering::Less <==> circular_cmp(b@, a@) == Ordering::Greater,
        circular_cmp(a@, b@) == Ordering::Equal <==> circular_cmp(b@, a@) == Ordering::Equal,
        circular_cmp(a@, b@) == Ordering::Greater <==> circular_cmp(b@, a@) == Ordering::Less,
{
}

/// A duration added to an instant, within half the period, is at or after
/// it, and the difference between the two gives the duration back.
pub proof fn lemma_add_then_sub(a: Instant, d: Duration)
    requires
        d@ < half_period(),
    ensures
        0 <= offset(a.add_spec(d)@, a@) == d@,
        a.add_spec(d).sub_spec(a) == d,
{
    lemma_unsigned_as_signed(d.inner);
    lemma_unsigned_as_signed(a.add_spec(d).sub_spec(a).inner);
}

/// Where `a` is at or after `b` (within half the period), the duration
/// `a - b` added to `b` gives `a`, and taken from `a` gives `b`.
pub proof fn lemma_sub_then_add(a: Instant, b: Instant)
    requires
        offset(a@, b@) >= 0,
    ensures
        a.sub_spec(b)@ == offset(a@, b@),
        a.sub_spec(b)@ < half_period(),
        b.add_spec(a.sub_spec(b)) == a,
        a.sub_spec(a.sub_spec(b)) == b,
{
    lemma_unsigned_as_signed(a.sub_spec(b).inner);
}

} // verus!
