//! Wrap-around-safe time keeping on free-running hardware counters.
//!
//! Each clock module wraps one counter into an `Instant` / `Duration` pair whose
//! arithmetic is circular: instants are compared and subtracted through their
//! difference modulo the counter's period, which is meaningful only while the
//! two lie within half that period of each other.
use vstd::prelude::*;

pub mod exti;
pub mod monotonic_nrf52;
pub mod monotonic_stm32l0;
pub mod scheduler;

verus! {

/// `monotonic * fraction == system clock`: how many system clock cycles make
/// one tick of a monotonic counter.
#[derive(Clone, Copy, Debug, PartialEq, Eq, Structural)]
pub struct Fraction {
    pub numerator: u32,
    pub denominator: u32,
}

} // verus!
