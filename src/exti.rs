//! Decoding of the external-interrupt pending register of the trackball
//! mouse: which lines fired, and what each one sends.
//!
//! Every set line that a handler serves gives one event, in a fixed test
//! order; the handler clears each served line's pending bit (else the
//! interrupt fires again at once) and sends its mouse report. Bits of lines
//! that a handler does not serve are spurious: they are reported so that
//! they can be logged, and otherwise ignored.
use vstd::prelude::*;

verus! {

/// A served interrupt line, with the mouse report it sends.
#[derive(Clone, Copy, Debug, PartialEq, Eq, Structural)]
pub struct ExtiEvent {
    /// The line whose pending bit is to be cleared.
    pub line: u8,
    /// Horizontal motion.
    pub x: i8,
    /// Vertical motion.
    pub y: i8,
    /// Pressed buttons.
    pub buttons: u8,
}

/// The lines that the EXTI4_15 handler serves, as a mask: 4 to 7 (the
/// trackball's left, up, right and down pulses) and 15 (the button).
pub const EXTI_4_15_SERVED: u32 = 0x80F0;

/// The line that the EXTI2_3 handler serves, as a mask: 3 (an aux button).
pub const EXTI_2_3_SERVED: u32 = 0x8;

/// `event` where the bit of `mask` is set in `pending`, else nothing.
pub open spec fn if_set(pending: u32, mask: u32, event: ExtiEvent) -> Seq<ExtiEvent> {
    if pending & mask != 0 {
        seq![event]
    } else {
        seq![]
    }
}

/// The events of the EXTI4_15 handler for a pending register, tested in the
/// order of lines 15, 4, 5, 6, 7.
pub open spec fn exti_4_15_events(pending: u32) -> Seq<ExtiEvent> {
    if_set(pending, 0x8000, ExtiEvent { line: 15, x: 0, y: 0, buttons: 1 })
        + if_set(pending, 0x10, ExtiEvent { line: 4, x: 5, y: 0, buttons: 0 })
        + if_set(pending, 0x20, ExtiEvent { line: 5, x: 0, y: 5, buttons: 0 })
        + if_set(pending, 0x40, ExtiEvent { line: 6, x: -5i8, y: 0, buttons: 0 })
        + if_set(pending, 0x80, ExtiEvent { line: 7, x: 0, y: -5i8, buttons: 0 })
}

/// The events to serve for the EXTI4_15 pending register `pending`.
pub fn decode_exti_4_15(pending: u32) -> (r: Vec<ExtiEvent>)
    ensures
        r@ == exti_4_15_events(pending),
{
    let mut events: Vec<ExtiEvent> = Vec::new();
    if pending & 0x8000 != 0 {
        events.push(ExtiEvent { line: 15, x: 0, y: 0, buttons: 1 });
    }
    if pending & 0x10 != 0 {
        events.push(ExtiEvent { line: 4, x: 5, y: 0, buttons: 0 });
    }
    if pending & 0x20 != 0 {
        events.push(ExtiEvent { line: 5, x: 0, y: 5, buttons: 0 });
    }
    if pending & 0x40 != 0 {
        events.push(ExtiEvent { line: 6, x: -5, y: 0, buttons: 0 });
    }
    if pending & 0x80 != 0 {
        events.push(ExtiEvent { line: 7, x: 0, y: -5, buttons: 0 });
    }
    assert(events@ =~= exti_4_15_events(pending));
    events
}

/// The line to serve for the EXTI2_3 pending register `pending`: line 3
/// where its bit is set.
pub fn decode_exti_2_3(pending: u32) -> (r: Option<u8>)
    ensures
        r == (if pending & 0x8 != 0 { Some(3u8) } else { None::<u8> }),
{
    if pending & EXTI_2_3_SERVED != 0 {
        Some(3)
    } else {
        None
    }
}

/// The bits of `pending` that the EXTI4_15 handler does not serve.
pub fn spurious_exti_4_15(pending: u32) -> (r: u32)
    ensures
        r == pending & !0x80F0u32,
{
    pending & !EXTI_4_15_SERVED
}

/// The bits of `pending` that the EXTI2_3 handler does not serve.
pub fn spurious_exti_2_3(pending: u32) -> (r: u32)
    ensures
        r == pending & !0x8u32,
{
    pending & !EXTI_2_3_SERVED
}

} // verus!
