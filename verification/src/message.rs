//! The messages that travel between the control side and the processor.

use vstd::prelude::*;

verus! {

/// A command for the processor.
///
/// The identifier of a parameter means something to the processor only. A
/// value is carried as the bit pattern of an IEEE 754 single-precision number,
/// so that a command is plain data.
#[derive(Clone, Copy, Debug, PartialEq, Eq, Structural)]
pub enum ToProcessor {
    BeginEdit(usize),
    SetParameter(usize, u32),
    EndEdit(usize),
}

/// The bits of the single-precision number one.
pub const ONE: u32 = 0x3f80_0000;

/// The bits of the single-precision number zero.
pub const ZERO: u32 = 0;

/// Whether the single-precision number with these bits compares equal to
/// zero. Two patterns do: that of zero and that of negative zero.
pub open spec fn is_zero(bits: u32) -> bool {
    bits == 0 || bits == 0x8000_0000
}

/// Reads a value as a switch: on unless the value compares equal to zero.
pub fn switch_of(bits: u32) -> (on: bool)
    ensures
        on == !is_zero(bits),
{
    bits != 0 && bits != 0x8000_0000
}

/// Writes a switch as a value: one for on, zero for off.
pub fn value_of(on: bool) -> (bits: u32)
    ensures
        bits == if on {
            ONE
        } else {
            ZERO
        },
        switch_of_bits(bits) == on,
{
    if on {
        ONE
    } else {
        ZERO
    }
}

/// The switch that a value stands for.
pub open spec fn switch_of_bits(bits: u32) -> bool {
    !is_zero(bits)
}

/// The sending side of a channel that never blocks.
pub trait PushMessage<T: Send> {
    /// Pushes a message, returning at once if the channel is full.
    ///
    /// Returns `true` if the message was sent, and `false` otherwise.
    fn push(&self, message: T) -> bool;
}

/// The receiving side of a channel that never blocks.
pub trait PopMessage<T: Send> {
    /// Pops the oldest message, returning at once if none is available.
    fn pop(&self) -> Option<T>;
}

} // verus!
