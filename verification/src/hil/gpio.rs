use vstd::prelude::*;

verus! {

/// Pull resistor configuration of an input pin.
#[derive(Clone, Copy, PartialEq, Eq, Structural, Debug)]
pub enum InputMode {
    PullUp,
    PullDown,
    PullNone,
}

/// Which edges of an input pin raise an interrupt.
#[derive(Clone, Copy, PartialEq, Eq, Structural, Debug)]
pub enum InterruptMode {
    RisingEdge,
    FallingEdge,
    EitherEdge,
}

/// The two-bit number of an interrupt mode.
pub open spec fn interrupt_mode_number(mode: InterruptMode) -> u8 {
    match mode {
        InterruptMode::RisingEdge => 0,
        InterruptMode::FallingEdge => 1,
        InterruptMode::EitherEdge => 2,
    }
}

/// The interrupt mode that a two-bit number stands for (3 is read as
/// either edge).
pub open spec fn interrupt_mode_of(n: u32) -> InterruptMode {
    if n == 0 {
        InterruptMode::RisingEdge
    } else if n == 1 {
        InterruptMode::FallingEdge
    } else {
        InterruptMode::EitherEdge
    }
}

impl InterruptMode {
    /// The number of this mode.
    pub fn number(self) -> (r: u8)
        ensures
            r == interrupt_mode_number(self),
            r < 3,
    {
        match self {
            InterruptMode::RisingEdge => 0,
            InterruptMode::FallingEdge => 1,
            InterruptMode::EitherEdge => 2,
        }
    }
}

/// Decoding the number of a mode gives the mode back.
pub proof fn lemma_interrupt_mode_round_trip(mode: InterruptMode)
    ensures
        interrupt_mode_of(interrupt_mode_number(mode) as u32) == mode,
{
}

} // verus!
