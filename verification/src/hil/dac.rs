use vstd::prelude::*;

verus! {

/// A request that a driver makes of a DAC.
#[derive(Clone, Copy, PartialEq, Eq, Structural, Debug)]
pub enum DacRequest {
    /// Enable the converter.
    Enable,
    /// Convert a value.
    Convert(u16),
}

/// Interface for making a DAC conversion.
pub trait DacSingle: Sized {
    /// Whether the converter, asked `request`, may answer `r` and be left
    /// as `new` (the answer depends on the hardware's state).
    spec fn dac_step(&self, request: DacRequest, new: Self, r: bool) -> bool;

    /// Call enable before any conversion.
    /// Returns true when enabled successfully.
    fn enable(&mut self) -> (r: bool)
        ensures
            old(self).dac_step(DacRequest::Enable, *final(self), r),
    ;

    /// Make a conversion request.
    /// Returns false if the transmitter is not ready or the DAC is not
    /// enabled, true otherwise.
    fn set(&mut self, data: u16) -> (r: bool)
        ensures
            old(self).dac_step(DacRequest::Convert(data), *final(self), r),
    ;
}

} // verus!
