//! Provide userspace applications with a driver interface to a
//! digital-to-analog converter.
use vstd::prelude::*;
use crate::callback::{AppId, Callback};
use crate::driver::Driver;
use crate::hil::dac::{DacRequest, DacSingle};

verus! {

/// The DAC driver over a converter.
pub struct DAC<A: DacSingle> {
    dac: A,
}

impl<A: DacSingle> DAC<A> {
    pub fn new(dac: A) -> (r: DAC<A>)
        ensures
            r.converter() == dac,
    {
        DAC { dac: dac }
    }

    /// The converter this driver uses.
    pub closed spec fn converter(&self) -> A {
        self.dac
    }

    /// The converter, to look at.
    pub fn device(&self) -> (r: &A)
        ensures
            *r == self.converter(),
    {
        &self.dac
    }

    /// Asks the converter to enable; returns its answer.
    pub fn enable(&mut self) -> (r: bool)
        ensures
            old(self).converter().dac_step(DacRequest::Enable, final(self).converter(), r),
    {
        self.dac.enable()
    }

    /// Requests a conversion of `data`; returns whether the converter took
    /// it.
    pub fn set(&mut self, data: u16) -> (r: bool)
        ensures
            old(self).converter().dac_step(DacRequest::Convert(data), final(self).converter(), r),
    {
        self.dac.set(data)
    }
}

/// The answer to a conversion request that the converter took
/// (`accepted`) or refused.
pub fn conversion_result(accepted: bool) -> (r: isize)
    ensures
        accepted ==> r == 0,
        !accepted ==> r == -1,
{
    if !accepted {
        return -1;
    }
    0
}

impl<A: DacSingle> Driver for DAC<A> {
    open spec fn driver_inv(&self) -> bool {
        true
    }

    /// The driver has no callbacks: every subscription fails, and the
    /// converter is not asked anything.
    fn subscribe(&mut self, _subscribe_num: usize, _callback: Callback) -> (r: isize)
        ensures
            r == -1,
            final(self).converter() == old(self).converter(),
    {
        // shouldn't call subscribe
        -1
    }

    /// Commands: 0 check if present, 1 ask the converter to enable (0,
    /// whatever it answers), 2 convert the low 16 bits of `data` (0 if the
    /// converter took it, -1 if not); any other command fails with -1.
    /// Each command makes exactly the one request it names of the
    /// converter, and commands 0 and unknown ones make none.
    fn command(&mut self, command_num: usize, data: usize, _app: AppId) -> (r: isize)
        ensures
            command_num == 0 ==> r == 0 && final(self).converter() == old(self).converter(),
            command_num > 2 ==> r == -1 && final(self).converter() == old(self).converter(),
            command_num == 1 ==> r == 0 && exists|x: bool|
                #[trigger] old(self).converter().dac_step(DacRequest::Enable, final(self).converter(), x),
            command_num == 2 ==> exists|x: bool|
                #[trigger] old(self).converter().dac_step(DacRequest::Convert(data as u16), final(self).converter(), x)
                    && r == (if x { 0isize } else { -1isize }),
    {
        match command_num {
            // check if present
            0 => 0,
            // enable the dac
            1 => {
                self.enable();
                0
            },
            // set the data on CDR
            2 => conversion_result(self.set(data as u16)),
            _ => -1,
        }
    }
}

} // verus!
