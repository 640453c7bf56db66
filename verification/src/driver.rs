use vstd::prelude::*;
use crate::callback::{AppId, Callback};

verus! {

/// The system call interface of a capsule: processes subscribe callbacks
/// and issue numbered commands.
pub trait Driver {
    /// What the driver keeps true between system calls.
    spec fn driver_inv(&self) -> bool;

    fn subscribe(&mut self, subscribe_num: usize, callback: Callback) -> (r: isize)
        requires
            old(self).driver_inv(),
        ensures
            final(self).driver_inv(),
    ;

    fn command(&mut self, command_num: usize, data: usize, app: AppId) -> (r: isize)
        requires
            old(self).driver_inv(),
        ensures
            final(self).driver_inv(),
    ;
}

} // verus!
