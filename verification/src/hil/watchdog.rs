use vstd::prelude::*;

verus! {

/// A watchdog timer: once started it resets the chip unless it is tickled
/// often enough.
pub trait Watchdog {
    fn start(&mut self);

    fn stop(&mut self);

    fn tickle(&mut self);
}

} // verus!
