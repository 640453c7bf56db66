//! Verified models of a set of Tock kernel interfaces, capsules and SAM4L
//! chip drivers.
//!
//! Every driver is a state machine.  Its effects on hardware (I2C transfers,
//! register writes, clock gating, upcalls to processes and callbacks to
//! clients) are appended, in order, to an operation log that the platform
//! drains and performs; what the hardware answers comes back as an argument
//! of the next event.
pub mod returncode;
pub mod callback;
pub mod driver;
pub mod hil;
pub mod capsules;
pub mod sam4l;
