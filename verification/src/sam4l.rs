//! Drivers for peripherals of the SAM4L microcontroller.
pub mod aesa;
pub mod chip;
pub mod wdt;
