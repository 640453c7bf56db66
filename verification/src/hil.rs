//! Hardware interface layer: the traits and plain types that drivers and
//! capsules share.
pub mod dac;
pub mod gpio;
pub mod gpio_async;
pub mod i2c;
pub mod ninedof;
pub mod watchdog;
