//! Capsules: drivers that sit above the hardware interface layer.
pub mod dac;
pub mod fxos8700_cq;
pub mod gpio_async;
pub mod instrumented_takecell;
pub mod mcp23008;
pub mod pca9544a;
