//! Drivers for the Cortex-M4 core's own peripherals.

pub mod fpu;
