//! Drivers for the TI Tiva C family.

pub mod pin;
pub mod timer;
pub mod qei;
pub mod pwm;
pub mod isr;
