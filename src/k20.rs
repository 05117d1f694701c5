//! Drivers for the Freescale Kinetis K20 family.

pub mod timer;
