//! Register-level peripheral drivers, verified against a model of the bus.
//!
//! Every driver reaches the hardware through a [`bus::Bus`], whose record of
//! stores, clock gates and interrupt lines is both the memory the drivers read
//! back and the trace in which the order of their stores can be checked. On
//! top of it:
//!
//! - [`field`]: bit-field arithmetic on register words, with the laws that a
//!   field reads back what was set and that setting one field keeps the others;
//! - [`gpio`] and [`quadrature`]: the capabilities common to every family;
//! - [`tiva_c`], [`k20`] and [`cortex_m4`]: the drivers of each family, whose
//!   peripherals are compile-time handles bound to one register block each.

pub mod field;
pub mod bus;
pub mod gpio;
pub mod quadrature;
pub mod tiva_c;
pub mod k20;
pub mod cortex_m4;
