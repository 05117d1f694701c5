//! The general purpose I/O capability, common to every family.

use vstd::prelude::*;
use crate::bus::{Bus, Event};

verus! {

/// The logic level of a pin.
#[derive(Clone, Copy, Debug, PartialEq, Eq, Structural)]
pub enum GpioLevel {
    Low,
    High,
}

/// The direction of a pin.
#[derive(Clone, Copy, Debug, PartialEq, Eq, Structural)]
pub enum GpioDirection {
    In,
    Out,
}

/// A pin that can be read and driven.
pub trait Gpio {
    /// The handle names a pin that exists.
    spec fn gpio_wf(&self) -> bool;

    /// The level that the pin reads after `log`.
    spec fn level_in(&self, log: Seq<Event>) -> GpioLevel;

    /// `log` followed by the stores that drive the pin to `level`.
    spec fn level_log(&self, log: Seq<Event>, level: GpioLevel) -> Seq<Event>;

    /// `log` followed by the stores that turn the pin to `dir`.
    spec fn direction_log(&self, log: Seq<Event>, dir: GpioDirection) -> Seq<Event>;

    /// Drives the pin high.
    fn set_high(&self, bus: &mut Bus)
        requires
            self.gpio_wf(),
        ensures
            final(bus)@ == self.level_log(old(bus)@, GpioLevel::High),
            self.level_in(final(bus)@) == GpioLevel::High,
    ;

    /// Drives the pin low.
    fn set_low(&self, bus: &mut Bus)
        requires
            self.gpio_wf(),
        ensures
            final(bus)@ == self.level_log(old(bus)@, GpioLevel::Low),
            self.level_in(final(bus)@) == GpioLevel::Low,
    ;

    /// Reads the pin's level.
    fn level(&self, bus: &Bus) -> (r: GpioLevel)
        requires
            self.gpio_wf(),
        ensures
            r == self.level_in(bus@),
    ;

    /// Turns the pin to input or output.
    fn set_direction(&self, bus: &mut Bus, dir: GpioDirection)
        requires
            self.gpio_wf(),
        ensures
            final(bus)@ == self.direction_log(old(bus)@, dir),
    ;
}

} // verus!
