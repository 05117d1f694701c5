//! The periodic interrupt timers.

use vstd::prelude::*;
use crate::bus::{Bus, value_at, store, rmw, write_field, reg_addr};
use crate::field::{field_of, bit, bit_of};

verus! {

/// The module control register of the periodic interrupt timers.
pub const PIT_MCR: u32 = 0x4003_7000;
/// Module clock disable bit, in the module control register.
pub const MDIS: u32 = 1;
/// Freeze in debug mode bit, in the module control register.
pub const FRZ: u32 = 0;

/// The register blocks of timers 0 to 3.
pub const PIT_0: u32 = 0x4003_7100;
pub const PIT_1: u32 = 0x4003_7110;
pub const PIT_2: u32 = 0x4003_7120;
pub const PIT_3: u32 = 0x4003_7130;

/// Start value.
pub const LDVAL: u32 = 0x00;
/// Current value.
pub const CVAL: u32 = 0x04;
/// Control.
pub const TCTRL: u32 = 0x08;
/// Interrupt flag, write-one-to-clear.
pub const TFLG: u32 = 0x0C;
/// Timer enable bit, in the control register.
pub const TEN: u32 = 0;
/// Timer interrupt enable bit, in the control register.
pub const TIE: u32 = 1;

/// Stops or starts the clock of the whole timer module.
pub fn set_module_clock_disabled(bus: &mut Bus, disabled: bool)
    ensures
        final(bus)@ == rmw(old(bus)@, PIT_MCR, MDIS, 1, bit(disabled)),
{
    bus.modify(PIT_MCR, MDIS, 1, bit_of(disabled));
}

/// Makes the timers stop, or not, while the core is halted by a debugger.
pub fn set_freeze(bus: &mut Bus, freeze: bool)
    ensures
        final(bus)@ == rmw(old(bus)@, PIT_MCR, FRZ, 1, bit(freeze)),
{
    bus.modify(PIT_MCR, FRZ, 1, bit_of(freeze));
}

/// A periodic interrupt timer.
pub trait Timer {
    /// The handle names a timer that exists.
    spec fn wf(&self) -> bool;

    /// The address of the timer's register block.
    spec fn base(&self) -> u32;

    /// Where a timer that exists lies.
    proof fn lemma_layout(&self)
        requires
            self.wf(),
        ensures
            self.base() <= 0xFFFF_F000,
    ;

    fn get_regs(&self) -> (r: u32)
        requires
            self.wf(),
        ensures
            r == self.base(),
    ;

    /// Sets the value the timer counts down from.
    fn set_start_value(&self, bus: &mut Bus, start_value: u32)
        requires
            self.wf(),
        ensures
            final(bus)@ == store(old(bus)@, reg_addr(self.base(), LDVAL), start_value),
    {
        proof {
            self.lemma_layout();
        }
        bus.write(self.get_regs() + LDVAL, start_value);
    }

    /// Lets the timer interrupt, or not.
    fn set_interrupts_enabled(&self, bus: &mut Bus, enabled: bool)
        requires
            self.wf(),
        ensures
            final(bus)@ == rmw(old(bus)@, reg_addr(self.base(), TCTRL), TIE, 1, bit(enabled)),
    {
        proof {
            self.lemma_layout();
        }
        bus.modify(self.get_regs() + TCTRL, TIE, 1, bit_of(enabled));
    }

    /// Starts or stops the timer.
    fn set_enabled(&self, bus: &mut Bus, enabled: bool)
        requires
            self.wf(),
        ensures
            final(bus)@ == rmw(old(bus)@, reg_addr(self.base(), TCTRL), TEN, 1, bit(enabled)),
    {
        proof {
            self.lemma_layout();
        }
        bus.modify(self.get_regs() + TCTRL, TEN, 1, bit_of(enabled));
    }

    /// The timer has reached zero since the flag was last cleared.
    fn interrupt_flag(&self, bus: &Bus) -> (r: bool)
        requires
            self.wf(),
        ensures
            r == (field_of(value_at(bus@, reg_addr(self.base(), TFLG)), 0, 1) == 1),
    {
        proof {
            self.lemma_layout();
        }
        bus.field(self.get_regs() + TFLG, 0, 1) == 1
    }

    /// Writes the interrupt flag: the register is write-one-to-clear, so
    /// writing `true` clears a pending interrupt. No other bit is written.
    fn set_interrupt_flag(&self, bus: &mut Bus, flag: bool)
        requires
            self.wf(),
        ensures
            final(bus)@ == write_field(old(bus)@, reg_addr(self.base(), TFLG), 0, 1, bit(flag)),
    {
        proof {
            self.lemma_layout();
        }
        bus.write_field(self.get_regs() + TFLG, 0, 1, bit_of(flag));
    }

    /// The number of ticks counted so far. The hardware counts down, so the
    /// counter is the complement of the raw value, which goes up.
    fn get_counter(&self, bus: &Bus) -> (r: u32)
        requires
            self.wf(),
        ensures
            r == !value_at(bus@, reg_addr(self.base(), CVAL)),
    {
        proof {
            self.lemma_layout();
        }
        !bus.read(self.get_regs() + CVAL)
    }
}

/// Periodic interrupt timer `N` (0 to 3).
#[derive(Clone, Copy)]
pub struct PitTimer<const N: u8>;

impl<const N: u8> Timer for PitTimer<N> {
    open spec fn wf(&self) -> bool {
        N < 4
    }

    open spec fn base(&self) -> u32 {
        (PIT_0 + 0x10 * N) as u32
    }

    proof fn lemma_layout(&self) {
        assert(self.base() == (PIT_0 + 0x10 * N) as u32);
    }

    fn get_regs(&self) -> (r: u32) {
        PIT_0 + 0x10 * (N as u32)
    }
}

pub type Timer0 = PitTimer<0>;
pub type Timer1 = PitTimer<1>;
pub type Timer2 = PitTimer<2>;
pub type Timer3 = PitTimer<3>;

} // verus!
