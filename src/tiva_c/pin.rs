//! GPIO pins: configuration, level, direction and interrupts.

use vstd::prelude::*;
use crate::bus::{Bus, Event, PeripheralClock, value_at, store, rmw, write_field, ensure_clock, irq_on, reg_addr, stored_while_clear, lemma_field_round_trip, lemma_field_isolation, lemma_stored_while_clear_start};
use crate::field::{field_of, bit, bit_of, lemma_masks};
use crate::gpio::{Gpio, GpioDirection, GpioLevel};

verus! {

broadcast use crate::bus::lemma_value_after_push;

/// Pin values, one bit per pin.
pub const DATA: u32 = 0x3FC;
/// Pin directions, one bit per pin (1 is output).
pub const DIR: u32 = 0x400;
/// Interrupt on both edges, one bit per pin.
pub const IBE: u32 = 0x408;
/// Interrupt mask, one bit per pin (1 lets the interrupt through).
pub const IM: u32 = 0x410;
/// Interrupt clear, write-only, one bit per pin.
pub const ICR: u32 = 0x41C;
/// Alternate function select, one bit per pin (1 routes the pin to a peripheral).
pub const AFSEL: u32 = 0x420;
/// 2 mA drive strength, one bit per pin.
pub const DR2R: u32 = 0x500;
/// 4 mA drive strength, one bit per pin.
pub const DR4R: u32 = 0x504;
/// 8 mA drive strength, one bit per pin.
pub const DR8R: u32 = 0x508;
/// Open drain, one bit per pin.
pub const ODR: u32 = 0x50C;
/// Pull-up, one bit per pin.
pub const PUR: u32 = 0x510;
/// Pull-down, one bit per pin.
pub const PDR: u32 = 0x514;
/// Digital enable, one bit per pin.
pub const DEN: u32 = 0x51C;
/// Lock of the commit register.
pub const LOCK: u32 = 0x520;
/// Commit, one bit per pin.
pub const CR: u32 = 0x524;
/// Peripheral function of each pin, four bits per pin.
pub const PCTL: u32 = 0x52C;
/// The value that unlocks the commit register.
pub const UNLOCK_KEY: u32 = 0x4C4F434B;

/// The register blocks of ports A to F.
pub const PORT_A: u32 = 0x4000_4000;
pub const PORT_B: u32 = 0x4000_5000;
pub const PORT_C: u32 = 0x4000_6000;
pub const PORT_D: u32 = 0x4000_7000;
pub const PORT_E: u32 = 0x4002_4000;
pub const PORT_F: u32 = 0x4002_5000;

/// The register block of port `port` (A is 0).
pub open spec fn port_base(port: u8) -> u32 {
    if port == 0 {
        PORT_A
    } else if port == 1 {
        PORT_B
    } else if port == 2 {
        PORT_C
    } else if port == 3 {
        PORT_D
    } else if port == 4 {
        PORT_E
    } else {
        PORT_F
    }
}

/// The interrupt vector of port `port`.
pub open spec fn port_vector(port: u8) -> nat {
    if port < 5 {
        16 + port as nat
    } else {
        46
    }
}

/// `log` followed by the unlock sequence for pin `lane` of the port at `base`:
/// the key, the pin's commit bit, then the lock again.
pub open spec fn unlock_log(log: Seq<Event>, base: u32, lane: u32) -> Seq<Event> {
    let l1 = store(log, reg_addr(base, LOCK), UNLOCK_KEY);
    let l2 = rmw(l1, reg_addr(base, CR), lane, 1, 1);
    store(l2, reg_addr(base, LOCK), 0)
}

/// `log` followed by the selection of pin function `function`: 0 keeps the pin
/// a GPIO; another value routes it to a peripheral and writes the function code.
pub open spec fn function_log(log: Seq<Event>, base: u32, lane: u32, function: u8) -> Seq<Event> {
    if function == 0 {
        rmw(log, reg_addr(base, AFSEL), lane, 1, 0)
    } else {
        let l1 = rmw(log, reg_addr(base, AFSEL), lane, 1, 1);
        rmw(l1, reg_addr(base, PCTL), (4 * lane) as u32, 4, function as u32)
    }
}

/// `log` followed by the pad setup: 2 mA drive, push-pull, no pull-up or pull-down.
pub open spec fn pad_log(log: Seq<Event>, base: u32, lane: u32) -> Seq<Event> {
    let l1 = rmw(log, reg_addr(base, DR2R), lane, 1, 1);
    let l2 = rmw(l1, reg_addr(base, DR4R), lane, 1, 0);
    let l3 = rmw(l2, reg_addr(base, DR8R), lane, 1, 0);
    let l4 = rmw(l3, reg_addr(base, ODR), lane, 1, 0);
    let l5 = rmw(l4, reg_addr(base, PUR), lane, 1, 0);
    rmw(l5, reg_addr(base, PDR), lane, 1, 0)
}

/// `log` followed by the whole configuration of pin `lane`: clock, unlock,
/// disable, function, pads, enable.
pub open spec fn configure_log(
    log: Seq<Event>,
    clock: PeripheralClock,
    base: u32,
    lane: u32,
    function: u8,
) -> Seq<Event> {
    let l1 = unlock_log(ensure_clock(log, clock), base, lane);
    let l2 = rmw(l1, reg_addr(base, DEN), lane, 1, 0);
    let l3 = pad_log(function_log(l2, base, lane, function), base, lane);
    rmw(l3, reg_addr(base, DEN), lane, 1, 1)
}

/// The field value that encodes a level in the data register.
pub open spec fn level_bit(level: GpioLevel) -> u32 {
    match level {
        GpioLevel::Low => 0,
        GpioLevel::High => 1,
    }
}

/// The field value that encodes a direction in the direction register.
pub open spec fn direction_bit(dir: GpioDirection) -> u32 {
    match dir {
        GpioDirection::In => 0,
        GpioDirection::Out => 1,
    }
}

/// `log` followed by a change of direction, made with the pin disabled.
pub open spec fn set_direction_log(log: Seq<Event>, base: u32, lane: u32, dir: GpioDirection) -> Seq<Event> {
    let l1 = rmw(log, reg_addr(base, DEN), lane, 1, 0);
    let l2 = rmw(l1, reg_addr(base, DIR), lane, 1, direction_bit(dir));
    rmw(l2, reg_addr(base, DEN), lane, 1, 1)
}

/// A GPIO pin: one lane of a port's register block.
pub trait Pin {
    /// The handle names a pin that exists.
    spec fn wf(&self) -> bool;

    /// The clock gate of the pin's port.
    spec fn clock(&self) -> PeripheralClock;

    /// The address of the port's register block.
    spec fn base(&self) -> u32;

    /// The pin's index within its port.
    spec fn lane(&self) -> u32;

    /// The interrupt vector of the pin's port.
    spec fn vector(&self) -> nat;

    /// Where a pin that exists lies.
    proof fn lemma_layout(&self)
        requires
            self.wf(),
        ensures
            self.lane() < 8,
            self.base() <= 0xFFFF_F000,
            16 <= self.vector() < 256,
    ;

    fn periph(&self) -> (r: PeripheralClock)
        requires
            self.wf(),
        ensures
            r == self.clock(),
    ;

    fn regs(&self) -> (r: u32)
        requires
            self.wf(),
        ensures
            r == self.base(),
            r <= 0xFFFF_F000,
    ;

    fn index(&self) -> (r: usize)
        requires
            self.wf(),
        ensures
            r == self.lane(),
            r < 8,
    ;

    fn irq_num(&self) -> (r: usize)
        requires
            self.wf(),
        ensures
            r == self.vector(),
            16 <= r < 256,
    ;

    /// Lets the pin's configuration registers take writes: only some pins are
    /// locked, and the unlock is harmless on the others.
    fn unlock(&self, bus: &mut Bus)
        requires
            self.wf(),
        ensures
            final(bus)@ == unlock_log(old(bus)@, self.base(), self.lane()),
    {
        let base = self.regs();
        let lane = self.index() as u32;
        bus.write(base + LOCK, UNLOCK_KEY);
        bus.modify(base + CR, lane, 1, 1);
        bus.write(base + LOCK, 0);
    }

    /// Configures the pin: opens the port's clock, unlocks the pin, disables
    /// it, selects `function` (0 is plain GPIO, another value routes the pin
    /// to that peripheral function; the function code is four bits wide), sets up the pad for 2 mA push-pull without
    /// pull resistors, and enables it again.
    fn configure(&self, bus: &mut Bus, function: u8)
        requires
            self.wf(),
            function < 16,
        ensures
            final(bus)@ == configure_log(old(bus)@, self.clock(), self.base(), self.lane(), function),
    {
        bus.ensure_enabled(self.periph());
        self.unlock(bus);
        let base = self.regs();
        let lane = self.index() as u32;
        bus.modify(base + DEN, lane, 1, 0);
        if function == 0 {
            bus.modify(base + AFSEL, lane, 1, 0);
        } else {
            bus.modify(base + AFSEL, lane, 1, 1);
            bus.modify(base + PCTL, 4 * lane, 4, function as u32);
        }
        bus.modify(base + DR2R, lane, 1, 1);
        bus.modify(base + DR4R, lane, 1, 0);
        bus.modify(base + DR8R, lane, 1, 0);
        bus.modify(base + ODR, lane, 1, 0);
        bus.modify(base + PUR, lane, 1, 0);
        bus.modify(base + PDR, lane, 1, 0);
        bus.modify(base + DEN, lane, 1, 1);
    }

    /// Drives the pin to `level`.
    fn set_level(&self, bus: &mut Bus, level: GpioLevel)
        requires
            self.wf(),
        ensures
            final(bus)@ == rmw(old(bus)@, reg_addr(self.base(), DATA), self.lane(), 1, level_bit(level)),
    {
        let v: u32 = match level {
            GpioLevel::Low => 0,
            GpioLevel::High => 1,
        };
        bus.modify(self.regs() + DATA, self.index() as u32, 1, v);
    }

    /// Switches the pin's pull-up resistor on or off.
    fn set_pull_up(&self, bus: &mut Bus, enabled: bool)
        requires
            self.wf(),
        ensures
            final(bus)@ == rmw(old(bus)@, reg_addr(self.base(), PUR), self.lane(), 1, bit(enabled)),
    {
        bus.modify(self.regs() + PUR, self.index() as u32, 1, bit_of(enabled));
    }

    /// Switches the pin's pull-down resistor on or off.
    fn set_pull_down(&self, bus: &mut Bus, enabled: bool)
        requires
            self.wf(),
        ensures
            final(bus)@ == rmw(old(bus)@, reg_addr(self.base(), PDR), self.lane(), 1, bit(enabled)),
    {
        bus.modify(self.regs() + PDR, self.index() as u32, 1, bit_of(enabled));
    }

    /// Lets the pin interrupt on both edges: unmasks the port's vector at the
    /// interrupt controller, then selects both edges and unmasks the pin.
    fn enable_interrupt(&self, bus: &mut Bus)
        requires
            self.wf(),
        ensures
            final(bus)@ == rmw(
                rmw(irq_on(old(bus)@, self.vector()), reg_addr(self.base(), IBE), self.lane(), 1, 1),
                reg_addr(self.base(), IM),
                self.lane(),
                1,
                1,
            ),
    {
        bus.enable_irq(self.irq_num());
        let base = self.regs();
        let lane = self.index() as u32;
        bus.modify(base + IBE, lane, 1, 1);
        bus.modify(base + IM, lane, 1, 1);
    }

    /// Clears the pin's pending interrupt: the clear register is write-only,
    /// so only the pin's bit is set in the word stored.
    fn clear_interrupt(&self, bus: &mut Bus)
        requires
            self.wf(),
        ensures
            final(bus)@ == write_field(old(bus)@, reg_addr(self.base(), ICR), self.lane(), 1, 1),
    {
        bus.write_field(self.regs() + ICR, self.index() as u32, 1, 1);
    }
}

/// Every pin is a GPIO.
impl<T: Pin> Gpio for T {
    open spec fn gpio_wf(&self) -> bool {
        self.wf()
    }

    open spec fn level_in(&self, log: Seq<Event>) -> GpioLevel {
        if field_of(value_at(log, reg_addr(self.base(), DATA)), self.lane(), 1) == 1 {
            GpioLevel::High
        } else {
            GpioLevel::Low
        }
    }

    open spec fn level_log(&self, log: Seq<Event>, level: GpioLevel) -> Seq<Event> {
        rmw(log, reg_addr(self.base(), DATA), self.lane(), 1, level_bit(level))
    }

    open spec fn direction_log(&self, log: Seq<Event>, dir: GpioDirection) -> Seq<Event> {
        set_direction_log(log, self.base(), self.lane(), dir)
    }

    fn set_high(&self, bus: &mut Bus) {
        self.set_level(bus, GpioLevel::High);
        proof {
            self.lemma_layout();
            crate::field::lemma_masks();
            crate::field::lemma_round_trip(value_at(old(bus)@, reg_addr(self.base(), DATA)), self.lane(), 1, 1);
        }
    }

    fn set_low(&self, bus: &mut Bus) {
        self.set_level(bus, GpioLevel::Low);
        proof {
            self.lemma_layout();
            crate::field::lemma_masks();
            crate::field::lemma_round_trip(value_at(old(bus)@, reg_addr(self.base(), DATA)), self.lane(), 1, 0);
        }
    }

    fn level(&self, bus: &Bus) -> (r: GpioLevel) {
        if bus.field(self.regs() + DATA, self.index() as u32, 1) == 1 {
            GpioLevel::High
        } else {
            GpioLevel::Low
        }
    }

    fn set_direction(&self, bus: &mut Bus, dir: GpioDirection) {
        let base = self.regs();
        let lane = self.index() as u32;
        bus.modify(base + DEN, lane, 1, 0);
        let v: u32 = match dir {
            GpioDirection::In => 0,
            GpioDirection::Out => 1,
        };
        bus.modify(base + DIR, lane, 1, v);
        bus.modify(base + DEN, lane, 1, 1);
    }
}

} // verus!

verus! {

/// A pin of a Tiva C port: `PORT` is the port (A is 0), `INDEX` the pin within it.
#[derive(Clone, Copy)]
pub struct GpioPin<const PORT: u8, const INDEX: u8>;

impl<const PORT: u8, const INDEX: u8> Pin for GpioPin<PORT, INDEX> {
    open spec fn wf(&self) -> bool {
        PORT < 6 && INDEX < 8
    }

    open spec fn clock(&self) -> PeripheralClock {
        PeripheralClock::Gpio(PORT)
    }

    open spec fn base(&self) -> u32 {
        port_base(PORT)
    }

    open spec fn lane(&self) -> u32 {
        INDEX as u32
    }

    open spec fn vector(&self) -> nat {
        port_vector(PORT)
    }

    proof fn lemma_layout(&self) {
    }

    fn periph(&self) -> (r: PeripheralClock) {
        PeripheralClock::Gpio(PORT)
    }

    fn regs(&self) -> (r: u32) {
        match PORT {
            0 => PORT_A,
            1 => PORT_B,
            2 => PORT_C,
            3 => PORT_D,
            4 => PORT_E,
            _ => PORT_F,
        }
    }

    fn index(&self) -> (r: usize) {
        INDEX as usize
    }

    fn irq_num(&self) -> (r: usize) {
        if PORT < 5 {
            16 + PORT as usize
        } else {
            46
        }
    }
}

pub type PinA0 = GpioPin<0, 0>;
pub type PinA1 = GpioPin<0, 1>;
pub type PinA2 = GpioPin<0, 2>;
pub type PinA3 = GpioPin<0, 3>;
pub type PinA4 = GpioPin<0, 4>;
pub type PinA5 = GpioPin<0, 5>;
pub type PinA6 = GpioPin<0, 6>;
pub type PinA7 = GpioPin<0, 7>;
pub type PinB4 = GpioPin<1, 4>;
pub type PinB6 = GpioPin<1, 6>;
pub type PinC0 = GpioPin<2, 0>;
pub type PinC1 = GpioPin<2, 1>;
pub type PinC2 = GpioPin<2, 2>;
pub type PinC3 = GpioPin<2, 3>;
pub type PinC4 = GpioPin<2, 4>;
pub type PinC5 = GpioPin<2, 5>;
pub type PinC6 = GpioPin<2, 6>;
pub type PinC7 = GpioPin<2, 7>;
pub type PinD0 = GpioPin<3, 0>;
pub type PinD1 = GpioPin<3, 1>;
pub type PinD2 = GpioPin<3, 2>;
pub type PinD3 = GpioPin<3, 3>;
pub type PinD4 = GpioPin<3, 4>;
pub type PinD5 = GpioPin<3, 5>;
pub type PinD6 = GpioPin<3, 6>;
pub type PinD7 = GpioPin<3, 7>;
pub type PinE0 = GpioPin<4, 0>;
pub type PinE1 = GpioPin<4, 1>;
pub type PinE2 = GpioPin<4, 2>;
pub type PinE3 = GpioPin<4, 3>;
pub type PinE4 = GpioPin<4, 4>;
pub type PinE5 = GpioPin<4, 5>;
pub type PinE6 = GpioPin<4, 6>;
pub type PinE7 = GpioPin<4, 7>;
pub type PinF0 = GpioPin<5, 0>;
pub type PinF1 = GpioPin<5, 1>;
pub type PinF2 = GpioPin<5, 2>;
pub type PinF3 = GpioPin<5, 3>;
pub type PinF4 = GpioPin<5, 4>;

pub const PIN_A0: PinA0 = GpioPin;
pub const PIN_A1: PinA1 = GpioPin;
pub const PIN_A2: PinA2 = GpioPin;
pub const PIN_A3: PinA3 = GpioPin;
pub const PIN_A4: PinA4 = GpioPin;
pub const PIN_A5: PinA5 = GpioPin;
pub const PIN_A6: PinA6 = GpioPin;
pub const PIN_A7: PinA7 = GpioPin;
pub const PIN_B4: PinB4 = GpioPin;
pub const PIN_B6: PinB6 = GpioPin;
pub const PIN_C0: PinC0 = GpioPin;
pub const PIN_C1: PinC1 = GpioPin;
pub const PIN_C2: PinC2 = GpioPin;
pub const PIN_C3: PinC3 = GpioPin;
pub const PIN_C4: PinC4 = GpioPin;
pub const PIN_C5: PinC5 = GpioPin;
pub const PIN_C6: PinC6 = GpioPin;
pub const PIN_C7: PinC7 = GpioPin;
pub const PIN_D0: PinD0 = GpioPin;
pub const PIN_D1: PinD1 = GpioPin;
pub const PIN_D2: PinD2 = GpioPin;
pub const PIN_D3: PinD3 = GpioPin;
pub const PIN_D4: PinD4 = GpioPin;
pub const PIN_D5: PinD5 = GpioPin;
pub const PIN_D6: PinD6 = GpioPin;
pub const PIN_D7: PinD7 = GpioPin;
pub const PIN_E0: PinE0 = GpioPin;
pub const PIN_E1: PinE1 = GpioPin;
pub const PIN_E2: PinE2 = GpioPin;
pub const PIN_E3: PinE3 = GpioPin;
pub const PIN_E4: PinE4 = GpioPin;
pub const PIN_E5: PinE5 = GpioPin;
pub const PIN_E6: PinE6 = GpioPin;
pub const PIN_E7: PinE7 = GpioPin;
pub const PIN_F0: PinF0 = GpioPin;
pub const PIN_F1: PinF1 = GpioPin;
pub const PIN_F2: PinF2 = GpioPin;
pub const PIN_F3: PinF3 = GpioPin;
pub const PIN_F4: PinF4 = GpioPin;

} // verus!

verus! {

/// The registers of the port at `base` that set how a pin is routed and
/// driven: function select and code, direction, drive strength, open drain
/// and pull resistors.
pub open spec fn pad_and_routing_regs(base: u32) -> Set<u32> {
    set![
        reg_addr(base, AFSEL),
        reg_addr(base, PCTL),
        reg_addr(base, DIR),
        reg_addr(base, DR2R),
        reg_addr(base, DR4R),
        reg_addr(base, DR8R),
        reg_addr(base, ODR),
        reg_addr(base, PUR),
        reg_addr(base, PDR),
    ]
}

/// Configuring a pin writes its routing and pad setup only while the pin is
/// disabled, and enables it as the very last store.
pub proof fn lemma_configure_disables_first<P: Pin>(p: P, log: Seq<Event>, function: u8)
    requires
        p.wf(),
    ensures
        stored_while_clear(
            configure_log(log, p.clock(), p.base(), p.lane(), function),
            log.len(),
            pad_and_routing_regs(p.base()),
            reg_addr(p.base(), DEN),
            p.lane(),
        ),
        field_of(value_at(configure_log(log, p.clock(), p.base(), p.lane(), function), reg_addr(p.base(), DEN)), p.lane(), 1) == 1,
        configure_log(log, p.clock(), p.base(), p.lane(), function).last() is Write,
        configure_log(log, p.clock(), p.base(), p.lane(), function).last()->addr == reg_addr(p.base(), DEN),
{
    broadcast use crate::bus::lemma_stored_while_clear_push;

    p.lemma_layout();
    lemma_masks();
    let base = p.base();
    let lane = p.lane();
    let regs = pad_and_routing_regs(base);
    let den = reg_addr(base, DEN);
    lemma_stored_while_clear_start(log, regs, den, lane);
    let l0 = ensure_clock(log, p.clock());
    let l1 = unlock_log(l0, base, lane);
    let l2 = rmw(l1, den, lane, 1, 0);
    lemma_field_round_trip(l1, den, lane, 1, 0);
    assert(stored_while_clear(l2, log.len(), regs, den, lane));
    let l3 = function_log(l2, base, lane, function);
    if function != 0 {
        let la = rmw(l2, reg_addr(base, AFSEL), lane, 1, 1);
        lemma_field_isolation(l2, reg_addr(base, AFSEL), lane, 1, 1, den, lane, 1);
        assert(stored_while_clear(la, log.len(), regs, den, lane));
        lemma_field_isolation(la, reg_addr(base, PCTL), (4 * lane) as u32, 4, function as u32, den, lane, 1);
    } else {
        lemma_field_isolation(l2, reg_addr(base, AFSEL), lane, 1, 0, den, lane, 1);
    }
    assert(stored_while_clear(l3, log.len(), regs, den, lane));
    assert(field_of(value_at(l3, den), lane, 1) == 0);
    let k1 = rmw(l3, reg_addr(base, DR2R), lane, 1, 1);
    lemma_field_isolation(l3, reg_addr(base, DR2R), lane, 1, 1, den, lane, 1);
    let k2 = rmw(k1, reg_addr(base, DR4R), lane, 1, 0);
    lemma_field_isolation(k1, reg_addr(base, DR4R), lane, 1, 0, den, lane, 1);
    let k3 = rmw(k2, reg_addr(base, DR8R), lane, 1, 0);
    lemma_field_isolation(k2, reg_addr(base, DR8R), lane, 1, 0, den, lane, 1);
    let k4 = rmw(k3, reg_addr(base, ODR), lane, 1, 0);
    lemma_field_isolation(k3, reg_addr(base, ODR), lane, 1, 0, den, lane, 1);
    let k5 = rmw(k4, reg_addr(base, PUR), lane, 1, 0);
    lemma_field_isolation(k4, reg_addr(base, PUR), lane, 1, 0, den, lane, 1);
    let k6 = rmw(k5, reg_addr(base, PDR), lane, 1, 0);
    lemma_field_isolation(k5, reg_addr(base, PDR), lane, 1, 0, den, lane, 1);
    assert(k6 == pad_log(l3, base, lane));
    assert(stored_while_clear(k6, log.len(), regs, den, lane));
    assert(field_of(value_at(k6, den), lane, 1) == 0);
    lemma_field_round_trip(k6, den, lane, 1, 1);
}

/// Changing a pin's direction writes the direction only while the pin is
/// disabled, and enables it as the very last store.
pub proof fn lemma_set_direction_disables_first<P: Pin>(p: P, log: Seq<Event>, dir: GpioDirection)
    requires
        p.wf(),
    ensures
        stored_while_clear(
            set_direction_log(log, p.base(), p.lane(), dir),
            log.len(),
            set![reg_addr(p.base(), DIR)],
            reg_addr(p.base(), DEN),
            p.lane(),
        ),
        field_of(value_at(set_direction_log(log, p.base(), p.lane(), dir), reg_addr(p.base(), DEN)), p.lane(), 1) == 1,
        field_of(value_at(set_direction_log(log, p.base(), p.lane(), dir), reg_addr(p.base(), DIR)), p.lane(), 1)
            == direction_bit(dir),
{
    broadcast use crate::bus::lemma_stored_while_clear_push;

    p.lemma_layout();
    lemma_masks();
    let base = p.base();
    let lane = p.lane();
    let den = reg_addr(base, DEN);
    let dirr = reg_addr(base, DIR);
    lemma_stored_while_clear_start(log, set![dirr], den, lane);
    let l1 = rmw(log, den, lane, 1, 0);
    lemma_field_round_trip(log, den, lane, 1, 0);
    let l2 = rmw(l1, dirr, lane, 1, direction_bit(dir));
    lemma_field_isolation(l1, dirr, lane, 1, direction_bit(dir), den, lane, 1);
    lemma_field_round_trip(l1, dirr, lane, 1, direction_bit(dir));
    lemma_field_round_trip(l2, den, lane, 1, 1);
    lemma_field_isolation(l2, den, lane, 1, 1, dirr, lane, 1);
}

/// Driving one pin leaves the level of every other pin as it was, in the same
/// port or another.
pub proof fn lemma_pins_independent<P: Pin, Q: Pin>(p: P, q: Q, log: Seq<Event>, level: GpioLevel)
    requires
        p.wf(),
        q.wf(),
        p.base() != q.base() || p.lane() != q.lane(),
    ensures
        q.level_in(p.level_log(log, level)) == q.level_in(log),
{
    p.lemma_layout();
    q.lemma_layout();
    lemma_field_isolation(log, reg_addr(p.base(), DATA), p.lane(), 1, level_bit(level), reg_addr(q.base(), DATA), q.lane(), 1);
}

} // verus!
