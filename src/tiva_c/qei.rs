//! Quadrature encoder interfaces.

use vstd::prelude::*;
use crate::bus::{Bus, Event, PeripheralClock, value_at, store, rmw, ensure_clock, reg_addr, stored_while_clear, lemma_field_round_trip, lemma_field_isolation, lemma_stored_while_clear_start};
use crate::field::{bit, field_of, lemma_masks};
use crate::quadrature::QuadratureDecoder;
use crate::tiva_c::pin::{Pin, PinC5, PinC6, PinD6, PinD7, PIN_C5, PIN_C6, PIN_D6, PIN_D7, configure_log as pin_configure_log};

verus! {

/// Control.
pub const CTL: u32 = 0x00;
/// Position.
pub const POS: u32 = 0x08;
/// Maximum position.
pub const MAXPOS: u32 = 0x0C;

/// Enable bit, in the control register.
pub const ENABLE: u32 = 0;
/// Swap of the A and B signals, in the control register (0 is no swap).
pub const SWAP: u32 = 1;
/// Signal mode, in the control register (0 is quadrature, 1 clock and direction).
pub const SIGMODE: u32 = 2;
/// Capture mode, in the control register (0 counts edges of A, 1 of A and B).
pub const CAPMODE: u32 = 3;
/// Reset mode, in the control register (0 resets on the maximum position, 1 on the index).
pub const RESMODE: u32 = 4;
/// Input filter enable, in the control register.
pub const FILTEN: u32 = 13;

/// The register blocks of the two encoder interfaces.
pub const QEI_0: u32 = 0x4002_C000;
pub const QEI_1: u32 = 0x4002_D000;

/// `log` followed by the stores of a decoder's configuration once its pins are
/// set up: disable, quadrature mode on both signals unswapped, the full
/// position range, enable.
pub open spec fn decoder_setup_log(log: Seq<Event>, base: u32) -> Seq<Event> {
    let ctl = reg_addr(base, CTL);
    let l1 = rmw(log, ctl, ENABLE, 1, 0);
    let l2 = rmw(rmw(l1, ctl, SWAP, 1, 0), ctl, SIGMODE, 1, 0);
    let l3 = rmw(rmw(l2, ctl, CAPMODE, 1, 1), ctl, RESMODE, 1, 0);
    let l4 = store(l3, reg_addr(base, MAXPOS), 0xFFFF_FFFF);
    rmw(l4, ctl, ENABLE, 1, 1)
}

/// A quadrature encoder interface of the Tiva C.
pub trait Qei {
    type PinA: Pin;
    type PinB: Pin;

    /// The handle names an interface that exists.
    spec fn wf(&self) -> bool;

    /// The interface's clock gate.
    spec fn clock(&self) -> PeripheralClock;

    /// The address of the interface's register block.
    spec fn base(&self) -> u32;

    /// The pin of signal A.
    spec fn spec_pin_a(&self) -> Self::PinA;

    /// The pin function that routes signal A.
    spec fn spec_pin_a_function(&self) -> u8;

    /// The pin of signal B.
    spec fn spec_pin_b(&self) -> Self::PinB;

    /// The pin function that routes signal B.
    spec fn spec_pin_b_function(&self) -> u8;

    /// Where an interface that exists lies: its pins exist, their ports lie
    /// below the interface's block, and their functions exist.
    proof fn lemma_layout(&self)
        requires
            self.wf(),
        ensures
            self.base() <= 0xFFFF_F000,
            self.spec_pin_a().wf(),
            self.spec_pin_b().wf(),
            self.spec_pin_a().base() + 0x1000 <= self.base(),
            self.spec_pin_b().base() + 0x1000 <= self.base(),
            self.spec_pin_a_function() < 16,
            self.spec_pin_b_function() < 16,
    ;

    fn periph(&self) -> (r: PeripheralClock)
        requires
            self.wf(),
        ensures
            r == self.clock(),
    ;

    fn regs(&self) -> (r: u32)
        requires
            self.wf(),
        ensures
            r == self.base(),
    ;

    fn pin_a(&self) -> (r: Self::PinA)
        requires
            self.wf(),
        ensures
            r == self.spec_pin_a(),
    ;

    fn pin_a_function(&self) -> (r: u8)
        requires
            self.wf(),
        ensures
            r == self.spec_pin_a_function(),
    ;

    fn pin_b(&self) -> (r: Self::PinB)
        requires
            self.wf(),
        ensures
            r == self.spec_pin_b(),
    ;

    fn pin_b_function(&self) -> (r: u8)
        requires
            self.wf(),
        ensures
            r == self.spec_pin_b_function(),
    ;

    /// Configures the interface: opens its clock, routes both pins to it,
    /// and, with the decoder disabled, selects quadrature mode on both signals
    /// unswapped, no reset on the index, and the full position range, then
    /// enables it.
    fn configure(&self, bus: &mut Bus)
        requires
            self.wf(),
        ensures
            final(bus)@ == decoder_setup_log(
                pin_configure_log(
                    pin_configure_log(
                        ensure_clock(old(bus)@, self.clock()),
                        self.spec_pin_a().clock(),
                        self.spec_pin_a().base(),
                        self.spec_pin_a().lane(),
                        self.spec_pin_a_function(),
                    ),
                    self.spec_pin_b().clock(),
                    self.spec_pin_b().base(),
                    self.spec_pin_b().lane(),
                    self.spec_pin_b_function(),
                ),
                self.base(),
            ),
    {
        proof {
            self.lemma_layout();
        }
        bus.ensure_enabled(self.periph());
        self.pin_a().configure(bus, self.pin_a_function());
        self.pin_b().configure(bus, self.pin_b_function());
        self.disable(bus);
        let ctl = self.regs() + CTL;
        bus.modify(ctl, SWAP, 1, 0);
        bus.modify(ctl, SIGMODE, 1, 0);
        bus.modify(ctl, CAPMODE, 1, 1);
        bus.modify(ctl, RESMODE, 1, 0);
        bus.write(self.regs() + MAXPOS, 0xFFFF_FFFF);
        self.enable(bus);
    }

    /// Stops the decoder.
    fn disable(&self, bus: &mut Bus)
        requires
            self.wf(),
        ensures
            final(bus)@ == rmw(old(bus)@, reg_addr(self.base(), CTL), ENABLE, 1, 0),
    {
        proof {
            self.lemma_layout();
        }
        bus.modify(self.regs() + CTL, ENABLE, 1, 0);
    }

    /// Starts the decoder.
    fn enable(&self, bus: &mut Bus)
        requires
            self.wf(),
        ensures
            final(bus)@ == rmw(old(bus)@, reg_addr(self.base(), CTL), ENABLE, 1, 1),
    {
        proof {
            self.lemma_layout();
        }
        bus.modify(self.regs() + CTL, ENABLE, 1, 1);
    }

    /// Switches the input filter on.
    fn enable_input_filter(&self, bus: &mut Bus)
        requires
            self.wf(),
        ensures
            final(bus)@ == rmw(old(bus)@, reg_addr(self.base(), CTL), FILTEN, 1, bit(true)),
    {
        proof {
            self.lemma_layout();
        }
        bus.modify(self.regs() + CTL, FILTEN, 1, 1);
    }

    /// Switches the input filter off.
    fn disable_input_filter(&self, bus: &mut Bus)
        requires
            self.wf(),
        ensures
            final(bus)@ == rmw(old(bus)@, reg_addr(self.base(), CTL), FILTEN, 1, bit(false)),
    {
        proof {
            self.lemma_layout();
        }
        bus.modify(self.regs() + CTL, FILTEN, 1, 0);
    }
}

/// Every Tiva C encoder interface is a quadrature decoder.
impl<T: Qei> QuadratureDecoder for T {
    open spec fn decoder_wf(&self) -> bool {
        self.wf()
    }

    open spec fn pos_reg(&self) -> u32 {
        reg_addr(self.base(), POS)
    }

    open spec fn maxpos_reg(&self) -> u32 {
        reg_addr(self.base(), MAXPOS)
    }

    fn maxpos(&self, bus: &Bus) -> (r: u32) {
        proof {
            self.lemma_layout();
        }
        bus.read(self.regs() + MAXPOS)
    }

    fn set_maxpos(&self, bus: &mut Bus, maxpos: u32) {
        proof {
            self.lemma_layout();
        }
        bus.write(self.regs() + MAXPOS, maxpos);
    }

    fn pos(&self, bus: &Bus) -> (r: u32) {
        proof {
            self.lemma_layout();
        }
        bus.read(self.regs() + POS)
    }

    fn set_pos(&self, bus: &mut Bus, pos: u32) {
        proof {
            self.lemma_layout();
        }
        bus.write(self.regs() + POS, pos);
    }
}

/// Encoder interface 0, on pins D6 and D7.
#[derive(Clone, Copy)]
pub struct Qei0;

/// Encoder interface 1, on pins C5 and C6.
#[derive(Clone, Copy)]
pub struct Qei1;

impl Qei for Qei0 {
    type PinA = PinD6;
    type PinB = PinD7;

    open spec fn wf(&self) -> bool {
        true
    }

    open spec fn clock(&self) -> PeripheralClock {
        PeripheralClock::Qei(0)
    }

    open spec fn base(&self) -> u32 {
        QEI_0
    }

    open spec fn spec_pin_a(&self) -> PinD6 {
        PIN_D6
    }

    open spec fn spec_pin_a_function(&self) -> u8 {
        6
    }

    open spec fn spec_pin_b(&self) -> PinD7 {
        PIN_D7
    }

    open spec fn spec_pin_b_function(&self) -> u8 {
        6
    }

    proof fn lemma_layout(&self) {
        assert(self.spec_pin_a() == PIN_D6 && self.spec_pin_a_function() == 6);
        assert(self.spec_pin_b() == PIN_D7 && self.spec_pin_b_function() == 6);
    }

    fn periph(&self) -> (r: PeripheralClock) {
        PeripheralClock::Qei(0)
    }

    fn regs(&self) -> (r: u32) {
        QEI_0
    }

    fn pin_a(&self) -> (r: PinD6) {
        PIN_D6
    }

    fn pin_a_function(&self) -> (r: u8) {
        6
    }

    fn pin_b(&self) -> (r: PinD7) {
        PIN_D7
    }

    fn pin_b_function(&self) -> (r: u8) {
        6
    }
}

impl Qei for Qei1 {
    type PinA = PinC5;
    type PinB = PinC6;

    open spec fn wf(&self) -> bool {
        true
    }

    open spec fn clock(&self) -> PeripheralClock {
        PeripheralClock::Qei(1)
    }

    open spec fn base(&self) -> u32 {
        QEI_1
    }

    open spec fn spec_pin_a(&self) -> PinC5 {
        PIN_C5
    }

    open spec fn spec_pin_a_function(&self) -> u8 {
        6
    }

    open spec fn spec_pin_b(&self) -> PinC6 {
        PIN_C6
    }

    open spec fn spec_pin_b_function(&self) -> u8 {
        6
    }

    proof fn lemma_layout(&self) {
        assert(self.spec_pin_a() == PIN_C5 && self.spec_pin_a_function() == 6);
        assert(self.spec_pin_b() == PIN_C6 && self.spec_pin_b_function() == 6);
    }

    fn periph(&self) -> (r: PeripheralClock) {
        PeripheralClock::Qei(1)
    }

    fn regs(&self) -> (r: u32) {
        QEI_1
    }

    fn pin_a(&self) -> (r: PinC5) {
        PIN_C5
    }

    fn pin_a_function(&self) -> (r: u8) {
        6
    }

    fn pin_b(&self) -> (r: PinC6) {
        PIN_C6
    }

    fn pin_b_function(&self) -> (r: u8) {
        6
    }
}

pub const QEI0: Qei0 = Qei0;
pub const QEI1: Qei1 = Qei1;

} // verus!

verus! {

/// Once the decoder at `base` is disabled, its modes and maximum position are
/// written only while it stays disabled; it is enabled by the very last store,
/// with the full position range.
pub proof fn lemma_setup_disables_first(log: Seq<Event>, base: u32)
    requires
        base <= 0xFFFF_F000,
    ensures
        stored_while_clear(
            decoder_setup_log(log, base),
            log.len() + 1,
            set![reg_addr(base, CTL), reg_addr(base, MAXPOS)],
            reg_addr(base, CTL),
            ENABLE,
        ),
        field_of(value_at(decoder_setup_log(log, base), reg_addr(base, CTL)), ENABLE, 1) == 1,
        value_at(decoder_setup_log(log, base), reg_addr(base, MAXPOS)) == 0xFFFF_FFFF,
{
    broadcast use crate::bus::lemma_stored_while_clear_push;
    broadcast use crate::bus::lemma_value_after_push;

    lemma_masks();
    let ctl = reg_addr(base, CTL);
    let regs = set![ctl, reg_addr(base, MAXPOS)];
    let l1 = rmw(log, ctl, ENABLE, 1, 0);
    lemma_field_round_trip(log, ctl, ENABLE, 1, 0);
    lemma_stored_while_clear_start(l1, regs, ctl, ENABLE);
    let a = rmw(l1, ctl, SWAP, 1, 0);
    lemma_field_isolation(l1, ctl, SWAP, 1, 0, ctl, ENABLE, 1);
    let b = rmw(a, ctl, SIGMODE, 1, 0);
    lemma_field_isolation(a, ctl, SIGMODE, 1, 0, ctl, ENABLE, 1);
    let c = rmw(b, ctl, CAPMODE, 1, 1);
    lemma_field_isolation(b, ctl, CAPMODE, 1, 1, ctl, ENABLE, 1);
    let d = rmw(c, ctl, RESMODE, 1, 0);
    lemma_field_isolation(c, ctl, RESMODE, 1, 0, ctl, ENABLE, 1);
    let e = store(d, reg_addr(base, MAXPOS), 0xFFFF_FFFF);
    assert(stored_while_clear(e, log.len() + 1, regs, ctl, ENABLE));
    assert(field_of(value_at(e, ctl), ENABLE, 1) == 0);
    lemma_field_round_trip(e, ctl, ENABLE, 1, 1);
}

} // verus!
