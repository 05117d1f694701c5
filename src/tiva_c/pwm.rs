//! PWM generators and their output channels.

use vstd::prelude::*;
use crate::bus::{Bus, Event, PeripheralClock, value_at, rmw, ensure_clock, reg_addr, stored_while_clear, lemma_field_round_trip, lemma_field_isolation, lemma_stored_while_clear_start};
use crate::field::field_of;
use crate::tiva_c::pin::{Pin, PinD0, PinE4, PinF1, PinF2, PIN_D0, PIN_E4, PIN_F1, PIN_F2, configure_log as pin_configure_log};

verus! {

broadcast use crate::bus::lemma_value_after_push;

/// Output enables of a PWM module's control block, one bit per channel.
pub const ENABLE: u32 = 0x08;
/// A generator's control; bit 0 enables the generator.
pub const CTL: u32 = 0x00;
/// A generator's load value (the period), 16 bits.
pub const LOAD: u32 = 0x10;
/// A generator's comparators, one word each, 16 bits.
pub const CMP: u32 = 0x18;
/// A generator's output actions, one word per output.
pub const GEN: u32 = 0x20;
/// Action on load, in an action word, two bits.
pub const ACT_LOAD: u32 = 2;
/// Action of output A on comparator A counting down, two bits.
pub const ACT_CMPAD: u32 = 6;
/// Action of output B on comparator B counting down, two bits.
pub const ACT_CMPBD: u32 = 10;
/// Invert the output, in an action field.
pub const ACTION_INVERT: u32 = 1;
/// Drive the output low, in an action field.
pub const ACTION_LOW: u32 = 2;

/// The register blocks of the two PWM modules and of their generators.
pub const PWM_0_CTL: u32 = 0x4002_8000;
pub const PWM_0_GEN_0: u32 = 0x4002_8040;
pub const PWM_0_GEN_1: u32 = 0x4002_8080;
pub const PWM_0_GEN_2: u32 = 0x4002_80C0;
pub const PWM_0_GEN_3: u32 = 0x4002_8100;
pub const PWM_1_CTL: u32 = 0x4002_9000;
pub const PWM_1_GEN_0: u32 = 0x4002_9040;
pub const PWM_1_GEN_1: u32 = 0x4002_9080;
pub const PWM_1_GEN_2: u32 = 0x4002_90C0;
pub const PWM_1_GEN_3: u32 = 0x4002_9100;

/// The period of the generator at `base` after `log`.
pub open spec fn period_in(log: Seq<Event>, base: u32) -> u32 {
    field_of(value_at(log, reg_addr(base, LOAD)), 0, 16)
}

/// The address of comparator `slot` of the generator at `base`.
pub open spec fn cmp_reg(base: u32, slot: u32) -> u32 {
    reg_addr(base, (CMP + 4 * slot) as u32)
}

/// The address of the action word of output `slot` of the generator at `base`.
pub open spec fn gen_reg(base: u32, slot: u32) -> u32 {
    reg_addr(base, (GEN + 4 * slot) as u32)
}

/// Comparator `slot` of the generator at `base` after `log`.
pub open spec fn comparator_in(log: Seq<Event>, base: u32, slot: u32) -> u32 {
    field_of(value_at(log, cmp_reg(base, slot)), 0, 16)
}

/// The pulse width of output `slot`: the period less the comparator.
pub open spec fn pulse_width_in(log: Seq<Event>, base: u32, slot: u32) -> int {
    period_in(log, base) - comparator_in(log, base, slot)
}

/// `log` followed by the stores that set output `slot`'s pulse width to `w`.
pub open spec fn pulse_width_log(log: Seq<Event>, base: u32, slot: u32, w: u16) -> Seq<Event> {
    rmw(log, cmp_reg(base, slot), 0, 16, (period_in(log, base) - w) as u32)
}

/// `log` followed by the generator setup of output `slot`: the generator is
/// stopped first, then output `slot` inverts on load and is driven low on the
/// down-count match. The generator is left stopped.
pub open spec fn generator_log(log: Seq<Event>, base: u32, slot: u32) -> Seq<Event> {
    let l0 = rmw(log, reg_addr(base, CTL), 0, 1, 0);
    let l1 = rmw(l0, gen_reg(base, slot), ACT_LOAD, 2, ACTION_INVERT);
    if slot == 0 {
        rmw(l1, gen_reg(base, 0), ACT_CMPAD, 2, ACTION_LOW)
    } else {
        rmw(l1, gen_reg(base, 1), ACT_CMPBD, 2, ACTION_LOW)
    }
}

/// The generator output that drives channel `channel`: even channels are
/// output A (0), odd ones output B (1).
pub open spec fn slot_of(channel: u32) -> u32 {
    channel % 2
}

/// A PWM output channel: one of the two outputs of a generator.
pub trait PwmGen {
    type Pin: Pin;

    /// The handle names a channel that exists.
    spec fn wf(&self) -> bool;

    /// The PWM module's clock gate.
    spec fn gate(&self) -> PeripheralClock;

    /// The address of the module's control block.
    spec fn ctl_base(&self) -> u32;

    /// The address of the generator's register block.
    spec fn base(&self) -> u32;

    /// The channel's number within the module.
    spec fn channel(&self) -> u32;

    /// The channel's output pin.
    spec fn spec_pin(&self) -> Self::Pin;

    /// The pin function that routes the channel to its pin.
    spec fn spec_pin_function(&self) -> u8;

    /// Where a channel that exists lies: the module's control block lies
    /// below the generator's block, the pin's port lies below both, and the
    /// pin and its function exist.
    proof fn lemma_layout(&self)
        requires
            self.wf(),
        ensures
            self.base() <= 0xFFFF_F000,
            self.ctl_base() + 0x40 <= self.base(),
            self.channel() < 8,
            self.spec_pin().wf(),
            self.spec_pin().base() + 0x1000 <= self.ctl_base(),
            self.spec_pin_function() < 16,
    ;

    fn periph(&self) -> (r: PeripheralClock)
        requires
            self.wf(),
        ensures
            r == self.gate(),
    ;

    fn ctl_regs(&self) -> (r: u32)
        requires
            self.wf(),
        ensures
            r == self.ctl_base(),
    ;

    fn regs(&self) -> (r: u32)
        requires
            self.wf(),
        ensures
            r == self.base(),
    ;

    fn pin(&self) -> (r: Self::Pin)
        requires
            self.wf(),
        ensures
            r == self.spec_pin(),
    ;

    fn pin_function(&self) -> (r: u8)
        requires
            self.wf(),
        ensures
            r == self.spec_pin_function(),
    ;

    fn chan(&self) -> (r: usize)
        requires
            self.wf(),
        ensures
            r == self.channel(),
    ;

    /// The generator output that drives the channel.
    fn index(&self) -> (r: usize)
        requires
            self.wf(),
        ensures
            r == slot_of(self.channel()),
    {
        proof {
            self.lemma_layout();
        }
        self.chan() % 2
    }

    /// Configures the channel: opens the module's clock, routes the pin to
    /// the channel, stops the generator, and sets up the generator output.
    /// The generator stays stopped until `enable`.
    fn configure(&self, bus: &mut Bus)
        requires
            self.wf(),
        ensures
            final(bus)@ == generator_log(
                pin_configure_log(
                    ensure_clock(old(bus)@, self.gate()),
                    self.spec_pin().clock(),
                    self.spec_pin().base(),
                    self.spec_pin().lane(),
                    self.spec_pin_function(),
                ),
                self.base(),
                slot_of(self.channel()),
            ),
    {
        proof {
            self.lemma_layout();
        }
        bus.ensure_enabled(self.periph());
        self.pin().configure(bus, self.pin_function());
        let i = self.index() as u32;
        let base = self.regs();
        bus.modify(base + CTL, 0, 1, 0);
        bus.modify(base + GEN + 4 * i, ACT_LOAD, 2, ACTION_INVERT);
        if i == 0 {
            bus.modify(base + GEN, ACT_CMPAD, 2, ACTION_LOW);
        } else {
            bus.modify(base + GEN + 4, ACT_CMPBD, 2, ACTION_LOW);
        }
    }

    /// The rate at which the generator counts, for a system clock of
    /// `sysclk` Hz: the module divides it by 64.
    fn clock(&self, sysclk: u32) -> (r: u32)
        ensures
            r == sysclk / 64,
    {
        sysclk / 64
    }

    /// Sets the generator's period.
    fn set_period(&self, bus: &mut Bus, period: u16)
        requires
            self.wf(),
        ensures
            final(bus)@ == rmw(old(bus)@, reg_addr(self.base(), LOAD), 0, 16, period as u32),
    {
        proof {
            self.lemma_layout();
        }
        bus.modify(self.regs() + LOAD, 0, 16, period as u32);
    }

    /// The generator's period.
    fn period(&self, bus: &Bus) -> (r: u16)
        requires
            self.wf(),
        ensures
            r == period_in(bus@, self.base()),
    {
        proof {
            self.lemma_layout();
            crate::field::lemma_masks();
            let w = value_at(bus@, reg_addr(self.base(), LOAD));
            assert((w >> 0u32) & 0xFFFFu32 <= 0xFFFF) by (bit_vector);
        }
        bus.field(self.regs() + LOAD, 0, 16) as u16
    }

    /// The channel's pulse width: the period less the comparator. The
    /// comparator must not exceed the period.
    fn pulse_width(&self, bus: &Bus) -> (r: u16)
        requires
            self.wf(),
            comparator_in(bus@, self.base(), slot_of(self.channel())) <= period_in(bus@, self.base()),
        ensures
            r == pulse_width_in(bus@, self.base(), slot_of(self.channel())),
    {
        proof {
            self.lemma_layout();
            crate::field::lemma_masks();
            let w = value_at(bus@, cmp_reg(self.base(), slot_of(self.channel())));
            assert((w >> 0u32) & 0xFFFFu32 <= 0xFFFF) by (bit_vector);
        }
        let i = self.index() as u32;
        let cmp = bus.field(self.regs() + CMP + 4 * i, 0, 16) as u16;
        self.period(bus) - cmp
    }

    /// Sets the channel's pulse width to `pulse_width`, which must not exceed
    /// the period: the comparator takes the period less the width.
    fn set_pulse_width(&self, bus: &mut Bus, pulse_width: u16)
        requires
            self.wf(),
            pulse_width <= period_in(old(bus)@, self.base()),
        ensures
            final(bus)@ == pulse_width_log(old(bus)@, self.base(), slot_of(self.channel()), pulse_width),
    {
        proof {
            self.lemma_layout();
        }
        let cmp = self.period(bus) - pulse_width;
        let i = self.index() as u32;
        bus.modify(self.regs() + CMP + 4 * i, 0, 16, cmp as u32);
    }

    /// Starts the channel: enables its output, then the generator.
    fn enable(&self, bus: &mut Bus)
        requires
            self.wf(),
        ensures
            final(bus)@ == rmw(
                rmw(old(bus)@, reg_addr(self.ctl_base(), ENABLE), self.channel(), 1, 1),
                reg_addr(self.base(), CTL),
                0,
                1,
                1,
            ),
    {
        proof {
            self.lemma_layout();
        }
        bus.modify(self.ctl_regs() + ENABLE, self.chan() as u32, 1, 1);
        bus.modify(self.regs() + CTL, 0, 1, 1);
    }
}

} // verus!

verus! {

/// Module 0, channel 4 (generator 2, output A), on pin E4.
#[derive(Clone, Copy)]
pub struct Pwm0Chan4;

impl PwmGen for Pwm0Chan4 {
    type Pin = PinE4;

    open spec fn wf(&self) -> bool {
        true
    }

    open spec fn gate(&self) -> PeripheralClock {
        PeripheralClock::Pwm(0)
    }

    open spec fn ctl_base(&self) -> u32 {
        PWM_0_CTL
    }

    open spec fn base(&self) -> u32 {
        PWM_0_GEN_2
    }

    open spec fn channel(&self) -> u32 {
        4
    }

    open spec fn spec_pin(&self) -> PinE4 {
        PIN_E4
    }

    open spec fn spec_pin_function(&self) -> u8 {
        4
    }

    proof fn lemma_layout(&self) {
        assert(self.spec_pin() == PIN_E4 && self.spec_pin_function() == 4);
        assert(self.base() == PWM_0_GEN_2 && self.ctl_base() == PWM_0_CTL);
    }

    fn periph(&self) -> (r: PeripheralClock) {
        PeripheralClock::Pwm(0)
    }

    fn ctl_regs(&self) -> (r: u32) {
        PWM_0_CTL
    }

    fn regs(&self) -> (r: u32) {
        PWM_0_GEN_2
    }

    fn pin(&self) -> (r: PinE4) {
        PIN_E4
    }

    fn pin_function(&self) -> (r: u8) {
        4
    }

    fn chan(&self) -> (r: usize) {
        4
    }
}

/// Module 0, channel 6 (generator 3, output A), on pin D0.
#[derive(Clone, Copy)]
pub struct Pwm0Chan6;

impl PwmGen for Pwm0Chan6 {
    type Pin = PinD0;

    open spec fn wf(&self) -> bool {
        true
    }

    open spec fn gate(&self) -> PeripheralClock {
        PeripheralClock::Pwm(0)
    }

    open spec fn ctl_base(&self) -> u32 {
        PWM_0_CTL
    }

    open spec fn base(&self) -> u32 {
        PWM_0_GEN_3
    }

    open spec fn channel(&self) -> u32 {
        6
    }

    open spec fn spec_pin(&self) -> PinD0 {
        PIN_D0
    }

    open spec fn spec_pin_function(&self) -> u8 {
        4
    }

    proof fn lemma_layout(&self) {
        assert(self.spec_pin() == PIN_D0 && self.spec_pin_function() == 4);
        assert(self.base() == PWM_0_GEN_3 && self.ctl_base() == PWM_0_CTL);
    }

    fn periph(&self) -> (r: PeripheralClock) {
        PeripheralClock::Pwm(0)
    }

    fn ctl_regs(&self) -> (r: u32) {
        PWM_0_CTL
    }

    fn regs(&self) -> (r: u32) {
        PWM_0_GEN_3
    }

    fn pin(&self) -> (r: PinD0) {
        PIN_D0
    }

    fn pin_function(&self) -> (r: u8) {
        4
    }

    fn chan(&self) -> (r: usize) {
        6
    }
}

/// Module 1, channel 5 (generator 2, output B), on pin F1.
#[derive(Clone, Copy)]
pub struct Pwm1Chan5;

impl PwmGen for Pwm1Chan5 {
    type Pin = PinF1;

    open spec fn wf(&self) -> bool {
        true
    }

    open spec fn gate(&self) -> PeripheralClock {
        PeripheralClock::Pwm(1)
    }

    open spec fn ctl_base(&self) -> u32 {
        PWM_1_CTL
    }

    open spec fn base(&self) -> u32 {
        PWM_1_GEN_2
    }

    open spec fn channel(&self) -> u32 {
        5
    }

    open spec fn spec_pin(&self) -> PinF1 {
        PIN_F1
    }

    open spec fn spec_pin_function(&self) -> u8 {
        5
    }

    proof fn lemma_layout(&self) {
        assert(self.spec_pin() == PIN_F1 && self.spec_pin_function() == 5);
        assert(self.base() == PWM_1_GEN_2 && self.ctl_base() == PWM_1_CTL);
    }

    fn periph(&self) -> (r: PeripheralClock) {
        PeripheralClock::Pwm(1)
    }

    fn ctl_regs(&self) -> (r: u32) {
        PWM_1_CTL
    }

    fn regs(&self) -> (r: u32) {
        PWM_1_GEN_2
    }

    fn pin(&self) -> (r: PinF1) {
        PIN_F1
    }

    fn pin_function(&self) -> (r: u8) {
        5
    }

    fn chan(&self) -> (r: usize) {
        5
    }
}

/// Module 1, channel 6 (generator 3, output A), on pin F2.
#[derive(Clone, Copy)]
pub struct Pwm1Chan6;

impl PwmGen for Pwm1Chan6 {
    type Pin = PinF2;

    open spec fn wf(&self) -> bool {
        true
    }

    open spec fn gate(&self) -> PeripheralClock {
        PeripheralClock::Pwm(1)
    }

    open spec fn ctl_base(&self) -> u32 {
        PWM_1_CTL
    }

    open spec fn base(&self) -> u32 {
        PWM_1_GEN_3
    }

    open spec fn channel(&self) -> u32 {
        6
    }

    open spec fn spec_pin(&self) -> PinF2 {
        PIN_F2
    }

    open spec fn spec_pin_function(&self) -> u8 {
        5
    }

    proof fn lemma_layout(&self) {
        assert(self.spec_pin() == PIN_F2 && self.spec_pin_function() == 5);
        assert(self.base() == PWM_1_GEN_3 && self.ctl_base() == PWM_1_CTL);
    }

    fn periph(&self) -> (r: PeripheralClock) {
        PeripheralClock::Pwm(1)
    }

    fn ctl_regs(&self) -> (r: u32) {
        PWM_1_CTL
    }

    fn regs(&self) -> (r: u32) {
        PWM_1_GEN_3
    }

    fn pin(&self) -> (r: PinF2) {
        PIN_F2
    }

    fn pin_function(&self) -> (r: u8) {
        5
    }

    fn chan(&self) -> (r: usize) {
        6
    }
}

pub const PWM0_CHAN4: Pwm0Chan4 = Pwm0Chan4;
pub const PWM0_CHAN6: Pwm0Chan6 = Pwm0Chan6;
pub const PWM1_CHAN5: Pwm1Chan5 = Pwm1Chan5;
pub const PWM1_CHAN6: Pwm1Chan6 = Pwm1Chan6;

} // verus!

verus! {

/// Setting a pulse width `w` no larger than the period `P` leaves `P - w` in
/// the comparator and `P` as the period, so the pulse width reads back as `w`.
pub proof fn lemma_pulse_width_round_trip<G: PwmGen>(g: G, log: Seq<Event>, w: u16)
    requires
        g.wf(),
        w <= period_in(log, g.base()),
    ensures
        comparator_in(pulse_width_log(log, g.base(), slot_of(g.channel()), w), g.base(), slot_of(g.channel()))
            == period_in(log, g.base()) - w,
        period_in(pulse_width_log(log, g.base(), slot_of(g.channel()), w), g.base()) == period_in(log, g.base()),
        pulse_width_in(pulse_width_log(log, g.base(), slot_of(g.channel()), w), g.base(), slot_of(g.channel()))
            == w,
{
    g.lemma_layout();
    crate::field::lemma_masks();
    let base = g.base();
    let slot = slot_of(g.channel());
    let load = value_at(log, reg_addr(base, LOAD));
    assert((load >> 0u32) & 0xFFFFu32 <= 0xFFFF) by (bit_vector);
    let c = (period_in(log, base) - w) as u32;
    crate::bus::lemma_field_round_trip(log, cmp_reg(base, slot), 0, 16, c);
    crate::bus::lemma_field_isolation(log, cmp_reg(base, slot), 0, 16, c, reg_addr(base, LOAD), 0, 16);
}

} // verus!

verus! {

/// Setting up a generator output writes its action words only while the
/// generator is stopped, and leaves it stopped.
pub proof fn lemma_generator_stops_first<G: PwmGen>(g: G, log: Seq<Event>)
    requires
        g.wf(),
    ensures
        stored_while_clear(
            generator_log(log, g.base(), slot_of(g.channel())),
            log.len(),
            set![gen_reg(g.base(), 0), gen_reg(g.base(), 1)],
            reg_addr(g.base(), CTL),
            0,
        ),
        field_of(value_at(generator_log(log, g.base(), slot_of(g.channel())), reg_addr(g.base(), CTL)), 0, 1) == 0,
{
    broadcast use crate::bus::lemma_stored_while_clear_push;

    g.lemma_layout();
    crate::field::lemma_masks();
    let base = g.base();
    let slot = slot_of(g.channel());
    let ctl = reg_addr(base, CTL);
    let regs = set![gen_reg(base, 0), gen_reg(base, 1)];
    lemma_stored_while_clear_start(log, regs, ctl, 0);
    let l0 = rmw(log, ctl, 0, 1, 0);
    lemma_field_round_trip(log, ctl, 0, 1, 0);
    let l1 = rmw(l0, gen_reg(base, slot), ACT_LOAD, 2, ACTION_INVERT);
    lemma_field_isolation(l0, gen_reg(base, slot), ACT_LOAD, 2, ACTION_INVERT, ctl, 0, 1);
    assert(stored_while_clear(l1, log.len(), regs, ctl, 0));
    if slot == 0 {
        lemma_field_isolation(l1, gen_reg(base, 0), ACT_CMPAD, 2, ACTION_LOW, ctl, 0, 1);
    } else {
        lemma_field_isolation(l1, gen_reg(base, 1), ACT_CMPBD, 2, ACTION_LOW, ctl, 0, 1);
    }
}

/// Enabling a channel turns on its own output and its generator, and leaves
/// the output enable of every other channel of the module as it was.
pub proof fn lemma_enable_keeps_other_channels<G: PwmGen>(g: G, log: Seq<Event>, other: u32)
    requires
        g.wf(),
        other < 8,
        other != g.channel(),
    ensures
        ({
            let after = rmw(
                rmw(log, reg_addr(g.ctl_base(), ENABLE), g.channel(), 1, 1),
                reg_addr(g.base(), CTL),
                0,
                1,
                1,
            );
            &&& field_of(value_at(after, reg_addr(g.ctl_base(), ENABLE)), g.channel(), 1) == 1
            &&& field_of(value_at(after, reg_addr(g.ctl_base(), ENABLE)), other, 1) == field_of(
                value_at(log, reg_addr(g.ctl_base(), ENABLE)),
                other,
                1,
            )
            &&& field_of(value_at(after, reg_addr(g.base(), CTL)), 0, 1) == 1
        }),
{
    g.lemma_layout();
    crate::field::lemma_masks();
    let en = reg_addr(g.ctl_base(), ENABLE);
    let ctl = reg_addr(g.base(), CTL);
    let l1 = rmw(log, en, g.channel(), 1, 1);
    lemma_field_round_trip(log, en, g.channel(), 1, 1);
    lemma_field_isolation(log, en, g.channel(), 1, 1, en, other, 1);
    lemma_field_isolation(l1, ctl, 0, 1, 1, en, g.channel(), 1);
    lemma_field_isolation(l1, ctl, 0, 1, 1, en, other, 1);
    lemma_field_round_trip(l1, ctl, 0, 1, 1);
}

} // verus!
