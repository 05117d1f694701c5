//! General purpose timers, standard (16/32-bit) and wide (32/64-bit).

use vstd::prelude::*;
use crate::bus::{Bus, Event, PeripheralClock, value_at, store, rmw, write_field, ensure_clock, irq_on, reg_addr, stored_while_clear, lemma_field_round_trip, lemma_field_isolation, lemma_stored_while_clear_start};
use crate::field::{field_of, with_field, lemma_masks};

verus! {

broadcast use crate::bus::lemma_value_after_push;

/// Configuration: the width in which the two halves work.
pub const CFG: u32 = 0x00;
/// Timer A mode.
pub const TAMR: u32 = 0x04;
/// Timer B mode.
pub const TBMR: u32 = 0x08;
/// Control: the enables of both halves.
pub const CTL: u32 = 0x0C;
/// Interrupt mask.
pub const IMR: u32 = 0x18;
/// Interrupt clear, write-only.
pub const ICR: u32 = 0x24;
/// Timer A interval load.
pub const TAILR: u32 = 0x28;
/// Timer A match.
pub const TAMATCHR: u32 = 0x30;
/// Timer A prescale.
pub const TAPR: u32 = 0x38;
/// Timer A counter value.
pub const TAV: u32 = 0x50;

/// Timer A enable bit, in the control register.
pub const TAEN: u32 = 0;
/// Timer B enable bit, in the control register.
pub const TBEN: u32 = 8;
/// Mode field of a mode register, two bits.
pub const MR: u32 = 0;
/// Capture mode bit of a mode register.
pub const CMR: u32 = 2;
/// Alternate mode select bit of a mode register.
pub const AMS: u32 = 3;
/// Count direction bit of a mode register.
pub const CDIR: u32 = 4;
/// Match interrupt enable bit of a mode register.
pub const MIE: u32 = 5;
/// PWM interrupt enable bit of a mode register.
pub const PWMIE: u32 = 9;

/// The register blocks of the timer modules.
pub const TIMER_0: u32 = 0x4003_0000;
pub const TIMER_1: u32 = 0x4003_1000;
pub const TIMER_2: u32 = 0x4003_2000;
pub const TIMER_3: u32 = 0x4003_3000;
pub const TIMER_4: u32 = 0x4003_4000;
pub const TIMER_5: u32 = 0x4003_5000;
pub const TIMER_W_0: u32 = 0x4003_6000;
pub const TIMER_W_1: u32 = 0x4003_7000;
pub const TIMER_W_2: u32 = 0x4004_C000;
pub const TIMER_W_3: u32 = 0x4004_D000;
pub const TIMER_W_4: u32 = 0x4004_E000;
pub const TIMER_W_5: u32 = 0x4004_F000;

/// What a timer does.
#[derive(Clone, Copy, Debug, PartialEq, Eq, Structural)]
pub enum Mode {
    /// Loops and restarts once the timeout is reached.
    Periodic,
    /// Stops once the timeout is reached.
    OneShot,
    /// Runs on the 32.768 kHz clock and ticks at 1 Hz.
    RTC,
    /// Counts edges on an external pin.
    EdgeCount,
    /// Measures the time until an edge on an external pin.
    EdgeTime,
    /// Generates a square wave of set period and duty cycle.
    PWM,
}

/// The modes that `configure` sets up.
pub open spec fn mode_supported(mode: Mode) -> bool {
    mode == Mode::Periodic || mode == Mode::OneShot
}

/// The width in which the two halves of a timer work.
#[derive(Clone, Copy, Debug, PartialEq, Eq, Structural)]
pub enum TimerConfig {
    /// One timer of the full width.
    FullWidth,
    /// The real-time clock.
    Rtc,
    /// Two independent timers of half the width.
    HalfWidth,
}

impl TimerConfig {
    /// The field value that encodes the configuration.
    pub open spec fn code(self) -> u32 {
        match self {
            TimerConfig::FullWidth => 0,
            TimerConfig::Rtc => 1,
            TimerConfig::HalfWidth => 4,
        }
    }

    /// The configuration that a field value encodes, if any.
    pub open spec fn decode(bits: u32) -> Option<TimerConfig> {
        if bits == 0 {
            Some(TimerConfig::FullWidth)
        } else if bits == 1 {
            Some(TimerConfig::Rtc)
        } else if bits == 4 {
            Some(TimerConfig::HalfWidth)
        } else {
            None
        }
    }

    /// The field value that encodes the configuration.
    pub fn bits(self) -> (r: u32)
        ensures
            r == self.code(),
    {
        match self {
            TimerConfig::FullWidth => 0,
            TimerConfig::Rtc => 1,
            TimerConfig::HalfWidth => 4,
        }
    }

    /// The configuration that `bits` encodes, or `None` for a reserved value.
    pub fn from_bits(bits: u32) -> (r: Option<TimerConfig>)
        ensures
            r == TimerConfig::decode(bits),
    {
        if bits == 0 {
            Some(TimerConfig::FullWidth)
        } else if bits == 1 {
            Some(TimerConfig::Rtc)
        } else if bits == 4 {
            Some(TimerConfig::HalfWidth)
        } else {
            None
        }
    }
}

/// Every configuration decodes from its own encoding.
pub proof fn lemma_config_round_trip(c: TimerConfig)
    ensures
        TimerConfig::decode(c.code()) == Some(c),
        c.code() < 8,
{
}

/// The field value of the mode field for the modes that `configure` sets up.
pub open spec fn mode_code(mode: Mode) -> u32 {
    if mode == Mode::OneShot {
        1
    } else {
        2
    }
}

/// Periodic mode, in the mode field.
pub const MR_PERIODIC: u32 = 2;

/// `log` followed by the stores that stop both halves of the timer at `base`.
pub open spec fn stop_log(log: Seq<Event>, base: u32) -> Seq<Event> {
    rmw(rmw(log, reg_addr(base, CTL), TAEN, 1, 0), reg_addr(base, CTL), TBEN, 1, 0)
}

/// The timer A mode word after `configure` has set its mode, a down count and
/// the match interrupt in one store.
pub open spec fn mode_word(word: u32, mode: Mode) -> u32 {
    with_field(with_field(with_field(word, MR, 2, mode_code(mode)), CDIR, 1, 0), MIE, 1, 1)
}

/// `log` followed by everything `configure` does.
pub open spec fn configure_log(
    log: Seq<Event>,
    clock: PeripheralClock,
    base: u32,
    cfg: TimerConfig,
    mode: Mode,
) -> Seq<Event> {
    let l1 = stop_log(ensure_clock(log, clock), base);
    let l2 = rmw(l1, reg_addr(base, CFG), 0, 3, cfg.code());
    let l3 = rmw(rmw(l2, reg_addr(base, TAMR), PWMIE, 1, 1), reg_addr(base, TBMR), PWMIE, 1, 1);
    store(l3, reg_addr(base, TAMR), mode_word(value_at(l3, reg_addr(base, TAMR)), mode))
}

/// `log` followed by everything `configure_pwm` does.
pub open spec fn configure_pwm_log(log: Seq<Event>, clock: PeripheralClock, base: u32) -> Seq<Event> {
    let l1 = stop_log(ensure_clock(log, clock), base);
    let l2 = rmw(l1, reg_addr(base, CFG), 0, 3, TimerConfig::HalfWidth.code());
    let l3 = rmw(rmw(l2, reg_addr(base, TAMR), AMS, 1, 1), reg_addr(base, TAMR), CMR, 1, 0);
    rmw(l3, reg_addr(base, TAMR), MR, 2, MR_PERIODIC)
}

/// The largest prescale value of a wide or a standard timer.
pub open spec fn prescale_limit(wide: bool) -> u32 {
    if wide {
        0xFFFF
    } else {
        0xFF
    }
}

/// Microseconds in `ticks` timer ticks at a system clock of `sysclk` Hz.
pub open spec fn ticks_in_us(sysclk: u32, ticks: u32) -> int {
    ticks as int / (sysclk as int / 1_000_000)
}

/// Timer ticks in `us` microseconds at a system clock of `sysclk` Hz.
pub open spec fn us_in_ticks(sysclk: u32, us: u32) -> int {
    us as int * (sysclk as int / 1_000_000)
}

/// A timer module of the Tiva C.
pub trait TivaTimer {
    /// The handle names a timer that exists.
    spec fn wf(&self) -> bool;

    /// The timer's clock gate.
    spec fn clock(&self) -> PeripheralClock;

    /// The address of the timer's register block.
    spec fn base(&self) -> u32;

    /// The timer is a wide one (its prescaler is wider than 16 bits).
    spec fn is_wide(&self) -> bool;

    /// The interrupt vector of timer A.
    spec fn vector(&self) -> nat;

    /// Where a timer that exists lies.
    proof fn lemma_layout(&self)
        requires
            self.wf(),
        ensures
            self.base() <= 0xFFFF_F000,
            16 <= self.vector() < 256,
    ;

    fn periph(&self) -> (r: PeripheralClock)
        requires
            self.wf(),
        ensures
            r == self.clock(),
    ;

    fn regs(&self) -> (r: u32)
        requires
            self.wf(),
        ensures
            r == self.base(),
    ;

    fn wide(&self) -> (r: bool)
        requires
            self.wf(),
        ensures
            r == self.is_wide(),
    ;

    fn irq_num(&self) -> (r: usize)
        requires
            self.wf(),
        ensures
            r == self.vector(),
    ;

    /// Microseconds in `v` ticks at a system clock of `sysclk` Hz.
    fn ticks_to_us(&self, sysclk: u32, v: u32) -> (r: u32)
        requires
            sysclk >= 1_000_000,
        ensures
            r == ticks_in_us(sysclk, v),
    {
        v / (sysclk / 1_000_000)
    }

    /// Ticks in `v` microseconds at a system clock of `sysclk` Hz.
    fn us_to_ticks(&self, sysclk: u32, v: u32) -> (r: u32)
        requires
            us_in_ticks(sysclk, v) <= u32::MAX,
        ensures
            r == us_in_ticks(sysclk, v),
    {
        v * (sysclk / 1_000_000)
    }

    /// Configures the timer: opens its clock, stops both halves, sets the
    /// width `cfg`, enables the PWM interrupts, then sets timer A to `mode`,
    /// counting down (so that the prescaler divides the clock rather than
    /// extending the counter) with its match interrupt on. Only the periodic
    /// and one-shot modes are supported.
    ///
    /// The timer is left stopped: its interval is not part of the
    /// configuration, and a timer started here would count from whatever
    /// interval the register held. The caller sets the interval
    /// (`a_set_interval`) and then starts the timer (`a_enable`).
    fn configure(&self, bus: &mut Bus, cfg: TimerConfig, mode: Mode)
        requires
            self.wf(),
            mode_supported(mode),
        ensures
            final(bus)@ == configure_log(old(bus)@, self.clock(), self.base(), cfg, mode),
    {
        proof {
            self.lemma_layout();
        }
        bus.ensure_enabled(self.periph());
        let base = self.regs();
        bus.modify(base + CTL, TAEN, 1, 0);
        bus.modify(base + CTL, TBEN, 1, 0);
        bus.modify(base + CFG, 0, 3, cfg.bits());
        bus.modify(base + TAMR, PWMIE, 1, 1);
        bus.modify(base + TBMR, PWMIE, 1, 1);
        let mr: u32 = match mode {
            Mode::OneShot => 1,
            _ => MR_PERIODIC,
        };
        let word = bus.read(base + TAMR);
        let word = crate::field::set_field(word, MR, 2, mr);
        let word = crate::field::set_field(word, CDIR, 1, 0);
        let word = crate::field::set_field(word, MIE, 1, 1);
        bus.write(base + TAMR, word);
    }

    /// Sets timer A's prescaler. The prescaler of a standard timer is 8 bits
    /// wide, that of a wide timer 16 bits: a wider value is a caller error.
    fn prescale(&self, bus: &mut Bus, prescale: u32)
        requires
            self.wf(),
            prescale <= prescale_limit(self.is_wide()),
        ensures
            final(bus)@ == rmw(old(bus)@, reg_addr(self.base(), TAPR), 0, 16, prescale),
    {
        proof {
            self.lemma_layout();
        }
        bus.modify(self.regs() + TAPR, 0, 16, prescale);
    }

    /// Lets timer A interrupt on timeout: unmasks its vector at the interrupt
    /// controller, then the timeout interrupt.
    fn a_enable_timeout_interrupt(&self, bus: &mut Bus)
        requires
            self.wf(),
        ensures
            final(bus)@ == rmw(irq_on(old(bus)@, self.vector()), reg_addr(self.base(), IMR), 0, 1, 1),
    {
        proof {
            self.lemma_layout();
        }
        bus.enable_irq(self.irq_num());
        bus.modify(self.regs() + IMR, 0, 1, 1);
    }

    /// Sets timer A's interval.
    fn a_set_interval(&self, bus: &mut Bus, interval: u32)
        requires
            self.wf(),
        ensures
            final(bus)@ == store(old(bus)@, reg_addr(self.base(), TAILR), interval),
    {
        proof {
            self.lemma_layout();
        }
        bus.write(self.regs() + TAILR, interval);
    }

    /// Timer A's interval.
    fn a_get_interval(&self, bus: &Bus) -> (r: u32)
        requires
            self.wf(),
        ensures
            r == value_at(bus@, reg_addr(self.base(), TAILR)),
    {
        proof {
            self.lemma_layout();
        }
        bus.read(self.regs() + TAILR)
    }

    /// Clears timer A's timeout interrupt.
    fn a_clear_interrupt(&self, bus: &mut Bus)
        requires
            self.wf(),
        ensures
            final(bus)@ == write_field(old(bus)@, reg_addr(self.base(), ICR), 0, 1, 1),
    {
        proof {
            self.lemma_layout();
        }
        bus.write_field(self.regs() + ICR, 0, 1, 1);
    }

    /// Stops timer A.
    fn a_disable(&self, bus: &mut Bus)
        requires
            self.wf(),
        ensures
            final(bus)@ == rmw(old(bus)@, reg_addr(self.base(), CTL), TAEN, 1, 0),
    {
        proof {
            self.lemma_layout();
        }
        bus.modify(self.regs() + CTL, TAEN, 1, 0);
    }

    /// Starts timer A.
    fn a_enable(&self, bus: &mut Bus)
        requires
            self.wf(),
        ensures
            final(bus)@ == rmw(old(bus)@, reg_addr(self.base(), CTL), TAEN, 1, 1),
    {
        proof {
            self.lemma_layout();
        }
        bus.modify(self.regs() + CTL, TAEN, 1, 1);
    }

    /// Sets timer A's counter.
    fn set_counter(&self, bus: &mut Bus, value: u32)
        requires
            self.wf(),
        ensures
            final(bus)@ == store(old(bus)@, reg_addr(self.base(), TAV), value),
    {
        proof {
            self.lemma_layout();
        }
        bus.write(self.regs() + TAV, value);
    }

    /// Configures timer A to generate a PWM signal: opens the clock, stops
    /// both halves, splits the timer in two, and selects the periodic PWM mode.
    /// The timer is left stopped.
    fn configure_pwm(&self, bus: &mut Bus)
        requires
            self.wf(),
        ensures
            final(bus)@ == configure_pwm_log(old(bus)@, self.clock(), self.base()),
    {
        proof {
            self.lemma_layout();
        }
        bus.ensure_enabled(self.periph());
        let base = self.regs();
        bus.modify(base + CTL, TAEN, 1, 0);
        bus.modify(base + CTL, TBEN, 1, 0);
        bus.modify(base + CFG, 0, 3, TimerConfig::HalfWidth.bits());
        bus.modify(base + TAMR, AMS, 1, 1);
        bus.modify(base + TAMR, CMR, 1, 0);
        bus.modify(base + TAMR, MR, 2, MR_PERIODIC);
    }

    /// Starts the PWM signal.
    fn enable_pwm(&self, bus: &mut Bus)
        requires
            self.wf(),
        ensures
            final(bus)@ == rmw(old(bus)@, reg_addr(self.base(), CTL), TAEN, 1, 1),
    {
        self.a_enable(bus);
    }

    /// The number of ticks counted so far. The hardware counts down, so the
    /// counter is the complement of the raw value, which goes up.
    fn get_counter(&self, bus: &Bus) -> (r: u32)
        requires
            self.wf(),
        ensures
            r == !value_at(bus@, reg_addr(self.base(), TAV)),
    {
        proof {
            self.lemma_layout();
        }
        !bus.read(self.regs() + TAV)
    }
}

} // verus!

verus! {

/// The interrupt vector of timer A of standard timer `n`.
pub open spec fn standard_vector(n: u8) -> nat {
    if n == 0 {
        35
    } else if n == 1 {
        37
    } else if n == 2 {
        39
    } else if n == 3 {
        51
    } else if n == 4 {
        86
    } else {
        108
    }
}

/// The interrupt vector of timer A of wide timer `n`.
pub open spec fn wide_vector(n: u8) -> nat {
    110 + 2 * n as nat
}

/// The register block of standard timer `n`.
pub open spec fn standard_base(n: u8) -> u32 {
    (TIMER_0 + 0x1000 * n) as u32
}

/// The register block of wide timer `n`.
pub open spec fn wide_base(n: u8) -> u32 {
    if n < 2 {
        (TIMER_W_0 + 0x1000 * n) as u32
    } else {
        (TIMER_W_2 + 0x1000 * (n - 2)) as u32
    }
}

/// Standard 16/32-bit timer `N` (0 to 5).
#[derive(Clone, Copy)]
pub struct StandardTimer<const N: u8>;

/// Wide 32/64-bit timer `N` (0 to 5).
#[derive(Clone, Copy)]
pub struct WideTimer<const N: u8>;

impl<const N: u8> TivaTimer for StandardTimer<N> {
    open spec fn wf(&self) -> bool {
        N < 6
    }

    open spec fn clock(&self) -> PeripheralClock {
        PeripheralClock::Timer(N)
    }

    open spec fn base(&self) -> u32 {
        standard_base(N)
    }

    open spec fn is_wide(&self) -> bool {
        false
    }

    open spec fn vector(&self) -> nat {
        standard_vector(N)
    }

    proof fn lemma_layout(&self) {
        assert(self.vector() == standard_vector(N));
    }

    fn periph(&self) -> (r: PeripheralClock) {
        PeripheralClock::Timer(N)
    }

    fn regs(&self) -> (r: u32) {
        TIMER_0 + 0x1000 * (N as u32)
    }

    fn wide(&self) -> (r: bool) {
        false
    }

    fn irq_num(&self) -> (r: usize) {
        match N {
            0 => 35,
            1 => 37,
            2 => 39,
            3 => 51,
            4 => 86,
            _ => 108,
        }
    }
}

impl<const N: u8> TivaTimer for WideTimer<N> {
    open spec fn wf(&self) -> bool {
        N < 6
    }

    open spec fn clock(&self) -> PeripheralClock {
        PeripheralClock::WideTimer(N)
    }

    open spec fn base(&self) -> u32 {
        wide_base(N)
    }

    open spec fn is_wide(&self) -> bool {
        true
    }

    open spec fn vector(&self) -> nat {
        wide_vector(N)
    }

    proof fn lemma_layout(&self) {
        assert(self.vector() == wide_vector(N));
    }

    fn periph(&self) -> (r: PeripheralClock) {
        PeripheralClock::WideTimer(N)
    }

    fn regs(&self) -> (r: u32) {
        if N < 2 {
            TIMER_W_0 + 0x1000 * (N as u32)
        } else {
            TIMER_W_2 + 0x1000 * ((N - 2) as u32)
        }
    }

    fn wide(&self) -> (r: bool) {
        true
    }

    fn irq_num(&self) -> (r: usize) {
        110 + 2 * (N as usize)
    }
}

pub type Timer1 = StandardTimer<1>;
pub type Timer2 = StandardTimer<2>;
pub type Timer3 = StandardTimer<3>;
pub type TimerW0 = WideTimer<0>;
pub type TimerW1 = WideTimer<1>;
pub type TimerW2 = WideTimer<2>;

pub const TIMER1: Timer1 = StandardTimer;
pub const TIMER2: Timer2 = StandardTimer;
pub const TIMER3: Timer3 = StandardTimer;
pub const TIMERW0: TimerW0 = WideTimer;
pub const TIMERW1: TimerW1 = WideTimer;
pub const TIMERW2: TimerW2 = WideTimer;

} // verus!

verus! {

/// The registers of the timer at `base` that set its width and modes.
pub open spec fn mode_regs(base: u32) -> Set<u32> {
    set![reg_addr(base, CFG), reg_addr(base, TAMR), reg_addr(base, TBMR)]
}

/// Configuring a timer writes its width and modes only while both halves are
/// stopped, and leaves them stopped.
pub proof fn lemma_configure_stops_first<T: TivaTimer>(t: T, log: Seq<Event>, cfg: TimerConfig, mode: Mode)
    requires
        t.wf(),
    ensures
        stored_while_clear(
            configure_log(log, t.clock(), t.base(), cfg, mode),
            log.len(),
            mode_regs(t.base()),
            reg_addr(t.base(), CTL),
            TAEN,
        ),
        stored_while_clear(
            configure_log(log, t.clock(), t.base(), cfg, mode),
            log.len(),
            mode_regs(t.base()),
            reg_addr(t.base(), CTL),
            TBEN,
        ),
        field_of(value_at(configure_log(log, t.clock(), t.base(), cfg, mode), reg_addr(t.base(), CTL)), TAEN, 1) == 0,
        field_of(value_at(configure_log(log, t.clock(), t.base(), cfg, mode), reg_addr(t.base(), CTL)), TBEN, 1) == 0,
{
    broadcast use crate::bus::lemma_stored_while_clear_push;

    t.lemma_layout();
    lemma_masks();
    let base = t.base();
    let ctl = reg_addr(base, CTL);
    let regs = mode_regs(base);
    lemma_stored_while_clear_start(log, regs, ctl, TAEN);
    lemma_stored_while_clear_start(log, regs, ctl, TBEN);
    let l0 = ensure_clock(log, t.clock());
    let l1 = rmw(l0, ctl, TAEN, 1, 0);
    lemma_field_round_trip(l0, ctl, TAEN, 1, 0);
    let l2 = rmw(l1, ctl, TBEN, 1, 0);
    lemma_field_round_trip(l1, ctl, TBEN, 1, 0);
    lemma_field_isolation(l1, ctl, TBEN, 1, 0, ctl, TAEN, 1);
    assert(l2 == stop_log(l0, base));
    let l3 = rmw(l2, reg_addr(base, CFG), 0, 3, cfg.code());
    lemma_field_isolation(l2, reg_addr(base, CFG), 0, 3, cfg.code(), ctl, TAEN, 1);
    lemma_field_isolation(l2, reg_addr(base, CFG), 0, 3, cfg.code(), ctl, TBEN, 1);
    let l4 = rmw(l3, reg_addr(base, TAMR), PWMIE, 1, 1);
    lemma_field_isolation(l3, reg_addr(base, TAMR), PWMIE, 1, 1, ctl, TAEN, 1);
    lemma_field_isolation(l3, reg_addr(base, TAMR), PWMIE, 1, 1, ctl, TBEN, 1);
    let l5 = rmw(l4, reg_addr(base, TBMR), PWMIE, 1, 1);
    lemma_field_isolation(l4, reg_addr(base, TBMR), PWMIE, 1, 1, ctl, TAEN, 1);
    lemma_field_isolation(l4, reg_addr(base, TBMR), PWMIE, 1, 1, ctl, TBEN, 1);
    assert(stored_while_clear(l5, log.len(), regs, ctl, TAEN));
    assert(stored_while_clear(l5, log.len(), regs, ctl, TBEN));
}

/// After `k` ticks down from the largest value, the counter reads `k`.
pub proof fn lemma_counter_inversion(k: u32)
    ensures
        !((0xFFFF_FFFFu32 - k) as u32) == k,
{
    assert(!((0xFFFF_FFFFu32 - k) as u32) == k) by (bit_vector);
}

/// Between a reading at `start` and one `k` ticks later, the counter goes up
/// by exactly `k`.
pub proof fn lemma_counter_elapsed(start: u32, k: u32)
    requires
        k <= start,
    ensures
        !((start - k) as u32) - !start == k,
{
    assert(!((start - k) as u32) - !start == k) by (bit_vector)
        requires
            k <= start,
    ;
}

} // verus!

verus! {

/// A timer used as a PWM output, in microseconds, at a system clock of a
/// given rate. Timer A's interval is the period, and its match register holds
/// the period less the pulse width.
pub trait PWMOutput: TivaTimer {
    /// Sets the period to `period_us` microseconds.
    fn set_period_us(&mut self, bus: &mut Bus, sysclk: u32, period_us: u32)
        requires
            old(self).wf(),
            us_in_ticks(sysclk, period_us) <= u32::MAX,
        ensures
            final(bus)@ == store(old(bus)@, reg_addr(old(self).base(), TAILR), us_in_ticks(sysclk, period_us) as u32),
    {
        let ticks = self.us_to_ticks(sysclk, period_us);
        self.a_set_interval(bus, ticks);
    }

    /// The period in microseconds.
    fn get_period_us(&self, bus: &Bus, sysclk: u32) -> (r: u32)
        requires
            self.wf(),
            sysclk >= 1_000_000,
        ensures
            r == ticks_in_us(sysclk, value_at(bus@, reg_addr(self.base(), TAILR))),
    {
        self.ticks_to_us(sysclk, self.a_get_interval(bus))
    }

    /// Sets the pulse width to `pulsewidth_us` microseconds, which must not
    /// exceed the period: the match register takes the period less the width.
    fn set_pulsewidth_us(&mut self, bus: &mut Bus, sysclk: u32, pulsewidth_us: u32)
        requires
            old(self).wf(),
            sysclk >= 1_000_000,
            pulsewidth_us <= ticks_in_us(sysclk, value_at(old(bus)@, reg_addr(old(self).base(), TAILR))),
            us_in_ticks(
                sysclk,
                (ticks_in_us(sysclk, value_at(old(bus)@, reg_addr(old(self).base(), TAILR))) - pulsewidth_us) as u32,
            ) <= u32::MAX,
        ensures
            final(bus)@ == store(
                old(bus)@,
                reg_addr(old(self).base(), TAMATCHR),
                us_in_ticks(
                    sysclk,
                    (ticks_in_us(sysclk, value_at(old(bus)@, reg_addr(old(self).base(), TAILR))) - pulsewidth_us) as u32,
                ) as u32,
            ),
    {
        proof {
            self.lemma_layout();
        }
        let v = self.get_period_us(bus, sysclk) - pulsewidth_us;
        let ticks = self.us_to_ticks(sysclk, v);
        bus.write(self.regs() + TAMATCHR, ticks);
    }

    /// The pulse width in microseconds: the period less the match value.
    fn get_pulsewidth_us(&self, bus: &Bus, sysclk: u32) -> (r: u32)
        requires
            self.wf(),
            sysclk >= 1_000_000,
            ticks_in_us(sysclk, value_at(bus@, reg_addr(self.base(), TAMATCHR))) <= ticks_in_us(
                sysclk,
                value_at(bus@, reg_addr(self.base(), TAILR)),
            ),
        ensures
            r == ticks_in_us(sysclk, value_at(bus@, reg_addr(self.base(), TAILR))) - ticks_in_us(
                sysclk,
                value_at(bus@, reg_addr(self.base(), TAMATCHR)),
            ),
    {
        proof {
            self.lemma_layout();
        }
        let period = self.get_period_us(bus, sysclk);
        period - self.ticks_to_us(sysclk, bus.read(self.regs() + TAMATCHR))
    }
}

impl<const N: u8> PWMOutput for StandardTimer<N> {
}

impl<const N: u8> PWMOutput for WideTimer<N> {
}

} // verus!
