use zinc::bus::{Bus, Event, PeripheralClock};
use zinc::tiva_c::timer::{
    Mode, PWMOutput, TimerConfig, TivaTimer, TAMATCHR, CFG, CTL, ICR, IMR, TAILR, TAMR, TAPR, TAV, TBMR, TIMER1, TIMER3,
    TIMERW0, TIMERW2, TIMER_1, TIMER_W_0, TIMER_W_2,
};

#[test]
fn timer_configure_periodic_counts_down() {
    let mut bus = Bus::new();
    bus.write(TIMER_1 + CTL, 0x0101);
    TIMER1.configure(&mut bus, TimerConfig::HalfWidth, Mode::Periodic);
    assert_eq!(bus.events()[1], Event::ClockOn { clock: PeripheralClock::Timer(1) });
    assert_eq!(bus.read(TIMER_1 + CTL), 0);
    assert_eq!(bus.read(TIMER_1 + CFG), 4);
    let tamr = bus.read(TIMER_1 + TAMR);
    assert_eq!(tamr & 0x3, 2);
    assert_eq!((tamr >> 4) & 1, 0);
    assert_eq!((tamr >> 5) & 1, 1);
    assert_eq!((tamr >> 9) & 1, 1);
    assert_eq!(bus.read(TIMER_1 + TBMR), 1 << 9);
}

#[test]
fn timer_configure_one_shot() {
    let mut bus = Bus::new();
    TIMER3.configure(&mut bus, TimerConfig::FullWidth, Mode::OneShot);
    assert_eq!(bus.read(0x4003_3000 + TAMR) & 0x3, 1);
    assert_eq!(bus.read(0x4003_3000 + CFG), 0);
}

#[test]
fn timer_configure_stops_before_mode_writes() {
    let mut bus = Bus::new();
    bus.write(TIMER_1 + CTL, 0x0101);
    TIMER1.configure(&mut bus, TimerConfig::HalfWidth, Mode::Periodic);
    let events = bus.events();
    let mut ctl = 0x0101u32;
    for e in events.iter().skip(1) {
        if let Event::Write { addr, value } = *e {
            if addr == TIMER_1 + CTL {
                ctl = value;
            } else if addr == TIMER_1 + CFG || addr == TIMER_1 + TAMR || addr == TIMER_1 + TBMR {
                assert_eq!(ctl & 0x0101, 0);
            }
        }
    }
    assert_eq!(ctl & 0x0101, 0);
}

#[test]
fn timer_counter_scenario() {
    let mut bus = Bus::new();
    TIMER1.configure(&mut bus, TimerConfig::FullWidth, Mode::Periodic);
    TIMER1.prescale(&mut bus, 0);
    TIMER1.a_set_interval(&mut bus, 1000);
    TIMER1.set_counter(&mut bus, 1000);
    let start = TIMER1.get_counter(&bus);
    for k in [0u32, 1, 10, 999, 1000].iter().copied() {
        bus.write(TIMER_1 + TAV, 1000 - k);
        assert_eq!(TIMER1.get_counter(&bus).wrapping_sub(start), k);
    }
    assert_eq!(TIMER1.a_get_interval(&bus), 1000);
}

#[test]
fn timer_counter_inversion() {
    let mut bus = Bus::new();
    for k in [0u32, 1, 12345, 0xFFFF_FFFF].iter().copied() {
        bus.write(TIMER_W_0 + TAV, 0xFFFF_FFFF - k);
        assert_eq!(TIMERW0.get_counter(&bus), k);
    }
}

#[test]
fn timer_prescale_widths() {
    let mut bus = Bus::new();
    TIMER1.prescale(&mut bus, 0xFF);
    assert_eq!(bus.read(TIMER_1 + TAPR), 0xFF);
    TIMERW2.prescale(&mut bus, 0xFFFF);
    assert_eq!(bus.read(TIMER_W_2 + TAPR), 0xFFFF);
    bus.write(TIMER_W_2 + TAPR, 0xABCD_0000);
    TIMERW2.prescale(&mut bus, 0x1234);
    assert_eq!(bus.read(TIMER_W_2 + TAPR), 0xABCD_1234);
}

#[test]
fn timer_interrupts() {
    let mut bus = Bus::new();
    TIMER1.a_enable_timeout_interrupt(&mut bus);
    assert_eq!(bus.events()[0], Event::IrqOn { line: 21 });
    assert_eq!(bus.read(TIMER_1 + IMR), 1);
    bus.write(TIMER_1 + ICR, 0xF0);
    TIMER1.a_clear_interrupt(&mut bus);
    assert_eq!(bus.read(TIMER_1 + ICR), 1);
    let mut bus = Bus::new();
    TIMERW2.a_enable_timeout_interrupt(&mut bus);
    assert_eq!(bus.events()[0], Event::IrqOn { line: 98 });
}

#[test]
fn timer_enable_and_disable() {
    let mut bus = Bus::new();
    bus.write(TIMER_1 + CTL, 0x0100);
    TIMER1.a_enable(&mut bus);
    assert_eq!(bus.read(TIMER_1 + CTL), 0x0101);
    TIMER1.a_disable(&mut bus);
    assert_eq!(bus.read(TIMER_1 + CTL), 0x0100);
    TIMER1.enable_pwm(&mut bus);
    assert_eq!(bus.read(TIMER_1 + CTL), 0x0101);
}

#[test]
fn timer_configure_pwm() {
    let mut bus = Bus::new();
    bus.write(TIMER_1 + TAMR, 0x4);
    TIMER1.configure_pwm(&mut bus);
    assert_eq!(bus.read(TIMER_1 + CFG), 4);
    assert_eq!(bus.read(TIMER_1 + TAMR), 0x8 | 0x2);
    assert_eq!(bus.read(TIMER_1 + CTL), 0);
}

#[test]
fn timer_tick_conversions() {
    assert_eq!(TIMER1.us_to_ticks(80_000_000, 10), 800);
    assert_eq!(TIMER1.ticks_to_us(80_000_000, 800), 10);
    assert_eq!(TIMER1.ticks_to_us(16_000_000, 17), 1);
}

#[test]
fn timer_config_codes() {
    for c in [TimerConfig::FullWidth, TimerConfig::Rtc, TimerConfig::HalfWidth].iter().copied() {
        assert_eq!(TimerConfig::from_bits(c.bits()), Some(c));
    }
    assert_eq!(TimerConfig::HalfWidth.bits(), 4);
    assert_eq!(TimerConfig::from_bits(2), None);
    assert_eq!(TimerConfig::from_bits(7), None);
}

#[test]
fn timer_handles_name_their_block() {
    assert_eq!(TIMER1.regs(), 0x4003_1000);
    assert_eq!(TIMER1.irq_num(), 37);
    assert!(!TIMER1.wide());
    assert_eq!(TIMERW0.regs(), TIMER_W_0);
    assert_eq!(TIMERW0.irq_num(), 110);
    assert!(TIMERW0.wide());
    assert_eq!(TIMERW2.regs(), 0x4004_C000);
    assert_eq!(TIMERW2.periph(), PeripheralClock::WideTimer(2));
}

#[test]
fn timer_pwm_output_in_microseconds() {
    let mut bus = Bus::new();
    let mut t = TIMER1;
    t.configure_pwm(&mut bus);
    t.set_period_us(&mut bus, 80_000_000, 100);
    assert_eq!(bus.read(TIMER_1 + TAILR), 8000);
    assert_eq!(t.get_period_us(&bus, 80_000_000), 100);
    t.set_pulsewidth_us(&mut bus, 80_000_000, 25);
    assert_eq!(bus.read(TIMER_1 + TAMATCHR), 6000);
    assert_eq!(t.get_pulsewidth_us(&bus, 80_000_000), 25);
    t.enable_pwm(&mut bus);
    assert_eq!(bus.read(TIMER_1 + CTL) & 1, 1);
}
