use zinc::bus::{Bus, Event, PeripheralClock};
use zinc::tiva_c::pin::{AFSEL, DEN, PCTL, PORT_E, PORT_F};
use zinc::tiva_c::pwm::{
    PwmGen, CMP, CTL, ENABLE, GEN, LOAD, PWM0_CHAN4, PWM0_CHAN6, PWM1_CHAN5, PWM1_CHAN6, PWM_0_CTL,
    PWM_0_GEN_2, PWM_0_GEN_3, PWM_1_CTL, PWM_1_GEN_2,
};

#[test]
fn pwm_scenario() {
    let mut bus = Bus::new();
    PWM0_CHAN4.set_period(&mut bus, 200);
    PWM0_CHAN4.set_pulse_width(&mut bus, 50);
    assert_eq!(bus.read(PWM_0_GEN_2 + CMP), 150);
    assert_eq!(PWM0_CHAN4.pulse_width(&bus), 50);
    assert_eq!(PWM0_CHAN4.period(&bus), 200);
}

#[test]
fn pwm_pulse_width_round_trip_over_period() {
    let mut bus = Bus::new();
    PWM1_CHAN5.set_period(&mut bus, 200);
    for w in 0u16..=200 {
        PWM1_CHAN5.set_pulse_width(&mut bus, w);
        assert_eq!(PWM1_CHAN5.pulse_width(&bus), w);
        assert_eq!(bus.read(PWM_1_GEN_2 + CMP + 4), (200 - w) as u32);
    }
    assert_eq!(bus.read(PWM_1_GEN_2 + CMP), 0);
}

#[test]
fn pwm_period_keeps_other_bits() {
    let mut bus = Bus::new();
    bus.write(PWM_0_GEN_3 + LOAD, 0xABCD_0000);
    PWM0_CHAN6.set_period(&mut bus, 0xFFFF);
    assert_eq!(bus.read(PWM_0_GEN_3 + LOAD), 0xABCD_FFFF);
    assert_eq!(PWM0_CHAN6.period(&bus), 0xFFFF);
}

#[test]
fn pwm_configure_routes_pin_and_sets_actions() {
    let mut bus = Bus::new();
    PWM0_CHAN4.configure(&mut bus);
    assert_eq!(bus.events()[0], Event::ClockOn { clock: PeripheralClock::Pwm(0) });
    assert_eq!(bus.events()[1], Event::ClockOn { clock: PeripheralClock::Gpio(4) });
    assert_eq!((bus.read(PORT_E + AFSEL) >> 4) & 1, 1);
    assert_eq!((bus.read(PORT_E + PCTL) >> 16) & 0xF, 4);
    assert_eq!((bus.read(PORT_E + DEN) >> 4) & 1, 1);
    let gen_a = bus.read(PWM_0_GEN_2 + GEN);
    assert_eq!((gen_a >> 2) & 3, 1);
    assert_eq!((gen_a >> 6) & 3, 2);
}

#[test]
fn pwm_configure_output_b() {
    let mut bus = Bus::new();
    PWM1_CHAN5.configure(&mut bus);
    assert_eq!((bus.read(PORT_F + PCTL) >> 4) & 0xF, 5);
    let gen_b = bus.read(PWM_1_GEN_2 + GEN + 4);
    assert_eq!((gen_b >> 2) & 3, 1);
    assert_eq!((gen_b >> 10) & 3, 2);
    assert_eq!(bus.read(PWM_1_GEN_2 + GEN), 0);
}

#[test]
fn pwm_enable_output_then_generator() {
    let mut bus = Bus::new();
    PWM1_CHAN6.enable(&mut bus);
    assert_eq!(
        bus.events().clone(),
        vec![
            Event::Write { addr: PWM_1_CTL + ENABLE, value: 1 << 6 },
            Event::Write { addr: 0x4002_9100 + CTL, value: 1 },
        ]
    );
}

#[test]
fn pwm_channel_index_and_clock() {
    assert_eq!(PWM0_CHAN4.index(), 0);
    assert_eq!(PWM1_CHAN5.index(), 1);
    assert_eq!(PWM0_CHAN6.index(), 0);
    assert_eq!(PWM0_CHAN4.clock(80_000_000), 1_250_000);
    assert_eq!(PWM0_CHAN4.ctl_regs(), PWM_0_CTL);
}

#[test]
fn pwm_configure_stops_generator_before_actions() {
    let mut bus = Bus::new();
    bus.write(PWM_0_GEN_2 + CTL, 1);
    PWM0_CHAN4.configure(&mut bus);
    let mut ctl = 1u32;
    let mut action_writes = 0;
    for e in bus.events().iter() {
        if let Event::Write { addr, value } = *e {
            if addr == PWM_0_GEN_2 + CTL {
                ctl = value;
            } else if addr == PWM_0_GEN_2 + GEN || addr == PWM_0_GEN_2 + GEN + 4 {
                assert_eq!(ctl & 1, 0);
                action_writes += 1;
            }
        }
    }
    assert_eq!(action_writes, 2);
    assert_eq!(bus.read(PWM_0_GEN_2 + CTL) & 1, 0);
    PWM0_CHAN4.enable(&mut bus);
    assert_eq!(bus.read(PWM_0_GEN_2 + CTL) & 1, 1);
}

#[test]
fn pwm_enable_keeps_other_channels() {
    let mut bus = Bus::new();
    bus.write(PWM_0_CTL + ENABLE, 0b0100_0001);
    PWM0_CHAN4.enable(&mut bus);
    assert_eq!(bus.read(PWM_0_CTL + ENABLE), 0b0101_0001);
    PWM0_CHAN6.enable(&mut bus);
    assert_eq!(bus.read(PWM_0_CTL + ENABLE), 0b0101_0001);
}
