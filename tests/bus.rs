use zinc::bus::{Bus, Event, PeripheralClock};

#[test]
fn bus_registers_start_at_zero() {
    let bus = Bus::new();
    assert_eq!(bus.read(0x4000_4000), 0);
    assert!(bus.events().is_empty());
}

#[test]
fn bus_read_gives_last_store() {
    let mut bus = Bus::new();
    bus.write(0x10, 1);
    bus.write(0x14, 2);
    bus.write(0x10, 3);
    assert_eq!(bus.read(0x10), 3);
    assert_eq!(bus.read(0x14), 2);
    assert_eq!(bus.read(0x18), 0);
}

#[test]
fn bus_modify_keeps_other_bits() {
    let mut bus = Bus::new();
    bus.write(0x20, 0xFFFF_0000);
    bus.modify(0x20, 4, 4, 0xA);
    assert_eq!(bus.read(0x20), 0xFFFF_00A0);
    bus.modify(0x20, 16, 4, 0);
    assert_eq!(bus.read(0x20), 0xFFF0_00A0);
    assert_eq!(bus.field(0x20, 4, 4), 0xA);
    assert_eq!(
        bus.events()[1],
        Event::Write { addr: 0x20, value: 0xFFFF_00A0 }
    );
}

#[test]
fn bus_write_field_zeroes_other_bits() {
    let mut bus = Bus::new();
    bus.write(0x24, 0xFF);
    bus.write_field(0x24, 3, 1, 1);
    assert_eq!(bus.read(0x24), 0x8);
}

#[test]
fn bus_clock_enable_is_idempotent() {
    let mut bus = Bus::new();
    bus.ensure_enabled(PeripheralClock::Gpio(0));
    bus.ensure_enabled(PeripheralClock::Gpio(0));
    bus.ensure_enabled(PeripheralClock::Timer(1));
    assert_eq!(
        bus.events().clone(),
        vec![
            Event::ClockOn { clock: PeripheralClock::Gpio(0) },
            Event::ClockOn { clock: PeripheralClock::Timer(1) },
        ]
    );
}

#[test]
fn bus_irq_line_is_vector_less_16() {
    let mut bus = Bus::new();
    bus.enable_irq(46);
    assert_eq!(bus.events()[0], Event::IrqOn { line: 30 });
}
