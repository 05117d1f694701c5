use zinc::bus::{Bus, Event, PeripheralClock};
use zinc::gpio::{Gpio, GpioDirection, GpioLevel};
use zinc::tiva_c::pin::{
    Pin, AFSEL, CR, DATA, DEN, DIR, DR2R, IBE, ICR, IM, LOCK, PCTL, PDR, PORT_A, PORT_D, PORT_F, PUR,
    UNLOCK_KEY, PIN_A3, PIN_A4, PIN_D6, PIN_F0, PIN_F4,
};

fn bit(bus: &Bus, addr: u32, lane: u32) -> u32 {
    (bus.read(addr) >> lane) & 1
}

#[test]
fn pin_gpio_output_scenario() {
    let mut bus = Bus::new();
    PIN_A3.configure(&mut bus, 0);
    PIN_A3.set_direction(&mut bus, GpioDirection::Out);
    assert_eq!(bit(&bus, PORT_A + DIR, 3), 1);
    PIN_A3.set_high(&mut bus);
    assert_eq!(bit(&bus, PORT_A + DATA, 3), 1);
    assert_eq!(PIN_A3.level(&bus), GpioLevel::High);
    PIN_A3.set_low(&mut bus);
    assert_eq!(bit(&bus, PORT_A + DATA, 3), 0);
    assert_eq!(PIN_A3.level(&bus), GpioLevel::Low);
}

#[test]
fn pin_set_direction_disables_around_dir_write() {
    let mut bus = Bus::new();
    PIN_A3.configure(&mut bus, 0);
    PIN_A3.set_direction(&mut bus, GpioDirection::Out);
    let start = bus.events().len();
    PIN_A3.set_direction(&mut bus, GpioDirection::In);
    let events = &bus.events()[start..];
    assert_eq!(events.len(), 3);
    assert_eq!(events[0], Event::Write { addr: PORT_A + DEN, value: 0 });
    assert_eq!(events[1], Event::Write { addr: PORT_A + DIR, value: 0 });
    assert_eq!(events[2], Event::Write { addr: PORT_A + DEN, value: 1 << 3 });
    assert_eq!(bit(&bus, PORT_A + DIR, 3), 0);
}

#[test]
fn pin_configure_gpio_sequence() {
    let mut bus = Bus::new();
    PIN_A3.configure(&mut bus, 0);
    let w = |addr: u32, value: u32| Event::Write { addr, value };
    let expected = vec![
        Event::ClockOn { clock: PeripheralClock::Gpio(0) },
        w(PORT_A + LOCK, UNLOCK_KEY),
        w(PORT_A + CR, 1 << 3),
        w(PORT_A + LOCK, 0),
        w(PORT_A + DEN, 0),
        w(PORT_A + AFSEL, 0),
        w(PORT_A + DR2R, 1 << 3),
        w(PORT_A + 0x504, 0),
        w(PORT_A + 0x508, 0),
        w(PORT_A + 0x50C, 0),
        w(PORT_A + PUR, 0),
        w(PORT_A + PDR, 0),
        w(PORT_A + DEN, 1 << 3),
    ];
    assert_eq!(bus.events().clone(), expected);
}

#[test]
fn pin_configure_peripheral_function() {
    let mut bus = Bus::new();
    PIN_D6.configure(&mut bus, 6);
    assert_eq!(bit(&bus, PORT_D + AFSEL, 6), 1);
    assert_eq!((bus.read(PORT_D + PCTL) >> 24) & 0xF, 6);
    assert_eq!(bus.read(PORT_D + PCTL), 0x0600_0000);
    assert_eq!(bit(&bus, PORT_D + DEN, 6), 1);
    let den_off = bus
        .events()
        .iter()
        .position(|e| *e == Event::Write { addr: PORT_D + DEN, value: 0 })
        .unwrap();
    let afsel = bus.events().iter().position(|e| matches!(e, Event::Write { addr, .. } if *addr == PORT_D + AFSEL)).unwrap();
    let pctl = bus.events().iter().position(|e| matches!(e, Event::Write { addr, .. } if *addr == PORT_D + PCTL)).unwrap();
    assert!(den_off < afsel && afsel < pctl);
    assert_eq!(*bus.events().last().unwrap(), Event::Write { addr: PORT_D + DEN, value: 1 << 6 });
}

#[test]
fn pin_configure_keeps_other_pins() {
    let mut bus = Bus::new();
    PIN_A4.configure(&mut bus, 0);
    PIN_A4.set_direction(&mut bus, GpioDirection::Out);
    PIN_A4.set_high(&mut bus);
    PIN_A3.configure(&mut bus, 0);
    PIN_A3.set_direction(&mut bus, GpioDirection::Out);
    PIN_A3.set_high(&mut bus);
    PIN_A3.set_low(&mut bus);
    assert_eq!(PIN_A4.level(&bus), GpioLevel::High);
    assert_eq!(bit(&bus, PORT_A + DEN, 4), 1);
    assert_eq!(bit(&bus, PORT_A + DIR, 4), 1);
    assert_eq!(bus.read(PORT_A + DATA), 1 << 4);
}

#[test]
fn pin_unlock_sequence() {
    let mut bus = Bus::new();
    PIN_F0.unlock(&mut bus);
    assert_eq!(
        bus.events().clone(),
        vec![
            Event::Write { addr: PORT_F + LOCK, value: UNLOCK_KEY },
            Event::Write { addr: PORT_F + CR, value: 1 },
            Event::Write { addr: PORT_F + LOCK, value: 0 },
        ]
    );
}

#[test]
fn pin_enable_interrupt_unmasks_vector_and_pin() {
    let mut bus = Bus::new();
    PIN_F4.enable_interrupt(&mut bus);
    assert_eq!(bus.events()[0], Event::IrqOn { line: 30 });
    assert_eq!(bit(&bus, PORT_F + IBE, 4), 1);
    assert_eq!(bit(&bus, PORT_F + IM, 4), 1);
    let mut bus = Bus::new();
    PIN_A3.enable_interrupt(&mut bus);
    assert_eq!(bus.events()[0], Event::IrqOn { line: 0 });
}

#[test]
fn pin_clear_interrupt_writes_only_its_bit() {
    let mut bus = Bus::new();
    bus.write(PORT_A + ICR, 0xFF);
    PIN_A3.clear_interrupt(&mut bus);
    assert_eq!(bus.read(PORT_A + ICR), 1 << 3);
}

#[test]
fn pin_pull_resistors() {
    let mut bus = Bus::new();
    PIN_A3.set_pull_up(&mut bus, true);
    PIN_A3.set_pull_down(&mut bus, true);
    assert_eq!(bus.read(PORT_A + PUR), 1 << 3);
    assert_eq!(bus.read(PORT_A + PDR), 1 << 3);
    PIN_A3.set_pull_up(&mut bus, false);
    assert_eq!(bus.read(PORT_A + PUR), 0);
    assert_eq!(bus.read(PORT_A + PDR), 1 << 3);
}

#[test]
fn pin_handles_name_their_port() {
    assert_eq!(PIN_A3.regs(), 0x4000_4000);
    assert_eq!(PIN_A3.index(), 3);
    assert_eq!(PIN_A3.irq_num(), 16);
    assert_eq!(PIN_F4.regs(), 0x4002_5000);
    assert_eq!(PIN_F4.irq_num(), 46);
    assert_eq!(PIN_D6.periph(), PeripheralClock::Gpio(3));
}
