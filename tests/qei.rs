use zinc::bus::{Bus, Event, PeripheralClock};
use zinc::quadrature::QuadratureDecoder;
use zinc::tiva_c::pin::{AFSEL, PCTL, PORT_C, PORT_D};
use zinc::tiva_c::qei::{Qei, CTL, MAXPOS, POS, QEI0, QEI1, QEI_0, QEI_1};

#[test]
fn qei_configure_sequence() {
    let mut bus = Bus::new();
    bus.write(QEI_0 + CTL, 0x1F);
    QEI0.configure(&mut bus);
    assert_eq!(bus.events()[1], Event::ClockOn { clock: PeripheralClock::Qei(0) });
    assert_eq!((bus.read(PORT_D + AFSEL) >> 6) & 3, 3);
    assert_eq!(bus.read(PORT_D + PCTL), 0x6600_0000);
    let start = bus
        .events()
        .iter()
        .position(|e| *e == Event::Write { addr: QEI_0 + CTL, value: 0x1E })
        .unwrap();
    let tail: Vec<Event> = bus.events()[start..].to_vec();
    let w = |addr: u32, value: u32| Event::Write { addr, value };
    assert_eq!(
        tail,
        vec![
            w(QEI_0 + CTL, 0x1E),
            w(QEI_0 + CTL, 0x1C),
            w(QEI_0 + CTL, 0x18),
            w(QEI_0 + CTL, 0x18),
            w(QEI_0 + CTL, 0x08),
            w(QEI_0 + MAXPOS, 0xFFFF_FFFF),
            w(QEI_0 + CTL, 0x09),
        ]
    );
    assert_eq!(QEI0.maxpos(&bus), u32::MAX);
}

#[test]
fn qei_position_registers() {
    let mut bus = Bus::new();
    QEI1.set_pos(&mut bus, 42);
    QEI1.set_maxpos(&mut bus, 1000);
    assert_eq!(QEI1.pos(&bus), 42);
    assert_eq!(QEI1.maxpos(&bus), 1000);
    assert_eq!(bus.read(QEI_1 + POS), 42);
    assert_eq!(bus.read(QEI_1 + MAXPOS), 1000);
}

#[test]
fn qei_input_filter_and_enable() {
    let mut bus = Bus::new();
    QEI1.enable_input_filter(&mut bus);
    assert_eq!(bus.read(QEI_1 + CTL), 1 << 13);
    QEI1.enable(&mut bus);
    assert_eq!(bus.read(QEI_1 + CTL), (1 << 13) | 1);
    QEI1.disable_input_filter(&mut bus);
    QEI1.disable(&mut bus);
    assert_eq!(bus.read(QEI_1 + CTL), 0);
}

#[test]
fn qei1_routes_port_c() {
    let mut bus = Bus::new();
    QEI1.configure(&mut bus);
    assert_eq!((bus.read(PORT_C + AFSEL) >> 5) & 3, 3);
    assert_eq!(bus.read(PORT_C + PCTL), 0x0660_0000);
    assert_eq!(bus.read(QEI_1 + CTL), 0x09);
}
