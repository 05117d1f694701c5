use zinc::bus::Bus;
use zinc::k20::timer::{
    set_freeze, set_module_clock_disabled, Timer, Timer0, Timer3, CVAL, LDVAL, PIT_0, PIT_3, PIT_MCR,
    TCTRL, TFLG,
};

#[test]
fn k20_module_control() {
    let mut bus = Bus::new();
    set_module_clock_disabled(&mut bus, true);
    set_freeze(&mut bus, true);
    assert_eq!(bus.read(PIT_MCR), 3);
    set_module_clock_disabled(&mut bus, false);
    assert_eq!(bus.read(PIT_MCR), 1);
}

#[test]
fn k20_timer_start_and_counter() {
    let mut bus = Bus::new();
    let t = Timer0 {};
    t.set_start_value(&mut bus, 1000);
    assert_eq!(bus.read(PIT_0 + LDVAL), 1000);
    t.set_interrupts_enabled(&mut bus, true);
    t.set_enabled(&mut bus, true);
    assert_eq!(bus.read(PIT_0 + TCTRL), 3);
    bus.write(PIT_0 + CVAL, 0xFFFF_FFFF - 7);
    assert_eq!(t.get_counter(&bus), 7);
    bus.write(PIT_0 + CVAL, 1000);
    let start = t.get_counter(&bus);
    bus.write(PIT_0 + CVAL, 1000 - 250);
    assert_eq!(t.get_counter(&bus).wrapping_sub(start), 250);
}

#[test]
fn k20_timer_interrupt_flag() {
    let mut bus = Bus::new();
    let t = Timer3 {};
    bus.write(PIT_3 + TFLG, 1);
    assert!(t.interrupt_flag(&bus));
    t.set_interrupt_flag(&mut bus, true);
    assert_eq!(bus.read(PIT_3 + TFLG), 1);
    t.set_interrupt_flag(&mut bus, false);
    assert!(!t.interrupt_flag(&bus));
    assert_eq!(t.get_regs(), 0x4003_7130);
}
