use zinc::bus::Bus;
use zinc::cortex_m4::fpu::{
    cp10_access, cp11_access, enable, enable_lazy_stacking, enable_stacking, CoprocessorAccess, CPAC, FPCC,
};

#[test]
fn fpu_enable_gives_full_access() {
    let mut bus = Bus::new();
    bus.write(CPAC, 0x0000_00FF);
    enable(&mut bus);
    assert_eq!(bus.read(CPAC), 0x00F0_00FF);
    assert_eq!(cp10_access(&bus), Some(CoprocessorAccess::Full));
    assert_eq!(cp11_access(&bus), Some(CoprocessorAccess::Full));
    assert_eq!(bus.events().len(), 3);
}

#[test]
fn fpu_stacking_modes() {
    let mut bus = Bus::new();
    enable_lazy_stacking(&mut bus);
    assert_eq!(bus.read(FPCC), 0xC000_0000);
    enable_stacking(&mut bus);
    assert_eq!(bus.read(FPCC), 0x8000_0000);
}

#[test]
fn fpu_access_codes() {
    let all = [CoprocessorAccess::Denied, CoprocessorAccess::Privileged, CoprocessorAccess::Full];
    for a in all.iter().copied() {
        assert_eq!(CoprocessorAccess::from_bits(a.bits()), Some(a));
    }
    assert_eq!(CoprocessorAccess::Full.bits(), 3);
    assert_eq!(CoprocessorAccess::from_bits(2), None);
    let mut bus = Bus::new();
    bus.write(CPAC, 0x0020_0000);
    assert_eq!(cp10_access(&bus), None);
    assert_eq!(cp11_access(&bus), Some(CoprocessorAccess::Denied));
}
