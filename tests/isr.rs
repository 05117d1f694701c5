use zinc::tiva_c::pin::{Pin, PIN_A0, PIN_C0, PIN_E0, PIN_F0};
use zinc::tiva_c::timer::{TivaTimer, TIMER1, TIMER2, TIMER3, TIMERW0, TIMERW1, TIMERW2};
use zinc::tiva_c::isr::{nvic_vector, vector_handler, ISRCOUNT};

#[test]
fn isr_table_shape() {
    let table = nvic_vector();
    assert_eq!(table.len(), 139);
    assert_eq!(ISRCOUNT, 139);
    let reserved = [
        41usize, 42, 52, 53, 64, 65, 66, 67, 72, 73, 74, 75, 76, 77, 78, 79, 80, 81, 82, 83, 84, 85, 86,
        87, 88, 89, 90, 91, 107, 108, 114, 115,
    ];
    for i in 0..139 {
        let empty = reserved.contains(&i) || i == 2;
        assert_eq!(table[i].is_none(), empty, "entry {}", i);
        assert_eq!(table[i], vector_handler(i));
    }
}

#[test]
fn isr_table_names() {
    let table = nvic_vector();
    assert_eq!(table[0], Some("isr_gpio_port_a"));
    assert_eq!(table[2], None);
    assert_eq!(table[19], Some("isr_timer_0_a"));
    assert_eq!(table[21], Some("isr_timer_1_a"));
    assert_eq!(table[30], Some("isr_gpio_port_f"));
    assert_eq!(table[105], Some("isr_wide_timer_5_b"));
    assert_eq!(table[106], Some("isr_fpu"));
    assert_eq!(table[138], Some("isr_pwm_1_fault"));
}

#[test]
fn isr_driver_vectors_hold_their_handlers() {
    let table = nvic_vector();
    assert_eq!(table[PIN_A0.irq_num() - 16], Some("isr_gpio_port_a"));
    assert_eq!(table[PIN_E0.irq_num() - 16], Some("isr_gpio_port_e"));
    assert_eq!(table[PIN_F0.irq_num() - 16], Some("isr_gpio_port_f"));
    assert_eq!(table[PIN_C0.irq_num() - 16], None);
    assert_eq!(table[TIMER1.irq_num() - 16], Some("isr_timer_1_a"));
    assert_eq!(table[TIMER2.irq_num() - 16], Some("isr_timer_2_a"));
    assert_eq!(table[TIMER3.irq_num() - 16], Some("isr_timer_3_a"));
    assert_eq!(table[TIMERW0.irq_num() - 16], Some("isr_wide_timer_0_a"));
    assert_eq!(table[TIMERW1.irq_num() - 16], Some("isr_wide_timer_1_a"));
    assert_eq!(table[TIMERW2.irq_num() - 16], Some("isr_wide_timer_2_a"));
}
