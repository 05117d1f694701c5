//! The interrupt vector table of the Tiva C.
//!
//! The hardware reads the table on each interrupt, so its shape is fixed: one
//! entry per vector after the core's 16 exceptions, in the vendor's order,
//! with the reserved vectors empty.

use vstd::prelude::*;
use crate::tiva_c::pin::port_vector;
use crate::tiva_c::timer::{standard_vector, wide_vector};

verus! {

/// The number of peripheral interrupt vectors.
pub const ISRCOUNT: usize = 139;

/// Entry `i` of the table is a reserved vector.
pub open spec fn reserved_vector(i: int) -> bool {
    (41 <= i <= 42) || (52 <= i <= 53) || (64 <= i <= 67) || (72 <= i <= 91) || (107 <= i <= 108) || (114 <= i <= 115)
}

/// Entry `i` of the table has no handler: a reserved vector, or GPIO port C,
/// whose interrupt is not served.
pub open spec fn empty_vector(i: int) -> bool {
    reserved_vector(i) || i == 2
}

/// The name of the handler of peripheral vector `i` (hardware vector
/// `i + 16`), in the vendor's order, or `None` for an empty entry.
pub open spec fn handler_name(i: int) -> Option<&'static str> {
    if i == 0 {
        Some("isr_gpio_port_a")
    } else if i == 1 {
        Some("isr_gpio_port_b")
    } else if i == 2 {
        None
    } else if i == 3 {
        Some("isr_gpio_port_d")
    } else if i == 4 {
        Some("isr_gpio_port_e")
    } else if i == 5 {
        Some("isr_uart0")
    } else if i == 6 {
        Some("isr_uart1")
    } else if i == 7 {
        Some("isr_ssi0")
    } else if i == 8 {
        Some("isr_i2c0")
    } else if i == 9 {
        Some("isr_pwm_fault")
    } else if i == 10 {
        Some("isr_pwm_generator_0")
    } else if i == 11 {
        Some("isr_pwm_generator_1")
    } else if i == 12 {
        Some("isr_pwm_generator_2")
    } else if i == 13 {
        Some("isr_quadrature_encoder_0")
    } else if i == 14 {
        Some("isr_adc_sequence_0")
    } else if i == 15 {
        Some("isr_adc_sequence_1")
    } else if i == 16 {
        Some("isr_adc_sequence_2")
    } else if i == 17 {
        Some("isr_adc_sequence_3")
    } else if i == 18 {
        Some("isr_watchdog_timer")
    } else if i == 19 {
        Some("isr_timer_0_a")
    } else if i == 20 {
        Some("isr_timer_0_b")
    } else if i == 21 {
        Some("isr_timer_1_a")
    } else if i == 22 {
        Some("isr_timer_1_b")
    } else if i == 23 {
        Some("isr_timer_2_a")
    } else if i == 24 {
        Some("isr_timer_2_b")
    } else if i == 25 {
        Some("isr_analog_comparator_0")
    } else if i == 26 {
        Some("isr_analog_comparator_1")
    } else if i == 27 {
        Some("isr_analog_comparator_2")
    } else if i == 28 {
        Some("isr_system_control")
    } else if i == 29 {
        Some("isr_flash_control")
    } else if i == 30 {
        Some("isr_gpio_port_f")
    } else if i == 31 {
        Some("isr_gpio_port_g")
    } else if i == 32 {
        Some("isr_gpio_port_h")
    } else if i == 33 {
        Some("isr_uart2")
    } else if i == 34 {
        Some("isr_ssi1")
    } else if i == 35 {
        Some("isr_timer_3_a")
    } else if i == 36 {
        Some("isr_timer_3_b")
    } else if i == 37 {
        Some("isr_i2c1")
    } else if i == 38 {
        Some("isr_quadrature_encoder_1")
    } else if i == 39 {
        Some("isr_can0")
    } else if i == 40 {
        Some("isr_can1")
    } else if i == 41 {
        None
    } else if i == 42 {
        None
    } else if i == 43 {
        Some("isr_hibernate")
    } else if i == 44 {
        Some("isr_usb0")
    } else if i == 45 {
        Some("isr_pwm_generator_3")
    } else if i == 46 {
        Some("isr_udma_software_transfer")
    } else if i == 47 {
        Some("isr_udma_error")
    } else if i == 48 {
        Some("isr_adc1_sequence_0")
    } else if i == 49 {
        Some("isr_adc1_sequence_1")
    } else if i == 50 {
        Some("isr_adc1_sequence_2")
    } else if i == 51 {
        Some("isr_adc1_sequence_3")
    } else if i == 52 {
        None
    } else if i == 53 {
        None
    } else if i == 54 {
        Some("isr_gpio_port_j")
    } else if i == 55 {
        Some("isr_gpio_port_k")
    } else if i == 56 {
        Some("isr_gpio_port_l")
    } else if i == 57 {
        Some("isr_ssi2")
    } else if i == 58 {
        Some("isr_ssi3")
    } else if i == 59 {
        Some("isr_uart3")
    } else if i == 60 {
        Some("isr_uart4")
    } else if i == 61 {
        Some("isr_uart5")
    } else if i == 62 {
        Some("isr_uart6")
    } else if i == 63 {
        Some("isr_uart7")
    } else if i == 64 {
        None
    } else if i == 65 {
        None
    } else if i == 66 {
        None
    } else if i == 67 {
        None
    } else if i == 68 {
        Some("isr_i2c2")
    } else if i == 69 {
        Some("isr_i2c3")
    } else if i == 70 {
        Some("isr_timer_4_a")
    } else if i == 71 {
        Some("isr_timer_4_b")
    } else if i == 72 {
        None
    } else if i == 73 {
        None
    } else if i == 74 {
        None
    } else if i == 75 {
        None
    } else if i == 76 {
        None
    } else if i == 77 {
        None
    } else if i == 78 {
        None
    } else if i == 79 {
        None
    } else if i == 80 {
        None
    } else if i == 81 {
        None
    } else if i == 82 {
        None
    } else if i == 83 {
        None
    } else if i == 84 {
        None
    } else if i == 85 {
        None
    } else if i == 86 {
        None
    } else if i == 87 {
        None
    } else if i == 88 {
        None
    } else if i == 89 {
        None
    } else if i == 90 {
        None
    } else if i == 91 {
        None
    } else if i == 92 {
        Some("isr_timer_5_a")
    } else if i == 93 {
        Some("isr_timer_5_b")
    } else if i == 94 {
        Some("isr_wide_timer_0_a")
    } else if i == 95 {
        Some("isr_wide_timer_0_b")
    } else if i == 96 {
        Some("isr_wide_timer_1_a")
    } else if i == 97 {
        Some("isr_wide_timer_1_b")
    } else if i == 98 {
        Some("isr_wide_timer_2_a")
    } else if i == 99 {
        Some("isr_wide_timer_2_b")
    } else if i == 100 {
        Some("isr_wide_timer_3_a")
    } else if i == 101 {
        Some("isr_wide_timer_3_b")
    } else if i == 102 {
        Some("isr_wide_timer_4_a")
    } else if i == 103 {
        Some("isr_wide_timer_4_b")
    } else if i == 104 {
        Some("isr_wide_timer_5_a")
    } else if i == 105 {
        Some("isr_wide_timer_5_b")
    } else if i == 106 {
        Some("isr_fpu")
    } else if i == 107 {
        None
    } else if i == 108 {
        None
    } else if i == 109 {
        Some("isr_i2c4")
    } else if i == 110 {
        Some("isr_i2c5")
    } else if i == 111 {
        Some("isr_gpio_port_m")
    } else if i == 112 {
        Some("isr_gpio_port_n")
    } else if i == 113 {
        Some("isr_quadrature_encoder_2")
    } else if i == 114 {
        None
    } else if i == 115 {
        None
    } else if i == 116 {
        Some("isr_gpio_port_p0")
    } else if i == 117 {
        Some("isr_gpio_port_p1")
    } else if i == 118 {
        Some("isr_gpio_port_p2")
    } else if i == 119 {
        Some("isr_gpio_port_p3")
    } else if i == 120 {
        Some("isr_gpio_port_p4")
    } else if i == 121 {
        Some("isr_gpio_port_p5")
    } else if i == 122 {
        Some("isr_gpio_port_p6")
    } else if i == 123 {
        Some("isr_gpio_port_p7")
    } else if i == 124 {
        Some("isr_gpio_port_q0")
    } else if i == 125 {
        Some("isr_gpio_port_q1")
    } else if i == 126 {
        Some("isr_gpio_port_q2")
    } else if i == 127 {
        Some("isr_gpio_port_q3")
    } else if i == 128 {
        Some("isr_gpio_port_q4")
    } else if i == 129 {
        Some("isr_gpio_port_q5")
    } else if i == 130 {
        Some("isr_gpio_port_q6")
    } else if i == 131 {
        Some("isr_gpio_port_q7")
    } else if i == 132 {
        Some("isr_gpio_port_r")
    } else if i == 133 {
        Some("isr_gpio_port_s")
    } else if i == 134 {
        Some("isr_pwm_1_generator_0")
    } else if i == 135 {
        Some("isr_pwm_1_generator_1")
    } else if i == 136 {
        Some("isr_pwm_1_generator_2")
    } else if i == 137 {
        Some("isr_pwm_1_generator_3")
    } else if i == 138 {
        Some("isr_pwm_1_fault")
    } else {
        None
    }
}

/// The name of the handler of peripheral vector `i` (hardware vector `i + 16`),
/// or `None` for an empty entry.
pub fn vector_handler(i: usize) -> (r: Option<&'static str>)
    requires
        i < ISRCOUNT,
    ensures
        r == handler_name(i as int),
        r is None <==> empty_vector(i as int),
{
    match i {
        0 => Some("isr_gpio_port_a"),
        1 => Some("isr_gpio_port_b"),
        3 => Some("isr_gpio_port_d"),
        4 => Some("isr_gpio_port_e"),
        5 => Some("isr_uart0"),
        6 => Some("isr_uart1"),
        7 => Some("isr_ssi0"),
        8 => Some("isr_i2c0"),
        9 => Some("isr_pwm_fault"),
        10 => Some("isr_pwm_generator_0"),
        11 => Some("isr_pwm_generator_1"),
        12 => Some("isr_pwm_generator_2"),
        13 => Some("isr_quadrature_encoder_0"),
        14 => Some("isr_adc_sequence_0"),
        15 => Some("isr_adc_sequence_1"),
        16 => Some("isr_adc_sequence_2"),
        17 => Some("isr_adc_sequence_3"),
        18 => Some("isr_watchdog_timer"),
        19 => Some("isr_timer_0_a"),
        20 => Some("isr_timer_0_b"),
        21 => Some("isr_timer_1_a"),
        22 => Some("isr_timer_1_b"),
        23 => Some("isr_timer_2_a"),
        24 => Some("isr_timer_2_b"),
        25 => Some("isr_analog_comparator_0"),
        26 => Some("isr_analog_comparator_1"),
        27 => Some("isr_analog_comparator_2"),
        28 => Some("isr_system_control"),
        29 => Some("isr_flash_control"),
        30 => Some("isr_gpio_port_f"),
        31 => Some("isr_gpio_port_g"),
        32 => Some("isr_gpio_port_h"),
        33 => Some("isr_uart2"),
        34 => Some("isr_ssi1"),
        35 => Some("isr_timer_3_a"),
        36 => Some("isr_timer_3_b"),
        37 => Some("isr_i2c1"),
        38 => Some("isr_quadrature_encoder_1"),
        39 => Some("isr_can0"),
        40 => Some("isr_can1"),
        43 => Some("isr_hibernate"),
        44 => Some("isr_usb0"),
        45 => Some("isr_pwm_generator_3"),
        46 => Some("isr_udma_software_transfer"),
        47 => Some("isr_udma_error"),
        48 => Some("isr_adc1_sequence_0"),
        49 => Some("isr_adc1_sequence_1"),
        50 => Some("isr_adc1_sequence_2"),
        51 => Some("isr_adc1_sequence_3"),
        54 => Some("isr_gpio_port_j"),
        55 => Some("isr_gpio_port_k"),
        56 => Some("isr_gpio_port_l"),
        57 => Some("isr_ssi2"),
        58 => Some("isr_ssi3"),
        59 => Some("isr_uart3"),
        60 => Some("isr_uart4"),
        61 => Some("isr_uart5"),
        62 => Some("isr_uart6"),
        63 => Some("isr_uart7"),
        68 => Some("isr_i2c2"),
        69 => Some("isr_i2c3"),
        70 => Some("isr_timer_4_a"),
        71 => Some("isr_timer_4_b"),
        92 => Some("isr_timer_5_a"),
        93 => Some("isr_timer_5_b"),
        94 => Some("isr_wide_timer_0_a"),
        95 => Some("isr_wide_timer_0_b"),
        96 => Some("isr_wide_timer_1_a"),
        97 => Some("isr_wide_timer_1_b"),
        98 => Some("isr_wide_timer_2_a"),
        99 => Some("isr_wide_timer_2_b"),
        100 => Some("isr_wide_timer_3_a"),
        101 => Some("isr_wide_timer_3_b"),
        102 => Some("isr_wide_timer_4_a"),
        103 => Some("isr_wide_timer_4_b"),
        104 => Some("isr_wide_timer_5_a"),
        105 => Some("isr_wide_timer_5_b"),
        106 => Some("isr_fpu"),
        109 => Some("isr_i2c4"),
        110 => Some("isr_i2c5"),
        111 => Some("isr_gpio_port_m"),
        112 => Some("isr_gpio_port_n"),
        113 => Some("isr_quadrature_encoder_2"),
        116 => Some("isr_gpio_port_p0"),
        117 => Some("isr_gpio_port_p1"),
        118 => Some("isr_gpio_port_p2"),
        119 => Some("isr_gpio_port_p3"),
        120 => Some("isr_gpio_port_p4"),
        121 => Some("isr_gpio_port_p5"),
        122 => Some("isr_gpio_port_p6"),
        123 => Some("isr_gpio_port_p7"),
        124 => Some("isr_gpio_port_q0"),
        125 => Some("isr_gpio_port_q1"),
        126 => Some("isr_gpio_port_q2"),
        127 => Some("isr_gpio_port_q3"),
        128 => Some("isr_gpio_port_q4"),
        129 => Some("isr_gpio_port_q5"),
        130 => Some("isr_gpio_port_q6"),
        131 => Some("isr_gpio_port_q7"),
        132 => Some("isr_gpio_port_r"),
        133 => Some("isr_gpio_port_s"),
        134 => Some("isr_pwm_1_generator_0"),
        135 => Some("isr_pwm_1_generator_1"),
        136 => Some("isr_pwm_1_generator_2"),
        137 => Some("isr_pwm_1_generator_3"),
        138 => Some("isr_pwm_1_fault"),
        _ => None,
    }
}

/// The whole table, in order.
pub fn nvic_vector() -> (r: Vec<Option<&'static str>>)
    ensures
        r@.len() == ISRCOUNT,
        forall|i: int| 0 <= i < ISRCOUNT ==> #[trigger] r@[i] == handler_name(i),
        forall|i: int| 0 <= i < ISRCOUNT ==> (#[trigger] r@[i] is None <==> empty_vector(i)),
{
    let mut table: Vec<Option<&'static str>> = Vec::new();
    let mut i: usize = 0;
    while i < ISRCOUNT
        invariant
            i <= ISRCOUNT,
            table@.len() == i,
            forall|j: int| 0 <= j < i ==> #[trigger] table@[j] == handler_name(j),
            forall|j: int| 0 <= j < i ==> (#[trigger] table@[j] is None <==> empty_vector(j)),
        decreases ISRCOUNT - i,
    {
        table.push(vector_handler(i));
        i = i + 1;
    }
    table
}

/// The vectors that the drivers unmask hold their own peripherals' handlers:
/// each GPIO port's (port C's entry is empty, its interrupt is not served),
/// and timer A's of each standard and wide timer.
pub proof fn lemma_driver_vectors()
    ensures
        handler_name(port_vector(0) - 16) == Some("isr_gpio_port_a"),
        handler_name(port_vector(1) - 16) == Some("isr_gpio_port_b"),
        handler_name(port_vector(2) - 16) is None,
        handler_name(port_vector(3) - 16) == Some("isr_gpio_port_d"),
        handler_name(port_vector(4) - 16) == Some("isr_gpio_port_e"),
        handler_name(port_vector(5) - 16) == Some("isr_gpio_port_f"),
        handler_name(standard_vector(0) - 16) == Some("isr_timer_0_a"),
        handler_name(standard_vector(1) - 16) == Some("isr_timer_1_a"),
        handler_name(standard_vector(2) - 16) == Some("isr_timer_2_a"),
        handler_name(standard_vector(3) - 16) == Some("isr_timer_3_a"),
        handler_name(standard_vector(4) - 16) == Some("isr_timer_4_a"),
        handler_name(standard_vector(5) - 16) == Some("isr_timer_5_a"),
        handler_name(wide_vector(0) - 16) == Some("isr_wide_timer_0_a"),
        handler_name(wide_vector(1) - 16) == Some("isr_wide_timer_1_a"),
        handler_name(wide_vector(2) - 16) == Some("isr_wide_timer_2_a"),
        handler_name(wide_vector(3) - 16) == Some("isr_wide_timer_3_a"),
        handler_name(wide_vector(4) - 16) == Some("isr_wide_timer_4_a"),
        handler_name(wide_vector(5) - 16) == Some("isr_wide_timer_5_a"),
{
}

} // verus!
