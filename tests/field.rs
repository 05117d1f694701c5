use zinc::field::{get_field, set_field, bit_of};

#[test]
fn field_round_trip_every_width_and_position() {
    let words = [0u32, 0xFFFF_FFFF, 0xA5A5_5A5A, 0x1234_5678];
    for width in 1u32..=32 {
        for lo in 0u32..=(32 - width) {
            let max = if width == 32 { u32::MAX } else { (1u32 << width) - 1 };
            for &word in words.iter() {
                for &v in [0u32, 1, max / 2, max].iter() {
                    let w = set_field(word, lo, width, v);
                    assert_eq!(get_field(w, lo, width), v);
                }
            }
        }
    }
}

#[test]
fn field_set_masks_to_width() {
    assert_eq!(set_field(0, 4, 4, 0x1F), 0xF0);
    assert_eq!(get_field(0xABCD_1234, 8, 8), 0x12);
    assert_eq!(get_field(0xABCD_1234, 0, 32), 0xABCD_1234);
}

#[test]
fn field_isolation_of_neighbours() {
    let word = 0xDEAD_BEEFu32;
    let w = set_field(word, 8, 4, 0x3);
    assert_eq!(get_field(w, 0, 8), get_field(word, 0, 8));
    assert_eq!(get_field(w, 12, 20), get_field(word, 12, 20));
    assert_eq!(w, 0xDEAD_B3EF);
}

#[test]
fn field_array_lanes_are_independent() {
    for width in [1u32, 2, 4].iter().copied() {
        let count = 32 / width;
        let mut word = 0x5A5A_5A5Au32;
        for i in 0..count {
            let before: Vec<u32> = (0..count).map(|j| get_field(word, j * width, width)).collect();
            word = set_field(word, i * width, width, !before[i as usize]);
            for j in 0..count {
                if j != i {
                    assert_eq!(get_field(word, j * width, width), before[j as usize]);
                }
            }
        }
    }
}

#[test]
fn field_bit_of_flags() {
    assert_eq!(bit_of(true), 1);
    assert_eq!(bit_of(false), 0);
}
