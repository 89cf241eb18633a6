use nixie_watch::display::{digit_pattern, get_bit_at, DotStatus, NixieDisplay};

const TABLE: [u32; 17] = [
    0x3F, 0x06, 0x5B, 0x4F, 0x66, 0x6D, 0x7D, 0x07, 0x7F, 0x6F, 0x00, 0x01, 0x03, 0x07, 0x0F, 0x1F, 0x3F,
];

fn all_low(d: &NixieDisplay) -> bool {
    !d.pins.nixie1 && !d.pins.nixie2 && d.pins.segments == 0 && !d.pins.dot && !d.pins.enable
}

#[test]
fn new_display_shows_three_and_eight_with_lines_low() {
    let d = NixieDisplay::new();
    assert_eq!(d.nixie1_value, 3);
    assert_eq!(d.nixie2_value, 8);
    assert_eq!(d.dot_status, DotStatus::Off);
    assert!(all_low(&d));
}

#[test]
fn update_alternates_tubes() {
    let mut d = NixieDisplay::new();
    d.update();
    assert!(!d.pins.nixie1);
    assert!(d.pins.nixie2);
    assert_eq!(d.pins.segments, 0x7F);
    d.update();
    assert!(d.pins.nixie1);
    assert!(!d.pins.nixie2);
    assert_eq!(d.pins.segments, 0x4F);
    d.update();
    assert!(d.pins.nixie2);
}

#[test]
fn alternator_wraps_to_first_tube() {
    let mut d = NixieDisplay::new();
    d.display_counter = 255;
    d.update();
    assert_eq!(d.display_counter, 0);
    assert!(d.pins.nixie1);
    assert!(!d.pins.nixie2);
}

#[test]
fn every_code_renders_its_table_entry() {
    for code in 0u8..=16 {
        let mut d = NixieDisplay::new();
        d.set_digit(0, code, DotStatus::Off);
        d.set_digit(1, code, DotStatus::Off);
        d.update();
        assert_eq!(d.pins.segments, TABLE[code as usize]);
        d.update();
        assert_eq!(d.pins.segments, TABLE[code as usize]);
        assert_eq!(digit_pattern(code), TABLE[code as usize]);
    }
}

#[test]
fn segment_lines_follow_mask_bits() {
    let mut d = NixieDisplay::new();
    d.set_digit(1, 7, DotStatus::Off);
    d.update();
    let lines: Vec<bool> = (0u8..7).map(|i| d.pins.segment(i)).collect();
    assert_eq!(lines, vec![true, true, true, false, false, false, false]);
}

#[test]
fn dot_lights_only_on_its_tube() {
    let mut d = NixieDisplay::new();
    d.set_digit(0, 1, DotStatus::Digit1);
    d.update();
    assert!(d.pins.nixie2);
    assert!(!d.pins.dot);
    d.update();
    assert!(d.pins.nixie1);
    assert!(d.pins.dot);

    d.set_digit(1, 2, DotStatus::Digit2);
    d.update();
    assert!(d.pins.nixie2);
    assert!(d.pins.dot);
    d.update();
    assert!(d.pins.nixie1);
    assert!(!d.pins.dot);

    d.set_digit(0, 4, DotStatus::Off);
    d.update();
    assert!(!d.pins.dot);
    d.update();
    assert!(!d.pins.dot);
}

#[test]
fn set_digit_keeps_lines() {
    let mut d = NixieDisplay::new();
    d.update();
    let before = d.pins;
    d.set_digit(0, 9, DotStatus::Digit2);
    assert_eq!(d.pins, before);
    assert_eq!(d.nixie1_value, 9);
    assert_eq!(d.nixie2_value, 8);
    d.set_digit(5, 6, DotStatus::Off);
    assert_eq!(d.nixie2_value, 6);
    assert_eq!(d.dot_status, DotStatus::Off);
}

#[test]
fn off_drives_every_line_low() {
    let mut d = NixieDisplay::new();
    d.enable();
    d.set_digit(0, 8, DotStatus::Digit1);
    d.update();
    d.update();
    assert!(d.pins.enable && d.pins.nixie1 && d.pins.dot);
    d.off();
    assert!(all_low(&d));
    assert_eq!(d.nixie1_value, 8);
}

#[test]
fn bits_are_read_by_position() {
    assert!(get_bit_at(0b101, 0));
    assert!(!get_bit_at(0b101, 1));
    assert!(get_bit_at(0b101, 2));
    assert!(get_bit_at(0x8000_0000, 31));
    assert!(!get_bit_at(0xFFFF_FFFF, 32));
    assert!(!get_bit_at(0xFFFF_FFFF, 255));
}
