use nixie_watch::clock::{charge_code, DisplayMode, NixieClock};
use nixie_watch::display::{DotStatus, NixieDisplay};

fn clock(tps: u32) -> NixieClock {
    NixieClock::new(NixieDisplay::new(), tps)
}

#[test]
fn new_clock_is_idle_at_13_37() {
    let c = clock(200);
    assert_eq!(c.get_time(), (13, 37));
    assert_eq!(c.seconds, 0);
    assert!(!c.is_display_on());
    assert_eq!(c.display_counter, 800);
    assert_eq!(c.display_status, DisplayMode::Idle);
    assert_eq!(c.charge_level, 50);
}

#[test]
fn a_second_passes_every_ticks_per_second_ticks() {
    let mut c = clock(200);
    for _ in 0..199 {
        c.tick();
    }
    assert_eq!(c.seconds, 0);
    assert_eq!(c.current_tick, 199);
    c.tick();
    assert_eq!(c.seconds, 1);
    assert_eq!(c.current_tick, 0);
}

#[test]
fn midnight_rolls_over_to_zero() {
    let mut c = clock(200);
    c.set_time(23, 59);
    c.seconds = 59;
    c.current_tick = 199;
    c.tick();
    assert_eq!(c.get_time(), (0, 0));
    assert_eq!(c.seconds, 0);
}

#[test]
fn minutes_roll_into_hours() {
    let mut c = clock(1);
    c.set_time(12, 59);
    c.seconds = 59;
    c.tick();
    assert_eq!(c.get_time(), (13, 0));
    assert_eq!(c.seconds, 0);
}

#[test]
fn time_stays_in_range_over_a_day() {
    let mut c = clock(1);
    c.set_time(22, 58);
    for _ in 0..(2 * 86_400 + 17) {
        c.tick();
        assert!(c.hours < 24 && c.minutes < 60 && c.seconds < 60);
    }
}

#[test]
fn gauge_codes() {
    assert_eq!(charge_code(0), 10);
    assert_eq!(charge_code(15), 10);
    assert_eq!(charge_code(16), 11);
    assert_eq!(charge_code(95), 15);
    assert_eq!(charge_code(96), 16);
    assert_eq!(charge_code(159), 16);
    assert_eq!(charge_code(255), 16);
    let mut last = charge_code(0);
    for level in 0u8..=255 {
        let v = charge_code(level);
        assert!(v >= last && v <= 16);
        last = v;
    }
}

#[test]
fn request_takes_effect_on_next_tick() {
    let mut c = clock(200);
    c.show_time();
    assert_eq!(c.display_new_status, DisplayMode::Time);
    c.tick();
    assert_eq!(c.display_counter, 1);
    assert_eq!(c.display_status, DisplayMode::Time);
    assert_eq!(c.display_new_status, DisplayMode::Idle);
    assert!(c.is_display_on());
    assert!(c.nixie_display.pins.enable);
    assert_eq!(c.nixie_display.nixie1_value, 1);
    assert_eq!(c.nixie_display.nixie2_value, 3);
    assert_eq!(c.nixie_display.dot_status, DotStatus::Digit1);
}

#[test]
fn request_mid_cycle_restarts_the_cycle() {
    let mut c = clock(2);
    c.show_time();
    for _ in 0..5 {
        c.tick();
    }
    assert_eq!(c.display_counter, 5);
    c.show_charge();
    c.tick();
    assert_eq!(c.display_counter, 1);
    assert_eq!(c.display_status, DisplayMode::Charge);
    c.show_empty();
    c.tick();
    assert_eq!(c.display_counter, 1);
    assert_eq!(c.display_status, DisplayMode::EmptyBattery);
}

#[test]
fn time_and_charge_walks_all_quarters() {
    let mut c = clock(2);
    c.show_time_and_charge();
    c.tick();
    c.tick();
    assert_eq!(c.display_counter, 2);
    assert_eq!((c.nixie_display.nixie1_value, c.nixie_display.nixie2_value), (1, 3));
    assert_eq!(c.nixie_display.dot_status, DotStatus::Digit1);
    c.tick();
    assert_eq!(c.display_counter, 3);
    assert_eq!((c.nixie_display.nixie1_value, c.nixie_display.nixie2_value), (3, 7));
    assert_eq!(c.nixie_display.dot_status, DotStatus::Digit2);
    assert!(c.nixie_display.pins.enable);
    c.tick();
    c.tick();
    assert_eq!(c.display_counter, 5);
    assert_eq!((c.nixie_display.nixie1_value, c.nixie_display.nixie2_value), (13, 13));
    assert_eq!(c.nixie_display.dot_status, DotStatus::Off);
    assert_eq!(c.nixie_display.pins.segments, 0x07);
    c.tick();
    c.tick();
    assert_eq!(c.display_counter, 7);
    assert_eq!(c.display_status, DisplayMode::Idle);
    let p = c.nixie_display.pins;
    assert!(!p.nixie1 && !p.nixie2 && p.segments == 0 && !p.dot && !p.enable);
    assert!(c.is_display_on());
    c.tick();
    assert_eq!(c.display_counter, 8);
    assert!(c.is_display_on());
    c.tick();
    assert_eq!(c.display_counter, 8);
    assert!(!c.is_display_on());
}

#[test]
fn time_mode_skips_the_gauge_quarter() {
    let mut c = clock(2);
    c.set_charge_level(255);
    c.show_time();
    for _ in 0..4 {
        c.tick();
    }
    let shown = (c.nixie_display.nixie1_value, c.nixie_display.nixie2_value, c.nixie_display.pins);
    c.tick();
    assert_eq!(c.display_counter, 5);
    assert_eq!(c.display_status, DisplayMode::Time);
    assert_eq!((c.nixie_display.nixie1_value, c.nixie_display.nixie2_value, c.nixie_display.pins), shown);
    assert_eq!(shown.0, 3);
    assert_eq!(shown.1, 7);
}

#[test]
fn empty_battery_flashes_blank() {
    let mut c = clock(2);
    c.show_empty();
    c.tick();
    assert_eq!((c.nixie_display.nixie1_value, c.nixie_display.nixie2_value), (10, 10));
    assert_eq!(c.nixie_display.dot_status, DotStatus::Digit1);
    assert_eq!(c.nixie_display.pins.segments, 0);
    c.tick();
    c.tick();
    assert_eq!(c.nixie_display.dot_status, DotStatus::Digit2);
}

#[test]
fn gauge_uses_the_charge_level() {
    let mut c = clock(1);
    c.set_charge_level(0);
    c.show_time_and_charge();
    c.tick();
    c.tick();
    c.tick();
    assert_eq!(c.display_counter, 3);
    assert_eq!(c.nixie_display.nixie1_value, 10);
    assert_eq!(c.nixie_display.pins.segments, 0x00);
}

#[test]
fn set_time_keeps_seconds() {
    let mut c = clock(1);
    c.tick();
    c.set_time(7, 5);
    assert_eq!(c.get_time(), (7, 5));
    assert_eq!(c.seconds, 1);
}
