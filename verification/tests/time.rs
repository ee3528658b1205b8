use rumbledome::time::{PwmTimingInfo, Teensy41Time};

#[test]
fn cycles_convert_at_600mhz() {
    let t = Teensy41Time::new(0);
    assert_eq!(t.cycles_to_ms(600_000), 1);
    assert_eq!(t.cycles_to_ms(599_999), 0);
    assert_eq!(t.cycles_to_us(600), 1);
    assert_eq!(t.cycles_to_us(u32::MAX), 7_158_278);
}

#[test]
fn now_is_relative_to_startup_and_wraps() {
    let t = Teensy41Time::new(1_000_000);
    assert_eq!(t.now_ms(1_600_000), 1);
    let w = Teensy41Time::new(u32::MAX - 599_999);
    assert_eq!(w.now_ms(600_000), 2);
    assert_eq!(w.timestamp_us(0), 1000);
}

#[test]
fn delays_wait_the_cycles_of_their_length() {
    let t = Teensy41Time::new(0);
    assert_eq!(t.delay_cycles(5), 3_000_000);
    assert!(!t.delay_done(100, 100 + 2_999_999, 5));
    assert!(t.delay_done(100, 100 + 3_000_000, 5));
    assert!(t.delay_done(u32::MAX, 2_999_999, 5));
}

#[test]
fn pwm_timing_window() {
    let inside = PwmTimingInfo { cycle_position_bits: 0.1f32.to_bits(), time_to_next_cycle_us: 30000, time_to_optimal_window_us: 500, in_optimal_window: true };
    let outside = PwmTimingInfo { in_optimal_window: false, ..inside };
    assert!(inside.is_optimal_update_time(0));
    assert_eq!(inside.time_to_next_update_window_us(0), 0);
    assert!(!outside.is_optimal_update_time(0));
    assert_eq!(outside.time_to_next_update_window_us(0), 500);
}
