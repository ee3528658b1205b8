use rumbledome::error::HalError;
use rumbledome::hw::{get_adc_channel, select_adc, PwmState, WatchdogState};
use rumbledome::types::{AnalogChannel, PwmChannel};

#[test]
fn pwm_frequency_range() {
    let mut pwm = PwmState::new();
    assert_eq!(pwm.frequency_hz, 30);
    assert!(pwm.set_frequency(PwmChannel::BoostSolenoid, 10).is_ok());
    assert!(pwm.set_frequency(PwmChannel::BoostSolenoid, 1000).is_ok());
    assert_eq!(pwm.frequency_hz, 1000);
    match pwm.set_frequency(PwmChannel::BoostSolenoid, 1001) {
        Err(HalError::InvalidParameter(m)) => assert_eq!(m, "Invalid PWM frequency: 1001 Hz"),
        _ => panic!(),
    }
    assert!(pwm.set_frequency(PwmChannel::BoostSolenoid, 9).is_err());
    assert_eq!(pwm.frequency_hz, 1000);
}

#[test]
fn pwm_disable_is_failsafe() {
    let mut pwm = PwmState::new();
    pwm.enable(PwmChannel::BoostSolenoid).unwrap();
    pwm.duty_cycle_bits = 55.0f32.to_bits();
    assert!(pwm.enabled);
    pwm.disable(PwmChannel::BoostSolenoid).unwrap();
    assert!(!pwm.enabled);
    assert_eq!(f32::from_bits(pwm.get_duty_cycle_bits(PwmChannel::BoostSolenoid).unwrap()), 0.0);
}

#[test]
fn adc_wiring() {
    assert_eq!(get_adc_channel(AnalogChannel::DomeInputPressure), 0);
    assert_eq!(get_adc_channel(AnalogChannel::UpperDomePressure), 1);
    assert_eq!(get_adc_channel(AnalogChannel::ManifoldPressure), 2);
    assert_eq!(select_adc(AnalogChannel::UpperDomePressure), 1);
    assert_eq!(select_adc(AnalogChannel::ManifoldPressure), 2);
}

#[test]
fn watchdog_lifecycle() {
    let mut w = WatchdogState::new();
    assert!(!w.is_running());
    assert!(!w.feed());
    w.start(250).unwrap();
    assert!(w.is_running());
    assert_eq!(w.timeout_ms, 250);
    assert!(w.feed());
    w.stop().unwrap();
    assert!(!w.is_running());
}
