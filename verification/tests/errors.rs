use rumbledome::error::{CoreError, ErrorSeverity, HalError};

#[test]
fn severity_names() {
    assert_eq!(ErrorSeverity::Low.as_str(), "LOW");
    assert_eq!(ErrorSeverity::Medium.as_str(), "MEDIUM");
    assert_eq!(ErrorSeverity::High.as_str(), "HIGH");
    assert_eq!(ErrorSeverity::Critical.as_str(), "CRITICAL");
}

#[test]
fn safety_errors_shut_down() {
    let e = CoreError::safety("overboost".to_string());
    assert!(e.requires_immediate_shutdown());
    assert!(!e.is_recoverable());
    assert_eq!(e.severity(), ErrorSeverity::Critical);
    let h = CoreError::Hardware(HalError::safety_violation("x".to_string()));
    assert!(h.requires_immediate_shutdown());
    assert_eq!(h.severity(), ErrorSeverity::Critical);
}

#[test]
fn degraded_operation_errors_are_recoverable() {
    assert!(CoreError::Hardware(HalError::timeout("t".to_string())).is_recoverable());
    assert!(CoreError::Hardware(HalError::communication("c".to_string())).is_recoverable());
    assert!(!CoreError::Hardware(HalError::not_available("n".to_string())).is_recoverable());
    assert!(CoreError::input_validation("i".to_string()).is_recoverable());
    assert!(!CoreError::configuration("c".to_string()).is_recoverable());
    assert_eq!(CoreError::learning("l".to_string()).severity(), ErrorSeverity::Low);
    assert_eq!(CoreError::calibration("c".to_string()).severity(), ErrorSeverity::Medium);
    assert_eq!(CoreError::internal("i".to_string()).severity(), ErrorSeverity::High);
}

#[test]
fn sensor_out_of_range_keeps_values() {
    let e = HalError::sensor_out_of_range("manifold".to_string(), 31.0f32.to_bits(), 0.0f32.to_bits(), 30.0f32.to_bits());
    match e {
        HalError::SensorOutOfRange { sensor, value_bits, min_bits, max_bits } => {
            assert_eq!(sensor, "manifold");
            assert_eq!(f32::from_bits(value_bits), 31.0);
            assert_eq!(f32::from_bits(min_bits), 0.0);
            assert_eq!(f32::from_bits(max_bits), 30.0);
        }
        _ => panic!("wrong variant"),
    }
    assert!(CoreError::Hardware(HalError::sensor_out_of_range("m".to_string(), 0, 0, 0)).is_recoverable());
}
