use rumbledome::error::CoreError;
use rumbledome::monitor::{
    validate_input_freshness, ControlLoopStats, SafetyEvent, SafetyEventType, SafetyHistory,
};
use rumbledome::monitor::state_after_self_test;
use rumbledome::monitor::{cycle_output_action, OutputAction};
use rumbledome::state::{FaultCode, SystemState};
use rumbledome::types::{SelfTestResult, TestStatus};

fn event(t: u64, kind: SafetyEventType) -> SafetyEvent {
    SafetyEvent { timestamp_ms: t, event_type: kind, trigger_value_bits: 16.5f32.to_bits(), response_time_ms: 12, recovered: true }
}

#[test]
fn stats_rolling_average_and_violations() {
    let mut s = ControlLoopStats::default();
    s.update_performance_stats(8000, 10);
    assert_eq!(s.avg_cycle_time_us, 1000);
    assert_eq!(s.max_cycle_time_us, 8000);
    assert_eq!(s.timing_violations, 0);
    s.update_performance_stats(12000, 20);
    assert_eq!(s.avg_cycle_time_us, (1000 * 7 + 12000) / 8);
    assert_eq!(s.max_cycle_time_us, 12000);
    assert_eq!(s.timing_violations, 1);
    assert_eq!(s.last_update_ms, 20);
    s.update_performance_stats(10000, 30);
    assert_eq!(s.timing_violations, 1);
}

#[test]
fn fresh_inputs_pass() {
    let mut d = Vec::new();
    assert!(validate_input_freshness(1000, 950, 900, &mut d).is_ok());
    assert!(d.is_empty());
}

#[test]
fn stale_inputs_are_noted_then_rejected() {
    let mut d = Vec::new();
    assert!(validate_input_freshness(1000, 800, 700, &mut d).is_ok());
    assert_eq!(d, vec!["Sensor data age: 200ms".to_string(), "CAN data age: 300ms".to_string()]);
    let mut d = Vec::new();
    match validate_input_freshness(1000, 400, 0, &mut d) {
        Err(CoreError::InputValidation(m)) => assert_eq!(m, "Sensor data too old: 600ms"),
        _ => panic!(),
    }
    assert_eq!(d, vec!["Sensor data age: 600ms".to_string()]);
    let mut d = Vec::new();
    match validate_input_freshness(2000, 2000, 500, &mut d) {
        Err(CoreError::InputValidation(m)) => assert_eq!(m, "CAN data too old: 1500ms"),
        _ => panic!(),
    }
    let mut d = Vec::new();
    assert!(validate_input_freshness(10, 50, 60, &mut d).is_ok());
}

#[test]
fn safety_history_is_bounded() {
    let mut h = SafetyHistory::new();
    for t in 0..60u64 {
        h.record_event(event(t, SafetyEventType::Overboost));
    }
    assert_eq!(h.overboost_events.len(), 50);
    assert_eq!(h.overboost_events[0].timestamp_ms, 10);
    assert_eq!(h.overboost_events[49].timestamp_ms, 59);
    assert_eq!(h.total_safety_cuts, 60);
    assert_eq!(h.last_event_ms, Some(59));
    h.record_event(event(70, SafetyEventType::SensorFailure));
    assert_eq!(h.fault_events.len(), 1);
    assert_eq!(h.total_safety_cuts, 60);
    assert_eq!(h.overboost_events.len(), 50);
    assert_eq!(h.last_event_ms, Some(70));
}

#[test]
fn output_action_per_state() {
    assert_eq!(cycle_output_action(&SystemState::Idle), OutputAction::HoldZero);
    assert_eq!(cycle_output_action(&SystemState::Initializing), OutputAction::HoldZero);
    assert_eq!(cycle_output_action(&SystemState::Armed), OutputAction::RunControl);
    assert_eq!(cycle_output_action(&SystemState::OverboostCut), OutputAction::CutToZero);
    assert_eq!(cycle_output_action(&SystemState::Fault(FaultCode::LearningInconsistency)), OutputAction::CutToZero);
}

#[test]
fn self_test_decides_start_state() {
    let mut result = SelfTestResult {
        overall_status: TestStatus::Pass,
        pwm_test: TestStatus::Pass,
        analog_test: TestStatus::Pass,
        storage_test: TestStatus::Pass,
        can_test: TestStatus::Pass,
        display_test: TestStatus::Pass,
        bluetooth_test: TestStatus::NotTested,
        failures: vec![],
    };
    let (s, r) = state_after_self_test(&result);
    assert!(matches!(s, SystemState::Idle));
    assert!(r.is_ok());
    result.overall_status = TestStatus::Warning;
    let (s, r) = state_after_self_test(&result);
    assert!(matches!(s, SystemState::Fault(FaultCode::SelfTestFailed)));
    match r {
        Err(CoreError::Safety(m)) => assert_eq!(m, "Hardware self-test failed"),
        _ => panic!(),
    }
}
