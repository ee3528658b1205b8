use rumbledome::calibration::{calibration_run_outcome, CalibrationPhase, DutyStep};
use rumbledome::safety::{progressive_response_step, OverboostDecision, OverboostDetector};
use rumbledome::state::CalibrationAction;

#[test]
fn overboost_needs_two_consecutive_readings() {
    let mut d = OverboostDetector::new();
    assert_eq!(d.check_reading(true, false, 10), OverboostDecision::Clear);
    assert_eq!(d.consecutive_readings, 1);
    assert_eq!(d.check_reading(false, false, 20), OverboostDecision::Clear);
    assert_eq!(d.consecutive_readings, 0);
    assert_eq!(d.check_reading(true, false, 30), OverboostDecision::Clear);
    assert_eq!(d.check_reading(true, false, 40), OverboostDecision::Triggered);
    assert!(d.is_overboost);
    assert_eq!(d.overboost_start_ms, Some(40));
}

#[test]
fn overboost_cut_holds_until_recovery_threshold() {
    let mut d = OverboostDetector::new();
    d.check_reading(true, false, 100);
    d.check_reading(true, false, 110);
    assert_eq!(d.check_reading(true, false, 120), OverboostDecision::Persists);
    assert_eq!(d.check_reading(false, false, 130), OverboostDecision::Persists);
    assert_eq!(
        d.check_reading(false, true, 175),
        OverboostDecision::Recovered { recovery_ms: Some(65) }
    );
    assert!(!d.is_overboost);
    assert_eq!(d.consecutive_readings, 0);
    assert_eq!(d.check_reading(true, false, 200), OverboostDecision::Clear);
}

#[test]
fn progressive_limit_raised_after_enough_successes() {
    assert_eq!(progressive_response_step(3, true, true, 5, true), (4, false));
    assert_eq!(progressive_response_step(4, true, true, 5, true), (0, true));
    assert_eq!(progressive_response_step(4, true, false, 5, true), (5, false));
    assert_eq!(progressive_response_step(4, true, true, 5, false), (5, false));
    assert_eq!(progressive_response_step(9, false, true, 5, true), (0, false));
}

#[test]
fn calibration_run_without_samples_retries_then_aborts() {
    let r = calibration_run_outcome(CalibrationPhase::Conservative, 2, false, false, false, false, 0, 3);
    assert_eq!(r.action, CalibrationAction::RetryRun);
    assert_eq!(r.run_number, 2);
    let r = calibration_run_outcome(CalibrationPhase::Conservative, 3, false, false, false, false, 0, 3);
    assert_eq!(r.action, CalibrationAction::Abort { reason: "Multiple failed runs".to_string() });
    assert_eq!(r.duty_step, DutyStep::Hold);
}

#[test]
fn calibration_run_success_by_phase() {
    let r = calibration_run_outcome(CalibrationPhase::Conservative, 2, true, true, false, false, 0, 3);
    assert_eq!(r.action, CalibrationAction::ContinueRun);
    assert_eq!((r.run_number, r.successful_runs_at_limit), (3, 1));
    let r = calibration_run_outcome(CalibrationPhase::Conservative, 3, true, true, false, false, 1, 3);
    assert_eq!(r.action, CalibrationAction::AdvancePhase);
    let r = calibration_run_outcome(CalibrationPhase::Progressive, 5, true, true, false, false, 2, 3);
    assert_eq!(r.action, CalibrationAction::IncreaseLimit);
    let r = calibration_run_outcome(CalibrationPhase::Progressive, 5, true, true, false, false, 0, 3);
    assert_eq!(r.action, CalibrationAction::ContinueRun);
    let r = calibration_run_outcome(CalibrationPhase::FineTuning, 1, true, true, false, false, 0, 3);
    assert_eq!(r.action, CalibrationAction::AdvancePhase);
    let r = calibration_run_outcome(CalibrationPhase::Validation, 1, true, true, false, false, 0, 3);
    assert_eq!(r.action, CalibrationAction::Complete);
}

#[test]
fn calibration_miss_moves_duty_cycle() {
    let r = calibration_run_outcome(CalibrationPhase::Progressive, 4, true, false, true, false, 2, 3);
    assert_eq!(r.action, CalibrationAction::ContinueRun);
    assert_eq!(r.duty_step, DutyStep::Increase);
    assert_eq!((r.run_number, r.successful_runs_at_limit), (5, 2));
    let r = calibration_run_outcome(CalibrationPhase::Progressive, 4, true, false, false, true, 2, 3);
    assert_eq!(r.duty_step, DutyStep::Decrease);
}
