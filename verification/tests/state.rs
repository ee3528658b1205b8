use rumbledome::state::{CalibrationProgress, FaultCode, SystemState};

#[test]
fn test_critical_fault_detection() {
    assert!(FaultCode::SelfTestFailed.is_critical());
    assert!(FaultCode::OverboostLimitExceeded {
        pressure_psi_bits: 16.0f32.to_bits(),
        limit_psi_bits: 15.0f32.to_bits()
    }
    .is_critical());
    assert!(!FaultCode::InvalidConfiguration("test".to_string()).is_critical());
    assert!(!FaultCode::LearningInconsistency.is_critical());
}

#[test]
fn test_failsafe_state_detection() {
    assert!(SystemState::Initializing.requires_failsafe_pwm());
    assert!(SystemState::Idle.requires_failsafe_pwm());
    assert!(SystemState::OverboostCut.requires_failsafe_pwm());
    assert!(SystemState::Fault(FaultCode::SelfTestFailed).requires_failsafe_pwm());
    assert!(!SystemState::Armed.requires_failsafe_pwm());
}

#[test]
fn test_state_transitions() {
    assert!(SystemState::Idle.can_transition_to_armed());
    assert!(!SystemState::OverboostCut.can_transition_to_armed());
    assert!(!SystemState::Fault(FaultCode::SelfTestFailed).can_transition_to_armed());
    assert!(SystemState::Fault(FaultCode::LearningInconsistency).can_transition_to_armed());
}

#[test]
fn test_display_priority() {
    assert!(
        SystemState::Fault(FaultCode::SelfTestFailed).display_priority()
            > SystemState::Armed.display_priority()
    );
    assert!(
        SystemState::OverboostCut.display_priority()
            > SystemState::Calibrating(CalibrationProgress {
                phase: 1,
                phase_progress_bits: 0.5f32.to_bits(),
                overall_progress_bits: 0.2f32.to_bits(),
                current_target_psi_bits: 8.0f32.to_bits(),
                current_rpm: 2000,
                validation_runs: 2,
                description: "Test".to_string(),
            })
            .display_priority()
    );
}

#[test]
fn pressure_sensor_fault_is_critical_only_for_manifold() {
    assert!(FaultCode::PressureSensorFault("manifold sensor".to_string()).is_critical());
    assert!(!FaultCode::PressureSensorFault("dome input".to_string()).is_critical());
    assert!(FaultCode::CanCommunicationLost.is_critical());
}

#[test]
fn display_priorities_have_fixed_values() {
    assert_eq!(SystemState::Fault(FaultCode::LearningInconsistency).display_priority(), 255);
    assert_eq!(SystemState::OverboostCut.display_priority(), 200);
    assert_eq!(SystemState::Initializing.display_priority(), 150);
    assert_eq!(SystemState::Armed.display_priority(), 50);
    assert_eq!(SystemState::Idle.display_priority(), 25);
}

#[test]
fn recommended_actions_name_the_fix() {
    assert_eq!(
        FaultCode::SelfTestFailed.recommended_action(),
        "Check all hardware connections and power supply"
    );
    assert_eq!(
        FaultCode::LearningInconsistency.recommended_action(),
        "Reset learned data if problem persists"
    );
}

#[test]
fn non_critical_fault_neither_blocks_arming_nor_forces_failsafe() {
    let s = SystemState::Fault(FaultCode::TorqueSignalsInvalid);
    assert!(s.can_transition_to_armed());
    assert!(!s.requires_failsafe_pwm());
    assert!(matches!(SystemState::initial(), SystemState::Initializing));
}

#[test]
fn state_display_texts() {
    assert_eq!(SystemState::Initializing.display_text(0), "INIT");
    assert_eq!(SystemState::Idle.display_text(0), "IDLE");
    assert_eq!(SystemState::Armed.display_text(7), "ARMED");
    assert_eq!(SystemState::OverboostCut.display_text(0), "OVERBOOST");
    assert_eq!(SystemState::Fault(FaultCode::SelfTestFailed).display_text(0), "FAULT");
    let cal = SystemState::Calibrating(CalibrationProgress {
        phase: 1,
        phase_progress_bits: 0.5f32.to_bits(),
        overall_progress_bits: 0.2f32.to_bits(),
        current_target_psi_bits: 8.0f32.to_bits(),
        current_rpm: 2000,
        validation_runs: 2,
        description: "Test".to_string(),
    });
    assert_eq!(cal.display_text(20), "CAL 20%");
    assert_eq!(cal.display_text(0), "CAL 0%");
    assert_eq!(cal.display_text(100), "CAL 100%");
}

#[test]
fn fault_descriptions() {
    assert_eq!(
        FaultCode::SelfTestFailed.description().unwrap(),
        "Hardware self-test failed during initialization"
    );
    assert_eq!(
        FaultCode::PressureSensorFault("manifold".to_string()).description().unwrap(),
        "Pressure sensor fault: manifold"
    );
    assert_eq!(
        FaultCode::CalibrationFailed("no convergence".to_string()).description().unwrap(),
        "Auto-calibration failed: no convergence"
    );
    assert_eq!(
        FaultCode::LearningInconsistency.description().unwrap(),
        "Learning system detected inconsistent data"
    );
    assert!(FaultCode::OverboostLimitExceeded { pressure_psi_bits: 0, limit_psi_bits: 0 }
        .description()
        .is_none());
    assert!(FaultCode::ImplausibleSensorReading { sensor: "map".to_string(), value_bits: 0 }
        .description()
        .is_none());
}
