//! System operational states and fault codes, with the rules that decide
//! which states force the failsafe output, which allow arming, and how
//! states are ranked for display.
//!
//! Pressure and progress values are carried as the IEEE-754 bit patterns of
//! their `f32` values; the rules here never read them.

use vstd::prelude::*;
use vstd::string::*;
use crate::text::{append_decimal, contains_chars, decimal, str_contains};

verus! {

/// Recommended next calibration action
#[derive(Debug, Clone, PartialEq, Eq)]
pub enum CalibrationAction {
    /// Continue with next run
    ContinueRun,
    /// Advance to next phase
    AdvancePhase,
    /// Increase progressive limits
    IncreaseLimit,
    /// Complete calibration successfully
    Complete,
    /// Abort calibration due to failure
    Abort { reason: String },
    /// Retry current run
    RetryRun,
}

/// Auto-calibration progress tracking
#[derive(Debug, Clone)]
pub struct CalibrationProgress {
    /// Current calibration phase (1-3)
    pub phase: u8,
    /// Bit pattern of the progress within the current phase (0.0-1.0)
    pub phase_progress_bits: u32,
    /// Bit pattern of the overall calibration progress (0.0-1.0)
    pub overall_progress_bits: u32,
    /// Bit pattern of the boost target being calibrated (PSI)
    pub current_target_psi_bits: u32,
    /// Current RPM point being calibrated
    pub current_rpm: u16,
    /// Number of validation runs completed for current point
    pub validation_runs: u8,
    /// Description of current calibration activity
    pub description: String,
}

/// System fault codes
#[derive(Debug, Clone)]
pub enum FaultCode {
    /// Hardware self-test failed during initialization
    SelfTestFailed,
    /// PWM hardware failure detected
    PwmHardwareFault,
    /// Pressure sensor failure or out-of-range reading
    PressureSensorFault(String),
    /// CAN bus communication failure
    CanCommunicationLost,
    /// Storage system failure (SD card error)
    StorageSystemFault,
    /// Manifold pressure exceeded overboost limit (bit patterns of the PSI values)
    OverboostLimitExceeded { pressure_psi_bits: u32, limit_psi_bits: u32 },
    /// Pneumatic system failure (pressure not responding to duty cycle changes)
    PneumaticSystemFailure,
    /// Safety response time validation failed
    SafetyResponseTooSlow,
    /// Invalid user configuration detected
    InvalidConfiguration(String),
    /// Learned calibration data corrupted
    CalibrationDataCorrupted,
    /// CAN torque signals not available or invalid
    TorqueSignalsInvalid,
    /// Pressure sensor reading implausible (bit pattern of the reading)
    ImplausibleSensorReading { sensor: String, value_bits: u32 },
    /// Auto-calibration failed to converge
    CalibrationFailed(String),
    /// Learning system detected inconsistent data
    LearningInconsistency,
}

/// System operational states
#[derive(Debug, Clone)]
pub enum SystemState {
    /// System initializing - hardware setup and self-test
    Initializing,
    /// System ready but not actively controlling boost (0% duty)
    Idle,
    /// Normal operation - torque-following boost control active
    Armed,
    /// Auto-calibration in progress
    Calibrating(CalibrationProgress),
    /// Overboost protection active - immediate 0% duty until pressure drops
    OverboostCut,
    /// System fault detected - requires user intervention
    Fault(FaultCode),
}

/// Whether a fault requires immediate system shutdown: hardware and safety
/// faults, loss of CAN, and a fault of a manifold pressure sensor.
pub open spec fn spec_is_critical(f: FaultCode) -> bool {
    match f {
        FaultCode::SelfTestFailed => true,
        FaultCode::PwmHardwareFault => true,
        FaultCode::StorageSystemFault => true,
        FaultCode::OverboostLimitExceeded { .. } => true,
        FaultCode::PneumaticSystemFailure => true,
        FaultCode::SafetyResponseTooSlow => true,
        FaultCode::CanCommunicationLost => true,
        FaultCode::PressureSensorFault(sensor) => contains_chars(sensor@, "manifold"@),
        _ => false,
    }
}

/// Whether the controller may go to the armed state from `s`.
pub open spec fn spec_can_arm(s: SystemState) -> bool {
    match s {
        SystemState::Idle => true,
        SystemState::OverboostCut => false,
        SystemState::Fault(f) => !spec_is_critical(f),
        SystemState::Calibrating(_) => false,
        SystemState::Initializing => false,
        SystemState::Armed => true,
    }
}

/// Whether the state forces 0% PWM duty (wastegate open).
pub open spec fn spec_failsafe(s: SystemState) -> bool {
    match s {
        SystemState::Initializing => true,
        SystemState::Idle => true,
        SystemState::OverboostCut => true,
        SystemState::Fault(f) => spec_is_critical(f),
        SystemState::Armed => false,
        SystemState::Calibrating(_) => false,
    }
}

/// The display priority of a state (higher = more important to show).
pub open spec fn spec_priority(s: SystemState) -> u8 {
    match s {
        SystemState::Fault(_) => 255,
        SystemState::OverboostCut => 200,
        SystemState::Initializing => 150,
        SystemState::Calibrating(_) => 100,
        SystemState::Armed => 50,
        SystemState::Idle => 25,
    }
}

/// The recommended user action for each fault.
pub open spec fn spec_recommended_action(f: FaultCode) -> Seq<char> {
    match f {
        FaultCode::SelfTestFailed => "Check all hardware connections and power supply"@,
        FaultCode::PwmHardwareFault => "Check solenoid wiring and driver circuit"@,
        FaultCode::PressureSensorFault(_) => "Check pressure sensor connections and air lines"@,
        FaultCode::CanCommunicationLost => "Check CAN bus connections and ECU power"@,
        FaultCode::StorageSystemFault => "Replace SD card and restore configuration backup"@,
        FaultCode::OverboostLimitExceeded { .. } => "Reduce boost targets or check wastegate operation"@,
        FaultCode::PneumaticSystemFailure => "Check air supply pressure and wastegate linkage"@,
        FaultCode::SafetyResponseTooSlow => "Check pneumatic system for leaks or restrictions"@,
        FaultCode::InvalidConfiguration(_) => "Review and correct configuration parameters"@,
        FaultCode::CalibrationDataCorrupted => "Reset calibration data and re-run auto-calibration"@,
        FaultCode::TorqueSignalsInvalid => "Verify CAN signal mapping for your ECU"@,
        FaultCode::ImplausibleSensorReading { .. } => "Check sensor calibration and connections"@,
        FaultCode::CalibrationFailed(_) => "Check pneumatic system and retry calibration"@,
        FaultCode::LearningInconsistency => "Reset learned data if problem persists"@,
    }
}

/// The description of a fault, for every fault whose text holds no
/// real-valued reading; the overboost and implausible-reading faults show
/// their pressures, which their caller formats.
pub open spec fn spec_fault_description(f: FaultCode) -> Option<Seq<char>> {
    match f {
        FaultCode::SelfTestFailed => Some("Hardware self-test failed during initialization"@),
        FaultCode::PwmHardwareFault => Some("PWM hardware failure - solenoid control unavailable"@),
        FaultCode::PressureSensorFault(sensor) => Some("Pressure sensor fault: "@ + sensor@),
        FaultCode::CanCommunicationLost => Some("CAN bus communication lost - no ECU data available"@),
        FaultCode::StorageSystemFault => Some("SD card storage failure - configuration may be lost"@),
        FaultCode::OverboostLimitExceeded { .. } => None,
        FaultCode::PneumaticSystemFailure => Some("Pneumatic system not responding - wastegate control ineffective"@),
        FaultCode::SafetyResponseTooSlow => Some("Safety response time exceeded specification - system unsafe"@),
        FaultCode::InvalidConfiguration(msg) => Some("Invalid configuration: "@ + msg@),
        FaultCode::CalibrationDataCorrupted => Some("Calibration data corrupted - using defaults"@),
        FaultCode::TorqueSignalsInvalid => Some("ECU torque signals invalid - reduced functionality"@),
        FaultCode::ImplausibleSensorReading { .. } => None,
        FaultCode::CalibrationFailed(msg) => Some("Auto-calibration failed: "@ + msg@),
        FaultCode::LearningInconsistency => Some("Learning system detected inconsistent data"@),
    }
}

/// The short display text of a state; a calibration shows its overall
/// progress `calibration_percent`.
pub open spec fn spec_display_text(s: SystemState, calibration_percent: u8) -> Seq<char> {
    match s {
        SystemState::Initializing => "INIT"@,
        SystemState::Idle => "IDLE"@,
        SystemState::Armed => "ARMED"@,
        SystemState::Calibrating(_) => "CAL "@ + decimal(calibration_percent as nat) + "%"@,
        SystemState::OverboostCut => "OVERBOOST"@,
        SystemState::Fault(_) => "FAULT"@,
    }
}

impl FaultCode {
    /// Check if fault is critical and requires immediate system shutdown
    pub fn is_critical(&self) -> (r: bool)
        ensures
            r == spec_is_critical(*self),
    {
        match self {
            FaultCode::SelfTestFailed | FaultCode::PwmHardwareFault | FaultCode::StorageSystemFault => true,
            FaultCode::OverboostLimitExceeded { .. } | FaultCode::PneumaticSystemFailure
            | FaultCode::SafetyResponseTooSlow => true,
            FaultCode::CanCommunicationLost => true,
            FaultCode::PressureSensorFault(sensor) => str_contains(sensor.as_str(), "manifold"),
            _ => false,
        }
    }

    /// Human-readable description of the fault, where it holds no
    /// real-valued reading (`None` for the overboost and implausible-reading
    /// faults, whose pressures the caller formats).
    pub fn description(&self) -> (d: Option<String>)
        ensures
            match spec_fault_description(*self) {
                Some(t) => d matches Some(s) && s@ == t,
                None => d is None,
            },
    {
        let (prefix, detail): (&str, Option<&String>) = match self {
            FaultCode::SelfTestFailed => ("Hardware self-test failed during initialization", None),
            FaultCode::PwmHardwareFault => ("PWM hardware failure - solenoid control unavailable", None),
            FaultCode::PressureSensorFault(sensor) => ("Pressure sensor fault: ", Some(sensor)),
            FaultCode::CanCommunicationLost => ("CAN bus communication lost - no ECU data available", None),
            FaultCode::StorageSystemFault => ("SD card storage failure - configuration may be lost", None),
            FaultCode::OverboostLimitExceeded { .. } => return None,
            FaultCode::PneumaticSystemFailure => ("Pneumatic system not responding - wastegate control ineffective", None),
            FaultCode::SafetyResponseTooSlow => ("Safety response time exceeded specification - system unsafe", None),
            FaultCode::InvalidConfiguration(msg) => ("Invalid configuration: ", Some(msg)),
            FaultCode::CalibrationDataCorrupted => ("Calibration data corrupted - using defaults", None),
            FaultCode::TorqueSignalsInvalid => ("ECU torque signals invalid - reduced functionality", None),
            FaultCode::ImplausibleSensorReading { .. } => return None,
            FaultCode::CalibrationFailed(msg) => ("Auto-calibration failed: ", Some(msg)),
            FaultCode::LearningInconsistency => ("Learning system detected inconsistent data", None),
        };
        let mut text = String::from_str(prefix);
        match detail {
            Some(d) => text.append(d.as_str()),
            None => {},
        }
        Some(text)
    }

    /// Get recommended user action for fault
    pub fn recommended_action(&self) -> (s: String)
        ensures
            s@ == spec_recommended_action(*self),
    {
        let text = match self {
            FaultCode::SelfTestFailed => "Check all hardware connections and power supply",
            FaultCode::PwmHardwareFault => "Check solenoid wiring and driver circuit",
            FaultCode::PressureSensorFault(_) => "Check pressure sensor connections and air lines",
            FaultCode::CanCommunicationLost => "Check CAN bus connections and ECU power",
            FaultCode::StorageSystemFault => "Replace SD card and restore configuration backup",
            FaultCode::OverboostLimitExceeded { .. } => "Reduce boost targets or check wastegate operation",
            FaultCode::PneumaticSystemFailure => "Check air supply pressure and wastegate linkage",
            FaultCode::SafetyResponseTooSlow => "Check pneumatic system for leaks or restrictions",
            FaultCode::InvalidConfiguration(_) => "Review and correct configuration parameters",
            FaultCode::CalibrationDataCorrupted => "Reset calibration data and re-run auto-calibration",
            FaultCode::TorqueSignalsInvalid => "Verify CAN signal mapping for your ECU",
            FaultCode::ImplausibleSensorReading { .. } => "Check sensor calibration and connections",
            FaultCode::CalibrationFailed(_) => "Check pneumatic system and retry calibration",
            FaultCode::LearningInconsistency => "Reset learned data if problem persists",
        };
        String::from_str(text)
    }
}

impl SystemState {
    /// The state the controller starts in.
    pub fn initial() -> (s: Self)
        ensures
            s is Initializing,
    {
        SystemState::Initializing
    }

    /// Check if system can transition to armed state
    pub fn can_transition_to_armed(&self) -> (r: bool)
        ensures
            r == spec_can_arm(*self),
    {
        match self {
            SystemState::Idle => true,
            SystemState::OverboostCut => false,
            SystemState::Fault(fault) => !fault.is_critical(),
            SystemState::Calibrating(_) => false,
            SystemState::Initializing => false,
            SystemState::Armed => true,
        }
    }

    /// Check if system should force 0% PWM duty
    pub fn requires_failsafe_pwm(&self) -> (r: bool)
        ensures
            r == spec_failsafe(*self),
    {
        match self {
            SystemState::Initializing => true,
            SystemState::Idle => true,
            SystemState::OverboostCut => true,
            SystemState::Fault(fault) => fault.is_critical(),
            SystemState::Armed => false,
            SystemState::Calibrating(_) => false,
        }
    }

    /// Display status text for the state; a calibration shows its overall
    /// progress, `calibration_percent`, as a whole percentage.
    pub fn display_text(&self, calibration_percent: u8) -> (t: String)
        ensures
            t@ == spec_display_text(*self, calibration_percent),
    {
        match self {
            SystemState::Initializing => String::from_str("INIT"),
            SystemState::Idle => String::from_str("IDLE"),
            SystemState::Armed => String::from_str("ARMED"),
            SystemState::Calibrating(_) => {
                let mut t = String::from_str("CAL ");
                append_decimal(&mut t, calibration_percent as u64);
                t.append("%");
                t
            },
            SystemState::OverboostCut => String::from_str("OVERBOOST"),
            SystemState::Fault(_) => String::from_str("FAULT"),
        }
    }

    /// Get state priority for display (higher = more important to show)
    pub fn display_priority(&self) -> (p: u8)
        ensures
            p == spec_priority(*self),
    {
        match self {
            SystemState::Fault(_) => 255,
            SystemState::OverboostCut => 200,
            SystemState::Initializing => 150,
            SystemState::Calibrating(_) => 100,
            SystemState::Armed => 50,
            SystemState::Idle => 25,
        }
    }
}

/// A fault forces the failsafe output exactly when it blocks arming: a
/// critical fault does both, any other fault neither.
pub proof fn lemma_fault_failsafe_iff_not_armable(f: FaultCode)
    ensures
        spec_failsafe(SystemState::Fault(f)) == !spec_can_arm(SystemState::Fault(f)),
        spec_failsafe(SystemState::Fault(f)) == spec_is_critical(f),
{
}

/// Every state from which the controller cannot arm forces the failsafe
/// output, except calibration, which drives the output itself.
pub proof fn lemma_unarmable_states_are_failsafe(s: SystemState)
    requires
        !spec_can_arm(s),
        !(s is Calibrating),
    ensures
        spec_failsafe(s),
{
}

/// Hardware and safety faults and the loss of CAN are critical: a system
/// in such a fault may not arm and holds the output at 0 %. Configuration,
/// calibration, learning and torque-signal faults are not critical.
pub proof fn lemma_critical_faults(pressure_psi_bits: u32, limit_psi_bits: u32, sensor: String, value_bits: u32, msg: String)
    ensures
        spec_is_critical(FaultCode::SelfTestFailed) == true,
        spec_is_critical(FaultCode::PwmHardwareFault) == true,
        spec_is_critical(FaultCode::StorageSystemFault) == true,
        spec_is_critical(FaultCode::OverboostLimitExceeded { pressure_psi_bits, limit_psi_bits }) == true,
        spec_is_critical(FaultCode::PneumaticSystemFailure) == true,
        spec_is_critical(FaultCode::SafetyResponseTooSlow) == true,
        spec_is_critical(FaultCode::CanCommunicationLost) == true,
        spec_is_critical(FaultCode::InvalidConfiguration(msg)) == false,
        spec_is_critical(FaultCode::CalibrationDataCorrupted) == false,
        spec_is_critical(FaultCode::TorqueSignalsInvalid) == false,
        spec_is_critical(FaultCode::ImplausibleSensorReading { sensor, value_bits }) == false,
        spec_is_critical(FaultCode::CalibrationFailed(msg)) == false,
        spec_is_critical(FaultCode::LearningInconsistency) == false,
        forall|f: FaultCode| #![trigger spec_is_critical(f)]
            (f is SelfTestFailed || f is PwmHardwareFault || f is StorageSystemFault || f is OverboostLimitExceeded
                || f is PneumaticSystemFailure || f is SafetyResponseTooSlow || f is CanCommunicationLost)
            ==> spec_is_critical(f) && spec_can_arm(SystemState::Fault(f)) == false
                && spec_failsafe(SystemState::Fault(f)) == true,
{
}

/// Arming is possible from idle (and while armed) and never while
/// initialising, calibrating or cutting for overboost; the failsafe output
/// is forced while initialising, idle or cutting for overboost, and never
/// while armed or calibrating. On the display a fault outranks an overboost
/// cut, which outranks initialising, then calibrating, armed and idle.
pub proof fn lemma_state_rules(progress: CalibrationProgress, f: FaultCode)
    ensures
        spec_can_arm(SystemState::Idle) == true,
        spec_can_arm(SystemState::Armed) == true,
        spec_can_arm(SystemState::Initializing) == false,
        spec_can_arm(SystemState::Calibrating(progress)) == false,
        spec_can_arm(SystemState::OverboostCut) == false,
        spec_failsafe(SystemState::Initializing) == true,
        spec_failsafe(SystemState::Idle) == true,
        spec_failsafe(SystemState::OverboostCut) == true,
        spec_failsafe(SystemState::Armed) == false,
        spec_failsafe(SystemState::Calibrating(progress)) == false,
        spec_priority(SystemState::Fault(f)) > spec_priority(SystemState::OverboostCut),
        spec_priority(SystemState::OverboostCut) > spec_priority(SystemState::Initializing),
        spec_priority(SystemState::Initializing) > spec_priority(SystemState::Calibrating(progress)),
        spec_priority(SystemState::Calibrating(progress)) > spec_priority(SystemState::Armed),
        spec_priority(SystemState::Armed) > spec_priority(SystemState::Idle),
{
}

/// Safety-relevant states outrank normal operation on the display: a fault
/// is shown above everything, and an overboost cut above every state but a
/// fault.
pub proof fn lemma_display_priority_order(s: SystemState)
    ensures
        spec_priority(SystemState::Fault(FaultCode::SelfTestFailed)) >= spec_priority(s),
        !(s is Fault) ==> spec_priority(SystemState::OverboostCut) >= spec_priority(s),
        spec_priority(SystemState::Armed) > spec_priority(SystemState::Idle),
{
}

} // verus!
