//! Error types of the hardware layer and of the core logic, with the
//! classification rules that decide how the controller reacts to each.

use vstd::prelude::*;

verus! {

/// Hardware abstraction layer errors.
///
/// The out-of-range sensor report carries its reading and bounds as the
/// IEEE-754 bit patterns of the `f32` values, so the report travels through
/// the library unchanged.
#[derive(Debug, Clone)]
pub enum HalError {
    /// Generic hardware communication error
    Communication(String),
    /// Invalid parameter provided to a hardware function
    InvalidParameter(String),
    /// Hardware not initialized or not available
    NotAvailable(String),
    /// Timeout waiting for a hardware operation
    Timeout(String),
    /// ADC conversion error
    AdcError(String),
    /// PWM controller error
    PwmError(String),
    /// CAN bus error
    CanError(String),
    /// Display controller error
    DisplayError(String),
    /// Storage system error
    StorageError(String),
    /// GPIO operation error
    GpioError(String),
    /// Watchdog timer error
    WatchdogError(String),
    /// Sensor reading out of expected range
    SensorOutOfRange { sensor: String, value_bits: u32, min_bits: u32, max_bits: u32 },
    /// Critical safety constraint violation
    SafetyViolation(String),
    /// Peripheral initialization failed
    Initialization(String),
    /// Device already in use
    DeviceBusy(String),
    /// Device present but not ready
    DeviceNotReady(String),
    /// Device not present
    DeviceNotFound(String),
    /// Stored data failed a consistency check
    DataCorruption(String),
    /// Block-level input/output failure
    IoError(String),
    /// A fixed-size buffer would overflow
    BufferOverflow(String),
    /// Data could not be serialized
    SerializationError(String),
}

impl HalError {
    /// Create a communication error
    pub fn communication(msg: String) -> (e: Self)
        ensures e == HalError::Communication(msg),
    {
        HalError::Communication(msg)
    }

    /// Create an invalid parameter error
    pub fn invalid_parameter(msg: String) -> (e: Self)
        ensures e == HalError::InvalidParameter(msg),
    {
        HalError::InvalidParameter(msg)
    }

    /// Create a not available error
    pub fn not_available(msg: String) -> (e: Self)
        ensures e == HalError::NotAvailable(msg),
    {
        HalError::NotAvailable(msg)
    }

    /// Create a timeout error
    pub fn timeout(msg: String) -> (e: Self)
        ensures e == HalError::Timeout(msg),
    {
        HalError::Timeout(msg)
    }

    /// Create a safety violation error
    pub fn safety_violation(msg: String) -> (e: Self)
        ensures e == HalError::SafetyViolation(msg),
    {
        HalError::SafetyViolation(msg)
    }

    /// Create a sensor out of range error from the bit patterns of the
    /// reading and of its expected bounds.
    pub fn sensor_out_of_range(sensor: String, value_bits: u32, min_bits: u32, max_bits: u32) -> (e: Self)
        ensures e == (HalError::SensorOutOfRange { sensor, value_bits, min_bits, max_bits }),
    {
        HalError::SensorOutOfRange { sensor, value_bits, min_bits, max_bits }
    }
}

/// Core system errors
#[derive(Debug, Clone)]
pub enum CoreError {
    /// Hardware abstraction layer error
    Hardware(HalError),
    /// Invalid system state for requested operation
    InvalidState(String),
    /// Configuration error
    Configuration(String),
    /// Calibration system error
    Calibration(String),
    /// Control loop error
    Control(String),
    /// Safety system violation
    Safety(String),
    /// Learning system error
    Learning(String),
    /// Input validation error
    InputValidation(String),
    /// Data persistence error
    Storage(String),
    /// Communication protocol error
    Protocol(String),
    /// System initialization error
    Initialization(String),
    /// Generic internal error
    Internal(String),
}

/// Error severity levels for logging and response prioritization
#[derive(Debug, Clone, Copy, PartialEq, Eq, PartialOrd, Ord, Structural)]
pub enum ErrorSeverity {
    /// Low severity - log but continue operation
    Low,
    /// Medium severity - may affect performance but system operational
    Medium,
    /// High severity - significant impact, may require intervention
    High,
    /// Critical severity - immediate safety response required
    Critical,
}

/// Whether a hardware error lets the system continue in a degraded mode.
pub open spec fn hal_error_recoverable(e: HalError) -> bool {
    e is Communication || e is Timeout || e is SensorOutOfRange
}

/// Whether a core error lets the system continue in a degraded mode.
pub open spec fn spec_recoverable(e: CoreError) -> bool {
    match e {
        CoreError::Hardware(h) => hal_error_recoverable(h),
        CoreError::InputValidation(_) => true,
        CoreError::Protocol(_) => true,
        CoreError::Storage(_) => true,
        CoreError::Control(_) => true,
        CoreError::Learning(_) => true,
        _ => false,
    }
}

/// Whether a core error demands the failsafe output (0% duty) at once.
pub open spec fn spec_requires_shutdown(e: CoreError) -> bool {
    match e {
        CoreError::Safety(_) => true,
        CoreError::Hardware(h) => h is SafetyViolation,
        _ => false,
    }
}

/// The severity assigned to each core error.
pub open spec fn spec_severity(e: CoreError) -> ErrorSeverity {
    match e {
        CoreError::Safety(_) => ErrorSeverity::Critical,
        CoreError::Hardware(h) => if h is SafetyViolation { ErrorSeverity::Critical } else { ErrorSeverity::High },
        CoreError::InvalidState(_) => ErrorSeverity::High,
        CoreError::Configuration(_) => ErrorSeverity::High,
        CoreError::Initialization(_) => ErrorSeverity::High,
        CoreError::Calibration(_) => ErrorSeverity::Medium,
        CoreError::Control(_) => ErrorSeverity::Medium,
        CoreError::Storage(_) => ErrorSeverity::Medium,
        CoreError::Learning(_) => ErrorSeverity::Low,
        CoreError::InputValidation(_) => ErrorSeverity::Low,
        CoreError::Protocol(_) => ErrorSeverity::Low,
        CoreError::Internal(_) => ErrorSeverity::High,
    }
}

impl CoreError {
    /// Create an invalid state error
    pub fn invalid_state(msg: String) -> (e: Self)
        ensures e == CoreError::InvalidState(msg),
    {
        CoreError::InvalidState(msg)
    }

    /// Create a configuration error
    pub fn configuration(msg: String) -> (e: Self)
        ensures e == CoreError::Configuration(msg),
    {
        CoreError::Configuration(msg)
    }

    /// Create a calibration error
    pub fn calibration(msg: String) -> (e: Self)
        ensures e == CoreError::Calibration(msg),
    {
        CoreError::Calibration(msg)
    }

    /// Create a control error
    pub fn control(msg: String) -> (e: Self)
        ensures e == CoreError::Control(msg),
    {
        CoreError::Control(msg)
    }

    /// Create a safety violation error
    pub fn safety(msg: String) -> (e: Self)
        ensures e == CoreError::Safety(msg),
    {
        CoreError::Safety(msg)
    }

    /// Create a learning error
    pub fn learning(msg: String) -> (e: Self)
        ensures e == CoreError::Learning(msg),
    {
        CoreError::Learning(msg)
    }

    /// Create an input validation error
    pub fn input_validation(msg: String) -> (e: Self)
        ensures e == CoreError::InputValidation(msg),
    {
        CoreError::InputValidation(msg)
    }

    /// Create a storage error
    pub fn storage(msg: String) -> (e: Self)
        ensures e == CoreError::Storage(msg),
    {
        CoreError::Storage(msg)
    }

    /// Create a protocol error
    pub fn protocol(msg: String) -> (e: Self)
        ensures e == CoreError::Protocol(msg),
    {
        CoreError::Protocol(msg)
    }

    /// Create an initialization error
    pub fn initialization(msg: String) -> (e: Self)
        ensures e == CoreError::Initialization(msg),
    {
        CoreError::Initialization(msg)
    }

    /// Create an internal error
    pub fn internal(msg: String) -> (e: Self)
        ensures e == CoreError::Internal(msg),
    {
        CoreError::Internal(msg)
    }

    /// Check if error is recoverable (system can continue with degraded function)
    pub fn is_recoverable(&self) -> (r: bool)
        ensures r == spec_recoverable(*self),
    {
        match self {
            CoreError::Hardware(hal_err) => {
                match hal_err {
                    HalError::Communication(_) => true,
                    HalError::Timeout(_) => true,
                    HalError::SensorOutOfRange { .. } => true,
                    _ => false,
                }
            },
            CoreError::InputValidation(_) => true,
            CoreError::Protocol(_) => true,
            CoreError::Storage(_) => true,
            CoreError::Control(_) => true,
            CoreError::Learning(_) => true,
            CoreError::Safety(_) => false,
            CoreError::InvalidState(_) => false,
            CoreError::Configuration(_) => false,
            CoreError::Calibration(_) => false,
            CoreError::Initialization(_) => false,
            CoreError::Internal(_) => false,
        }
    }

    /// Check if error requires immediate safety response (0% duty)
    pub fn requires_immediate_shutdown(&self) -> (r: bool)
        ensures r == spec_requires_shutdown(*self),
    {
        match self {
            CoreError::Safety(_) => true,
            CoreError::Hardware(hal_err) => {
                match hal_err {
                    HalError::SafetyViolation(_) => true,
                    _ => false,
                }
            },
            _ => false,
        }
    }

    /// Get error severity level
    pub fn severity(&self) -> (s: ErrorSeverity)
        ensures s == spec_severity(*self),
    {
        match self {
            CoreError::Safety(_) => ErrorSeverity::Critical,
            CoreError::Hardware(hal_err) => {
                match hal_err {
                    HalError::SafetyViolation(_) => ErrorSeverity::Critical,
                    _ => ErrorSeverity::High,
                }
            },
            CoreError::InvalidState(_) => ErrorSeverity::High,
            CoreError::Configuration(_) => ErrorSeverity::High,
            CoreError::Initialization(_) => ErrorSeverity::High,
            CoreError::Calibration(_) => ErrorSeverity::Medium,
            CoreError::Control(_) => ErrorSeverity::Medium,
            CoreError::Storage(_) => ErrorSeverity::Medium,
            CoreError::Learning(_) => ErrorSeverity::Low,
            CoreError::InputValidation(_) => ErrorSeverity::Low,
            CoreError::Protocol(_) => ErrorSeverity::Low,
            CoreError::Internal(_) => ErrorSeverity::High,
        }
    }
}

/// A core error that demands the failsafe output is never one the system
/// continues through, and is always of critical severity.
pub proof fn lemma_shutdown_errors_are_critical_and_unrecoverable(e: CoreError)
    requires
        spec_requires_shutdown(e),
    ensures
        !spec_recoverable(e),
        spec_severity(e) == ErrorSeverity::Critical,
{
}

impl ErrorSeverity {
    /// Get human-readable severity description
    pub fn as_str(&self) -> (s: &'static str)
        ensures
            s@ == match *self {
                ErrorSeverity::Low => "LOW"@,
                ErrorSeverity::Medium => "MEDIUM"@,
                ErrorSeverity::High => "HIGH"@,
                ErrorSeverity::Critical => "CRITICAL"@,
            },
    {
        match self {
            ErrorSeverity::Low => "LOW",
            ErrorSeverity::Medium => "MEDIUM",
            ErrorSeverity::High => "HIGH",
            ErrorSeverity::Critical => "CRITICAL",
        }
    }
}

/// Safety errors, and hardware errors that are safety violations, demand
/// the failsafe output, are critical and are never recovered from; input
/// validation, protocol, storage, control and learning errors are
/// recoverable; communication, timeout and out-of-range hardware errors
/// are recoverable, other hardware errors not.
pub proof fn lemma_error_classes(msg: String)
    ensures
        spec_requires_shutdown(CoreError::Safety(msg)) && spec_severity(CoreError::Safety(msg)) == ErrorSeverity::Critical
            && !spec_recoverable(CoreError::Safety(msg)),
        spec_requires_shutdown(CoreError::Hardware(HalError::SafetyViolation(msg)))
            && spec_severity(CoreError::Hardware(HalError::SafetyViolation(msg))) == ErrorSeverity::Critical
            && !spec_recoverable(CoreError::Hardware(HalError::SafetyViolation(msg))),
        spec_recoverable(CoreError::InputValidation(msg)) && !spec_requires_shutdown(CoreError::InputValidation(msg)),
        spec_recoverable(CoreError::Protocol(msg)) && !spec_requires_shutdown(CoreError::Protocol(msg)),
        spec_recoverable(CoreError::Storage(msg)) && !spec_requires_shutdown(CoreError::Storage(msg)),
        spec_recoverable(CoreError::Control(msg)) && !spec_requires_shutdown(CoreError::Control(msg)),
        spec_recoverable(CoreError::Learning(msg)) && !spec_requires_shutdown(CoreError::Learning(msg)),
        !spec_recoverable(CoreError::Configuration(msg)),
        !spec_recoverable(CoreError::Calibration(msg)),
        !spec_recoverable(CoreError::Initialization(msg)),
        !spec_recoverable(CoreError::InvalidState(msg)),
        !spec_recoverable(CoreError::Internal(msg)),
        spec_recoverable(CoreError::Hardware(HalError::Communication(msg))),
        spec_recoverable(CoreError::Hardware(HalError::Timeout(msg))),
        !spec_recoverable(CoreError::Hardware(HalError::Initialization(msg))),
{
}

} // verus!
