//! Message vocabulary of the JSON/CLI protocol between the controller and
//! its tools: the message envelope, requests, responses and notifications,
//! the data records they carry, and the protocol errors.
//!
//! Real-valued fields are `f32` values kept as their bit patterns. Message
//! timestamps are Unix milliseconds read by the caller.

use vstd::prelude::*;
use std::collections::HashMap;
use crate::text::{append_decimal, decimal};

verus! {

/// Protocol version
pub const PROTOCOL_VERSION: &'static str = "1.0.0";

/// Error codes for protocol responses
#[derive(Debug, Clone, Copy, PartialEq, Eq, Structural)]
pub enum ErrorCode {
    /// Invalid request format
    InvalidRequest,
    /// Unknown command
    UnknownCommand,
    /// Invalid parameters
    InvalidParameters,
    /// System not in correct state for operation
    InvalidState,
    /// Configuration validation failed
    ConfigurationError,
    /// Hardware error
    HardwareError,
    /// Safety system prevented operation
    SafetyError,
    /// Internal system error
    InternalError,
}

/// Hardware diagnostics
#[derive(Debug, Clone)]
pub struct HardwareDiagnosticsDto {
    pub pwm_status: String,
    pub adc_status: String,
    pub can_status: String,
    pub display_status: String,
    pub storage_status: String,
}

/// Safety diagnostics
#[derive(Debug, Clone)]
pub struct SafetyDiagnosticsDto {
    pub overboost_events: u32,
    pub fault_events: u32,
    pub safety_cuts: u32,
    pub last_safety_event: Option<String>,
}

#[verifier::external_type_specification]
#[verifier::external_body]
pub struct ExJsonValue(serde_json::Value);

#[verifier::external_type_specification]
#[verifier::external_body]
pub struct ExJsonError(serde_json::Error);

/// Top-level protocol message envelope
#[derive(Debug)]
pub struct Message {
    /// Protocol version
    pub version: String,
    /// Unique message ID for request/response correlation
    pub id: String,
    /// Message timestamp (Unix milliseconds)
    pub timestamp: u64,
    /// Message payload
    pub payload: MessagePayload,
}

/// Message payload types
#[derive(Debug)]
pub enum MessagePayload {
    /// Request messages (client to controller)
    Request(RequestPayload),
    /// Response messages (controller to client)
    Response(ResponsePayload),
    /// Unsolicited notifications (controller to client)
    Notification(NotificationPayload),
}

/// Request message payloads
#[derive(Debug)]
pub enum RequestPayload {
    /// Get system status
    GetStatus,
    /// Get current configuration
    GetConfig,
    /// Update configuration
    SetConfig { config: SystemConfigDto },
    /// Start calibration sequence
    StartCalibration { target_rpm: u16, target_boost_bits: u32 },
    /// Stop calibration sequence
    StopCalibration,
    /// Reset learned data
    ResetLearning,
    /// Change active profile
    SetProfile { profile_name: String },
    /// Get diagnostic data
    GetDiagnostics,
    /// Get telemetry stream
    SubscribeTelemetry { rate_hz: u16 },
    /// Stop telemetry stream
    UnsubscribeTelemetry,
    /// System shutdown
    Shutdown,
}

/// Response message payloads
#[derive(Debug)]
pub enum ResponsePayload {
    /// Successful response
    Success { data: Option<ResponseData> },
    /// Error response
    Error { code: ErrorCode, message: String, details: Option<serde_json::Value> },
}

/// Response data payloads
#[derive(Debug)]
pub enum ResponseData {
    /// System status response
    Status(SystemStatusDto),
    /// Configuration response
    Config(SystemConfigDto),
    /// Diagnostic data response
    Diagnostics(DiagnosticsDto),
}

/// Notification payloads (unsolicited)
#[derive(Debug)]
pub enum NotificationPayload {
    /// System state changed
    StateChanged { old_state: String, new_state: String, timestamp: u64 },
    /// Fault condition occurred
    Fault { fault_code: String, description: String, severity: String, timestamp: u64 },
    /// Calibration progress update (target boost as `f32` bits)
    CalibrationProgress { phase: String, progress_percent: u8, current_target_bits: Option<u32>, message: String },
    /// Real-time telemetry data
    Telemetry(TelemetryDto),
}

/// System status data transfer object
#[derive(Debug, Clone)]
pub struct SystemStatusDto {
    /// Current system state
    pub state: String,
    /// State description
    pub state_description: String,
    /// Active profile name
    pub active_profile: String,
    /// Current sensor readings
    pub sensors: SensorReadingsDto,
    /// Current CAN data
    pub can_data: CanDataDto,
    /// Current control outputs
    pub outputs: OutputsDto,
    /// System uptime in seconds
    pub uptime_seconds: u64,
    /// Last error (if any)
    pub last_error: Option<String>,
}

/// Configuration data transfer object (`f32` fields as bits)
#[derive(Debug)]
pub struct SystemConfigDto {
    /// Wastegate spring pressure
    pub spring_pressure_bits: u32,
    /// Boost profiles by name
    pub profiles: HashMap<String, BoostProfileDto>,
    /// Active profile name
    pub active_profile: String,
    /// Scramble profile name
    pub scramble_profile: String,
    /// Torque target percentage
    pub torque_target_percentage_bits: u32,
    /// Boost slew rate limit
    pub boost_slew_rate_bits: u32,
    /// Safety configuration
    pub safety: SafetyConfigDto,
}

/// Boost profile data transfer object (`f32` fields as bits)
#[derive(Debug, Clone)]
pub struct BoostProfileDto {
    /// Profile name
    pub name: String,
    /// Profile description
    pub description: String,
    /// Boost curve points
    pub boost_targets: Vec<BoostPointDto>,
    /// Maximum boost limit
    pub max_boost_bits: u32,
    /// Overboost cut threshold
    pub overboost_limit_bits: u32,
    /// Overboost hysteresis
    pub overboost_hysteresis_bits: u32,
}

/// Boost curve point (`f32` boost as bits)
#[derive(Debug, Clone, Copy)]
pub struct BoostPointDto {
    pub rpm: u16,
    pub boost_psi_bits: u32,
}

/// Safety configuration DTO (`f32` fields as bits)
#[derive(Debug, Clone, Copy)]
pub struct SafetyConfigDto {
    pub global_overboost_limit_bits: u32,
    pub max_duty_change_per_cycle_bits: u32,
    pub max_rpm: u16,
    pub min_rpm_for_arming: u16,
    pub can_timeout_ms: u64,
}

/// Sensor readings DTO (`f32` fields as bits)
#[derive(Debug, Clone, Copy)]
pub struct SensorReadingsDto {
    pub dome_input_pressure_bits: u32,
    pub upper_dome_pressure_bits: u32,
    pub manifold_pressure_gauge_bits: u32,
    pub timestamp_ms: u64,
}

/// CAN data DTO (`f32` fields as bits)
#[derive(Debug, Clone)]
pub struct CanDataDto {
    pub rpm: u16,
    pub map_kpa_bits: u32,
    pub desired_torque_bits: u32,
    pub actual_torque_bits: u32,
    pub throttle_position_bits: Option<u32>,
    pub drive_mode: Option<String>,
    pub timestamp_ms: u64,
}

/// Control outputs DTO (`f32` fields as bits)
#[derive(Debug, Clone)]
pub struct OutputsDto {
    /// Current PWM duty cycle (%)
    pub duty_cycle_bits: u32,
    /// Target boost pressure (PSI)
    pub target_boost_bits: u32,
    /// PID controller output
    pub pid_output_bits: u32,
    /// Current control mode
    pub control_mode: String,
}

/// Diagnostic data DTO
#[derive(Debug, Clone)]
pub struct DiagnosticsDto {
    /// Hardware status
    pub hardware: HardwareDiagnosticsDto,
    /// Control loop performance
    pub performance: PerformanceDiagnosticsDto,
    /// Safety system status
    pub safety: SafetyDiagnosticsDto,
    /// Learning system status
    pub learning: LearningDiagnosticsDto,
}

/// Performance diagnostics (`f32` fields as bits)
#[derive(Debug, Clone, Copy)]
pub struct PerformanceDiagnosticsDto {
    pub control_loop_frequency_bits: u32,
    pub max_loop_time_ms_bits: u32,
    pub avg_loop_time_ms_bits: u32,
    pub missed_cycles: u32,
}

/// Learning system diagnostics (`f32` fields as bits)
#[derive(Debug, Clone, Copy)]
pub struct LearningDiagnosticsDto {
    pub calibration_points: u32,
    pub confidence_average_bits: u32,
    pub last_learning_update: Option<u64>,
    pub learning_enabled: bool,
}

/// Real-time telemetry data
#[derive(Debug, Clone)]
pub struct TelemetryDto {
    /// Timestamp
    pub timestamp_ms: u64,
    /// Sensor data
    pub sensors: SensorReadingsDto,
    /// CAN data
    pub can_data: CanDataDto,
    /// Control outputs
    pub outputs: OutputsDto,
    /// System state
    pub state: String,
}

/// The id of a notification sent at `timestamp`.
pub open spec fn notification_id(timestamp: u64) -> Seq<char> {
    "notif-"@ + decimal(timestamp as nat)
}

impl Message {
    /// Create a new request message sent at `timestamp`
    pub fn new_request(id: String, request: RequestPayload, timestamp: u64) -> (m: Self)
        ensures
            m.version@ == PROTOCOL_VERSION@,
            m.id == id,
            m.timestamp == timestamp,
            m.payload == MessagePayload::Request(request),
    {
        Message {
            version: String::from_str(PROTOCOL_VERSION),
            id,
            timestamp,
            payload: MessagePayload::Request(request),
        }
    }

    /// Create a new response message sent at `timestamp`
    pub fn new_response(id: String, response: ResponsePayload, timestamp: u64) -> (m: Self)
        ensures
            m.version@ == PROTOCOL_VERSION@,
            m.id == id,
            m.timestamp == timestamp,
            m.payload == MessagePayload::Response(response),
    {
        Message {
            version: String::from_str(PROTOCOL_VERSION),
            id,
            timestamp,
            payload: MessagePayload::Response(response),
        }
    }

    /// Create a new notification message sent at `timestamp`; its id is
    /// "notif-" and the timestamp.
    pub fn new_notification(notification: NotificationPayload, timestamp: u64) -> (m: Self)
        ensures
            m.version@ == PROTOCOL_VERSION@,
            m.id@ == notification_id(timestamp),
            m.timestamp == timestamp,
            m.payload == MessagePayload::Notification(notification),
    {
        let mut id = String::from_str("notif-");
        append_decimal(&mut id, timestamp);
        Message {
            version: String::from_str(PROTOCOL_VERSION),
            id,
            timestamp,
            payload: MessagePayload::Notification(notification),
        }
    }

    /// Create a successful response
    pub fn ok_response(id: String, data: Option<ResponseData>, timestamp: u64) -> (m: Self)
        ensures
            m.version@ == PROTOCOL_VERSION@,
            m.id == id,
            m.timestamp == timestamp,
            m.payload == MessagePayload::Response(ResponsePayload::Success { data }),
    {
        Self::new_response(id, ResponsePayload::Success { data }, timestamp)
    }

    /// Create an error response
    pub fn error_response(id: String, code: ErrorCode, message: String, timestamp: u64) -> (m: Self)
        ensures
            m.version@ == PROTOCOL_VERSION@,
            m.id == id,
            m.timestamp == timestamp,
            m.payload == MessagePayload::Response(ResponsePayload::Error { code, message, details: None }),
    {
        Self::new_response(id, ResponsePayload::Error { code, message, details: None }, timestamp)
    }
}

/// Protocol communication errors
#[derive(Debug)]
pub enum ProtocolError {
    /// JSON serialization/deserialization error
    Json(serde_json::Error),
    /// Invalid message format
    InvalidMessage(String),
    /// Unsupported protocol version
    UnsupportedVersion(String),
    /// Missing required field
    MissingField(String),
    /// Invalid parameter value
    InvalidParameter(String),
}

impl ProtocolError {
    /// Create an invalid message error
    pub fn invalid_message(msg: String) -> (e: Self)
        ensures
            e == ProtocolError::InvalidMessage(msg),
    {
        ProtocolError::InvalidMessage(msg)
    }

    /// Create a missing field error
    pub fn missing_field(field: String) -> (e: Self)
        ensures
            e == ProtocolError::MissingField(field),
    {
        ProtocolError::MissingField(field)
    }

    /// Create an invalid parameter error
    pub fn invalid_parameter(param: String) -> (e: Self)
        ensures
            e == ProtocolError::InvalidParameter(param),
    {
        ProtocolError::InvalidParameter(param)
    }
}

} // verus!
