//! Identifier and status types shared by the hardware layer and the core.

use vstd::prelude::*;

verus! {

/// PWM channel identifiers
#[derive(Debug, Clone, Copy, PartialEq, Eq, Hash, Structural)]
pub enum PwmChannel {
    /// Main boost control solenoid (4-port MAC)
    BoostSolenoid,
}

/// Analog input channel identifiers
#[derive(Debug, Clone, Copy, PartialEq, Eq, Structural)]
pub enum AnalogChannel {
    /// Dome input pressure sensor (air supply)
    DomeInputPressure,
    /// Upper dome pressure sensor (wastegate actuation)
    UpperDomePressure,
    /// Manifold pressure sensor (boost measurement)
    ManifoldPressure,
}

/// GPIO pin identifiers
#[derive(Debug, Clone, Copy, PartialEq, Eq, Structural)]
pub enum GpioPin {
    /// Mode selection button
    ModeButton,
    /// Profile selection button
    ProfileButton,
    /// Emergency stop button
    EmergencyStop,
    /// Scramble boost button
    ScrambleButton,
    /// Status LED (system operational)
    StatusLed,
    /// Error LED
    ErrorLed,
    /// Activity LED
    ActivityLed,
    /// Fault LED (system fault condition)
    FaultLed,
}

/// Debounced button state
#[derive(Debug, Clone, Copy, PartialEq, Eq, Structural)]
pub enum ButtonState {
    Pressed,
    Released,
}

/// LED output pattern
#[derive(Debug, Clone, Copy, PartialEq, Eq, Structural)]
pub enum LedState {
    Off,
    On,
    BlinkSlow,
    BlinkFast,
    Heartbeat,
}

/// CAN health status levels
#[derive(Debug, Clone, Copy, PartialEq, Eq, PartialOrd, Structural)]
pub enum CanHealthStatus {
    Good,
    Warning,
    Poor,
    Critical,
}

/// Display color definitions
#[derive(Debug, Clone, Copy, PartialEq, Eq, Structural)]
pub enum Color {
    Black,
    White,
    Red,
    Green,
    Blue,
    Yellow,
    Cyan,
    Magenta,
    /// Custom RGB color
    Rgb(u8, u8, u8),
}

/// Font size options
#[derive(Debug, Clone, Copy, PartialEq, Eq, Structural)]
pub enum FontSize {
    Small,
    Medium,
    Large,
}

/// Vehicle drive mode selection
#[derive(Debug, Clone, Copy, PartialEq, Eq, Structural)]
pub enum DriveMode {
    Normal,
    Sport,
    SportPlus,
    Track,
}

/// Display mode selection
#[derive(Debug, Clone, Copy, PartialEq, Eq, Structural)]
pub enum DisplayMode {
    /// Gauge display with real-time boost/target readings
    Gauges,
    /// Full status display with detailed system information
    Status,
    /// Diagnostic display for troubleshooting
    Diagnostics,
}

/// Which sensor is providing primary manifold pressure reading
#[derive(Debug, Clone, Copy, PartialEq, Eq, Structural)]
pub enum ManifoldPressureSource {
    /// Using CAN MAP sensor (vacuum conditions)
    CanMapSensor,
    /// Using added boost gauge sensor (boost conditions)
    BoostGaugeSensor,
    /// Blended reading during transition
    BlendedSensors,
}

/// Sensor agreement validation between CAN MAP and boost gauge
#[derive(Debug, Clone, Copy, PartialEq, Eq, Structural)]
pub enum SensorAgreement {
    /// Sensors agree within expected tolerance
    Good,
    /// Minor disagreement - use primary source
    MinorDisagreement,
    /// Major disagreement - possible sensor fault
    MajorDisagreement,
    /// Sensors outside overlap range - normal operation
    OutOfRange,
}

/// Result of one hardware self-test item
#[derive(Debug, Clone, Copy, PartialEq, Eq, Structural)]
pub enum TestStatus {
    Pass,
    Fail,
    Warning,
    NotTested,
}

/// Hardware self-test results
#[derive(Debug, Clone)]
pub struct SelfTestResult {
    pub overall_status: TestStatus,
    pub pwm_test: TestStatus,
    pub analog_test: TestStatus,
    pub storage_test: TestStatus,
    pub can_test: TestStatus,
    pub display_test: TestStatus,
    pub bluetooth_test: TestStatus,
    pub failures: Vec<String>,
}

/// Platform capabilities
#[derive(Debug, Clone, Copy)]
pub struct PlatformCapabilities {
    pub has_pwm: bool,
    pub analog_channels: u8,
    pub storage_size: usize,
    pub can_controllers: u8,
    pub display_resolution: (u16, u16),
    pub has_bluetooth: bool,
}

/// Platform information
#[derive(Debug, Clone)]
pub struct PlatformInfo {
    pub platform_name: &'static str,
    pub version: &'static str,
    pub capabilities: PlatformCapabilities,
}

} // verus!
