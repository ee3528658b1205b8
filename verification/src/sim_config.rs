//! Configuration of the desktop simulator. Real-valued settings are `f32`
//! values kept as their bit patterns; the file that holds them is JSON,
//! read and written outside this crate.

use vstd::prelude::*;

verus! {

/// Simulator configuration
#[derive(Debug, Clone)]
pub struct SimulatorConfig {
    /// Default control loop frequency (Hz)
    pub default_frequency: u16,
    /// Engine simulation parameters
    pub engine: EngineConfig,
    /// UI settings
    pub ui: UiConfig,
    /// Logging configuration
    pub logging: LoggingConfig,
}

/// Engine simulation configuration (`f32` fields as bits)
#[derive(Debug, Clone, Copy)]
pub struct EngineConfig {
    /// Engine displacement in liters
    pub displacement_bits: u32,
    /// Turbo size factor
    pub turbo_size_bits: u32,
    /// Wastegate spring pressure (PSI)
    pub spring_pressure_bits: u32,
    /// Maximum RPM
    pub max_rpm: u16,
    /// Idle RPM
    pub idle_rpm: u16,
    /// Torque curve parameters
    pub torque_curve: TorqueCurveConfig,
}

/// Torque curve configuration (`f32` fields as bits)
#[derive(Debug, Clone, Copy)]
pub struct TorqueCurveConfig {
    /// Peak torque in Nm
    pub peak_torque_bits: u32,
    /// RPM at peak torque
    pub peak_torque_rpm: u16,
    /// Maximum torque (at torque ceiling), Nm
    pub max_torque_bits: u32,
    /// Torque drop-off rate at high RPM
    pub high_rpm_dropoff_bits: u32,
}

/// UI configuration
#[derive(Debug, Clone, Copy)]
pub struct UiConfig {
    /// Update rate in Hz
    pub update_rate: u16,
    /// Chart history length
    pub chart_history_points: usize,
    /// Default gauge ranges
    pub gauge_ranges: GaugeRanges,
}

/// Gauge display ranges (`f32` fields as bits)
#[derive(Debug, Clone, Copy)]
pub struct GaugeRanges {
    /// Maximum boost pressure display range (PSI)
    pub max_boost_psi_bits: u32,
    /// Maximum RPM display range
    pub max_rpm_display: u16,
    /// Maximum duty cycle (always 100%)
    pub max_duty_cycle_bits: u32,
}

/// Logging configuration
#[derive(Debug, Clone)]
pub struct LoggingConfig {
    /// Log level filter
    pub level: String,
    /// Enable file logging
    pub enable_file_log: bool,
    /// Log file path
    pub log_file_path: String,
}

/// The default configuration: a 5.0 L Coyote with a single turbo and a
/// 5 PSI spring, 400 Nm peak torque at 4000 RPM, a 100 Hz control loop,
/// a 30 Hz display, and info-level logging without a log file.
pub open spec fn is_default_sim_config(c: SimulatorConfig) -> bool {
    &&& c.default_frequency == 100
    &&& c.engine.displacement_bits == 0x40a0_0000
    &&& c.engine.turbo_size_bits == 0x3f80_0000
    &&& c.engine.spring_pressure_bits == 0x40a0_0000
    &&& c.engine.max_rpm == 7000
    &&& c.engine.idle_rpm == 800
    &&& c.engine.torque_curve.peak_torque_bits == 0x43c8_0000
    &&& c.engine.torque_curve.peak_torque_rpm == 4000
    &&& c.engine.torque_curve.max_torque_bits == 0x4416_0000
    &&& c.engine.torque_curve.high_rpm_dropoff_bits == 0x3f4c_cccd
    &&& c.ui.update_rate == 30
    &&& c.ui.chart_history_points == 1000
    &&& c.ui.gauge_ranges.max_boost_psi_bits == 0x41a0_0000
    &&& c.ui.gauge_ranges.max_rpm_display == 8000
    &&& c.ui.gauge_ranges.max_duty_cycle_bits == 0x42c8_0000
    &&& c.logging.level@ == "info"@
    &&& !c.logging.enable_file_log
    &&& c.logging.log_file_path@ == "rumbledome-sim.log"@
}

impl Default for SimulatorConfig {
    fn default() -> (c: Self)
        ensures
            is_default_sim_config(c),
    {
        SimulatorConfig {
            default_frequency: 100,
            engine: EngineConfig {
                displacement_bits: 0x40a0_0000,
                turbo_size_bits: 0x3f80_0000,
                spring_pressure_bits: 0x40a0_0000,
                max_rpm: 7000,
                idle_rpm: 800,
                torque_curve: TorqueCurveConfig {
                    peak_torque_bits: 0x43c8_0000,
                    peak_torque_rpm: 4000,
                    max_torque_bits: 0x4416_0000,
                    high_rpm_dropoff_bits: 0x3f4c_cccd,
                },
            },
            ui: UiConfig {
                update_rate: 30,
                chart_history_points: 1000,
                gauge_ranges: GaugeRanges {
                    max_boost_psi_bits: 0x41a0_0000,
                    max_rpm_display: 8000,
                    max_duty_cycle_bits: 0x42c8_0000,
                },
            },
            logging: LoggingConfig {
                level: String::from_str("info"),
                enable_file_log: false,
                log_file_path: String::from_str("rumbledome-sim.log"),
            },
        }
    }
}

} // verus!
