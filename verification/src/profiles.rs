//! The portable user profile set kept on the SD card, and the set that a
//! fresh card starts with.
//!
//! Real-valued settings (pressures, voltages, percentages) are `f32` values
//! kept here as their bit patterns (`f32::to_bits`); the file that holds the
//! set is JSON, written and read outside this crate.

use vstd::prelude::*;

verus! {

/// Portable user profile set
#[derive(Debug, Clone)]
pub struct UserProfileSet {
    pub metadata: ProfileSetMetadata,
    pub profiles: Vec<BoostProfile>,
    pub sensor_calibrations: SensorCalibrations,
    pub safety_limits: UserSafetyLimits,
    pub system_preferences: SystemPreferences,
}

/// Profile set metadata
#[derive(Debug, Clone)]
pub struct ProfileSetMetadata {
    pub format_version: String,
    pub created_timestamp: u64,
    pub modified_timestamp: u64,
    pub author: String,
    pub vehicle_info: VehicleInfo,
    pub description: String,
    pub profile_count: usize,
}

/// Vehicle-specific information
#[derive(Debug, Clone)]
pub struct VehicleInfo {
    pub year: Option<u16>,
    pub make: String,
    pub model: String,
    pub engine: String,
    pub turbo_system: String,
    pub notes: String,
}

/// Boost profile definition (`f32` fields as bits)
#[derive(Debug, Clone)]
pub struct BoostProfile {
    pub name: String,
    pub description: String,
    pub max_boost_psi_bits: u32,
    pub torque_target_percentage_bits: u32,
    pub aggressiveness_bits: u32,
    pub safety_margin_bits: u32,
    pub environmental_adaptation: bool,
    pub learning_enabled: bool,
    /// "daily", "track", "winter", etc.
    pub tags: Vec<String>,
}

/// Sensor calibration parameters
#[derive(Debug, Clone)]
pub struct SensorCalibrations {
    pub dome_input_pressure: PressureSensorCalibration,
    pub upper_dome_pressure: PressureSensorCalibration,
    pub manifold_pressure: PressureSensorCalibration,
}

/// Individual pressure sensor calibration (`f32` fields as bits)
#[derive(Debug, Clone)]
pub struct PressureSensorCalibration {
    /// 0 PSI voltage
    pub zero_voltage_bits: u32,
    /// Max PSI voltage
    pub full_scale_voltage_bits: u32,
    /// Max PSI reading
    pub full_scale_pressure_bits: u32,
    pub sensor_model: String,
    pub calibration_date: u64,
    pub notes: String,
}

/// User-defined safety limits (`f32` fields as bits)
#[derive(Debug, Clone)]
pub struct UserSafetyLimits {
    pub absolute_max_boost_bits: u32,
    pub overboost_threshold_bits: u32,
    pub overboost_duration_ms: u32,
    pub max_duty_cycle_bits: u32,
    pub min_manifold_pressure_bits: u32,
    pub max_slew_rate_bits: u32,
}

/// System preferences and UI settings
#[derive(Debug, Clone)]
pub struct SystemPreferences {
    pub display_brightness: u8,
    pub gauge_style: String,
    pub units: UnitPreferences,
    pub can_bus_settings: CanBusPreferences,
    pub logging_level: String,
}

/// Unit preferences
#[derive(Debug, Clone)]
pub struct UnitPreferences {
    /// "psi", "bar", "kpa"
    pub pressure_units: String,
    /// "celsius", "fahrenheit"
    pub temperature_units: String,
    /// decimal places
    pub boost_display_precision: u8,
}

/// CAN bus preferences
#[derive(Debug, Clone)]
pub struct CanBusPreferences {
    pub enable_torque_cooperation: bool,
    pub ecu_message_timeout_ms: u32,
    pub custom_can_ids: Vec<u32>,
    pub message_filters: Vec<String>,
}

/// The views of a list of strings.
pub open spec fn string_views(v: Seq<String>) -> Seq<Seq<char>> {
    v.map_values(|s: String| s@)
}

/// `p` has the given name, description, settings and tags.
pub open spec fn boost_profile_is(
    p: BoostProfile,
    name: Seq<char>,
    description: Seq<char>,
    max_boost_psi_bits: u32,
    torque_target_percentage_bits: u32,
    aggressiveness_bits: u32,
    safety_margin_bits: u32,
    environmental_adaptation: bool,
    learning_enabled: bool,
    tags: Seq<Seq<char>>,
) -> bool {
    &&& p.name@ == name
    &&& p.description@ == description
    &&& p.max_boost_psi_bits == max_boost_psi_bits
    &&& p.torque_target_percentage_bits == torque_target_percentage_bits
    &&& p.aggressiveness_bits == aggressiveness_bits
    &&& p.safety_margin_bits == safety_margin_bits
    &&& p.environmental_adaptation == environmental_adaptation
    &&& p.learning_enabled == learning_enabled
    &&& string_views(p.tags@) == tags
}

/// `c` is the stock 0-30 PSI sensor: 0.5 V at 0 PSI, 4.5 V at 30 PSI.
pub open spec fn stock_sensor_is(c: PressureSensorCalibration, model: Seq<char>, notes: Seq<char>) -> bool {
    &&& c.zero_voltage_bits == 0x3f00_0000
    &&& c.full_scale_voltage_bits == 0x4090_0000
    &&& c.full_scale_pressure_bits == 0x41f0_0000
    &&& c.sensor_model@ == model
    &&& c.calibration_date == 0
    &&& c.notes@ == notes
}

/// What the metadata of the default profile set holds.
pub open spec fn is_default_metadata(m: ProfileSetMetadata) -> bool {
    &&& m.format_version@ == "1.0.0"@
    &&& m.created_timestamp == 0
    &&& m.modified_timestamp == 0
    &&& m.author@ == "RumbleDome"@
    &&& m.vehicle_info.year == Some(2018u16)
    &&& m.vehicle_info.make@ == "Ford"@
    &&& m.vehicle_info.model@ == "Mustang GT"@
    &&& m.vehicle_info.engine@ == "5.0L Coyote V8"@
    &&& m.vehicle_info.turbo_system@ == "Single Turbo"@
    &&& m.vehicle_info.notes@ == "Gen 2 Coyote with aftermarket turbo"@
    &&& m.description@ == "Default RumbleDome profile set"@
    &&& m.profile_count == 4
}

/// What the system preferences of the default profile set hold.
pub open spec fn is_default_preferences(p: SystemPreferences) -> bool {
    &&& p.display_brightness == 80
    &&& p.gauge_style@ == "Modern"@
    &&& p.units.pressure_units@ == "psi"@
    &&& p.units.temperature_units@ == "fahrenheit"@
    &&& p.units.boost_display_precision == 1
    &&& p.can_bus_settings.enable_torque_cooperation
    &&& p.can_bus_settings.ecu_message_timeout_ms == 1000
    &&& p.can_bus_settings.custom_can_ids@.len() == 0
    &&& p.can_bus_settings.message_filters@.len() == 0
    &&& p.logging_level@ == "info"@
}

/// The four boost profiles of the default set: daily, sport, track, valet.
pub open spec fn is_default_profile_list(v: Seq<BoostProfile>) -> bool {
    &&& v.len() == 4
    &&& boost_profile_is(v[0], "Daily Driver"@, "Conservative tune for daily driving"@,
        0x4100_0000, 0x42aa_0000, 0x3e99_999a, 0x4000_0000, true, true, seq!["daily"@, "conservative"@])
    &&& boost_profile_is(v[1], "Sport Mode"@, "Moderate performance tune"@,
        0x4140_0000, 0x42be_0000, 0x3f19_999a, 0x3fc0_0000, true, true, seq!["sport"@, "performance"@])
    &&& boost_profile_is(v[2], "Track Day"@, "Aggressive track-focused tune"@,
        0x4170_0000, 0x42c8_0000, 0x3f66_6666, 0x3f80_0000, false, true, seq!["track"@, "aggressive"@])
    &&& boost_profile_is(v[3], "Valet Mode"@, "Ultra-safe mode for parking attendants"@,
        0x4040_0000, 0x4248_0000, 0x3dcc_cccd, 0x40a0_0000, false, false, seq!["valet"@, "safe"@])
}

/// The sensor calibrations of the default set.
pub open spec fn is_default_calibrations(c: SensorCalibrations) -> bool {
    &&& stock_sensor_is(c.dome_input_pressure, "Generic 0-30 PSI"@, "Standard automotive pressure sensor"@)
    &&& stock_sensor_is(c.upper_dome_pressure, "Generic 0-30 PSI"@, "Standard automotive pressure sensor"@)
    &&& stock_sensor_is(c.manifold_pressure, "Generic MAP Sensor"@, "Manifold absolute pressure sensor"@)
}

/// The safety limits of the default set: 18 PSI absolute, 16 PSI overboost
/// for 2 s, 85 % duty, -15 PSI manifold floor, 5 %/s slew.
pub open spec fn is_default_safety_limits(l: UserSafetyLimits) -> bool {
    &&& l.absolute_max_boost_bits == 0x4190_0000
    &&& l.overboost_threshold_bits == 0x4180_0000
    &&& l.overboost_duration_ms == 2000
    &&& l.max_duty_cycle_bits == 0x42aa_0000
    &&& l.min_manifold_pressure_bits == 0xc170_0000
    &&& l.max_slew_rate_bits == 0x40a0_0000
}

fn tag_list(first: &str, second: &str) -> (v: Vec<String>)
    ensures
        string_views(v@) == seq![first@, second@],
{
    let mut v: Vec<String> = Vec::new();
    v.push(String::from_str(first));
    v.push(String::from_str(second));
    proof {
        assert(string_views(v@) =~= seq![first@, second@]);
    }
    v
}

fn boost_profile(
    name: &str,
    description: &str,
    max_boost_psi_bits: u32,
    torque_target_percentage_bits: u32,
    aggressiveness_bits: u32,
    safety_margin_bits: u32,
    environmental_adaptation: bool,
    learning_enabled: bool,
    tags: Vec<String>,
) -> (p: BoostProfile)
    ensures
        boost_profile_is(p, name@, description@, max_boost_psi_bits, torque_target_percentage_bits,
            aggressiveness_bits, safety_margin_bits, environmental_adaptation, learning_enabled,
            string_views(tags@)),
{
    BoostProfile {
        name: String::from_str(name),
        description: String::from_str(description),
        max_boost_psi_bits,
        torque_target_percentage_bits,
        aggressiveness_bits,
        safety_margin_bits,
        environmental_adaptation,
        learning_enabled,
        tags,
    }
}

fn stock_sensor(model: &str, notes: &str) -> (c: PressureSensorCalibration)
    ensures
        stock_sensor_is(c, model@, notes@),
{
    PressureSensorCalibration {
        zero_voltage_bits: 0x3f00_0000,
        full_scale_voltage_bits: 0x4090_0000,
        full_scale_pressure_bits: 0x41f0_0000,
        sensor_model: String::from_str(model),
        calibration_date: 0,
        notes: String::from_str(notes),
    }
}

/// The metadata of the profile set that a fresh card starts with.
fn default_profile_metadata() -> (m: ProfileSetMetadata)
    ensures
        is_default_metadata(m),
{
    ProfileSetMetadata {
        format_version: String::from_str("1.0.0"),
        created_timestamp: 0,
        modified_timestamp: 0,
        author: String::from_str("RumbleDome"),
        vehicle_info: VehicleInfo {
            year: Some(2018),
            make: String::from_str("Ford"),
            model: String::from_str("Mustang GT"),
            engine: String::from_str("5.0L Coyote V8"),
            turbo_system: String::from_str("Single Turbo"),
            notes: String::from_str("Gen 2 Coyote with aftermarket turbo"),
        },
        description: String::from_str("Default RumbleDome profile set"),
        profile_count: 4,
    }
}

/// The system preferences of the profile set that a fresh card starts with.
fn default_system_preferences() -> (p: SystemPreferences)
    ensures
        is_default_preferences(p),
{
    SystemPreferences {
        display_brightness: 80,
        gauge_style: String::from_str("Modern"),
        units: UnitPreferences {
            pressure_units: String::from_str("psi"),
            temperature_units: String::from_str("fahrenheit"),
            boost_display_precision: 1,
        },
        can_bus_settings: CanBusPreferences {
            enable_torque_cooperation: true,
            ecu_message_timeout_ms: 1000,
            custom_can_ids: Vec::new(),
            message_filters: Vec::new(),
        },
        logging_level: String::from_str("info"),
    }
}

/// The profile set that a fresh card starts with: four boost profiles
/// (daily, sport, track, valet), the stock sensors, the default safety
/// limits and preferences.
pub fn create_default_profiles() -> (set: UserProfileSet)
    ensures
        is_default_metadata(set.metadata),
        is_default_profile_list(set.profiles@),
        set.metadata.profile_count == set.profiles@.len(),
        is_default_calibrations(set.sensor_calibrations),
        is_default_safety_limits(set.safety_limits),
        is_default_preferences(set.system_preferences),
{
    let mut profiles: Vec<BoostProfile> = Vec::new();
    profiles.push(boost_profile("Daily Driver", "Conservative tune for daily driving",
        0x4100_0000, 0x42aa_0000, 0x3e99_999a, 0x4000_0000, true, true,
        tag_list("daily", "conservative")));
    profiles.push(boost_profile("Sport Mode", "Moderate performance tune",
        0x4140_0000, 0x42be_0000, 0x3f19_999a, 0x3fc0_0000, true, true,
        tag_list("sport", "performance")));
    profiles.push(boost_profile("Track Day", "Aggressive track-focused tune",
        0x4170_0000, 0x42c8_0000, 0x3f66_6666, 0x3f80_0000, false, true,
        tag_list("track", "aggressive")));
    profiles.push(boost_profile("Valet Mode", "Ultra-safe mode for parking attendants",
        0x4040_0000, 0x4248_0000, 0x3dcc_cccd, 0x40a0_0000, false, false,
        tag_list("valet", "safe")));
    let sensor_calibrations = SensorCalibrations {
        dome_input_pressure: stock_sensor("Generic 0-30 PSI", "Standard automotive pressure sensor"),
        upper_dome_pressure: stock_sensor("Generic 0-30 PSI", "Standard automotive pressure sensor"),
        manifold_pressure: stock_sensor("Generic MAP Sensor", "Manifold absolute pressure sensor"),
    };
    let safety_limits = UserSafetyLimits {
        absolute_max_boost_bits: 0x4190_0000,
        overboost_threshold_bits: 0x4180_0000,
        overboost_duration_ms: 2000,
        max_duty_cycle_bits: 0x42aa_0000,
        min_manifold_pressure_bits: 0xc170_0000,
        max_slew_rate_bits: 0x40a0_0000,
    };
    UserProfileSet {
        metadata: default_profile_metadata(),
        profiles,
        sensor_calibrations,
        safety_limits,
        system_preferences: default_system_preferences(),
    }
}

} // verus!
