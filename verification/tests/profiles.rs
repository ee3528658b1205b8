use rumbledome::profiles::create_default_profiles;

#[test]
fn default_profile_set() {
    let set = create_default_profiles();
    assert_eq!(set.metadata.author, "RumbleDome");
    assert_eq!(set.metadata.vehicle_info.year, Some(2018));
    assert_eq!(set.metadata.vehicle_info.model, "Mustang GT");
    assert_eq!(set.metadata.profile_count, 4);
    assert_eq!(set.profiles.len(), 4);
    let names: Vec<&str> = set.profiles.iter().map(|p| p.name.as_str()).collect();
    assert_eq!(names, vec!["Daily Driver", "Sport Mode", "Track Day", "Valet Mode"]);
    assert_eq!(f32::from_bits(set.profiles[0].max_boost_psi_bits), 8.0);
    assert_eq!(f32::from_bits(set.profiles[1].aggressiveness_bits), 0.6);
    assert_eq!(f32::from_bits(set.profiles[2].torque_target_percentage_bits), 100.0);
    assert_eq!(f32::from_bits(set.profiles[3].safety_margin_bits), 5.0);
    assert!(!set.profiles[3].learning_enabled);
    assert_eq!(set.profiles[2].tags, vec!["track".to_string(), "aggressive".to_string()]);
}

#[test]
fn default_sensors_limits_and_preferences() {
    let set = create_default_profiles();
    let m = &set.sensor_calibrations.manifold_pressure;
    assert_eq!(f32::from_bits(m.zero_voltage_bits), 0.5);
    assert_eq!(f32::from_bits(m.full_scale_voltage_bits), 4.5);
    assert_eq!(f32::from_bits(m.full_scale_pressure_bits), 30.0);
    assert_eq!(m.sensor_model, "Generic MAP Sensor");
    assert_eq!(f32::from_bits(set.safety_limits.absolute_max_boost_bits), 18.0);
    assert_eq!(f32::from_bits(set.safety_limits.min_manifold_pressure_bits), -15.0);
    assert_eq!(set.safety_limits.overboost_duration_ms, 2000);
    assert_eq!(set.system_preferences.display_brightness, 80);
    assert_eq!(set.system_preferences.units.pressure_units, "psi");
    assert_eq!(set.system_preferences.can_bus_settings.ecu_message_timeout_ms, 1000);
    assert!(set.system_preferences.can_bus_settings.custom_can_ids.is_empty());
}

#[test]
fn simulator_defaults() {
    let c = rumbledome::sim_config::SimulatorConfig::default();
    assert_eq!(c.default_frequency, 100);
    assert_eq!(f32::from_bits(c.engine.displacement_bits), 5.0);
    assert_eq!(f32::from_bits(c.engine.torque_curve.high_rpm_dropoff_bits), 0.8);
    assert_eq!(f32::from_bits(c.engine.torque_curve.max_torque_bits), 600.0);
    assert_eq!(c.engine.idle_rpm, 800);
    assert_eq!(c.ui.chart_history_points, 1000);
    assert_eq!(f32::from_bits(c.ui.gauge_ranges.max_boost_psi_bits), 20.0);
    assert_eq!(c.logging.level, "info");
    assert!(!c.logging.enable_file_log);
    assert_eq!(c.logging.log_file_path, "rumbledome-sim.log");
}
