use rumbledome::backup::{
    backup_checksum, create_full_backup, get_system_info, restore_from_backup, verify_backup,
    BackupCommands, RestoreOptions, RestoreStatus,
};
use rumbledome::error::HalError;
use rumbledome::storage::Teensy41Storage;

fn storage_with(pattern: u8) -> Teensy41Storage {
    let mut contents = [0u8; 4096];
    for (i, b) in contents.iter_mut().enumerate() {
        *b = pattern.wrapping_add(i as u8);
    }
    Teensy41Storage::with_contents(contents).unwrap()
}

fn options() -> RestoreOptions {
    RestoreOptions { force: false, yes: true, skip_learned_data: false, skip_safety_log: false, create_backup: false }
}

#[test]
fn checksum_is_crc32_of_the_sections() {
    let a = vec![1u8, 2];
    let b = vec![3u8];
    let c = vec![];
    let d = vec![4u8, 5];
    assert_eq!(backup_checksum(&a, &b, &c, &d), crc32fast::hash(&[1, 2, 3, 4, 5]));
    assert_ne!(backup_checksum(&a, &b, &c, &d), 0);
}

#[test]
fn fresh_backup_holds_the_sections_and_verifies() {
    let mut s = storage_with(7);
    let b = create_full_backup(&mut s, 123_456, 0xDEADBEEF).unwrap();
    assert_eq!(b.user_config.len(), 512);
    assert_eq!(b.learned_data.len(), 2048);
    assert_eq!(b.calibration_state.len(), 1024);
    assert_eq!(b.safety_log.len(), 512);
    assert_eq!(b.learned_data[0], 7u8.wrapping_add(0));
    assert_eq!(b.safety_log[0], 7u8.wrapping_add((3584 % 256) as u8));
    assert_eq!(b.metadata.source_system_id, "teensy41-deadbeef");
    assert_eq!(b.metadata.description, "Full system backup created at 123456");
    assert_eq!(b.metadata.created_timestamp, 123_456);
    assert_eq!(b.metadata.total_size, 4096);
    assert_eq!(f32::from_bits(b.system_stats.average_control_loop_time_us_bits), 10000.0);
    let v = verify_backup(&b);
    assert!(v.is_valid && v.checksum_valid && v.version_compatible && v.hardware_compatible);
    assert!(v.issues.is_empty());
}

#[test]
fn corrupted_backup_is_refused() {
    let mut s = storage_with(1);
    let mut b = create_full_backup(&mut s, 0, 1).unwrap();
    b.user_config[3] ^= 0xFF;
    let v = verify_backup(&b);
    assert!(!v.is_valid);
    assert_eq!(v.issues, vec!["Backup checksum verification failed - data may be corrupted".to_string()]);
    let mut target = storage_with(9);
    match restore_from_backup(&mut target, &b) {
        Err(HalError::InvalidParameter(m)) => assert_eq!(m, "Backup verification failed"),
        _ => panic!("restore of a corrupted backup must fail"),
    }
    let mut buf = [0u8; 4];
    target.read(0, &mut buf).unwrap();
    assert_eq!(buf, [9, 10, 11, 12]);
}

#[test]
fn backup_then_restore_copies_the_whole_eeprom() {
    let mut src = storage_with(40);
    let b = create_full_backup(&mut src, 5, 2).unwrap();
    let mut dst = storage_with(200);
    let r = restore_from_backup(&mut dst, &b).unwrap();
    assert!(r.success);
    assert_eq!(r.section_results.learned_data, RestoreStatus::Success);
    assert!(r.warnings.is_empty());
    assert_eq!(r.required_actions.len(), 3);
    let mut a = [0u8; 4096];
    let mut c = [0u8; 4096];
    src.read(0, &mut a).unwrap();
    dst.read(0, &mut c).unwrap();
    assert_eq!(a.to_vec(), c.to_vec());
}

#[test]
fn other_firmware_skips_learned_data() {
    let mut src = storage_with(40);
    let mut b = create_full_backup(&mut src, 5, 2).unwrap();
    b.metadata.firmware_version = "0.2.0".to_string();
    let v = verify_backup(&b);
    assert!(v.is_valid);
    assert!(!v.version_compatible);
    assert_eq!(v.issues, vec!["Firmware version mismatch: backup 0.2.0 vs current 0.1.0".to_string()]);
    let mut dst = storage_with(200);
    let r = restore_from_backup(&mut dst, &b).unwrap();
    assert_eq!(r.section_results.learned_data, RestoreStatus::Skipped);
    assert_eq!(r.warnings, vec!["Learned data skipped due to compatibility issues".to_string()]);
    let mut learned = [0u8; 2];
    dst.read(512, &mut learned).unwrap();
    assert_eq!(learned, [200u8.wrapping_add(0), 200u8.wrapping_add(1)]);
    let mut config = [0u8; 2];
    dst.read(0, &mut config).unwrap();
    assert_eq!(config, [40, 41]);
}

#[test]
fn other_hardware_is_refused() {
    let mut src = storage_with(1);
    let mut b = create_full_backup(&mut src, 5, 2).unwrap();
    b.metadata.hardware_platform = "stm32f4".to_string();
    let v = verify_backup(&b);
    assert!(!v.is_valid);
    assert!(!v.compatibility_report.config_compatible);
    assert_eq!(v.issues, vec!["Hardware platform mismatch: backup stm32f4 vs teensy41".to_string()]);
}

#[test]
fn system_info_of_a_unit() {
    let info = get_system_info(0x0000_00AB);
    assert_eq!(info.system_serial, "teensy41-000000ab");
    assert_eq!(info.flash_size, 8 * 1024 * 1024);
    assert_eq!(info.features.len(), 5);
    assert_eq!(info.features[4], "st7735_display");
}

#[test]
fn compatibility_warnings() {
    let b = BackupCommands::create_mock_backup(None, 0);
    let target = BackupCommands::mock_target_info();
    assert!(BackupCommands::check_compatibility(&b, &target).is_empty());
    let mut other = target.clone();
    other.hardware_platform = "stm32".to_string();
    other.firmware_version = "0.3.0".to_string();
    let w = BackupCommands::check_compatibility(&b, &other);
    assert_eq!(w, vec![
        "Hardware platform mismatch: teensy41 \u{2192} stm32".to_string(),
        "Firmware version mismatch: 0.1.0 \u{2192} 0.3.0".to_string(),
    ]);
}

#[test]
fn mock_backup_contents() {
    let b = BackupCommands::create_mock_backup(Some("before swap"), 1_700_000_000_000);
    assert_eq!(b.metadata.description, "before swap");
    assert_eq!(b.metadata.created_timestamp, 1_700_000_000_000);
    assert!(b.user_config.iter().all(|&x| x == 0x42));
    assert_eq!(b.learned_data.len(), 2048);
    assert_eq!(b.wear_tracking.previous_write_counts, [100, 200, 50, 75, 25, 10, 5, 2]);
    assert_eq!(f32::from_bits(b.wear_tracking.total_data_written_kb_bits), 23.5);
    assert_eq!(f32::from_bits(b.system_stats.cumulative_runtime_hours_bits), 127.5);
    assert_eq!(b.checksum, 0xDEADBEEF);
    let d = BackupCommands::create_mock_backup(None, 0);
    assert_eq!(d.metadata.description, "Manual backup");
    assert!(BackupCommands::verify_backup_integrity(&d));
}

#[test]
fn simulated_restore_outcome() {
    let b = BackupCommands::create_mock_backup(None, 0);
    let r = BackupCommands::perform_restore(&b, options());
    assert!(r.success);
    assert_eq!(r.section_results.safety_log, RestoreStatus::Success);
    assert_eq!(r.warnings, vec!["Firmware version mismatch detected".to_string()]);
    assert_eq!(r.required_actions[0], "Restart EBC to activate restored configuration");
    assert_eq!(r.migration_notes, vec!["All data restored successfully".to_string()]);
}

#[test]
fn target_info() {
    let t = BackupCommands::mock_target_info();
    assert_eq!(t.system_serial, "teensy41-87654321");
    assert_eq!(t.features, vec!["flexcan".to_string(), "flexpwm".to_string()]);
}

/// The reflected CRC-32 register, bit by bit, as the library's contract
/// defines the checksum.
fn reference_crc32(data: &[u8]) -> u32 {
    let mut c: u32 = 0xFFFF_FFFF;
    for &b in data {
        c ^= b as u32;
        for _ in 0..8 {
            c = if c & 1 == 1 { (c >> 1) ^ 0xEDB8_8320 } else { c >> 1 };
        }
    }
    c ^ 0xFFFF_FFFF
}

#[test]
fn checksum_is_standard_crc32() {
    let digits = b"123456789".to_vec();
    let empty: Vec<u8> = Vec::new();
    assert_eq!(backup_checksum(&digits, &empty, &empty, &empty), 0xCBF4_3926);
    assert_eq!(reference_crc32(&digits), 0xCBF4_3926);
    let a = vec![1u8, 2, 3];
    let b = vec![0xFFu8; 40];
    let c = vec![0x42u8; 7];
    let d = vec![9u8];
    let mut all = a.clone();
    all.extend_from_slice(&b);
    all.extend_from_slice(&c);
    all.extend_from_slice(&d);
    assert_eq!(backup_checksum(&a, &b, &c, &d), reference_crc32(&all));
}
