use rumbledome::error::HalError;
use rumbledome::sdcard::{
    allocate_file_sector, check_fat32_boot_sector, classify_file_type, command_packet,
    file_content_from_sector, find_fat32_partition, find_file_sector, is_r1_response,
    make_filepath, sd_init_start, sd_init_step, sector_from_file_data, write_accepted,
    ConfigFileType, SdCardState, SdInitAction, SdInitPhase,
};
use rumbledome::sdcard::directory_structure;
use rumbledome::sdcard::{busy_poll, check_data_response, check_sector_command, r1_poll, token_poll};

#[test]
fn command_packets() {
    assert_eq!(command_packet(0, 0, 0x95), [0x40, 0, 0, 0, 0, 0x95]);
    assert_eq!(command_packet(8, 0x1AA, 0x87), [0x48, 0, 0, 0x01, 0xAA, 0x87]);
    assert_eq!(command_packet(17, 0x1234_5678, 0xFF), [0x51, 0x12, 0x34, 0x56, 0x78, 0xFF]);
}

#[test]
fn response_bytes() {
    assert!(is_r1_response(0x01));
    assert!(!is_r1_response(0xFF));
    assert!(write_accepted(0xE5));
    assert!(!write_accepted(0x0B));
}

#[test]
fn init_sequence_reaches_ready() {
    let (phase, action) = sd_init_start();
    assert_eq!(action, SdInitAction::Send { cmd: 0, arg: 0, crc: 0x95, delay_ms: 0 });
    let (phase, _) = sd_init_step(phase, &[0x01]).unwrap();
    let (phase, action) = sd_init_step(phase, &[0x01]).unwrap();
    assert_eq!(action, SdInitAction::Read { count: 4 });
    let (phase, _) = sd_init_step(phase, &[0, 0, 0x01, 0xAA]).unwrap();
    let (phase, _) = sd_init_step(phase, &[0x01]).unwrap();
    let (phase, action) = sd_init_step(phase, &[0x01]).unwrap();
    assert_eq!(phase, SdInitPhase::AwaitAppCmd { attempts: 1 });
    assert_eq!(action, SdInitAction::Send { cmd: 55, arg: 0, crc: 0xFF, delay_ms: 1 });
    let (phase, _) = sd_init_step(phase, &[0x00]).unwrap();
    let (phase, _) = sd_init_step(phase, &[0x00]).unwrap();
    let (phase, _) = sd_init_step(phase, &[0x00]).unwrap();
    let (phase, action) = sd_init_step(phase, &[0xC0, 0xFF, 0x80, 0x00]).unwrap();
    assert_eq!(phase, SdInitPhase::Ready { sdhc: true });
    assert_eq!(action, SdInitAction::Done { sdhc: true });
}

#[test]
fn init_failures() {
    match sd_init_step(SdInitPhase::AwaitIdle, &[0x05]) {
        Err(HalError::DeviceNotReady(m)) => assert_eq!(m, "SD card did not enter idle state"),
        _ => panic!(),
    }
    match sd_init_step(SdInitPhase::AwaitEcho, &[0, 0, 0x01, 0x55]) {
        Err(HalError::DeviceNotReady(m)) => assert_eq!(m, "SD card rejected voltage range"),
        _ => panic!(),
    }
    match sd_init_step(SdInitPhase::AwaitOpCond { attempts: 1000 }, &[0x01]) {
        Err(HalError::Timeout(m)) => assert_eq!(m, "SD card initialization timeout"),
        _ => panic!(),
    }
}

#[test]
fn mbr_partition_lookup() {
    let mut mbr = [0u8; 512];
    assert!(matches!(find_fat32_partition(&mbr), Err(HalError::DataCorruption(_))));
    mbr[510] = 0x55;
    mbr[511] = 0xAA;
    assert!(matches!(find_fat32_partition(&mbr), Err(HalError::DeviceNotReady(_))));
    mbr[446 + 16 + 4] = 0x0C;
    mbr[446 + 16 + 8] = 0x00;
    mbr[446 + 16 + 9] = 0x08;
    assert_eq!(find_fat32_partition(&mbr).unwrap(), 2048);
}

#[test]
fn fat32_label_check() {
    let mut boot = [0u8; 512];
    assert!(check_fat32_boot_sector(&boot).is_err());
    boot[82..90].copy_from_slice(b"FAT32   ");
    assert!(check_fat32_boot_sector(&boot).is_ok());
}

#[test]
fn files_map_into_the_file_area() {
    let mut h: u32 = 0;
    for b in "/RUMBLEDOME/config/a.json".bytes() {
        h = h.wrapping_mul(31).wrapping_add(b as u32);
    }
    let expected = 1000 + h % 1000;
    assert_eq!(find_file_sector("/RUMBLEDOME/config/a.json").unwrap(), expected);
    assert_eq!(allocate_file_sector("/RUMBLEDOME/config/a.json").unwrap(), expected);
    assert_eq!(find_file_sector("").unwrap(), 1000);
    assert_eq!(find_file_sector("a").unwrap(), 1097);
}

#[test]
fn file_types_by_name() {
    assert_eq!(classify_file_type("user_profiles.json"), ConfigFileType::UserProfiles);
    assert_eq!(classify_file_type("sensor_cal.json"), ConfigFileType::SensorCalibration);
    assert_eq!(classify_file_type("safety_limits.json"), ConfigFileType::SafetyLimits);
    assert_eq!(classify_file_type("system.json"), ConfigFileType::SystemConfig);
    assert_eq!(classify_file_type("old.bak"), ConfigFileType::BackupArchive);
    assert_eq!(classify_file_type("update.bin"), ConfigFileType::FirmwareUpdate);
    assert_eq!(classify_file_type("shared.json"), ConfigFileType::ProfileLibrary);
}

#[test]
fn file_paths_are_bounded() {
    assert_eq!(make_filepath("/RUMBLEDOME/config", "a.json").as_str(), "/RUMBLEDOME/config/a.json");
    let long = "x".repeat(127);
    assert_eq!(make_filepath(&long, "a").as_str(), format!("{}/", long));
    let too_long = "y".repeat(129);
    assert_eq!(make_filepath(&too_long, "a").as_str(), "");
}

#[test]
fn file_round_trip_through_a_sector() {
    let sector = sector_from_file_data(b"{\"a\":1}").unwrap();
    assert_eq!(sector.len(), 512);
    assert_eq!(file_content_from_sector(&sector), b"{\"a\":1}".to_vec());
    let full = [7u8; 512];
    assert_eq!(file_content_from_sector(&full).len(), 512);
    match sector_from_file_data(&[1u8; 513]) {
        Err(HalError::InvalidParameter(m)) => assert_eq!(m, "File too large (max 512 bytes for now)"),
        _ => panic!(),
    }
}

#[test]
fn mount_state() {
    let mut card = SdCardState::new();
    assert!(SdCardState::card_present(Some(false)));
    assert!(!SdCardState::card_present(Some(true)));
    assert!(SdCardState::card_present(None));
    assert!(card.mount_needs_init(None).unwrap());
    assert!(matches!(card.mount_needs_init(Some(true)), Err(HalError::DeviceNotFound(_))));
    assert!(card.require_mounted().is_err());
    assert!(card.list_config_files().is_err());
    card.mark_mounted();
    assert!(card.is_mounted(Some(false)));
    assert!(!card.is_mounted(Some(true)));
    assert!(!card.mount_needs_init(None).unwrap());
    let files = card.list_config_files().unwrap();
    assert_eq!(files.len(), 2);
    assert_eq!(files[0].filename, "sensor_calibrations.json");
    assert_eq!(files[0].file_type, ConfigFileType::SensorCalibration);
    assert_eq!(files[1].size_bytes, 256);
    assert_eq!(files[1].created_timestamp, 1_640_995_200_000);
    assert!(card.unmount());
    assert!(!card.unmount());
}

#[test]
fn spi_waits_are_bounded() {
    assert_eq!(r1_poll(0, 0xFF), None);
    assert_eq!(r1_poll(3, 0x01), Some(0x01));
    assert_eq!(r1_poll(7, 0xFF), Some(0xFF));
    assert_eq!(token_poll(0, 0xFE).unwrap(), true);
    assert_eq!(token_poll(998, 0xFF).unwrap(), false);
    match token_poll(999, 0xFF) {
        Err(HalError::Timeout(m)) => assert_eq!(m, "Sector read data token timeout"),
        _ => panic!(),
    }
    assert_eq!(busy_poll(0, 0xFF).unwrap(), None);
    assert_eq!(busy_poll(9999, 0x00).unwrap(), Some(10000));
    match busy_poll(10000, 0x00) {
        Err(HalError::Timeout(m)) => assert_eq!(m, "Sector write completion timeout"),
        _ => panic!(),
    }
    assert!(check_sector_command(0, false).is_ok());
    match check_sector_command(1, true) {
        Err(HalError::IoError(m)) => assert_eq!(m, "Failed to start sector write"),
        _ => panic!(),
    }
    match check_sector_command(4, false) {
        Err(HalError::IoError(m)) => assert_eq!(m, "Failed to start sector read"),
        _ => panic!(),
    }
    assert!(check_data_response(0xE5).is_ok());
    match check_data_response(0x0D) {
        Err(HalError::IoError(m)) => assert_eq!(m, "Sector write was rejected"),
        _ => panic!(),
    }
}

#[test]
fn card_directories() {
    assert_eq!(directory_structure(), [
        "/RUMBLEDOME",
        "/RUMBLEDOME/profiles",
        "/RUMBLEDOME/config",
        "/RUMBLEDOME/backups",
        "/RUMBLEDOME/logs",
        "/RUMBLEDOME/firmware",
    ]);
}

#[test]
fn card_info_follows_the_mount() {
    let mut card = SdCardState::new();
    match card.get_card_info() {
        Err(HalError::DeviceNotReady(m)) => assert_eq!(m, "SD card not mounted or info not available"),
        _ => panic!(),
    }
    card.mark_mounted();
    let info = card.get_card_info().unwrap();
    assert_eq!(f32::from_bits(info.capacity_gb_bits), 32.0);
    assert_eq!(f32::from_bits(info.free_space_gb_bits), 28.5);
    assert_eq!(info.manufacturer, "SanDisk");
    assert_eq!(info.write_speed_class, 10);
    card.unmount();
    assert!(card.get_card_info().is_err());
}
