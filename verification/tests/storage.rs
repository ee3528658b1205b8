use rumbledome::error::HalError;
use rumbledome::storage::{StorageHealth, StorageSection, Teensy41Storage};

fn setup_test_storage() -> Teensy41Storage {
    Teensy41Storage::new().unwrap()
}

#[test]
fn test_storage_capacity() {
    let storage = setup_test_storage();
    assert_eq!(storage.capacity(), 4096);
}

#[test]
fn test_basic_read_write() {
    let mut storage = setup_test_storage();
    let test_data = b"Hello, EEPROM!";
    let mut read_buffer = [0u8; 20];
    storage.write(100, test_data).unwrap();
    storage.read(100, &mut read_buffer).unwrap();
    assert_eq!(&read_buffer[..test_data.len()], test_data);
}

#[test]
fn storage_test_sector_erase() {
    let mut storage = setup_test_storage();
    let test_data = b"This will be erased";
    storage.write(0, test_data).unwrap();
    storage.erase_sector(0).unwrap();
    let mut read_buffer = [0u8; 512];
    storage.read(0, &mut read_buffer).unwrap();
    assert!(read_buffer.iter().all(|&b| b == 0xFF));
}

#[test]
fn storage_test_wear_tracking() {
    let mut storage = setup_test_storage();
    let initial_wear = storage.get_wear_stats();
    for i in 0..5 {
        storage.write(i * 10, &[0x42]).unwrap();
    }
    let updated_wear = storage.get_wear_stats();
    assert!(updated_wear[0] > initial_wear[0]);
}

#[test]
fn test_storage_sections() {
    let mut storage = setup_test_storage();
    let config_data = b"CONFIG";
    StorageSection::config().write(&mut storage, config_data).unwrap();
    let learned_data = b"LEARNED";
    StorageSection::learned_data().write(&mut storage, learned_data).unwrap();
    let cal_data = b"CALIBRATION";
    StorageSection::calibration().write(&mut storage, cal_data).unwrap();
    let log_data = b"SAFETY";
    StorageSection::safety_log().write(&mut storage, log_data).unwrap();

    let mut buffer = [0u8; 20];
    StorageSection::config().read(&mut storage, &mut buffer).unwrap();
    assert_eq!(&buffer[..config_data.len()], config_data);
    StorageSection::learned_data().read(&mut storage, &mut buffer).unwrap();
    assert_eq!(&buffer[..learned_data.len()], learned_data);
}

#[test]
fn test_address_bounds() {
    let mut storage = setup_test_storage();
    let mut buffer = [0u8; 10];
    let result = storage.read(5000, &mut buffer);
    assert!(result.is_err());
    let result = storage.write(5000, &[0x42]);
    assert!(result.is_err());
}

#[test]
fn test_health_monitoring() {
    let mut storage = setup_test_storage();
    assert_eq!(storage.get_health_status(), StorageHealth::Excellent);
    assert!(storage.maintenance().is_ok());
}

#[test]
fn test_storage_basic_operations() {
    let mut storage = setup_test_storage();
    assert_eq!(storage.capacity(), 4096);
    let test_data = b"Hello, EEPROM!";
    storage.write(100, test_data).unwrap();
    let mut read_buffer = vec![0u8; test_data.len()];
    storage.read(100, &mut read_buffer).unwrap();
    assert_eq!(&read_buffer, test_data);
}

#[test]
fn storage_tests_test_sector_erase() {
    let mut storage = setup_test_storage();
    let test_data = vec![0x42; 600];
    storage.write(400, &test_data).unwrap();
    storage.erase_sector(0).unwrap();
    let mut first_sector = vec![0u8; 512];
    storage.read(0, &mut first_sector).unwrap();
    assert!(first_sector.iter().all(|&b| b == 0xFF));
    let mut second_sector_part = vec![0u8; 88];
    storage.read(512, &mut second_sector_part).unwrap();
    assert!(second_sector_part.iter().all(|&b| b == 0x42));
}

#[test]
fn test_configuration_sections() {
    let mut storage = setup_test_storage();
    const CONFIG_OFFSET: u32 = 0;
    const LEARNED_DATA_OFFSET: u32 = 512;
    const CALIBRATION_OFFSET: u32 = 2560;
    const SAFETY_LOG_OFFSET: u32 = 3584;
    storage.write(CONFIG_OFFSET, b"CONFIG_DATA").unwrap();
    storage.write(LEARNED_DATA_OFFSET, b"LEARNED_TABLES").unwrap();
    storage.write(CALIBRATION_OFFSET, b"CALIBRATION_PARAMS").unwrap();
    storage.write(SAFETY_LOG_OFFSET, b"SAFETY_EVENTS").unwrap();
    let mut buffer = vec![0u8; 20];
    storage.read(CONFIG_OFFSET, &mut buffer[..11]).unwrap();
    assert_eq!(&buffer[..11], b"CONFIG_DATA");
    storage.read(LEARNED_DATA_OFFSET, &mut buffer[..14]).unwrap();
    assert_eq!(&buffer[..14], b"LEARNED_TABLES");
    storage.read(CALIBRATION_OFFSET, &mut buffer[..18]).unwrap();
    assert_eq!(&buffer[..18], b"CALIBRATION_PARAMS");
    storage.read(SAFETY_LOG_OFFSET, &mut buffer[..13]).unwrap();
    assert_eq!(&buffer[..13], b"SAFETY_EVENTS");
}

#[test]
fn test_storage_maintenance() {
    let mut storage = setup_test_storage();
    for i in 0..10u32 {
        storage.write(i * 100, &[i as u8]).unwrap();
    }
    assert!(storage.maintenance().is_ok());
}

#[test]
fn storage_read_after_write_leaves_other_bytes() {
    let mut storage = setup_test_storage();
    storage.write(10, &[1, 2, 3]).unwrap();
    let mut buf = [9u8; 6];
    storage.read(8, &mut buf).unwrap();
    assert_eq!(buf, [0, 0, 1, 2, 3, 0]);
}

#[test]
fn storage_write_clips_at_end() {
    let mut storage = setup_test_storage();
    storage.write(4094, &[7, 8, 9, 10]).unwrap();
    let mut buf = [0u8; 2];
    storage.read(4094, &mut buf).unwrap();
    assert_eq!(buf, [7, 8]);
}

#[test]
fn storage_out_of_range_errors_name_the_address() {
    let mut storage = setup_test_storage();
    match storage.erase_sector(4096) {
        Err(HalError::InvalidParameter(m)) => assert!(m.contains("4096")),
        _ => panic!("erase past the end must fail"),
    }
}

#[test]
fn storage_erase_counts_a_write_for_its_region() {
    let mut storage = setup_test_storage();
    storage.erase_sector(1500).unwrap();
    let wear = storage.get_wear_stats();
    assert_eq!(wear, [0, 0, 1, 0, 0, 0, 0, 0]);
    let mut buf = [0u8; 512];
    storage.read(1024, &mut buf).unwrap();
    assert!(buf.iter().all(|&b| b == 0xFF));
    let mut before = [1u8; 4];
    storage.read(1020, &mut before).unwrap();
    assert_eq!(before, [0, 0, 0, 0]);
}

#[test]
fn storage_validate_detects_blank_config() {
    let mut storage = setup_test_storage();
    assert_eq!(storage.validate_storage().unwrap(), false);
    let loaded = Teensy41Storage::with_contents([0xFFu8; 4096]).unwrap();
    assert_eq!(loaded.capacity(), 4096);
    storage.write(0, &[1]).unwrap();
    storage.write(600, &[1]).unwrap();
    assert_eq!(storage.validate_storage().unwrap(), true);
}

#[test]
fn storage_section_layout() {
    assert_eq!(StorageSection::config().offset(), 0);
    assert_eq!(StorageSection::config().size(), 512);
    assert_eq!(StorageSection::learned_data().offset(), 512);
    assert_eq!(StorageSection::learned_data().size(), 2048);
    assert_eq!(StorageSection::calibration().offset(), 2560);
    assert_eq!(StorageSection::calibration().size(), 1024);
    assert_eq!(StorageSection::safety_log().offset(), 3584);
    assert_eq!(StorageSection::safety_log().size(), 512);
}

#[test]
fn storage_section_rejects_oversized_data() {
    let mut storage = setup_test_storage();
    let big = vec![1u8; 513];
    assert!(StorageSection::config().write(&mut storage, &big).is_err());
}

#[test]
fn storage_validate_rejects_erased_config() {
    let mut storage = Teensy41Storage::new().unwrap();
    storage.write(512, b"LEARNED").unwrap();
    storage.write(0, &[7u8; 16]).unwrap();
    assert_eq!(storage.validate_storage().unwrap(), true);
    storage.erase_sector(0).unwrap();
    assert_eq!(storage.validate_storage().unwrap(), false);
    let mut image = [0u8; 4096];
    for b in image.iter_mut().take(512) {
        *b = 0xFF;
    }
    image[3000] = 9;
    let mut loaded = Teensy41Storage::with_contents(image).unwrap();
    assert_eq!(loaded.validate_storage().unwrap(), false);
}

#[test]
fn section_write_stays_in_its_section() {
    let mut storage = Teensy41Storage::new().unwrap();
    storage.write(0, &[0xAAu8; 4096]).unwrap();
    let learned = StorageSection::learned_data();
    assert!(learned.write(&mut storage, &[0x11u8; 2049]).is_err());
    learned.write(&mut storage, &[0x11u8; 2048]).unwrap();
    let mut all = [0u8; 4096];
    storage.read(0, &mut all).unwrap();
    assert!(all[..512].iter().all(|&b| b == 0xAA));
    assert!(all[512..2560].iter().all(|&b| b == 0x11));
    assert!(all[2560..].iter().all(|&b| b == 0xAA));
}

#[test]
fn storage_validate_uses_sum_and_erasure() {
    let mut storage = Teensy41Storage::new().unwrap();
    storage.write(0, &[0xFEu8; 256]).unwrap();
    storage.write(512, b"LEARNED").unwrap();
    assert_eq!(storage.validate_storage().unwrap(), true);

    let mut storage = Teensy41Storage::new().unwrap();
    storage.write(0, &[0xFFu8; 257]).unwrap();
    storage.write(512, b"LEARNED").unwrap();
    assert_eq!(storage.validate_storage().unwrap(), false);

    let mut storage = Teensy41Storage::new().unwrap();
    assert_eq!(storage.validate_storage().unwrap(), false);
    StorageSection::config().write(&mut storage, b"CONFIG").unwrap();
    StorageSection::learned_data().write(&mut storage, b"LEARNED").unwrap();
    assert_eq!(storage.validate_storage().unwrap(), true);
}
