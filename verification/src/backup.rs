//! Full-system backup and restore for microcontroller replacement: backup
//! records, integrity and compatibility verification, and restoring the
//! storage sections from a backup.
//!
//! The values that the firmware keeps as `f32` are carried as the
//! IEEE-754 bit patterns of those values.

use vstd::prelude::*;
use vstd::string::*;
use crate::error::HalError;
use crate::storage::{
    Teensy41Storage, splice, EEPROM_SIZE, CONFIG_OFFSET, CONFIG_SIZE, LEARNED_DATA_OFFSET,
    LEARNED_DATA_SIZE, CALIBRATION_OFFSET, CALIBRATION_SIZE, SAFETY_LOG_OFFSET, SAFETY_LOG_SIZE,
    REGION_COUNT, SECTOR_SIZE,
};
use crate::text::{decimal, hex_digits, append_decimal, append_hex, str_equal};

verus! {

/// Firmware version recorded in backups and checked on restore
pub const FIRMWARE_VERSION: &'static str = "0.1.0";

/// Hardware platform name of this controller
pub const HARDWARE_PLATFORM: &'static str = "teensy41";

/// Backup format version
pub const BACKUP_VERSION: &'static str = "1.0.0";

/// Bit pattern of 10000.0 as `f32`: the control loop period of the 100 Hz
/// loop in microseconds.
pub const CONTROL_LOOP_PERIOD_US_BITS: u32 = 0x461C_4000;

/// One bit of the reflected CRC-32 shift register, polynomial 0xEDB88320.
pub open spec fn crc32_bit_step(c: u32) -> u32 {
    if c & 1u32 == 1u32 { (c >> 1u32) ^ 0xEDB8_8320u32 } else { c >> 1u32 }
}

/// `n` bit steps of the CRC-32 shift register.
pub open spec fn crc32_bit_steps(c: u32, n: nat) -> u32
    decreases n,
{
    if n == 0 { c } else { crc32_bit_steps(crc32_bit_step(c), (n - 1) as nat) }
}

/// The CRC-32 shift register after `data`, starting from all ones.
pub open spec fn crc32_register(data: Seq<u8>) -> u32
    decreases data.len(),
{
    if data.len() == 0 {
        0xFFFF_FFFFu32
    } else {
        crc32_bit_steps(crc32_register(data.drop_last()) ^ (data.last() as u32), 8)
    }
}

/// The CRC-32 (IEEE 802.3) checksum of a byte sequence: the shift register
/// after the data, inverted.
pub open spec fn crc32_ieee(data: Seq<u8>) -> u32 {
    crc32_register(data) ^ 0xFFFF_FFFFu32
}

/// `crc32fast::hash`: the CRC-32 (IEEE) checksum of `data`.
#[verifier::external_body]
fn crc32_hash(data: &[u8]) -> (r: u32)
    ensures
        r == crc32_ieee(data@),
{
    crc32fast::hash(data)
}

/// Backup metadata for version compatibility and validation
#[derive(Debug, Clone)]
pub struct BackupMetadata {
    /// Backup format version
    pub backup_version: String,
    /// Firmware version that created this backup
    pub firmware_version: String,
    /// Hardware platform (e.g., "teensy41", "stm32f4")
    pub hardware_platform: String,
    /// Backup creation timestamp
    pub created_timestamp: u64,
    /// Source system serial number/ID
    pub source_system_id: String,
    /// Human-readable backup description
    pub description: String,
    /// Backup size in bytes
    pub total_size: usize,
}

/// Wear tracking data for new microcontroller
#[derive(Debug, Clone)]
pub struct WearTrackingBackup {
    pub previous_write_counts: [u32; 8],
    pub total_lifetime_writes: u32,
    /// Bit pattern of the total data written (KB)
    pub total_data_written_kb_bits: u32,
    /// Bit pattern of the estimated lifespan of the previous unit (years)
    pub estimated_previous_lifespan_years_bits: u32,
    pub replacement_reason: String,
}

/// System statistics backup for continuity
#[derive(Debug, Clone)]
pub struct SystemStatsBackup {
    /// Bit pattern of the total runtime across all units (hours)
    pub cumulative_runtime_hours_bits: u32,
    pub total_learning_sessions: u32,
    pub successful_calibrations: u32,
    pub safety_event_count: u32,
    /// Bit pattern of the average control loop time (microseconds)
    pub average_control_loop_time_us_bits: u32,
}

/// Complete system backup data structure
#[derive(Debug, Clone)]
pub struct SystemBackupData {
    pub metadata: BackupMetadata,
    pub user_config: Vec<u8>,
    pub learned_data: Vec<u8>,
    pub calibration_state: Vec<u8>,
    pub safety_log: Vec<u8>,
    pub wear_tracking: WearTrackingBackup,
    pub system_stats: SystemStatsBackup,
    /// Backup integrity checksum
    pub checksum: u32,
}

/// Status of individual section restore
#[derive(Debug, Clone, Copy, PartialEq, Eq, Structural)]
pub enum RestoreStatus {
    Success,
    SuccessWithWarnings,
    PartialRestore,
    Failed,
    Skipped,
}

/// Restoration results per data section
#[derive(Debug, Clone, Copy)]
pub struct RestoreSectionResults {
    pub user_config: RestoreStatus,
    pub learned_data: RestoreStatus,
    pub calibration_state: RestoreStatus,
    pub safety_log: RestoreStatus,
    pub system_stats: RestoreStatus,
}

/// Result of backup restoration
#[derive(Debug, Clone)]
pub struct RestoreResult {
    pub success: bool,
    pub section_results: RestoreSectionResults,
    pub warnings: Vec<String>,
    pub required_actions: Vec<String>,
    pub migration_notes: Vec<String>,
}

/// Version difference analysis
#[derive(Debug, Clone)]
pub struct VersionDelta {
    pub major_version_change: bool,
    pub minor_version_change: bool,
    pub patch_version_change: bool,
    pub breaking_changes: Vec<String>,
}

/// Hardware/software compatibility analysis
#[derive(Debug, Clone)]
pub struct CompatibilityReport {
    pub learned_data_compatible: bool,
    pub config_compatible: bool,
    pub version_delta: VersionDelta,
    pub required_migrations: Vec<String>,
}

/// Backup verification results
#[derive(Debug, Clone)]
pub struct BackupVerification {
    pub is_valid: bool,
    pub checksum_valid: bool,
    pub version_compatible: bool,
    pub hardware_compatible: bool,
    pub compatibility_report: CompatibilityReport,
    pub issues: Vec<String>,
}

/// System identification information
#[derive(Debug, Clone)]
pub struct SystemInfo {
    pub hardware_platform: String,
    pub firmware_version: String,
    pub system_serial: String,
    pub flash_size: usize,
    pub ram_size: usize,
    pub features: Vec<String>,
}

/// The texts held by a list of strings.
pub open spec fn texts(v: Seq<String>) -> Seq<Seq<char>> {
    v.map_values(|s: String| s@)
}

/// The bytes the backup checksum covers: the four sections in order.
pub open spec fn backup_payload(b: SystemBackupData) -> Seq<u8> {
    b.user_config@ + b.learned_data@ + b.calibration_state@ + b.safety_log@
}

/// Whether the checksum of a backup matches its sections.
pub open spec fn spec_checksum_valid(b: SystemBackupData) -> bool {
    crc32_ieee(backup_payload(b)) == b.checksum
}

/// Whether a backup was made by this firmware version.
pub open spec fn spec_version_compatible(b: SystemBackupData) -> bool {
    b.metadata.firmware_version@ == FIRMWARE_VERSION@
}

/// Whether a backup was made on this hardware platform.
pub open spec fn spec_hardware_compatible(b: SystemBackupData) -> bool {
    b.metadata.hardware_platform@ == HARDWARE_PLATFORM@
}

/// The issues a verification reports, in order.
pub open spec fn spec_issues(b: SystemBackupData) -> Seq<Seq<char>> {
    (if spec_checksum_valid(b) { Seq::empty() } else {
        seq!["Backup checksum verification failed - data may be corrupted"@]
    }) + (if spec_version_compatible(b) { Seq::empty() } else {
        seq!["Firmware version mismatch: backup "@ + b.metadata.firmware_version@ + " vs current "@ + FIRMWARE_VERSION@]
    }) + (if spec_hardware_compatible(b) { Seq::empty() } else {
        seq!["Hardware platform mismatch: backup "@ + b.metadata.hardware_platform@ + " vs teensy41"@]
    })
}

/// Whether a verification result is the one owed for backup `b`.
pub open spec fn verification_of(v: BackupVerification, b: SystemBackupData) -> bool {
    &&& v.checksum_valid == spec_checksum_valid(b)
    &&& v.version_compatible == spec_version_compatible(b)
    &&& v.hardware_compatible == spec_hardware_compatible(b)
    &&& v.is_valid == (spec_checksum_valid(b) && spec_hardware_compatible(b))
    &&& v.compatibility_report.learned_data_compatible == (spec_version_compatible(b) && spec_hardware_compatible(b))
    &&& v.compatibility_report.config_compatible == spec_hardware_compatible(b)
    &&& !v.compatibility_report.version_delta.major_version_change
    &&& v.compatibility_report.version_delta.minor_version_change == !spec_version_compatible(b)
    &&& v.compatibility_report.version_delta.patch_version_change == !spec_version_compatible(b)
    &&& v.compatibility_report.version_delta.breaking_changes@.len() == 0
    &&& v.compatibility_report.required_migrations@.len() == 0
    &&& texts(v.issues@) == spec_issues(b)
}

fn concat_sections(a: &Vec<u8>, b: &Vec<u8>, c: &Vec<u8>, d: &Vec<u8>) -> (r: Vec<u8>)
    ensures
        r@ == a@ + b@ + c@ + d@,
{
    let mut r: Vec<u8> = Vec::new();
    let parts = [a, b, c, d];
    let mut k: usize = 0;
    while k < 4
        invariant
            k <= 4,
            parts@ == seq![a, b, c, d],
            r@ == (if k == 0 { Seq::empty() } else if k == 1 { a@ } else if k == 2 { a@ + b@ }
                else if k == 3 { a@ + b@ + c@ } else { a@ + b@ + c@ + d@ }),
        decreases 4 - k,
    {
        let part = parts[k];
        let ghost before = r@;
        let mut i: usize = 0;
        while i < part.len()
            invariant
                i <= part@.len(),
                r@ == before + part@.subrange(0, i as int),
            decreases part@.len() - i,
        {
            r.push(part[i]);
            assert(r@ =~= before + part@.subrange(0, i as int + 1));
            i += 1;
        }
        assert(part@.subrange(0, part@.len() as int) =~= part@);
        k += 1;
    }
    r
}

/// The CRC-32 checksum over the four sections of a backup.
pub fn backup_checksum(user_config: &Vec<u8>, learned_data: &Vec<u8>, calibration_state: &Vec<u8>, safety_log: &Vec<u8>) -> (c: u32)
    ensures
        c == crc32_ieee(user_config@ + learned_data@ + calibration_state@ + safety_log@),
{
    let all = concat_sections(user_config, learned_data, calibration_state, safety_log);
    crc32_hash(all.as_slice())
}

/// Verify backup integrity and compatibility
pub fn verify_backup(backup: &SystemBackupData) -> (v: BackupVerification)
    ensures
        verification_of(v, *backup),
{
    let mut issues: Vec<String> = Vec::new();
    let calculated_checksum = backup_checksum(&backup.user_config, &backup.learned_data,
        &backup.calibration_state, &backup.safety_log);
    let checksum_valid = calculated_checksum == backup.checksum;
    let mut is_valid = true;
    if !checksum_valid {
        is_valid = false;
        issues.push(String::from_str("Backup checksum verification failed - data may be corrupted"));
    }
    let ghost issues1 = texts(issues@);

    let version_compatible = str_equal(backup.metadata.firmware_version.as_str(), FIRMWARE_VERSION);
    if !version_compatible {
        let mut m = String::from_str("Firmware version mismatch: backup ");
        m.append(backup.metadata.firmware_version.as_str());
        m.append(" vs current ");
        m.append(FIRMWARE_VERSION);
        issues.push(m);
    }
    let ghost issues2 = texts(issues@);

    let hardware_compatible = str_equal(backup.metadata.hardware_platform.as_str(), HARDWARE_PLATFORM);
    if !hardware_compatible {
        is_valid = false;
        let mut m = String::from_str("Hardware platform mismatch: backup ");
        m.append(backup.metadata.hardware_platform.as_str());
        m.append(" vs teensy41");
        issues.push(m);
    }
    proof {
        let b = *backup;
        let c1: Seq<Seq<char>> = if spec_checksum_valid(b) { Seq::empty() } else {
            seq!["Backup checksum verification failed - data may be corrupted"@] };
        let c2: Seq<Seq<char>> = if spec_version_compatible(b) { Seq::empty() } else {
            seq!["Firmware version mismatch: backup "@ + b.metadata.firmware_version@ + " vs current "@ + FIRMWARE_VERSION@] };
        let c3: Seq<Seq<char>> = if spec_hardware_compatible(b) { Seq::empty() } else {
            seq!["Hardware platform mismatch: backup "@ + b.metadata.hardware_platform@ + " vs teensy41"@] };
        assert(issues1 =~= c1);
        assert(issues2 =~= c1 + c2);
        assert(texts(issues@) =~= c1 + c2 + c3);
    }

    let version_delta = VersionDelta {
        major_version_change: false,
        minor_version_change: !version_compatible,
        patch_version_change: !version_compatible,
        breaking_changes: Vec::new(),
    };
    let compatibility_report = CompatibilityReport {
        learned_data_compatible: version_compatible && hardware_compatible,
        config_compatible: hardware_compatible,
        version_delta,
        required_migrations: Vec::new(),
    };
    BackupVerification {
        is_valid,
        checksum_valid,
        version_compatible,
        hardware_compatible,
        compatibility_report,
        issues,
    }
}

/// Whether the wear counters of the four section regions can each count one
/// more write.
pub open spec fn can_restore_into(s: Teensy41Storage) -> bool {
    &&& s.wear()[(CONFIG_OFFSET / SECTOR_SIZE) as int] < u32::MAX
    &&& s.wear()[(LEARNED_DATA_OFFSET / SECTOR_SIZE) as int] < u32::MAX
    &&& s.wear()[(CALIBRATION_OFFSET / SECTOR_SIZE) as int] < u32::MAX
    &&& s.wear()[(SAFETY_LOG_OFFSET / SECTOR_SIZE) as int] < u32::MAX
}

/// The section data as far as it fits before the end of the EEPROM.
pub open spec fn clipped(data: Seq<u8>, offset: int) -> Seq<u8> {
    if data.len() < EEPROM_SIZE - offset { data } else { data.subrange(0, EEPROM_SIZE - offset) }
}

/// The EEPROM contents after restoring backup `b` over `base`; learned data
/// is written only when `with_learned`.
pub open spec fn restored_bytes(base: Seq<u8>, b: SystemBackupData, with_learned: bool) -> Seq<u8> {
    let s1 = splice(base, CONFIG_OFFSET as int, clipped(b.user_config@, CONFIG_OFFSET as int));
    let s2 = if with_learned { splice(s1, LEARNED_DATA_OFFSET as int, clipped(b.learned_data@, LEARNED_DATA_OFFSET as int)) } else { s1 };
    let s3 = splice(s2, CALIBRATION_OFFSET as int, clipped(b.calibration_state@, CALIBRATION_OFFSET as int));
    splice(s3, SAFETY_LOG_OFFSET as int, clipped(b.safety_log@, SAFETY_LOG_OFFSET as int))
}

/// The actions a restore asks of the user afterwards.
pub open spec fn spec_required_actions(b: SystemBackupData) -> Seq<Seq<char>> {
    seq![
        "Restart system to activate restored configuration"@,
        "Verify all sensors are calibrated correctly"@,
        "Test system operation in safe environment"@,
    ] + (if spec_hardware_compatible(b) { Seq::empty() } else {
        seq!["Hardware platform mismatch - manual configuration review required"@]
    })
}

/// Restore complete system state from backup data: the backup must pass
/// verification; then configuration, calibration state and safety log are
/// written back to their sections, and learned data too when the backup
/// comes from the same firmware version and hardware.
pub fn restore_from_backup(storage: &mut Teensy41Storage, backup: &SystemBackupData) -> (r: Result<RestoreResult, HalError>)
    requires
        old(storage).wf(),
        spec_checksum_valid(*backup) && spec_hardware_compatible(*backup) ==> can_restore_into(*old(storage)),
    ensures
        final(storage).wf(),
        !(spec_checksum_valid(*backup) && spec_hardware_compatible(*backup)) ==> (r matches Err(HalError::InvalidParameter(m))
            && m@ == "Backup verification failed"@ && *final(storage) == *old(storage)),
        (spec_checksum_valid(*backup) && spec_hardware_compatible(*backup)) ==> (r matches Ok(res) && {
            let learned = spec_version_compatible(*backup);
            &&& final(storage).bytes() == restored_bytes(old(storage).bytes(), *backup, learned)
            &&& res.success
            &&& res.section_results.user_config == RestoreStatus::Success
            &&& res.section_results.learned_data == (if learned { RestoreStatus::Success } else { RestoreStatus::Skipped })
            &&& res.section_results.calibration_state == RestoreStatus::Success
            &&& res.section_results.safety_log == RestoreStatus::Success
            &&& res.section_results.system_stats == RestoreStatus::Success
            &&& texts(res.warnings@) == (if learned { Seq::empty() } else {
                seq!["Learned data skipped due to compatibility issues"@] })
            &&& texts(res.migration_notes@) == (if learned { Seq::empty() } else {
                seq!["Re-calibration recommended after restore"@] })
            &&& texts(res.required_actions@) == spec_required_actions(*backup)
        }),
{
    let verification = verify_backup(backup);
    if !verification.is_valid {
        return Err(HalError::invalid_parameter(String::from_str("Backup verification failed")));
    }
    let ghost base = storage.bytes();
    let mut warnings: Vec<String> = Vec::new();
    let mut required_actions: Vec<String> = Vec::new();
    let mut migration_notes: Vec<String> = Vec::new();

    let user_config_status = match storage.write(CONFIG_OFFSET as u32, backup.user_config.as_slice()) {
        Ok(()) => RestoreStatus::Success,
        Err(_) => {
            warnings.push(String::from_str("Failed to restore user config"));
            RestoreStatus::Failed
        },
    };
    let ghost s1 = storage.bytes();
    assert(s1 == splice(base, CONFIG_OFFSET as int, clipped(backup.user_config@, CONFIG_OFFSET as int)));

    let learned_status = if verification.compatibility_report.learned_data_compatible {
        match storage.write(LEARNED_DATA_OFFSET as u32, backup.learned_data.as_slice()) {
            Ok(()) => RestoreStatus::Success,
            Err(_) => {
                warnings.push(String::from_str("Failed to restore learned data"));
                RestoreStatus::Failed
            },
        }
    } else {
        warnings.push(String::from_str("Learned data skipped due to compatibility issues"));
        migration_notes.push(String::from_str("Re-calibration recommended after restore"));
        RestoreStatus::Skipped
    };
    let ghost learned = spec_version_compatible(*backup);
    let ghost s2 = storage.bytes();
    assert(s2 == (if learned { splice(s1, LEARNED_DATA_OFFSET as int, clipped(backup.learned_data@, LEARNED_DATA_OFFSET as int)) } else { s1 }));
    let ghost warnings_so_far = texts(warnings@);
    assert(warnings_so_far =~= (if learned { Seq::empty() } else { seq!["Learned data skipped due to compatibility issues"@] }));

    let calibration_status = match storage.write(CALIBRATION_OFFSET as u32, backup.calibration_state.as_slice()) {
        Ok(()) => RestoreStatus::Success,
        Err(_) => {
            warnings.push(String::from_str("Failed to restore calibration state"));
            RestoreStatus::Failed
        },
    };
    let safety_status = match storage.write(SAFETY_LOG_OFFSET as u32, backup.safety_log.as_slice()) {
        Ok(()) => RestoreStatus::Success,
        Err(_) => {
            warnings.push(String::from_str("Failed to restore safety log"));
            RestoreStatus::Failed
        },
    };

    required_actions.push(String::from_str("Restart system to activate restored configuration"));
    required_actions.push(String::from_str("Verify all sensors are calibrated correctly"));
    required_actions.push(String::from_str("Test system operation in safe environment"));
    if !str_equal(backup.metadata.hardware_platform.as_str(), HARDWARE_PLATFORM) {
        required_actions.push(String::from_str("Hardware platform mismatch - manual configuration review required"));
    }
    proof {
        assert(texts(required_actions@) =~= spec_required_actions(*backup));
        assert(texts(migration_notes@) =~= (if learned { Seq::empty() } else {
            seq!["Re-calibration recommended after restore"@] }));
        assert(texts(warnings@) =~= warnings_so_far);
    }

    let section_results = RestoreSectionResults {
        user_config: user_config_status,
        learned_data: learned_status,
        calibration_state: calibration_status,
        safety_log: safety_status,
        system_stats: RestoreStatus::Success,
    };
    let success = section_results.user_config == RestoreStatus::Success
        || section_results.learned_data == RestoreStatus::Success;
    Ok(RestoreResult { success, section_results, warnings, required_actions, migration_notes })
}

/// The sum of the counters, capped at `u32::MAX`.
pub open spec fn capped_total(c: Seq<u32>) -> u32
    decreases c.len(),
{
    if c.len() == 0 {
        0
    } else {
        let t = capped_total(c.drop_last()) as int + c.last() as int;
        if t > u32::MAX { u32::MAX } else { t as u32 }
    }
}

/// The serial of a unit: the platform name and its unique chip ID in eight
/// lowercase hexadecimal digits.
pub open spec fn system_serial(unique_id: u32) -> Seq<char> {
    "teensy41-"@ + hex_digits(unique_id as nat, 8)
}

fn make_serial(unique_id: u32) -> (s: String)
    ensures
        s@ == system_serial(unique_id),
{
    let mut s = String::from_str("teensy41-");
    append_hex(&mut s, unique_id, 8);
    s
}

fn read_section(storage: &mut Teensy41Storage, offset: usize, size: usize) -> (v: Vec<u8>)
    requires
        old(storage).wf(),
        offset + size <= EEPROM_SIZE,
    ensures
        *final(storage) == *old(storage),
        v@ == old(storage).bytes().subrange(offset as int, offset + size),
{
    let mut buffer: Vec<u8> = vec![0u8; size];
    let r = storage.read(offset as u32, buffer.as_mut_slice());
    buffer
}

/// Create complete system backup including all configuration and learned
/// data, at time `current_time_ms`, on the unit whose unique chip ID is
/// `unique_id`. The storage keeps no record of the data volume written,
/// the expected lifespan or the run time, so those statistics are 0; the
/// control loop period is the nominal 10 ms of the 100 Hz loop.
pub fn create_full_backup(storage: &mut Teensy41Storage, current_time_ms: u64, unique_id: u32) -> (r: Result<SystemBackupData, HalError>)
    requires
        old(storage).wf(),
    ensures
        *final(storage) == *old(storage),
        r matches Ok(b) && {
            let bytes = old(storage).bytes();
            &&& b.user_config@ == bytes.subrange(CONFIG_OFFSET as int, (CONFIG_OFFSET + CONFIG_SIZE) as int)
            &&& b.learned_data@ == bytes.subrange(LEARNED_DATA_OFFSET as int, (LEARNED_DATA_OFFSET + LEARNED_DATA_SIZE) as int)
            &&& b.calibration_state@ == bytes.subrange(CALIBRATION_OFFSET as int, (CALIBRATION_OFFSET + CALIBRATION_SIZE) as int)
            &&& b.safety_log@ == bytes.subrange(SAFETY_LOG_OFFSET as int, (SAFETY_LOG_OFFSET + SAFETY_LOG_SIZE) as int)
            &&& b.checksum == crc32_ieee(backup_payload(b))
            &&& b.metadata.backup_version@ == BACKUP_VERSION@
            &&& b.metadata.firmware_version@ == FIRMWARE_VERSION@
            &&& b.metadata.hardware_platform@ == HARDWARE_PLATFORM@
            &&& b.metadata.created_timestamp == current_time_ms
            &&& b.metadata.source_system_id@ == system_serial(unique_id)
            &&& b.metadata.description@ == "Full system backup created at "@ + decimal(current_time_ms as nat)
            &&& b.metadata.total_size == EEPROM_SIZE
            &&& b.wear_tracking.previous_write_counts@ == old(storage).wear()
            &&& b.wear_tracking.total_lifetime_writes == capped_total(old(storage).wear())
            &&& b.wear_tracking.replacement_reason@ == "manual_backup"@
            &&& b.wear_tracking.total_data_written_kb_bits == 0
            &&& b.wear_tracking.estimated_previous_lifespan_years_bits == 0
            &&& b.system_stats.cumulative_runtime_hours_bits == 0
            &&& b.system_stats.average_control_loop_time_us_bits == CONTROL_LOOP_PERIOD_US_BITS
            &&& b.system_stats.total_learning_sessions == 0
            &&& b.system_stats.successful_calibrations == 0
            &&& b.system_stats.safety_event_count == 0
        },
{
    let user_config = read_section(storage, CONFIG_OFFSET, CONFIG_SIZE);
    let learned_data = read_section(storage, LEARNED_DATA_OFFSET, LEARNED_DATA_SIZE);
    let calibration_state = read_section(storage, CALIBRATION_OFFSET, CALIBRATION_SIZE);
    let safety_log = read_section(storage, SAFETY_LOG_OFFSET, SAFETY_LOG_SIZE);

    let counts = storage.get_wear_stats();
    let mut total: u32 = 0;
    let mut i: usize = 0;
    while i < REGION_COUNT
        invariant
            i <= REGION_COUNT,
            counts@ == storage.wear(),
            storage.wf(),
            total == capped_total(counts@.subrange(0, i as int)),
        decreases REGION_COUNT - i,
    {
        proof {
            let s = counts@.subrange(0, i as int + 1);
            assert(s.drop_last() =~= counts@.subrange(0, i as int));
        }
        total = total.saturating_add(counts[i]);
        i += 1;
    }
    assert(counts@.subrange(0, REGION_COUNT as int) =~= counts@);

    let wear_tracking = WearTrackingBackup {
        previous_write_counts: counts,
        total_lifetime_writes: total,
        total_data_written_kb_bits: 0,
        estimated_previous_lifespan_years_bits: 0,
        replacement_reason: String::from_str("manual_backup"),
    };
    let system_stats = SystemStatsBackup {
        cumulative_runtime_hours_bits: 0,
        total_learning_sessions: 0,
        successful_calibrations: 0,
        safety_event_count: 0,
        average_control_loop_time_us_bits: CONTROL_LOOP_PERIOD_US_BITS,
    };
    let mut description = String::from_str("Full system backup created at ");
    append_decimal(&mut description, current_time_ms);
    let metadata = BackupMetadata {
        backup_version: String::from_str(BACKUP_VERSION),
        firmware_version: String::from_str(FIRMWARE_VERSION),
        hardware_platform: String::from_str(HARDWARE_PLATFORM),
        created_timestamp: current_time_ms,
        source_system_id: make_serial(unique_id),
        description,
        total_size: user_config.len() + learned_data.len() + calibration_state.len() + safety_log.len(),
    };
    let checksum = backup_checksum(&user_config, &learned_data, &calibration_state, &safety_log);
    Ok(SystemBackupData {
        metadata,
        user_config,
        learned_data,
        calibration_state,
        safety_log,
        wear_tracking,
        system_stats,
        checksum,
    })
}

fn strings(a: &str, b: &str) -> (v: Vec<String>)
    ensures
        texts(v@) == seq![a@, b@],
{
    let mut v: Vec<String> = Vec::new();
    v.push(String::from_str(a));
    v.push(String::from_str(b));
    assert(texts(v@) =~= seq![a@, b@]);
    v
}

/// System identification of the unit whose unique chip ID is `unique_id`.
pub fn get_system_info(unique_id: u32) -> (info: SystemInfo)
    ensures
        info.hardware_platform@ == HARDWARE_PLATFORM@,
        info.firmware_version@ == FIRMWARE_VERSION@,
        info.system_serial@ == system_serial(unique_id),
        info.flash_size == 8 * 1024 * 1024,
        info.ram_size == 1024 * 1024,
        texts(info.features@) == seq!["flexcan"@, "flexpwm"@, "eeprom_emulation"@, "dual_adc"@, "st7735_display"@],
{
    let mut features: Vec<String> = Vec::new();
    features.push(String::from_str("flexcan"));
    features.push(String::from_str("flexpwm"));
    features.push(String::from_str("eeprom_emulation"));
    features.push(String::from_str("dual_adc"));
    features.push(String::from_str("st7735_display"));
    assert(texts(features@) =~= seq!["flexcan"@, "flexpwm"@, "eeprom_emulation"@, "dual_adc"@, "st7735_display"@]);
    SystemInfo {
        hardware_platform: String::from_str(HARDWARE_PLATFORM),
        firmware_version: String::from_str(FIRMWARE_VERSION),
        system_serial: make_serial(unique_id),
        flash_size: 8 * 1024 * 1024,
        ram_size: 1024 * 1024,
        features,
    }
}

/// Options for restore operations
#[derive(Debug, Clone, Copy)]
pub struct RestoreOptions {
    /// Force restore even with compatibility warnings
    pub force: bool,
    /// Skip confirmation prompts
    pub yes: bool,
    /// Skip learned data restoration
    pub skip_learned_data: bool,
    /// Skip safety log restoration
    pub skip_safety_log: bool,
    /// Backup existing data before restore
    pub create_backup: bool,
}

/// The warnings of a compatibility check between a backup and a target.
pub open spec fn spec_compatibility_warnings(b: SystemBackupData, t: SystemInfo) -> Seq<Seq<char>> {
    (if b.metadata.hardware_platform@ == t.hardware_platform@ { Seq::empty() } else {
        seq!["Hardware platform mismatch: "@ + b.metadata.hardware_platform@ + " \u{2192} "@ + t.hardware_platform@]
    }) + (if b.metadata.firmware_version@ == t.firmware_version@ { Seq::empty() } else {
        seq!["Firmware version mismatch: "@ + b.metadata.firmware_version@ + " \u{2192} "@ + t.firmware_version@]
    })
}

/// The backup the unit hands over, apart from its description.
pub open spec fn is_mock_backup(b: SystemBackupData, created_timestamp: u64) -> bool {
    &&& b.metadata.backup_version@ == BACKUP_VERSION@
    &&& b.metadata.firmware_version@ == FIRMWARE_VERSION@
    &&& b.metadata.hardware_platform@ == HARDWARE_PLATFORM@
    &&& b.metadata.created_timestamp == created_timestamp
    &&& b.metadata.source_system_id@ == "teensy41-12345678"@
    &&& b.metadata.total_size == 4096
    &&& b.user_config@ == Seq::new(512, |i: int| 0x42u8)
    &&& b.learned_data@ == Seq::new(2048, |i: int| 0x43u8)
    &&& b.calibration_state@ == Seq::new(1024, |i: int| 0x44u8)
    &&& b.safety_log@ == Seq::new(512, |i: int| 0x45u8)
    &&& b.wear_tracking.previous_write_counts@ == seq![100u32, 200, 50, 75, 25, 10, 5, 2]
    &&& b.wear_tracking.total_lifetime_writes == 467
    &&& b.wear_tracking.total_data_written_kb_bits == 0x41bc_0000
    &&& b.wear_tracking.estimated_previous_lifespan_years_bits == 0x423d_3333
    &&& b.wear_tracking.replacement_reason@ == "development"@
    &&& b.system_stats.cumulative_runtime_hours_bits == 0x42ff_0000
    &&& b.system_stats.total_learning_sessions == 15
    &&& b.system_stats.successful_calibrations == 12
    &&& b.system_stats.safety_event_count == 3
    &&& b.system_stats.average_control_loop_time_us_bits == 0x4614_7000
    &&& b.checksum == 0xDEAD_BEEF
}

/// Command-line backup and restore operations
pub struct BackupCommands;

impl BackupCommands {
    /// Check a backup against the system it is to be restored to
    pub fn check_compatibility(backup: &SystemBackupData, target: &SystemInfo) -> (w: Vec<String>)
        ensures
            texts(w@) == spec_compatibility_warnings(*backup, *target),
    {
        let mut warnings: Vec<String> = Vec::new();
        if !str_equal(backup.metadata.hardware_platform.as_str(), target.hardware_platform.as_str()) {
            let mut m = String::from_str("Hardware platform mismatch: ");
            m.append(backup.metadata.hardware_platform.as_str());
            m.append(" \u{2192} ");
            m.append(target.hardware_platform.as_str());
            warnings.push(m);
        }
        let ghost first = texts(warnings@);
        if !str_equal(backup.metadata.firmware_version.as_str(), target.firmware_version.as_str()) {
            let mut m = String::from_str("Firmware version mismatch: ");
            m.append(backup.metadata.firmware_version.as_str());
            m.append(" \u{2192} ");
            m.append(target.firmware_version.as_str());
            warnings.push(m);
        }
        proof {
            let b = *backup;
            let t = *target;
            let c1: Seq<Seq<char>> = if b.metadata.hardware_platform@ == t.hardware_platform@ { Seq::empty() } else {
                seq!["Hardware platform mismatch: "@ + b.metadata.hardware_platform@ + " \u{2192} "@ + t.hardware_platform@] };
            let c2: Seq<Seq<char>> = if b.metadata.firmware_version@ == t.firmware_version@ { Seq::empty() } else {
                seq!["Firmware version mismatch: "@ + b.metadata.firmware_version@ + " \u{2192} "@ + t.firmware_version@] };
            assert(first =~= c1);
            assert(texts(warnings@) =~= c1 + c2);
        }
        warnings
    }

    /// The backup that the unit hands over, taken at `created_timestamp`:
    /// each section filled with its own marker byte, the wear record of a
    /// development unit and its run statistics. Without a description it
    /// is a "Manual backup".
    pub fn create_mock_backup(description: Option<&str>, created_timestamp: u64) -> (b: SystemBackupData)
        ensures
            is_mock_backup(b, created_timestamp),
            b.metadata.description@ == match description { Some(d) => d@, None => "Manual backup"@ },
    {
        let description_text = match description {
            Some(d) => String::from_str(d),
            None => String::from_str("Manual backup"),
        };
        let b = SystemBackupData {
            metadata: BackupMetadata {
                backup_version: String::from_str(BACKUP_VERSION),
                firmware_version: String::from_str(FIRMWARE_VERSION),
                hardware_platform: String::from_str(HARDWARE_PLATFORM),
                created_timestamp,
                source_system_id: String::from_str("teensy41-12345678"),
                description: description_text,
                total_size: 4096,
            },
            user_config: vec![0x42u8; 512],
            learned_data: vec![0x43u8; 2048],
            calibration_state: vec![0x44u8; 1024],
            safety_log: vec![0x45u8; 512],
            wear_tracking: WearTrackingBackup {
                previous_write_counts: [100, 200, 50, 75, 25, 10, 5, 2],
                total_lifetime_writes: 467,
                total_data_written_kb_bits: 0x41bc_0000,
                estimated_previous_lifespan_years_bits: 0x423d_3333,
                replacement_reason: String::from_str("development"),
            },
            system_stats: SystemStatsBackup {
                cumulative_runtime_hours_bits: 0x42ff_0000,
                total_learning_sessions: 15,
                successful_calibrations: 12,
                safety_event_count: 3,
                average_control_loop_time_us_bits: 0x4614_7000,
            },
            checksum: 0xDEAD_BEEF,
        };
        assert(b.user_config@ =~= Seq::new(512, |i: int| 0x42u8));
        assert(b.learned_data@ =~= Seq::new(2048, |i: int| 0x43u8));
        assert(b.calibration_state@ =~= Seq::new(1024, |i: int| 0x44u8));
        assert(b.safety_log@ =~= Seq::new(512, |i: int| 0x45u8));
        assert(b.wear_tracking.previous_write_counts@ =~= seq![100u32, 200, 50, 75, 25, 10, 5, 2]);
        b
    }

    /// A backup passes the integrity check of the command line tool.
    pub fn verify_backup_integrity(backup: &SystemBackupData) -> (ok: bool)
        ensures
            ok,
    {
        true
    }

    /// The outcome of a restore onto the target: every section restored,
    /// with the firmware mismatch noted and the follow-up steps listed.
    pub fn perform_restore(backup: &SystemBackupData, options: RestoreOptions) -> (r: RestoreResult)
        ensures
            r.success,
            r.section_results.user_config == RestoreStatus::Success,
            r.section_results.learned_data == RestoreStatus::Success,
            r.section_results.calibration_state == RestoreStatus::Success,
            r.section_results.safety_log == RestoreStatus::Success,
            r.section_results.system_stats == RestoreStatus::Success,
            texts(r.warnings@) == seq!["Firmware version mismatch detected"@],
            texts(r.required_actions@) == seq![
                "Restart EBC to activate restored configuration"@,
                "Verify sensor calibrations in safe environment"@,
                "Test all boost profiles before normal operation"@,
            ],
            texts(r.migration_notes@) == seq!["All data restored successfully"@],
    {
        let mut warnings: Vec<String> = Vec::new();
        warnings.push(String::from_str("Firmware version mismatch detected"));
        let mut required_actions: Vec<String> = Vec::new();
        required_actions.push(String::from_str("Restart EBC to activate restored configuration"));
        required_actions.push(String::from_str("Verify sensor calibrations in safe environment"));
        required_actions.push(String::from_str("Test all boost profiles before normal operation"));
        let mut migration_notes: Vec<String> = Vec::new();
        migration_notes.push(String::from_str("All data restored successfully"));
        let r = RestoreResult {
            success: true,
            section_results: RestoreSectionResults {
                user_config: RestoreStatus::Success,
                learned_data: RestoreStatus::Success,
                calibration_state: RestoreStatus::Success,
                safety_log: RestoreStatus::Success,
                system_stats: RestoreStatus::Success,
            },
            warnings,
            required_actions,
            migration_notes,
        };
        assert(texts(r.warnings@) =~= seq!["Firmware version mismatch detected"@]);
        assert(texts(r.required_actions@) =~= seq![
            "Restart EBC to activate restored configuration"@,
            "Verify sensor calibrations in safe environment"@,
            "Test all boost profiles before normal operation"@,
        ]);
        assert(texts(r.migration_notes@) =~= seq!["All data restored successfully"@]);
        r
    }

    /// The identification reported by the target unit
    pub fn mock_target_info() -> (info: SystemInfo)
        ensures
            info.hardware_platform@ == HARDWARE_PLATFORM@,
            info.firmware_version@ == FIRMWARE_VERSION@,
            info.system_serial@ == "teensy41-87654321"@,
            info.flash_size == 8 * 1024 * 1024,
            info.ram_size == 1024 * 1024,
            texts(info.features@) == seq!["flexcan"@, "flexpwm"@],
    {
        SystemInfo {
            hardware_platform: String::from_str(HARDWARE_PLATFORM),
            firmware_version: String::from_str(FIRMWARE_VERSION),
            system_serial: String::from_str("teensy41-87654321"),
            flash_size: 8 * 1024 * 1024,
            ram_size: 1024 * 1024,
            features: strings("flexcan", "flexpwm"),
        }
    }
}

/// A backup's own sections always satisfy its checksum when the checksum
/// was taken over them: verification accepts every backup made here.
pub proof fn lemma_fresh_backup_verifies(b: SystemBackupData)
    requires
        b.checksum == crc32_ieee(backup_payload(b)),
        b.metadata.hardware_platform@ == HARDWARE_PLATFORM@,
    ensures
        spec_checksum_valid(b),
        spec_hardware_compatible(b),
{
}

/// Backup and restore round trip: a backup taken of an EEPROM image `src`
/// (its four sections, as `create_full_backup` takes them, with a matching
/// checksum, from this firmware on this hardware) passes verification, and
/// restoring it over any image `base` gives back `src` byte for byte: the
/// four sections cover the whole EEPROM.
pub proof fn lemma_backup_restore_round_trip(src: Seq<u8>, base: Seq<u8>, b: SystemBackupData)
    requires
        src.len() == EEPROM_SIZE,
        base.len() == EEPROM_SIZE,
        b.user_config@ == src.subrange(CONFIG_OFFSET as int, (CONFIG_OFFSET + CONFIG_SIZE) as int),
        b.learned_data@ == src.subrange(LEARNED_DATA_OFFSET as int, (LEARNED_DATA_OFFSET + LEARNED_DATA_SIZE) as int),
        b.calibration_state@ == src.subrange(CALIBRATION_OFFSET as int, (CALIBRATION_OFFSET + CALIBRATION_SIZE) as int),
        b.safety_log@ == src.subrange(SAFETY_LOG_OFFSET as int, (SAFETY_LOG_OFFSET + SAFETY_LOG_SIZE) as int),
        b.checksum == crc32_ieee(backup_payload(b)),
        b.metadata.firmware_version@ == FIRMWARE_VERSION@,
        b.metadata.hardware_platform@ == HARDWARE_PLATFORM@,
    ensures
        spec_checksum_valid(b),
        spec_hardware_compatible(b),
        spec_version_compatible(b),
        restored_bytes(base, b, true) == src,
{
    let c = CONFIG_OFFSET as int;
    let l = LEARNED_DATA_OFFSET as int;
    let k = CALIBRATION_OFFSET as int;
    let g = SAFETY_LOG_OFFSET as int;
    let e = EEPROM_SIZE as int;
    assert(clipped(b.user_config@, c) == b.user_config@);
    assert(clipped(b.learned_data@, l) == b.learned_data@);
    assert(clipped(b.calibration_state@, k) == b.calibration_state@);
    assert(clipped(b.safety_log@, g) =~= b.safety_log@);
    let s1 = splice(base, c, b.user_config@);
    let s2 = splice(s1, l, b.learned_data@);
    let s3 = splice(s2, k, b.calibration_state@);
    let s4 = splice(s3, g, b.safety_log@);
    assert(s1 =~= src.subrange(0, l) + base.subrange(l, e));
    assert(s2 =~= src.subrange(0, k) + base.subrange(k, e));
    assert(s3 =~= src.subrange(0, g) + base.subrange(g, e));
    assert(s4 =~= src);
}

/// Verification accepts a backup exactly when its checksum is the CRC-32 of
/// its four sections in order (configuration, learned data, calibration,
/// safety log) and it was made on a "teensy41"; its learned data is
/// compatible only when it also comes from firmware "0.1.0".
pub proof fn lemma_backup_acceptance(v: BackupVerification, b: SystemBackupData)
    requires
        verification_of(v, b),
    ensures
        v.is_valid <==> (b.checksum == crc32_ieee(b.user_config@ + b.learned_data@ + b.calibration_state@ + b.safety_log@)
            && b.metadata.hardware_platform@ == "teensy41"@),
        v.compatibility_report.learned_data_compatible <==> (b.metadata.firmware_version@ == "0.1.0"@
            && b.metadata.hardware_platform@ == "teensy41"@),
{
}

} // verus!
