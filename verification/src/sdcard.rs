//! MicroSD card logic: the SPI command framing, the card initialization
//! sequence as a state machine, MBR and FAT32 recognition, the mapping of
//! files to sectors, file classification and the mount state.
//!
//! The bytes are moved over SPI by the caller; this module decides what to
//! send next and what the replies mean.

use vstd::prelude::*;
use vstd::string::*;
use crate::bounded::{path_chars, path_new, path_push_str};
use crate::error::HalError;
use crate::text::{contains_chars, ends_with_chars, str_contains, str_ends_with};

verus! {

/// Sector size of the card
pub const SECTOR_BYTES: usize = 512;

/// Capacity of a path buffer in bytes
pub const PATH_CAPACITY: usize = 128;

/// Attempts allowed for the card to leave its initialization state
pub const MAX_INIT_ATTEMPTS: u32 = 1000;

/// First sector of the area where files are placed, and its size in sectors
pub const FILE_AREA_START: u32 = 1000;
pub const FILE_AREA_SECTORS: u32 = 1000;

/// Standard directory paths on the card
pub const ROOT_DIR: &'static str = "/RUMBLEDOME";
pub const PROFILES_DIR: &'static str = "/RUMBLEDOME/profiles";
pub const CONFIG_DIR: &'static str = "/RUMBLEDOME/config";
pub const BACKUPS_DIR: &'static str = "/RUMBLEDOME/backups";
pub const LOGS_DIR: &'static str = "/RUMBLEDOME/logs";
pub const FIRMWARE_DIR: &'static str = "/RUMBLEDOME/firmware";

/// Name of the user profile file in the profiles directory
pub const USER_PROFILES_FILE: &'static str = "user_profiles.json";

/// The directories a card is given on first mount, parents first.
pub fn directory_structure() -> (dirs: [&'static str; 6])
    ensures
        dirs@.map_values(|d: &'static str| d@) == seq![ROOT_DIR@, PROFILES_DIR@, CONFIG_DIR@, BACKUPS_DIR@, LOGS_DIR@, FIRMWARE_DIR@],
{
    let dirs = [ROOT_DIR, PROFILES_DIR, CONFIG_DIR, BACKUPS_DIR, LOGS_DIR, FIRMWARE_DIR];
    assert(dirs@.map_values(|d: &'static str| d@) =~= seq![ROOT_DIR@, PROFILES_DIR@, CONFIG_DIR@, BACKUPS_DIR@, LOGS_DIR@, FIRMWARE_DIR@]);
    dirs
}

/// Types of configuration files
#[derive(Debug, Clone, Copy, PartialEq, Eq, Structural)]
pub enum ConfigFileType {
    UserProfiles,
    SensorCalibration,
    SafetyLimits,
    SystemConfig,
    BackupArchive,
    FirmwareUpdate,
    ProfileLibrary,
}

/// Configuration file information
#[derive(Debug, Clone)]
pub struct ConfigFileInfo {
    pub filename: String,
    pub size_bytes: usize,
    pub created_timestamp: u64,
    pub modified_timestamp: u64,
    pub file_type: ConfigFileType,
    pub description: String,
}

/// SD card health status
#[derive(Debug, Clone, Copy, PartialEq, Eq, Structural)]
pub enum SdCardHealth {
    Excellent,
    Good,
    Warning,
    Critical,
    Failed,
}

// ---------------------------------------------------------------- commands

/// The six bytes of an SD command: start bits and index, the argument most
/// significant byte first, then the CRC byte.
pub open spec fn command_bytes(cmd: u8, arg: u32, crc: u8) -> Seq<u8> {
    seq![
        (0x40 + cmd % 64) as u8,
        (arg / 0x100_0000) as u8,
        ((arg / 0x1_0000) % 0x100) as u8,
        ((arg / 0x100) % 0x100) as u8,
        (arg % 0x100) as u8,
        crc,
    ]
}

/// Build the command packet for command `cmd` (0-63) with argument `arg`.
pub fn command_packet(cmd: u8, arg: u32, crc: u8) -> (p: [u8; 6])
    ensures
        p@ == command_bytes(cmd, arg, crc),
{
    let b0 = 0x40u8 | cmd;
    assert(0x40u8 | cmd == (0x40 + cmd % 64) as u8 || cmd >= 64) by (bit_vector);
    let b0 = 0x40u8 | (cmd & 0x3F);
    assert((0x40u8 | (cmd & 0x3F)) == (0x40 + cmd % 64) as u8) by (bit_vector);
    let b1 = (arg >> 24) as u8;
    assert((arg >> 24) as u8 == (arg / 0x100_0000) as u8) by (bit_vector);
    let b2 = (arg >> 16) as u8;
    assert((arg >> 16) as u8 == ((arg / 0x1_0000) % 0x100) as u8) by (bit_vector);
    let b3 = (arg >> 8) as u8;
    assert((arg >> 8) as u8 == ((arg / 0x100) % 0x100) as u8) by (bit_vector);
    let b4 = arg as u8;
    assert(arg as u8 == (arg % 0x100) as u8) by (bit_vector);
    let p = [b0, b1, b2, b3, b4, crc];
    assert(p@ =~= command_bytes(cmd, arg, crc));
    p
}

/// Whether a byte read while waiting for a reply is an R1 response: its top
/// bit is clear.
pub fn is_r1_response(b: u8) -> (r: bool)
    ensures
        r == (b < 0x80),
{
    let r = (b & 0x80) == 0;
    assert(((b & 0x80) == 0) == (b < 0x80)) by (bit_vector);
    r
}

/// Whether the data response token after a block write accepts the data.
pub fn write_accepted(response: u8) -> (r: bool)
    ensures
        r == (response % 32 == 5),
{
    let r = (response & 0x1F) == 0x05;
    assert(((response & 0x1F) == 0x05) == (response % 32 == 5)) by (bit_vector);
    r
}

// ------------------------------------------------------- initialization

/// Where the card initialization sequence stands: which reply it waits for.
/// Reads allowed for the R1 response of a command
pub const R1_MAX_READS: u32 = 8;
/// Reads allowed for the data token of a sector read
pub const TOKEN_MAX_READS: u32 = 1000;
/// Busy bytes allowed after a sector write
pub const WRITE_MAX_BUSY: u32 = 10000;
/// Token that starts a data block
pub const DATA_TOKEN: u8 = 0xFE;

/// Wait for the R1 response of a command: `reads_done` bytes have been
/// read before `byte`. The wait ends on a byte with its top bit clear, or
/// with the eighth byte read, which is then the response.
pub fn r1_poll(reads_done: u32, byte: u8) -> (r: Option<u8>)
    requires
        reads_done < R1_MAX_READS,
    ensures
        (byte < 0x80 || reads_done + 1 == R1_MAX_READS) ==> r == Some(byte),
        !(byte < 0x80 || reads_done + 1 == R1_MAX_READS) ==> r is None,
{
    if is_r1_response(byte) || reads_done + 1 == R1_MAX_READS {
        Some(byte)
    } else {
        None
    }
}

/// A sector command is accepted only with an R1 response of 0.
pub fn check_sector_command(response: u8, write: bool) -> (r: Result<(), HalError>)
    ensures
        response == 0 ==> r is Ok,
        response != 0 && !write ==> (r matches Err(HalError::IoError(m)) && m@ == "Failed to start sector read"@),
        response != 0 && write ==> (r matches Err(HalError::IoError(m)) && m@ == "Failed to start sector write"@),
{
    if response != 0 {
        if write {
            return Err(HalError::IoError(String::from_str("Failed to start sector write")));
        }
        return Err(HalError::IoError(String::from_str("Failed to start sector read")));
    }
    Ok(())
}

/// Wait for the data token of a sector read: `reads_done` bytes have been
/// read before `byte`. `Ok(true)` when `byte` is the token, `Ok(false)` to
/// read on, and a timeout once 1000 bytes went by without it.
pub fn token_poll(reads_done: u32, byte: u8) -> (r: Result<bool, HalError>)
    requires
        reads_done < TOKEN_MAX_READS,
    ensures
        byte == DATA_TOKEN ==> r == Ok::<bool, HalError>(true),
        byte != DATA_TOKEN && reads_done + 1 < TOKEN_MAX_READS ==> r == Ok::<bool, HalError>(false),
        byte != DATA_TOKEN && reads_done + 1 == TOKEN_MAX_READS ==> (r matches Err(HalError::Timeout(m))
            && m@ == "Sector read data token timeout"@),
{
    if byte == DATA_TOKEN {
        Ok(true)
    } else if reads_done + 1 == TOKEN_MAX_READS {
        Err(HalError::Timeout(String::from_str("Sector read data token timeout")))
    } else {
        Ok(false)
    }
}

/// The data response after a sector write must mark the data accepted.
pub fn check_data_response(response: u8) -> (r: Result<(), HalError>)
    ensures
        response % 32 == 5 ==> r is Ok,
        response % 32 != 5 ==> (r matches Err(HalError::IoError(m)) && m@ == "Sector write was rejected"@),
{
    if !write_accepted(response) {
        return Err(HalError::IoError(String::from_str("Sector write was rejected")));
    }
    Ok(())
}

/// Wait for a sector write to complete: `busy_count` busy bytes came
/// before `status`. 0xFF ends the wait (`Ok(None)`); another busy byte
/// gives the new count, and more than 10000 of them a timeout.
pub fn busy_poll(busy_count: u32, status: u8) -> (r: Result<Option<u32>, HalError>)
    requires
        busy_count <= WRITE_MAX_BUSY,
    ensures
        status == 0xFF ==> r == Ok::<Option<u32>, HalError>(None),
        status != 0xFF && busy_count + 1 <= WRITE_MAX_BUSY ==> r == Ok::<Option<u32>, HalError>(Some((busy_count + 1) as u32)),
        status != 0xFF && busy_count + 1 > WRITE_MAX_BUSY ==> (r matches Err(HalError::Timeout(m))
            && m@ == "Sector write completion timeout"@),
{
    if status == 0xFF {
        Ok(None)
    } else if busy_count + 1 > WRITE_MAX_BUSY {
        Err(HalError::Timeout(String::from_str("Sector write completion timeout")))
    } else {
        Ok(Some(busy_count + 1))
    }
}

#[derive(Debug, Clone, Copy, PartialEq, Eq, Structural)]
pub enum SdInitPhase {
    /// Waiting for the R1 reply to GO_IDLE_STATE (CMD0)
    AwaitIdle,
    /// Waiting for the R1 reply to SEND_IF_COND (CMD8)
    AwaitIfCond,
    /// Waiting for the four bytes that echo the voltage check
    AwaitEcho,
    /// Waiting for the R1 reply to APP_CMD (CMD55)
    AwaitAppCmd { attempts: u32 },
    /// Waiting for the R1 reply to APP_SEND_OP_COND (ACMD41)
    AwaitOpCond { attempts: u32 },
    /// Waiting for the R1 reply to READ_OCR (CMD58)
    AwaitOcrStatus,
    /// Waiting for the four OCR bytes
    AwaitOcr,
    /// Initialization complete
    Ready { sdhc: bool },
}

/// What the caller must do next for the initialization sequence.
#[derive(Debug, Clone, Copy, PartialEq, Eq, Structural)]
pub enum SdInitAction {
    /// Wait `delay_ms`, send the command and read its R1 reply
    Send { cmd: u8, arg: u32, crc: u8, delay_ms: u32 },
    /// Read this many data bytes
    Read { count: usize },
    /// The card is ready
    Done { sdhc: bool },
}

/// The number of reply bytes a phase consumes.
pub open spec fn reply_len(phase: SdInitPhase) -> nat {
    match phase {
        SdInitPhase::AwaitEcho => 4,
        SdInitPhase::AwaitOcr => 4,
        SdInitPhase::Ready { .. } => 0,
        _ => 1,
    }
}

/// The outcome of one step of the initialization sequence, given the
/// reply to the previous action.
pub open spec fn init_step(phase: SdInitPhase, reply: Seq<u8>) -> Result<(SdInitPhase, SdInitAction), Seq<char>> {
    match phase {
        SdInitPhase::AwaitIdle => if reply[0] == 0x01 {
            Ok((SdInitPhase::AwaitIfCond, SdInitAction::Send { cmd: 8, arg: 0x1AA, crc: 0x87, delay_ms: 0 }))
        } else {
            Err("SD card did not enter idle state"@)
        },
        SdInitPhase::AwaitIfCond => if reply[0] == 0x01 {
            Ok((SdInitPhase::AwaitEcho, SdInitAction::Read { count: 4 }))
        } else {
            Err("SD card voltage check failed"@)
        },
        SdInitPhase::AwaitEcho => if reply[2] == 0x01 && reply[3] == 0xAA {
            Ok((SdInitPhase::AwaitAppCmd { attempts: 0 }, SdInitAction::Send { cmd: 55, arg: 0, crc: 0xFF, delay_ms: 0 }))
        } else {
            Err("SD card rejected voltage range"@)
        },
        SdInitPhase::AwaitAppCmd { attempts } => if reply[0] > 1 {
            Err("CMD55 failed"@)
        } else {
            Ok((SdInitPhase::AwaitOpCond { attempts }, SdInitAction::Send { cmd: 41, arg: 0x4000_0000, crc: 0xFF, delay_ms: 0 }))
        },
        SdInitPhase::AwaitOpCond { attempts } => if reply[0] == 0x00 {
            Ok((SdInitPhase::AwaitOcrStatus, SdInitAction::Send { cmd: 58, arg: 0, crc: 0xFF, delay_ms: 0 }))
        } else if reply[0] == 0x01 {
            if attempts + 1 > MAX_INIT_ATTEMPTS {
                Err("SD card initialization timeout"@)
            } else {
                Ok((SdInitPhase::AwaitAppCmd { attempts: (attempts + 1) as u32 },
                    SdInitAction::Send { cmd: 55, arg: 0, crc: 0xFF, delay_ms: 1 }))
            }
        } else {
            Err("ACMD41 failed"@)
        },
        SdInitPhase::AwaitOcrStatus => if reply[0] == 0x00 {
            Ok((SdInitPhase::AwaitOcr, SdInitAction::Read { count: 4 }))
        } else {
            Err("CMD58 failed"@)
        },
        SdInitPhase::AwaitOcr => Ok((SdInitPhase::Ready { sdhc: reply[0] >= 0x40 && (reply[0] / 0x40) % 2 == 1 },
            SdInitAction::Done { sdhc: reply[0] >= 0x40 && (reply[0] / 0x40) % 2 == 1 })),
        SdInitPhase::Ready { sdhc } => Ok((phase, SdInitAction::Done { sdhc })),
    }
}

/// The phase before any command was sent, and the first action: GO_IDLE_STATE.
pub fn sd_init_start() -> (r: (SdInitPhase, SdInitAction))
    ensures
        r == (SdInitPhase::AwaitIdle, SdInitAction::Send { cmd: 0, arg: 0, crc: 0x95, delay_ms: 0 }),
{
    (SdInitPhase::AwaitIdle, SdInitAction::Send { cmd: 0, arg: 0, crc: 0x95, delay_ms: 0 })
}

/// One step of the SD card initialization sequence: interprets the reply to
/// the previous action and says what to do next. A reply that shows the card
/// is unusable ends the sequence with an error.
pub fn sd_init_step(phase: SdInitPhase, reply: &[u8]) -> (r: Result<(SdInitPhase, SdInitAction), HalError>)
    requires
        reply@.len() >= reply_len(phase),
    ensures
        match init_step(phase, reply@) {
            Ok(next) => r matches Ok(n) && n == next,
            Err(msg) => (r matches Err(e) && (match e {
                HalError::Timeout(m) => m@ == msg && phase is AwaitOpCond,
                HalError::DeviceNotReady(m) => m@ == msg,
                _ => false,
            })),
        },
{
    match phase {
        SdInitPhase::AwaitIdle => {
            if reply[0] == 0x01 {
                Ok((SdInitPhase::AwaitIfCond, SdInitAction::Send { cmd: 8, arg: 0x1AA, crc: 0x87, delay_ms: 0 }))
            } else {
                Err(HalError::DeviceNotReady(String::from_str("SD card did not enter idle state")))
            }
        },
        SdInitPhase::AwaitIfCond => {
            if reply[0] == 0x01 {
                Ok((SdInitPhase::AwaitEcho, SdInitAction::Read { count: 4 }))
            } else {
                Err(HalError::DeviceNotReady(String::from_str("SD card voltage check failed")))
            }
        },
        SdInitPhase::AwaitEcho => {
            if reply[2] == 0x01 && reply[3] == 0xAA {
                Ok((SdInitPhase::AwaitAppCmd { attempts: 0 }, SdInitAction::Send { cmd: 55, arg: 0, crc: 0xFF, delay_ms: 0 }))
            } else {
                Err(HalError::DeviceNotReady(String::from_str("SD card rejected voltage range")))
            }
        },
        SdInitPhase::AwaitAppCmd { attempts } => {
            if reply[0] > 1 {
                Err(HalError::DeviceNotReady(String::from_str("CMD55 failed")))
            } else {
                Ok((SdInitPhase::AwaitOpCond { attempts }, SdInitAction::Send { cmd: 41, arg: 0x4000_0000, crc: 0xFF, delay_ms: 0 }))
            }
        },
        SdInitPhase::AwaitOpCond { attempts } => {
            if reply[0] == 0x00 {
                Ok((SdInitPhase::AwaitOcrStatus, SdInitAction::Send { cmd: 58, arg: 0, crc: 0xFF, delay_ms: 0 }))
            } else if reply[0] == 0x01 {
                if attempts >= MAX_INIT_ATTEMPTS {
                    Err(HalError::Timeout(String::from_str("SD card initialization timeout")))
                } else {
                    Ok((SdInitPhase::AwaitAppCmd { attempts: attempts + 1 },
                        SdInitAction::Send { cmd: 55, arg: 0, crc: 0xFF, delay_ms: 1 }))
                }
            } else {
                Err(HalError::DeviceNotReady(String::from_str("ACMD41 failed")))
            }
        },
        SdInitPhase::AwaitOcrStatus => {
            if reply[0] == 0x00 {
                Ok((SdInitPhase::AwaitOcr, SdInitAction::Read { count: 4 }))
            } else {
                Err(HalError::DeviceNotReady(String::from_str("CMD58 failed")))
            }
        },
        SdInitPhase::AwaitOcr => {
            let b = reply[0];
            let sdhc = (b & 0x40) != 0;
            assert(((b & 0x40) != 0) == (b >= 0x40 && (b / 0x40) % 2 == 1)) by (bit_vector);
            Ok((SdInitPhase::Ready { sdhc }, SdInitAction::Done { sdhc }))
        },
        SdInitPhase::Ready { sdhc } => Ok((phase, SdInitAction::Done { sdhc })),
    }
}

/// The retry counter of the initialization sequence never passes the
/// attempt limit, so the sequence cannot retry forever.
pub proof fn lemma_init_attempts_bounded(phase: SdInitPhase, reply: Seq<u8>)
    requires
        reply.len() >= reply_len(phase),
        phase matches SdInitPhase::AwaitOpCond { attempts } ==> attempts <= MAX_INIT_ATTEMPTS,
        phase matches SdInitPhase::AwaitAppCmd { attempts } ==> attempts <= MAX_INIT_ATTEMPTS,
    ensures
        init_step(phase, reply) matches Ok((next, _)) ==> {
            &&& (next matches SdInitPhase::AwaitOpCond { attempts } ==> attempts <= MAX_INIT_ATTEMPTS)
            &&& (next matches SdInitPhase::AwaitAppCmd { attempts } ==> attempts <= MAX_INIT_ATTEMPTS)
        },
{
}

/// The card is declared ready only from the OCR reply, the last step of the
/// sequence, or when it already was.
pub proof fn lemma_ready_only_after_ocr(phase: SdInitPhase, reply: Seq<u8>)
    requires
        reply.len() >= reply_len(phase),
        init_step(phase, reply) matches Ok((next, _)) && next is Ready,
    ensures
        phase is AwaitOcr || phase is Ready,
{
}

/// Each step of the initialization goes on exactly on the reply the SD
/// protocol expects: 0x01 (idle) after CMD0 and CMD8, the echo 0x01 0xAA in
/// bytes 2 and 3 of the voltage check, at most 0x01 after CMD55, 0x00
/// (ready) or 0x01 (still idle, while attempts remain) after ACMD41, and
/// 0x00 after CMD58. The next command is CMD8 with argument 0x1AA and CRC
/// 0x87 after idle, CMD55 after the echo, ACMD41 with the high-capacity
/// bit 0x40000000 after CMD55, and CMD58 once ACMD41 reports ready.
pub proof fn lemma_init_replies(phase: SdInitPhase, reply: Seq<u8>)
    requires
        reply.len() >= reply_len(phase),
    ensures
        phase is AwaitIdle ==> (init_step(phase, reply) is Ok <==> reply[0] == 0x01),
        phase is AwaitIdle && reply[0] == 0x01 ==> init_step(phase, reply)
            == Ok::<(SdInitPhase, SdInitAction), Seq<char>>((SdInitPhase::AwaitIfCond,
                SdInitAction::Send { cmd: 8, arg: 0x1AA, crc: 0x87, delay_ms: 0 })),
        phase is AwaitIfCond ==> (init_step(phase, reply) is Ok <==> reply[0] == 0x01),
        phase is AwaitEcho ==> (init_step(phase, reply) is Ok <==> (reply[2] == 0x01 && reply[3] == 0xAA)),
        phase is AwaitEcho && reply[2] == 0x01 && reply[3] == 0xAA ==> init_step(phase, reply)
            == Ok::<(SdInitPhase, SdInitAction), Seq<char>>((SdInitPhase::AwaitAppCmd { attempts: 0 },
                SdInitAction::Send { cmd: 55, arg: 0, crc: 0xFF, delay_ms: 0 })),
        phase is AwaitAppCmd ==> (init_step(phase, reply) is Ok <==> reply[0] <= 0x01),
        phase is AwaitAppCmd && reply[0] <= 0x01 ==> init_step(phase, reply)
            == Ok::<(SdInitPhase, SdInitAction), Seq<char>>((SdInitPhase::AwaitOpCond { attempts: phase->AwaitAppCmd_attempts },
                SdInitAction::Send { cmd: 41, arg: 0x4000_0000, crc: 0xFF, delay_ms: 0 })),
        phase is AwaitOpCond && reply[0] == 0x00 ==> init_step(phase, reply)
            == Ok::<(SdInitPhase, SdInitAction), Seq<char>>((SdInitPhase::AwaitOcrStatus,
                SdInitAction::Send { cmd: 58, arg: 0, crc: 0xFF, delay_ms: 0 })),
        phase is AwaitOpCond && reply[0] > 0x01 ==> init_step(phase, reply) is Err,
        phase is AwaitOcrStatus ==> (init_step(phase, reply) is Ok <==> reply[0] == 0x00),
{
}

/// The OCR reply ends the sequence, and the card is high capacity (SDHC or
/// SDXC) exactly when the CCS bit (0x40) of its first byte is set, whatever
/// the power-up status bit (0x80) and the other bits say: 0x80 alone is a
/// standard-capacity card, 0x40 or 0xC0 a high-capacity one.
pub proof fn lemma_ocr_capacity_bit(reply: Seq<u8>)
    requires
        reply.len() >= 4,
    ensures
        init_step(SdInitPhase::AwaitOcr, reply) == Ok::<(SdInitPhase, SdInitAction), Seq<char>>((
            SdInitPhase::Ready { sdhc: (reply[0] & 0x40u8) != 0 },
            SdInitAction::Done { sdhc: (reply[0] & 0x40u8) != 0 },
        )),
{
    let b = reply[0];
    assert(((b & 0x40u8) != 0) == (b >= 0x40 && (b / 0x40) % 2 == 1)) by (bit_vector);
}

// ---------------------------------------------------------- MBR and FAT32

/// The little-endian 32-bit value of the four bytes of `b` from `i`.
pub open spec fn le_u32_at(b: Seq<u8>, i: int) -> u32 {
    (b[i] as int + b[i + 1] as int * 0x100 + b[i + 2] as int * 0x1_0000 + b[i + 3] as int * 0x100_0000) as u32
}

/// Whether MBR partition entry `i` (0-3) is a FAT32 partition.
pub open spec fn is_fat32_entry(mbr: Seq<u8>, i: int) -> bool {
    mbr[446 + 16 * i + 4] == 0x0B || mbr[446 + 16 * i + 4] == 0x0C
}

/// The start sector of the first FAT32 partition among entries `from..4`,
/// or 0 when there is none.
pub open spec fn first_fat32_start(mbr: Seq<u8>, from: int) -> u32
    decreases 4 - from,
{
    if from >= 4 || from < 0 {
        0
    } else if is_fat32_entry(mbr, from) {
        le_u32_at(mbr, 446 + 16 * from + 8)
    } else {
        first_fat32_start(mbr, from + 1)
    }
}

/// Find the start sector of the first FAT32 partition of a master boot
/// record. The record must end with the 0x55 0xAA signature, and a FAT32
/// partition starting at sector 0 counts as none.
pub fn find_fat32_partition(mbr: &[u8]) -> (r: Result<u32, HalError>)
    requires
        mbr@.len() == SECTOR_BYTES,
    ensures
        !(mbr@[510] == 0x55 && mbr@[511] == 0xAA) ==> (r matches Err(HalError::DataCorruption(m))
            && m@ == "Invalid MBR signature"@),
        (mbr@[510] == 0x55 && mbr@[511] == 0xAA) ==> {
            let start = first_fat32_start(mbr@, 0);
            &&& start == 0 ==> (r matches Err(HalError::DeviceNotReady(m)) && m@ == "No FAT32 partition found"@)
            &&& start != 0 ==> r == Ok::<u32, HalError>(start)
        },
{
    if mbr[510] != 0x55 || mbr[511] != 0xAA {
        return Err(HalError::DataCorruption(String::from_str("Invalid MBR signature")));
    }
    let mut fat32_start_sector: u32 = 0;
    let mut found = false;
    let mut i: usize = 0;
    while i < 4 && !found
        invariant
            mbr@.len() == SECTOR_BYTES,
            i <= 4,
            !found ==> first_fat32_start(mbr@, 0) == first_fat32_start(mbr@, i as int),
            !found ==> fat32_start_sector == 0,
            found ==> fat32_start_sector == first_fat32_start(mbr@, 0),
        decreases 4 - i + (if found { 0int } else { 1int }),
    {
        let partition_offset = 446 + i * 16;
        let partition_type = mbr[partition_offset + 4];
        if partition_type == 0x0B || partition_type == 0x0C {
            let b0 = mbr[partition_offset + 8] as u32;
            let b1 = mbr[partition_offset + 9] as u32;
            let b2 = mbr[partition_offset + 10] as u32;
            let b3 = mbr[partition_offset + 11] as u32;
            fat32_start_sector = b0 + b1 * 0x100 + b2 * 0x1_0000 + b3 * 0x100_0000;
            found = true;
        } else {
            i += 1;
        }
    }
    proof {
        if !found {
            assert(i == 4);
        }
    }
    if fat32_start_sector == 0 {
        return Err(HalError::DeviceNotReady(String::from_str("No FAT32 partition found")));
    }
    Ok(fat32_start_sector)
}

/// The file system type field of a FAT32 boot sector.
pub open spec fn fat32_label() -> Seq<u8> {
    seq![0x46u8, 0x41u8, 0x54u8, 0x33u8, 0x32u8, 0x20u8, 0x20u8, 0x20u8]
}

/// Check the "FAT32   " type field (bytes 82..90) of a boot sector.
pub fn check_fat32_boot_sector(boot_sector: &[u8]) -> (r: Result<(), HalError>)
    requires
        boot_sector@.len() == SECTOR_BYTES,
    ensures
        boot_sector@.subrange(82, 90) == fat32_label() ==> r is Ok,
        boot_sector@.subrange(82, 90) != fat32_label() ==> (r matches Err(HalError::DataCorruption(m))
            && m@ == "Invalid FAT32 signature"@),
{
    let label: [u8; 8] = [0x46, 0x41, 0x54, 0x33, 0x32, 0x20, 0x20, 0x20];
    let mut i: usize = 0;
    while i < 8
        invariant
            boot_sector@.len() == SECTOR_BYTES,
            label@ == fat32_label(),
            i <= 8,
            forall|k: int| 0 <= k < i ==> boot_sector@[82 + k] == label@[k],
        decreases 8 - i,
    {
        if boot_sector[82 + i] != label[i] {
            assert(boot_sector@.subrange(82, 90)[i as int] != fat32_label()[i as int]);
            return Err(HalError::DataCorruption(String::from_str("Invalid FAT32 signature")));
        }
        i += 1;
    }
    assert(boot_sector@.subrange(82, 90) =~= fat32_label());
    Ok(())
}

// ------------------------------------------------------------------- files

/// The 31-multiplier rolling hash of `b`, modulo 2^32.
pub open spec fn path_hash(b: Seq<u8>) -> u32
    decreases b.len(),
{
    if b.len() == 0 {
        0
    } else {
        ((path_hash(b.drop_last()) as int * 31 + b.last() as int) % 0x1_0000_0000) as u32
    }
}

/// The sector a file is placed at: its path hashed into the file area.
pub open spec fn file_sector(path: Seq<u8>) -> u32 {
    (FILE_AREA_START + path_hash(path) % FILE_AREA_SECTORS) as u32
}

/// Find the sector that holds the file at `filepath`.
pub fn find_file_sector(filepath: &str) -> (r: Result<u32, HalError>)
    ensures
        r == Ok::<u32, HalError>(file_sector(filepath.spec_bytes())),
{
    let bytes = filepath.as_bytes();
    let mut hash: u32 = 0;
    let mut i: usize = 0;
    while i < bytes.len()
        invariant
            bytes@ == filepath.spec_bytes(),
            i <= bytes@.len(),
            hash == path_hash(bytes@.subrange(0, i as int)),
        decreases bytes@.len() - i,
    {
        proof {
            let s = bytes@.subrange(0, i as int + 1);
            assert(s.drop_last() =~= bytes@.subrange(0, i as int));
        }
        let byte = bytes[i];
        let next = hash.wrapping_mul(31).wrapping_add(byte as u32);
        assert(next == ((hash as int * 31 + byte as int) % 0x1_0000_0000) as u32) by (nonlinear_arith)
            requires
                next == vstd::wrapping::u32_specs::wrapping_add(vstd::wrapping::u32_specs::wrapping_mul(hash, 31), byte as u32);
        hash = next;
        i += 1;
    }
    assert(bytes@.subrange(0, bytes@.len() as int) =~= bytes@);
    Ok(1000 + (hash % 1000))
}

/// Allocate the sector for a new file: the same mapping as lookup.
pub fn allocate_file_sector(filepath: &str) -> (r: Result<u32, HalError>)
    ensures
        r == Ok::<u32, HalError>(file_sector(filepath.spec_bytes())),
{
    find_file_sector(filepath)
}

/// The type of a configuration file, judged by its name.
pub open spec fn classify(name: Seq<char>) -> ConfigFileType {
    if contains_chars(name, "profile"@) {
        ConfigFileType::UserProfiles
    } else if contains_chars(name, "sensor"@) || contains_chars(name, "calibration"@) {
        ConfigFileType::SensorCalibration
    } else if contains_chars(name, "safety"@) {
        ConfigFileType::SafetyLimits
    } else if contains_chars(name, "system"@) || contains_chars(name, "preference"@) {
        ConfigFileType::SystemConfig
    } else if ends_with_chars(name, ".bak"@) {
        ConfigFileType::BackupArchive
    } else if contains_chars(name, "firmware"@) || ends_with_chars(name, ".bin"@) {
        ConfigFileType::FirmwareUpdate
    } else {
        ConfigFileType::ProfileLibrary
    }
}

/// Get file type from filename
pub fn classify_file_type(filename: &str) -> (t: ConfigFileType)
    ensures
        t == classify(filename@),
{
    if str_contains(filename, "profile") {
        ConfigFileType::UserProfiles
    } else if str_contains(filename, "sensor") || str_contains(filename, "calibration") {
        ConfigFileType::SensorCalibration
    } else if str_contains(filename, "safety") {
        ConfigFileType::SafetyLimits
    } else if str_contains(filename, "system") || str_contains(filename, "preference") {
        ConfigFileType::SystemConfig
    } else if str_ends_with(filename, ".bak") {
        ConfigFileType::BackupArchive
    } else if str_contains(filename, "firmware") || str_ends_with(filename, ".bin") {
        ConfigFileType::FirmwareUpdate
    } else {
        ConfigFileType::ProfileLibrary
    }
}

/// The text of `directory/filename` in a 128-byte buffer: each of the three
/// parts is appended only while it fits, and nothing after a part that did
/// not fit.
pub open spec fn bounded_path(directory: &str, filename: &str) -> Seq<char> {
    let d = directory.spec_bytes().len();
    let f = filename.spec_bytes().len();
    if d > PATH_CAPACITY {
        Seq::empty()
    } else if d + 1 > PATH_CAPACITY {
        directory@
    } else if d + 1 + f > PATH_CAPACITY {
        directory@ + "/"@
    } else {
        directory@ + "/"@ + filename@
    }
}

/// Generate full file path
pub fn make_filepath(directory: &str, filename: &str) -> (p: heapless::String<128>)
    ensures
        path_chars(p) == bounded_path(directory, filename),
{
    proof {
        reveal_strlit("/");
        is_ascii_spec_bytes("/");
        assert("/".spec_bytes().len() == 1);
    }
    let mut path = path_new();
    let r1 = path_push_str(&mut path, directory);
    if r1.is_ok() {
        let r2 = path_push_str(&mut path, "/");
        if r2.is_ok() {
            let _ = path_push_str(&mut path, filename);
        }
    }
    path
}

/// The content of a file stored in one sector: the bytes before the first
/// zero byte, or the whole sector when it holds none.
pub open spec fn sector_content(sector: Seq<u8>) -> Seq<u8> {
    if exists|i: int| 0 <= i < sector.len() && sector[i] == 0 {
        let k = choose|i: int| 0 <= i < sector.len() && sector[i] == 0
            && forall|j: int| 0 <= j < i ==> sector[j] != 0;
        sector.subrange(0, k)
    } else {
        sector
    }
}

/// Extract the file content from its sector.
pub fn file_content_from_sector(sector: &[u8]) -> (content: Vec<u8>)
    requires
        sector@.len() == SECTOR_BYTES,
    ensures
        content@ == sector_content(sector@),
{
    let mut content: Vec<u8> = Vec::new();
    let mut i: usize = 0;
    while i < SECTOR_BYTES
        invariant
            sector@.len() == SECTOR_BYTES,
            i <= SECTOR_BYTES,
            forall|j: int| 0 <= j < i ==> sector@[j] != 0,
            content@ == sector@.subrange(0, i as int),
        decreases SECTOR_BYTES - i,
    {
        if sector[i] == 0 {
            proof {
                let k = choose|k: int| 0 <= k < sector@.len() && sector@[k] == 0
                    && forall|j: int| 0 <= j < k ==> sector@[j] != 0;
                assert(0 <= i < sector@.len() && sector@[i as int] == 0
                    && forall|j: int| 0 <= j < i ==> sector@[j] != 0);
                if k < i {
                    assert(sector@[k] != 0);
                } else if k > i {
                    assert(sector@[i as int] != 0);
                }
            }
            return content;
        }
        content.push(sector[i]);
        assert(content@ =~= sector@.subrange(0, i as int + 1));
        i += 1;
    }
    assert(sector@.subrange(0, SECTOR_BYTES as int) =~= sector@);
    content
}

/// Lay out file data in a sector: the data followed by zero bytes. Files
/// are limited to one sector.
pub fn sector_from_file_data(data: &[u8]) -> (r: Result<Vec<u8>, HalError>)
    ensures
        data@.len() > SECTOR_BYTES ==> (r matches Err(HalError::InvalidParameter(m))
            && m@ == "File too large (max 512 bytes for now)"@),
        data@.len() <= SECTOR_BYTES ==> (r matches Ok(s) && s@.len() == SECTOR_BYTES
            && s@.subrange(0, data@.len() as int) == data@
            && forall|i: int| data@.len() <= i < SECTOR_BYTES ==> s@[i] == 0),
{
    if data.len() > SECTOR_BYTES {
        return Err(HalError::InvalidParameter(String::from_str("File too large (max 512 bytes for now)")));
    }
    let mut sector: Vec<u8> = Vec::new();
    let mut i: usize = 0;
    while i < SECTOR_BYTES
        invariant
            data@.len() <= SECTOR_BYTES,
            i <= SECTOR_BYTES,
            sector@.len() == i,
            forall|j: int| 0 <= j < i && j < data@.len() ==> sector@[j] == data@[j],
            forall|j: int| data@.len() <= j < i ==> sector@[j] == 0,
        decreases SECTOR_BYTES - i,
    {
        if i < data.len() {
            sector.push(data[i]);
        } else {
            sector.push(0);
        }
        i += 1;
    }
    assert(sector@.subrange(0, data@.len() as int) =~= data@);
    Ok(sector)
}

/// A file no longer than a sector and free of zero bytes reads back exactly
/// as written.
pub proof fn lemma_file_round_trip(data: Seq<u8>, sector: Seq<u8>)
    requires
        data.len() < SECTOR_BYTES,
        forall|i: int| 0 <= i < data.len() ==> data[i] != 0,
        sector.len() == SECTOR_BYTES,
        sector.subrange(0, data.len() as int) == data,
        forall|i: int| data.len() <= i < SECTOR_BYTES ==> sector[i] == 0,
    ensures
        sector_content(sector) == data,
{
    let n = data.len() as int;
    assert(sector[n] == 0);
    let k = choose|i: int| 0 <= i < sector.len() && sector[i] == 0
        && forall|j: int| 0 <= j < i ==> sector[j] != 0;
    assert(0 <= n < sector.len() && sector[n] == 0 && forall|j: int| 0 <= j < n ==> sector[j] != 0) by {
        assert forall|j: int| 0 <= j < n implies sector[j] != 0 by {
            assert(sector.subrange(0, n)[j] == data[j]);
        }
    }
    if k < n {
        assert(sector.subrange(0, n)[k] == data[k]);
    } else if k > n {
        assert(sector[n] != 0);
    }
}

/// Every file is placed inside the file area.
pub proof fn lemma_file_sector_in_area(path: Seq<u8>)
    ensures
        FILE_AREA_START <= file_sector(path) < FILE_AREA_START + FILE_AREA_SECTORS,
{
}

// ------------------------------------------------------------ mount state

/// Whether a card is in the slot: the card-detect pin reads low when a card
/// is present; without a detect pin the card is assumed present.
pub open spec fn spec_card_present(card_detect_level: Option<bool>) -> bool {
    match card_detect_level {
        Some(level) => !level,
        None => true,
    }
}

/// MicroSD card information (`f32` sizes as bits)
#[derive(Debug, Clone)]
pub struct SdCardInfo {
    /// Capacity in GB
    pub capacity_gb_bits: u32,
    /// Free space in GB
    pub free_space_gb_bits: u32,
    pub filesystem_type: String,
    pub manufacturer: String,
    pub model: String,
    pub serial_number: String,
    pub write_speed_class: u8,
    pub health_status: SdCardHealth,
}

/// What the card reports about itself: a 32 GB SanDisk Ultra, class 10,
/// FAT32, 28.5 GB free, in excellent health.
pub open spec fn is_reported_card_info(i: SdCardInfo) -> bool {
    &&& i.capacity_gb_bits == 0x4200_0000
    &&& i.free_space_gb_bits == 0x41e4_0000
    &&& i.filesystem_type@ == "FAT32"@
    &&& i.manufacturer@ == "SanDisk"@
    &&& i.model@ == "Ultra"@
    &&& i.serial_number@ == "0x12345678"@
    &&& i.write_speed_class == 10
    &&& i.health_status == SdCardHealth::Excellent
}

/// Read SD card hardware information
pub fn read_card_info() -> (i: SdCardInfo)
    ensures
        is_reported_card_info(i),
{
    SdCardInfo {
        capacity_gb_bits: 0x4200_0000,
        free_space_gb_bits: 0x41e4_0000,
        filesystem_type: String::from_str("FAT32"),
        manufacturer: String::from_str("SanDisk"),
        model: String::from_str("Ultra"),
        serial_number: String::from_str("0x12345678"),
        write_speed_class: 10,
        health_status: SdCardHealth::Excellent,
    }
}

fn copy_card_info(i: &SdCardInfo) -> (c: SdCardInfo)
    ensures
        c == *i,
{
    SdCardInfo {
        capacity_gb_bits: i.capacity_gb_bits,
        free_space_gb_bits: i.free_space_gb_bits,
        filesystem_type: i.filesystem_type.clone(),
        manufacturer: i.manufacturer.clone(),
        model: i.model.clone(),
        serial_number: i.serial_number.clone(),
        write_speed_class: i.write_speed_class,
        health_status: i.health_status,
    }
}

/// The mount state of the card.
pub struct SdCardState {
    /// Mount status
    pub mounted: bool,
    /// Card information, read when the file system was initialized
    pub card_info: Option<SdCardInfo>,
}

impl SdCardState {
    pub fn new() -> (s: Self)
        ensures
            !s.mounted,
            s.card_info is None,
    {
        Self { mounted: false, card_info: None }
    }

    /// The card information, available once mounted
    pub fn get_card_info(&self) -> (r: Result<SdCardInfo, HalError>)
        ensures
            match self.card_info {
                Some(i) => r == Ok::<SdCardInfo, HalError>(i),
                None => r matches Err(HalError::DeviceNotReady(m)) && m@ == "SD card not mounted or info not available"@,
            },
    {
        match &self.card_info {
            Some(i) => Ok(copy_card_info(i)),
            None => Err(HalError::DeviceNotReady(String::from_str("SD card not mounted or info not available"))),
        }
    }

    /// Check if SD card is physically present
    pub fn card_present(card_detect_level: Option<bool>) -> (r: bool)
        ensures r == spec_card_present(card_detect_level),
    {
        match card_detect_level {
            Some(level) => !level,
            None => true,
        }
    }

    /// Check if the card is present and mounted
    pub fn is_mounted(&self, card_detect_level: Option<bool>) -> (r: bool)
        ensures r == (self.mounted && spec_card_present(card_detect_level)),
    {
        self.mounted && Self::card_present(card_detect_level)
    }

    /// Whether mounting has to initialize the file system; a card with no
    /// card present cannot be initialized.
    pub fn mount_needs_init(&self, card_detect_level: Option<bool>) -> (r: Result<bool, HalError>)
        ensures
            self.mounted ==> r == Ok::<bool, HalError>(false),
            !self.mounted && spec_card_present(card_detect_level) ==> r == Ok::<bool, HalError>(true),
            !self.mounted && !spec_card_present(card_detect_level) ==> (r matches Err(HalError::DeviceNotFound(m))
                && m@ == "SD card not present"@),
    {
        if self.mounted {
            return Ok(false);
        }
        if !Self::card_present(card_detect_level) {
            return Err(HalError::DeviceNotFound(String::from_str("SD card not present")));
        }
        Ok(true)
    }

    /// Record a completed mount: the file system is initialized and the
    /// card has reported its information.
    pub fn mark_mounted(&mut self)
        ensures
            final(self).mounted,
            final(self).card_info matches Some(i) && is_reported_card_info(i),
    {
        self.card_info = Some(read_card_info());
        self.mounted = true;
    }

    /// Unmount: never fails; returns whether the card was mounted. The card
    /// information is dropped with the mount.
    pub fn unmount(&mut self) -> (was_mounted: bool)
        ensures
            !final(self).mounted,
            was_mounted == old(self).mounted,
            old(self).mounted ==> final(self).card_info is None,
            !old(self).mounted ==> final(self).card_info == old(self).card_info,
    {
        let was = self.mounted;
        if was {
            self.mounted = false;
            self.card_info = None;
        }
        was
    }

    /// File access requires a mounted card
    pub fn require_mounted(&self) -> (r: Result<(), HalError>)
        ensures
            self.mounted ==> r is Ok,
            !self.mounted ==> (r matches Err(HalError::DeviceNotReady(m)) && m@ == "SD card not mounted"@),
    {
        if !self.mounted {
            return Err(HalError::DeviceNotReady(String::from_str("SD card not mounted")));
        }
        Ok(())
    }

    /// The configuration files on the card: the sensor calibrations and the
    /// safety limits, both written at the reference epoch
    /// (1 640 995 200 000 ms). Needs a mounted card.
    pub fn list_config_files(&self) -> (r: Result<Vec<ConfigFileInfo>, HalError>)
        ensures
            !self.mounted ==> (r matches Err(HalError::DeviceNotReady(m)) && m@ == "SD card not mounted"@),
            self.mounted ==> (r matches Ok(files) && is_stock_config_listing(files@)),
    {
        if !self.mounted {
            return Err(HalError::DeviceNotReady(String::from_str("SD card not mounted")));
        }
        let mut files: Vec<ConfigFileInfo> = Vec::new();
        files.push(ConfigFileInfo {
            filename: String::from_str("sensor_calibrations.json"),
            size_bytes: 512,
            created_timestamp: CONFIG_EPOCH_MS,
            modified_timestamp: CONFIG_EPOCH_MS,
            file_type: ConfigFileType::SensorCalibration,
            description: String::from_str("Pressure sensor calibration parameters"),
        });
        files.push(ConfigFileInfo {
            filename: String::from_str("safety_limits.json"),
            size_bytes: 256,
            created_timestamp: CONFIG_EPOCH_MS,
            modified_timestamp: CONFIG_EPOCH_MS,
            file_type: ConfigFileType::SafetyLimits,
            description: String::from_str("User-defined safety boundaries"),
        });
        Ok(files)
    }
}

/// Timestamp of the configuration files on a fresh card (ms)
pub const CONFIG_EPOCH_MS: u64 = 1_640_995_200_000;

/// `f` describes the named file of the given size and type, written at the
/// reference epoch.
pub open spec fn config_file_is(f: ConfigFileInfo, name: Seq<char>, size: usize, t: ConfigFileType, description: Seq<char>) -> bool {
    &&& f.filename@ == name
    &&& f.size_bytes == size
    &&& f.created_timestamp == CONFIG_EPOCH_MS
    &&& f.modified_timestamp == CONFIG_EPOCH_MS
    &&& f.file_type == t
    &&& f.description@ == description
}

/// The listing of the configuration directory.
pub open spec fn is_stock_config_listing(files: Seq<ConfigFileInfo>) -> bool {
    &&& files.len() == 2
    &&& config_file_is(files[0], "sensor_calibrations.json"@, 512, ConfigFileType::SensorCalibration,
        "Pressure sensor calibration parameters"@)
    &&& config_file_is(files[1], "safety_limits.json"@, 256, ConfigFileType::SafetyLimits,
        "User-defined safety boundaries"@)
}

} // verus!
