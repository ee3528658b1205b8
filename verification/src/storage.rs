//! Non-volatile storage: EEPROM emulation with a byte cache, per-region wear
//! counters and a fixed section layout for configuration, learned data,
//! calibration data and the safety log.

use vstd::prelude::*;
use crate::error::HalError;
use crate::text::{decimal, message_with_number};

verus! {

/// EEPROM size in bytes (4KB)
pub const EEPROM_SIZE: usize = 4096;

/// Size of one wear-tracking region and of one erase sector
pub const SECTOR_SIZE: usize = 512;

/// Number of wear-tracking regions
pub const REGION_COUNT: usize = 8;

/// Configuration data storage offset and size
pub const CONFIG_OFFSET: usize = 0;
pub const CONFIG_SIZE: usize = 512;

/// Learned data storage offset and size
pub const LEARNED_DATA_OFFSET: usize = CONFIG_SIZE;
pub const LEARNED_DATA_SIZE: usize = 2048;

/// Calibration data storage offset and size
pub const CALIBRATION_OFFSET: usize = CONFIG_SIZE + LEARNED_DATA_SIZE;
pub const CALIBRATION_SIZE: usize = 1024;

/// Safety log storage offset and size
pub const SAFETY_LOG_OFFSET: usize = CONFIG_SIZE + LEARNED_DATA_SIZE + CALIBRATION_SIZE;
pub const SAFETY_LOG_SIZE: usize = 512;

/// EEPROM wear limit per region (conservative estimate)
pub const EEPROM_WEAR_LIMIT: u32 = 100_000;

/// Storage region health status
#[derive(Debug, Clone, Copy, PartialEq, Eq, Structural)]
pub enum StorageHealth {
    Excellent,
    Good,
    Warning,
    Critical,
    Failed,
}

/// The health of a region written `write_count` times: the wear percentage
/// is `write_count / EEPROM_WEAR_LIMIT * 100`, graded below 50%, 80%, 95%
/// and 100%.
pub open spec fn health_for_writes(write_count: nat) -> StorageHealth {
    if write_count * 100 < 50 * EEPROM_WEAR_LIMIT {
        StorageHealth::Excellent
    } else if write_count * 100 < 80 * EEPROM_WEAR_LIMIT {
        StorageHealth::Good
    } else if write_count * 100 < 95 * EEPROM_WEAR_LIMIT {
        StorageHealth::Warning
    } else if write_count * 100 < 100 * EEPROM_WEAR_LIMIT {
        StorageHealth::Critical
    } else {
        StorageHealth::Failed
    }
}

/// Sum of the bytes of `s`.
pub open spec fn byte_sum(s: Seq<u8>) -> nat
    decreases s.len(),
{
    if s.len() == 0 { 0 } else { byte_sum(s.drop_last()) + s.last() as nat }
}

/// The 16-bit wrapping sum of the bytes of `s`.
pub open spec fn checksum16(s: Seq<u8>) -> u16 {
    (byte_sum(s) % 0x10000) as u16
}

/// Every byte of `[start, end)` reads 0xFF, as erased EEPROM does.
pub open spec fn range_erased(bytes: Seq<u8>, start: int, end: int) -> bool {
    forall|i: int| start <= i < end ==> bytes[i] == 0xFFu8
}

/// The storage image passes validation: the configuration section's sum is
/// neither 0 nor 0xFFFF and the section is not erased, and learned data or
/// calibration holds something.
pub open spec fn layout_valid(bytes: Seq<u8>) -> bool {
    let config = checksum16(bytes.subrange(CONFIG_OFFSET as int, (CONFIG_OFFSET + CONFIG_SIZE) as int));
    let learned = checksum16(bytes.subrange(LEARNED_DATA_OFFSET as int, (LEARNED_DATA_OFFSET + LEARNED_DATA_SIZE) as int));
    let cal = checksum16(bytes.subrange(CALIBRATION_OFFSET as int, (CALIBRATION_OFFSET + CALIBRATION_SIZE) as int));
    &&& config != 0
    &&& config != 0xFFFF
    &&& !range_erased(bytes, CONFIG_OFFSET as int, (CONFIG_OFFSET + CONFIG_SIZE) as int)
    &&& (learned != 0 || cal != 0)
}

/// The largest value of `s`, or 0 when `s` is empty.
pub open spec fn seq_max(s: Seq<u32>) -> u32
    decreases s.len(),
{
    if s.len() == 0 {
        0
    } else {
        let m = seq_max(s.drop_last());
        if s.last() > m { s.last() } else { m }
    }
}

/// `base` with the bytes `[start, start + data.len())` replaced by `data`.
pub open spec fn splice(base: Seq<u8>, start: int, data: Seq<u8>) -> Seq<u8> {
    base.subrange(0, start) + data + base.subrange(start + data.len(), base.len() as int)
}

/// `base` with the bytes `[start, end)` set to the erased value 0xFF.
pub open spec fn erased(base: Seq<u8>, start: int, end: int) -> Seq<u8> {
    Seq::new(base.len(), |i: int| if start <= i < end { 0xFFu8 } else { base[i] })
}

/// The first erase-sector boundary at or below `offset`.
pub open spec fn sector_start(offset: int) -> int {
    (offset / SECTOR_SIZE as int) * SECTOR_SIZE as int
}

/// The error text for an access beyond the EEPROM.
pub open spec fn out_of_range_text(prefix: Seq<char>, address: u32) -> Seq<char> {
    prefix + decimal(address as nat) + " exceeds EEPROM size"@
}

/// Teensy 4.1 non-volatile storage implementation
pub struct Teensy41Storage {
    /// EEPROM buffer for caching
    eeprom_cache: [u8; EEPROM_SIZE],
    /// Write cycle counters for wear leveling awareness
    write_counters: [u32; REGION_COUNT],
    /// Storage initialization timestamp for uptime tracking
    init_timestamp: u64,
}

impl Teensy41Storage {
    /// The EEPROM contents.
    pub closed spec fn bytes(&self) -> Seq<u8> {
        self.eeprom_cache@
    }

    /// The number of writes and erases recorded for each region.
    pub closed spec fn wear(&self) -> Seq<u32> {
        self.write_counters@
    }

    /// The cache covers the whole EEPROM and there is one counter per region.
    pub open spec fn wf(&self) -> bool {
        &&& self.bytes().len() == EEPROM_SIZE
        &&& self.wear().len() == REGION_COUNT
    }

    /// Whether the region that holds `address` can count one more write.
    pub open spec fn can_record_write(&self, address: u32) -> bool {
        address < EEPROM_SIZE ==> self.wear()[address as int / SECTOR_SIZE as int] < u32::MAX
    }

    /// Create a storage controller whose cache holds `contents`, the bytes
    /// read from the EEPROM at start-up.
    pub fn with_contents(contents: [u8; EEPROM_SIZE]) -> (r: Result<Self, HalError>)
        ensures
            r matches Ok(s) && s.wf() && s.bytes() == contents@
                && s.wear() == Seq::new(REGION_COUNT as nat, |i: int| 0u32),
    {
        let s = Self { eeprom_cache: contents, write_counters: [0u32; REGION_COUNT], init_timestamp: 0 };
        assert(s.wear() =~= Seq::new(REGION_COUNT as nat, |i: int| 0u32));
        Ok(s)
    }

    /// Create a storage controller whose cache starts zeroed, as it does
    /// when no EEPROM contents are loaded.
    pub fn new() -> (r: Result<Self, HalError>)
        ensures
            r matches Ok(s) && s.wf() && s.bytes() == Seq::new(EEPROM_SIZE as nat, |i: int| 0u8)
                && s.wear() == Seq::new(REGION_COUNT as nat, |i: int| 0u32),
    {
        let contents = [0u8; EEPROM_SIZE];
        assert(contents@ =~= Seq::new(EEPROM_SIZE as nat, |i: int| 0u8));
        Self::with_contents(contents)
    }

    /// Get region index for address
    fn get_region_index(&self, offset: usize) -> (r: usize)
        ensures
            r == offset / SECTOR_SIZE,
    {
        offset / 512
    }

    /// Validate storage layout and detect corruption
    pub fn validate_storage(&mut self) -> (r: Result<bool, HalError>)
        requires
            old(self).wf(),
        ensures
            *final(self) == *old(self),
            r == Ok::<bool, HalError>(layout_valid(old(self).bytes())),
    {
        let config_checksum = self.calculate_checksum(CONFIG_OFFSET, CONFIG_SIZE);
        let learned_checksum = self.calculate_checksum(LEARNED_DATA_OFFSET, LEARNED_DATA_SIZE);
        let cal_checksum = self.calculate_checksum(CALIBRATION_OFFSET, CALIBRATION_SIZE);

        let config_erased = self.is_erased(CONFIG_OFFSET, CONFIG_SIZE);
        let config_valid = config_checksum != 0 && config_checksum != 0xFFFF && !config_erased;
        let learned_valid = learned_checksum != 0;
        let cal_valid = cal_checksum != 0;

        Ok(config_valid && (learned_valid || cal_valid))
    }

    /// Whether every byte of `[offset, offset + len)` reads 0xFF.
    fn is_erased(&self, offset: usize, len: usize) -> (r: bool)
        requires
            self.wf(),
            offset + len <= EEPROM_SIZE,
        ensures
            r == range_erased(self.bytes(), offset as int, offset + len),
    {
        let mut i = offset;
        while i < offset + len
            invariant
                self.wf(),
                offset <= i <= offset + len,
                offset + len <= EEPROM_SIZE,
                range_erased(self.bytes(), offset as int, i as int),
            decreases offset + len - i,
        {
            if self.eeprom_cache[i] != 0xFF {
                return false;
            }
            i = i + 1;
        }
        true
    }

    /// Calculate simple 16-bit checksum for data validation
    fn calculate_checksum(&self, offset: usize, len: usize) -> (r: u16)
        requires
            self.wf(),
            offset + len <= usize::MAX,
        ensures
            r == (if offset < EEPROM_SIZE {
                checksum16(self.bytes().subrange(offset as int, if offset + len < EEPROM_SIZE { offset + len } else { EEPROM_SIZE as int }))
            } else {
                0u16
            }),
    {
        let mut checksum: u16 = 0;
        let end = if offset + len < EEPROM_SIZE { offset + len } else { EEPROM_SIZE };
        let mut i = offset;
        while i < end
            invariant
                self.wf(),
                end <= EEPROM_SIZE,
                offset <= i,
                i <= end || (i == offset && end < offset),
                i <= end ==> checksum == checksum16(self.bytes().subrange(offset as int, i as int)),
                end < offset ==> checksum == 0,
            decreases end - i,
        {
            proof {
                let s = self.bytes().subrange(offset as int, i as int + 1);
                assert(s.drop_last() =~= self.bytes().subrange(offset as int, i as int));
                assert(s.last() == self.bytes()[i as int]);
            }
            checksum = checksum.wrapping_add(self.eeprom_cache[i] as u16);
            i += 1;
        }
        proof {
            if offset < EEPROM_SIZE {
                assert(i == end);
            }
        }
        checksum
    }

    /// Calculate health status based on write count
    fn calculate_health_status(write_count: u32) -> (h: StorageHealth)
        ensures
            h == health_for_writes(write_count as nat),
    {
        if write_count < 50_000 {
            StorageHealth::Excellent
        } else if write_count < 80_000 {
            StorageHealth::Good
        } else if write_count < 95_000 {
            StorageHealth::Warning
        } else if write_count < EEPROM_WEAR_LIMIT {
            StorageHealth::Critical
        } else {
            StorageHealth::Failed
        }
    }

    /// Get current wear statistics
    pub fn get_wear_stats(&self) -> (w: [u32; REGION_COUNT])
        requires
            self.wf(),
        ensures
            w@ == self.wear(),
    {
        self.write_counters
    }

    /// Get overall storage health: that of the most written region
    pub fn get_health_status(&self) -> (h: StorageHealth)
        requires
            self.wf(),
        ensures
            h == health_for_writes(seq_max(self.wear()) as nat),
    {
        let mut max_writes: u32 = 0;
        let mut i: usize = 0;
        while i < REGION_COUNT
            invariant
                self.wf(),
                i <= REGION_COUNT,
                max_writes == seq_max(self.wear().subrange(0, i as int)),
            decreases REGION_COUNT - i,
        {
            proof {
                let s = self.wear().subrange(0, i as int + 1);
                assert(s.drop_last() =~= self.wear().subrange(0, i as int));
            }
            if self.write_counters[i] > max_writes {
                max_writes = self.write_counters[i];
            }
            i += 1;
        }
        assert(self.wear().subrange(0, REGION_COUNT as int) =~= self.wear());
        Self::calculate_health_status(max_writes)
    }

    /// Read data from storage into `buffer`: as many bytes as fit both in
    /// the buffer and before the end of the EEPROM.
    pub fn read(&mut self, address: u32, buffer: &mut [u8]) -> (r: Result<(), HalError>)
        requires
            old(self).wf(),
        ensures
            *final(self) == *old(self),
            address >= EEPROM_SIZE ==> (r matches Err(HalError::InvalidParameter(m))
                && m@ == out_of_range_text("Read address "@, address)
                && final(buffer)@ == old(buffer)@),
            address < EEPROM_SIZE ==> r is Ok && {
                let n = if old(buffer)@.len() < EEPROM_SIZE - address { old(buffer)@.len() as int } else { EEPROM_SIZE - address };
                final(buffer)@ == old(self).bytes().subrange(address as int, address + n)
                    + old(buffer)@.subrange(n, old(buffer)@.len() as int)
            },
    {
        let offset = address as usize;
        if offset >= EEPROM_SIZE {
            let m = message_with_number("Read address ", address as u64, " exceeds EEPROM size");
            return Err(HalError::invalid_parameter(m));
        }
        let read_len = if buffer.len() < EEPROM_SIZE - offset { buffer.len() } else { EEPROM_SIZE - offset };
        let ghost before = buffer@;
        let mut i: usize = 0;
        while i < read_len
            invariant
                self.wf(),
                offset < EEPROM_SIZE,
                read_len <= buffer@.len(),
                offset + read_len <= EEPROM_SIZE,
                i <= read_len,
                buffer@.len() == before.len(),
                buffer@ =~= self.bytes().subrange(offset as int, offset + i)
                    + before.subrange(i as int, before.len() as int),
            decreases read_len - i,
        {
            buffer[i] = self.eeprom_cache[offset + i];
            i += 1;
        }
        Ok(())
    }

    /// Write data to storage: as many bytes of `data` as fit before the end
    /// of the EEPROM, counting one write for the region of `address`.
    pub fn write(&mut self, address: u32, data: &[u8]) -> (r: Result<(), HalError>)
        requires
            old(self).wf(),
            old(self).can_record_write(address),
        ensures
            final(self).wf(),
            address >= EEPROM_SIZE ==> (r matches Err(HalError::InvalidParameter(m))
                && m@ == out_of_range_text("Write address "@, address)
                && *final(self) == *old(self)),
            address < EEPROM_SIZE ==> r is Ok && {
                let n = if data@.len() < EEPROM_SIZE - address { data@.len() as int } else { EEPROM_SIZE - address };
                let region = address as int / SECTOR_SIZE as int;
                &&& final(self).bytes() == splice(old(self).bytes(), address as int, data@.subrange(0, n))
                &&& final(self).wear() == old(self).wear().update(region, (old(self).wear()[region] + 1) as u32)
            },
    {
        let offset = address as usize;
        if offset >= EEPROM_SIZE {
            let m = message_with_number("Write address ", address as u64, " exceeds EEPROM size");
            return Err(HalError::invalid_parameter(m));
        }
        let write_len = if data.len() < EEPROM_SIZE - offset { data.len() } else { EEPROM_SIZE - offset };
        let ghost before = self.bytes();
        let mut i: usize = 0;
        while i < write_len
            invariant
                self.wf(),
                offset < EEPROM_SIZE,
                write_len <= data@.len(),
                offset + write_len <= EEPROM_SIZE,
                i <= write_len,
                before.len() == EEPROM_SIZE,
                self.wear() == old(self).wear(),
                self.bytes() =~= before.subrange(0, offset as int)
                    + data@.subrange(0, i as int)
                    + before.subrange(offset + i, EEPROM_SIZE as int),
            decreases write_len - i,
        {
            self.eeprom_cache[offset + i] = data[i];
            i += 1;
        }
        let region = self.get_region_index(offset);
        if region < REGION_COUNT {
            self.write_counters[region] = self.write_counters[region] + 1;
        }
        assert(self.bytes() =~= splice(before, offset as int, data@.subrange(0, write_len as int)));
        Ok(())
    }

    /// Erase the 512-byte sector that holds `address`: every byte of it
    /// becomes 0xFF, and one write is counted for its region.
    pub fn erase_sector(&mut self, address: u32) -> (r: Result<(), HalError>)
        requires
            old(self).wf(),
            old(self).can_record_write(address),
        ensures
            final(self).wf(),
            address >= EEPROM_SIZE ==> (r matches Err(HalError::InvalidParameter(m))
                && m@ == out_of_range_text("Erase address "@, address)
                && *final(self) == *old(self)),
            address < EEPROM_SIZE ==> r is Ok && {
                let start = sector_start(address as int);
                let region = address as int / SECTOR_SIZE as int;
                &&& final(self).bytes() == erased(old(self).bytes(), start, start + SECTOR_SIZE)
                &&& final(self).wear() == old(self).wear().update(region, (old(self).wear()[region] + 1) as u32)
            },
    {
        let offset = address as usize;
        if offset >= EEPROM_SIZE {
            let m = message_with_number("Erase address ", address as u64, " exceeds EEPROM size");
            return Err(HalError::invalid_parameter(m));
        }
        let erase_start = (offset / SECTOR_SIZE) * SECTOR_SIZE;
        let erase_end = if erase_start + SECTOR_SIZE < EEPROM_SIZE { erase_start + SECTOR_SIZE } else { EEPROM_SIZE };
        assert(erase_end == erase_start + SECTOR_SIZE);
        let ghost before = self.bytes();
        let mut i = erase_start;
        while i < erase_end
            invariant
                self.wf(),
                erase_start <= i <= erase_end,
                erase_end <= EEPROM_SIZE,
                before.len() == EEPROM_SIZE,
                self.wear() == old(self).wear(),
                self.bytes() =~= erased(before, erase_start as int, i as int),
            decreases erase_end - i,
        {
            self.eeprom_cache[i] = 0xFF;
            i += 1;
        }
        let region = self.get_region_index(offset);
        if region < REGION_COUNT {
            self.write_counters[region] = self.write_counters[region] + 1;
        }
        Ok(())
    }

    /// Get storage capacity in bytes
    pub fn capacity(&self) -> (c: u32)
        ensures
            c == EEPROM_SIZE,
    {
        EEPROM_SIZE as u32
    }

    /// Periodic maintenance. The EEPROM needs no wear levelling, so this
    /// only reports the health state for monitoring; it never fails and
    /// changes nothing.
    pub fn maintenance(&mut self) -> (r: Result<StorageHealth, HalError>)
        requires
            old(self).wf(),
        ensures
            *final(self) == *old(self),
            r == Ok::<StorageHealth, HalError>(health_for_writes(seq_max(old(self).wear()) as nat)),
    {
        let health_status = self.get_health_status();
        Ok(health_status)
    }
}

/// Storage section accessor for type-safe access
pub struct StorageSection {
    offset: usize,
    size: usize,
}

impl StorageSection {
    /// The first byte of the section.
    pub closed spec fn spec_offset(&self) -> usize {
        self.offset
    }

    /// The length of the section in bytes.
    pub closed spec fn spec_size(&self) -> usize {
        self.size
    }

    pub fn new(offset: usize, size: usize) -> (s: Self)
        ensures
            s.spec_offset() == offset,
            s.spec_size() == size,
    {
        Self { offset, size }
    }

    /// Configuration data section
    pub fn config() -> (s: Self)
        ensures s.spec_offset() == CONFIG_OFFSET && s.spec_size() == CONFIG_SIZE,
    {
        Self::new(CONFIG_OFFSET, CONFIG_SIZE)
    }

    /// Learned data section (interpolation tables, etc.)
    pub fn learned_data() -> (s: Self)
        ensures s.spec_offset() == LEARNED_DATA_OFFSET && s.spec_size() == LEARNED_DATA_SIZE,
    {
        Self::new(LEARNED_DATA_OFFSET, LEARNED_DATA_SIZE)
    }

    /// Calibration data section
    pub fn calibration() -> (s: Self)
        ensures s.spec_offset() == CALIBRATION_OFFSET && s.spec_size() == CALIBRATION_SIZE,
    {
        Self::new(CALIBRATION_OFFSET, CALIBRATION_SIZE)
    }

    /// Safety event log section
    pub fn safety_log() -> (s: Self)
        ensures s.spec_offset() == SAFETY_LOG_OFFSET && s.spec_size() == SAFETY_LOG_SIZE,
    {
        Self::new(SAFETY_LOG_OFFSET, SAFETY_LOG_SIZE)
    }

    pub fn offset(&self) -> (o: usize)
        ensures o == self.spec_offset(),
    {
        self.offset
    }

    pub fn size(&self) -> (s: usize)
        ensures s == self.spec_size(),
    {
        self.size
    }

    /// Read from this storage section
    pub fn read(&self, storage: &mut Teensy41Storage, buffer: &mut [u8]) -> (r: Result<(), HalError>)
        requires
            old(storage).wf(),
            self.spec_offset() <= u32::MAX,
        ensures
            *final(storage) == *old(storage),
            old(buffer)@.len() > self.spec_size() ==> (r matches Err(HalError::InvalidParameter(m))
                && m@ == "Buffer larger than section"@ && final(buffer)@ == old(buffer)@),
            old(buffer)@.len() <= self.spec_size() ==> {
                let address = self.spec_offset() as u32;
                &&& address >= EEPROM_SIZE ==> r is Err && final(buffer)@ == old(buffer)@
                &&& address < EEPROM_SIZE ==> r is Ok && {
                    let n = if old(buffer)@.len() < EEPROM_SIZE - address { old(buffer)@.len() as int } else { EEPROM_SIZE - address };
                    final(buffer)@ == old(storage).bytes().subrange(address as int, address + n)
                        + old(buffer)@.subrange(n, old(buffer)@.len() as int)
                }
            },
    {
        if buffer.len() > self.size {
            return Err(HalError::invalid_parameter(String::from_str("Buffer larger than section")));
        }
        storage.read(self.offset as u32, buffer)
    }

    /// Write to this storage section
    pub fn write(&self, storage: &mut Teensy41Storage, data: &[u8]) -> (r: Result<(), HalError>)
        requires
            old(storage).wf(),
            self.spec_offset() <= u32::MAX,
            data@.len() <= self.spec_size() ==> old(storage).can_record_write(self.spec_offset() as u32),
        ensures
            final(storage).wf(),
            data@.len() > self.spec_size() ==> (r matches Err(HalError::InvalidParameter(m))
                && m@ == "Data larger than section"@ && *final(storage) == *old(storage)),
            data@.len() <= self.spec_size() ==> {
                let address = self.spec_offset() as u32;
                &&& address >= EEPROM_SIZE ==> r is Err && *final(storage) == *old(storage)
                &&& address < EEPROM_SIZE ==> r is Ok && {
                    let n = if data@.len() < EEPROM_SIZE - address { data@.len() as int } else { EEPROM_SIZE - address };
                    let region = address as int / SECTOR_SIZE as int;
                    &&& final(storage).bytes() == splice(old(storage).bytes(), address as int, data@.subrange(0, n))
                    &&& final(storage).wear() == old(storage).wear().update(region, (old(storage).wear()[region] + 1) as u32)
                }
            },
    {
        if data.len() > self.size {
            return Err(HalError::invalid_parameter(String::from_str("Data larger than section")));
        }
        storage.write(self.offset as u32, data)
    }
}

/// The rank of a health grade, from best (0) to worst (4).
pub open spec fn health_rank(h: StorageHealth) -> int {
    match h {
        StorageHealth::Excellent => 0,
        StorageHealth::Good => 1,
        StorageHealth::Warning => 2,
        StorageHealth::Critical => 3,
        StorageHealth::Failed => 4,
    }
}

/// Reading back at the address of a write inside the EEPROM gives exactly
/// the bytes written, as many as fitted before the end of the EEPROM, and
/// every byte outside the written range keeps its value.
pub proof fn lemma_read_after_write(base: Seq<u8>, address: int, data: Seq<u8>)
    requires
        base.len() == EEPROM_SIZE,
        0 <= address < EEPROM_SIZE,
    ensures
        ({
            let n = if data.len() < EEPROM_SIZE - address { data.len() as int } else { EEPROM_SIZE - address };
            let after = splice(base, address, data.subrange(0, n));
            &&& after.len() == EEPROM_SIZE
            &&& after.subrange(address, address + n) == data.subrange(0, n)
            &&& forall|i: int| 0 <= i < EEPROM_SIZE && !(address <= i < address + n) ==> after[i] == base[i]
        }),
{
    let n = if data.len() < EEPROM_SIZE - address { data.len() as int } else { EEPROM_SIZE - address };
    let after = splice(base, address, data.subrange(0, n));
    assert(after.subrange(address, address + n) =~= data.subrange(0, n));
}

/// After an erase, every byte of the 512-byte sector holding the address
/// reads 0xFF, the sector lies inside the EEPROM, and every other byte keeps
/// its value.
pub proof fn lemma_erase_clears_sector(base: Seq<u8>, address: int)
    requires
        base.len() == EEPROM_SIZE,
        0 <= address < EEPROM_SIZE,
    ensures
        ({
            let start = sector_start(address);
            let after = erased(base, start, start + SECTOR_SIZE);
            &&& 0 <= start <= address < start + SECTOR_SIZE <= EEPROM_SIZE
            &&& after.len() == EEPROM_SIZE
            &&& forall|i: int| start <= i < start + SECTOR_SIZE ==> after[i] == 0xFFu8
            &&& forall|i: int| 0 <= i < EEPROM_SIZE && !(start <= i < start + SECTOR_SIZE) ==> after[i] == base[i]
        }),
{
}

/// The four sections follow each other without gap or overlap and fill the
/// EEPROM exactly; each starts on an erase-sector boundary.
pub proof fn lemma_section_layout()
    ensures
        CONFIG_OFFSET == 0,
        CONFIG_OFFSET + CONFIG_SIZE == LEARNED_DATA_OFFSET,
        LEARNED_DATA_OFFSET + LEARNED_DATA_SIZE == CALIBRATION_OFFSET,
        CALIBRATION_OFFSET + CALIBRATION_SIZE == SAFETY_LOG_OFFSET,
        SAFETY_LOG_OFFSET + SAFETY_LOG_SIZE == EEPROM_SIZE,
        CONFIG_OFFSET % SECTOR_SIZE == 0,
        LEARNED_DATA_OFFSET % SECTOR_SIZE == 0,
        CALIBRATION_OFFSET % SECTOR_SIZE == 0,
        SAFETY_LOG_OFFSET % SECTOR_SIZE == 0,
        REGION_COUNT * SECTOR_SIZE == EEPROM_SIZE,
{
}

/// A section write that fits its section keeps every byte of the data at
/// the section's start and leaves every byte outside the section, and so
/// every other section, as it was.
pub proof fn lemma_section_write_confined(sec: StorageSection, base: Seq<u8>, data: Seq<u8>)
    requires
        base.len() == EEPROM_SIZE,
        sec.spec_offset() < EEPROM_SIZE,
        sec.spec_offset() + sec.spec_size() <= EEPROM_SIZE,
        data.len() <= sec.spec_size(),
    ensures
        ({
            let off = sec.spec_offset() as int;
            let n = if data.len() < EEPROM_SIZE - off { data.len() as int } else { EEPROM_SIZE - off };
            let after = splice(base, off, data.subrange(0, n));
            &&& n == data.len()
            &&& after.subrange(off, off + data.len()) == data
            &&& forall|i: int| 0 <= i < EEPROM_SIZE && !(off <= i < off + sec.spec_size()) ==> after[i] == base[i]
        }),
{
    let off = sec.spec_offset() as int;
    lemma_read_after_write(base, off, data);
    assert(data.subrange(0, data.len() as int) =~= data);
}

/// An erased configuration section (every byte 0xFF) fails validation,
/// whatever the rest of the EEPROM holds.
pub proof fn lemma_erased_config_invalid(bytes: Seq<u8>)
    requires
        bytes.len() == EEPROM_SIZE,
        forall|i: int| CONFIG_OFFSET <= i < CONFIG_OFFSET + CONFIG_SIZE ==> bytes[i] == 0xFFu8,
    ensures
        !layout_valid(bytes),
{
}

/// The validation rule over the sums of the sections, as 16-bit wrapping
/// sums of bytes 0..512 (configuration), 512..2560 (learned data) and
/// 2560..3584 (calibration): an image whose configuration sums to neither 0
/// nor 0xFFFF and is not all 0xFF is valid as soon as learned data or
/// calibration sums to something other than 0, whatever the other of the
/// two holds; it is invalid when both sum to 0, or when the configuration
/// sums to 0 or 0xFFFF or is erased.
pub proof fn lemma_validation_rule(bytes: Seq<u8>)
    requires
        bytes.len() == EEPROM_SIZE,
    ensures
        ({
            let c = byte_sum(bytes.subrange(0, 512)) % 0x10000;
            let l = byte_sum(bytes.subrange(512, 2560)) % 0x10000;
            let k = byte_sum(bytes.subrange(2560, 3584)) % 0x10000;
            let config_ok = c != 0 && c != 0xFFFF && exists|i: int| 0 <= i < 512 && bytes[i] != 0xFFu8;
            &&& config_ok && k != 0 ==> layout_valid(bytes)
            &&& config_ok && l != 0 ==> layout_valid(bytes)
            &&& l == 0 && k == 0 ==> !layout_valid(bytes)
            &&& (c == 0 || c == 0xFFFF) ==> !layout_valid(bytes)
            &&& (forall|i: int| 0 <= i < 512 ==> bytes[i] == 0xFFu8) ==> !layout_valid(bytes)
        }),
{
}

/// More writes never give a better health grade.
pub proof fn lemma_health_monotonic(a: nat, b: nat)
    requires
        a <= b,
    ensures
        health_rank(health_for_writes(a)) <= health_rank(health_for_writes(b)),
{
}

/// The health grade of a region by its write count against the 100 000
/// write limit: Excellent below 50 000, Good below 80 000, Warning below
/// 95 000, Critical below 100 000, and Failed from the limit on.
pub proof fn lemma_health_bounds(w: nat)
    ensures
        w < 50_000 ==> health_for_writes(w) == StorageHealth::Excellent,
        50_000 <= w < 80_000 ==> health_for_writes(w) == StorageHealth::Good,
        80_000 <= w < 95_000 ==> health_for_writes(w) == StorageHealth::Warning,
        95_000 <= w < 100_000 ==> health_for_writes(w) == StorageHealth::Critical,
        w >= 100_000 ==> health_for_writes(w) == StorageHealth::Failed,
{
}

} // verus!
