//! CAN bus data: message records, error statistics, connection tracking
//! and the decoder for the ECU signals of the Ford Gen2 Coyote.
//!
//! Decoded signals are kept as the raw integers carried on the bus; their
//! engineering values are
//! `map_kpa = map_kpa_raw * 0.1`,
//! `torque_nm = torque_raw * 0.1 - 1000` and
//! `throttle_percent = throttle_raw / 2.55`.

use vstd::prelude::*;
use crate::types::DriveMode;

verus! {

/// CAN IDs of the decoded ECU signals
pub const CAN_ID_RPM: u32 = 0x201;
pub const CAN_ID_MAP: u32 = 0x202;
pub const CAN_ID_DESIRED_TORQUE: u32 = 0x203;
pub const CAN_ID_ACTUAL_TORQUE: u32 = 0x204;
pub const CAN_ID_THROTTLE: u32 = 0x205;
pub const CAN_ID_DRIVE_MODE: u32 = 0x206;

/// Time without a message after which the bus counts as disconnected (ms)
pub const CONNECTION_TIMEOUT_MS: u64 = 1000;

/// CAN message structure
#[derive(Debug, Clone)]
pub struct CanMessage {
    /// CAN ID
    pub id: u32,
    /// Message data (up to 8 bytes)
    pub data: Vec<u8>,
    /// Extended frame format
    pub extended: bool,
    /// Remote transmission request
    pub rtr: bool,
}

/// CAN bus error statistics
#[derive(Debug, Clone)]
pub struct CanErrorStats {
    /// Transmit error count
    pub tx_errors: u32,
    /// Receive error count
    pub rx_errors: u32,
    /// Bus off events
    pub bus_off_count: u32,
    /// Error passive event count
    pub error_passive_count: u32,
    /// Last error timestamp
    pub last_error_ms: Option<u64>,
}

impl CanErrorStats {
    /// Statistics with every counter at zero and no error recorded.
    pub open spec fn zero() -> Self {
        CanErrorStats { tx_errors: 0, rx_errors: 0, bus_off_count: 0, error_passive_count: 0, last_error_ms: None }
    }

    pub fn new() -> (s: Self)
        ensures s == Self::zero(),
    {
        CanErrorStats { tx_errors: 0, rx_errors: 0, bus_off_count: 0, error_passive_count: 0, last_error_ms: None }
    }
}

impl Default for CanErrorStats {
    fn default() -> (s: Self)
        ensures s == Self::zero(),
    {
        Self::new()
    }
}

/// Error conditions reported by the CAN controller
#[derive(Debug, Clone, Copy, PartialEq, Eq, Structural)]
pub enum CanErrorKind {
    BusOff,
    ErrorPassive,
    ErrorActive,
    Transmit,
    Receive,
}

/// The identifier of a CAN frame on the wire
#[derive(Debug, Clone, Copy, PartialEq, Eq, Structural)]
pub enum CanFrameId {
    /// 11-bit standard identifier
    Standard(u16),
    /// 29-bit extended identifier
    Extended(u32),
}

/// The IDs the receive filters accept: the six decoded ECU signals.
pub fn coyote_filter_ids() -> (ids: [u32; 6])
    ensures
        ids@ == seq![CAN_ID_RPM, CAN_ID_MAP, CAN_ID_DESIRED_TORQUE, CAN_ID_ACTUAL_TORQUE, CAN_ID_THROTTLE, CAN_ID_DRIVE_MODE],
{
    let ids = [CAN_ID_RPM, CAN_ID_MAP, CAN_ID_DESIRED_TORQUE, CAN_ID_ACTUAL_TORQUE, CAN_ID_THROTTLE, CAN_ID_DRIVE_MODE];
    assert(ids@ =~= seq![CAN_ID_RPM, CAN_ID_MAP, CAN_ID_DESIRED_TORQUE, CAN_ID_ACTUAL_TORQUE, CAN_ID_THROTTLE, CAN_ID_DRIVE_MODE]);
    ids
}

/// The frame identifier a message is sent with: extended messages keep
/// their ID, standard ones keep its low 16 bits.
pub fn frame_id_for(message: &CanMessage) -> (id: CanFrameId)
    ensures
        message.extended ==> id == CanFrameId::Extended(message.id),
        !message.extended ==> id == CanFrameId::Standard((message.id % 0x1_0000) as u16),
{
    if message.extended {
        CanFrameId::Extended(message.id)
    } else {
        let low = message.id % 0x1_0000;
        CanFrameId::Standard(low as u16)
    }
}

/// The data length a remote frame requests: the message length, modulo 256.
pub fn remote_frame_len(message: &CanMessage) -> (n: u8)
    ensures
        n == message.data@.len() % 256,
{
    (message.data.len() % 256) as u8
}

/// The message for a received frame.
pub fn message_from_frame(id: CanFrameId, data: &[u8], rtr: bool) -> (m: CanMessage)
    ensures
        m.id == match id {
            CanFrameId::Standard(s) => s as u32,
            CanFrameId::Extended(e) => e,
        },
        m.data@ == data@,
        m.extended == (id is Extended),
        m.rtr == rtr,
{
    let (raw, extended) = match id {
        CanFrameId::Standard(s) => (s as u32, false),
        CanFrameId::Extended(e) => (e, true),
    };
    let mut bytes: Vec<u8> = Vec::new();
    let mut i: usize = 0;
    while i < data.len()
        invariant
            i <= data@.len(),
            bytes@ == data@.subrange(0, i as int),
        decreases data@.len() - i,
    {
        bytes.push(data[i]);
        i += 1;
    }
    assert(bytes@ =~= data@);
    CanMessage { id: raw, data: bytes, extended, rtr }
}

/// The bookkeeping of the CAN controller: error statistics and connection
/// state. The controller itself is driven by the caller.
pub struct CanBusState {
    /// Error statistics
    pub error_stats: CanErrorStats,
    /// Connection status
    pub connected: bool,
    /// Last successful message timestamp
    pub last_message_ms: Option<u64>,
}

impl CanBusState {
    pub fn new() -> (s: Self)
        ensures
            s.error_stats == CanErrorStats::zero(),
            !s.connected,
            s.last_message_ms is None,
    {
        Self { error_stats: CanErrorStats::new(), connected: false, last_message_ms: None }
    }

    /// Update connection status: connected while the last message is less
    /// than a second old.
    pub fn update_connection_status(&mut self, current_time_ms: u64)
        requires
            old(self).last_message_ms matches Some(last) ==> last <= current_time_ms,
        ensures
            final(self).error_stats == old(self).error_stats,
            final(self).last_message_ms == old(self).last_message_ms,
            final(self).connected == (match old(self).last_message_ms {
                Some(last) => current_time_ms - last < CONNECTION_TIMEOUT_MS,
                None => false,
            }),
    {
        if let Some(last_msg) = self.last_message_ms {
            self.connected = (current_time_ms - last_msg) < CONNECTION_TIMEOUT_MS;
        } else {
            self.connected = false;
        }
    }

    /// Record that a message was received at `timestamp_ms`.
    pub fn record_message(&mut self, timestamp_ms: u64)
        ensures
            final(self).last_message_ms == Some(timestamp_ms),
            final(self).error_stats == old(self).error_stats,
            final(self).connected == old(self).connected,
    {
        self.last_message_ms = Some(timestamp_ms);
    }

    /// Handle a CAN error condition reported at `timestamp_ms`: bus-off,
    /// transmit and receive errors are counted, and bus-off drops the
    /// connection.
    pub fn handle_can_error(&mut self, error: CanErrorKind, timestamp_ms: u64)
        requires
            error == CanErrorKind::BusOff ==> old(self).error_stats.bus_off_count < u32::MAX,
            error == CanErrorKind::Transmit ==> old(self).error_stats.tx_errors < u32::MAX,
            error == CanErrorKind::Receive ==> old(self).error_stats.rx_errors < u32::MAX,
        ensures
            final(self).last_message_ms == old(self).last_message_ms,
            final(self).error_stats.last_error_ms == Some(timestamp_ms),
            final(self).error_stats.error_passive_count == old(self).error_stats.error_passive_count,
            final(self).error_stats.bus_off_count == old(self).error_stats.bus_off_count
                + (if error == CanErrorKind::BusOff { 1int } else { 0int }),
            final(self).error_stats.tx_errors == old(self).error_stats.tx_errors
                + (if error == CanErrorKind::Transmit { 1int } else { 0int }),
            final(self).error_stats.rx_errors == old(self).error_stats.rx_errors
                + (if error == CanErrorKind::Receive { 1int } else { 0int }),
            final(self).connected == (old(self).connected && error != CanErrorKind::BusOff),
    {
        match error {
            CanErrorKind::BusOff => {
                self.error_stats.bus_off_count = self.error_stats.bus_off_count + 1;
                self.connected = false;
            },
            CanErrorKind::ErrorPassive => {},
            CanErrorKind::ErrorActive => {},
            CanErrorKind::Transmit => {
                self.error_stats.tx_errors = self.error_stats.tx_errors + 1;
            },
            CanErrorKind::Receive => {
                self.error_stats.rx_errors = self.error_stats.rx_errors + 1;
            },
        }
        self.error_stats.last_error_ms = Some(timestamp_ms);
    }

    /// Check if CAN bus is connected and operational
    pub fn is_connected(&self) -> (r: bool)
        ensures r == self.connected,
    {
        self.connected
    }

    /// Get bus error statistics
    pub fn get_error_stats(&self) -> (s: CanErrorStats)
        ensures s == self.error_stats,
    {
        CanErrorStats {
            tx_errors: self.error_stats.tx_errors,
            rx_errors: self.error_stats.rx_errors,
            bus_off_count: self.error_stats.bus_off_count,
            error_passive_count: self.error_stats.error_passive_count,
            last_error_ms: self.error_stats.last_error_ms,
        }
    }

    /// Reset after the controller was reset: statistics cleared, disconnected
    pub fn reset(&mut self)
        ensures
            final(self).error_stats == CanErrorStats::zero(),
            !final(self).connected,
            final(self).last_message_ms == old(self).last_message_ms,
    {
        self.error_stats = CanErrorStats::new();
        self.connected = false;
    }
}

/// Parsed engine data from CAN, as raw bus values
#[derive(Debug, Clone, Copy, PartialEq, Eq, Structural)]
pub struct CoyoteEngineData {
    /// Engine RPM
    pub rpm: u16,
    /// Manifold absolute pressure, tenths of a kPa
    pub map_kpa_raw: u16,
    /// ECU desired torque, tenths of a Nm offset by 10000
    pub desired_torque_raw: u16,
    /// ECU actual torque, tenths of a Nm offset by 10000
    pub actual_torque_raw: u16,
    /// Throttle position, 0-255 for 0-100%
    pub throttle_raw: Option<u8>,
    /// Drive mode
    pub drive_mode: Option<DriveMode>,
    /// Last update timestamp
    pub timestamp_ms: u64,
}

/// Data validity tracking
#[derive(Debug, Clone, Copy, PartialEq, Eq, Structural)]
pub struct CoyoteDataValidity {
    pub rpm_valid: bool,
    pub map_valid: bool,
    pub desired_torque_valid: bool,
    pub actual_torque_valid: bool,
    pub throttle_valid: bool,
    pub drive_mode_valid: bool,
}

/// The little-endian 16-bit value of the first two bytes.
pub open spec fn le_u16(d: Seq<u8>) -> u16 {
    (d[0] as int + d[1] as int * 256) as u16
}

/// The drive mode encoded by a selector byte.
pub open spec fn drive_mode_of(b: u8) -> Option<DriveMode> {
    if b == 0 { Some(DriveMode::Normal) }
    else if b == 1 { Some(DriveMode::Sport) }
    else if b == 2 { Some(DriveMode::SportPlus) }
    else if b == 3 { Some(DriveMode::Track) }
    else { None }
}

/// Whether a message with this ID and payload carries a decodable signal.
pub open spec fn is_signal(id: u32, d: Seq<u8>) -> bool {
    ||| (id == CAN_ID_RPM || id == CAN_ID_MAP || id == CAN_ID_DESIRED_TORQUE || id == CAN_ID_ACTUAL_TORQUE) && d.len() >= 2
    ||| (id == CAN_ID_THROTTLE || id == CAN_ID_DRIVE_MODE) && d.len() >= 1
}

/// CAN message parser for Ford Gen2 Coyote signals
pub struct CoyoteCanParser {
    /// Last parsed engine data
    pub last_data: CoyoteEngineData,
    /// Data validity flags
    pub data_valid: CoyoteDataValidity,
}

impl CoyoteCanParser {
    /// The parser state after decoding a message with `id` and payload `d`
    /// received at `ts`.
    pub open spec fn decoded(self, id: u32, d: Seq<u8>, ts: u64) -> Self {
        if !is_signal(id, d) {
            self
        } else {
            let data = self.last_data;
            let valid = self.data_valid;
            let (data2, valid2) = if id == CAN_ID_RPM {
                (CoyoteEngineData { rpm: le_u16(d), ..data }, CoyoteDataValidity { rpm_valid: true, ..valid })
            } else if id == CAN_ID_MAP {
                (CoyoteEngineData { map_kpa_raw: le_u16(d), ..data }, CoyoteDataValidity { map_valid: true, ..valid })
            } else if id == CAN_ID_DESIRED_TORQUE {
                (CoyoteEngineData { desired_torque_raw: le_u16(d), ..data }, CoyoteDataValidity { desired_torque_valid: true, ..valid })
            } else if id == CAN_ID_ACTUAL_TORQUE {
                (CoyoteEngineData { actual_torque_raw: le_u16(d), ..data }, CoyoteDataValidity { actual_torque_valid: true, ..valid })
            } else if id == CAN_ID_THROTTLE {
                (CoyoteEngineData { throttle_raw: Some(d[0]), ..data }, CoyoteDataValidity { throttle_valid: true, ..valid })
            } else {
                (CoyoteEngineData { drive_mode: drive_mode_of(d[0]), ..data }, CoyoteDataValidity { drive_mode_valid: true, ..valid })
            };
            CoyoteCanParser { last_data: CoyoteEngineData { timestamp_ms: ts, ..data2 }, data_valid: valid2 }
        }
    }

    /// Create new CAN parser with no data
    pub fn new() -> (p: Self)
        ensures
            p.last_data == (CoyoteEngineData {
                rpm: 0, map_kpa_raw: 0, desired_torque_raw: 0, actual_torque_raw: 0,
                throttle_raw: None, drive_mode: None, timestamp_ms: 0,
            }),
            p.data_valid == (CoyoteDataValidity {
                rpm_valid: false, map_valid: false, desired_torque_valid: false,
                actual_torque_valid: false, throttle_valid: false, drive_mode_valid: false,
            }),
    {
        Self {
            last_data: CoyoteEngineData {
                rpm: 0,
                map_kpa_raw: 0,
                desired_torque_raw: 0,
                actual_torque_raw: 0,
                throttle_raw: None,
                drive_mode: None,
                timestamp_ms: 0,
            },
            data_valid: CoyoteDataValidity {
                rpm_valid: false,
                map_valid: false,
                desired_torque_valid: false,
                actual_torque_valid: false,
                throttle_valid: false,
                drive_mode_valid: false,
            },
        }
    }

    fn read_le_u16(data: &Vec<u8>) -> (v: u16)
        requires
            data@.len() >= 2,
        ensures
            v == le_u16(data@),
    {
        (data[0] as u16) + (data[1] as u16) * 256
    }

    /// Parse CAN message and update engine data; returns whether the message
    /// carried a known signal.
    pub fn parse_message(&mut self, message: &CanMessage, timestamp_ms: u64) -> (updated: bool)
        ensures
            updated == is_signal(message.id, message.data@),
            *final(self) == old(self).decoded(message.id, message.data@, timestamp_ms),
    {
        let mut updated = false;
        if message.id == CAN_ID_RPM {
            if message.data.len() >= 2 {
                self.last_data.rpm = Self::read_le_u16(&message.data);
                self.data_valid.rpm_valid = true;
                updated = true;
            }
        } else if message.id == CAN_ID_MAP {
            if message.data.len() >= 2 {
                self.last_data.map_kpa_raw = Self::read_le_u16(&message.data);
                self.data_valid.map_valid = true;
                updated = true;
            }
        } else if message.id == CAN_ID_DESIRED_TORQUE {
            if message.data.len() >= 2 {
                self.last_data.desired_torque_raw = Self::read_le_u16(&message.data);
                self.data_valid.desired_torque_valid = true;
                updated = true;
            }
        } else if message.id == CAN_ID_ACTUAL_TORQUE {
            if message.data.len() >= 2 {
                self.last_data.actual_torque_raw = Self::read_le_u16(&message.data);
                self.data_valid.actual_torque_valid = true;
                updated = true;
            }
        } else if message.id == CAN_ID_THROTTLE {
            if message.data.len() >= 1 {
                self.last_data.throttle_raw = Some(message.data[0]);
                self.data_valid.throttle_valid = true;
                updated = true;
            }
        } else if message.id == CAN_ID_DRIVE_MODE {
            if message.data.len() >= 1 {
                let b = message.data[0];
                self.last_data.drive_mode = if b == 0 {
                    Some(DriveMode::Normal)
                } else if b == 1 {
                    Some(DriveMode::Sport)
                } else if b == 2 {
                    Some(DriveMode::SportPlus)
                } else if b == 3 {
                    Some(DriveMode::Track)
                } else {
                    None
                };
                self.data_valid.drive_mode_valid = true;
                updated = true;
            }
        }
        if updated {
            self.last_data.timestamp_ms = timestamp_ms;
        }
        updated
    }

    /// Check if all critical data is valid
    pub fn has_valid_data(&self) -> (r: bool)
        ensures
            r == (self.data_valid.rpm_valid && self.data_valid.map_valid
                && self.data_valid.desired_torque_valid && self.data_valid.actual_torque_valid),
    {
        self.data_valid.rpm_valid && self.data_valid.map_valid && self.data_valid.desired_torque_valid
            && self.data_valid.actual_torque_valid
    }

    /// Get data age in milliseconds (0 when the data is from the future)
    pub fn data_age_ms(&self, current_time_ms: u64) -> (age: u64)
        ensures
            age == (if current_time_ms >= self.last_data.timestamp_ms {
                current_time_ms - self.last_data.timestamp_ms
            } else {
                0
            }),
    {
        current_time_ms.saturating_sub(self.last_data.timestamp_ms)
    }
}

/// Once the four critical signals have each been decoded, the data stays
/// valid whatever is decoded next: validity flags are never cleared.
pub proof fn lemma_validity_is_sticky(p: CoyoteCanParser, id: u32, d: Seq<u8>, ts: u64)
    ensures
        p.data_valid.rpm_valid ==> p.decoded(id, d, ts).data_valid.rpm_valid,
        p.data_valid.map_valid ==> p.decoded(id, d, ts).data_valid.map_valid,
        p.data_valid.desired_torque_valid ==> p.decoded(id, d, ts).data_valid.desired_torque_valid,
        p.data_valid.actual_torque_valid ==> p.decoded(id, d, ts).data_valid.actual_torque_valid,
        p.data_valid.throttle_valid ==> p.decoded(id, d, ts).data_valid.throttle_valid,
        p.data_valid.drive_mode_valid ==> p.decoded(id, d, ts).data_valid.drive_mode_valid,
{
}

/// A message that carries no known signal leaves the decoded data, its
/// validity and its timestamp untouched.
pub proof fn lemma_unknown_message_ignored(p: CoyoteCanParser, id: u32, d: Seq<u8>, ts: u64)
    requires
        !is_signal(id, d),
    ensures
        p.decoded(id, d, ts) == p,
{
}

/// Decoding a signal refreshes the data timestamp, so its age restarts at 0.
pub proof fn lemma_signal_refreshes_timestamp(p: CoyoteCanParser, id: u32, d: Seq<u8>, ts: u64)
    requires
        is_signal(id, d),
    ensures
        p.decoded(id, d, ts).last_data.timestamp_ms == ts,
{
}

/// A drive-mode message (ID 0x206, at least one byte) selects the drive
/// mode from its first byte: 0 normal, 1 sport, 2 sport plus, 3 track, and
/// no known mode for any other value. It marks the drive mode valid and
/// leaves every other signal as it was.
pub proof fn lemma_drive_mode_selector(p: CoyoteCanParser, d: Seq<u8>, ts: u64)
    requires
        d.len() >= 1,
    ensures
        ({
            let q = p.decoded(0x206u32, d, ts);
            &&& d[0] == 0 ==> q.last_data.drive_mode == Some(DriveMode::Normal)
            &&& d[0] == 1 ==> q.last_data.drive_mode == Some(DriveMode::Sport)
            &&& d[0] == 2 ==> q.last_data.drive_mode == Some(DriveMode::SportPlus)
            &&& d[0] == 3 ==> q.last_data.drive_mode == Some(DriveMode::Track)
            &&& d[0] > 3 ==> q.last_data.drive_mode is None
            &&& q.data_valid.drive_mode_valid
            &&& q.last_data.rpm == p.last_data.rpm
            &&& q.last_data.map_kpa_raw == p.last_data.map_kpa_raw
            &&& q.last_data.desired_torque_raw == p.last_data.desired_torque_raw
            &&& q.last_data.actual_torque_raw == p.last_data.actual_torque_raw
            &&& q.last_data.throttle_raw == p.last_data.throttle_raw
            &&& q.data_valid.rpm_valid == p.data_valid.rpm_valid
            &&& q.data_valid.map_valid == p.data_valid.map_valid
            &&& q.data_valid.throttle_valid == p.data_valid.throttle_valid
        }),
{
}

/// The 16-bit signals are little-endian: RPM (0x201), MAP (0x202), desired
/// torque (0x203) and actual torque (0x204) take the value of the first
/// byte plus 256 times the second, and each marks its own signal valid.
/// The throttle (0x205) takes its first byte.
pub proof fn lemma_word_signals_little_endian(p: CoyoteCanParser, d: Seq<u8>, ts: u64)
    requires
        d.len() >= 2,
    ensures
        p.decoded(0x201u32, d, ts).last_data.rpm == d[0] + 256 * d[1],
        p.decoded(0x201u32, d, ts).data_valid.rpm_valid,
        p.decoded(0x202u32, d, ts).last_data.map_kpa_raw == d[0] + 256 * d[1],
        p.decoded(0x202u32, d, ts).data_valid.map_valid,
        p.decoded(0x203u32, d, ts).last_data.desired_torque_raw == d[0] + 256 * d[1],
        p.decoded(0x203u32, d, ts).data_valid.desired_torque_valid,
        p.decoded(0x204u32, d, ts).last_data.actual_torque_raw == d[0] + 256 * d[1],
        p.decoded(0x204u32, d, ts).data_valid.actual_torque_valid,
        p.decoded(0x205u32, d, ts).last_data.throttle_raw == Some(d[0]),
        p.decoded(0x205u32, d, ts).data_valid.throttle_valid,
        p.decoded(0x201u32, d, ts).last_data.map_kpa_raw == p.last_data.map_kpa_raw,
        p.decoded(0x202u32, d, ts).last_data.rpm == p.last_data.rpm,
{
}

} // verus!
