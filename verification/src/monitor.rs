//! Control-loop bookkeeping of the core: cycle statistics, input freshness
//! checks and the bounded safety event history.

use vstd::prelude::*;
use crate::error::CoreError;
use crate::state::{spec_failsafe, FaultCode, SystemState};
use crate::types::{SelfTestResult, TestStatus};
use crate::text::decimal;
use crate::text::message_with_number;

verus! {

/// Cycle time above which a control cycle counts as a timing violation (µs);
/// the loop runs at 100 Hz.
pub const TIMING_VIOLATION_US: u32 = 10_000;

/// Sensor data older than this is reported in the diagnostics (ms)
pub const SENSOR_AGE_WARN_MS: u64 = 100;
/// Sensor data older than this is rejected (ms)
pub const SENSOR_AGE_LIMIT_MS: u64 = 500;
/// CAN data older than this is reported in the diagnostics (ms)
pub const CAN_AGE_WARN_MS: u64 = 200;
/// CAN data older than this is rejected (ms)
pub const CAN_AGE_LIMIT_MS: u64 = 1000;

/// Number of overboost or fault events the safety history keeps
pub const MAX_EVENT_HISTORY: usize = 50;
/// Number of response times the safety history keeps
pub const MAX_RESPONSE_HISTORY: usize = 100;

/// Performance statistics of the control loop
#[derive(Debug, Clone)]
pub struct ControlLoopStats {
    /// Total control cycles executed
    pub cycles_executed: u64,
    /// Average cycle time (microseconds)
    pub avg_cycle_time_us: u32,
    /// Maximum cycle time (microseconds)
    pub max_cycle_time_us: u32,
    /// Control cycles that exceeded target timing
    pub timing_violations: u32,
    /// Safety interventions triggered
    pub safety_interventions: u32,
    /// Learning updates applied
    pub learning_updates: u32,
    /// Last update timestamp
    pub last_update_ms: u32,
}

impl ControlLoopStats {
    /// Statistics with every counter at zero.
    pub open spec fn zero() -> Self {
        ControlLoopStats {
            cycles_executed: 0,
            avg_cycle_time_us: 0,
            max_cycle_time_us: 0,
            timing_violations: 0,
            safety_interventions: 0,
            learning_updates: 0,
            last_update_ms: 0,
        }
    }

    /// The rolling average after a cycle of `cycle_time_us`: seven parts old
    /// average, one part new sample.
    pub open spec fn rolled_average(avg: u32, cycle_time_us: u32) -> int {
        (avg * 7 + cycle_time_us) / 8
    }

    /// Whether one more cycle can be folded in without a counter overflowing.
    pub open spec fn can_record(self, cycle_time_us: u32) -> bool {
        &&& self.avg_cycle_time_us * 7 + cycle_time_us <= u32::MAX
        &&& (cycle_time_us > TIMING_VIOLATION_US ==> self.timing_violations < u32::MAX)
    }

    /// Fold the time of one control cycle into the statistics.
    pub fn update_performance_stats(&mut self, cycle_time_us: u32, now_ms: u32)
        requires
            old(self).can_record(cycle_time_us),
        ensures
            final(self).avg_cycle_time_us == Self::rolled_average(old(self).avg_cycle_time_us, cycle_time_us),
            final(self).max_cycle_time_us == if cycle_time_us > old(self).max_cycle_time_us {
                cycle_time_us
            } else {
                old(self).max_cycle_time_us
            },
            final(self).timing_violations == old(self).timing_violations + if cycle_time_us > TIMING_VIOLATION_US { 1int } else { 0int },
            final(self).last_update_ms == now_ms,
            final(self).cycles_executed == old(self).cycles_executed,
            final(self).safety_interventions == old(self).safety_interventions,
            final(self).learning_updates == old(self).learning_updates,
    {
        self.avg_cycle_time_us = (self.avg_cycle_time_us * 7 + cycle_time_us) / 8;
        if cycle_time_us > self.max_cycle_time_us {
            self.max_cycle_time_us = cycle_time_us;
        }
        if cycle_time_us > TIMING_VIOLATION_US {
            self.timing_violations = self.timing_violations + 1;
        }
        self.last_update_ms = now_ms;
    }
}

impl Default for ControlLoopStats {
    fn default() -> (s: Self)
        ensures
            s == Self::zero(),
    {
        ControlLoopStats {
            cycles_executed: 0,
            avg_cycle_time_us: 0,
            max_cycle_time_us: 0,
            timing_violations: 0,
            safety_interventions: 0,
            learning_updates: 0,
            last_update_ms: 0,
        }
    }
}

/// `a - b`, or 0 where `b` is the later time.
pub open spec fn age(now: u64, stamp: u64) -> int {
    if now >= stamp { now - stamp } else { 0 }
}

/// The diagnostic lines that the freshness check adds.
pub open spec fn freshness_notes(now: u64, sensor_ts: u64, can_ts: u64) -> Seq<Seq<char>> {
    let sensor_age = age(now, sensor_ts);
    let can_age = age(now, can_ts);
    if sensor_age > SENSOR_AGE_LIMIT_MS {
        seq!["Sensor data age: "@ + decimal(sensor_age as nat) + "ms"@]
    } else {
        (if sensor_age > SENSOR_AGE_WARN_MS {
            seq!["Sensor data age: "@ + decimal(sensor_age as nat) + "ms"@]
        } else {
            Seq::empty()
        }) + (if can_age > CAN_AGE_WARN_MS {
            seq!["CAN data age: "@ + decimal(can_age as nat) + "ms"@]
        } else {
            Seq::empty()
        })
    }
}

/// The error message of the freshness check, if the data is too old.
pub open spec fn freshness_error(now: u64, sensor_ts: u64, can_ts: u64) -> Option<Seq<char>> {
    let sensor_age = age(now, sensor_ts);
    let can_age = age(now, can_ts);
    if sensor_age > SENSOR_AGE_LIMIT_MS {
        Some("Sensor data too old: "@ + decimal(sensor_age as nat) + "ms"@)
    } else if can_age > CAN_AGE_LIMIT_MS {
        Some("CAN data too old: "@ + decimal(can_age as nat) + "ms"@)
    } else {
        None
    }
}

/// Check that the sensor readings and the CAN data are recent enough at time
/// `now_ms`. Stale data is noted in `diagnostics`; data past its limit is
/// an input validation error, sensors checked first.
pub fn validate_input_freshness(
    now_ms: u64,
    sensor_timestamp_ms: u64,
    can_timestamp_ms: u64,
    diagnostics: &mut Vec<String>,
) -> (r: Result<(), CoreError>)
    ensures
        final(diagnostics)@.len() == old(diagnostics)@.len() + freshness_notes(now_ms, sensor_timestamp_ms, can_timestamp_ms).len(),
        final(diagnostics)@.subrange(0, old(diagnostics)@.len() as int) == old(diagnostics)@,
        final(diagnostics)@.map_values(|s: String| s@)
            == old(diagnostics)@.map_values(|s: String| s@) + freshness_notes(now_ms, sensor_timestamp_ms, can_timestamp_ms),
        match r {
            Ok(()) => freshness_error(now_ms, sensor_timestamp_ms, can_timestamp_ms) is None,
            Err(e) => freshness_error(now_ms, sensor_timestamp_ms, can_timestamp_ms) is Some
                && (e matches CoreError::InputValidation(m)
                && m@ == freshness_error(now_ms, sensor_timestamp_ms, can_timestamp_ms)->0),
        },
{
    let sensor_age = now_ms.saturating_sub(sensor_timestamp_ms);
    if sensor_age > SENSOR_AGE_WARN_MS {
        diagnostics.push(message_with_number("Sensor data age: ", sensor_age, "ms"));
        if sensor_age > SENSOR_AGE_LIMIT_MS {
            return Err(CoreError::input_validation(message_with_number("Sensor data too old: ", sensor_age, "ms")));
        }
    }
    let can_age = now_ms.saturating_sub(can_timestamp_ms);
    if can_age > CAN_AGE_WARN_MS {
        diagnostics.push(message_with_number("CAN data age: ", can_age, "ms"));
        if can_age > CAN_AGE_LIMIT_MS {
            return Err(CoreError::input_validation(message_with_number("CAN data too old: ", can_age, "ms")));
        }
    }
    Ok(())
}

/// Types of safety events
#[derive(Debug, Clone, Copy, PartialEq, Eq, Structural)]
pub enum SafetyEventType {
    /// Manifold overboost condition
    Overboost,
    /// Pneumatic response failure
    PneumaticFailure,
    /// Sensor validation failure
    SensorFailure,
    /// Control system fault
    ControlFault,
    /// Configuration safety violation
    ConfigurationFault,
}

/// One safety event. The value that triggered it (a pressure, a time, ...)
/// is kept as the bit pattern of its `f32`.
#[derive(Debug, Clone, Copy)]
pub struct SafetyEvent {
    /// Event timestamp
    pub timestamp_ms: u64,
    /// Event type
    pub event_type: SafetyEventType,
    /// Trigger value, `f32` bits
    pub trigger_value_bits: u32,
    /// System response time (ms)
    pub response_time_ms: u64,
    /// Recovery success
    pub recovered: bool,
}

/// `s` without its oldest entry once it holds more than `limit` entries.
pub open spec fn trimmed<T>(s: Seq<T>, limit: nat) -> Seq<T> {
    if s.len() > limit { s.drop_first() } else { s }
}

/// Recent safety events and statistics
#[derive(Debug, Clone)]
pub struct SafetyHistory {
    /// Recent overboost events, oldest first
    pub overboost_events: Vec<SafetyEvent>,
    /// Recent fault events, oldest first
    pub fault_events: Vec<SafetyEvent>,
    /// Safety response times (ms), oldest first
    pub response_times: Vec<u64>,
    /// Total safety cuts performed
    pub total_safety_cuts: u32,
    /// Last safety event timestamp
    pub last_event_ms: Option<u64>,
}

impl SafetyHistory {
    /// The event lists stay within their bound.
    pub open spec fn wf(&self) -> bool {
        &&& self.overboost_events@.len() <= MAX_EVENT_HISTORY
        &&& self.fault_events@.len() <= MAX_EVENT_HISTORY
    }

    pub fn new() -> (h: Self)
        ensures
            h.wf(),
            h.overboost_events@ == Seq::<SafetyEvent>::empty(),
            h.fault_events@ == Seq::<SafetyEvent>::empty(),
            h.response_times@ == Seq::<u64>::empty(),
            h.total_safety_cuts == 0,
            h.last_event_ms is None,
    {
        SafetyHistory {
            overboost_events: Vec::new(),
            fault_events: Vec::new(),
            response_times: Vec::new(),
            total_safety_cuts: 0,
            last_event_ms: None,
        }
    }

    /// Record a safety event. Overboost events go to their own list and
    /// count as a safety cut; every other kind goes to the fault list. Each
    /// list drops its oldest entry when it grows past its bound.
    pub fn record_event(&mut self, event: SafetyEvent)
        requires
            old(self).wf(),
            event.event_type == SafetyEventType::Overboost ==> old(self).total_safety_cuts < u32::MAX,
        ensures
            final(self).wf(),
            event.event_type == SafetyEventType::Overboost ==> {
                &&& final(self).overboost_events@ == trimmed(old(self).overboost_events@.push(event), MAX_EVENT_HISTORY as nat)
                &&& final(self).fault_events@ == old(self).fault_events@
                &&& final(self).total_safety_cuts == old(self).total_safety_cuts + 1
            },
            event.event_type != SafetyEventType::Overboost ==> {
                &&& final(self).fault_events@ == trimmed(old(self).fault_events@.push(event), MAX_EVENT_HISTORY as nat)
                &&& final(self).overboost_events@ == old(self).overboost_events@
                &&& final(self).total_safety_cuts == old(self).total_safety_cuts
            },
            final(self).last_event_ms == Some(event.timestamp_ms),
            final(self).response_times@ == trimmed(old(self).response_times@, MAX_RESPONSE_HISTORY as nat),
    {
        let timestamp_ms = event.timestamp_ms;
        match event.event_type {
            SafetyEventType::Overboost => {
                self.overboost_events.push(event);
                self.total_safety_cuts = self.total_safety_cuts + 1;
            },
            _ => {
                self.fault_events.push(event);
            },
        }
        self.last_event_ms = Some(timestamp_ms);
        if self.overboost_events.len() > MAX_EVENT_HISTORY {
            self.overboost_events.remove(0);
        }
        if self.fault_events.len() > MAX_EVENT_HISTORY {
            self.fault_events.remove(0);
        }
        if self.response_times.len() > MAX_RESPONSE_HISTORY {
            self.response_times.remove(0);
        }
    }
}

/// Recording an event keeps it as the newest entry of its list, and the
/// list never holds more than the bound.
pub proof fn lemma_recorded_event_is_newest(before: Seq<SafetyEvent>, event: SafetyEvent)
    requires
        before.len() <= MAX_EVENT_HISTORY,
    ensures
        trimmed(before.push(event), MAX_EVENT_HISTORY as nat).len() <= MAX_EVENT_HISTORY,
        trimmed(before.push(event), MAX_EVENT_HISTORY as nat).last() == event,
        before.len() < MAX_EVENT_HISTORY ==> trimmed(before.push(event), MAX_EVENT_HISTORY as nat) == before.push(event),
{
}

/// What a control cycle does with the solenoid output in a given state.
#[derive(Debug, Clone, Copy, PartialEq, Eq, Structural)]
pub enum OutputAction {
    /// Hold 0 % duty through the normal, timed update
    HoldZero,
    /// Force 0 % duty at once, bypassing the timing synchronisation
    CutToZero,
    /// Run the torque-following control hierarchy
    RunControl,
    /// Run the next auto-calibration step
    RunCalibration,
}

/// The output action of each state.
pub open spec fn spec_output_action(s: SystemState) -> OutputAction {
    match s {
        SystemState::Idle => OutputAction::HoldZero,
        SystemState::Armed => OutputAction::RunControl,
        SystemState::Calibrating(_) => OutputAction::RunCalibration,
        SystemState::OverboostCut => OutputAction::CutToZero,
        SystemState::Fault(_) => OutputAction::CutToZero,
        SystemState::Initializing => OutputAction::HoldZero,
    }
}

/// Decide what the control cycle does with the output in `state`: idle
/// and initialising hold 0 %, an overboost cut or a fault forces 0 % at
/// once, armed runs the control, calibrating runs the calibration step.
pub fn cycle_output_action(state: &SystemState) -> (a: OutputAction)
    ensures
        a == spec_output_action(*state),
{
    match state {
        SystemState::Idle => OutputAction::HoldZero,
        SystemState::Armed => OutputAction::RunControl,
        SystemState::Calibrating(_) => OutputAction::RunCalibration,
        SystemState::OverboostCut => OutputAction::CutToZero,
        SystemState::Fault(_) => OutputAction::CutToZero,
        SystemState::Initializing => OutputAction::HoldZero,
    }
}

/// Inputs are accepted while the sensor data is at most 500 ms old and the
/// CAN data at most 1000 ms old (times before their stamp count as age 0);
/// older sensor data is rejected first, then older CAN data.
pub proof fn lemma_freshness_limits(now: u64, sensor_ts: u64, can_ts: u64)
    ensures
        ({
            let sensor_age: int = if now >= sensor_ts { now - sensor_ts } else { 0 };
            let can_age: int = if now >= can_ts { now - can_ts } else { 0 };
            &&& (sensor_age <= 500 && can_age <= 1000) <==> freshness_error(now, sensor_ts, can_ts) is None
            &&& sensor_age > 500 ==> freshness_error(now, sensor_ts, can_ts)
                == Some("Sensor data too old: "@ + decimal(sensor_age as nat) + "ms"@)
            &&& sensor_age <= 500 && can_age > 1000 ==> freshness_error(now, sensor_ts, can_ts)
                == Some("CAN data too old: "@ + decimal(can_age as nat) + "ms"@)
        }),
{
}

/// Every state that demands the failsafe output drives the solenoid to
/// 0 % in its control cycle, and only armed or calibrating states drive
/// it otherwise.
pub proof fn lemma_failsafe_states_output_zero(s: SystemState)
    ensures
        spec_failsafe(s) ==> (spec_output_action(s) == OutputAction::HoldZero
            || spec_output_action(s) == OutputAction::CutToZero),
        (spec_output_action(s) == OutputAction::RunControl) <==> (s is Armed),
        (spec_output_action(s) == OutputAction::RunCalibration) <==> (s is Calibrating),
{
}

/// The state after start-up with the given self-test result: idle when
/// every test passed, otherwise a self-test fault, reported as a safety
/// error.
pub fn state_after_self_test(result: &SelfTestResult) -> (r: (SystemState, Result<(), CoreError>))
    ensures
        result.overall_status == TestStatus::Pass ==> r.0 is Idle && r.1 is Ok,
        result.overall_status != TestStatus::Pass ==> (r.0 matches SystemState::Fault(FaultCode::SelfTestFailed))
            && (r.1 matches Err(CoreError::Safety(m)) && m@ == "Hardware self-test failed"@),
{
    if result.overall_status != TestStatus::Pass {
        return (SystemState::Fault(FaultCode::SelfTestFailed),
            Err(CoreError::Safety(String::from_str("Hardware self-test failed"))));
    }
    (SystemState::Idle, Ok(()))
}

} // verus!
