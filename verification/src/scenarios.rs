//! Test scenarios for the desktop simulation: timed scenario events, the
//! success criteria they are judged by, and the runner that hands the due
//! events to the engine model in order.
//!
//! Real-valued arguments (throttle, pressures, torque) are `f32` values
//! kept as their bit patterns.

use vstd::prelude::*;
use crate::types::DriveMode;

verus! {

/// Bits of `0.0f32`
pub const F32_ZERO: u32 = 0x0000_0000;
/// Bits of `100.0f32`: full throttle
pub const F32_FULL: u32 = 0x42c8_0000;

/// Commands for the engine model (`f32` arguments as bits)
#[derive(Debug, Clone, Copy, PartialEq, Eq, Structural)]
pub enum EngineCommand {
    /// Set throttle position (0-100%)
    SetThrottle(u32),
    /// Set engine RPM directly
    SetRpm(u16),
    /// Set drive mode
    SetDriveMode(DriveMode),
    /// Apply external torque limit (Nm)
    ApplyTorqueLimit(u32),
    /// Simulate engine knock
    SimulateKnock,
    /// Reset to idle conditions
    ResetToIdle,
    /// Start WOT run
    StartWotRun,
    /// Simulate overboost condition
    ForceOverboost,
}

/// Commands available in scenarios (`f32` arguments as bits)
#[derive(Debug, Clone, PartialEq, Eq)]
pub enum ScenarioCommand {
    /// Set throttle position
    SetThrottle(u32),
    /// Set RPM directly
    SetRpm(u16),
    /// Change drive mode
    SetDriveMode(DriveMode),
    /// Start calibration at an RPM and a boost target
    StartCalibration { rpm: u16, boost_bits: u32 },
    /// Switch profile
    SwitchProfile(String),
    /// Apply torque limit
    ApplyTorqueLimit(u32),
    /// Reset to idle
    ResetToIdle,
    /// Force overboost condition
    ForceOverboost,
    /// Simulate knock
    SimulateKnock,
    /// Wait for specified time
    Wait(u64),
}

/// Timed event within a scenario
#[derive(Debug, Clone)]
pub struct ScenarioEvent {
    /// Time to execute event (milliseconds from start)
    pub time_ms: u64,
    /// Command to execute
    pub command: ScenarioCommand,
    /// Event description
    pub description: String,
}

/// Conditions for success validation (`f32` bounds as bits)
#[derive(Debug, Clone)]
pub enum SuccessCondition {
    /// System state equals expected
    SystemState(String),
    /// Boost pressure within range
    BoostPressureRange(u32, u32),
    /// RPM within range
    RpmRange(u16, u16),
    /// Torque error below threshold
    TorqueErrorBelow(u32),
    /// No overboost events
    NoOverboostEvents,
    /// Calibration completed
    CalibrationComplete,
    /// Duty cycle within range
    DutyCycleRange(u32, u32),
}

/// Success criteria for scenario validation
#[derive(Debug)]
pub struct SuccessCriterion {
    /// Time range to check (ms)
    pub time_range: (u64, u64),
    /// Condition to check
    pub condition: SuccessCondition,
    /// Criterion description
    pub description: String,
}

/// Test scenario definition
#[derive(Debug)]
pub struct TestScenario {
    /// Scenario name
    pub name: String,
    /// Scenario description
    pub description: String,
    /// Expected duration (seconds)
    pub duration: u64,
    /// Scenario events, in time order
    pub events: Vec<ScenarioEvent>,
    /// Success criteria
    pub success_criteria: Vec<SuccessCriterion>,
}

/// The engine command of a scenario command; calibration, profile switches
/// and waits are the simulation loop's own and give none.
pub open spec fn spec_engine_command(c: ScenarioCommand) -> Option<EngineCommand> {
    match c {
        ScenarioCommand::SetThrottle(t) => Some(EngineCommand::SetThrottle(t)),
        ScenarioCommand::SetRpm(r) => Some(EngineCommand::SetRpm(r)),
        ScenarioCommand::SetDriveMode(m) => Some(EngineCommand::SetDriveMode(m)),
        ScenarioCommand::ApplyTorqueLimit(l) => Some(EngineCommand::ApplyTorqueLimit(l)),
        ScenarioCommand::ResetToIdle => Some(EngineCommand::ResetToIdle),
        ScenarioCommand::ForceOverboost => Some(EngineCommand::ForceOverboost),
        ScenarioCommand::SimulateKnock => Some(EngineCommand::SimulateKnock),
        ScenarioCommand::StartCalibration { .. } => None,
        ScenarioCommand::SwitchProfile(_) => None,
        ScenarioCommand::Wait(_) => None,
    }
}

/// The engine commands of a run of events, in order.
pub open spec fn engine_commands(events: Seq<ScenarioEvent>) -> Seq<EngineCommand>
    decreases events.len(),
{
    if events.len() == 0 {
        Seq::empty()
    } else {
        engine_commands(events.drop_last()) + match spec_engine_command(events.last().command) {
            Some(c) => seq![c],
            None => Seq::empty(),
        }
    }
}

/// The index of the first event from `i` on that is not yet due at
/// `elapsed`, or the number of events when all are due.
pub open spec fn due_end(events: Seq<ScenarioEvent>, i: int, elapsed: u64) -> int
    decreases events.len() - i,
{
    if i < 0 || i >= events.len() {
        i
    } else if events[i].time_ms <= elapsed {
        due_end(events, i + 1, elapsed)
    } else {
        i
    }
}

/// Convert scenario command to engine command
pub fn convert_scenario_command(cmd: &ScenarioCommand) -> (r: Option<EngineCommand>)
    ensures
        r == spec_engine_command(*cmd),
{
    match cmd {
        ScenarioCommand::SetThrottle(throttle) => Some(EngineCommand::SetThrottle(*throttle)),
        ScenarioCommand::SetRpm(rpm) => Some(EngineCommand::SetRpm(*rpm)),
        ScenarioCommand::SetDriveMode(mode) => Some(EngineCommand::SetDriveMode(*mode)),
        ScenarioCommand::ApplyTorqueLimit(limit) => Some(EngineCommand::ApplyTorqueLimit(*limit)),
        ScenarioCommand::ResetToIdle => Some(EngineCommand::ResetToIdle),
        ScenarioCommand::ForceOverboost => Some(EngineCommand::ForceOverboost),
        ScenarioCommand::SimulateKnock => Some(EngineCommand::SimulateKnock),
        ScenarioCommand::StartCalibration { .. } => None,
        ScenarioCommand::SwitchProfile(_) => None,
        ScenarioCommand::Wait(_) => None,
    }
}

fn copy_command(c: &ScenarioCommand) -> (r: ScenarioCommand)
    ensures
        r == *c,
{
    match c {
        ScenarioCommand::SetThrottle(t) => ScenarioCommand::SetThrottle(*t),
        ScenarioCommand::SetRpm(r) => ScenarioCommand::SetRpm(*r),
        ScenarioCommand::SetDriveMode(m) => ScenarioCommand::SetDriveMode(*m),
        ScenarioCommand::StartCalibration { rpm, boost_bits } => ScenarioCommand::StartCalibration {
            rpm: *rpm,
            boost_bits: *boost_bits,
        },
        ScenarioCommand::SwitchProfile(p) => ScenarioCommand::SwitchProfile(p.clone()),
        ScenarioCommand::ApplyTorqueLimit(l) => ScenarioCommand::ApplyTorqueLimit(*l),
        ScenarioCommand::ResetToIdle => ScenarioCommand::ResetToIdle,
        ScenarioCommand::ForceOverboost => ScenarioCommand::ForceOverboost,
        ScenarioCommand::SimulateKnock => ScenarioCommand::SimulateKnock,
        ScenarioCommand::Wait(w) => ScenarioCommand::Wait(*w),
    }
}

fn copy_event(e: &ScenarioEvent) -> (r: ScenarioEvent)
    ensures
        r == *e,
{
    ScenarioEvent { time_ms: e.time_ms, command: copy_command(&e.command), description: e.description.clone() }
}

/// `e` happens at `time_ms`, runs `command` and is described so.
pub open spec fn event_is(e: ScenarioEvent, time_ms: u64, command: ScenarioCommand, description: Seq<char>) -> bool {
    &&& e.time_ms == time_ms
    &&& e.command == command
    &&& e.description@ == description
}

/// `e` happens at `time_ms` and switches to the named profile.
pub open spec fn profile_event_is(e: ScenarioEvent, time_ms: u64, profile: Seq<char>, description: Seq<char>) -> bool {
    &&& e.time_ms == time_ms
    &&& e.command matches ScenarioCommand::SwitchProfile(p) && p@ == profile
    &&& e.description@ == description
}

/// `c` checks `condition` over `[start_ms, end_ms]`.
pub open spec fn criterion_is(c: SuccessCriterion, start_ms: u64, end_ms: u64, condition: SuccessCondition, description: Seq<char>) -> bool {
    &&& c.time_range == (start_ms, end_ms)
    &&& c.condition == condition
    &&& c.description@ == description
}

/// `c` checks over `[start_ms, end_ms]` that the system is in the named state.
pub open spec fn state_criterion_is(c: SuccessCriterion, start_ms: u64, end_ms: u64, state: Seq<char>, description: Seq<char>) -> bool {
    &&& c.time_range == (start_ms, end_ms)
    &&& c.condition matches SuccessCondition::SystemState(s) && s@ == state
    &&& c.description@ == description
}

fn event(time_ms: u64, command: ScenarioCommand, description: &str) -> (e: ScenarioEvent)
    ensures
        e.time_ms == time_ms,
        e.command == command,
        e.description@ == description@,
{
    ScenarioEvent { time_ms, command, description: String::from_str(description) }
}

fn criterion(start_ms: u64, end_ms: u64, condition: SuccessCondition, description: &str) -> (c: SuccessCriterion)
    ensures
        c.time_range == (start_ms, end_ms),
        c.condition == condition,
        c.description@ == description@,
{
    SuccessCriterion { time_range: (start_ms, end_ms), condition, description: String::from_str(description) }
}

/// The idle test scenario: 2 events, 2 success criteria.
pub open spec fn is_idle_test(s: TestScenario) -> bool {
    &&& s.name@ == "Idle Test"@
    &&& s.description@ == "System idle behavior validation"@
    &&& s.duration == 30
    &&& s.events@.len() == 2
    &&& event_is(s.events@[0], 0, ScenarioCommand::ResetToIdle, "Initialize to idle state"@)
    &&& event_is(s.events@[1], 5000, ScenarioCommand::SetRpm(800), "Maintain idle RPM"@)
    &&& s.success_criteria@.len() == 2
    &&& state_criterion_is(s.success_criteria@[0], 5000, 30000, "Idle"@, "System should remain in idle state"@)
    &&& criterion_is(s.success_criteria@[1], 5000, 30000, SuccessCondition::BoostPressureRange(0xbf800000, 0x3f800000), "Boost pressure should be near zero"@)
}

/// The wot run scenario: 6 events, 3 success criteria.
pub open spec fn is_wot_run(s: TestScenario) -> bool {
    &&& s.name@ == "WOT Run"@
    &&& s.description@ == "Full throttle boost control test"@
    &&& s.duration == 15
    &&& s.events@.len() == 6
    &&& event_is(s.events@[0], 0, ScenarioCommand::ResetToIdle, "Start at idle"@)
    &&& event_is(s.events@[1], 2000, ScenarioCommand::SetRpm(2500), "Increase to 2500 RPM"@)
    &&& event_is(s.events@[2], 3000, ScenarioCommand::SetThrottle(0x42c80000), "Full throttle application"@)
    &&& event_is(s.events@[3], 4000, ScenarioCommand::SetRpm(4000), "Reach 4000 RPM"@)
    &&& event_is(s.events@[4], 8000, ScenarioCommand::SetRpm(6000), "High RPM operation"@)
    &&& event_is(s.events@[5], 12000, ScenarioCommand::SetThrottle(0x00000000), "Release throttle"@)
    &&& s.success_criteria@.len() == 3
    &&& state_criterion_is(s.success_criteria@[0], 5000, 10000, "Armed"@, "System should be armed during WOT"@)
    &&& criterion_is(s.success_criteria@[1], 6000, 10000, SuccessCondition::BoostPressureRange(0x40a00000, 0x41400000), "Should achieve reasonable boost pressure"@)
    &&& criterion_is(s.success_criteria@[2], 0, 15000, SuccessCondition::NoOverboostEvents, "No overboost events should occur"@)
}

/// The overboost test scenario: 4 events, 3 success criteria.
pub open spec fn is_overboost_test(s: TestScenario) -> bool {
    &&& s.name@ == "Overboost Test"@
    &&& s.description@ == "Safety system overboost detection and recovery"@
    &&& s.duration == 20
    &&& s.events@.len() == 4
    &&& event_is(s.events@[0], 0, ScenarioCommand::SetRpm(3000), "Set operating RPM"@)
    &&& event_is(s.events@[1], 2000, ScenarioCommand::SetThrottle(0x42c80000), "Full throttle"@)
    &&& event_is(s.events@[2], 5000, ScenarioCommand::ForceOverboost, "Force overboost condition"@)
    &&& event_is(s.events@[3], 12000, ScenarioCommand::ResetToIdle, "Allow recovery"@)
    &&& s.success_criteria@.len() == 3
    &&& state_criterion_is(s.success_criteria@[0], 6000, 10000, "OverboostCut"@, "System should detect and respond to overboost"@)
    &&& criterion_is(s.success_criteria@[1], 6000, 10000, SuccessCondition::DutyCycleRange(0x00000000, 0x3dcccccd), "Duty cycle should be cut to 0%"@)
    &&& state_criterion_is(s.success_criteria@[2], 15000, 20000, "Armed"@, "System should recover after overboost cleared"@)
}

/// The calibration test scenario: 8 events, 3 success criteria.
pub open spec fn is_calibration_test(s: TestScenario) -> bool {
    &&& s.name@ == "Calibration Test"@
    &&& s.description@ == "Auto-calibration system validation"@
    &&& s.duration == 45
    &&& s.events@.len() == 8
    &&& event_is(s.events@[0], 0, ScenarioCommand::StartCalibration { rpm: 4000, boost_bits: 0x41000000 }, "Start calibration at 4000 RPM, 8 PSI"@)
    &&& event_is(s.events@[1], 2000, ScenarioCommand::SetRpm(4000), "Set target RPM"@)
    &&& event_is(s.events@[2], 3000, ScenarioCommand::SetThrottle(0x42c80000), "Full throttle for calibration"@)
    &&& event_is(s.events@[3], 12000, ScenarioCommand::SetThrottle(0x00000000), "End run 1"@)
    &&& event_is(s.events@[4], 15000, ScenarioCommand::SetThrottle(0x42c80000), "Start run 2"@)
    &&& event_is(s.events@[5], 25000, ScenarioCommand::SetThrottle(0x00000000), "End run 2"@)
    &&& event_is(s.events@[6], 28000, ScenarioCommand::SetThrottle(0x42c80000), "Start run 3"@)
    &&& event_is(s.events@[7], 38000, ScenarioCommand::SetThrottle(0x00000000), "End run 3"@)
    &&& s.success_criteria@.len() == 3
    &&& state_criterion_is(s.success_criteria@[0], 5000, 45000, "Calibrating"@, "System should be in calibration mode"@)
    &&& criterion_is(s.success_criteria@[1], 40000, 45000, SuccessCondition::CalibrationComplete, "Calibration should complete successfully"@)
    &&& criterion_is(s.success_criteria@[2], 0, 45000, SuccessCondition::NoOverboostEvents, "No overboost during calibration"@)
}

/// The torque cooperation scenario: 6 events, 3 success criteria.
pub open spec fn is_torque_cooperation_test(s: TestScenario) -> bool {
    &&& s.name@ == "Torque Cooperation"@
    &&& s.description@ == "ECU torque cooperation validation"@
    &&& s.duration == 25
    &&& s.events@.len() == 6
    &&& event_is(s.events@[0], 0, ScenarioCommand::SetRpm(3000), "Operating RPM"@)
    &&& event_is(s.events@[1], 2000, ScenarioCommand::SetThrottle(0x42960000), "Partial throttle"@)
    &&& event_is(s.events@[2], 8000, ScenarioCommand::ApplyTorqueLimit(0x43960000), "Simulate traction control intervention"@)
    &&& event_is(s.events@[3], 12000, ScenarioCommand::ApplyTorqueLimit(0x44160000), "Remove torque limit"@)
    &&& event_is(s.events@[4], 15000, ScenarioCommand::SetThrottle(0x42c80000), "Full throttle"@)
    &&& event_is(s.events@[5], 20000, ScenarioCommand::SetThrottle(0x00000000), "Release throttle"@)
    &&& s.success_criteria@.len() == 3
    &&& state_criterion_is(s.success_criteria@[0], 3000, 25000, "Armed"@, "System should remain armed"@)
    &&& criterion_is(s.success_criteria@[1], 9000, 11000, SuccessCondition::TorqueErrorBelow(0x42480000), "Should respond to torque limit"@)
    &&& criterion_is(s.success_criteria@[2], 0, 25000, SuccessCondition::NoOverboostEvents, "No overboost during cooperation test"@)
}

/// The profile switching scenario: 10 events, 3 success criteria.
pub open spec fn is_profile_switching_test(s: TestScenario) -> bool {
    &&& s.name@ == "Profile Switching"@
    &&& s.description@ == "Test switching between boost profiles"@
    &&& s.duration == 30
    &&& s.events@.len() == 10
    &&& profile_event_is(s.events@[0], 0, "daily"@, "Start with daily profile"@)
    &&& event_is(s.events@[1], 2000, ScenarioCommand::SetRpm(4000), "Set operating RPM"@)
    &&& event_is(s.events@[2], 3000, ScenarioCommand::SetThrottle(0x42c80000), "Full throttle"@)
    &&& event_is(s.events@[3], 8000, ScenarioCommand::SetThrottle(0x00000000), "Release throttle"@)
    &&& profile_event_is(s.events@[4], 10000, "aggressive"@, "Switch to aggressive profile"@)
    &&& event_is(s.events@[5], 12000, ScenarioCommand::SetThrottle(0x42c80000), "Full throttle with aggressive profile"@)
    &&& event_is(s.events@[6], 18000, ScenarioCommand::SetThrottle(0x00000000), "Release throttle"@)
    &&& profile_event_is(s.events@[7], 20000, "valet"@, "Switch to valet mode"@)
    &&& event_is(s.events@[8], 22000, ScenarioCommand::SetThrottle(0x42c80000), "Full throttle with valet profile"@)
    &&& event_is(s.events@[9], 28000, ScenarioCommand::SetThrottle(0x00000000), "Release throttle"@)
    &&& s.success_criteria@.len() == 3
    &&& criterion_is(s.success_criteria@[0], 5000, 7000, SuccessCondition::BoostPressureRange(0x40c00000, 0x41100000), "Daily profile boost range"@)
    &&& criterion_is(s.success_criteria@[1], 14000, 16000, SuccessCondition::BoostPressureRange(0x41000000, 0x41400000), "Aggressive profile higher boost"@)
    &&& criterion_is(s.success_criteria@[2], 24000, 26000, SuccessCondition::BoostPressureRange(0x00000000, 0x40400000), "Valet profile limited boost"@)
}

impl TestScenario {
    /// Idle system test
    pub fn idle_test() -> (s: Self)
        ensures
            is_idle_test(s),
    {
        let mut events: Vec<ScenarioEvent> = Vec::new();
        events.push(event(0, ScenarioCommand::ResetToIdle, "Initialize to idle state"));
        events.push(event(5000, ScenarioCommand::SetRpm(800), "Maintain idle RPM"));
        let mut success_criteria: Vec<SuccessCriterion> = Vec::new();
        success_criteria.push(criterion(5000, 30000, SuccessCondition::SystemState(String::from_str("Idle")), "System should remain in idle state"));
        success_criteria.push(criterion(5000, 30000, SuccessCondition::BoostPressureRange(0xbf800000, 0x3f800000), "Boost pressure should be near zero"));
        TestScenario {
            name: String::from_str("Idle Test"),
            description: String::from_str("System idle behavior validation"),
            duration: 30,
            events,
            success_criteria,
        }
    }

    /// Wide-open throttle run test
    pub fn wot_run() -> (s: Self)
        ensures
            is_wot_run(s),
    {
        let mut events: Vec<ScenarioEvent> = Vec::new();
        events.push(event(0, ScenarioCommand::ResetToIdle, "Start at idle"));
        events.push(event(2000, ScenarioCommand::SetRpm(2500), "Increase to 2500 RPM"));
        events.push(event(3000, ScenarioCommand::SetThrottle(0x42c80000), "Full throttle application"));
        events.push(event(4000, ScenarioCommand::SetRpm(4000), "Reach 4000 RPM"));
        events.push(event(8000, ScenarioCommand::SetRpm(6000), "High RPM operation"));
        events.push(event(12000, ScenarioCommand::SetThrottle(0x00000000), "Release throttle"));
        let mut success_criteria: Vec<SuccessCriterion> = Vec::new();
        success_criteria.push(criterion(5000, 10000, SuccessCondition::SystemState(String::from_str("Armed")), "System should be armed during WOT"));
        success_criteria.push(criterion(6000, 10000, SuccessCondition::BoostPressureRange(0x40a00000, 0x41400000), "Should achieve reasonable boost pressure"));
        success_criteria.push(criterion(0, 15000, SuccessCondition::NoOverboostEvents, "No overboost events should occur"));
        TestScenario {
            name: String::from_str("WOT Run"),
            description: String::from_str("Full throttle boost control test"),
            duration: 15,
            events,
            success_criteria,
        }
    }

    /// Overboost detection and recovery test
    pub fn overboost_test() -> (s: Self)
        ensures
            is_overboost_test(s),
    {
        let mut events: Vec<ScenarioEvent> = Vec::new();
        events.push(event(0, ScenarioCommand::SetRpm(3000), "Set operating RPM"));
        events.push(event(2000, ScenarioCommand::SetThrottle(0x42c80000), "Full throttle"));
        events.push(event(5000, ScenarioCommand::ForceOverboost, "Force overboost condition"));
        events.push(event(12000, ScenarioCommand::ResetToIdle, "Allow recovery"));
        let mut success_criteria: Vec<SuccessCriterion> = Vec::new();
        success_criteria.push(criterion(6000, 10000, SuccessCondition::SystemState(String::from_str("OverboostCut")), "System should detect and respond to overboost"));
        success_criteria.push(criterion(6000, 10000, SuccessCondition::DutyCycleRange(0x00000000, 0x3dcccccd), "Duty cycle should be cut to 0%"));
        success_criteria.push(criterion(15000, 20000, SuccessCondition::SystemState(String::from_str("Armed")), "System should recover after overboost cleared"));
        TestScenario {
            name: String::from_str("Overboost Test"),
            description: String::from_str("Safety system overboost detection and recovery"),
            duration: 20,
            events,
            success_criteria,
        }
    }

    /// Auto-calibration test scenario
    pub fn calibration_test() -> (s: Self)
        ensures
            is_calibration_test(s),
    {
        let mut events: Vec<ScenarioEvent> = Vec::new();
        events.push(event(0, ScenarioCommand::StartCalibration { rpm: 4000, boost_bits: 0x41000000 }, "Start calibration at 4000 RPM, 8 PSI"));
        events.push(event(2000, ScenarioCommand::SetRpm(4000), "Set target RPM"));
        events.push(event(3000, ScenarioCommand::SetThrottle(0x42c80000), "Full throttle for calibration"));
        events.push(event(12000, ScenarioCommand::SetThrottle(0x00000000), "End run 1"));
        events.push(event(15000, ScenarioCommand::SetThrottle(0x42c80000), "Start run 2"));
        events.push(event(25000, ScenarioCommand::SetThrottle(0x00000000), "End run 2"));
        events.push(event(28000, ScenarioCommand::SetThrottle(0x42c80000), "Start run 3"));
        events.push(event(38000, ScenarioCommand::SetThrottle(0x00000000), "End run 3"));
        let mut success_criteria: Vec<SuccessCriterion> = Vec::new();
        success_criteria.push(criterion(5000, 45000, SuccessCondition::SystemState(String::from_str("Calibrating")), "System should be in calibration mode"));
        success_criteria.push(criterion(40000, 45000, SuccessCondition::CalibrationComplete, "Calibration should complete successfully"));
        success_criteria.push(criterion(0, 45000, SuccessCondition::NoOverboostEvents, "No overboost during calibration"));
        TestScenario {
            name: String::from_str("Calibration Test"),
            description: String::from_str("Auto-calibration system validation"),
            duration: 45,
            events,
            success_criteria,
        }
    }

    /// Torque cooperation test
    pub fn torque_cooperation_test() -> (s: Self)
        ensures
            is_torque_cooperation_test(s),
    {
        let mut events: Vec<ScenarioEvent> = Vec::new();
        events.push(event(0, ScenarioCommand::SetRpm(3000), "Operating RPM"));
        events.push(event(2000, ScenarioCommand::SetThrottle(0x42960000), "Partial throttle"));
        events.push(event(8000, ScenarioCommand::ApplyTorqueLimit(0x43960000), "Simulate traction control intervention"));
        events.push(event(12000, ScenarioCommand::ApplyTorqueLimit(0x44160000), "Remove torque limit"));
        events.push(event(15000, ScenarioCommand::SetThrottle(0x42c80000), "Full throttle"));
        events.push(event(20000, ScenarioCommand::SetThrottle(0x00000000), "Release throttle"));
        let mut success_criteria: Vec<SuccessCriterion> = Vec::new();
        success_criteria.push(criterion(3000, 25000, SuccessCondition::SystemState(String::from_str("Armed")), "System should remain armed"));
        success_criteria.push(criterion(9000, 11000, SuccessCondition::TorqueErrorBelow(0x42480000), "Should respond to torque limit"));
        success_criteria.push(criterion(0, 25000, SuccessCondition::NoOverboostEvents, "No overboost during cooperation test"));
        TestScenario {
            name: String::from_str("Torque Cooperation"),
            description: String::from_str("ECU torque cooperation validation"),
            duration: 25,
            events,
            success_criteria,
        }
    }

    /// Profile switching test
    pub fn profile_switching_test() -> (s: Self)
        ensures
            is_profile_switching_test(s),
    {
        let mut events: Vec<ScenarioEvent> = Vec::new();
        events.push(event(0, ScenarioCommand::SwitchProfile(String::from_str("daily")), "Start with daily profile"));
        events.push(event(2000, ScenarioCommand::SetRpm(4000), "Set operating RPM"));
        events.push(event(3000, ScenarioCommand::SetThrottle(0x42c80000), "Full throttle"));
        events.push(event(8000, ScenarioCommand::SetThrottle(0x00000000), "Release throttle"));
        events.push(event(10000, ScenarioCommand::SwitchProfile(String::from_str("aggressive")), "Switch to aggressive profile"));
        events.push(event(12000, ScenarioCommand::SetThrottle(0x42c80000), "Full throttle with aggressive profile"));
        events.push(event(18000, ScenarioCommand::SetThrottle(0x00000000), "Release throttle"));
        events.push(event(20000, ScenarioCommand::SwitchProfile(String::from_str("valet")), "Switch to valet mode"));
        events.push(event(22000, ScenarioCommand::SetThrottle(0x42c80000), "Full throttle with valet profile"));
        events.push(event(28000, ScenarioCommand::SetThrottle(0x00000000), "Release throttle"));
        let mut success_criteria: Vec<SuccessCriterion> = Vec::new();
        success_criteria.push(criterion(5000, 7000, SuccessCondition::BoostPressureRange(0x40c00000, 0x41100000), "Daily profile boost range"));
        success_criteria.push(criterion(14000, 16000, SuccessCondition::BoostPressureRange(0x41000000, 0x41400000), "Aggressive profile higher boost"));
        success_criteria.push(criterion(24000, 26000, SuccessCondition::BoostPressureRange(0x00000000, 0x40400000), "Valet profile limited boost"));
        TestScenario {
            name: String::from_str("Profile Switching"),
            description: String::from_str("Test switching between boost profiles"),
            duration: 30,
            events,
            success_criteria,
        }
    }
}

/// Scenario execution runner
pub struct ScenarioRunner {
    /// Current event index
    pub current_event: usize,
    /// Events that have been executed
    pub executed_events: Vec<ScenarioEvent>,
    /// Start time of scenario
    pub start_time: Option<u64>,
}

impl ScenarioRunner {
    /// A runner at the start of a scenario.
    pub fn new() -> (r: Self)
        ensures
            r.current_event == 0,
            r.executed_events@ == Seq::<ScenarioEvent>::empty(),
            r.start_time is None,
    {
        ScenarioRunner { current_event: 0, executed_events: Vec::new(), start_time: None }
    }

    /// Run the events that are due at `current_time_ms`. The first call
    /// starts the scenario clock; every event whose time has come since
    /// then is executed in order, up to the first one not yet due. Returns
    /// the engine commands of the executed events.
    pub fn update_scenario(&mut self, scenario: &TestScenario, current_time_ms: u64) -> (commands: Vec<EngineCommand>)
        requires
            old(self).start_time matches Some(s) ==> s <= current_time_ms,
        ensures
            ({
                let start = match old(self).start_time { Some(s) => s, None => current_time_ms };
                let elapsed = (current_time_ms - start) as u64;
                let from = old(self).current_event as int;
                let events = scenario.events@;
                &&& final(self).start_time == Some(start)
                &&& from >= events.len() ==> {
                    &&& final(self).current_event == old(self).current_event
                    &&& final(self).executed_events@ == old(self).executed_events@
                    &&& commands@ == Seq::<EngineCommand>::empty()
                }
                &&& from < events.len() ==> {
                    let to = due_end(events, from, elapsed);
                    &&& final(self).current_event == to
                    &&& final(self).executed_events@ == old(self).executed_events@ + events.subrange(from, to)
                    &&& commands@ == engine_commands(events.subrange(from, to))
                }
            }),
    {
        let start = match self.start_time {
            Some(s) => s,
            None => {
                self.start_time = Some(current_time_ms);
                current_time_ms
            },
        };
        let elapsed = current_time_ms - start;
        let mut commands: Vec<EngineCommand> = Vec::new();
        if self.current_event >= scenario.events.len() {
            return commands;
        }
        let ghost events = scenario.events@;
        let ghost from = self.current_event as int;
        let ghost old_executed = self.executed_events@;
        while self.current_event < scenario.events.len()
            invariant
                events == scenario.events@,
                0 <= from < events.len(),
                from <= self.current_event <= events.len(),
                due_end(events, from, elapsed) == due_end(events, self.current_event as int, elapsed),
                self.executed_events@ == old_executed + events.subrange(from, self.current_event as int),
                commands@ == engine_commands(events.subrange(from, self.current_event as int)),
                self.start_time == Some(start),
            ensures
                self.current_event == due_end(events, from, elapsed),
                self.executed_events@ == old_executed + events.subrange(from, self.current_event as int),
                commands@ == engine_commands(events.subrange(from, self.current_event as int)),
                self.start_time == Some(start),
            decreases scenario.events@.len() - self.current_event,
        {
            let i = self.current_event;
            let event = &scenario.events[i];
            if elapsed >= event.time_ms {
                proof {
                    let next = events.subrange(from, i as int + 1);
                    assert(next.drop_last() =~= events.subrange(from, i as int));
                    assert(next.last() == events[i as int]);
                }
                match convert_scenario_command(&event.command) {
                    Some(engine_cmd) => {
                        commands.push(engine_cmd);
                    },
                    None => {},
                }
                self.executed_events.push(copy_event(event));
                self.current_event = i + 1;
                proof {
                    assert(self.executed_events@ =~= old_executed + events.subrange(from, self.current_event as int));
                }
            } else {
                break;
            }
        }
        commands
    }

    /// Reset scenario runner for new scenario
    pub fn reset(&mut self)
        ensures
            final(self).current_event == 0,
            final(self).executed_events@ == Seq::<ScenarioEvent>::empty(),
            final(self).start_time is None,
    {
        self.current_event = 0;
        self.executed_events.clear();
        self.start_time = None;
    }
}

impl Default for ScenarioRunner {
    fn default() -> (r: Self)
        ensures
            r.current_event == 0,
            r.executed_events@ == Seq::<ScenarioEvent>::empty(),
            r.start_time is None,
    {
        Self::new()
    }
}

/// The runner executes exactly the events that are due, in order: every
/// event it runs in an update has reached its time, it stops at the first
/// one that has not, and what it has run is always a prefix of the
/// scenario's events.
pub proof fn lemma_runner_executes_due_prefix(events: Seq<ScenarioEvent>, from: int, elapsed: u64)
    requires
        0 <= from <= events.len(),
    ensures
        from <= due_end(events, from, elapsed) <= events.len(),
        forall|k: int| from <= k < due_end(events, from, elapsed) ==> #[trigger] events[k].time_ms <= elapsed,
        due_end(events, from, elapsed) < events.len() ==> events[due_end(events, from, elapsed)].time_ms > elapsed,
        events.subrange(0, from) + events.subrange(from, due_end(events, from, elapsed))
            == events.subrange(0, due_end(events, from, elapsed)),
    decreases events.len() - from,
{
    if from < events.len() && events[from].time_ms <= elapsed {
        lemma_runner_executes_due_prefix(events, from + 1, elapsed);
    }
    assert(events.subrange(0, from) + events.subrange(from, due_end(events, from, elapsed))
        =~= events.subrange(0, due_end(events, from, elapsed)));
}

} // verus!
