//! Keyboard control of the desktop simulator: the key map that sets the
//! throttle, the drive mode and the shown tab, and turns key presses into
//! commands for the engine model. Reading the terminal is outside this
//! module; it is handed each key press.

use vstd::prelude::*;
use crate::scenarios::EngineCommand;
use crate::types::DriveMode;

verus! {

/// Throttle change of one Up or Down press (%)
pub const THROTTLE_STEP: u8 = 5;

/// Number of tabs of the simulator screen
pub const TAB_COUNT: usize = 3;

/// A key press of the simulator terminal
#[derive(Debug, Clone, Copy, PartialEq, Eq)]
pub enum SimKey {
    Char(char),
    Up,
    Down,
    Tab,
    Esc,
    Other,
}

/// What the keyboard controls of the simulator
#[derive(Debug, Clone, Copy, PartialEq, Eq)]
pub struct SimUiState {
    /// Currently selected tab
    pub active_tab: usize,
    /// Simulated throttle position (%), a multiple of 5
    pub throttle_percent: u8,
    /// Selected drive mode
    pub drive_mode: DriveMode,
    /// The user asked to quit
    pub should_quit: bool,
}

/// Bit pattern of the `f32` throttle position `p` %, for the multiples of
/// 5 from 0 to 100.
pub open spec fn throttle_bits(p: u8) -> u32 {
    match p {
        0 => 0x00000000u32,
        5 => 0x40a00000u32,
        10 => 0x41200000u32,
        15 => 0x41700000u32,
        20 => 0x41a00000u32,
        25 => 0x41c80000u32,
        30 => 0x41f00000u32,
        35 => 0x420c0000u32,
        40 => 0x42200000u32,
        45 => 0x42340000u32,
        50 => 0x42480000u32,
        55 => 0x425c0000u32,
        60 => 0x42700000u32,
        65 => 0x42820000u32,
        70 => 0x428c0000u32,
        75 => 0x42960000u32,
        80 => 0x42a00000u32,
        85 => 0x42aa0000u32,
        90 => 0x42b40000u32,
        95 => 0x42be0000u32,
        _ => 0x42c80000u32,
    }
}

fn throttle_bits_of(p: u8) -> (b: u32)
    ensures
        b == throttle_bits(p),
{
    match p {
        0 => 0x00000000,
        5 => 0x40a00000,
        10 => 0x41200000,
        15 => 0x41700000,
        20 => 0x41a00000,
        25 => 0x41c80000,
        30 => 0x41f00000,
        35 => 0x420c0000,
        40 => 0x42200000,
        45 => 0x42340000,
        50 => 0x42480000,
        55 => 0x425c0000,
        60 => 0x42700000,
        65 => 0x42820000,
        70 => 0x428c0000,
        75 => 0x42960000,
        80 => 0x42a00000,
        85 => 0x42aa0000,
        90 => 0x42b40000,
        95 => 0x42be0000,
        _ => 0x42c80000,
    }
}

impl SimUiState {
    /// The tab is one of the three, and the throttle a multiple of 5 up to 100.
    pub open spec fn wf(&self) -> bool {
        &&& self.active_tab < TAB_COUNT
        &&& self.throttle_percent <= 100
        &&& self.throttle_percent % 5 == 0
    }

    /// The first tab, closed throttle, normal drive mode.
    pub fn new() -> (s: Self)
        ensures
            s.wf(),
            s.active_tab == 0,
            s.throttle_percent == 0,
            s.drive_mode == DriveMode::Normal,
            !s.should_quit,
    {
        SimUiState { active_tab: 0, throttle_percent: 0, drive_mode: DriveMode::Normal, should_quit: false }
    }
}

/// The state after key press `key`, and the commands it sends.
pub open spec fn key_effect(s: SimUiState, key: SimKey) -> (SimUiState, Seq<EngineCommand>) {
    match key {
        SimKey::Esc | SimKey::Char('q') => (SimUiState { should_quit: true, ..s }, Seq::empty()),
        SimKey::Up => {
            let t = if s.throttle_percent >= 95 { 100u8 } else { (s.throttle_percent + 5) as u8 };
            (SimUiState { throttle_percent: t, ..s }, seq![EngineCommand::SetThrottle(throttle_bits(t))])
        },
        SimKey::Down => {
            let t = if s.throttle_percent <= 5 { 0u8 } else { (s.throttle_percent - 5) as u8 };
            (SimUiState { throttle_percent: t, ..s }, seq![EngineCommand::SetThrottle(throttle_bits(t))])
        },
        SimKey::Char('0') => (SimUiState { throttle_percent: 0, ..s }, seq![EngineCommand::SetThrottle(throttle_bits(0))]),
        SimKey::Char('5') => (SimUiState { throttle_percent: 50, ..s }, seq![EngineCommand::SetThrottle(throttle_bits(50))]),
        SimKey::Char('w') => (SimUiState { throttle_percent: 100, ..s }, seq![EngineCommand::SetThrottle(throttle_bits(100))]),
        SimKey::Char('n') => (SimUiState { drive_mode: DriveMode::Normal, ..s }, seq![EngineCommand::SetDriveMode(DriveMode::Normal)]),
        SimKey::Char('s') => (SimUiState { drive_mode: DriveMode::Sport, ..s }, seq![EngineCommand::SetDriveMode(DriveMode::Sport)]),
        SimKey::Char('p') => (SimUiState { drive_mode: DriveMode::SportPlus, ..s }, seq![EngineCommand::SetDriveMode(DriveMode::SportPlus)]),
        SimKey::Char('t') => (SimUiState { drive_mode: DriveMode::Track, ..s }, seq![EngineCommand::SetDriveMode(DriveMode::Track)]),
        SimKey::Tab => (SimUiState { active_tab: ((s.active_tab + 1) % (TAB_COUNT as int)) as usize, ..s }, Seq::empty()),
        SimKey::Char('r') => (SimUiState { throttle_percent: 0, ..s }, seq![EngineCommand::ResetToIdle]),
        SimKey::Char('o') => (s, seq![EngineCommand::ForceOverboost]),
        _ => (s, Seq::empty()),
    }
}

/// Handle one key press: q or Esc quits; Up and Down move the throttle by
/// 5 % within 0-100 %; 0, 5 and w set it to 0, 50 and 100 %; n, s, p and
/// t pick the drive mode; Tab shows the next tab; r resets the engine to
/// idle with the throttle closed; o forces an overboost. Every throttle or
/// drive mode change is sent to the engine model.
pub fn apply_key(state: &mut SimUiState, key: SimKey) -> (commands: Vec<EngineCommand>)
    requires
        old(state).wf(),
    ensures
        final(state).wf(),
        *final(state) == key_effect(*old(state), key).0,
        commands@ == key_effect(*old(state), key).1,
{
    let mut commands: Vec<EngineCommand> = Vec::new();
    match key {
        SimKey::Esc | SimKey::Char('q') => {
            state.should_quit = true;
        },
        SimKey::Up => {
            state.throttle_percent = if state.throttle_percent >= 95 { 100 } else { state.throttle_percent + THROTTLE_STEP };
            commands.push(EngineCommand::SetThrottle(throttle_bits_of(state.throttle_percent)));
        },
        SimKey::Down => {
            state.throttle_percent = if state.throttle_percent <= 5 { 0 } else { state.throttle_percent - THROTTLE_STEP };
            commands.push(EngineCommand::SetThrottle(throttle_bits_of(state.throttle_percent)));
        },
        SimKey::Char('0') => {
            state.throttle_percent = 0;
            commands.push(EngineCommand::SetThrottle(throttle_bits_of(0)));
        },
        SimKey::Char('5') => {
            state.throttle_percent = 50;
            commands.push(EngineCommand::SetThrottle(throttle_bits_of(50)));
        },
        SimKey::Char('w') => {
            state.throttle_percent = 100;
            commands.push(EngineCommand::SetThrottle(throttle_bits_of(100)));
        },
        SimKey::Char('n') => {
            state.drive_mode = DriveMode::Normal;
            commands.push(EngineCommand::SetDriveMode(DriveMode::Normal));
        },
        SimKey::Char('s') => {
            state.drive_mode = DriveMode::Sport;
            commands.push(EngineCommand::SetDriveMode(DriveMode::Sport));
        },
        SimKey::Char('p') => {
            state.drive_mode = DriveMode::SportPlus;
            commands.push(EngineCommand::SetDriveMode(DriveMode::SportPlus));
        },
        SimKey::Char('t') => {
            state.drive_mode = DriveMode::Track;
            commands.push(EngineCommand::SetDriveMode(DriveMode::Track));
        },
        SimKey::Tab => {
            state.active_tab = (state.active_tab + 1) % TAB_COUNT;
        },
        SimKey::Char('r') => {
            commands.push(EngineCommand::ResetToIdle);
            state.throttle_percent = 0;
        },
        SimKey::Char('o') => {
            commands.push(EngineCommand::ForceOverboost);
        },
        _ => {},
    }
    commands
}

/// Handle the outcome of one poll of the terminal: `None` when no key was
/// pressed within the poll, which changes nothing and sends nothing;
/// otherwise the key press as `apply_key` handles it.
pub fn process_event(state: &mut SimUiState, event: Option<SimKey>) -> (commands: Vec<EngineCommand>)
    requires
        old(state).wf(),
    ensures
        final(state).wf(),
        event is None ==> *final(state) == *old(state) && commands@ == Seq::<EngineCommand>::empty(),
        event matches Some(key) ==> *final(state) == key_effect(*old(state), key).0
            && commands@ == key_effect(*old(state), key).1,
{
    match event {
        Some(key) => apply_key(state, key),
        None => Vec::new(),
    }
}

} // verus!
