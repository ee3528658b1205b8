use rumbledome::scenarios::EngineCommand;
use rumbledome::sim_input::{apply_key, process_event, SimKey, SimUiState};
use rumbledome::types::DriveMode;

#[test]
fn throttle_keys_step_and_clamp() {
    let mut s = SimUiState::new();
    assert_eq!(apply_key(&mut s, SimKey::Down), vec![EngineCommand::SetThrottle(0.0f32.to_bits())]);
    assert_eq!(s.throttle_percent, 0);
    assert_eq!(apply_key(&mut s, SimKey::Up), vec![EngineCommand::SetThrottle(5.0f32.to_bits())]);
    assert_eq!(apply_key(&mut s, SimKey::Char('5')), vec![EngineCommand::SetThrottle(50.0f32.to_bits())]);
    for _ in 0..20 {
        apply_key(&mut s, SimKey::Up);
    }
    assert_eq!(s.throttle_percent, 100);
    assert_eq!(apply_key(&mut s, SimKey::Up), vec![EngineCommand::SetThrottle(100.0f32.to_bits())]);
    let mut p = 100u8;
    while p > 0 {
        p -= 5;
        assert_eq!(apply_key(&mut s, SimKey::Down), vec![EngineCommand::SetThrottle((p as f32).to_bits())]);
    }
    assert_eq!(apply_key(&mut s, SimKey::Char('w')), vec![EngineCommand::SetThrottle(100.0f32.to_bits())]);
    assert_eq!(apply_key(&mut s, SimKey::Char('r')), vec![EngineCommand::ResetToIdle]);
    assert_eq!(s.throttle_percent, 0);
}

#[test]
fn mode_tab_and_quit_keys() {
    let mut s = SimUiState::new();
    assert_eq!(apply_key(&mut s, SimKey::Char('p')), vec![EngineCommand::SetDriveMode(DriveMode::SportPlus)]);
    assert_eq!(s.drive_mode, DriveMode::SportPlus);
    assert_eq!(apply_key(&mut s, SimKey::Char('t')), vec![EngineCommand::SetDriveMode(DriveMode::Track)]);
    assert!(apply_key(&mut s, SimKey::Tab).is_empty());
    assert!(apply_key(&mut s, SimKey::Tab).is_empty());
    assert_eq!(s.active_tab, 2);
    apply_key(&mut s, SimKey::Tab);
    assert_eq!(s.active_tab, 0);
    assert_eq!(apply_key(&mut s, SimKey::Char('o')), vec![EngineCommand::ForceOverboost]);
    assert!(apply_key(&mut s, SimKey::Char('x')).is_empty());
    assert!(!s.should_quit);
    assert!(apply_key(&mut s, SimKey::Esc).is_empty());
    assert!(s.should_quit);
}

#[test]
fn poll_without_key_changes_nothing() {
    let mut s = SimUiState::new();
    apply_key(&mut s, SimKey::Char('5'));
    let before = s;
    assert!(process_event(&mut s, None).is_empty());
    assert_eq!(s, before);
    assert_eq!(
        process_event(&mut s, Some(SimKey::Up)),
        vec![EngineCommand::SetThrottle(55.0f32.to_bits())]
    );
    assert_eq!(s.throttle_percent, 55);
}
