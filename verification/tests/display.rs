use rumbledome::display::{
    can_status_text, error_message_lines, profile_short_name, rpm_color, rpm_readout, DisplayState,
    OverboostDisplayState, StatusLayout,
};
use rumbledome::types::{Color, DisplayMode};

#[test]
fn status_message_is_truncated_and_terminated() {
    let mut d = DisplayState::new();
    assert!(!d.has_active_status());
    d.show_status_message("Profile: Sport", 2000);
    assert!(d.has_active_status());
    assert_eq!(d.status_text_bytes(), b"Profile: Sport".to_vec());
    let long = "z".repeat(100);
    d.show_status_message(&long, 10);
    assert_eq!(d.status_text_bytes(), vec![b'z'; 63]);
    assert_eq!(d.status_message[63], 0);
}

#[test]
fn shorter_message_replaces_longer() {
    let mut d = DisplayState::new();
    d.show_status_message("abcdef", 10);
    d.show_status_message("xy", 10);
    assert_eq!(d.status_text_bytes(), b"xy".to_vec());
    assert_eq!(&d.status_message[..6], b"xy\0def");
}

#[test]
fn status_timeout_counts_down() {
    let mut d = DisplayState::new();
    d.show_status_message("hi", 100);
    d.update_status_timeout(60);
    assert_eq!(d.status_timeout, 40);
    assert!(d.has_active_status());
    d.update_status_timeout(60);
    assert_eq!(d.status_timeout, 0);
    assert!(!d.has_active_status());
}

#[test]
fn mode_change_clears_frames() {
    let mut d = DisplayState::new();
    d.count_frame();
    d.count_frame();
    assert!(!d.set_display_mode(DisplayMode::Gauges));
    assert_eq!(d.frame_counter, 2);
    assert!(d.set_display_mode(DisplayMode::Status));
    assert_eq!(d.frame_counter, 0);
    assert_eq!(d.get_display_mode(), DisplayMode::Status);
}

#[test]
fn error_text_is_wrapped() {
    let lines = error_message_lines("Pressure sensor fault on manifold input");
    assert_eq!(lines, vec!["Pressure sensor faul".to_string(), "t on manifold input".to_string()]);
    assert!(error_message_lines("").is_empty());
    let long = "e".repeat(500);
    let lines = error_message_lines(&long);
    assert_eq!(lines.len(), 8);
    assert!(lines.iter().all(|l| l.len() == 20));
}

#[test]
fn status_screen_per_mode() {
    let mut d = DisplayState::new();
    let p = d.plan_status_screen(OverboostDisplayState::Active);
    assert_eq!(p.layout, Some(StatusLayout::Compact));
    assert!(!p.show_message);
    assert!(p.show_overboost_warning);
    d.show_status_message("hello", 100);
    d.set_display_mode(rumbledome::types::DisplayMode::Status);
    let p = d.plan_status_screen(OverboostDisplayState::Recovery);
    assert_eq!(p.layout, Some(StatusLayout::Full));
    assert!(p.show_message);
    assert!(!p.show_overboost_warning);
    d.set_display_mode(rumbledome::types::DisplayMode::Diagnostics);
    let p = d.plan_status_screen(OverboostDisplayState::Active);
    assert_eq!(p.layout, None);
    assert!(!p.show_message && !p.show_overboost_warning);
}

#[test]
fn rpm_colour_thresholds() {
    assert_eq!(rpm_color(0), Color::White);
    assert_eq!(rpm_color(6000), Color::White);
    assert_eq!(rpm_color(6001), Color::Yellow);
    assert_eq!(rpm_color(6500), Color::Yellow);
    assert_eq!(rpm_color(6501), Color::Red);
}

#[test]
fn can_status_readout() {
    assert_eq!(can_status_text(true), "CAN:OK");
    assert_eq!(can_status_text(false), "CAN:ERR");
}

#[test]
fn profile_tags() {
    assert_eq!(profile_short_name("Daily Driver"), "DAILY");
    assert_eq!(profile_short_name("Sport Mode"), "SPORT");
    assert_eq!(profile_short_name("Track Day"), "TRACK");
    assert_eq!(profile_short_name("Valet Mode"), "VALET");
    assert_eq!(profile_short_name("My Tune"), "CUSTM");
    assert_eq!(profile_short_name(""), "CUSTM");
}

#[test]
fn rpm_readout_is_right_aligned() {
    assert_eq!(rpm_readout(0), "   0rpm");
    assert_eq!(rpm_readout(850), " 850rpm");
    assert_eq!(rpm_readout(6500), "6500rpm");
    assert_eq!(rpm_readout(12345), "12345rpm");
    assert_eq!(rpm_readout(42), format!("{:4}rpm", 42));
}
