use rumbledome::can::{
    coyote_filter_ids, frame_id_for, message_from_frame, remote_frame_len, CanBusState, CanErrorKind,
    CanErrorStats, CanFrameId, CanMessage, CoyoteCanParser,
};
use rumbledome::types::DriveMode;

fn msg(id: u32, data: &[u8]) -> CanMessage {
    CanMessage { id, data: data.to_vec(), extended: false, rtr: false }
}

#[test]
fn parser_decodes_rpm_little_endian() {
    let mut p = CoyoteCanParser::new();
    assert!(p.parse_message(&msg(0x201, &[0xB8, 0x0B]), 50));
    assert_eq!(p.last_data.rpm, 3000);
    assert!(p.data_valid.rpm_valid);
    assert_eq!(p.last_data.timestamp_ms, 50);
}

#[test]
fn parser_decodes_all_signals() {
    let mut p = CoyoteCanParser::new();
    p.parse_message(&msg(0x202, &[0xE8, 0x03]), 1);
    p.parse_message(&msg(0x203, &[0x10, 0x27]), 2);
    p.parse_message(&msg(0x204, &[0x20, 0x4E]), 3);
    p.parse_message(&msg(0x205, &[0xFF]), 4);
    p.parse_message(&msg(0x206, &[2]), 5);
    assert_eq!(p.last_data.map_kpa_raw, 1000);
    assert_eq!(p.last_data.desired_torque_raw, 10000);
    assert_eq!(p.last_data.actual_torque_raw, 20000);
    assert_eq!(p.last_data.throttle_raw, Some(255));
    assert_eq!(p.last_data.drive_mode, Some(DriveMode::SportPlus));
    assert!(!p.has_valid_data());
    p.parse_message(&msg(0x201, &[1, 0]), 6);
    assert!(p.has_valid_data());
}

#[test]
fn parser_ignores_unknown_and_short_messages() {
    let mut p = CoyoteCanParser::new();
    assert!(!p.parse_message(&msg(0x300, &[1, 2, 3]), 10));
    assert!(!p.parse_message(&msg(0x201, &[1]), 10));
    assert!(!p.data_valid.rpm_valid);
    assert_eq!(p.last_data.timestamp_ms, 0);
}

#[test]
fn parser_data_age() {
    let mut p = CoyoteCanParser::new();
    p.parse_message(&msg(0x201, &[1, 0]), 100);
    assert_eq!(p.data_age_ms(350), 250);
    assert_eq!(p.data_age_ms(50), 0);
}

#[test]
fn bus_connection_follows_message_age() {
    let mut bus = CanBusState::new();
    bus.update_connection_status(5);
    assert!(!bus.is_connected());
    bus.record_message(100);
    bus.update_connection_status(1099);
    assert!(bus.is_connected());
    bus.update_connection_status(1100);
    assert!(!bus.is_connected());
}

#[test]
fn bus_errors_are_counted() {
    let mut bus = CanBusState::new();
    bus.record_message(0);
    bus.update_connection_status(10);
    bus.handle_can_error(CanErrorKind::Transmit, 20);
    bus.handle_can_error(CanErrorKind::Receive, 21);
    bus.handle_can_error(CanErrorKind::ErrorPassive, 22);
    assert!(bus.is_connected());
    bus.handle_can_error(CanErrorKind::BusOff, 23);
    assert!(!bus.is_connected());
    let s = bus.get_error_stats();
    assert_eq!((s.tx_errors, s.rx_errors, s.bus_off_count), (1, 1, 1));
    assert_eq!(s.last_error_ms, Some(23));
    bus.reset();
    let s = bus.get_error_stats();
    assert_eq!((s.tx_errors, s.rx_errors, s.bus_off_count, s.last_error_ms), (0, 0, 0, None));
    let d = CanErrorStats::default();
    assert_eq!(d.error_passive_count, 0);
}

#[test]
fn frames_and_messages() {
    assert_eq!(coyote_filter_ids(), [0x201, 0x202, 0x203, 0x204, 0x205, 0x206]);
    let std_msg = CanMessage { id: 0x1_0201, data: vec![1, 2, 3], extended: false, rtr: false };
    assert_eq!(frame_id_for(&std_msg), CanFrameId::Standard(0x0201));
    let ext_msg = CanMessage { id: 0x1ABC_DEF0, data: vec![], extended: true, rtr: true };
    assert_eq!(frame_id_for(&ext_msg), CanFrameId::Extended(0x1ABC_DEF0));
    assert_eq!(remote_frame_len(&std_msg), 3);
    let m = message_from_frame(CanFrameId::Standard(0x202), &[0xE8, 0x03], false);
    assert_eq!((m.id, m.extended, m.rtr), (0x202, false, false));
    assert_eq!(m.data, vec![0xE8, 0x03]);
    let e = message_from_frame(CanFrameId::Extended(0x18DAF110), &[], true);
    assert_eq!((e.id, e.extended, e.rtr), (0x18DAF110, true, true));
}
