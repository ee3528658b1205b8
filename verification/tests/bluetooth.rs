use rumbledome::bluetooth::{BluetoothStatus, Teensy41Bluetooth};
use rumbledome::error::HalError;

#[test]
fn new_session_is_ready_and_unconnected() {
    let bt = Teensy41Bluetooth::new().unwrap();
    assert!(!bt.is_connected());
    assert_eq!(bt.get_status(), BluetoothStatus::Ready);
    assert_eq!(bt.tx_buffer.as_slice(), b"AT+INQ\r\n");
    assert_eq!(bt.security_config.pin_code.as_ref().unwrap().as_str(), "123456");
    assert_eq!(bt.security_config.connection_timeout_s, 300);
    assert_eq!(bt.get_connection_info().unwrap(), "Not connected");
}

#[test]
fn one_device_at_a_time() {
    let mut bt = Teensy41Bluetooth::new().unwrap();
    bt.handle_connection("AA:BB:CC:DD:EE:FF", 1000).unwrap();
    assert!(bt.is_connected());
    assert_eq!(bt.get_status(), BluetoothStatus::Connected);
    match bt.handle_connection("11:22:33:44:55:66", 2000) {
        Err(HalError::DeviceBusy(m)) => assert_eq!(m, "Already connected to another device"),
        _ => panic!("second connection must be refused"),
    }
    assert_eq!(bt.get_connected_device().unwrap().address.as_str(), "AA:BB:CC:DD:EE:FF");
    assert_eq!(
        bt.get_connection_info().unwrap(),
        "Connected: AA:BB:CC:DD:EE:FF (Unknown)\nSignal: -50dBm\nConnected at: 1000\nType: Unknown"
    );
}

#[test]
fn overlong_address_is_refused() {
    let mut bt = Teensy41Bluetooth::new().unwrap();
    match bt.handle_connection("AA:BB:CC:DD:EE:FF:00", 1) {
        Err(HalError::InvalidParameter(m)) => assert_eq!(m, "Invalid device address"),
        _ => panic!("address must fit 18 bytes"),
    }
    assert!(!bt.is_connected());
}

#[test]
fn connection_times_out() {
    let mut bt = Teensy41Bluetooth::new().unwrap();
    bt.handle_connection("AA:BB:CC:DD:EE:FF", 1000).unwrap();
    bt.process_connections(301_000).unwrap();
    assert!(bt.is_connected());
    bt.process_connections(301_001).unwrap();
    assert!(!bt.is_connected());
    assert_eq!(bt.get_status(), BluetoothStatus::Ready);
    assert!(bt.tx_buffer.is_empty());
    assert!(bt.get_connected_device().is_none());
}

#[test]
fn disconnect_then_reconnect() {
    let mut bt = Teensy41Bluetooth::new().unwrap();
    bt.disconnect().unwrap();
    assert_eq!(bt.tx_buffer.as_slice(), b"AT+INQ\r\n");
    bt.handle_connection("AA:BB", 5).unwrap();
    bt.disconnect_device().unwrap();
    assert!(!bt.is_connected());
    assert_eq!(bt.connection_timestamp, 0);
    bt.handle_connection("CC:DD", 6).unwrap();
    assert!(bt.is_connected());
}

#[test]
fn data_needs_a_connection() {
    let mut bt = Teensy41Bluetooth::new().unwrap();
    match bt.send_data(b"x") {
        Err(HalError::DeviceNotReady(m)) => assert_eq!(m, "No Bluetooth device connected"),
        _ => panic!(),
    }
    assert!(bt.receive_console_input().unwrap().is_none());
    bt.handle_connection("AA", 0).unwrap();
    assert!(bt.send_data(b"x").is_ok());
}

#[test]
fn at_commands_end_with_crlf() {
    let mut bt = Teensy41Bluetooth::new().unwrap();
    bt.send_at_command("AT+NAME=X").unwrap();
    assert_eq!(bt.tx_buffer.as_slice(), b"AT+NAME=X\r\n");
    let long = "A".repeat(1023);
    match bt.send_at_command(&long) {
        Err(HalError::BufferOverflow(m)) => assert_eq!(m, "AT command too long"),
        _ => panic!(),
    }
}

#[test]
fn console_output_needs_connection_and_input_is_empty() {
    let mut bt = Teensy41Bluetooth::new().unwrap();
    assert!(bt.send_console_output(b"hello").is_err());
    assert!(matches!(bt.receive_data(), Ok(None)));
    bt.handle_connection("AA:BB:CC:DD:EE:FF", 1000).unwrap();
    assert!(bt.send_console_output(b"hello").is_ok());
    assert!(matches!(bt.receive_data(), Ok(None)));
    assert!(matches!(bt.receive_console_input(), Ok(None)));
}
