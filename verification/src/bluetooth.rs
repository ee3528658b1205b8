//! Bluetooth Serial Port Profile session: a wireless serial console that
//! behaves like the USB-C console. The module is driven with AT commands;
//! this module keeps the session state, queues the command bytes and
//! decides on connections, timeouts and disconnects. The UART that carries
//! the bytes is outside it.

use vstd::prelude::*;
use vstd::string::*;
use crate::bounded::{
    address_as_str, address_chars, address_try_from, device_name_as_str, device_name_chars,
    pin_chars, pin_try_from, rx_bytes, rx_clear, rx_new, tx_bytes, tx_clear, tx_extend, tx_new,
};
use crate::error::HalError;
use crate::text::{append_decimal, append_signed, decimal, signed_decimal};

verus! {

/// Maximum packet size for Bluetooth transmission
pub const MAX_PACKET_SIZE: usize = 244;

/// Buffer sizes for transmit/receive queues
pub const TX_BUFFER_SIZE: usize = 1024;
pub const RX_BUFFER_SIZE: usize = 512;

/// Connection timeout in milliseconds
pub const CONNECTION_TIMEOUT_MS: u32 = 30000;

/// Signal strength recorded for a new connection (dBm)
pub const DEFAULT_SIGNAL_STRENGTH: i8 = -50;

/// Type of connected device
#[derive(Debug, Clone, Copy, PartialEq, Eq, Structural)]
pub enum DeviceType {
    /// iOS/Android phone
    Smartphone,
    /// iPad/Android tablet
    Tablet,
    /// Windows/Mac/Linux laptop
    Laptop,
    /// Unidentified device
    Unknown,
}

/// Bluetooth module operational status
#[derive(Debug, Clone, Copy, PartialEq, Eq, Structural)]
pub enum BluetoothStatus {
    /// Module starting up
    Initializing,
    /// Ready for connections
    Ready,
    /// Device connected
    Connected,
    /// Module error state
    Error,
    /// Bluetooth disabled
    Disabled,
}

/// Information about connected Bluetooth device
#[derive(Debug)]
pub struct ConnectedDevice {
    /// Device MAC address, "XX:XX:XX:XX:XX:XX" format
    pub address: heapless::String<18>,
    /// Device name (if available)
    pub name: Option<heapless::String<64>>,
    /// Connection signal strength (RSSI)
    pub signal_strength: i8,
    /// Connection timestamp
    pub connected_at: u64,
    /// Device type classification
    pub device_type: DeviceType,
}

/// Security and pairing configuration
#[derive(Debug)]
pub struct SecurityConfig {
    /// Require pairing for connections
    pub require_pairing: bool,
    /// PIN code for pairing (if static)
    pub pin_code: Option<heapless::String<6>>,
    /// Maximum simultaneous connections (typically 1)
    pub max_connections: u8,
    /// Auto-accept known devices
    pub auto_accept_paired: bool,
    /// Connection timeout seconds
    pub connection_timeout_s: u16,
}

/// Bluetooth serial session
pub struct Teensy41Bluetooth {
    /// Connection status
    pub connected: bool,
    /// Connection timestamp (for timeout detection)
    pub connection_timestamp: u64,
    /// Connected device information
    pub connected_device: Option<ConnectedDevice>,
    /// Transmit buffer for outgoing data
    pub tx_buffer: heapless::Vec<u8, 1024>,
    /// Receive buffer for incoming data
    pub rx_buffer: heapless::Vec<u8, 512>,
    /// Bluetooth module status
    pub module_status: BluetoothStatus,
    /// Security settings
    pub security_config: SecurityConfig,
}

/// The bytes of an AT command as sent: the command, then CR LF.
pub open spec fn at_line(command: &str) -> Seq<u8> {
    command.spec_bytes() + seq![13u8, 10u8]
}

/// The name `{:?}` gives a device type.
pub open spec fn device_type_text(t: DeviceType) -> Seq<char> {
    match t {
        DeviceType::Smartphone => "Smartphone"@,
        DeviceType::Tablet => "Tablet"@,
        DeviceType::Laptop => "Laptop"@,
        DeviceType::Unknown => "Unknown"@,
    }
}

/// The connection report for a connected device.
pub open spec fn connection_report(d: ConnectedDevice) -> Seq<char> {
    "Connected: "@ + address_chars(d.address) + " ("@
        + (match d.name { Some(n) => device_name_chars(n), None => "Unknown"@ })
        + ")\nSignal: "@ + signal_text(d.signal_strength) + "dBm\nConnected at: "@
        + decimal(d.connected_at as nat) + "\nType: "@ + device_type_text(d.device_type)
}

/// The signal strength in decimal.
pub open spec fn signal_text(s: i8) -> Seq<char> {
    signed_decimal(s as int)
}

fn device_type_str(t: DeviceType) -> (s: &'static str)
    ensures
        s@ == device_type_text(t),
{
    match t {
        DeviceType::Smartphone => "Smartphone",
        DeviceType::Tablet => "Tablet",
        DeviceType::Laptop => "Laptop",
        DeviceType::Unknown => "Unknown",
    }
}

impl Teensy41Bluetooth {
    /// The session holds a device exactly when it is connected.
    pub open spec fn wf(&self) -> bool {
        self.connected <==> self.connected_device is Some
    }

    /// The moment after which the current connection has timed out (ms).
    pub open spec fn timeout_deadline(&self) -> int {
        self.connection_timestamp + self.security_config.connection_timeout_s * 1000
    }

    /// Create the session and initialize the module: reset, slave role,
    /// device name, PIN, SPP service, then discoverable.
    pub fn new() -> (r: Result<Self, HalError>)
        ensures
            r matches Ok(bt) && {
                &&& bt.wf()
                &&& !bt.connected
                &&& bt.connection_timestamp == 0
                &&& bt.module_status == BluetoothStatus::Ready
                &&& bt.security_config.require_pairing
                &&& bt.security_config.pin_code matches Some(p) && pin_chars(p) == "123456"@
                &&& bt.security_config.max_connections == 1
                &&& bt.security_config.auto_accept_paired
                &&& bt.security_config.connection_timeout_s == 300
                &&& tx_bytes(bt.tx_buffer) == at_line("AT+INQ")
                &&& rx_bytes(bt.rx_buffer) == Seq::<u8>::empty()
            },
    {
        proof {
            reveal_strlit("123456");
            is_ascii_spec_bytes("123456");
        }
        let pin = pin_try_from("123456");
        let pin_code = match pin {
            Ok(p) => p,
            Err(_) => { return Err(HalError::InvalidParameter(String::from_str("Invalid PIN"))); },
        };
        let security_config = SecurityConfig {
            require_pairing: true,
            pin_code: Some(pin_code),
            max_connections: 1,
            auto_accept_paired: true,
            connection_timeout_s: 300,
        };
        let mut bluetooth = Teensy41Bluetooth {
            connected: false,
            connection_timestamp: 0,
            connected_device: None,
            tx_buffer: tx_new(),
            rx_buffer: rx_new(),
            module_status: BluetoothStatus::Initializing,
            security_config,
        };
        let init = bluetooth.initialize_module();
        match init {
            Ok(()) => Ok(bluetooth),
            Err(e) => Err(e),
        }
    }

    /// Send the initialization AT commands; the module is ready after.
    fn initialize_module(&mut self) -> (r: Result<(), HalError>)
        requires
            old(self).wf(),
        ensures
            r is Ok,
            final(self).wf(),
            final(self).module_status == BluetoothStatus::Ready,
            tx_bytes(final(self).tx_buffer) == at_line("AT+INQ"),
            final(self).connected == old(self).connected,
            final(self).connection_timestamp == old(self).connection_timestamp,
            final(self).connected_device == old(self).connected_device,
            rx_bytes(final(self).rx_buffer) == rx_bytes(old(self).rx_buffer),
            final(self).security_config == old(self).security_config,
    {
        proof {
            reveal_strlit("AT+RESET");
            reveal_strlit("AT+ROLE=0");
            reveal_strlit("AT+NAME=RumbleDome-EBC");
            reveal_strlit("AT+PSWD=123456");
            reveal_strlit("AT+INIT");
            reveal_strlit("AT+INQ");
            is_ascii_spec_bytes("AT+RESET");
            is_ascii_spec_bytes("AT+ROLE=0");
            is_ascii_spec_bytes("AT+NAME=RumbleDome-EBC");
            is_ascii_spec_bytes("AT+PSWD=123456");
            is_ascii_spec_bytes("AT+INIT");
            is_ascii_spec_bytes("AT+INQ");
        }
        self.send_at_command("AT+RESET")?;
        self.send_at_command("AT+ROLE=0")?;
        self.send_at_command("AT+NAME=RumbleDome-EBC")?;
        if self.security_config.require_pairing {
            self.send_at_command("AT+PSWD=123456")?;
        }
        self.send_at_command("AT+INIT")?;
        self.send_at_command("AT+INQ")?;
        self.module_status = BluetoothStatus::Ready;
        Ok(())
    }

    /// Queue an AT command, ended by CR LF, in place of what the transmit
    /// buffer held.
    pub fn send_at_command(&mut self, command: &str) -> (r: Result<(), HalError>)
        ensures
            command.spec_bytes().len() + 2 <= TX_BUFFER_SIZE ==> r is Ok && tx_bytes(final(self).tx_buffer) == at_line(command),
            command.spec_bytes().len() + 2 > TX_BUFFER_SIZE ==> (r matches Err(HalError::BufferOverflow(m))
                && m@ == "AT command too long"@),
            final(self).connected == old(self).connected,
            final(self).connection_timestamp == old(self).connection_timestamp,
            final(self).connected_device == old(self).connected_device,
            rx_bytes(final(self).rx_buffer) == rx_bytes(old(self).rx_buffer),
            final(self).module_status == old(self).module_status,
            final(self).security_config == old(self).security_config,
    {
        proof {
            reveal_strlit("\r\n");
            is_ascii_spec_bytes("\r\n");
        }
        tx_clear(&mut self.tx_buffer);
        let first = tx_extend(&mut self.tx_buffer, command.as_bytes());
        if first.is_err() {
            return Err(HalError::BufferOverflow(String::from_str("AT command too long")));
        }
        let second = tx_extend(&mut self.tx_buffer, "\r\n".as_bytes());
        if second.is_err() {
            return Err(HalError::BufferOverflow(String::from_str("AT command too long")));
        }
        proof {
            assert("\r\n".spec_bytes() =~= seq![13u8, 10u8]);
        }
        Ok(())
    }

    /// Drop the connection once it has lasted past the configured timeout.
    pub fn process_connections(&mut self, current_time_ms: u64) -> (r: Result<(), HalError>)
        requires
            old(self).wf(),
            old(self).connected ==> old(self).timeout_deadline() <= u64::MAX,
        ensures
            r is Ok,
            final(self).wf(),
            old(self).connected && current_time_ms > old(self).timeout_deadline() ==> final(self).is_disconnected(),
            !(old(self).connected && current_time_ms > old(self).timeout_deadline()) ==> {
                &&& final(self).connected == old(self).connected
                &&& final(self).connection_timestamp == old(self).connection_timestamp
                &&& final(self).connected_device == old(self).connected_device
                &&& final(self).module_status == old(self).module_status
                &&& tx_bytes(final(self).tx_buffer) == tx_bytes(old(self).tx_buffer)
                &&& rx_bytes(final(self).rx_buffer) == rx_bytes(old(self).rx_buffer)
            },
            final(self).security_config == old(self).security_config,
    {
        if self.connected
            && current_time_ms > self.connection_timestamp + (self.security_config.connection_timeout_s as u64) * 1000
        {
            self.disconnect()?;
        }
        Ok(())
    }

    /// The state after a disconnect: no device, status ready, empty buffers.
    pub open spec fn is_disconnected(&self) -> bool {
        &&& !self.connected
        &&& self.connection_timestamp == 0
        &&& self.connected_device is None
        &&& self.module_status == BluetoothStatus::Ready
        &&& tx_bytes(self.tx_buffer) == Seq::<u8>::empty()
        &&& rx_bytes(self.rx_buffer) == Seq::<u8>::empty()
    }

    /// Accept a device connection at `current_time_ms`. Only one device can
    /// be connected, and its address must fit the 18-byte address buffer.
    /// The welcome banner goes out to the new device.
    pub fn handle_connection(&mut self, device_address: &str, current_time_ms: u64) -> (r: Result<(), HalError>)
        requires
            old(self).wf(),
        ensures
            final(self).wf(),
            old(self).connected ==> (r matches Err(HalError::DeviceBusy(m)) && m@ == "Already connected to another device"@),
            !old(self).connected && device_address.spec_bytes().len() > 18 ==> (r matches Err(HalError::InvalidParameter(m))
                && m@ == "Invalid device address"@),
            r is Err ==> *final(self) == *old(self),
            !old(self).connected && device_address.spec_bytes().len() <= 18 ==> {
                &&& r is Ok
                &&& final(self).connected
                &&& final(self).connection_timestamp == current_time_ms
                &&& final(self).module_status == BluetoothStatus::Connected
                &&& final(self).connected_device matches Some(d) && {
                    &&& address_chars(d.address) == device_address@
                    &&& d.name is None
                    &&& d.signal_strength == DEFAULT_SIGNAL_STRENGTH
                    &&& d.connected_at == current_time_ms
                    &&& d.device_type == DeviceType::Unknown
                }
                &&& tx_bytes(final(self).tx_buffer) == tx_bytes(old(self).tx_buffer)
                &&& rx_bytes(final(self).rx_buffer) == rx_bytes(old(self).rx_buffer)
                &&& final(self).security_config == old(self).security_config
            },
    {
        if self.connected {
            return Err(HalError::DeviceBusy(String::from_str("Already connected to another device")));
        }
        let address = match address_try_from(device_address) {
            Ok(a) => a,
            Err(_) => { return Err(HalError::InvalidParameter(String::from_str("Invalid device address"))); },
        };
        let connected_device = ConnectedDevice {
            address,
            name: None,
            signal_strength: DEFAULT_SIGNAL_STRENGTH,
            connected_at: current_time_ms,
            device_type: DeviceType::Unknown,
        };
        self.connected = true;
        self.connection_timestamp = current_time_ms;
        self.connected_device = Some(connected_device);
        self.module_status = BluetoothStatus::Connected;
        self.send_data("RumbleDome EBC Console v1.0\r\n> ".as_bytes())?;
        Ok(())
    }

    /// Disconnect the current device, if any: tell the module, forget the
    /// device and clear both buffers.
    pub fn disconnect(&mut self) -> (r: Result<(), HalError>)
        requires
            old(self).wf(),
        ensures
            r is Ok,
            final(self).wf(),
            !old(self).connected ==> *final(self) == *old(self),
            old(self).connected ==> final(self).is_disconnected(),
            final(self).security_config == old(self).security_config,
    {
        if !self.connected {
            return Ok(());
        }
        proof {
            reveal_strlit("AT+DISC");
            is_ascii_spec_bytes("AT+DISC");
        }
        self.send_at_command("AT+DISC")?;
        self.connected = false;
        self.connection_timestamp = 0;
        self.connected_device = None;
        self.module_status = BluetoothStatus::Ready;
        tx_clear(&mut self.tx_buffer);
        rx_clear(&mut self.rx_buffer);
        Ok(())
    }

    /// Get information about connected device
    pub fn get_connected_device(&self) -> (d: Option<&ConnectedDevice>)
        ensures
            d == match self.connected_device { Some(x) => Some(&x), None => None::<&ConnectedDevice> },
    {
        match &self.connected_device {
            Some(x) => Some(x),
            None => None,
        }
    }

    /// Get Bluetooth module status
    pub fn get_status(&self) -> (s: BluetoothStatus)
        ensures
            s == self.module_status,
    {
        self.module_status
    }

    /// Send data to the connected device; needs a connection.
    pub fn send_data(&mut self, data: &[u8]) -> (r: Result<(), HalError>)
        ensures
            *final(self) == *old(self),
            old(self).connected ==> r is Ok,
            !old(self).connected ==> (r matches Err(HalError::DeviceNotReady(m)) && m@ == "No Bluetooth device connected"@),
    {
        if !self.connected {
            return Err(HalError::DeviceNotReady(String::from_str("No Bluetooth device connected")));
        }
        Ok(())
    }

    /// Whether a device is connected
    pub fn is_connected(&self) -> (b: bool)
        ensures
            b == self.connected,
    {
        self.connected
    }

    /// Data received from the connected device: none is ever pending, as
    /// the link delivers no data of its own, connected or not.
    pub fn receive_data(&mut self) -> (r: Result<Option<heapless::Vec<u8, 256>>, HalError>)
        ensures
            r matches Ok(None),
            *final(self) == *old(self),
    {
        if !self.connected {
            return Ok(None);
        }
        Ok(None)
    }

    /// Console output goes to the connected device as plain data.
    pub fn send_console_output(&mut self, data: &[u8]) -> (r: Result<(), HalError>)
        ensures
            *final(self) == *old(self),
            old(self).connected ==> r is Ok,
            !old(self).connected ==> (r matches Err(HalError::DeviceNotReady(m)) && m@ == "No Bluetooth device connected"@),
    {
        self.send_data(data)
    }

    /// Console input from the connected device: what `receive_data` gives,
    /// which is never anything.
    pub fn receive_console_input(&mut self) -> (r: Result<Option<Vec<u8>>, HalError>)
        ensures
            r == Ok::<Option<Vec<u8>>, HalError>(None),
            *final(self) == *old(self),
    {
        let received = self.receive_data();
        assert(received matches Ok(None));
        Ok(None)
    }

    /// A report on the connected device, or "Not connected".
    pub fn get_connection_info(&self) -> (r: Result<String, HalError>)
        ensures
            match self.connected_device {
                Some(d) => r matches Ok(s) && s@ == connection_report(d),
                None => r matches Ok(s) && s@ == "Not connected"@,
            },
    {
        match &self.connected_device {
            Some(device) => {
                let mut s = String::from_str("Connected: ");
                s.append(address_as_str(&device.address));
                s.append(" (");
                match &device.name {
                    Some(n) => s.append(device_name_as_str(n)),
                    None => s.append("Unknown"),
                }
                s.append(")\nSignal: ");
                append_signed(&mut s, device.signal_strength as i64);
                s.append("dBm\nConnected at: ");
                append_decimal(&mut s, device.connected_at);
                s.append("\nType: ");
                s.append(device_type_str(device.device_type));
                Ok(s)
            },
            None => Ok(String::from_str("Not connected")),
        }
    }

    /// Disconnect through the console interface
    pub fn disconnect_device(&mut self) -> (r: Result<(), HalError>)
        requires
            old(self).wf(),
        ensures
            r is Ok,
            final(self).wf(),
            !old(self).connected ==> *final(self) == *old(self),
            old(self).connected ==> final(self).is_disconnected(),
    {
        self.disconnect()
    }
}

/// A connection times out once more than its configured number of seconds,
/// counted in milliseconds, has passed since it was made.
pub proof fn lemma_connection_timeout(b: Teensy41Bluetooth, now_ms: u64)
    ensures
        b.connected && now_ms > b.timeout_deadline() <==>
            b.connected && now_ms - b.connection_timestamp > 1000 * b.security_config.connection_timeout_s,
{
}

} // verus!
