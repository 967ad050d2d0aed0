use serial_ssh_term::connection::{Connection, ConnectionState, ConnectionType};
use serial_ssh_term::error::ConnectionError;
use serial_ssh_term::serial::{
    build_serial_config, list_serial_ports, ports_from_scan, DataBits, FlowControl, Parity, PortScanEntry,
    SerialConfig, SerialManager, SerialReadOutcome, StopBits,
};

fn test_config() -> SerialConfig {
    SerialConfig::from_params("COM_TEST", 9600, 8, "None", 1, "None", 10)
}

#[test]
fn from_params_maps_every_setting() {
    let c = test_config();
    assert_eq!(c.port, "COM_TEST");
    assert_eq!(c.baudrate, 9600);
    assert!(matches!(c.data_bits, DataBits::Eight));
    assert!(matches!(c.parity, Parity::Off));
    assert!(matches!(c.stop_bits, StopBits::One));
    assert!(matches!(c.flow_control, FlowControl::Off));
    assert_eq!(c.timeout_ms, 10);

    let c = SerialConfig::from_params("p", 115200, 5, "Odd", 2, "Hardware", 1000);
    assert!(matches!(c.data_bits, DataBits::Five));
    assert!(matches!(c.parity, Parity::Odd));
    assert!(matches!(c.stop_bits, StopBits::Two));
    assert!(matches!(c.flow_control, FlowControl::Hardware));

    let c = SerialConfig::from_params("p", 300, 6, "Even", 1, "Software", 0);
    assert!(matches!(c.data_bits, DataBits::Six));
    assert!(matches!(c.parity, Parity::Even));
    assert!(matches!(c.flow_control, FlowControl::Software));

    // Unrecognized counts and names fall back to the defaults.
    let c = SerialConfig::from_params("p", 300, 9, "odd", 3, "hardware", 0);
    assert!(matches!(c.data_bits, DataBits::Eight));
    assert!(matches!(c.parity, Parity::Off));
    assert!(matches!(c.stop_bits, StopBits::One));
    assert!(matches!(c.flow_control, FlowControl::Off));

    let c = SerialConfig::from_params("p", 300, 7, "None", 1, "None", 0);
    assert!(matches!(c.data_bits, DataBits::Seven));
}

#[test]
fn default_config_values() {
    let c = SerialConfig::default();
    assert_eq!(c.port, "");
    assert_eq!(c.baudrate, 115200);
    assert!(matches!(c.data_bits, DataBits::Eight));
    assert!(matches!(c.parity, Parity::Off));
    assert!(matches!(c.stop_bits, StopBits::One));
    assert!(matches!(c.flow_control, FlowControl::Off));
    assert_eq!(c.timeout_ms, 10);
}

#[test]
fn connect_then_disconnect_resets_nothing_counted() {
    let mut m = SerialManager::new(test_config());
    assert!(matches!(m.state(), ConnectionState::Disconnected));
    m.connect_begin().unwrap();
    assert!(matches!(m.state(), ConnectionState::Connecting));
    m.connect_opened();
    assert!(matches!(m.state(), ConnectionState::Connected));
    assert_eq!(m.bytes_sent(), 0);
    assert_eq!(m.bytes_received(), 0);
    m.disconnect();
    assert!(matches!(m.state(), ConnectionState::Disconnected));
    assert_eq!(m.bytes_sent(), 0);
    assert_eq!(m.bytes_received(), 0);
}

#[test]
fn disconnect_twice_is_idempotent() {
    let mut m = SerialManager::new(test_config());
    m.connect_begin().unwrap();
    m.connect_opened();
    m.disconnect();
    m.disconnect();
    assert!(matches!(m.state(), ConnectionState::Disconnected));
    assert_eq!(m.bytes_sent(), 0);
}

#[test]
fn connect_while_connected_is_refused() {
    let mut m = SerialManager::new(test_config());
    m.connect_begin().unwrap();
    m.connect_opened();
    let e = m.connect_begin().unwrap_err();
    assert!(matches!(&e, ConnectionError::AlreadyConnected { endpoint } if endpoint == "COM_TEST"));
    assert_eq!(e.message(), "already connected to COM_TEST");
    assert!(matches!(m.state(), ConnectionState::Connected));
}

#[test]
fn failed_open_names_the_port() {
    let mut m = SerialManager::new(test_config());
    m.connect_begin().unwrap();
    let e = m.connect_failed(String::from("no such device"));
    assert_eq!(e.message(), "cannot open COM_TEST: no such device");
    assert!(matches!(m.state(), ConnectionState::Disconnected));
}

#[test]
fn send_counts_exactly_the_bytes_written() {
    let mut m = SerialManager::new(test_config());
    m.connect_begin().unwrap();
    m.connect_opened();
    m.check_open().unwrap();
    m.record_send(4);
    assert_eq!(m.bytes_sent(), 4);
    m.record_send(3);
    assert_eq!(m.bytes_sent(), 7);
    assert_eq!(m.bytes_received(), 0);
}

#[test]
fn send_without_port_is_refused() {
    let m = SerialManager::new(test_config());
    let e = m.check_open().unwrap_err();
    assert!(matches!(e, ConnectionError::NotConnected));
    assert_eq!(e.message(), "not connected");
}

#[test]
fn serial_round_trip_with_remote_close() {
    // Open "COM_TEST" at 9600/8/N/1, send AT<CR><LF>, then the remote
    // closes: the zero-length read means disconnect, not an error.
    let mut m = SerialManager::new(test_config());
    m.connect_begin().unwrap();
    m.connect_opened();
    m.record_send(b"AT\r\n".len());
    assert_eq!(m.bytes_sent(), 4);
    let r = m.handle_read_outcome(SerialReadOutcome::Eof).unwrap();
    assert!(r.is_empty());
    assert!(matches!(m.state(), ConnectionState::Disconnected));
}

#[test]
fn read_outcomes_follow_their_classification() {
    let mut m = SerialManager::new(test_config());
    m.connect_begin().unwrap();
    m.connect_opened();

    let data = vec![1u8, 2, 3];
    let r = m.handle_read_outcome(SerialReadOutcome::Data(data.clone())).unwrap();
    assert_eq!(r, data);
    assert_eq!(m.bytes_received(), 3);

    let r = m.handle_read_outcome(SerialReadOutcome::TimedOut).unwrap();
    assert!(r.is_empty());
    assert!(matches!(m.state(), ConnectionState::Connected));

    let r = m.handle_read_outcome(SerialReadOutcome::WouldBlock).unwrap();
    assert!(r.is_empty());
    assert!(matches!(m.state(), ConnectionState::Connected));
    assert_eq!(m.bytes_received(), 3);

    let e = m
        .handle_read_outcome(SerialReadOutcome::Failed(String::from("device lost")))
        .unwrap_err();
    assert_eq!(e.message(), "read failed: device lost");
    assert!(matches!(m.state(), ConnectionState::Error));
}

#[test]
fn accessors_report_the_connection() {
    let m = SerialManager::new(test_config());
    assert!(matches!(m.connection_type(), ConnectionType::Serial));
    assert_eq!(m.description(), "COM_TEST @ 9600");
}

#[test]
fn scan_entries_become_port_descriptions() {
    let entries = vec![
        PortScanEntry {
            device: String::from("/dev/ttyUSB0"),
            manufacturer: Some(String::from("Acme")),
            product: Some(String::from("Widget Cable")),
        },
        PortScanEntry { device: String::from("/dev/ttyS0"), manufacturer: None, product: None },
    ];
    let ports = ports_from_scan(entries);
    assert_eq!(ports.len(), 2);
    assert_eq!(ports[0].device, "/dev/ttyUSB0");
    assert_eq!(ports[0].manufacturer, "Acme");
    assert_eq!(ports[0].description, "Widget Cable");
    assert_eq!(ports[1].device, "/dev/ttyS0");
    assert_eq!(ports[1].manufacturer, "");
    assert_eq!(ports[1].description, "");
}

#[test]
fn listing_ports_never_fails() {
    // Whatever the machine offers, enumeration yields a list, not an error.
    let _ports = list_serial_ports();
}

#[test]
fn building_a_config_requires_a_selected_port() {
    let e = build_serial_config(None, 9600, 8, "None", 1, "None", 10).unwrap_err();
    assert!(matches!(e, ConnectionError::NoPortSelected));
    assert_eq!(e.message(), "no port selected");

    let c = build_serial_config(Some("COM7"), 9600, 7, "Even", 2, "Software", 50).unwrap();
    assert_eq!(c.port, "COM7");
    assert!(matches!(c.data_bits, DataBits::Seven));
    assert!(matches!(c.parity, Parity::Even));
    assert!(matches!(c.stop_bits, StopBits::Two));
    assert!(matches!(c.flow_control, FlowControl::Software));
    assert_eq!(c.timeout_ms, 50);
}
