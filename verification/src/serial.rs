//! The serial transport: configuration, the connection state machine, and
//! the port-enumeration helper.
//!
//! The machine owns everything about a serial connection except the OS
//! port handle itself: the unverified driver opens, reads and writes the
//! port, and reports each outcome to the verified transitions here.

use vstd::prelude::*;
use vstd::string::StringExecFns;
use crate::connection::{Connection, ConnectionState, ConnectionType};
use crate::error::ConnectionError;
use crate::text::{dec_seq, str_eq, u64_to_dec};

verus! {

/// Number of data bits per character.
#[derive(Debug, Clone, Copy, PartialEq, Eq, Structural)]
pub enum DataBits {
    Five,
    Six,
    Seven,
    Eight,
}

/// Parity checking mode.  `Off` corresponds to the parameter string "None".
#[derive(Debug, Clone, Copy, PartialEq, Eq, Structural)]
pub enum Parity {
    Off,
    Odd,
    Even,
}

/// Number of stop bits.
#[derive(Debug, Clone, Copy, PartialEq, Eq, Structural)]
pub enum StopBits {
    One,
    Two,
}

/// Flow control mode.  `Off` corresponds to the parameter string "None".
#[derive(Debug, Clone, Copy, PartialEq, Eq, Structural)]
pub enum FlowControl {
    Off,
    Hardware,
    Software,
}

/// Configuration of a serial connection: a value type, immutable once the
/// transport is constructed.
#[derive(Debug, Clone)]
pub struct SerialConfig {
    pub port: String,
    pub baudrate: u32,
    pub data_bits: DataBits,
    pub parity: Parity,
    pub stop_bits: StopBits,
    pub flow_control: FlowControl,
    pub timeout_ms: u64,
}

/// The data-bits setting a count selects: 5, 6 and 7 name themselves and
/// anything else selects eight bits.
pub open spec fn data_bits_of(bits: u8) -> DataBits {
    if bits == 5 {
        DataBits::Five
    } else if bits == 6 {
        DataBits::Six
    } else if bits == 7 {
        DataBits::Seven
    } else {
        DataBits::Eight
    }
}

/// The parity mode a parameter string selects; anything but "Odd" and
/// "Even" selects no parity.
pub open spec fn parity_of(s: Seq<char>) -> Parity {
    if s == "Odd"@ {
        Parity::Odd
    } else if s == "Even"@ {
        Parity::Even
    } else {
        Parity::Off
    }
}

/// The stop-bits setting a count selects; anything but 2 selects one.
pub open spec fn stop_bits_of(bits: u8) -> StopBits {
    if bits == 2 {
        StopBits::Two
    } else {
        StopBits::One
    }
}

/// The flow-control mode a parameter string selects; anything but
/// "Hardware" and "Software" selects none.
pub open spec fn flow_control_of(s: Seq<char>) -> FlowControl {
    if s == "Hardware"@ {
        FlowControl::Hardware
    } else if s == "Software"@ {
        FlowControl::Software
    } else {
        FlowControl::Off
    }
}

impl Default for SerialConfig {
    fn default() -> (r: Self)
        ensures
            r.port@ == Seq::<char>::empty(),
            r.baudrate == 115200u32,
            r.data_bits == DataBits::Eight,
            r.parity == Parity::Off,
            r.stop_bits == StopBits::One,
            r.flow_control == FlowControl::Off,
            r.timeout_ms == 10u64,
    {
        SerialConfig {
            port: String::new(),
            baudrate: 115200,
            data_bits: DataBits::Eight,
            parity: Parity::Off,
            stop_bits: StopBits::One,
            flow_control: FlowControl::Off,
            timeout_ms: 10,
        }
    }
}

impl SerialConfig {
    /// Builds a configuration from user-supplied parameters, mapping each
    /// count or name to its setting and defaulting anything unrecognized.
    pub fn from_params(
        port: &str,
        baudrate: u32,
        data_bits: u8,
        parity: &str,
        stop_bits: u8,
        flow_control: &str,
        timeout_ms: u64,
    ) -> (r: Self)
        ensures
            r.port@ == port@,
            r.baudrate == baudrate,
            r.data_bits == data_bits_of(data_bits),
            r.parity == parity_of(parity@),
            r.stop_bits == stop_bits_of(stop_bits),
            r.flow_control == flow_control_of(flow_control@),
            r.timeout_ms == timeout_ms,
    {
        let parity_mode = if str_eq(parity, "Odd") {
            Parity::Odd
        } else if str_eq(parity, "Even") {
            Parity::Even
        } else {
            Parity::Off
        };
        let flow_mode = if str_eq(flow_control, "Hardware") {
            FlowControl::Hardware
        } else if str_eq(flow_control, "Software") {
            FlowControl::Software
        } else {
            FlowControl::Off
        };
        SerialConfig {
            port: String::from_str(port),
            baudrate,
            data_bits: match data_bits {
                5 => DataBits::Five,
                6 => DataBits::Six,
                7 => DataBits::Seven,
                _ => DataBits::Eight,
            },
            parity: parity_mode,
            stop_bits: match stop_bits {
                2 => StopBits::Two,
                _ => StopBits::One,
            },
            flow_control: flow_mode,
            timeout_ms,
        }
    }
}

/// Builds the configuration for the port the user selected, or fails when
/// none is selected — a configuration error that is surfaced synchronously
/// and never reaches the connection actor.
pub fn build_serial_config(
    port: Option<&str>,
    baudrate: u32,
    data_bits: u8,
    parity: &str,
    stop_bits: u8,
    flow_control: &str,
    timeout_ms: u64,
) -> (r: Result<SerialConfig, ConnectionError>)
    ensures
        r is Ok <==> port is Some,
        r matches Ok(c) ==> (port matches Some(p) && c.port@ == p@ && c.baudrate == baudrate
            && c.data_bits == data_bits_of(data_bits) && c.parity == parity_of(parity@)
            && c.stop_bits == stop_bits_of(stop_bits) && c.flow_control == flow_control_of(
            flow_control@,
        ) && c.timeout_ms == timeout_ms),
        r matches Err(e) ==> e is NoPortSelected,
{
    match port {
        Some(p) => Ok(
            SerialConfig::from_params(
                p,
                baudrate,
                data_bits,
                parity,
                stop_bits,
                flow_control,
                timeout_ms,
            ),
        ),
        None => Err(ConnectionError::NoPortSelected),
    }
}

/// The endpoint description of a serial configuration: "PORT @ BAUD".
pub open spec fn serial_description_seq(c: SerialConfig) -> Seq<char> {
    c.port@ + " @ "@ + dec_seq(c.baudrate as nat)
}

/// The outcome of one driver read on the open port.
#[derive(Debug)]
pub enum SerialReadOutcome {
    /// The read returned these bytes.
    Data(Vec<u8>),
    /// The read returned zero bytes: end of stream.
    Eof,
    /// The read timed out: nothing available yet.
    TimedOut,
    /// The read would block: nothing available yet.
    WouldBlock,
    /// The read failed with this I/O error text.
    Failed(String),
}

/// The serial connection state machine.
pub struct SerialManager {
    pub config: SerialConfig,
    pub port_open: bool,
    pub state: ConnectionState,
    pub bytes_sent: u64,
    pub bytes_received: u64,
}

/// The state after the driver reports that the port opened: connected,
/// with both byte counters reset to zero.
pub open spec fn serial_opened_post(pre: SerialManager) -> SerialManager {
    SerialManager {
        port_open: true,
        state: ConnectionState::Connected,
        bytes_sent: 0u64,
        bytes_received: 0u64,
        ..pre
    }
}

/// The state after a disconnect: the port handle released, the state
/// `Disconnected`, configuration and counters untouched.
pub open spec fn serial_disconnect_post(pre: SerialManager) -> SerialManager {
    SerialManager { port_open: false, state: ConnectionState::Disconnected, ..pre }
}

impl SerialManager {
    /// The configuration the transport was constructed with.
    pub open spec fn spec_config(&self) -> SerialConfig {
        self.config
    }

    /// Whether the driver currently holds an open port for this transport.
    pub open spec fn spec_port_open(&self) -> bool {
        self.port_open
    }

    /// Creates a disconnected transport with the given configuration.
    pub fn new(config: SerialConfig) -> (r: Self)
        ensures
            r.spec_config() == config,
            r.spec_state() == ConnectionState::Disconnected,
            !r.spec_port_open(),
            r.spec_bytes_sent() == 0,
            r.spec_bytes_received() == 0,
    {
        SerialManager {
            config,
            port_open: false,
            state: ConnectionState::Disconnected,
            bytes_sent: 0,
            bytes_received: 0,
        }
    }

    /// Starts a connection attempt.  Fails if and only if the transport is
    /// already connected; otherwise the state moves to `Connecting` and the
    /// driver may open the port.
    pub fn connect_begin(&mut self) -> (r: Result<(), ConnectionError>)
        ensures
            r is Ok <==> old(self).spec_state() != ConnectionState::Connected,
            r is Ok ==> *final(self) == (SerialManager {
                state: ConnectionState::Connecting,
                ..*old(self)
            }),
            r is Err ==> *final(self) == *old(self),
            r matches Err(e) ==> (e matches ConnectionError::AlreadyConnected { endpoint }
                && endpoint@ == old(self).spec_config().port@),
    {
        if self.state == ConnectionState::Connected {
            Err(ConnectionError::AlreadyConnected { endpoint: self.config.port.clone() })
        } else {
            self.state = ConnectionState::Connecting;
            Ok(())
        }
    }

    /// Records that the driver opened the port: the transport is connected
    /// and both byte counters restart at zero.
    pub fn connect_opened(&mut self)
        requires
            old(self).spec_state() == ConnectionState::Connecting,
        ensures
            *final(self) == serial_opened_post(*old(self)),
    {
        self.port_open = true;
        self.state = ConnectionState::Connected;
        self.bytes_sent = 0;
        self.bytes_received = 0;
    }

    /// Records that the port could not be opened: the attempt is abandoned
    /// and the returned error names the port.
    pub fn connect_failed(&mut self, detail: String) -> (e: ConnectionError)
        requires
            old(self).spec_state() == ConnectionState::Connecting,
        ensures
            *final(self) == serial_disconnect_post(*old(self)),
            e matches ConnectionError::OpenFailed { endpoint, detail: d } && endpoint@ == old(
                self,
            ).spec_config().port@ && d == detail,
    {
        self.port_open = false;
        self.state = ConnectionState::Disconnected;
        ConnectionError::OpenFailed { endpoint: self.config.port.clone(), detail }
    }

    /// Disconnects: releases the port (the driver drops the handle) and
    /// leaves the state `Disconnected`.  Idempotent — calling it in any
    /// state, any number of times, yields the same result and never fails.
    pub fn disconnect(&mut self)
        ensures
            *final(self) == serial_disconnect_post(*old(self)),
    {
        self.port_open = false;
        self.state = ConnectionState::Disconnected;
    }

    /// Checks that the port is open before a send or read attempt.
    pub fn check_open(&self) -> (r: Result<(), ConnectionError>)
        ensures
            r is Ok <==> self.spec_port_open(),
            r matches Err(e) ==> e is NotConnected,
    {
        if self.port_open {
            Ok(())
        } else {
            Err(ConnectionError::NotConnected)
        }
    }

    /// Records a completed write of `written` bytes.
    pub fn record_send(&mut self, written: usize)
        requires
            old(self).spec_bytes_sent() + written <= u64::MAX,
        ensures
            *final(self) == (SerialManager {
                bytes_sent: (old(self).spec_bytes_sent() + written as u64) as u64,
                ..*old(self)
            }),
    {
        self.bytes_sent = self.bytes_sent + written as u64;
    }

    /// Applies the outcome of one driver read.
    ///
    /// Bytes are counted and returned; end of stream moves the state to
    /// `Disconnected` and yields an empty result (not an error); a timeout
    /// or would-block condition yields an empty result with nothing
    /// changed; any other I/O failure moves the state to `Error` and is
    /// reported.
    pub fn handle_read_outcome(&mut self, outcome: SerialReadOutcome) -> (r: Result<
        Vec<u8>,
        ConnectionError,
    >)
        requires
            outcome matches SerialReadOutcome::Data(d) ==> old(self).spec_bytes_received()
                + d@.len() <= u64::MAX,
        ensures
            (match outcome {
                SerialReadOutcome::Data(d) => (r matches Ok(v) && v == d) && *final(self)
                    == (SerialManager {
                    bytes_received: (old(self).spec_bytes_received() + d@.len()) as u64,
                    ..*old(self)
                }),
                SerialReadOutcome::Eof => (r matches Ok(v) && v@.len() == 0) && *final(self)
                    == (SerialManager { state: ConnectionState::Disconnected, ..*old(self) }),
                SerialReadOutcome::TimedOut => (r matches Ok(v) && v@.len() == 0) && *final(self)
                    == *old(self),
                SerialReadOutcome::WouldBlock => (r matches Ok(v) && v@.len() == 0) && *final(self)
                    == *old(self),
                SerialReadOutcome::Failed(detail) => (r matches Err(e) && e
                    matches ConnectionError::ReadFailed { detail: d } && d == detail)
                    && *final(self) == (SerialManager {
                    state: ConnectionState::Error,
                    ..*old(self)
                }),
            }),
    {
        match outcome {
            SerialReadOutcome::Data(d) => {
                self.bytes_received = self.bytes_received + d.len() as u64;
                Ok(d)
            },
            SerialReadOutcome::Eof => {
                self.state = ConnectionState::Disconnected;
                Ok(Vec::new())
            },
            SerialReadOutcome::TimedOut => Ok(Vec::new()),
            SerialReadOutcome::WouldBlock => Ok(Vec::new()),
            SerialReadOutcome::Failed(detail) => {
                self.state = ConnectionState::Error;
                Err(ConnectionError::ReadFailed { detail })
            },
        }
    }
}

impl Connection for SerialManager {
    open spec fn spec_state(&self) -> ConnectionState {
        self.state
    }

    open spec fn spec_connection_type(&self) -> ConnectionType {
        ConnectionType::Serial
    }

    open spec fn spec_bytes_sent(&self) -> u64 {
        self.bytes_sent
    }

    open spec fn spec_bytes_received(&self) -> u64 {
        self.bytes_received
    }

    open spec fn spec_description(&self) -> Seq<char> {
        serial_description_seq(self.config)
    }

    fn state(&self) -> (r: ConnectionState) {
        self.state
    }

    fn connection_type(&self) -> (r: ConnectionType) {
        ConnectionType::Serial
    }

    fn bytes_sent(&self) -> (r: u64) {
        self.bytes_sent
    }

    fn bytes_received(&self) -> (r: u64) {
        self.bytes_received
    }

    fn description(&self) -> (r: String) {
        self.config.port.clone().concat(" @ ").concat(
            u64_to_dec(self.config.baudrate as u64).as_str(),
        )
    }
}

/// Law: for every configuration, a successful connect followed immediately
/// by a disconnect leaves the transport disconnected with both byte
/// counters unchanged from their post-connect reset of zero.
pub proof fn lemma_serial_connect_then_disconnect(pre: SerialManager)
    ensures
        ({
            let connected = serial_opened_post(pre);
            let after = serial_disconnect_post(connected);
            &&& after.spec_state() == ConnectionState::Disconnected
            &&& after.spec_bytes_sent() == 0
            &&& after.spec_bytes_received() == 0
            &&& after.spec_config() == pre.spec_config()
        }),
{
}

/// Law: disconnecting is idempotent — a second disconnect changes nothing,
/// whatever state the transport was in.
pub proof fn lemma_serial_disconnect_idempotent(pre: SerialManager)
    ensures
        serial_disconnect_post(serial_disconnect_post(pre)) == serial_disconnect_post(pre),
{
}

/// Law: recording a send of exactly `n` bytes right after a successful
/// connect leaves `bytes_sent` at exactly `n`, and `bytes_received`
/// untouched at zero.
pub proof fn lemma_serial_send_counts(pre: SerialManager, n: u64)
    ensures
        ({
            let connected = serial_opened_post(pre);
            let sent = SerialManager {
                bytes_sent: (connected.bytes_sent + n) as u64,
                ..connected
            };
            &&& sent.bytes_sent == n
            &&& sent.bytes_received == 0
        }),
{
}

/// A serial port found on the system.
#[derive(Debug, Clone)]
pub struct SerialPortInfo {
    pub device: String,
    pub manufacturer: String,
    pub description: String,
}

/// One port as reported by the operating system scan: its device name and,
/// for USB ports, the optional manufacturer and product strings.
#[derive(Debug)]
pub struct PortScanEntry {
    pub device: String,
    pub manufacturer: Option<String>,
    pub product: Option<String>,
}

/// The string an optional USB metadata field yields: its text, or empty.
pub open spec fn opt_text(o: Option<String>) -> Seq<char> {
    match o {
        Option::Some(s) => s@,
        Option::None => Seq::<char>::empty(),
    }
}

/// Relies on serialport::available_ports: lists the ports the operating
/// system reports, or fails; USB metadata comes from the UsbPort variant of
/// each entry's port type.
#[verifier::external_body]
fn available_ports_raw() -> Option<Vec<PortScanEntry>> {
    match serialport::available_ports() {
        Ok(ports) => Some(
            ports.into_iter().map(
                |p| {
                    let (manufacturer, product) = match p.port_type {
                        serialport::SerialPortType::UsbPort(usb) => (usb.manufacturer, usb.product),
                        _ => (None, None),
                    };
                    PortScanEntry { device: p.port_name, manufacturer, product }
                },
            ).collect(),
        ),
        Err(_) => None,
    }
}

/// Turns scanned entries into port descriptions, substituting an empty
/// string for absent USB metadata.
pub fn ports_from_scan(entries: Vec<PortScanEntry>) -> (r: Vec<SerialPortInfo>)
    ensures
        r@.len() == entries@.len(),
        forall|i: int|
            0 <= i < entries@.len() ==> {
                &&& (#[trigger] r@[i]).device@ == entries@[i].device@
                &&& r@[i].manufacturer@ == opt_text(entries@[i].manufacturer)
                &&& r@[i].description@ == opt_text(entries@[i].product)
            },
{
    let mut out: Vec<SerialPortInfo> = Vec::new();
    let mut i: usize = 0;
    while i < entries.len()
        invariant
            i <= entries@.len(),
            out@.len() == i,
            forall|j: int|
                0 <= j < i ==> {
                    &&& (#[trigger] out@[j]).device@ == entries@[j].device@
                    &&& out@[j].manufacturer@ == opt_text(entries@[j].manufacturer)
                    &&& out@[j].description@ == opt_text(entries@[j].product)
                },
        decreases entries@.len() - i,
    {
        let e = &entries[i];
        let manufacturer = match &e.manufacturer {
            Option::Some(s) => s.clone(),
            Option::None => String::new(),
        };
        let description = match &e.product {
            Option::Some(s) => s.clone(),
            Option::None => String::new(),
        };
        out.push(SerialPortInfo { device: e.device.clone(), manufacturer, description });
        i = i + 1;
    }
    out
}

/// Lists the serial ports available on the system, with manufacturer and
/// product extracted from USB metadata when present.  A failed scan yields
/// an empty list, not an error.
pub fn list_serial_ports() -> (r: Vec<SerialPortInfo>)
{
    match available_ports_raw() {
        Option::Some(entries) => ports_from_scan(entries),
        Option::None => Vec::new(),
    }
}

} // verus!
