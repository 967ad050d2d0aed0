//! The connection capability: the types shared by every transport and the
//! contract that both concrete transports satisfy.

use vstd::prelude::*;

verus! {

/// Kind of transport a connection uses, chosen at construction.
#[derive(Debug, Clone, Copy, PartialEq, Eq, Structural)]
pub enum ConnectionType {
    Serial,
    Ssh,
}

/// Lifecycle state of a connection, owned by the transport.
#[derive(Debug, Clone, Copy, PartialEq, Eq, Structural)]
pub enum ConnectionState {
    Disconnected,
    Connecting,
    Connected,
    Error,
}

/// Event sent from the connection actor to the consumer.
///
/// `HostKeyUnknown` asks the consumer for a trust decision on an SSH host
/// key; the single-use reply channel that carries the answer back lives in
/// the unverified driver, which pairs it with this event.
#[derive(Debug)]
pub enum ConnectionEvent {
    /// The transport connected successfully.
    Connected { conn_type: ConnectionType, description: String },
    /// Bytes arrived from the remote end.
    DataReceived(Vec<u8>),
    /// The connection ended cleanly.
    Disconnected,
    /// The connection ended with an unrecoverable error.
    Error(String),
    /// An SSH host key needs an interactive trust decision.
    /// `is_key_changed` is true when a different key was already stored for
    /// this host, a potential man-in-the-middle signal.
    HostKeyUnknown {
        host: String,
        key_type: String,
        fingerprint: String,
        is_key_changed: bool,
    },
}

/// Command sent from the consumer to the connection actor.
#[derive(Debug)]
pub enum ConnectionCommand {
    SendData(Vec<u8>),
    Disconnect,
}

/// Bound of the command channel (consumer to actor), sized for a
/// human-paced command rate.
pub const COMMAND_CHANNEL_CAPACITY: usize = 32;

/// Bound of the event channel (actor to consumer).  A consumer that stops
/// draining it makes the actor observe a saturated or closed channel and
/// terminate the connection instead of buffering without bound.
pub const EVENT_CHANNEL_CAPACITY: usize = 128;

/// Contract satisfied by both transports: the pure accessors of the
/// connection capability.  The I/O-driving operations (connect, send,
/// read, disconnect) are exposed by each transport as explicit state
/// transitions, since their effects differ per transport.
pub trait Connection {
    /// The lifecycle state the accessors report.
    spec fn spec_state(&self) -> ConnectionState;

    /// The transport kind the accessors report.
    spec fn spec_connection_type(&self) -> ConnectionType;

    /// Bytes sent since the last successful connect.
    spec fn spec_bytes_sent(&self) -> u64;

    /// Bytes received since the last successful connect.
    spec fn spec_bytes_received(&self) -> u64;

    /// The characters of the endpoint description.
    spec fn spec_description(&self) -> Seq<char>;

    /// Current lifecycle state.
    fn state(&self) -> (r: ConnectionState)
        ensures
            r == self.spec_state(),
    ;

    /// The transport kind.
    fn connection_type(&self) -> (r: ConnectionType)
        ensures
            r == self.spec_connection_type(),
    ;

    /// Bytes sent since the last successful connect.
    fn bytes_sent(&self) -> (r: u64)
        ensures
            r == self.spec_bytes_sent(),
    ;

    /// Bytes received since the last successful connect.
    fn bytes_received(&self) -> (r: u64)
        ensures
            r == self.spec_bytes_received(),
    ;

    /// Human-readable description of the endpoint.
    fn description(&self) -> (r: String)
        ensures
            r@ == self.spec_description(),
    ;
}

} // verus!
