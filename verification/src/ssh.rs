//! The SSH transport: configuration, authentication method, and the
//! connection state machine for the handshake, session setup, reads and
//! writes.
//!
//! The machine owns everything about an SSH connection except the session
//! and channel handles themselves: the unverified driver performs the
//! network handshake, authentication and channel I/O, and reports each
//! outcome to the verified transitions here.  Host-key verification is in
//! `hostkey`.

use vstd::prelude::*;
use vstd::string::StrSliceExecFns;
use vstd::string::StringExecFns;
use crate::connection::{Connection, ConnectionState, ConnectionType};
use crate::error::{host_port_seq, ConnectionError, SshSetupStage};
use crate::text::{dec_seq, u64_to_dec};

verus! {

/// How the SSH session authenticates.
#[derive(Debug, Clone)]
pub enum SshAuthMethod {
    Password(String),
    KeyFile { private_key_path: String, passphrase: Option<String> },
}

/// Configuration of an SSH connection: a value type.
#[derive(Debug, Clone)]
pub struct SshConfig {
    pub host: String,
    pub port: u16,
    pub username: String,
    pub auth_method: SshAuthMethod,
    /// Bound on the TCP and protocol handshake, in seconds.
    pub connect_timeout_secs: u64,
}

impl Default for SshConfig {
    fn default() -> (r: Self)
        ensures
            r.host@ == "127.0.0.1"@,
            r.port == 22,
            r.username@ == Seq::<char>::empty(),
            r.auth_method matches SshAuthMethod::Password(p) && p@ == Seq::<char>::empty(),
            r.connect_timeout_secs == 10,
    {
        SshConfig {
            host: String::from_str("127.0.0.1"),
            port: 22,
            username: String::new(),
            auth_method: SshAuthMethod::Password(String::new()),
            connect_timeout_secs: 10,
        }
    }
}

/// Builds the configuration for an SSH connection from user input, or
/// fails when the host or the username is empty — a configuration error
/// that is surfaced synchronously and never reaches the connection actor.
/// A non-empty key path selects key-file authentication; otherwise the
/// password is used.
pub fn build_ssh_config(
    host: &str,
    port: u16,
    username: &str,
    password: String,
    key_path: &str,
) -> (r: Result<SshConfig, ConnectionError>)
    ensures
        r is Ok <==> (host@.len() > 0 && username@.len() > 0),
        r matches Ok(c) ==> (c.host@ == host@ && c.port == port && c.username@ == username@
            && c.connect_timeout_secs == 10 && (if key_path@.len() == 0 {
            c.auth_method matches SshAuthMethod::Password(p) && p == password
        } else {
            c.auth_method matches SshAuthMethod::KeyFile { private_key_path, passphrase }
                && private_key_path@ == key_path@ && passphrase is None
        })),
        r matches Err(e) ==> e is MissingHostOrUsername,
{
    if host.unicode_len() == 0 || username.unicode_len() == 0 {
        return Err(ConnectionError::MissingHostOrUsername);
    }
    let auth_method = if key_path.unicode_len() == 0 {
        SshAuthMethod::Password(password)
    } else {
        SshAuthMethod::KeyFile {
            private_key_path: String::from_str(key_path),
            passphrase: None,
        }
    };
    Ok(
        SshConfig {
            host: String::from_str(host),
            port,
            username: String::from_str(username),
            auth_method,
            connect_timeout_secs: 10,
        },
    )
}

/// The endpoint description of an SSH configuration: "USER@HOST:PORT".
pub open spec fn ssh_description_seq(c: SshConfig) -> Seq<char> {
    c.username@ + "@"@ + c.host@ + ":"@ + dec_seq(c.port as nat)
}

/// The "HOST:PORT" address of an SSH configuration.
pub open spec fn ssh_address_seq(c: SshConfig) -> Seq<char> {
    host_port_seq(c.host@, c.port)
}

/// One message the driver receives while waiting on the session channel.
#[derive(Debug)]
pub enum SshReadOutcome {
    /// A data message with these bytes.
    Data(Vec<u8>),
    /// An extended-data (stderr) message with these bytes.
    ExtendedData(Vec<u8>),
    /// An end-of-file message from the server.
    Eof,
    /// A close message from the server.
    Close,
    /// Any other control message.
    Control,
    /// The channel itself yielded no further messages: it is gone.
    ChannelClosed,
    /// The bounded wait expired with nothing available: a normal outcome.
    Timeout,
}

/// The SSH connection state machine.
pub struct SshManager {
    pub config: SshConfig,
    /// Whether the driver holds an open session handle.
    pub handle_open: bool,
    /// Whether the driver holds an open interactive channel.
    pub channel_open: bool,
    pub state: ConnectionState,
    pub bytes_sent: u64,
    pub bytes_received: u64,
    /// Whether the event channel was injected; connecting requires it, so
    /// host-key challenges always have somewhere to go.
    pub event_sender_ready: bool,
}

/// The state after the whole handshake (session, authentication, PTY and
/// shell) succeeded: connected, with both byte counters reset to zero.
pub open spec fn ssh_established_post(pre: SshManager) -> SshManager {
    SshManager {
        handle_open: true,
        channel_open: true,
        state: ConnectionState::Connected,
        bytes_sent: 0u64,
        bytes_received: 0u64,
        ..pre
    }
}

/// The state after a disconnect or an abandoned handshake: both handles
/// released, the state `Disconnected`, configuration and counters
/// untouched.
pub open spec fn ssh_disconnect_post(pre: SshManager) -> SshManager {
    SshManager {
        handle_open: false,
        channel_open: false,
        state: ConnectionState::Disconnected,
        ..pre
    }
}

impl SshManager {
    /// Creates a disconnected transport with the given configuration and
    /// no event channel injected yet.
    pub fn new(config: SshConfig) -> (r: Self)
        ensures
            r.config == config,
            r.state == ConnectionState::Disconnected,
            !r.handle_open,
            !r.channel_open,
            r.bytes_sent == 0,
            r.bytes_received == 0,
            !r.event_sender_ready,
    {
        SshManager {
            config,
            handle_open: false,
            channel_open: false,
            state: ConnectionState::Disconnected,
            bytes_sent: 0,
            bytes_received: 0,
            event_sender_ready: false,
        }
    }

    /// Records that the spawner injected the event channel.  Must happen
    /// before `connect_begin`, so that host-key challenges raised during
    /// the handshake can be delivered.
    pub fn init_event_sender(&mut self)
        ensures
            *final(self) == (SshManager { event_sender_ready: true, ..*old(self) }),
    {
        self.event_sender_ready = true;
    }

    /// Starts a connection attempt.  Fails if the transport is already
    /// connected, or if the event channel was never injected; otherwise the
    /// state moves to `Connecting` and the driver may open the session.
    pub fn connect_begin(&mut self) -> (r: Result<(), ConnectionError>)
        ensures
            r is Ok <==> (old(self).state != ConnectionState::Connected && old(
                self,
            ).event_sender_ready),
            r is Ok ==> *final(self) == (SshManager {
                state: ConnectionState::Connecting,
                ..*old(self)
            }),
            r is Err ==> *final(self) == *old(self),
            r matches Err(e) ==> (match e {
                ConnectionError::AlreadyConnected { endpoint } => old(self).state
                    == ConnectionState::Connected && endpoint@ == ssh_address_seq(
                    old(self).config,
                ),
                ConnectionError::EventChannelMissing => old(self).state
                    != ConnectionState::Connected && !old(self).event_sender_ready,
                _ => false,
            }),
    {
        if self.state == ConnectionState::Connected {
            let endpoint = crate::error::host_port(self.config.host.as_str(), self.config.port);
            Err(ConnectionError::AlreadyConnected { endpoint })
        } else if !self.event_sender_ready {
            Err(ConnectionError::EventChannelMissing)
        } else {
            self.state = ConnectionState::Connecting;
            Ok(())
        }
    }

    /// Records that the TCP or SSH handshake failed outright: the attempt
    /// is abandoned and the returned error names the address.
    pub fn handshake_failed(&mut self, detail: String) -> (e: ConnectionError)
        requires
            old(self).state == ConnectionState::Connecting,
        ensures
            *final(self) == ssh_disconnect_post(*old(self)),
            e matches ConnectionError::OpenFailed { endpoint, detail: d } && endpoint@
                == ssh_address_seq(old(self).config) && d == detail,
    {
        self.handle_open = false;
        self.channel_open = false;
        self.state = ConnectionState::Disconnected;
        let endpoint = crate::error::host_port(self.config.host.as_str(), self.config.port);
        ConnectionError::OpenFailed { endpoint, detail }
    }

    /// Records that the handshake did not finish within the configured
    /// timeout: the attempt is abandoned.
    pub fn handshake_timed_out(&mut self) -> (e: ConnectionError)
        requires
            old(self).state == ConnectionState::Connecting,
        ensures
            *final(self) == ssh_disconnect_post(*old(self)),
            e matches ConnectionError::ConnectTimeout { endpoint } && endpoint@
                == ssh_address_seq(old(self).config),
    {
        self.handle_open = false;
        self.channel_open = false;
        self.state = ConnectionState::Disconnected;
        let endpoint = crate::error::host_port(self.config.host.as_str(), self.config.port);
        ConnectionError::ConnectTimeout { endpoint }
    }

    /// Records that the server rejected the authentication: the driver
    /// tears the half-open session down and the attempt is abandoned.  The
    /// returned error names user, host and port.
    pub fn auth_failed(&mut self) -> (e: ConnectionError)
        requires
            old(self).state == ConnectionState::Connecting,
        ensures
            *final(self) == ssh_disconnect_post(*old(self)),
            e matches ConnectionError::AuthFailed { endpoint } && endpoint@ == ssh_description_seq(
                old(self).config,
            ),
    {
        self.handle_open = false;
        self.channel_open = false;
        self.state = ConnectionState::Disconnected;
        let endpoint = self.description_string();
        ConnectionError::AuthFailed { endpoint }
    }

    /// Records that opening the session channel, requesting the PTY or
    /// starting the shell failed: the driver closes what was opened and the
    /// attempt is abandoned.
    pub fn session_setup_failed(&mut self, stage: SshSetupStage, detail: String) -> (e:
        ConnectionError)
        requires
            old(self).state == ConnectionState::Connecting,
        ensures
            *final(self) == ssh_disconnect_post(*old(self)),
            e matches ConnectionError::SessionSetupFailed { stage: s, detail: d } && s == stage
                && d == detail,
    {
        self.handle_open = false;
        self.channel_open = false;
        self.state = ConnectionState::Disconnected;
        ConnectionError::SessionSetupFailed { stage, detail }
    }

    /// Records full handshake success — session, authentication, PTY and
    /// shell: the transport is connected, holds both handles, and both
    /// byte counters restart at zero.
    pub fn connect_established(&mut self)
        requires
            old(self).state == ConnectionState::Connecting,
        ensures
            *final(self) == ssh_established_post(*old(self)),
    {
        self.handle_open = true;
        self.channel_open = true;
        self.state = ConnectionState::Connected;
        self.bytes_sent = 0;
        self.bytes_received = 0;
    }

    /// Disconnects: the driver closes the channel and the session, both
    /// best-effort, and the state becomes `Disconnected`.  Idempotent —
    /// calling it in any state, any number of times, yields the same
    /// result and never fails.
    pub fn disconnect(&mut self)
        ensures
            *final(self) == ssh_disconnect_post(*old(self)),
    {
        self.handle_open = false;
        self.channel_open = false;
        self.state = ConnectionState::Disconnected;
    }

    /// Checks that the interactive channel is available before a send or
    /// read attempt.
    pub fn check_channel(&self) -> (r: Result<(), ConnectionError>)
        ensures
            r is Ok <==> self.channel_open,
            r matches Err(e) ==> e is NotConnected,
    {
        if self.channel_open {
            Ok(())
        } else {
            Err(ConnectionError::NotConnected)
        }
    }

    /// Records a completed write of `written` bytes.
    pub fn record_send(&mut self, written: usize)
        requires
            old(self).bytes_sent + written <= u64::MAX,
        ensures
            *final(self) == (SshManager {
                bytes_sent: (old(self).bytes_sent + written as u64) as u64,
                ..*old(self)
            }),
    {
        self.bytes_sent = self.bytes_sent + written as u64;
    }

    /// Applies one channel message the driver received.
    ///
    /// Data and extended-data (stderr) bytes are counted and returned; an
    /// end-of-file or close message, or a channel that yields no further
    /// messages, moves the state to `Disconnected` and yields an empty
    /// result (not an error); other control messages and an expired wait
    /// yield an empty result with nothing changed.
    pub fn handle_read_outcome(&mut self, outcome: SshReadOutcome) -> (r: Vec<u8>)
        requires
            (outcome matches SshReadOutcome::Data(d) ==> old(self).bytes_received + d@.len()
                <= u64::MAX),
            (outcome matches SshReadOutcome::ExtendedData(d) ==> old(self).bytes_received
                + d@.len() <= u64::MAX),
        ensures
            (match outcome {
                SshReadOutcome::Data(d) => r == d && *final(self) == (SshManager {
                    bytes_received: (old(self).bytes_received + d@.len()) as u64,
                    ..*old(self)
                }),
                SshReadOutcome::ExtendedData(d) => r == d && *final(self) == (SshManager {
                    bytes_received: (old(self).bytes_received + d@.len()) as u64,
                    ..*old(self)
                }),
                SshReadOutcome::Eof => r@.len() == 0 && *final(self) == (SshManager {
                    state: ConnectionState::Disconnected,
                    ..*old(self)
                }),
                SshReadOutcome::Close => r@.len() == 0 && *final(self) == (SshManager {
                    state: ConnectionState::Disconnected,
                    ..*old(self)
                }),
                SshReadOutcome::Control => r@.len() == 0 && *final(self) == *old(self),
                SshReadOutcome::ChannelClosed => r@.len() == 0 && *final(self) == (SshManager {
                    state: ConnectionState::Disconnected,
                    ..*old(self)
                }),
                SshReadOutcome::Timeout => r@.len() == 0 && *final(self) == *old(self),
            }),
    {
        match outcome {
            SshReadOutcome::Data(d) => {
                self.bytes_received = self.bytes_received + d.len() as u64;
                d
            },
            SshReadOutcome::ExtendedData(d) => {
                self.bytes_received = self.bytes_received + d.len() as u64;
                d
            },
            SshReadOutcome::Eof => {
                self.state = ConnectionState::Disconnected;
                Vec::new()
            },
            SshReadOutcome::Close => {
                self.state = ConnectionState::Disconnected;
                Vec::new()
            },
            SshReadOutcome::Control => Vec::new(),
            SshReadOutcome::ChannelClosed => {
                self.state = ConnectionState::Disconnected;
                Vec::new()
            },
            SshReadOutcome::Timeout => Vec::new(),
        }
    }

    fn description_string(&self) -> (r: String)
        ensures
            r@ == ssh_description_seq(self.config),
    {
        self.config.username.clone().concat("@").concat(self.config.host.as_str()).concat(
            ":",
        ).concat(u64_to_dec(self.config.port as u64).as_str())
    }
}

impl Connection for SshManager {
    open spec fn spec_state(&self) -> ConnectionState {
        self.state
    }

    open spec fn spec_connection_type(&self) -> ConnectionType {
        ConnectionType::Ssh
    }

    open spec fn spec_bytes_sent(&self) -> u64 {
        self.bytes_sent
    }

    open spec fn spec_bytes_received(&self) -> u64 {
        self.bytes_received
    }

    open spec fn spec_description(&self) -> Seq<char> {
        ssh_description_seq(self.config)
    }

    fn state(&self) -> (r: ConnectionState) {
        self.state
    }

    fn connection_type(&self) -> (r: ConnectionType) {
        ConnectionType::Ssh
    }

    fn bytes_sent(&self) -> (r: u64) {
        self.bytes_sent
    }

    fn bytes_received(&self) -> (r: u64) {
        self.bytes_received
    }

    fn description(&self) -> (r: String) {
        self.description_string()
    }
}

/// Law: a fully established connect followed immediately by a disconnect
/// leaves the transport disconnected with both byte counters unchanged
/// from their post-connect reset of zero.
pub proof fn lemma_ssh_connect_then_disconnect(pre: SshManager)
    ensures
        ({
            let connected = ssh_established_post(pre);
            let after = ssh_disconnect_post(connected);
            &&& after.state == ConnectionState::Disconnected
            &&& after.bytes_sent == 0
            &&& after.bytes_received == 0
            &&& after.config == pre.config
        }),
{
}

/// Law: disconnecting is idempotent — a second disconnect changes nothing,
/// whatever state the transport was in.
pub proof fn lemma_ssh_disconnect_idempotent(pre: SshManager)
    ensures
        ssh_disconnect_post(ssh_disconnect_post(pre)) == ssh_disconnect_post(pre),
{
}

/// Law: recording a send of exactly `n` bytes right after a fully
/// established connect leaves `bytes_sent` at exactly `n`, and
/// `bytes_received` untouched at zero.
pub proof fn lemma_ssh_send_counts(pre: SshManager, n: u64)
    ensures
        ({
            let connected = ssh_established_post(pre);
            let sent = SshManager { bytes_sent: (connected.bytes_sent + n) as u64, ..connected };
            &&& sent.bytes_sent == n
            &&& sent.bytes_received == 0
        }),
{
}

} // verus!
