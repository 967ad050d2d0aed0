//! Errors raised by the transports, with verified construction of their
//! human-readable messages.

use vstd::prelude::*;
use vstd::string::StringExecFns;
use crate::text::{dec_seq, u64_to_dec};

verus! {

/// The stage of SSH session setup that failed.
#[derive(Debug, Clone, Copy, PartialEq, Eq, Structural)]
pub enum SshSetupStage {
    OpenSession,
    RequestPty,
    RequestShell,
}

/// An error from a transport operation.  `detail` fields carry the text of
/// the underlying I/O error as reported by the driver.
#[derive(Debug)]
pub enum ConnectionError {
    /// No serial port was selected, so no configuration can be built.
    NoPortSelected,
    /// The SSH host or username is missing, so no configuration can be
    /// built.
    MissingHostOrUsername,
    /// `connect` was called while already connected to `endpoint`.
    AlreadyConnected { endpoint: String },
    /// The SSH transport was asked to connect before the event channel was
    /// injected, so host-key challenges could not have been delivered.
    EventChannelMissing,
    /// `send` or `read` was called with no open port or channel.
    NotConnected,
    /// The serial port or SSH session could not be opened.
    OpenFailed { endpoint: String, detail: String },
    /// The SSH handshake did not complete within the configured timeout.
    ConnectTimeout { endpoint: String },
    /// SSH authentication was rejected for `endpoint`.
    AuthFailed { endpoint: String },
    /// Opening the session channel, the PTY or the shell failed.
    SessionSetupFailed { stage: SshSetupStage, detail: String },
    /// A write to the transport failed.
    WriteFailed { detail: String },
    /// A read from the transport failed.
    ReadFailed { detail: String },
}

/// The message text of an error.
pub open spec fn message_seq(e: ConnectionError) -> Seq<char> {
    match e {
        ConnectionError::NoPortSelected => "no port selected"@,
        ConnectionError::MissingHostOrUsername => "the host and the user are required"@,
        ConnectionError::AlreadyConnected { endpoint } => "already connected to "@ + endpoint@,
        ConnectionError::EventChannelMissing => "event channel not initialized"@,
        ConnectionError::NotConnected => "not connected"@,
        ConnectionError::OpenFailed { endpoint, detail } => "cannot open "@ + endpoint@ + ": "@
            + detail@,
        ConnectionError::ConnectTimeout { endpoint } => "connection to "@ + endpoint@
            + " timed out"@,
        ConnectionError::AuthFailed { endpoint } => "authentication failed for "@ + endpoint@,
        ConnectionError::SessionSetupFailed { stage, detail } => stage_seq(stage) + ": "@
            + detail@,
        ConnectionError::WriteFailed { detail } => "write failed: "@ + detail@,
        ConnectionError::ReadFailed { detail } => "read failed: "@ + detail@,
    }
}

/// The message prefix for a failed SSH session-setup stage.
pub open spec fn stage_seq(stage: SshSetupStage) -> Seq<char> {
    match stage {
        SshSetupStage::OpenSession => "cannot open an SSH session channel"@,
        SshSetupStage::RequestPty => "cannot obtain an SSH PTY"@,
        SshSetupStage::RequestShell => "cannot start an SSH shell"@,
    }
}

impl ConnectionError {
    /// Renders the human-readable message for this error.
    pub fn message(&self) -> (r: String)
        ensures
            r@ == message_seq(*self),
    {
        match self {
            ConnectionError::NoPortSelected => String::from_str("no port selected"),
            ConnectionError::MissingHostOrUsername => String::from_str(
                "the host and the user are required",
            ),
            ConnectionError::AlreadyConnected { endpoint } => String::from_str(
                "already connected to ",
            ).concat(endpoint.as_str()),
            ConnectionError::EventChannelMissing => String::from_str(
                "event channel not initialized",
            ),
            ConnectionError::NotConnected => String::from_str("not connected"),
            ConnectionError::OpenFailed { endpoint, detail } => String::from_str("cannot open ")
                .concat(endpoint.as_str()).concat(": ").concat(detail.as_str()),
            ConnectionError::ConnectTimeout { endpoint } => String::from_str("connection to ")
                .concat(endpoint.as_str()).concat(" timed out"),
            ConnectionError::AuthFailed { endpoint } => String::from_str(
                "authentication failed for ",
            ).concat(endpoint.as_str()),
            ConnectionError::SessionSetupFailed { stage, detail } => Self::stage_text(
                *stage,
            ).concat(": ").concat(detail.as_str()),
            ConnectionError::WriteFailed { detail } => String::from_str("write failed: ").concat(
                detail.as_str(),
            ),
            ConnectionError::ReadFailed { detail } => String::from_str("read failed: ").concat(
                detail.as_str(),
            ),
        }
    }

    fn stage_text(stage: SshSetupStage) -> (r: String)
        ensures
            r@ == stage_seq(stage),
    {
        match stage {
            SshSetupStage::OpenSession => String::from_str("cannot open an SSH session channel"),
            SshSetupStage::RequestPty => String::from_str("cannot obtain an SSH PTY"),
            SshSetupStage::RequestShell => String::from_str("cannot start an SSH shell"),
        }
    }
}

/// Builds the `host:port` rendering of an endpoint.
pub open spec fn host_port_seq(host: Seq<char>, port: u16) -> Seq<char> {
    host + ":"@ + dec_seq(port as nat)
}

/// Renders `host:port`.
pub fn host_port(host: &str, port: u16) -> (r: String)
    ensures
        r@ == host_port_seq(host@, port),
{
    String::from_str(host).concat(":").concat(u64_to_dec(port as u64).as_str())
}

} // verus!
