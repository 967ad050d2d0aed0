//! The connection actor's decision machine.
//!
//! An actor owns one boxed transport, runs it on a background task, and
//! talks to the consumer only through a bounded command channel and a
//! bounded event channel.  What the task does at each juncture — which
//! event to emit, whether to send, disconnect, or stop — is decided here,
//! by a verified two-phase machine: the connect phase, then the I/O loop,
//! with a single terminal exit.  The driver performs the directive
//! (transport call, channel send) and reports the next juncture.
//!
//! Commands are always serviced before the next read is dispatched, so a
//! pending send or disconnect is never starved by a busy inbound stream;
//! the machine itself consumes inputs strictly in the order they are
//! handed to it.

use vstd::prelude::*;
use crate::connection::{ConnectionCommand, ConnectionEvent, ConnectionState, ConnectionType};

verus! {

/// Phase of the actor: connecting, in the I/O loop, or finished.
#[derive(Debug, Clone, Copy, PartialEq, Eq, Structural)]
pub enum ActorPhase {
    PreConnect,
    Running,
    Stopped,
}

/// One juncture the driver reports to the machine.
#[derive(Debug)]
pub enum ActorInput {
    /// `connect()` succeeded; the transport reports this type and
    /// description.
    ConnectSucceeded { conn_type: ConnectionType, description: String },
    /// `connect()` failed with this message.
    ConnectFailed { message: String },
    /// A command arrived, or `None`: the command channel closed.
    Command(Option<ConnectionCommand>),
    /// The `send` a directive asked for completed.
    SendSucceeded,
    /// The `send` a directive asked for failed with this message.
    SendFailed { message: String },
    /// A read completed with data.
    ReadData { data: Vec<u8> },
    /// A read completed empty; the transport now reports this state.
    ReadEmpty { transport_state: ConnectionState },
    /// A read failed with this message.
    ReadFailed { message: String },
    /// An event could not be delivered: the consumer is gone.
    EventSendFailed,
}

/// What the driver must do next.
#[derive(Debug)]
pub enum ActorDirective {
    /// Deliver this event and keep going.
    Emit(ConnectionEvent),
    /// Deliver this event and stop, without entering the I/O loop; the
    /// transport never connected, so there is nothing to disconnect.
    FailStop(ConnectionEvent),
    /// Call `send` on the transport with these bytes.
    Send { data: Vec<u8> },
    /// Nothing to do; wait for the next juncture.
    Idle,
    /// Disconnect the transport, deliver this event, and stop.
    Stop(ConnectionEvent),
    /// Disconnect the transport and stop without emitting: the consumer is
    /// gone and there is no one left to report to.
    StopSilent,
}

/// Whether a directive delivers one of the two terminal events,
/// `Disconnected` or `Error`.
pub open spec fn directive_is_terminal_event(d: ActorDirective) -> bool {
    match d {
        ActorDirective::FailStop(_) => true,
        ActorDirective::Stop(_) => true,
        _ => false,
    }
}

/// Whether a directive stops the actor.
pub open spec fn directive_stops(d: ActorDirective) -> bool {
    match d {
        ActorDirective::FailStop(_) => true,
        ActorDirective::Stop(_) => true,
        ActorDirective::StopSilent => true,
        _ => false,
    }
}

/// The connection actor's decision machine.
pub struct ActorMachine {
    pub phase: ActorPhase,
}

/// Which inputs a phase admits: connect outcomes while connecting,
/// everything else in the I/O loop, and nothing once stopped.
pub open spec fn spec_accepts(phase: ActorPhase, input: ActorInput) -> bool {
    match input {
        ActorInput::ConnectSucceeded { .. } => phase == ActorPhase::PreConnect,
        ActorInput::ConnectFailed { .. } => phase == ActorPhase::PreConnect,
        _ => phase == ActorPhase::Running,
    }
}

/// The machine's transition: the next phase and the directive for the
/// driver.
pub open spec fn spec_step(pre: ActorMachine, input: ActorInput) -> (ActorMachine, ActorDirective) {
    match input {
        ActorInput::ConnectSucceeded { conn_type, description } => (
            ActorMachine { phase: ActorPhase::Running },
            ActorDirective::Emit(ConnectionEvent::Connected { conn_type, description }),
        ),
        ActorInput::ConnectFailed { message } => (
            ActorMachine { phase: ActorPhase::Stopped },
            ActorDirective::FailStop(ConnectionEvent::Error(message)),
        ),
        ActorInput::Command(cmd) => match cmd {
            Option::Some(ConnectionCommand::SendData(data)) => (
                ActorMachine { phase: ActorPhase::Running },
                ActorDirective::Send { data },
            ),
            Option::Some(ConnectionCommand::Disconnect) => (
                ActorMachine { phase: ActorPhase::Stopped },
                ActorDirective::Stop(ConnectionEvent::Disconnected),
            ),
            Option::None => (
                ActorMachine { phase: ActorPhase::Stopped },
                ActorDirective::Stop(ConnectionEvent::Disconnected),
            ),
        },
        ActorInput::SendSucceeded => (
            ActorMachine { phase: ActorPhase::Running },
            ActorDirective::Idle,
        ),
        ActorInput::SendFailed { message } => (
            ActorMachine { phase: ActorPhase::Stopped },
            ActorDirective::Stop(ConnectionEvent::Error(message)),
        ),
        ActorInput::ReadData { data } => if data@.len() > 0 {
            (
                ActorMachine { phase: ActorPhase::Running },
                ActorDirective::Emit(ConnectionEvent::DataReceived(data)),
            )
        } else {
            (ActorMachine { phase: ActorPhase::Running }, ActorDirective::Idle)
        },
        ActorInput::ReadEmpty { transport_state } => if transport_state
            == ConnectionState::Disconnected || transport_state == ConnectionState::Error {
            (
                ActorMachine { phase: ActorPhase::Stopped },
                ActorDirective::Stop(ConnectionEvent::Disconnected),
            )
        } else {
            (ActorMachine { phase: ActorPhase::Running }, ActorDirective::Idle)
        },
        ActorInput::ReadFailed { message } => (
            ActorMachine { phase: ActorPhase::Stopped },
            ActorDirective::Stop(ConnectionEvent::Error(message)),
        ),
        ActorInput::EventSendFailed => (
            ActorMachine { phase: ActorPhase::Stopped },
            ActorDirective::StopSilent,
        ),
    }
}

impl ActorMachine {
    /// A fresh machine, about to run `connect()`.
    pub fn new() -> (r: Self)
        ensures
            r.phase == ActorPhase::PreConnect,
    {
        ActorMachine { phase: ActorPhase::PreConnect }
    }

    /// Decides what the driver must do at a juncture.
    pub fn step(&mut self, input: ActorInput) -> (d: ActorDirective)
        requires
            spec_accepts(old(self).phase, input),
        ensures
            (*final(self), d) == spec_step(*old(self), input),
    {
        match input {
            ActorInput::ConnectSucceeded { conn_type, description } => {
                self.phase = ActorPhase::Running;
                ActorDirective::Emit(ConnectionEvent::Connected { conn_type, description })
            },
            ActorInput::ConnectFailed { message } => {
                self.phase = ActorPhase::Stopped;
                ActorDirective::FailStop(ConnectionEvent::Error(message))
            },
            ActorInput::Command(cmd) => match cmd {
                Option::Some(ConnectionCommand::SendData(data)) => ActorDirective::Send { data },
                Option::Some(ConnectionCommand::Disconnect) => {
                    self.phase = ActorPhase::Stopped;
                    ActorDirective::Stop(ConnectionEvent::Disconnected)
                },
                Option::None => {
                    self.phase = ActorPhase::Stopped;
                    ActorDirective::Stop(ConnectionEvent::Disconnected)
                },
            },
            ActorInput::SendSucceeded => ActorDirective::Idle,
            ActorInput::SendFailed { message } => {
                self.phase = ActorPhase::Stopped;
                ActorDirective::Stop(ConnectionEvent::Error(message))
            },
            ActorInput::ReadData { data } => {
                if data.len() > 0 {
                    ActorDirective::Emit(ConnectionEvent::DataReceived(data))
                } else {
                    ActorDirective::Idle
                }
            },
            ActorInput::ReadEmpty { transport_state } => {
                if transport_state == ConnectionState::Disconnected || transport_state
                    == ConnectionState::Error {
                    self.phase = ActorPhase::Stopped;
                    ActorDirective::Stop(ConnectionEvent::Disconnected)
                } else {
                    ActorDirective::Idle
                }
            },
            ActorInput::ReadFailed { message } => {
                self.phase = ActorPhase::Stopped;
                ActorDirective::Stop(ConnectionEvent::Error(message))
            },
            ActorInput::EventSendFailed => {
                self.phase = ActorPhase::Stopped;
                ActorDirective::StopSilent
            },
        }
    }
}

/// Law: the machine stops exactly when it issues a stopping directive, a
/// stopped machine admits no further input, and every directive that
/// delivers a terminal event (`Disconnected` or `Error`) stops the
/// machine — so one actor run delivers at most one terminal event, and in
/// particular never two `Disconnected` events.
pub proof fn lemma_one_terminal_event(pre: ActorMachine, input: ActorInput, next: ActorInput)
    requires
        spec_accepts(pre.phase, input),
    ensures
        ({
            let (post, d) = spec_step(pre, input);
            &&& directive_is_terminal_event(d) ==> post.phase == ActorPhase::Stopped
            &&& directive_stops(d) <==> post.phase == ActorPhase::Stopped
            &&& post.phase == ActorPhase::Stopped ==> !spec_accepts(post.phase, next)
        }),
{
}

/// Law: what a directive delivers is disciplined — a terminal directive
/// always carries `Disconnected` or `Error`, a continuing `Emit` always
/// carries `Connected` or `DataReceived`, and every stop after a
/// successful connect either delivers exactly one terminal event or is
/// the silent stop taken only when the consumer is gone and delivery is
/// impossible.
pub proof fn lemma_emissions_are_disciplined(pre: ActorMachine, input: ActorInput)
    requires
        spec_accepts(pre.phase, input),
    ensures
        ({
            let (post, d) = spec_step(pre, input);
            &&& (d matches ActorDirective::Stop(e) ==> (e is Disconnected || e is Error))
            &&& (d matches ActorDirective::FailStop(e) ==> e is Error)
            &&& (d matches ActorDirective::Emit(e) ==> (e is Connected || e is DataReceived))
            &&& (pre.phase == ActorPhase::Running && directive_stops(d) ==> (
                directive_is_terminal_event(d) || input matches ActorInput::EventSendFailed))
        }),
{
}

/// Law: commands are consumed in submission order and a send is attempted
/// before a disconnect takes effect — a `SendData` followed by a
/// `Disconnect` first yields the send directive, with the machine still
/// running, and only then the disconnect-and-stop.
pub proof fn lemma_send_before_disconnect(pre: ActorMachine, data: Vec<u8>)
    requires
        pre.phase == ActorPhase::Running,
    ensures
        ({
            let (mid, d1) = spec_step(
                pre,
                ActorInput::Command(Option::Some(ConnectionCommand::SendData(data))),
            );
            let (post, d2) = spec_step(
                mid,
                ActorInput::Command(Option::Some(ConnectionCommand::Disconnect)),
            );
            &&& d1 == (ActorDirective::Send { data })
            &&& mid.phase == ActorPhase::Running
            &&& spec_accepts(mid.phase, ActorInput::Command(Option::Some(ConnectionCommand::Disconnect)))
            &&& d2 == ActorDirective::Stop(ConnectionEvent::Disconnected)
            &&& post.phase == ActorPhase::Stopped
        }),
{
}

} // verus!
