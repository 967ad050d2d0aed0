use serial_ssh_term::actor::{ActorDirective, ActorInput, ActorMachine, ActorPhase};
use serial_ssh_term::connection::{
    ConnectionCommand, ConnectionEvent, ConnectionState, ConnectionType,
    COMMAND_CHANNEL_CAPACITY, EVENT_CHANNEL_CAPACITY,
};

#[test]
fn channel_bounds() {
    assert_eq!(COMMAND_CHANNEL_CAPACITY, 32);
    assert_eq!(EVENT_CHANNEL_CAPACITY, 128);
}

#[test]
fn failed_connect_stops_without_entering_the_loop() {
    let mut m = ActorMachine::new();
    assert!(matches!(m.phase, ActorPhase::PreConnect));
    let d = m.step(ActorInput::ConnectFailed { message: String::from("nope") });
    assert!(matches!(d, ActorDirective::FailStop(ConnectionEvent::Error(message)) if message == "nope"));
    assert!(matches!(m.phase, ActorPhase::Stopped));
}

#[test]
fn successful_connect_announces_and_runs() {
    let mut m = ActorMachine::new();
    let d = m.step(ActorInput::ConnectSucceeded {
        conn_type: ConnectionType::Serial,
        description: String::from("COM_TEST @ 9600"),
    });
    match d {
        ActorDirective::Emit(ConnectionEvent::Connected { conn_type, description }) => {
            assert!(matches!(conn_type, ConnectionType::Serial));
            assert_eq!(description, "COM_TEST @ 9600");
        }
        _ => panic!("expected the connected announcement"),
    }
    assert!(matches!(m.phase, ActorPhase::Running));
}

fn running_machine() -> ActorMachine {
    let mut m = ActorMachine::new();
    m.step(ActorInput::ConnectSucceeded {
        conn_type: ConnectionType::Serial,
        description: String::new(),
    });
    m
}

#[test]
fn send_is_attempted_before_disconnect_takes_effect() {
    let mut m = running_machine();
    let d1 = m.step(ActorInput::Command(Some(ConnectionCommand::SendData(b"AT\r\n".to_vec()))));
    assert!(matches!(d1, ActorDirective::Send { data } if data == b"AT\r\n"));
    assert!(matches!(m.phase, ActorPhase::Running));
    let d2 = m.step(ActorInput::Command(Some(ConnectionCommand::Disconnect)));
    assert!(matches!(d2, ActorDirective::Stop(ConnectionEvent::Disconnected)));
    assert!(matches!(m.phase, ActorPhase::Stopped));
}

#[test]
fn closed_command_channel_means_disconnect() {
    let mut m = running_machine();
    let d = m.step(ActorInput::Command(None));
    assert!(matches!(d, ActorDirective::Stop(ConnectionEvent::Disconnected)));
    assert!(matches!(m.phase, ActorPhase::Stopped));
}

#[test]
fn failed_send_stops_with_an_error() {
    let mut m = running_machine();
    let d = m.step(ActorInput::SendFailed { message: String::from("broken pipe") });
    assert!(matches!(d, ActorDirective::Stop(ConnectionEvent::Error(message)) if message == "broken pipe"));
    assert!(matches!(m.phase, ActorPhase::Stopped));
}

#[test]
fn reads_drive_the_loop() {
    let mut m = running_machine();

    let d = m.step(ActorInput::ReadData { data: vec![1u8, 2] });
    assert!(matches!(d, ActorDirective::Emit(ConnectionEvent::DataReceived(data)) if data == vec![1u8, 2]));
    assert!(matches!(m.phase, ActorPhase::Running));

    let d = m.step(ActorInput::SendSucceeded);
    assert!(matches!(d, ActorDirective::Idle));

    // An empty read with the transport still connected only loops.
    let d = m.step(ActorInput::ReadEmpty { transport_state: ConnectionState::Connected });
    assert!(matches!(d, ActorDirective::Idle));
    assert!(matches!(m.phase, ActorPhase::Running));

    // An empty read after the transport noticed the remote close stops
    // with a clean disconnect, not an error.
    let d = m.step(ActorInput::ReadEmpty { transport_state: ConnectionState::Disconnected });
    assert!(matches!(d, ActorDirective::Stop(ConnectionEvent::Disconnected)));
    assert!(matches!(m.phase, ActorPhase::Stopped));
}

#[test]
fn transport_error_state_on_empty_read_stops_cleanly() {
    let mut m = running_machine();
    let d = m.step(ActorInput::ReadEmpty { transport_state: ConnectionState::Error });
    assert!(matches!(d, ActorDirective::Stop(ConnectionEvent::Disconnected)));
}

#[test]
fn failed_read_stops_with_an_error() {
    let mut m = running_machine();
    let d = m.step(ActorInput::ReadFailed { message: String::from("torn cable") });
    assert!(matches!(d, ActorDirective::Stop(ConnectionEvent::Error(message)) if message == "torn cable"));
}

#[test]
fn gone_consumer_stops_silently() {
    let mut m = running_machine();
    let d = m.step(ActorInput::EventSendFailed);
    assert!(matches!(d, ActorDirective::StopSilent));
    assert!(matches!(m.phase, ActorPhase::Stopped));
}

/// Runs a full scripted actor lifetime and counts the terminal events its
/// directives would emit.
fn terminal_events_of_run(inputs: Vec<ActorInput>) -> usize {
    let mut m = ActorMachine::new();
    let mut terminal = 0usize;
    for input in inputs {
        if matches!(m.phase, ActorPhase::Stopped) {
            break;
        }
        let d = m.step(input);
        match d {
            ActorDirective::FailStop(_) | ActorDirective::Stop(_) => terminal += 1,
            _ => {}
        }
    }
    terminal
}

#[test]
fn one_run_emits_exactly_one_terminal_event() {
    // A disconnect command right after another: the machine stops on the
    // first and never yields a second Disconnected.
    let n = terminal_events_of_run(vec![
        ActorInput::ConnectSucceeded {
            conn_type: ConnectionType::Ssh,
            description: String::new(),
        },
        ActorInput::Command(Some(ConnectionCommand::Disconnect)),
        ActorInput::Command(Some(ConnectionCommand::Disconnect)),
        ActorInput::ReadFailed { message: String::from("late") },
    ]);
    assert_eq!(n, 1);

    let n = terminal_events_of_run(vec![
        ActorInput::ConnectFailed { message: String::from("refused") },
        ActorInput::Command(Some(ConnectionCommand::Disconnect)),
    ]);
    assert_eq!(n, 1);
}

#[test]
fn commands_keep_their_submission_order_through_the_channel() {
    // The command channel is a FIFO: a SendData submitted before a
    // Disconnect reaches the machine first, so the send directive comes
    // before the stop.
    let rt = tokio::runtime::Builder::new_current_thread().build().unwrap();
    rt.block_on(async {
        let (tx, mut rx) =
            tokio::sync::mpsc::channel::<ConnectionCommand>(COMMAND_CHANNEL_CAPACITY);
        tx.send(ConnectionCommand::SendData(b"first".to_vec())).await.unwrap();
        tx.send(ConnectionCommand::Disconnect).await.unwrap();

        let mut m = running_machine();
        let d1 = m.step(ActorInput::Command(rx.recv().await));
        assert!(matches!(d1, ActorDirective::Send { data } if data == b"first"));
        let d2 = m.step(ActorInput::Command(rx.recv().await));
        assert!(matches!(d2, ActorDirective::Stop(ConnectionEvent::Disconnected)));
    });
}

#[test]
fn gone_event_receiver_terminates_the_actor() {
    // The event channel is bounded; once the consumer is gone, delivery
    // fails and the machine orders a silent stop instead of buffering or
    // blocking forever.
    let rt = tokio::runtime::Builder::new_current_thread().build().unwrap();
    rt.block_on(async {
        let (tx, rx) = async_channel::bounded::<ConnectionEvent>(EVENT_CHANNEL_CAPACITY);
        drop(rx);
        let delivery = tx.send(ConnectionEvent::DataReceived(vec![1u8])).await;
        assert!(delivery.is_err());

        let mut m = running_machine();
        let d = m.step(ActorInput::EventSendFailed);
        assert!(matches!(d, ActorDirective::StopSilent));
        assert!(matches!(m.phase, ActorPhase::Stopped));
    });
}
