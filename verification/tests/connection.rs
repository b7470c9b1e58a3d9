use meshchat::connection::start;
use meshchat::connection::step;
use meshchat::connection::waits_for;
use meshchat::connection::Action;
use meshchat::connection::ConnectionState;
use meshchat::connection::Input;
use meshchat::connection::Note;
use meshchat::connection::SubscriberMessage;
use meshchat::connection::SubscriptionEvent;
use meshchat::connection::Waiting;
use meshchat::connection::CONNECT_TIMEOUT_SECONDS;
use meshchat::device::DeviceId;
use meshchat::packet::Channel;
use meshchat::packet::MeshPacket;
use meshchat::packet::PacketBody;
use meshchat::packet::RadioPacket;
use meshchat::CHANNEL_CAPACITY;

fn radio(name: &str, address: u64) -> DeviceId {
    DeviceId::new(Some(name.to_string()), address).unwrap()
}

fn packet(body: Option<PacketBody>) -> RadioPacket {
    RadioPacket { id: 9, body }
}

fn mesh_packet() -> MeshPacket {
    MeshPacket { from: 1, id: 2, channel: 0, decoded: None }
}

fn events_of(actions: &[Action]) -> Vec<SubscriptionEvent> {
    let mut events = Vec::new();
    for action in actions {
        if let Action::Emit(event) = action {
            events.push(event.clone());
        }
    }
    events
}

fn run(state: ConnectionState, inputs: Vec<Input>) -> (ConnectionState, Vec<Action>) {
    let mut state = state;
    let mut all = Vec::new();
    for input in inputs {
        let (next, actions) = step(state, input);
        state = next;
        all.extend(actions);
    }
    (state, all)
}

#[test]
fn task_starts_disconnected_and_says_ready() {
    let (state, actions) = start();
    assert_eq!(state, ConnectionState::Disconnected);
    assert_eq!(actions, vec![Action::Emit(SubscriptionEvent::Ready)]);
}

#[test]
fn ready_is_sent_once_and_first() {
    let d1 = radio("D1", 1);
    let (state, mut all) = start();
    let (_, rest) = run(
        state,
        vec![
            Input::Message(SubscriberMessage::Connect(d1.clone())),
            Input::ConnectFinished(Ok(())),
            Input::Message(SubscriberMessage::SendText("hi".to_string(), 0)),
            Input::Message(SubscriberMessage::Disconnect),
            Input::DisconnectFinished(Ok(())),
            Input::Message(SubscriberMessage::Connect(d1)),
            Input::ConnectFinished(Err("timeout".to_string())),
        ],
    );
    all.extend(rest);
    let events = events_of(&all);
    assert_eq!(events[0], SubscriptionEvent::Ready);
    assert_eq!(events.iter().filter(|e| **e == SubscriptionEvent::Ready).count(), 1);
}

#[test]
fn connect_send_packet_disconnect() {
    let d1 = radio("D1", 1);
    let (state, _) = start();

    let (state, actions) = step(state, Input::Message(SubscriberMessage::Connect(d1.clone())));
    assert_eq!(state, ConnectionState::Connecting(d1.clone()));
    assert_eq!(actions, vec![Action::Connect(d1.clone())]);

    let (state, actions) = step(state, Input::ConnectFinished(Ok(())));
    assert_eq!(state, ConnectionState::Connected(d1.clone()));
    assert_eq!(actions, vec![Action::Emit(SubscriptionEvent::ConnectedEvent(d1.clone()))]);

    let (state, actions) =
        step(state, Input::Message(SubscriberMessage::SendText("hi".to_string(), 0)));
    assert_eq!(state, ConnectionState::Connected(d1.clone()));
    assert_eq!(
        actions,
        vec![Action::Send("hi".to_string(), 0), Action::Emit(SubscriptionEvent::MessageSent(0))]
    );

    let (state, actions) =
        step(state, Input::Message(SubscriberMessage::Radio(packet(Some(PacketBody::LogRecord)))));
    assert_eq!(state, ConnectionState::Connected(d1.clone()));
    assert!(actions.is_empty());

    let (state, actions) = step(state, Input::Message(SubscriberMessage::Disconnect));
    assert_eq!(state, ConnectionState::Disconnecting(d1.clone()));
    assert_eq!(actions, vec![Action::Disconnect(d1.clone())]);

    let (state, actions) = step(state, Input::DisconnectFinished(Ok(())));
    assert_eq!(state, ConnectionState::Disconnected);
    assert_eq!(actions, vec![Action::Emit(SubscriptionEvent::DisconnectedEvent(d1))]);
}

#[test]
fn failed_connect_reports_and_allows_retry() {
    let d2 = radio("D2", 2);
    let (state, _) = start();
    let (state, _) = step(state, Input::Message(SubscriberMessage::Connect(d2.clone())));
    let (state, actions) = step(state, Input::ConnectFinished(Err("timeout".to_string())));
    assert_eq!(state, ConnectionState::Disconnected);
    assert_eq!(
        actions,
        vec![Action::Emit(SubscriptionEvent::ConnectionError(
            d2.clone(),
            "Failed to connect to D2".to_string(),
            "timeout".to_string(),
        ))]
    );
    let (state, actions) = step(state, Input::Message(SubscriberMessage::Connect(d2.clone())));
    assert_eq!(state, ConnectionState::Connecting(d2.clone()));
    assert_eq!(actions, vec![Action::Connect(d2)]);
}

#[test]
fn failure_summary_names_unnamed_radio_by_address() {
    let id = DeviceId::new(None, 0x0011_22AA_BBCC).unwrap();
    let (state, _) = step(
        ConnectionState::Disconnected,
        Input::Message(SubscriberMessage::Connect(id.clone())),
    );
    let (_, actions) = step(state, Input::ConnectFinished(Err("no such device".to_string())));
    assert_eq!(
        actions,
        vec![Action::Emit(SubscriptionEvent::ConnectionError(
            id,
            "Failed to connect to 00:11:22:AA:BB:CC".to_string(),
            "no such device".to_string(),
        ))]
    );
}

#[test]
fn connect_while_connecting_changes_nothing() {
    let d1 = radio("D1", 1);
    let d2 = radio("D2", 2);
    let (state, actions) = step(
        ConnectionState::Connecting(d1.clone()),
        Input::Message(SubscriberMessage::Connect(d2)),
    );
    assert_eq!(state, ConnectionState::Connecting(d1));
    assert_eq!(actions, vec![Action::Log(Note::AlreadyConnected)]);
    assert!(events_of(&actions).is_empty());
}

#[test]
fn connect_while_connected_changes_nothing() {
    let d1 = radio("D1", 1);
    let (state, actions) = step(
        ConnectionState::Connected(d1.clone()),
        Input::Message(SubscriberMessage::Connect(d1.clone())),
    );
    assert_eq!(state, ConnectionState::Connected(d1));
    assert_eq!(actions, vec![Action::Log(Note::AlreadyConnected)]);
    assert!(events_of(&actions).is_empty());
}

#[test]
fn disconnect_while_disconnected_changes_nothing() {
    let (state, actions) =
        step(ConnectionState::Disconnected, Input::Message(SubscriberMessage::Disconnect));
    assert_eq!(state, ConnectionState::Disconnected);
    assert_eq!(actions, vec![Action::Log(Note::NotConnected)]);
    assert!(events_of(&actions).is_empty());
}

#[test]
fn send_text_while_disconnected_changes_nothing() {
    let (state, actions) = step(
        ConnectionState::Disconnected,
        Input::Message(SubscriberMessage::SendText("hi".to_string(), 1)),
    );
    assert_eq!(state, ConnectionState::Disconnected);
    assert_eq!(actions, vec![Action::Log(Note::NotConnected)]);
}

#[test]
fn end_of_stream_takes_the_link_down() {
    let d1 = radio("D1", 1);
    let (state, actions) = step(ConnectionState::Connected(d1.clone()), Input::StreamEnded);
    assert_eq!(state, ConnectionState::Disconnecting(d1.clone()));
    assert_eq!(actions, vec![Action::Disconnect(d1.clone())]);
    let (state, actions) = step(state, Input::DisconnectFinished(Ok(())));
    assert_eq!(state, ConnectionState::Disconnected);
    assert_eq!(actions, vec![Action::Emit(SubscriptionEvent::DisconnectedEvent(d1))]);
}

#[test]
fn failed_disconnect_is_logged_and_still_ends_the_connection() {
    let d1 = radio("D1", 1);
    let (state, actions) = step(
        ConnectionState::Disconnecting(d1.clone()),
        Input::DisconnectFinished(Err("link lost".to_string())),
    );
    assert_eq!(state, ConnectionState::Disconnected);
    assert_eq!(
        actions,
        vec![
            Action::Log(Note::DisconnectFailed("link lost".to_string())),
            Action::Emit(SubscriptionEvent::DisconnectedEvent(d1)),
        ]
    );
}

#[test]
fn packets_of_interest_reach_the_user_interface() {
    let d1 = radio("D1", 1);
    let bodies = vec![
        PacketBody::Packet(mesh_packet()),
        PacketBody::MyInfo,
        PacketBody::NodeInfo,
        PacketBody::Channel(Channel { index: 0, role: 1, name: Some("LongFast".to_string()) }),
        PacketBody::ClientNotification,
    ];
    for body in bodies {
        let p = packet(Some(body));
        let (state, actions) = step(
            ConnectionState::Connected(d1.clone()),
            Input::Message(SubscriberMessage::Radio(p.clone())),
        );
        assert_eq!(state, ConnectionState::Connected(d1.clone()));
        assert_eq!(actions, vec![Action::Emit(SubscriptionEvent::DevicePacket(p))]);
    }
}

#[test]
fn other_packets_are_dropped() {
    let d1 = radio("D1", 1);
    let bodies = vec![
        Some(PacketBody::Config),
        Some(PacketBody::LogRecord),
        Some(PacketBody::ConfigCompleteId(7)),
        Some(PacketBody::Rebooted(true)),
        Some(PacketBody::ModuleConfig),
        Some(PacketBody::QueueStatus),
        Some(PacketBody::XmodemPacket),
        Some(PacketBody::Metadata),
        Some(PacketBody::MqttClientProxyMessage),
        Some(PacketBody::FileInfo),
        Some(PacketBody::DeviceuiConfig),
        None,
    ];
    for body in bodies {
        let (state, actions) = step(
            ConnectionState::Connected(d1.clone()),
            Input::Message(SubscriberMessage::Radio(packet(body))),
        );
        assert_eq!(state, ConnectionState::Connected(d1.clone()));
        assert!(actions.is_empty());
    }
}

#[test]
fn what_a_state_does_not_wait_for_is_ignored() {
    let d1 = radio("D1", 1);
    let cases: Vec<(ConnectionState, Input)> = vec![
        (ConnectionState::Disconnected, Input::ConnectFinished(Ok(()))),
        (ConnectionState::Disconnected, Input::StreamEnded),
        (ConnectionState::Disconnected, Input::DisconnectFinished(Ok(()))),
        (
            ConnectionState::Disconnected,
            Input::Message(SubscriberMessage::Radio(packet(Some(PacketBody::MyInfo)))),
        ),
        (ConnectionState::Connecting(d1.clone()), Input::StreamEnded),
        (ConnectionState::Connecting(d1.clone()), Input::DisconnectFinished(Ok(()))),
        (ConnectionState::Connected(d1.clone()), Input::ConnectFinished(Ok(()))),
        (ConnectionState::Connected(d1.clone()), Input::DisconnectFinished(Ok(()))),
        (ConnectionState::Disconnecting(d1.clone()), Input::ConnectFinished(Ok(()))),
        (ConnectionState::Disconnecting(d1.clone()), Input::StreamEnded),
    ];
    for (state, input) in cases {
        let before = state.clone();
        let (after, actions) = step(state, input);
        assert_eq!(after, before);
        assert_eq!(actions, vec![Action::Log(Note::Unexpected)]);
    }
}

#[test]
fn commands_while_the_transport_works_are_only_remarked() {
    let d1 = radio("D1", 1);
    for state in [ConnectionState::Connecting(d1.clone()), ConnectionState::Disconnecting(d1.clone())]
    {
        let (after, actions) = step(state.clone(), Input::Message(SubscriberMessage::Disconnect));
        assert_eq!(after, state);
        assert_eq!(actions, vec![Action::Log(Note::NotConnected)]);
        let (after, actions) = step(
            state.clone(),
            Input::Message(SubscriberMessage::SendText("x".to_string(), 2)),
        );
        assert_eq!(after, state);
        assert_eq!(actions, vec![Action::Log(Note::NotConnected)]);
    }
}

#[test]
fn each_state_waits_on_its_own_sources() {
    let d1 = radio("D1", 1);
    assert_eq!(waits_for(&ConnectionState::Disconnected), Waiting::Commands);
    assert_eq!(waits_for(&ConnectionState::Connecting(d1.clone())), Waiting::ConnectResult);
    assert_eq!(waits_for(&ConnectionState::Connected(d1.clone())), Waiting::CommandsAndPackets);
    assert_eq!(waits_for(&ConnectionState::Disconnecting(d1)), Waiting::DisconnectResult);
}

#[test]
fn connected_is_announced_only_between_disconnects() {
    let d1 = radio("D1", 1);
    let d2 = radio("D2", 2);
    let inputs = vec![
        Input::Message(SubscriberMessage::Connect(d1.clone())),
        Input::Message(SubscriberMessage::Connect(d2.clone())),
        Input::ConnectFinished(Ok(())),
        Input::ConnectFinished(Ok(())),
        Input::Message(SubscriberMessage::Connect(d2.clone())),
        Input::StreamEnded,
        Input::DisconnectFinished(Err("gone".to_string())),
        Input::Message(SubscriberMessage::Connect(d2.clone())),
        Input::ConnectFinished(Err("timeout".to_string())),
        Input::Message(SubscriberMessage::Connect(d2.clone())),
        Input::ConnectFinished(Ok(())),
    ];
    let (state, actions) = run(ConnectionState::Disconnected, inputs);
    assert_eq!(state, ConnectionState::Connected(d2.clone()));
    assert_eq!(
        events_of(&actions),
        vec![
            SubscriptionEvent::ConnectedEvent(d1.clone()),
            SubscriptionEvent::DisconnectedEvent(d1),
            SubscriptionEvent::ConnectionError(
                d2.clone(),
                "Failed to connect to D2".to_string(),
                "timeout".to_string()
            ),
            SubscriptionEvent::ConnectedEvent(d2),
        ]
    );
}

#[test]
fn limits_are_as_documented() {
    assert_eq!(CONNECT_TIMEOUT_SECONDS, 4);
    assert_eq!(CHANNEL_CAPACITY, 100);
    assert_eq!(meshchat::discovery::SCAN_SECONDS, 4);
}
