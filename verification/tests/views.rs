use meshchat::channel_view::classify_packet;
use meshchat::channel_view::ChannelView;
use meshchat::channel_view::ChannelViewMessage;
use meshchat::channel_view::Shown;
use meshchat::connection::ConnectionState;
use meshchat::connection::SubscriberMessage;
use meshchat::connection::SubscriptionEvent;
use meshchat::device::DeviceId;
use meshchat::device_list_view::DeviceListView;
use meshchat::device_list_view::ErrorReport;
use meshchat::device_view::channel_row;
use meshchat::device_view::ChannelRow;
use meshchat::device_view::DeviceView;
use meshchat::device_view::DeviceViewMessage;
use meshchat::device_view::DeviceViewTask;
use meshchat::discovery::DiscoveryEvent;
use meshchat::navigation::initial_view;
use meshchat::navigation::may_close;
use meshchat::navigation::navigate;
use meshchat::navigation::title;
use meshchat::navigation::NavigationMessage;
use meshchat::navigation::Screen;
use meshchat::packet::Channel;
use meshchat::packet::MeshData;
use meshchat::packet::MeshPacket;
use meshchat::packet::PacketBody;
use meshchat::packet::RadioPacket;

fn radio(name: &str, address: u64) -> DeviceId {
    DeviceId::new(Some(name.to_string()), address).unwrap()
}

fn mesh(portnum: i32, emoji: u32, payload: &str) -> MeshPacket {
    MeshPacket {
        from: 1,
        id: 2,
        channel: 0,
        decoded: Some(MeshData { portnum, payload: payload.as_bytes().to_vec(), emoji }),
    }
}

fn channel(index: i32, role: i32) -> Channel {
    Channel { index, role, name: Some(format!("ch{}", index)) }
}

fn channel_packet(c: Channel) -> DeviceViewMessage {
    DeviceViewMessage::SubscriptionMessage(SubscriptionEvent::DevicePacket(RadioPacket {
        id: 1,
        body: Some(PacketBody::Channel(c)),
    }))
}

#[test]
fn device_list_adds_found_and_removes_lost() {
    let a = radio("A", 1);
    let b = radio("B", 2);
    let mut list = DeviceListView::new();
    assert!(list.devices().is_empty());
    assert_eq!(list.update(DiscoveryEvent::BLERadioFound(a.clone())), None);
    assert_eq!(list.update(DiscoveryEvent::BLERadioFound(b.clone())), None);
    assert_eq!(list.devices(), &vec![a.clone(), b.clone()]);
    assert_eq!(list.update(DiscoveryEvent::BLERadioLost(a.clone())), None);
    assert_eq!(list.devices(), &vec![b.clone()]);
    assert_eq!(list.update(DiscoveryEvent::BLERadioLost(a)), None);
    assert_eq!(list.devices(), &vec![b]);
}

#[test]
fn device_list_removes_every_copy_of_a_lost_radio() {
    let a = radio("A", 1);
    let b = radio("B", 2);
    let mut list = DeviceListView::new();
    list.update(DiscoveryEvent::BLERadioFound(a.clone()));
    list.update(DiscoveryEvent::BLERadioFound(b.clone()));
    list.update(DiscoveryEvent::BLERadioFound(a.clone()));
    assert_eq!(list.devices().len(), 3);
    list.update(DiscoveryEvent::BLERadioLost(a));
    assert_eq!(list.devices(), &vec![b]);
}

#[test]
fn device_list_hands_scan_errors_on() {
    let a = radio("A", 1);
    let mut list = DeviceListView::new();
    list.update(DiscoveryEvent::BLERadioFound(a.clone()));
    let report = list.update(DiscoveryEvent::Error("adapter off".to_string()));
    assert_eq!(
        report,
        Some(ErrorReport {
            summary: "Discovery Error".to_string(),
            detail: "adapter off".to_string()
        })
    );
    assert_eq!(list.devices(), &vec![a]);
}

#[test]
fn device_view_starts_idle() {
    let view = DeviceView::new();
    assert_eq!(view.connection_state(), &ConnectionState::Disconnected);
    assert!(!view.ready());
    assert!(view.channels().is_empty());
    assert_eq!(view.shown_channels(), 0);
}

#[test]
fn device_view_follows_a_connection() {
    let d1 = radio("D1", 1);
    let mut view = DeviceView::new();
    let task = view.update(DeviceViewMessage::SubscriptionMessage(SubscriptionEvent::Ready));
    assert_eq!(task, DeviceViewTask::Idle);
    assert!(view.ready());

    let task = view.update(DeviceViewMessage::DeviceConnect(d1.clone()));
    assert_eq!(
        task,
        DeviceViewTask::Send(SubscriberMessage::Connect(d1.clone()), NavigationMessage::DeviceView)
    );
    assert_eq!(view.connection_state(), &ConnectionState::Connecting(d1.clone()));

    let task = view.update(DeviceViewMessage::SubscriptionMessage(
        SubscriptionEvent::ConnectedEvent(d1.clone()),
    ));
    assert_eq!(task, DeviceViewTask::Idle);
    assert_eq!(view.connection_state(), &ConnectionState::Connected(d1.clone()));

    let task =
        view.update(DeviceViewMessage::SubscriptionMessage(SubscriptionEvent::MessageSent(0)));
    assert_eq!(task, DeviceViewTask::Idle);
    assert_eq!(view.connection_state(), &ConnectionState::Connected(d1.clone()));

    let task = view.update(DeviceViewMessage::DeviceDisconnect(d1.clone()));
    assert_eq!(
        task,
        DeviceViewTask::Send(SubscriberMessage::Disconnect, NavigationMessage::DevicesList)
    );
    assert_eq!(view.connection_state(), &ConnectionState::Disconnecting(d1.clone()));

    let task = view.update(DeviceViewMessage::SubscriptionMessage(
        SubscriptionEvent::DisconnectedEvent(d1),
    ));
    assert_eq!(task, DeviceViewTask::Navigate(NavigationMessage::DevicesList));
    assert_eq!(view.connection_state(), &ConnectionState::Disconnected);
    assert!(view.ready());
}

#[test]
fn device_view_reports_a_failed_connection() {
    let d1 = radio("D1", 1);
    let mut view = DeviceView::new();
    view.update(DeviceViewMessage::SubscriptionMessage(SubscriptionEvent::Ready));
    view.update(DeviceViewMessage::DeviceConnect(d1.clone()));
    let task = view.update(DeviceViewMessage::SubscriptionMessage(
        SubscriptionEvent::ConnectionError(d1, "Failed to connect to D1".to_string(), "timeout".to_string()),
    ));
    assert_eq!(
        task,
        DeviceViewTask::Report("Failed to connect to D1".to_string(), "timeout".to_string())
    );
    assert_eq!(view.connection_state(), &ConnectionState::Disconnected);
}

#[test]
fn device_view_collects_channels_and_shows_up_to_the_first_disabled() {
    let mut view = DeviceView::new();
    view.update(channel_packet(channel(0, 1)));
    view.update(channel_packet(channel(1, 2)));
    assert_eq!(view.shown_channels(), 2);
    view.update(channel_packet(channel(2, 0)));
    view.update(channel_packet(channel(3, 2)));
    assert_eq!(view.channels().len(), 4);
    assert_eq!(view.channels()[1], channel(1, 2));
    assert_eq!(view.shown_channels(), 2);
    let other = DeviceViewMessage::SubscriptionMessage(SubscriptionEvent::DevicePacket(
        RadioPacket { id: 1, body: Some(PacketBody::MyInfo) },
    ));
    assert_eq!(view.update(other), DeviceViewTask::Idle);
    assert_eq!(view.channels().len(), 4);
}

#[test]
fn channel_rows_go_by_role() {
    assert_eq!(channel_row(&channel(0, 0)), None);
    assert_eq!(channel_row(&channel(0, 1)), Some(ChannelRow::Primary));
    assert_eq!(channel_row(&channel(0, 2)), Some(ChannelRow::Secondary));
    assert_eq!(channel_row(&channel(0, 3)), None);
    assert_eq!(channel_row(&channel(0, -1)), None);
}

#[test]
fn channel_view_keeps_packets_and_the_typed_message() {
    let mut view = ChannelView::new(3);
    assert_eq!(view.channel_index, 3);
    assert_eq!(view.num_packets(), 0);
    assert_eq!(view.message, "");
    view.update(ChannelViewMessage::MessageInput("hel".to_string()));
    view.update(ChannelViewMessage::MessageInput("hello".to_string()));
    assert_eq!(view.message, "hello");
    view.push_packet(mesh(1, 0, "hi"));
    view.push_packet(mesh(3, 0, ""));
    assert_eq!(view.num_packets(), 2);
    assert_eq!(view.packets[0], mesh(1, 0, "hi"));
    view.message_sent();
    assert_eq!(view.message, "");
    assert_eq!(view.num_packets(), 2);
    assert_eq!(view.channel_index, 3);
}

#[test]
fn packets_are_sorted_by_port() {
    assert_eq!(classify_packet(&mesh(1, 0, "hi")), Shown::Text);
    assert_eq!(classify_packet(&mesh(3, 0, "")), Shown::Position);
    assert_eq!(classify_packet(&mesh(11, 0, "")), Shown::Alert);
    assert_eq!(classify_packet(&mesh(67, 0, "")), Shown::Telemetry);
    assert_eq!(classify_packet(&mesh(71, 0, "")), Shown::NeighborInfo);
    assert_eq!(classify_packet(&mesh(4, 0, "")), Shown::NodeInfo);
    assert_eq!(classify_packet(&mesh(0, 0, "")), Shown::Unexpected);
    assert_eq!(classify_packet(&mesh(5, 0, "")), Shown::Unexpected);
    assert_eq!(classify_packet(&mesh(1, 1, "x")), Shown::Hidden);
    let encrypted = MeshPacket { from: 1, id: 2, channel: 0, decoded: None };
    assert_eq!(classify_packet(&encrypted), Shown::Hidden);
}

#[test]
fn only_text_messages_become_lines() {
    let mut view = ChannelView::new(0);
    view.push_packet(mesh(3, 0, ""));
    view.push_packet(mesh(1, 0, "one"));
    view.push_packet(mesh(1, 7, "reaction"));
    view.push_packet(mesh(1, 0, "two"));
    view.push_packet(MeshPacket { from: 1, id: 2, channel: 0, decoded: None });
    assert_eq!(view.text_lines(), vec![1, 3]);
    assert!(ChannelView::new(0).text_lines().is_empty());
}

#[test]
fn navigation_shows_the_screen_asked_for() {
    assert_eq!(initial_view(), Screen::DeviceList);
    assert_eq!(navigate(Screen::DeviceList, NavigationMessage::DeviceView), Screen::Device);
    assert_eq!(navigate(Screen::Device, NavigationMessage::DeviceView), Screen::Device);
    assert_eq!(navigate(Screen::Device, NavigationMessage::DevicesList), Screen::DeviceList);
    assert_eq!(navigate(Screen::DeviceList, NavigationMessage::DevicesList), Screen::DeviceList);
}

#[test]
fn window_stays_open_only_while_connected() {
    let d1 = radio("D1", 1);
    assert!(may_close(&ConnectionState::Disconnected));
    assert!(may_close(&ConnectionState::Connecting(d1.clone())));
    assert!(!may_close(&ConnectionState::Connected(d1.clone())));
    assert!(may_close(&ConnectionState::Disconnecting(d1)));
}

#[test]
fn title_is_the_name_of_the_application() {
    assert_eq!(title(), "MeshChat");
}
