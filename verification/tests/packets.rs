use meshchat::packet::classify;
use meshchat::packet::is_of_interest;
use meshchat::packet::Channel;
use meshchat::packet::Interest;
use meshchat::packet::MeshPacket;
use meshchat::packet::PacketBody;
use meshchat::packet::RadioPacket;

#[test]
fn classify_sorts_every_kind_of_content() {
    let mesh = MeshPacket { from: 1, id: 2, channel: 3, decoded: None };
    let channel = Channel { index: 1, role: 2, name: None };
    let cases: Vec<(Option<PacketBody>, Option<Interest>)> = vec![
        (Some(PacketBody::Packet(mesh)), Some(Interest::Data)),
        (Some(PacketBody::MyInfo), Some(Interest::NodeMetadata)),
        (Some(PacketBody::NodeInfo), Some(Interest::NodeMetadata)),
        (Some(PacketBody::Channel(channel)), Some(Interest::ChannelConfig)),
        (Some(PacketBody::ClientNotification), Some(Interest::Notification)),
        (Some(PacketBody::Config), None),
        (Some(PacketBody::LogRecord), None),
        (Some(PacketBody::ConfigCompleteId(1)), None),
        (Some(PacketBody::Rebooted(false)), None),
        (Some(PacketBody::ModuleConfig), None),
        (Some(PacketBody::QueueStatus), None),
        (Some(PacketBody::XmodemPacket), None),
        (Some(PacketBody::Metadata), None),
        (Some(PacketBody::MqttClientProxyMessage), None),
        (Some(PacketBody::FileInfo), None),
        (Some(PacketBody::DeviceuiConfig), None),
        (None, None),
    ];
    for (body, expected) in cases {
        let packet = RadioPacket { id: 0, body };
        assert_eq!(classify(&packet), expected);
        assert_eq!(is_of_interest(&packet), expected.is_some());
    }
}
