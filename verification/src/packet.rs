//! What the connection task reads of a packet that a radio sent.

use vstd::prelude::*;

verus! {

/// Port number of a text message.
pub const PORT_TEXT_MESSAGE: i32 = 1;

/// Port number of a position report.
pub const PORT_POSITION: i32 = 3;

/// Port number of a node description.
pub const PORT_NODEINFO: i32 = 4;

/// Port number of an alert.
pub const PORT_ALERT: i32 = 11;

/// Port number of a telemetry report.
pub const PORT_TELEMETRY: i32 = 67;

/// Port number of a neighbour report.
pub const PORT_NEIGHBORINFO: i32 = 71;

/// Role number of a channel that is switched off.
pub const ROLE_DISABLED: i32 = 0;

/// Role number of the primary channel.
pub const ROLE_PRIMARY: i32 = 1;

/// Role number of a secondary channel.
pub const ROLE_SECONDARY: i32 = 2;

/// The decoded content of a mesh packet.
#[derive(Debug, Clone, PartialEq, Eq)]
pub struct MeshData {
    pub portnum: i32,
    pub payload: Vec<u8>,
    /// Not zero where the payload is an emoji reaction.
    pub emoji: u32,
}

/// A packet that travelled over the mesh.
#[derive(Debug, Clone, PartialEq, Eq)]
pub struct MeshPacket {
    pub from: u32,
    pub id: u32,
    pub channel: u32,
    /// `None` where the packet is still encrypted.
    pub decoded: Option<MeshData>,
}

/// One channel of the radio's configuration.
#[derive(Debug, Clone, PartialEq, Eq)]
pub struct Channel {
    pub index: i32,
    pub role: i32,
    pub name: Option<String>,
}

/// The kinds of content that a radio sends to its client.
#[derive(Debug, Clone, PartialEq, Eq)]
pub enum PacketBody {
    Packet(MeshPacket),
    MyInfo,
    NodeInfo,
    Config,
    LogRecord,
    ConfigCompleteId(u32),
    Rebooted(bool),
    ModuleConfig,
    Channel(Channel),
    QueueStatus,
    XmodemPacket,
    Metadata,
    MqttClientProxyMessage,
    FileInfo,
    ClientNotification,
    DeviceuiConfig,
}

/// One packet from the radio; `body` is `None` where it carried no content.
#[derive(Debug, Clone, PartialEq, Eq)]
pub struct RadioPacket {
    pub id: u32,
    pub body: Option<PacketBody>,
}

/// Why the user interface wants to see a packet.
#[derive(Debug, Clone, Copy, PartialEq, Eq, Structural)]
pub enum Interest {
    /// A packet from the mesh.
    Data,
    /// A description of this node or of another one.
    NodeMetadata,
    /// The configuration of a channel.
    ChannelConfig,
    /// A notice for the client.
    Notification,
}

/// The interest that the user interface has in a packet's content; `None`
/// for what it does not show.
pub open spec fn interest_of(body: Option<PacketBody>) -> Option<Interest> {
    match body {
        Some(PacketBody::Packet(_)) => Some(Interest::Data),
        Some(PacketBody::MyInfo) => Some(Interest::NodeMetadata),
        Some(PacketBody::NodeInfo) => Some(Interest::NodeMetadata),
        Some(PacketBody::Channel(_)) => Some(Interest::ChannelConfig),
        Some(PacketBody::ClientNotification) => Some(Interest::Notification),
        _ => None,
    }
}

/// Whether the user interface is to see a packet.
pub open spec fn of_interest(packet: RadioPacket) -> bool {
    interest_of(packet.body) is Some
}

/// Sorts a packet by its content.
pub fn classify(packet: &RadioPacket) -> (r: Option<Interest>)
    ensures
        r == interest_of(packet.body),
{
    match &packet.body {
        Some(PacketBody::Packet(_)) => Some(Interest::Data),
        Some(PacketBody::MyInfo) => Some(Interest::NodeMetadata),
        Some(PacketBody::NodeInfo) => Some(Interest::NodeMetadata),
        Some(PacketBody::Channel(_)) => Some(Interest::ChannelConfig),
        Some(PacketBody::ClientNotification) => Some(Interest::Notification),
        _ => None,
    }
}

/// Whether a packet is passed on to the user interface.
pub fn is_of_interest(packet: &RadioPacket) -> (r: bool)
    ensures
        r == of_interest(*packet),
{
    classify(packet).is_some()
}

} // verus!
