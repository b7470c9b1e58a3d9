//! The conversation on one channel, as the user interface keeps it.

use vstd::prelude::*;
use crate::packet::MeshPacket;
use crate::packet::PORT_ALERT;
use crate::packet::PORT_NEIGHBORINFO;
use crate::packet::PORT_NODEINFO;
use crate::packet::PORT_POSITION;
use crate::packet::PORT_TELEMETRY;
use crate::packet::PORT_TEXT_MESSAGE;

verus! {

/// What the user did in the conversation.
#[derive(Debug, Clone, PartialEq, Eq)]
pub enum ChannelViewMessage {
    /// The text in the entry field changed.
    MessageInput(String),
}

/// How a packet appears in the conversation.
#[derive(Debug, Clone, Copy, PartialEq, Eq, Structural)]
pub enum Shown {
    /// A line of text: the packet's payload.
    Text,
    /// Not shown: a position report.
    Position,
    /// Not shown: an alert.
    Alert,
    /// Not shown: a telemetry report.
    Telemetry,
    /// Not shown: a neighbour report.
    NeighborInfo,
    /// Not shown: a node description.
    NodeInfo,
    /// Not shown, and not expected on a channel.
    Unexpected,
    /// Not shown: still encrypted, or an emoji reaction.
    Hidden,
}

/// How a packet appears: only decoded text messages that are no emoji
/// reactions become lines of the conversation.
pub open spec fn shown_as(packet: MeshPacket) -> Shown {
    match packet.decoded {
        Some(data) => if data.emoji != 0 {
            Shown::Hidden
        } else if data.portnum == PORT_TEXT_MESSAGE {
            Shown::Text
        } else if data.portnum == PORT_POSITION {
            Shown::Position
        } else if data.portnum == PORT_ALERT {
            Shown::Alert
        } else if data.portnum == PORT_TELEMETRY {
            Shown::Telemetry
        } else if data.portnum == PORT_NEIGHBORINFO {
            Shown::NeighborInfo
        } else if data.portnum == PORT_NODEINFO {
            Shown::NodeInfo
        } else {
            Shown::Unexpected
        },
        None => Shown::Hidden,
    }
}

/// Sorts a packet by how it appears in the conversation.
pub fn classify_packet(packet: &MeshPacket) -> (r: Shown)
    ensures
        r == shown_as(*packet),
{
    match &packet.decoded {
        Some(data) => {
            if data.emoji != 0 {
                Shown::Hidden
            } else if data.portnum == PORT_TEXT_MESSAGE {
                Shown::Text
            } else if data.portnum == PORT_POSITION {
                Shown::Position
            } else if data.portnum == PORT_ALERT {
                Shown::Alert
            } else if data.portnum == PORT_TELEMETRY {
                Shown::Telemetry
            } else if data.portnum == PORT_NEIGHBORINFO {
                Shown::NeighborInfo
            } else if data.portnum == PORT_NODEINFO {
                Shown::NodeInfo
            } else {
                Shown::Unexpected
            }
        },
        None => Shown::Hidden,
    }
}

/// The packets of one channel and the message being typed.
#[derive(Debug)]
pub struct ChannelView {
    /// The channel that the conversation is on.
    pub channel_index: i32,
    pub packets: Vec<MeshPacket>,
    /// The message typed in so far.
    pub message: String,
}

impl ChannelView {
    /// An empty conversation on a channel.
    pub fn new(channel_index: i32) -> (r: Self)
        ensures
            r.channel_index == channel_index,
            r.packets@ == Seq::<MeshPacket>::empty(),
            r.message@ == Seq::<char>::empty(),
    {
        Self { channel_index, packets: Vec::new(), message: String::new() }
    }

    /// The message went out: the entry field is cleared.
    pub fn message_sent(&mut self)
        ensures
            final(self).message@ == Seq::<char>::empty(),
            final(self).channel_index == old(self).channel_index,
            final(self).packets == old(self).packets,
    {
        self.message = String::new();
    }

    /// Adds a packet at the end of the conversation.
    pub fn push_packet(&mut self, mesh_packet: MeshPacket)
        ensures
            final(self).packets@ == old(self).packets@.push(mesh_packet),
            final(self).channel_index == old(self).channel_index,
            final(self).message == old(self).message,
    {
        self.packets.push(mesh_packet);
    }

    /// The number of packets in the conversation.
    pub fn num_packets(&self) -> (r: usize)
        ensures
            r == self.packets@.len(),
    {
        self.packets.len()
    }

    /// Takes in what the user did: the text typed replaces the message.
    pub fn update(&mut self, channel_view_message: ChannelViewMessage)
        ensures
            channel_view_message matches ChannelViewMessage::MessageInput(s) && final(self).message
                == s,
            final(self).channel_index == old(self).channel_index,
            final(self).packets == old(self).packets,
    {
        match channel_view_message {
            ChannelViewMessage::MessageInput(s) => {
                self.message = s;
            },
        }
    }

    /// The places, in order, of the packets that appear as lines of text.
    pub fn text_lines(&self) -> (r: Vec<usize>)
        ensures
            forall|k: int| 0 <= k < r@.len() ==> r@[k] < self.packets@.len() && shown_as(
                self.packets@[r@[k] as int],
            ) == Shown::Text,
            forall|k: int, l: int| 0 <= k < l < r@.len() ==> r@[k] < r@[l],
            forall|i: int|
                0 <= i < self.packets@.len() && shown_as(self.packets@[i]) == Shown::Text
                    ==> r@.contains(i as usize),
    {
        let mut lines: Vec<usize> = Vec::new();
        let mut i: usize = 0;
        while i < self.packets.len()
            invariant
                i <= self.packets.len(),
                forall|k: int| 0 <= k < lines@.len() ==> lines@[k] < i && shown_as(
                    self.packets@[lines@[k] as int],
                ) == Shown::Text,
                forall|k: int, l: int| 0 <= k < l < lines@.len() ==> lines@[k] < lines@[l],
                forall|j: int|
                    0 <= j < i && shown_as(self.packets@[j]) == Shown::Text ==> lines@.contains(
                        j as usize,
                    ),
            decreases self.packets.len() - i,
        {
            if classify_packet(&self.packets[i]) == Shown::Text {
                let ghost before = lines@;
                lines.push(i);
                assert forall|j: int|
                    0 <= j < i + 1 && shown_as(self.packets@[j]) == Shown::Text implies lines@.contains(
                    j as usize,
                ) by {
                    if j < i {
                        let k = choose|k: int| 0 <= k < before.len() && before[k] == j as usize;
                        assert(lines@[k] == j as usize);
                    } else {
                        assert(lines@[before.len() as int] == j as usize);
                    }
                }
            }
            i += 1;
        }
        lines
    }
}

} // verus!
