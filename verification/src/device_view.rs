//! What the user interface knows of the connection: the state it shows, the
//! channels of the radio, and whether the connection task takes commands yet.

use vstd::prelude::*;
use vstd::string::StringExecFns;
use crate::connection::ConnectionState;
use crate::connection::ConnectionStateView;
use crate::connection::SubscriberMessage;
use crate::connection::SubscriberMessageView;
use crate::connection::SubscriptionEvent;
use crate::connection::SubscriptionEventView;
use crate::device::display_name;
use crate::device::name_from_id;
use crate::device::DeviceId;
use crate::navigation::NavigationMessage;
use crate::packet::Channel;
use crate::packet::PacketBody;
use crate::packet::ROLE_PRIMARY;
use crate::packet::ROLE_SECONDARY;

verus! {

/// What reaches the device screen: a wish of the user, or an event of the
/// connection task.
#[derive(Debug, Clone, PartialEq, Eq)]
pub enum DeviceViewMessage {
    DeviceConnect(DeviceId),
    DeviceDisconnect(DeviceId),
    SubscriptionMessage(SubscriptionEvent),
}

/// What the application is to do after the device screen took a message in.
#[derive(Debug, Clone, PartialEq, Eq)]
pub enum DeviceViewTask {
    /// Nothing.
    Idle,
    /// Send a command to the connection task, then show a screen.
    Send(SubscriberMessage, NavigationMessage),
    /// Show a screen.
    Navigate(NavigationMessage),
    /// Show an error: a short text and the cause.
    Report(String, String),
}

/// How a channel appears on the device screen.
#[derive(Debug, Clone, Copy, PartialEq, Eq, Structural)]
pub enum ChannelRow {
    Primary,
    Secondary,
}

/// The row for a channel by its role; `None` for one that is switched off or
/// whose role is not known.
pub open spec fn row_of(role: i32) -> Option<ChannelRow> {
    if role == ROLE_PRIMARY {
        Some(ChannelRow::Primary)
    } else if role == ROLE_SECONDARY {
        Some(ChannelRow::Secondary)
    } else {
        None
    }
}

/// The number of channels on show: those before the first that has no row.
pub open spec fn rows_shown(channels: Seq<Channel>) -> nat
    decreases channels.len(),
{
    if channels.len() == 0 {
        0
    } else {
        let before = rows_shown(channels.drop_last());
        if before == channels.len() - 1 && row_of(channels.last().role) is Some {
            before + 1
        } else {
            before
        }
    }
}

/// The state of the device screen.
#[derive(Debug)]
pub struct DeviceView {
    connection_state: ConnectionState,
    ready: bool,
    channels: Vec<Channel>,
}

impl DeviceView {
    /// The state of the connection as the screen shows it.
    pub closed spec fn state(&self) -> ConnectionState {
        self.connection_state
    }

    /// Whether the connection task has said that it takes commands.
    pub closed spec fn is_ready(&self) -> bool {
        self.ready
    }

    /// The channels that the radio has told of, in order.
    pub closed spec fn channel_seq(&self) -> Seq<Channel> {
        self.channels@
    }

    /// A screen with no radio in use, before the connection task has
    /// started.
    pub fn new() -> (r: Self)
        ensures
            r.state()@ == ConnectionStateView::Disconnected,
            !r.is_ready(),
            r.channel_seq() == Seq::<Channel>::empty(),
    {
        Self { connection_state: ConnectionState::Disconnected, ready: false, channels: Vec::new() }
    }

    /// The state of the connection as the screen shows it.
    pub fn connection_state(&self) -> (r: &ConnectionState)
        ensures
            *r == self.state(),
    {
        &self.connection_state
    }

    /// Whether commands can be sent to the connection task.
    pub fn ready(&self) -> (r: bool)
        ensures
            r == self.is_ready(),
    {
        self.ready
    }

    /// The channels that the radio has told of, in order.
    pub fn channels(&self) -> (r: &Vec<Channel>)
        ensures
            r@ == self.channel_seq(),
    {
        &self.channels
    }

    /// Takes a message in. A wish of the user moves the state at once and is
    /// sent on as a command; an event of the connection task moves the state
    /// to what it reports. A wish can be taken in only once the connection
    /// task has said that it takes commands.
    pub fn update(&mut self, device_event: DeviceViewMessage) -> (r: DeviceViewTask)
        requires
            device_event is DeviceConnect || device_event is DeviceDisconnect ==> old(
                self,
            ).is_ready(),
        ensures
            match device_event {
                DeviceViewMessage::DeviceConnect(id) => {
                    &&& final(self).state()@ == ConnectionStateView::Connecting(id@)
                    &&& final(self).is_ready() == old(self).is_ready()
                    &&& final(self).channel_seq() == old(self).channel_seq()
                    &&& r matches DeviceViewTask::Send(m, NavigationMessage::DeviceView)
                    &&& m@ == SubscriberMessageView::Connect(id@)
                },
                DeviceViewMessage::DeviceDisconnect(id) => {
                    &&& final(self).state()@ == ConnectionStateView::Disconnecting(id@)
                    &&& final(self).is_ready() == old(self).is_ready()
                    &&& final(self).channel_seq() == old(self).channel_seq()
                    &&& r matches DeviceViewTask::Send(m, NavigationMessage::DevicesList)
                    &&& m@ == SubscriberMessageView::Disconnect
                },
                DeviceViewMessage::SubscriptionMessage(event) => {
                    &&& final(self).state()@ == state_after_event(
                        old(self).state()@,
                        event@,
                    )
                    &&& final(self).is_ready() == (old(self).is_ready() || event is Ready)
                    &&& final(self).channel_seq() == channels_after_event(
                        old(self).channel_seq(),
                        event,
                    )
                    &&& match event {
                        SubscriptionEvent::DisconnectedEvent(_) => r == DeviceViewTask::Navigate(
                            NavigationMessage::DevicesList,
                        ),
                        SubscriptionEvent::ConnectionError(_, summary, detail) => r
                            == DeviceViewTask::Report(summary, detail),
                        _ => r is Idle,
                    }
                },
            },
    {
        match device_event {
            DeviceViewMessage::DeviceConnect(id) => {
                let target = id.duplicate();
                self.connection_state = ConnectionState::Connecting(id);
                DeviceViewTask::Send(SubscriberMessage::Connect(target), NavigationMessage::DeviceView)
            },
            DeviceViewMessage::DeviceDisconnect(id) => {
                self.connection_state = ConnectionState::Disconnecting(id);
                DeviceViewTask::Send(SubscriberMessage::Disconnect, NavigationMessage::DevicesList)
            },
            DeviceViewMessage::SubscriptionMessage(event) => match event {
                SubscriptionEvent::ConnectedEvent(id) => {
                    self.connection_state = ConnectionState::Connected(id);
                    DeviceViewTask::Idle
                },
                SubscriptionEvent::DisconnectedEvent(_) => {
                    self.connection_state = ConnectionState::Disconnected;
                    DeviceViewTask::Navigate(NavigationMessage::DevicesList)
                },
                SubscriptionEvent::Ready => {
                    self.ready = true;
                    DeviceViewTask::Idle
                },
                SubscriptionEvent::DevicePacket(packet) => {
                    match packet.body {
                        Some(PacketBody::Channel(channel)) => {
                            self.channels.push(channel);
                        },
                        _ => {},
                    }
                    DeviceViewTask::Idle
                },
                SubscriptionEvent::MessageSent(_) => DeviceViewTask::Idle,
                SubscriptionEvent::ConnectionError(_, summary, detail) => {
                    self.connection_state = ConnectionState::Disconnected;
                    DeviceViewTask::Report(summary, detail)
                },
            },
        }
    }

    /// The number of channels on show: the screen lists the channels in
    /// order and stops at the first that is switched off.
    pub fn shown_channels(&self) -> (r: usize)
        ensures
            r == rows_shown(self.channel_seq()),
    {
        let mut i: usize = 0;
        assert(self.channels@.take(0) =~= Seq::empty());
        while i < self.channels.len()
            invariant
                i <= self.channels.len(),
                rows_shown(self.channels@.take(i as int)) == i,
            decreases self.channels.len() - i,
        {
            if channel_row(&self.channels[i]).is_none() {
                proof {
                    lemma_rows_stop(self.channels@, i as int);
                }
                return i;
            }
            proof {
                assert(self.channels@.take(i as int + 1).drop_last() =~= self.channels@.take(
                    i as int,
                ));
            }
            i += 1;
        }
        assert(self.channels@.take(i as int) =~= self.channels@);
        i
    }
}

/// The state that the screen shows after an event of the connection task.
pub open spec fn state_after_event(
    state: ConnectionStateView,
    event: SubscriptionEventView,
) -> ConnectionStateView {
    match event {
        SubscriptionEventView::ConnectedEvent(id) => ConnectionStateView::Connected(id),
        SubscriptionEventView::DisconnectedEvent(_) => ConnectionStateView::Disconnected,
        SubscriptionEventView::ConnectionError(_, _, _) => ConnectionStateView::Disconnected,
        _ => state,
    }
}

/// The channels known after an event of the connection task: a packet that
/// describes a channel adds it at the end.
pub open spec fn channels_after_event(channels: Seq<Channel>, event: SubscriptionEvent) -> Seq<
    Channel,
> {
    match event {
        SubscriptionEvent::DevicePacket(packet) => match packet.body {
            Some(PacketBody::Channel(channel)) => channels.push(channel),
            _ => channels,
        },
        _ => channels,
    }
}

/// The row for a channel; `None` for one that is switched off.
pub fn channel_row(channel: &Channel) -> (r: Option<ChannelRow>)
    ensures
        r == row_of(channel.role),
{
    if channel.role == ROLE_PRIMARY {
        Some(ChannelRow::Primary)
    } else if channel.role == ROLE_SECONDARY {
        Some(ChannelRow::Secondary)
    } else {
        None
    }
}

/// Once a channel has no row, no later channel is shown.
proof fn lemma_rows_stop(channels: Seq<Channel>, i: int)
    requires
        0 <= i < channels.len(),
        rows_shown(channels.take(i)) == i,
        row_of(channels[i].role) is None,
    ensures
        rows_shown(channels) == i,
    decreases channels.len() - i,
{
    lemma_rows_stay(channels, i, channels.len() as int);
    assert(channels.take(channels.len() as int) =~= channels);
}

proof fn lemma_rows_stay(channels: Seq<Channel>, i: int, n: int)
    requires
        0 <= i < n <= channels.len(),
        rows_shown(channels.take(i)) == i,
        row_of(channels[i].role) is None,
    ensures
        rows_shown(channels.take(n)) == i,
    decreases n - i,
{
    assert(channels.take(n).drop_last() =~= channels.take(n - 1));
    assert(channels.take(n).last() == channels[n - 1]);
    if n - 1 > i {
        lemma_rows_stay(channels, i, n - 1);
    }
}

/// What the screen says of the connection in a state.
pub open spec fn status_text(state: ConnectionStateView) -> Seq<char> {
    match state {
        ConnectionStateView::Disconnected => "disconnected"@,
        ConnectionStateView::Connecting(d) => "connecting to : "@ + display_name(d),
        ConnectionStateView::Connected(d) => "connected to : "@ + display_name(d),
        ConnectionStateView::Disconnecting(d) => "disconnecting from : "@ + display_name(d),
    }
}

/// The line that tells the state of the connection. Only a connected radio
/// gets a button to disconnect beside it.
pub fn status_line(state: &ConnectionState) -> (r: String)
    ensures
        r@ == status_text(state@),
{
    match state {
        ConnectionState::Disconnected => "disconnected".to_owned(),
        ConnectionState::Connecting(d) => String::from_str("connecting to : ").concat(
            name_from_id(d).as_str(),
        ),
        ConnectionState::Connected(d) => String::from_str("connected to : ").concat(
            name_from_id(d).as_str(),
        ),
        ConnectionState::Disconnecting(d) => String::from_str("disconnecting from : ").concat(
            name_from_id(d).as_str(),
        ),
    }
}

} // verus!
