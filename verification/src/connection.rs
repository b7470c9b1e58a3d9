//! The lifecycle of the connection to one radio, as a function from the
//! current state and what just happened to the next state and what to do.
//!
//! The task that owns the connection runs the loop: it waits on the sources
//! that [`waits_for`] names, hands what arrived to [`step`], and carries out
//! the actions that come back, in order.

use vstd::prelude::*;
use vstd::string::StringExecFns;
use crate::device::display_name;
use crate::device::name_from_id;
use crate::device::DeviceId;
use crate::device::DeviceIdView;
use crate::packet::is_of_interest;
use crate::packet::of_interest;
use crate::packet::RadioPacket;

verus! {

/// Seconds after which an attempt to connect is given up.
pub const CONNECT_TIMEOUT_SECONDS: u64 = 4;

/// Index of a channel of the radio.
pub type ChannelId = i32;

/// Where the connection stands.
#[derive(Debug, Clone, PartialEq, Eq)]
pub enum ConnectionState {
    Disconnected,
    Connecting(DeviceId),
    Connected(DeviceId),
    Disconnecting(DeviceId),
}

/// What a [`ConnectionState`] stands for.
pub enum ConnectionStateView {
    Disconnected,
    Connecting(DeviceIdView),
    Connected(DeviceIdView),
    Disconnecting(DeviceIdView),
}

impl View for ConnectionState {
    type V = ConnectionStateView;

    open spec fn view(&self) -> ConnectionStateView {
        match *self {
            ConnectionState::Disconnected => ConnectionStateView::Disconnected,
            ConnectionState::Connecting(d) => ConnectionStateView::Connecting(d@),
            ConnectionState::Connected(d) => ConnectionStateView::Connected(d@),
            ConnectionState::Disconnecting(d) => ConnectionStateView::Disconnecting(d@),
        }
    }
}

/// What the connection task takes from its inbox: a command of the user
/// interface, or a packet of the radio merged into the same queue.
#[derive(Debug, Clone, PartialEq, Eq)]
pub enum SubscriberMessage {
    Connect(DeviceId),
    Disconnect,
    SendText(String, ChannelId),
    Radio(RadioPacket),
}

/// What a [`SubscriberMessage`] stands for.
pub enum SubscriberMessageView {
    Connect(DeviceIdView),
    Disconnect,
    SendText(Seq<char>, int),
    Radio(RadioPacket),
}

impl View for SubscriberMessage {
    type V = SubscriberMessageView;

    open spec fn view(&self) -> SubscriberMessageView {
        match *self {
            SubscriberMessage::Connect(d) => SubscriberMessageView::Connect(d@),
            SubscriberMessage::Disconnect => SubscriberMessageView::Disconnect,
            SubscriberMessage::SendText(t, c) => SubscriberMessageView::SendText(t@, c as int),
            SubscriberMessage::Radio(p) => SubscriberMessageView::Radio(p),
        }
    }
}

/// What the connection task tells the user interface.
#[derive(Debug, Clone, PartialEq, Eq)]
pub enum SubscriptionEvent {
    /// The task runs and takes commands from now on.
    Ready,
    ConnectedEvent(DeviceId),
    DisconnectedEvent(DeviceId),
    DevicePacket(RadioPacket),
    MessageSent(ChannelId),
    /// The radio, a short text for the user, and the cause.
    ConnectionError(DeviceId, String, String),
}

/// What a [`SubscriptionEvent`] stands for.
pub enum SubscriptionEventView {
    Ready,
    ConnectedEvent(DeviceIdView),
    DisconnectedEvent(DeviceIdView),
    DevicePacket(RadioPacket),
    MessageSent(int),
    ConnectionError(DeviceIdView, Seq<char>, Seq<char>),
}

impl View for SubscriptionEvent {
    type V = SubscriptionEventView;

    open spec fn view(&self) -> SubscriptionEventView {
        match *self {
            SubscriptionEvent::Ready => SubscriptionEventView::Ready,
            SubscriptionEvent::ConnectedEvent(d) => SubscriptionEventView::ConnectedEvent(d@),
            SubscriptionEvent::DisconnectedEvent(d) => SubscriptionEventView::DisconnectedEvent(d@),
            SubscriptionEvent::DevicePacket(p) => SubscriptionEventView::DevicePacket(p),
            SubscriptionEvent::MessageSent(c) => SubscriptionEventView::MessageSent(c as int),
            SubscriptionEvent::ConnectionError(d, s, e) => SubscriptionEventView::ConnectionError(
                d@,
                s@,
                e@,
            ),
        }
    }
}

/// What just happened, as the task reports it to [`step`].
#[derive(Debug, PartialEq, Eq)]
pub enum Input {
    /// An item taken from the inbox.
    Message(SubscriberMessage),
    /// The attempt to connect ended; on failure the text says why.
    ConnectFinished(Result<(), String>),
    /// The radio closed the stream of packets.
    StreamEnded,
    /// The link was taken down; on failure the text says why.
    DisconnectFinished(Result<(), String>),
}

/// What an [`Input`] stands for.
pub enum InputView {
    Message(SubscriberMessageView),
    ConnectFinished(Result<(), Seq<char>>),
    StreamEnded,
    DisconnectFinished(Result<(), Seq<char>>),
}

/// The view of the outcome of a call to the transport.
pub open spec fn outcome_view(r: Result<(), String>) -> Result<(), Seq<char>> {
    match r {
        Ok(_) => Ok(()),
        Err(e) => Err(e@),
    }
}

impl View for Input {
    type V = InputView;

    open spec fn view(&self) -> InputView {
        match *self {
            Input::Message(m) => InputView::Message(m@),
            Input::ConnectFinished(r) => InputView::ConnectFinished(outcome_view(r)),
            Input::StreamEnded => InputView::StreamEnded,
            Input::DisconnectFinished(r) => InputView::DisconnectFinished(outcome_view(r)),
        }
    }
}

/// A remark for the log; none of them reaches the user interface.
#[derive(Debug, Clone, PartialEq, Eq)]
pub enum Note {
    /// A request to connect came while a radio was in use.
    AlreadyConnected,
    /// A command that needs a connection came while there was none.
    NotConnected,
    /// Something arrived that the current state does not wait for.
    Unexpected,
    /// Taking the link down failed; the text says why.
    DisconnectFailed(String),
}

/// What a [`Note`] stands for.
pub enum NoteView {
    AlreadyConnected,
    NotConnected,
    Unexpected,
    DisconnectFailed(Seq<char>),
}

impl View for Note {
    type V = NoteView;

    open spec fn view(&self) -> NoteView {
        match *self {
            Note::AlreadyConnected => NoteView::AlreadyConnected,
            Note::NotConnected => NoteView::NotConnected,
            Note::Unexpected => NoteView::Unexpected,
            Note::DisconnectFailed(e) => NoteView::DisconnectFailed(e@),
        }
    }
}

/// What the task is to do after a step.
#[derive(Debug, Clone, PartialEq, Eq)]
pub enum Action {
    /// Send an event to the user interface.
    Emit(SubscriptionEvent),
    /// Try to connect to a radio and report with [`Input::ConnectFinished`].
    Connect(DeviceId),
    /// Take the link to a radio down, drop its handles and report with
    /// [`Input::DisconnectFinished`].
    Disconnect(DeviceId),
    /// Send a text on a channel of the connected radio.
    Send(String, ChannelId),
    /// Write a remark to the log.
    Log(Note),
}

/// What an [`Action`] stands for.
pub enum ActionView {
    Emit(SubscriptionEventView),
    Connect(DeviceIdView),
    Disconnect(DeviceIdView),
    Send(Seq<char>, int),
    Log(NoteView),
}

impl View for Action {
    type V = ActionView;

    open spec fn view(&self) -> ActionView {
        match *self {
            Action::Emit(e) => ActionView::Emit(e@),
            Action::Connect(d) => ActionView::Connect(d@),
            Action::Disconnect(d) => ActionView::Disconnect(d@),
            Action::Send(t, c) => ActionView::Send(t@, c as int),
            Action::Log(n) => ActionView::Log(n@),
        }
    }
}

/// What a vector of actions stands for, in order.
pub open spec fn action_views(v: Seq<Action>) -> Seq<ActionView> {
    Seq::new(v.len(), |i: int| v[i]@)
}

/// The sources that the task waits on in a state.
#[derive(Debug, Clone, Copy, PartialEq, Eq, Structural)]
pub enum Waiting {
    /// The inbox of commands only.
    Commands,
    /// The end of the attempt to connect only.
    ConnectResult,
    /// The inbox of commands and the packets of the radio, neither first.
    CommandsAndPackets,
    /// The end of the disconnect only.
    DisconnectResult,
}

/// The sources that the task waits on in a state.
pub open spec fn waiting_in(state: ConnectionStateView) -> Waiting {
    match state {
        ConnectionStateView::Disconnected => Waiting::Commands,
        ConnectionStateView::Connecting(_) => Waiting::ConnectResult,
        ConnectionStateView::Connected(_) => Waiting::CommandsAndPackets,
        ConnectionStateView::Disconnecting(_) => Waiting::DisconnectResult,
    }
}

/// The sources that the task waits on in `state`: with no radio in use, the
/// commands alone; with one connected, commands and packets alike; while
/// the transport works, its answer alone.
pub fn waits_for(state: &ConnectionState) -> (r: Waiting)
    ensures
        r == waiting_in(state@),
{
    match state {
        ConnectionState::Disconnected => Waiting::Commands,
        ConnectionState::Connecting(_) => Waiting::ConnectResult,
        ConnectionState::Connected(_) => Waiting::CommandsAndPackets,
        ConnectionState::Disconnecting(_) => Waiting::DisconnectResult,
    }
}

/// The short text that tells the user which radio could not be reached.
pub open spec fn failure_summary(id: DeviceIdView) -> Seq<char> {
    "Failed to connect to "@ + display_name(id)
}

/// What a command does while no radio is in use.
pub open spec fn step_disconnected(message: SubscriberMessageView) -> (
    ConnectionStateView,
    Seq<ActionView>,
) {
    match message {
        SubscriberMessageView::Connect(id) => (
            ConnectionStateView::Connecting(id),
            seq![ActionView::Connect(id)],
        ),
        SubscriberMessageView::Radio(_) => (
            ConnectionStateView::Disconnected,
            seq![ActionView::Log(NoteView::Unexpected)],
        ),
        _ => (ConnectionStateView::Disconnected, seq![ActionView::Log(NoteView::NotConnected)]),
    }
}

/// What an item of the inbox does while a radio is connected.
pub open spec fn step_connected(id: DeviceIdView, message: SubscriberMessageView) -> (
    ConnectionStateView,
    Seq<ActionView>,
) {
    match message {
        SubscriberMessageView::Connect(_) => (
            ConnectionStateView::Connected(id),
            seq![ActionView::Log(NoteView::AlreadyConnected)],
        ),
        SubscriberMessageView::Disconnect => (
            ConnectionStateView::Disconnecting(id),
            seq![ActionView::Disconnect(id)],
        ),
        SubscriberMessageView::SendText(text, channel) => (
            ConnectionStateView::Connected(id),
            seq![ActionView::Send(text, channel)].push(
                ActionView::Emit(SubscriptionEventView::MessageSent(channel)),
            ),
        ),
        SubscriberMessageView::Radio(packet) => (
            ConnectionStateView::Connected(id),
            if of_interest(packet) {
                seq![ActionView::Emit(SubscriptionEventView::DevicePacket(packet))]
            } else {
                Seq::empty()
            },
        ),
    }
}

/// What an item of the inbox does while the transport is at work, connecting
/// or taking the link down: nothing but a remark.
pub open spec fn step_busy(state: ConnectionStateView, message: SubscriberMessageView) -> (
    ConnectionStateView,
    Seq<ActionView>,
) {
    match message {
        SubscriberMessageView::Connect(_) => (
            state,
            seq![ActionView::Log(NoteView::AlreadyConnected)],
        ),
        SubscriberMessageView::Radio(_) => (state, seq![ActionView::Log(NoteView::Unexpected)]),
        _ => (state, seq![ActionView::Log(NoteView::NotConnected)]),
    }
}

/// The transition of the connection: the state after `input` arrived in
/// `state`, and the actions that it calls for, in order.
pub open spec fn step_spec(state: ConnectionStateView, input: InputView) -> (
    ConnectionStateView,
    Seq<ActionView>,
) {
    match (state, input) {
        (ConnectionStateView::Disconnected, InputView::Message(m)) => step_disconnected(m),
        (ConnectionStateView::Connecting(id), InputView::ConnectFinished(Ok(_))) => (
            ConnectionStateView::Connected(id),
            seq![ActionView::Emit(SubscriptionEventView::ConnectedEvent(id))],
        ),
        (ConnectionStateView::Connecting(id), InputView::ConnectFinished(Err(detail))) => (
            ConnectionStateView::Disconnected,
            seq![
                ActionView::Emit(
                    SubscriptionEventView::ConnectionError(id, failure_summary(id), detail),
                ),
            ],
        ),
        (ConnectionStateView::Connecting(_), InputView::Message(m)) => step_busy(state, m),
        (ConnectionStateView::Connected(id), InputView::Message(m)) => step_connected(id, m),
        (ConnectionStateView::Connected(id), InputView::StreamEnded) => (
            ConnectionStateView::Disconnecting(id),
            seq![ActionView::Disconnect(id)],
        ),
        (ConnectionStateView::Disconnecting(id), InputView::DisconnectFinished(Ok(_))) => (
            ConnectionStateView::Disconnected,
            seq![ActionView::Emit(SubscriptionEventView::DisconnectedEvent(id))],
        ),
        (ConnectionStateView::Disconnecting(id), InputView::DisconnectFinished(Err(detail))) => (
            ConnectionStateView::Disconnected,
            seq![ActionView::Log(NoteView::DisconnectFailed(detail))].push(
                ActionView::Emit(SubscriptionEventView::DisconnectedEvent(id)),
            ),
        ),
        (ConnectionStateView::Disconnecting(_), InputView::Message(m)) => step_busy(state, m),
        _ => (state, seq![ActionView::Log(NoteView::Unexpected)]),
    }
}

/// The state in which the task starts.
pub open spec fn initial_state() -> ConnectionStateView {
    ConnectionStateView::Disconnected
}

/// The actions with which the task starts: it tells the user interface,
/// once, that it takes commands.
pub open spec fn initial_actions() -> Seq<ActionView> {
    seq![ActionView::Emit(SubscriptionEventView::Ready)]
}

fn one(action: Action) -> (r: Vec<Action>)
    ensures
        action_views(r@) == seq![action@],
{
    let mut r: Vec<Action> = Vec::new();
    r.push(action);
    assert(action_views(r@) =~= seq![action@]);
    r
}

fn two(first: Action, second: Action) -> (r: Vec<Action>)
    ensures
        action_views(r@) == seq![first@].push(second@),
{
    let mut r: Vec<Action> = Vec::new();
    r.push(first);
    r.push(second);
    assert(action_views(r@) =~= seq![first@].push(second@));
    r
}

fn none() -> (r: Vec<Action>)
    ensures
        action_views(r@) == Seq::<ActionView>::empty(),
{
    let r: Vec<Action> = Vec::new();
    assert(action_views(r@) =~= Seq::empty());
    r
}

/// Starts the task: no radio is in use, and the one action is to tell the
/// user interface that commands are taken from now on.
pub fn start() -> (r: (ConnectionState, Vec<Action>))
    ensures
        r.0@ == initial_state(),
        action_views(r.1@) == initial_actions(),
{
    (ConnectionState::Disconnected, one(Action::Emit(SubscriptionEvent::Ready)))
}

/// The event that reports a failed attempt to connect to `id`.
pub fn connection_failed(id: DeviceId, detail: String) -> (r: SubscriptionEvent)
    ensures
        r@ == SubscriptionEventView::ConnectionError(id@, failure_summary(id@), detail@),
{
    let name = name_from_id(&id);
    let summary = String::from_str("Failed to connect to ").concat(name.as_str());
    SubscriptionEvent::ConnectionError(id, summary, detail)
}

fn remark_for(message: &SubscriberMessage) -> (r: Note)
    ensures
        r@ == match message@ {
            SubscriberMessageView::Connect(_) => NoteView::AlreadyConnected,
            SubscriberMessageView::Radio(_) => NoteView::Unexpected,
            _ => NoteView::NotConnected,
        },
{
    match message {
        SubscriberMessage::Connect(_) => Note::AlreadyConnected,
        SubscriberMessage::Radio(_) => Note::Unexpected,
        _ => Note::NotConnected,
    }
}

fn on_message_disconnected(message: SubscriberMessage) -> (r: (ConnectionState, Vec<Action>))
    ensures
        (r.0@, action_views(r.1@)) == step_disconnected(message@),
{
    match message {
        SubscriberMessage::Connect(id) => {
            let target = id.duplicate();
            (ConnectionState::Connecting(id), one(Action::Connect(target)))
        },
        other => {
            let note = remark_for(&other);
            (ConnectionState::Disconnected, one(Action::Log(note)))
        },
    }
}

fn on_message_connected(id: DeviceId, message: SubscriberMessage) -> (r: (
    ConnectionState,
    Vec<Action>,
))
    ensures
        (r.0@, action_views(r.1@)) == step_connected(id@, message@),
{
    match message {
        SubscriberMessage::Connect(_) => (
            ConnectionState::Connected(id),
            one(Action::Log(Note::AlreadyConnected)),
        ),
        SubscriberMessage::Disconnect => {
            let target = id.duplicate();
            (ConnectionState::Disconnecting(id), one(Action::Disconnect(target)))
        },
        SubscriberMessage::SendText(text, channel) => (
            ConnectionState::Connected(id),
            two(Action::Send(text, channel), Action::Emit(SubscriptionEvent::MessageSent(channel))),
        ),
        SubscriberMessage::Radio(packet) => {
            if is_of_interest(&packet) {
                (
                    ConnectionState::Connected(id),
                    one(Action::Emit(SubscriptionEvent::DevicePacket(packet))),
                )
            } else {
                (ConnectionState::Connected(id), none())
            }
        },
    }
}

/// Takes one step of the connection's lifecycle. Every state takes every
/// input: what a state does not wait for changes nothing and sends nothing
/// to the user interface.
pub fn step(state: ConnectionState, input: Input) -> (r: (ConnectionState, Vec<Action>))
    ensures
        (r.0@, action_views(r.1@)) == step_spec(state@, input@),
{
    match state {
        ConnectionState::Disconnected => match input {
            Input::Message(message) => on_message_disconnected(message),
            _ => (ConnectionState::Disconnected, one(Action::Log(Note::Unexpected))),
        },
        ConnectionState::Connecting(id) => match input {
            Input::ConnectFinished(Ok(_)) => {
                let event = SubscriptionEvent::ConnectedEvent(id.duplicate());
                (ConnectionState::Connected(id), one(Action::Emit(event)))
            },
            Input::ConnectFinished(Err(detail)) => (
                ConnectionState::Disconnected,
                one(Action::Emit(connection_failed(id, detail))),
            ),
            Input::Message(message) => {
                let note = remark_for(&message);
                (ConnectionState::Connecting(id), one(Action::Log(note)))
            },
            _ => (ConnectionState::Connecting(id), one(Action::Log(Note::Unexpected))),
        },
        ConnectionState::Connected(id) => match input {
            Input::Message(message) => on_message_connected(id, message),
            Input::StreamEnded => {
                let target = id.duplicate();
                (ConnectionState::Disconnecting(id), one(Action::Disconnect(target)))
            },
            _ => (ConnectionState::Connected(id), one(Action::Log(Note::Unexpected))),
        },
        ConnectionState::Disconnecting(id) => match input {
            Input::DisconnectFinished(Ok(_)) => (
                ConnectionState::Disconnected,
                one(Action::Emit(SubscriptionEvent::DisconnectedEvent(id))),
            ),
            Input::DisconnectFinished(Err(detail)) => (
                ConnectionState::Disconnected,
                two(
                    Action::Log(Note::DisconnectFailed(detail)),
                    Action::Emit(SubscriptionEvent::DisconnectedEvent(id)),
                ),
            ),
            Input::Message(message) => {
                let note = remark_for(&message);
                (ConnectionState::Disconnecting(id), one(Action::Log(note)))
            },
            _ => (ConnectionState::Disconnecting(id), one(Action::Log(Note::Unexpected))),
        },
    }
}

} // verus!
