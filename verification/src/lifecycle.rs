//! What holds of every run of the connection task, proved from its
//! transition function.

use vstd::prelude::*;
use crate::connection::initial_actions;
use crate::connection::initial_state;
use crate::connection::step_spec;
use crate::connection::ActionView;
use crate::connection::ConnectionStateView;
use crate::connection::InputView;
use crate::connection::NoteView;
use crate::connection::SubscriberMessageView;
use crate::connection::SubscriptionEventView;
use crate::device::DeviceIdView;

verus! {

/// The state after a series of inputs, and every action on the way, in order.
pub open spec fn run(state: ConnectionStateView, inputs: Seq<InputView>) -> (
    ConnectionStateView,
    Seq<ActionView>,
)
    decreases inputs.len(),
{
    if inputs.len() == 0 {
        (state, Seq::empty())
    } else {
        let before = run(state, inputs.drop_last());
        let last = step_spec(before.0, inputs.last());
        (last.0, before.1 + last.1)
    }
}

/// The events for the user interface among a series of actions, in order.
pub open spec fn emitted(actions: Seq<ActionView>) -> Seq<SubscriptionEventView>
    decreases actions.len(),
{
    if actions.len() == 0 {
        Seq::empty()
    } else {
        let rest = emitted(actions.drop_last());
        match actions.last() {
            ActionView::Emit(e) => rest.push(e),
            _ => rest,
        }
    }
}

/// Every event that the task sends in its lifetime, given the inputs that
/// reach it after its start.
pub open spec fn task_events(inputs: Seq<InputView>) -> Seq<SubscriptionEventView> {
    emitted(initial_actions() + run(initial_state(), inputs).1)
}

/// The radio that a state is about, if any.
pub open spec fn device_of(state: ConnectionStateView) -> Option<DeviceIdView> {
    match state {
        ConnectionStateView::Disconnected => None,
        ConnectionStateView::Connecting(id) => Some(id),
        ConnectionStateView::Connected(id) => Some(id),
        ConnectionStateView::Disconnecting(id) => Some(id),
    }
}

/// Whether, after these events, the user interface has been told of a
/// connection and not yet of its end.
pub open spec fn link_open(events: Seq<SubscriptionEventView>) -> bool
    decreases events.len(),
{
    if events.len() == 0 {
        false
    } else {
        match events.last() {
            SubscriptionEventView::ConnectedEvent(_) => true,
            SubscriptionEventView::DisconnectedEvent(_) => false,
            SubscriptionEventView::ConnectionError(_, _, _) => false,
            _ => link_open(events.drop_last()),
        }
    }
}

/// Whether no connection is announced while an earlier one stands.
pub open spec fn bracketed(events: Seq<SubscriptionEventView>) -> bool
    decreases events.len(),
{
    if events.len() == 0 {
        true
    } else {
        bracketed(events.drop_last()) && (events.last() is ConnectedEvent ==> !link_open(
            events.drop_last(),
        ))
    }
}

/// The event that one step sends to the user interface, if any.
pub open spec fn step_event(state: ConnectionStateView, input: InputView) -> Seq<
    SubscriptionEventView,
> {
    emitted(step_spec(state, input).1)
}

proof fn lemma_emitted_one(a: ActionView)
    ensures
        emitted(seq![a]) == match a {
            ActionView::Emit(e) => seq![e],
            _ => Seq::<SubscriptionEventView>::empty(),
        },
{
    assert(seq![a].drop_last() =~= Seq::empty());
    assert(emitted(seq![a].drop_last()) =~= Seq::empty());
    assert(seq![a].last() == a);
    match a {
        ActionView::Emit(e) => {
            assert(emitted(seq![a]) =~= seq![e]);
        },
        _ => {},
    }
}

proof fn lemma_emitted_two(a: ActionView, b: ActionView)
    ensures
        emitted(seq![a].push(b)) == emitted(seq![a]) + emitted(seq![b]),
{
    lemma_emitted_concat(seq![a], seq![b]);
    assert(seq![a] + seq![b] =~= seq![a].push(b));
}

/// The events of two runs of actions, one after the other.
pub proof fn lemma_emitted_concat(a: Seq<ActionView>, b: Seq<ActionView>)
    ensures
        emitted(a + b) == emitted(a) + emitted(b),
    decreases b.len(),
{
    if b.len() == 0 {
        assert(a + b =~= a);
        assert(emitted(a) + emitted(b) =~= emitted(a));
    } else {
        assert((a + b).drop_last() =~= a + b.drop_last());
        assert((a + b).last() == b.last());
        lemma_emitted_concat(a, b.drop_last());
        match b.last() {
            ActionView::Emit(e) => {
                assert(emitted(a + b) =~= emitted(a) + emitted(b));
            },
            _ => {},
        }
    }
}

/// Whether a state holds a link that the user interface has been told of.
pub open spec fn link_up(state: ConnectionStateView) -> bool {
    state is Connected || state is Disconnecting
}

/// One step sends at most one event, and never the one that marks the start
/// of the task. A connection is announced only from the state that awaits
/// it, and for the same radio; the end of one, or a failure to connect,
/// leaves no radio in use; and a link comes up or goes down only with the
/// event that says so.
pub proof fn lemma_step_event(state: ConnectionStateView, input: InputView)
    ensures
        step_event(state, input).len() <= 1,
        forall|i: int|
            0 <= i < step_event(state, input).len() ==> !(step_event(state, input)[i] is Ready),
        forall|i: int|
            0 <= i < step_event(state, input).len() ==> (#[trigger] step_event(state, input)[i]
                matches SubscriptionEventView::ConnectedEvent(id) ==> state
                == ConnectionStateView::Connecting(id) && step_spec(state, input).0
                == ConnectionStateView::Connected(id)),
        forall|i: int|
            0 <= i < step_event(state, input).len() && (step_event(state, input)[i]
                is DisconnectedEvent || step_event(state, input)[i] is ConnectionError)
                ==> step_spec(state, input).0 == ConnectionStateView::Disconnected,
        link_up(state) != link_up(step_spec(state, input).0) ==> step_event(state, input).len()
            == 1 && (step_event(state, input)[0] is ConnectedEvent || step_event(state, input)[0]
            is DisconnectedEvent),
{
    assert(emitted(Seq::<ActionView>::empty()) =~= Seq::empty());
    assert forall|a: ActionView| #[trigger]
        emitted(seq![a]) == match a {
            ActionView::Emit(e) => seq![e],
            _ => Seq::<SubscriptionEventView>::empty(),
        } by {
        lemma_emitted_one(a);
    }
    assert forall|a: ActionView, b: ActionView| #[trigger]
        emitted(seq![a].push(b)) == emitted(seq![a]) + emitted(seq![b]) by {
        lemma_emitted_two(a, b);
    }
}

/// Through every step the state is about one radio: where it names a radio
/// before and after, it is the same one, unless no radio was in use between.
pub proof fn lemma_device_kept(state: ConnectionStateView, input: InputView)
    ensures
        device_of(state) is Some && device_of(step_spec(state, input).0) is Some ==> device_of(
            state,
        ) == device_of(step_spec(state, input).0),
{
}

/// A request to connect that arrives while a radio is being connected to, or
/// is connected, changes nothing and tells the user interface nothing; the
/// one action is a remark for the log.
pub proof fn lemma_second_connect_is_ignored(state: ConnectionStateView, id: DeviceIdView)
    requires
        state is Connecting || state is Connected,
    ensures
        step_spec(state, InputView::Message(SubscriberMessageView::Connect(id))) == (
            state,
            seq![ActionView::Log(NoteView::AlreadyConnected)],
        ),
        step_event(state, InputView::Message(SubscriberMessageView::Connect(id))).len() == 0,
{
    lemma_emitted_one(ActionView::Log(NoteView::AlreadyConnected));
}

/// A request to disconnect that arrives while no radio is in use changes
/// nothing and tells the user interface nothing; the one action is a remark
/// for the log.
pub proof fn lemma_disconnect_while_disconnected_is_ignored()
    ensures
        step_spec(
            ConnectionStateView::Disconnected,
            InputView::Message(SubscriberMessageView::Disconnect),
        ) == (ConnectionStateView::Disconnected, seq![ActionView::Log(NoteView::NotConnected)]),
        step_event(
            ConnectionStateView::Disconnected,
            InputView::Message(SubscriberMessageView::Disconnect),
        ).len() == 0,
{
    lemma_emitted_one(ActionView::Log(NoteView::NotConnected));
}

/// The events of a run are those of its earlier steps, then that of its
/// last step.
pub proof fn lemma_run_events(state: ConnectionStateView, inputs: Seq<InputView>)
    requires
        inputs.len() > 0,
    ensures
        emitted(run(state, inputs).1) == emitted(run(state, inputs.drop_last()).1) + step_event(
            run(state, inputs.drop_last()).0,
            inputs.last(),
        ),
{
    let before = run(state, inputs.drop_last());
    lemma_emitted_concat(before.1, step_spec(before.0, inputs.last()).1);
}

/// No run of steps sends the event that marks the start of the task.
pub proof fn lemma_run_never_ready(state: ConnectionStateView, inputs: Seq<InputView>)
    ensures
        forall|i: int|
            0 <= i < emitted(run(state, inputs).1).len() ==> !(emitted(run(state, inputs).1)[i]
                is Ready),
    decreases inputs.len(),
{
    if inputs.len() > 0 {
        let before = run(state, inputs.drop_last());
        lemma_run_never_ready(state, inputs.drop_last());
        lemma_run_events(state, inputs);
        lemma_step_event(before.0, inputs.last());
    }
}

/// In its lifetime the task sends the event that marks its start exactly
/// once, and before every other event.
pub proof fn lemma_ready_once_and_first(inputs: Seq<InputView>)
    ensures
        task_events(inputs).len() >= 1,
        task_events(inputs)[0] is Ready,
        forall|i: int| 1 <= i < task_events(inputs).len() ==> !(task_events(inputs)[i] is Ready),
{
    let rest = run(initial_state(), inputs).1;
    lemma_emitted_concat(initial_actions(), rest);
    lemma_emitted_one(ActionView::Emit(SubscriptionEventView::Ready));
    lemma_run_never_ready(initial_state(), inputs);
    assert forall|i: int| 1 <= i < task_events(inputs).len() implies !(task_events(inputs)[i]
        is Ready) by {
        assert(task_events(inputs)[i] == emitted(rest)[i - 1]);
    }
}

/// Appending what one step sends keeps the announcements in order.
proof fn lemma_extend_bracketed(
    earlier: Seq<SubscriptionEventView>,
    now: Seq<SubscriptionEventView>,
    up_before: bool,
    up_after: bool,
)
    requires
        bracketed(earlier),
        link_open(earlier) == up_before,
        now.len() <= 1,
        forall|i: int| 0 <= i < now.len() && now[i] is ConnectedEvent ==> !up_before && up_after,
        forall|i: int|
            0 <= i < now.len() && (now[i] is DisconnectedEvent || now[i] is ConnectionError)
                ==> !up_after,
        up_before != up_after ==> now.len() == 1 && (now[0] is ConnectedEvent || now[0]
            is DisconnectedEvent),
    ensures
        bracketed(earlier + now),
        link_open(earlier + now) == up_after,
{
    if now.len() == 0 {
        assert(earlier + now =~= earlier);
    } else {
        let all = earlier.push(now[0]);
        assert(earlier + now =~= all);
        assert(all.drop_last() =~= earlier);
        assert(all.last() == now[0]);
    }
}

/// In every run from the start, a connection is announced only while none
/// stands: between two such events lies one that reports a disconnect or a
/// failed attempt. The link that the events speak of is up exactly when the
/// state holds one.
pub proof fn lemma_connections_bracketed(inputs: Seq<InputView>)
    ensures
        bracketed(emitted(run(initial_state(), inputs).1)),
        link_open(emitted(run(initial_state(), inputs).1)) == link_up(
            run(initial_state(), inputs).0,
        ),
    decreases inputs.len(),
{
    if inputs.len() > 0 {
        let before = run(initial_state(), inputs.drop_last());
        let now = step_event(before.0, inputs.last());
        lemma_connections_bracketed(inputs.drop_last());
        lemma_run_events(initial_state(), inputs);
        lemma_step_event(before.0, inputs.last());
        lemma_extend_bracketed(
            emitted(before.1),
            now,
            link_up(before.0),
            link_up(step_spec(before.0, inputs.last()).0),
        );
    }
}

} // verus!
