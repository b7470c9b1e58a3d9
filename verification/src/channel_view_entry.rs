//! One line of a channel's conversation.

use vstd::prelude::*;
use std::time::SystemTime;
use std::time::UNIX_EPOCH;
use crate::device::text_view;

verus! {

/// What a line of the conversation holds.
#[derive(Debug, Clone, PartialEq, Eq)]
pub enum Payload {
    NewTextMessage(String),
    /// The message replied to, and the reply.
    TextMessageReply(u32, String),
    /// The message reacted to, and the emoji.
    EmojiReply(u32, String),
    Position(i32, i32),
    Ping(String),
}

/// What a vector of texts stands for, in order.
pub open spec fn texts(v: Seq<String>) -> Seq<Seq<char>> {
    Seq::new(v.len(), |i: int| v[i]@)
}

/// The reactions to a message: each emoji with the names of those who sent
/// it, in the order they came.
pub open spec fn reaction_views(v: Seq<(String, Vec<String>)>) -> Seq<(Seq<char>, Seq<Seq<char>>)> {
    Seq::new(v.len(), |i: int| (v[i].0@, texts(v[i].1@)))
}

/// The place of an emoji among reactions, if it is there.
pub open spec fn position_of(reactions: Seq<(Seq<char>, Seq<Seq<char>>)>, emoji: Seq<char>) -> Option<
    int,
> {
    if exists|i: int| 0 <= i < reactions.len() && reactions[i].0 == emoji {
        Some(choose|i: int| 0 <= i < reactions.len() && reactions[i].0 == emoji)
    } else {
        None
    }
}

/// The names of those who sent an emoji; none if nobody did.
pub open spec fn senders_of(reactions: Seq<(Seq<char>, Seq<Seq<char>>)>, emoji: Seq<char>) -> Seq<
    Seq<char>,
> {
    match position_of(reactions, emoji) {
        Some(i) => reactions[i].1,
        None => Seq::empty(),
    }
}

/// The reactions after one more sender of an emoji: the sender is added to
/// the emoji's entry, or a new entry is added at the end.
pub open spec fn with_reaction(
    reactions: Seq<(Seq<char>, Seq<Seq<char>>)>,
    emoji: Seq<char>,
    sender: Seq<char>,
) -> Seq<(Seq<char>, Seq<Seq<char>>)> {
    match position_of(reactions, emoji) {
        Some(i) => reactions.update(i, (emoji, reactions[i].1.push(sender))),
        None => reactions.push((emoji, seq![sender])),
    }
}

/// Whether no emoji has two entries.
pub open spec fn distinct_keys(reactions: Seq<(Seq<char>, Seq<Seq<char>>)>) -> bool {
    forall|i: int, j: int|
        0 <= i < reactions.len() && 0 <= j < reactions.len() && i != j ==> reactions[i].0
            != reactions[j].0
}

/// Adding a reaction keeps one entry for each emoji, adds the sender at the
/// end of those who sent that emoji, and leaves every other emoji as it was.
pub proof fn lemma_reaction_added(
    reactions: Seq<(Seq<char>, Seq<Seq<char>>)>,
    emoji: Seq<char>,
    sender: Seq<char>,
    other: Seq<char>,
)
    requires
        distinct_keys(reactions),
    ensures
        distinct_keys(with_reaction(reactions, emoji, sender)),
        senders_of(with_reaction(reactions, emoji, sender), emoji) == senders_of(
            reactions,
            emoji,
        ).push(sender),
        other != emoji ==> senders_of(with_reaction(reactions, emoji, sender), other)
            == senders_of(reactions, other),
{
    let after = with_reaction(reactions, emoji, sender);
    match position_of(reactions, emoji) {
        Some(i) => {
            assert(forall|k: int| 0 <= k < after.len() ==> after[k].0 == reactions[k].0);
            assert(after[i].0 == emoji);
            let j = position_of(after, emoji)->0;
            assert(j == i);
            if other != emoji {
                if exists|k: int| 0 <= k < reactions.len() && reactions[k].0 == other {
                    let k = choose|k: int| 0 <= k < reactions.len() && reactions[k].0 == other;
                    assert(after[k].0 == other);
                    let m = position_of(after, other)->0;
                    assert(m == k);
                } else {
                    assert(position_of(after, other) is None);
                }
            }
        },
        None => {
            let n = reactions.len() as int;
            assert(forall|k: int| 0 <= k < n ==> after[k] == reactions[k]);
            assert(after[n].0 == emoji);
            let j = position_of(after, emoji)->0;
            assert(j == n);
            assert(after[n].1 =~= Seq::<Seq<char>>::empty().push(sender));
            if other != emoji {
                if exists|k: int| 0 <= k < reactions.len() && reactions[k].0 == other {
                    let k = choose|k: int| 0 <= k < reactions.len() && reactions[k].0 == other;
                    assert(after[k].0 == other);
                    let m = position_of(after, other)->0;
                    assert(m == k);
                } else {
                    assert(position_of(after, other) is None);
                }
            }
        },
    }
}

/// What a [`ChannelViewEntry`] stands for.
pub struct ChannelViewEntryView {
    pub from: u32,
    pub message_id: u32,
    pub rx_time: u64,
    pub payload: Payload,
    pub name: Option<Seq<char>>,
    pub seen: bool,
    pub acked: bool,
    pub emoji_reply: Seq<(Seq<char>, Seq<Seq<char>>)>,
}

/// A message sent to this user or to a channel that this radio reads, with
/// what has become of it since: whether the radio acknowledged it, and the
/// reactions to it. Entries are ordered and compared by the time they were
/// received.
#[derive(Debug, Clone)]
pub struct ChannelViewEntry {
    from: u32,
    message_id: u32,
    rx_time: u64,
    payload: Payload,
    name: Option<String>,
    seen: bool,
    acked: bool,
    emoji_reply: Vec<(String, Vec<String>)>,
}

impl View for ChannelViewEntry {
    type V = ChannelViewEntryView;

    closed spec fn view(&self) -> ChannelViewEntryView {
        ChannelViewEntryView {
            from: self.from,
            message_id: self.message_id,
            rx_time: self.rx_time,
            payload: self.payload,
            name: text_view(self.name),
            seen: self.seen,
            acked: self.acked,
            emoji_reply: reaction_views(self.emoji_reply@),
        }
    }
}

/// A point in time as the machine's clock gives it. Nothing inside it is
/// visible to the verifier.
#[verifier::external_type_specification]
#[verifier::external_body]
pub struct ExSystemTime(std::time::SystemTime);

/// Reads the clock of the machine through `SystemTime::now`. Nothing is
/// claimed of the result.
#[verifier::external_body]
fn current_time() -> SystemTime {
    SystemTime::now()
}

/// Whole seconds from the start of 1970 to `time`, through
/// `SystemTime::duration_since`; `None` where `time` lies before that.
/// Nothing is claimed of the result.
#[verifier::external_body]
fn seconds_since_epoch(time: &SystemTime) -> Option<u64> {
    time.duration_since(UNIX_EPOCH).ok().map(|d| d.as_secs())
}

impl ChannelViewEntry {
    /// No emoji has two entries among the reactions.
    pub closed spec fn wf(&self) -> bool {
        distinct_keys(reaction_views(self.emoji_reply@))
    }

    /// An entry received now. The time of receipt is the clock's, in seconds
    /// since the start of 1970, or 0 where the clock stands before that.
    pub fn new(message: Payload, from: u32, message_id: u32, name: Option<String>, seen: bool) -> (r:
        Self)
        ensures
            r.wf(),
            r@ == (ChannelViewEntryView {
                from,
                message_id,
                rx_time: r@.rx_time,
                payload: message,
                name: text_view(name),
                seen,
                acked: false,
                emoji_reply: Seq::empty(),
            }),
    {
        let now = current_time();
        let rx_time = match seconds_since_epoch(&now) {
            Some(seconds) => seconds,
            None => 0,
        };
        Self::received_at(message, from, message_id, name, seen, rx_time)
    }

    /// An entry received at `rx_time`, not acknowledged and without
    /// reactions.
    pub fn received_at(
        message: Payload,
        from: u32,
        message_id: u32,
        name: Option<String>,
        seen: bool,
        rx_time: u64,
    ) -> (r: Self)
        ensures
            r.wf(),
            r@ == (ChannelViewEntryView {
                from,
                message_id,
                rx_time,
                payload: message,
                name: text_view(name),
                seen,
                acked: false,
                emoji_reply: Seq::empty(),
            }),
    {
        let r = ChannelViewEntry {
            payload: message,
            from,
            message_id,
            rx_time,
            name,
            seen,
            acked: false,
            emoji_reply: Vec::new(),
        };
        assert(reaction_views(r.emoji_reply@) =~= Seq::empty());
        r
    }

    /// The node that sent the message.
    pub fn from(&self) -> (r: u32)
        ensures
            r == self@.from,
    {
        self.from
    }

    /// The content of the message.
    pub fn payload(&self) -> (r: &Payload)
        ensures
            *r == self@.payload,
    {
        &self.payload
    }

    /// Whether the message came from the node `node_id`.
    pub fn source_node(&self, node_id: u32) -> (r: bool)
        ensures
            r == (self@.from == node_id),
    {
        self.from == node_id
    }

    /// The number of the message.
    pub fn message_id(&self) -> (r: u32)
        ensures
            r == self@.message_id,
    {
        self.message_id
    }

    /// Marks the message as acknowledged by the radio.
    pub fn ack(&mut self)
        ensures
            final(self).wf() == old(self).wf(),
            final(self)@ == (ChannelViewEntryView { acked: true, ..old(self)@ }),
    {
        self.acked = true;
    }

    /// Adds a reaction: `emoji_source` sent `emoji_string`.
    pub fn add_emoji(&mut self, emoji_string: String, emoji_source: String)
        requires
            old(self).wf(),
        ensures
            final(self).wf(),
            final(self)@ == (ChannelViewEntryView {
                emoji_reply: with_reaction(old(self)@.emoji_reply, emoji_string@, emoji_source@),
                ..old(self)@
            }),
    {
        let ghost before = reaction_views(self.emoji_reply@);
        let mut i: usize = 0;
        while i < self.emoji_reply.len()
            invariant
                i <= self.emoji_reply.len(),
                before == reaction_views(self.emoji_reply@),
                distinct_keys(before),
                *self == *old(self),
                forall|k: int| 0 <= k < i ==> before[k].0 != emoji_string@,
            decreases self.emoji_reply.len() - i,
        {
            if self.emoji_reply[i].0 == emoji_string {
                assert(before[i as int].0 == emoji_string@);
                assert(position_of(before, emoji_string@) == Some(i as int));
                let (key, mut senders) = self.emoji_reply.remove(i);
                assert(texts(senders@) == before[i as int].1);
                senders.push(emoji_source);
                assert(texts(senders@) =~= before[i as int].1.push(emoji_source@));
                assert(reaction_views(self.emoji_reply@) =~= before.remove(i as int));
                self.emoji_reply.insert(i, (key, senders));
                assert(reaction_views(self.emoji_reply@) =~= before.update(
                    i as int,
                    (emoji_string@, before[i as int].1.push(emoji_source@)),
                ));
                return ;
            }
            i += 1;
        }
        assert(position_of(before, emoji_string@) is None);
        let mut senders: Vec<String> = Vec::new();
        senders.push(emoji_source);
        assert(texts(senders@) =~= seq![emoji_source@]);
        self.emoji_reply.push((emoji_string, senders));
        assert(reaction_views(self.emoji_reply@) =~= before.push(
            (emoji_string@, seq![emoji_source@]),
        ));
    }

    /// Whether the user has seen the message.
    pub fn seen(&self) -> (r: bool)
        ensures
            r == self@.seen,
    {
        self.seen
    }

    /// Whether the radio has acknowledged the message.
    pub fn acked(&self) -> (r: bool)
        ensures
            r == self@.acked,
    {
        self.acked
    }

    /// The reactions to the message; no emoji has two entries.
    pub fn emojis(&self) -> (r: &Vec<(String, Vec<String>)>)
        ensures
            reaction_views(r@) == self@.emoji_reply,
            self.wf() ==> distinct_keys(self@.emoji_reply),
    {
        &self.emoji_reply
    }

    /// The time the message was received or sent, in seconds since the start
    /// of 1970.
    pub fn time(&self) -> (r: u64)
        ensures
            r == self@.rx_time,
    {
        self.rx_time
    }

    /// The name of the sender, where it is known.
    pub fn name(&self) -> (r: &Option<String>)
        ensures
            text_view(*r) == self@.name,
    {
        &self.name
    }
}

} // verus!
