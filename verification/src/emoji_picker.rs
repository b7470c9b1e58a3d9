//! The state of the emoji picker: which group of emojis it shows.

use vstd::prelude::*;
use emojis::Group;

verus! {

/// The groups into which the `emojis` crate sorts its emojis.
#[verifier::external_type_specification]
pub struct ExGroup(emojis::Group);

/// What the user did in the picker.
#[derive(Debug, PartialEq, Eq)]
pub enum PickerMessage {
    GroupSelected(Group),
    EmojiSelected(String),
}

/// One emoji on offer: the emoji itself and its name.
#[derive(Debug, Clone, PartialEq, Eq)]
pub struct EmojiChoice {
    pub emoji: String,
    pub name: String,
}

/// What a vector of choices stands for: pairs of emoji and name, in order.
pub open spec fn choice_views(v: Seq<EmojiChoice>) -> Seq<(Seq<char>, Seq<char>)> {
    Seq::new(v.len(), |i: int| (v[i].emoji@, v[i].name@))
}

/// The emojis of a group with their names, in the order in which the
/// `emojis` crate lists them.
pub uninterp spec fn group_listing(group: Group) -> Seq<(Seq<char>, Seq<char>)>;

/// Lists a group through `emojis::Group::emojis`, with `Emoji::as_str` and
/// `Emoji::name` of each item. The result is the crate's table for that
/// group, which depends on nothing but the group.
#[verifier::external_body]
fn list_group(group: Group) -> (r: Vec<EmojiChoice>)
    ensures
        choice_views(r@) == group_listing(group),
{
    group.emojis().map(
        |e| EmojiChoice { emoji: e.as_str().to_string(), name: e.name().to_string() },
    ).collect()
}

/// The picker: it shows one group at a time.
#[derive(Debug)]
pub struct EmojiPicker {
    group: Group,
}

impl EmojiPicker {
    /// The group on show.
    pub closed spec fn shown(&self) -> Group {
        self.group
    }

    /// A picker that shows the smileys.
    pub fn new() -> (r: Self)
        ensures
            r.shown() == Group::SmileysAndEmotion,
    {
        Self { group: Group::SmileysAndEmotion }
    }

    /// The same picker, showing `group`.
    pub fn with_group(self, group: Group) -> (r: Self)
        ensures
            r.shown() == group,
    {
        let mut picker = self;
        picker.group = group;
        picker
    }

    /// The group on show.
    pub fn group(&self) -> (r: Group)
        ensures
            r == self.shown(),
    {
        self.group
    }

    /// Takes in what the user did: choosing a group shows it; choosing an
    /// emoji leaves the picker as it is.
    pub fn update(&mut self, message: PickerMessage)
        ensures
            final(self).shown() == match message {
                PickerMessage::GroupSelected(group) => group,
                PickerMessage::EmojiSelected(_) => old(self).shown(),
            },
    {
        match message {
            PickerMessage::GroupSelected(group) => {
                self.group = group;
            },
            PickerMessage::EmojiSelected(_) => {},
        }
    }

    /// The emojis to lay out, in order: those of the group on show.
    pub fn choices(&self) -> (r: Vec<EmojiChoice>)
        ensures
            choice_views(r@) == group_listing(self.shown()),
    {
        list_group(self.group)
    }
}

} // verus!
