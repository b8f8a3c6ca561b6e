//! The values the decision logic works on, and their mathematical views.

use vstd::prelude::*;

verus! {

/// Identifies an emoji: a unicode symbol by its text, a custom emoji by its id.
#[derive(Clone, Debug, PartialEq, Eq)]
pub enum EmojiId {
    Unicode(String),
    Custom(u64),
}

/// What an `EmojiId` stands for in contracts.
pub ghost enum EmojiKey {
    Unicode(Seq<char>),
    Custom(u64),
}

impl View for EmojiId {
    type V = EmojiKey;

    open spec fn view(&self) -> EmojiKey {
        match *self {
            EmojiId::Unicode(s) => EmojiKey::Unicode(s@),
            EmojiId::Custom(id) => EmojiKey::Custom(id),
        }
    }
}

impl EmojiId {
    /// Whether two identifiers name the same emoji: same variant, same value.
    pub fn matches(&self, other: &EmojiId) -> (same: bool)
        ensures
            same == (self@ == other@),
    {
        match self {
            EmojiId::Unicode(a) => match other {
                EmojiId::Unicode(b) => *a == *b,
                EmojiId::Custom(_) => false,
            },
            EmojiId::Custom(a) => match other {
                EmojiId::Unicode(_) => false,
                EmojiId::Custom(b) => *a == *b,
            },
        }
    }
}

/// The text of the pushpin symbol.
pub open spec fn pushpin_text() -> Seq<char> {
    "\u{1F4CC}"@
}

/// The pushpin symbol, the customary target emoji.
pub fn pushpin() -> (emoji: EmojiId)
    ensures
        emoji@ == EmojiKey::Unicode(pushpin_text()),
{
    EmojiId::Unicode("\u{1F4CC}".to_owned())
}

/// The platform's aggregate count of one emoji on one message.
#[derive(Clone, Debug, PartialEq, Eq)]
pub struct ReactionTally {
    pub emoji: EmojiId,
    pub count: u64,
}

/// What a `ReactionTally` stands for in contracts.
pub ghost struct TallyView {
    pub emoji: EmojiKey,
    pub count: nat,
}

impl View for ReactionTally {
    type V = TallyView;

    open spec fn view(&self) -> TallyView {
        TallyView { emoji: self.emoji@, count: self.count as nat }
    }
}

/// A message as the platform reported it, with its tallies in platform order.
#[derive(Clone, Debug, PartialEq, Eq)]
pub struct Message {
    pub id: u64,
    pub channel_id: u64,
    pub reactions: Vec<ReactionTally>,
}

/// What a `Message` stands for in contracts.
pub ghost struct MessageView {
    pub id: u64,
    pub channel_id: u64,
    pub reactions: Seq<TallyView>,
}

impl View for Message {
    type V = MessageView;

    open spec fn view(&self) -> MessageView {
        MessageView {
            id: self.id,
            channel_id: self.channel_id,
            reactions: self.reactions@.map_values(|t: ReactionTally| t@),
        }
    }
}

/// Whether a reaction was put on a message or taken off it.
#[derive(Clone, Copy, Debug, PartialEq, Eq, Structural)]
pub enum Direction {
    Added,
    Removed,
}

/// One reaction notification from the platform.
#[derive(Clone, Debug, PartialEq, Eq)]
pub struct ReactionEvent {
    pub emoji: EmojiId,
    pub channel_id: u64,
    pub message_id: u64,
    pub direction: Direction,
}

/// What to do with a message's pin state.
#[derive(Clone, Copy, Debug, PartialEq, Eq, Structural)]
pub enum PinAction {
    Pin,
    Unpin,
    NoOp,
}

/// The action decided for one event, and the message it applies to.
#[derive(Clone, Copy, Debug, PartialEq, Eq, Structural)]
pub struct PinDecision {
    pub action: PinAction,
    pub channel_id: u64,
    pub message_id: u64,
}

} // verus!
