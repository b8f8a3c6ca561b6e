//! The pin decision: from a message's tallies and the direction of a reaction
//! to pin, unpin or nothing.

use crate::model::{
    Direction, EmojiId, EmojiKey, Message, MessageView, PinAction, PinDecision, ReactionEvent,
    TallyView,
};
use vstd::prelude::*;

verus! {

/// The count of the first tally for `target`, or 0 where the message has none.
pub open spec fn count_of(tallies: Seq<TallyView>, target: EmojiKey) -> nat
    decreases tallies.len(),
{
    if tallies.len() == 0 {
        0
    } else if tallies[0].emoji == target {
        tallies[0].count
    } else {
        count_of(tallies.drop_first(), target)
    }
}

/// The decision table: the first target reaction pins, the removal of the
/// last one unpins, every other count leaves the pin state alone.
pub open spec fn action_for(direction: Direction, count: nat) -> PinAction {
    match direction {
        Direction::Added => if count == 1 {
            PinAction::Pin
        } else {
            PinAction::NoOp
        },
        Direction::Removed => if count == 0 {
            PinAction::Unpin
        } else {
            PinAction::NoOp
        },
    }
}

/// The decision for a message whose target-emoji tally changed in `direction`.
pub open spec fn decision_for(message: MessageView, direction: Direction, target: EmojiKey)
    -> PinDecision {
    PinDecision {
        action: action_for(direction, count_of(message.reactions, target)),
        channel_id: message.channel_id,
        message_id: message.id,
    }
}

/// The decision for an event: reactions with another emoji change nothing.
pub open spec fn event_decision(
    emoji: EmojiKey,
    direction: Direction,
    message: MessageView,
    target: EmojiKey,
) -> PinDecision {
    if emoji == target {
        decision_for(message, direction, target)
    } else {
        PinDecision {
            action: PinAction::NoOp,
            channel_id: message.channel_id,
            message_id: message.id,
        }
    }
}

/// A message without a tally for `target` counts 0.
pub proof fn lemma_count_absent(tallies: Seq<TallyView>, target: EmojiKey)
    requires
        forall|j: int| 0 <= j < tallies.len() ==> (#[trigger] tallies[j]).emoji != target,
    ensures
        count_of(tallies, target) == 0,
    decreases tallies.len(),
{
    if tallies.len() > 0 {
        let rest = tallies.drop_first();
        assert forall|j: int| 0 <= j < rest.len() implies (#[trigger] rest[j]).emoji
            != target by {
            assert(rest[j] == tallies[j + 1]);
        }
        lemma_count_absent(rest, target);
    }
}

/// The count is that of the earliest tally for `target`.
pub proof fn lemma_count_first(tallies: Seq<TallyView>, target: EmojiKey, i: int)
    requires
        0 <= i < tallies.len(),
        tallies[i].emoji == target,
        forall|j: int| 0 <= j < i ==> (#[trigger] tallies[j]).emoji != target,
    ensures
        count_of(tallies, target) == tallies[i].count,
    decreases i,
{
    if i > 0 {
        let rest = tallies.drop_first();
        assert(tallies[0].emoji != target);
        assert(rest[i - 1] == tallies[i]);
        assert forall|j: int| 0 <= j < i - 1 implies (#[trigger] rest[j]).emoji != target by {
            assert(rest[j] == tallies[j + 1]);
        }
        lemma_count_first(rest, target, i - 1);
    }
}

/// Counts the target emoji on a message: the count of its first tally for
/// `target`, 0 where there is none.
pub fn target_count(message: &Message, target: &EmojiId) -> (count: u64)
    ensures
        count as nat == count_of(message@.reactions, target@),
{
    let ghost tallies = message@.reactions;
    let mut i: usize = 0;
    while i < message.reactions.len()
        invariant
            0 <= i <= message.reactions.len(),
            tallies == message@.reactions,
            tallies.len() == message.reactions.len(),
            forall|j: int| 0 <= j < i ==> (#[trigger] tallies[j]).emoji != target@,
        decreases message.reactions.len() - i,
    {
        let tally = &message.reactions[i];
        assert(tallies[i as int] == tally@);
        if tally.emoji.matches(target) {
            proof {
                lemma_count_first(tallies, target@, i as int);
            }
            return tally.count;
        }
        i += 1;
    }
    proof {
        lemma_count_absent(tallies, target@);
    }
    0
}

/// Decides what a change of the target emoji's tally means for `message`.
pub fn decide(message: &Message, direction: Direction, target: &EmojiId) -> (decision:
    PinDecision)
    ensures
        decision == decision_for(message@, direction, target@),
{
    let count = target_count(message, target);
    let action = match direction {
        Direction::Added => if count == 1 {
            PinAction::Pin
        } else {
            PinAction::NoOp
        },
        Direction::Removed => if count == 0 {
            PinAction::Unpin
        } else {
            PinAction::NoOp
        },
    };
    PinDecision { action, channel_id: message.channel_id, message_id: message.id }
}

/// Decides what `event` means for the message it refers to. A reaction with
/// any emoji but `target` is ignored without looking at the tallies.
pub fn decide_event(event: &ReactionEvent, message: &Message, target: &EmojiId) -> (decision:
    PinDecision)
    ensures
        decision == event_decision(event.emoji@, event.direction, message@, target@),
{
    if event.emoji.matches(target) {
        decide(message, event.direction, target)
    } else {
        PinDecision {
            action: PinAction::NoOp,
            channel_id: message.channel_id,
            message_id: message.id,
        }
    }
}

} // verus!
