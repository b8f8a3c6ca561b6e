//! What holds of every event, whatever the platform reports: stated over the
//! decision table and over whole runs of the event pipeline.

use crate::engine::{count_of, decision_for, event_decision};
use crate::model::{Direction, EmojiId, Message, PinAction, ReactionEvent};
use crate::pipeline::{
    begin, calls_from, calls_in_run, halt, lemma_calls_are_bounded, lemma_calls_from_lookup,
    lemma_calls_in_run, next, no_calls, resolved_message, stage_after, steps_left, Outcome,
    Signal, Stage,
};
use vstd::prelude::*;

verus! {

/// A reaction with any emoji but the target emoji is decided as no-op on
/// every message, ends the run at once, and asks for no platform call; from
/// no stage does such an event lead to a pin or an unpin.
pub proof fn other_emoji_is_ignored(
    event: ReactionEvent,
    target: EmojiId,
    message: Message,
    stage: Stage,
    signals: Seq<Signal>,
)
    requires
        event.emoji@ != target@,
    ensures
        event_decision(event.emoji@, event.direction, message@, target@).action
            == PinAction::NoOp,
        begin(event, target) == halt(Outcome::Ignored),
        calls_in_run(event, target, signals) == no_calls(),
        calls_from(stage, event, target, signals).pins == 0,
        calls_from(stage, event, target, signals).unpins == 0,
{
    lemma_calls_in_run(event, target, signals);
    lemma_calls_are_bounded(stage, event, target, signals);
}

/// When a reaction is added and the message then counts exactly one target
/// reaction, the decision is to pin, and a run that resolves to that message
/// asks for exactly one pin and no unpin.
pub proof fn first_reaction_pins(
    event: ReactionEvent,
    target: EmojiId,
    message: Message,
    signals: Seq<Signal>,
)
    requires
        event.direction == Direction::Added,
        event.emoji@ == target@,
        count_of(message@.reactions, target@) == 1,
    ensures
        decision_for(message@, Direction::Added, target@).action == PinAction::Pin,
        event_decision(event.emoji@, event.direction, message@, target@).action
            == PinAction::Pin,
        resolved_message(signals) == Some(message) ==> calls_in_run(event, target, signals).pins
            == 1 && calls_in_run(event, target, signals).unpins == 0,
{
    lemma_calls_in_run(event, target, signals);
}

/// When a reaction is added and the message counts any number of target
/// reactions but one, the decision is no-op, and a run that resolves to that
/// message asks for neither a pin nor an unpin.
pub proof fn later_reaction_changes_nothing(
    event: ReactionEvent,
    target: EmojiId,
    message: Message,
    signals: Seq<Signal>,
)
    requires
        event.direction == Direction::Added,
        count_of(message@.reactions, target@) != 1,
    ensures
        decision_for(message@, Direction::Added, target@).action == PinAction::NoOp,
        event_decision(event.emoji@, event.direction, message@, target@).action
            == PinAction::NoOp,
        resolved_message(signals) == Some(message) ==> calls_in_run(event, target, signals).pins
            == 0 && calls_in_run(event, target, signals).unpins == 0,
{
    lemma_calls_in_run(event, target, signals);
}

/// When a reaction is removed and the message then counts no target
/// reaction, the decision is to unpin, and a run that resolves to that
/// message asks for exactly one unpin and no pin.
pub proof fn last_removal_unpins(
    event: ReactionEvent,
    target: EmojiId,
    message: Message,
    signals: Seq<Signal>,
)
    requires
        event.direction == Direction::Removed,
        event.emoji@ == target@,
        count_of(message@.reactions, target@) == 0,
    ensures
        decision_for(message@, Direction::Removed, target@).action == PinAction::Unpin,
        event_decision(event.emoji@, event.direction, message@, target@).action
            == PinAction::Unpin,
        resolved_message(signals) == Some(message) ==> calls_in_run(
            event,
            target,
            signals,
        ).unpins == 1 && calls_in_run(event, target, signals).pins == 0,
{
    lemma_calls_in_run(event, target, signals);
}

/// When a reaction is removed and target reactions remain on the message,
/// the decision is no-op, and a run that resolves to that message asks for
/// neither a pin nor an unpin.
pub proof fn earlier_removal_changes_nothing(
    event: ReactionEvent,
    target: EmojiId,
    message: Message,
    signals: Seq<Signal>,
)
    requires
        event.direction == Direction::Removed,
        count_of(message@.reactions, target@) != 0,
    ensures
        decision_for(message@, Direction::Removed, target@).action == PinAction::NoOp,
        event_decision(event.emoji@, event.direction, message@, target@).action
            == PinAction::NoOp,
        resolved_message(signals) == Some(message) ==> calls_in_run(event, target, signals).pins
            == 0 && calls_in_run(event, target, signals).unpins == 0,
{
    lemma_calls_in_run(event, target, signals);
}

/// However often reactions are added to a message that already counts more
/// than one target reaction, no decision among them is to pin, and no run
/// among them asks for a pin.
pub proof fn repeated_reactions_never_repin(
    events: Seq<ReactionEvent>,
    target: EmojiId,
    runs: Seq<Seq<Signal>>,
)
    requires
        events.len() == runs.len(),
        forall|i: int| 0 <= i < events.len() ==> (#[trigger] events[i]).direction == Direction::Added,
        forall|i: int|
            0 <= i < runs.len() ==> match resolved_message(#[trigger] runs[i]) {
                Some(message) => count_of(message@.reactions, target@) > 1,
                None => true,
            },
    ensures
        forall|i: int|
            0 <= i < runs.len() ==> match resolved_message(#[trigger] runs[i]) {
                Some(message) => decision_for(message@, Direction::Added, target@).action
                    == PinAction::NoOp,
                None => true,
            },
        forall|i: int|
            0 <= i < runs.len() ==> calls_in_run(events[i], target, #[trigger] runs[i]).pins == 0,
{
    assert forall|i: int| 0 <= i < runs.len() implies calls_in_run(
        events[i],
        target,
        #[trigger] runs[i],
    ).pins == 0 by {
        assert(events[i].direction == Direction::Added);
        lemma_calls_in_run(events[i], target, runs[i]);
    }
}

/// The message is fetched only after a cache miss, and then once: once the
/// cache is asked, there is no fetch where it held the message and exactly
/// one where it missed; no run fetches more than once.
pub proof fn fetch_only_on_cache_miss(event: ReactionEvent, target: EmojiId, signals: Seq<Signal>)
    ensures
        signals.len() >= 1 && signals[0] is CacheHit ==> calls_from(
            Stage::AwaitingCache,
            event,
            target,
            signals,
        ).fetches == 0,
        signals.len() >= 1 && signals[0] is CacheMiss ==> calls_from(
            Stage::AwaitingCache,
            event,
            target,
            signals,
        ).fetches == 1,
        signals.len() >= 1 && signals[0] is CacheHit ==> calls_in_run(
            event,
            target,
            signals,
        ).fetches == 0,
        event.emoji@ == target@ && signals.len() >= 1 && signals[0] is CacheMiss ==> calls_in_run(
            event,
            target,
            signals,
        ).fetches == 1,
        calls_in_run(event, target, signals).fetches <= 1,
{
    lemma_calls_from_lookup(event, target, signals);
    lemma_calls_in_run(event, target, signals);
}

/// A failed fetch ends the run with a resolution error: one fetch was asked
/// for, and neither a pin nor an unpin.
pub proof fn failed_fetch_ends_the_event(
    event: ReactionEvent,
    target: EmojiId,
    signals: Seq<Signal>,
)
    requires
        event.emoji@ == target@,
        signals.len() >= 2,
        signals[0] is CacheMiss,
        signals[1] is FetchFailed,
    ensures
        next(Stage::AwaitingFetch, event, target, signals[1]) == halt(Outcome::ResolutionError),
        calls_in_run(event, target, signals).fetches == 1,
        calls_in_run(event, target, signals).pins == 0,
        calls_in_run(event, target, signals).unpins == 0,
{
    lemma_calls_in_run(event, target, signals);
}

/// Every signal brings an unfinished run closer to its end, and a finished
/// run stays finished.
pub proof fn every_signal_makes_progress(
    stage: Stage,
    event: ReactionEvent,
    target: EmojiId,
    signal: Signal,
)
    ensures
        stage != Stage::Finished ==> steps_left(next(stage, event, target, signal).stage)
            < steps_left(stage),
        stage == Stage::Finished ==> next(stage, event, target, signal).stage == Stage::Finished,
        next(stage, event, target, signal).stage == Stage::Finished <==> next(
            stage,
            event,
            target,
            signal,
        ).effect is Finish,
{
}

/// A run ends after at most as many signals as its stage has steps left:
/// three from the cache lookup on.
pub proof fn runs_end_within_their_steps(
    stage: Stage,
    event: ReactionEvent,
    target: EmojiId,
    signals: Seq<Signal>,
)
    requires
        signals.len() >= steps_left(stage),
    ensures
        stage_after(stage, event, target, signals) == Stage::Finished,
    decreases signals.len(),
{
    if signals.len() > 0 {
        every_signal_makes_progress(stage, event, target, signals[0]);
        runs_end_within_their_steps(
            next(stage, event, target, signals[0]).stage,
            event,
            target,
            signals.drop_first(),
        );
    }
}

} // verus!
