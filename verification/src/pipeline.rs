//! The handling of one reaction event, as a state machine.
//!
//! The machine never talks to the platform. It says what to do next (an
//! `Effect`), the caller does it and reports what happened (a `Signal`). A
//! message is looked up in the cache first and fetched only on a miss; a
//! failed fetch or a rejected mutation ends the event and nothing else.

use crate::engine::{action_for, count_of, decide_event, event_decision};
use crate::model::{EmojiId, Message, PinAction, ReactionEvent};
use vstd::prelude::*;

verus! {

/// Where the handling of an event stands.
#[derive(Clone, Copy, Debug, PartialEq, Eq, Structural)]
pub enum Stage {
    AwaitingCache,
    AwaitingFetch,
    AwaitingPin,
    AwaitingUnpin,
    Finished,
}

/// How the handling of an event ended.
#[derive(Clone, Copy, Debug, PartialEq, Eq, Structural)]
pub enum Outcome {
    /// The reaction's emoji is not the target emoji.
    Ignored,
    /// The pin state is already right.
    Unchanged,
    Pinned,
    Unpinned,
    /// The message was not cached and fetching it failed.
    ResolutionError,
    /// The platform rejected the pin or unpin.
    MutationError,
    /// A signal arrived that the current stage does not wait for.
    UnexpectedSignal,
}

/// What the caller has to do next.
#[derive(Clone, Copy, Debug, PartialEq, Eq, Structural)]
pub enum Effect {
    LookupCache { channel_id: u64, message_id: u64 },
    FetchMessage { channel_id: u64, message_id: u64 },
    PinMessage { channel_id: u64, message_id: u64 },
    UnpinMessage { channel_id: u64, message_id: u64 },
    Finish(Outcome),
}

/// What the caller reports after carrying out an effect.
#[derive(Clone, Debug, PartialEq, Eq)]
pub enum Signal {
    CacheHit(Message),
    CacheMiss,
    Fetched(Message),
    FetchFailed,
    MutationDone,
    MutationRejected,
}

/// A stage together with the effect that leads into it.
#[derive(Clone, Copy, Debug, PartialEq, Eq, Structural)]
pub struct Step {
    pub stage: Stage,
    pub effect: Effect,
}

/// The first step for an event: look the message up, unless the emoji is not
/// the target emoji.
pub open spec fn begin(event: ReactionEvent, target: EmojiId) -> Step {
    if event.emoji@ == target@ {
        Step {
            stage: Stage::AwaitingCache,
            effect: Effect::LookupCache {
                channel_id: event.channel_id,
                message_id: event.message_id,
            },
        }
    } else {
        Step { stage: Stage::Finished, effect: Effect::Finish(Outcome::Ignored) }
    }
}

/// The step that carries out a decided action on `message`.
pub open spec fn enact(action: PinAction, message: Message) -> Step {
    match action {
        PinAction::Pin => Step {
            stage: Stage::AwaitingPin,
            effect: Effect::PinMessage { channel_id: message.channel_id, message_id: message.id },
        },
        PinAction::Unpin => Step {
            stage: Stage::AwaitingUnpin,
            effect: Effect::UnpinMessage {
                channel_id: message.channel_id,
                message_id: message.id,
            },
        },
        PinAction::NoOp => Step {
            stage: Stage::Finished,
            effect: Effect::Finish(Outcome::Unchanged),
        },
    }
}

/// The step taken once the message is at hand.
pub open spec fn settle(event: ReactionEvent, target: EmojiId, message: Message) -> Step {
    enact(event_decision(event.emoji@, event.direction, message@, target@).action, message)
}

/// The step taken when `signal` arrives in `stage`.
pub open spec fn next(stage: Stage, event: ReactionEvent, target: EmojiId, signal: Signal)
    -> Step {
    match stage {
        Stage::AwaitingCache => match signal {
            Signal::CacheHit(message) => settle(event, target, message),
            Signal::CacheMiss => Step {
                stage: Stage::AwaitingFetch,
                effect: Effect::FetchMessage {
                    channel_id: event.channel_id,
                    message_id: event.message_id,
                },
            },
            _ => halt(Outcome::UnexpectedSignal),
        },
        Stage::AwaitingFetch => match signal {
            Signal::Fetched(message) => settle(event, target, message),
            Signal::FetchFailed => halt(Outcome::ResolutionError),
            _ => halt(Outcome::UnexpectedSignal),
        },
        Stage::AwaitingPin => match signal {
            Signal::MutationDone => halt(Outcome::Pinned),
            Signal::MutationRejected => halt(Outcome::MutationError),
            _ => halt(Outcome::UnexpectedSignal),
        },
        Stage::AwaitingUnpin => match signal {
            Signal::MutationDone => halt(Outcome::Unpinned),
            Signal::MutationRejected => halt(Outcome::MutationError),
            _ => halt(Outcome::UnexpectedSignal),
        },
        Stage::Finished => halt(Outcome::UnexpectedSignal),
    }
}

/// The step that ends the handling with `outcome`.
pub open spec fn halt(outcome: Outcome) -> Step {
    Step { stage: Stage::Finished, effect: Effect::Finish(outcome) }
}

/// Starts the handling of `event`.
pub fn start(event: &ReactionEvent, target: &EmojiId) -> (step: Step)
    ensures
        step == begin(*event, *target),
{
    if event.emoji.matches(target) {
        Step {
            stage: Stage::AwaitingCache,
            effect: Effect::LookupCache {
                channel_id: event.channel_id,
                message_id: event.message_id,
            },
        }
    } else {
        finish(Outcome::Ignored)
    }
}

/// Continues the handling of `event` with what the caller reports.
pub fn advance(stage: Stage, event: &ReactionEvent, target: &EmojiId, signal: Signal) -> (step:
    Step)
    ensures
        step == next(stage, *event, *target, signal),
{
    match stage {
        Stage::AwaitingCache => match signal {
            Signal::CacheHit(message) => resolved(event, target, &message),
            Signal::CacheMiss => Step {
                stage: Stage::AwaitingFetch,
                effect: Effect::FetchMessage {
                    channel_id: event.channel_id,
                    message_id: event.message_id,
                },
            },
            _ => finish(Outcome::UnexpectedSignal),
        },
        Stage::AwaitingFetch => match signal {
            Signal::Fetched(message) => resolved(event, target, &message),
            Signal::FetchFailed => finish(Outcome::ResolutionError),
            _ => finish(Outcome::UnexpectedSignal),
        },
        Stage::AwaitingPin => match signal {
            Signal::MutationDone => finish(Outcome::Pinned),
            Signal::MutationRejected => finish(Outcome::MutationError),
            _ => finish(Outcome::UnexpectedSignal),
        },
        Stage::AwaitingUnpin => match signal {
            Signal::MutationDone => finish(Outcome::Unpinned),
            Signal::MutationRejected => finish(Outcome::MutationError),
            _ => finish(Outcome::UnexpectedSignal),
        },
        Stage::Finished => finish(Outcome::UnexpectedSignal),
    }
}

/// Decides on a resolved message and turns the decision into a step.
pub fn resolved(event: &ReactionEvent, target: &EmojiId, message: &Message) -> (step: Step)
    ensures
        step == settle(*event, *target, *message),
{
    let decision = decide_event(event, message, target);
    match decision.action {
        PinAction::Pin => Step {
            stage: Stage::AwaitingPin,
            effect: Effect::PinMessage {
                channel_id: decision.channel_id,
                message_id: decision.message_id,
            },
        },
        PinAction::Unpin => Step {
            stage: Stage::AwaitingUnpin,
            effect: Effect::UnpinMessage {
                channel_id: decision.channel_id,
                message_id: decision.message_id,
            },
        },
        PinAction::NoOp => finish(Outcome::Unchanged),
    }
}

fn finish(outcome: Outcome) -> (step: Step)
    ensures
        step == halt(outcome),
{
    Step { stage: Stage::Finished, effect: Effect::Finish(outcome) }
}

/// An upper bound on the signals a stage can still take before the run ends.
pub open spec fn steps_left(stage: Stage) -> nat {
    match stage {
        Stage::AwaitingCache => 3,
        Stage::AwaitingFetch => 2,
        Stage::AwaitingPin => 1,
        Stage::AwaitingUnpin => 1,
        Stage::Finished => 0,
    }
}

/// The stage reached from `stage` once `signals` have arrived one by one.
pub open spec fn stage_after(
    stage: Stage,
    event: ReactionEvent,
    target: EmojiId,
    signals: Seq<Signal>,
) -> Stage
    decreases signals.len(),
{
    if signals.len() == 0 {
        stage
    } else {
        stage_after(
            next(stage, event, target, signals[0]).stage,
            event,
            target,
            signals.drop_first(),
        )
    }
}

/// How many platform calls of each kind a run asks for.
pub ghost struct Calls {
    pub fetches: nat,
    pub pins: nat,
    pub unpins: nat,
}

/// No call at all.
pub open spec fn no_calls() -> Calls {
    Calls { fetches: 0, pins: 0, unpins: 0 }
}

/// The calls that one effect asks for.
pub open spec fn calls_of(effect: Effect) -> Calls {
    match effect {
        Effect::FetchMessage { .. } => Calls { fetches: 1, pins: 0, unpins: 0 },
        Effect::PinMessage { .. } => Calls { fetches: 0, pins: 1, unpins: 0 },
        Effect::UnpinMessage { .. } => Calls { fetches: 0, pins: 0, unpins: 1 },
        _ => no_calls(),
    }
}

/// The sum of two call counts.
pub open spec fn plus(a: Calls, b: Calls) -> Calls {
    Calls { fetches: a.fetches + b.fetches, pins: a.pins + b.pins, unpins: a.unpins + b.unpins }
}

/// The calls asked for from `stage` on, while `signals` arrive one by one.
pub open spec fn calls_from(
    stage: Stage,
    event: ReactionEvent,
    target: EmojiId,
    signals: Seq<Signal>,
) -> Calls
    decreases signals.len(),
{
    if signals.len() == 0 {
        no_calls()
    } else {
        let step = next(stage, event, target, signals[0]);
        plus(calls_of(step.effect), calls_from(step.stage, event, target, signals.drop_first()))
    }
}

/// The calls asked for over the whole handling of `event`, whatever the
/// caller reports and however long it goes on reporting.
pub open spec fn calls_in_run(event: ReactionEvent, target: EmojiId, signals: Seq<Signal>)
    -> Calls {
    let step = begin(event, target);
    plus(calls_of(step.effect), calls_from(step.stage, event, target, signals))
}

/// The calls that carrying out `action` takes.
pub open spec fn calls_for(action: PinAction) -> Calls {
    match action {
        PinAction::Pin => Calls { fetches: 0, pins: 1, unpins: 0 },
        PinAction::Unpin => Calls { fetches: 0, pins: 0, unpins: 1 },
        PinAction::NoOp => no_calls(),
    }
}

/// The message that a run's signals resolve the event to, if any: the cached
/// one, or the fetched one after a miss.
pub open spec fn resolved_message(signals: Seq<Signal>) -> Option<Message> {
    if signals.len() >= 1 && signals[0] is CacheHit {
        Some(signals[0]->CacheHit_0)
    } else if signals.len() >= 2 && signals[0] is CacheMiss && signals[1] is Fetched {
        Some(signals[1]->Fetched_0)
    } else {
        None
    }
}

/// Once finished, a run asks for nothing more.
pub proof fn lemma_finished_is_silent(event: ReactionEvent, target: EmojiId, signals: Seq<Signal>)
    ensures
        calls_from(Stage::Finished, event, target, signals) == no_calls(),
    decreases signals.len(),
{
    if signals.len() > 0 {
        lemma_finished_is_silent(event, target, signals.drop_first());
    }
}

/// While a pin or unpin is awaited, a run asks for nothing more.
pub proof fn lemma_mutating_is_silent(
    stage: Stage,
    event: ReactionEvent,
    target: EmojiId,
    signals: Seq<Signal>,
)
    requires
        stage == Stage::AwaitingPin || stage == Stage::AwaitingUnpin,
    ensures
        calls_from(stage, event, target, signals) == no_calls(),
{
    if signals.len() > 0 {
        lemma_finished_is_silent(event, target, signals.drop_first());
    }
}

/// After a decision on `message`, a run asks for the decided mutation once
/// and for nothing else.
pub proof fn lemma_calls_after_settle(
    event: ReactionEvent,
    target: EmojiId,
    message: Message,
    rest: Seq<Signal>,
)
    ensures
        plus(
            calls_of(settle(event, target, message).effect),
            calls_from(settle(event, target, message).stage, event, target, rest),
        ) == calls_for(
            event_decision(event.emoji@, event.direction, message@, target@).action,
        ),
{
    let step = settle(event, target, message);
    if step.stage == Stage::Finished {
        lemma_finished_is_silent(event, target, rest);
    } else {
        lemma_mutating_is_silent(step.stage, event, target, rest);
    }
}

/// From the fetch on, a run asks for no further fetch, and for a mutation
/// only where the fetch brought a message.
pub proof fn lemma_calls_from_fetch(event: ReactionEvent, target: EmojiId, signals: Seq<Signal>)
    ensures
        calls_from(Stage::AwaitingFetch, event, target, signals) == if signals.len() >= 1
            && signals[0] is Fetched {
            calls_for(
                event_decision(
                    event.emoji@,
                    event.direction,
                    signals[0]->Fetched_0@,
                    target@,
                ).action,
            )
        } else {
            no_calls()
        },
{
    if signals.len() > 0 {
        let rest = signals.drop_first();
        match signals[0] {
            Signal::Fetched(message) => {
                lemma_calls_after_settle(event, target, message, rest);
            },
            _ => {
                lemma_finished_is_silent(event, target, rest);
            },
        }
    }
}

/// The calls over what follows the cache lookup, in closed form: one fetch
/// exactly where the cache missed, and the decided mutation once where a
/// message was resolved.
pub proof fn lemma_calls_from_lookup(event: ReactionEvent, target: EmojiId, signals: Seq<Signal>)
    ensures
        calls_from(Stage::AwaitingCache, event, target, signals) == plus(
            Calls {
                fetches: if signals.len() >= 1 && signals[0] is CacheMiss {
                    1
                } else {
                    0
                },
                pins: 0,
                unpins: 0,
            },
            match resolved_message(signals) {
                Some(message) => calls_for(
                    event_decision(event.emoji@, event.direction, message@, target@).action,
                ),
                None => no_calls(),
            },
        ),
{
    if signals.len() > 0 {
        let rest = signals.drop_first();
        match signals[0] {
            Signal::CacheHit(message) => {
                lemma_calls_after_settle(event, target, message, rest);
            },
            Signal::CacheMiss => {
                lemma_calls_from_fetch(event, target, rest);
                if rest.len() >= 1 {
                    assert(rest[0] == signals[1]);
                }
            },
            _ => {
                lemma_finished_is_silent(event, target, rest);
            },
        }
    }
}

/// The calls of a whole run, in closed form: nothing for another emoji; else
/// one fetch exactly where the cache missed, and the mutation that the
/// decision table gives for the resolved message, once.
pub proof fn lemma_calls_in_run(event: ReactionEvent, target: EmojiId, signals: Seq<Signal>)
    ensures
        calls_in_run(event, target, signals) == if event.emoji@ != target@ {
            no_calls()
        } else {
            plus(
                Calls {
                    fetches: if signals.len() >= 1 && signals[0] is CacheMiss {
                        1
                    } else {
                        0
                    },
                    pins: 0,
                    unpins: 0,
                },
                match resolved_message(signals) {
                    Some(message) => calls_for(
                        action_for(event.direction, count_of(message@.reactions, target@)),
                    ),
                    None => no_calls(),
                },
            )
        },
{
    if event.emoji@ != target@ {
        lemma_finished_is_silent(event, target, signals);
    } else {
        lemma_calls_from_lookup(event, target, signals);
    }
}

/// From any stage on, a run asks for at most one fetch and at most one
/// mutation, and for no mutation at all where the emoji is not the target.
pub proof fn lemma_calls_are_bounded(
    stage: Stage,
    event: ReactionEvent,
    target: EmojiId,
    signals: Seq<Signal>,
)
    ensures
        calls_from(stage, event, target, signals).fetches <= 1,
        calls_from(stage, event, target, signals).pins + calls_from(
            stage,
            event,
            target,
            signals,
        ).unpins <= 1,
        event.emoji@ != target@ ==> calls_from(stage, event, target, signals).pins == 0
            && calls_from(stage, event, target, signals).unpins == 0,
{
    match stage {
        Stage::AwaitingCache => lemma_calls_from_lookup(event, target, signals),
        Stage::AwaitingFetch => lemma_calls_from_fetch(event, target, signals),
        Stage::AwaitingPin => lemma_mutating_is_silent(stage, event, target, signals),
        Stage::AwaitingUnpin => lemma_mutating_is_silent(stage, event, target, signals),
        Stage::Finished => lemma_finished_is_silent(event, target, signals),
    }
}

} // verus!
