use reaction_pin::engine::{decide, decide_event, target_count};
use reaction_pin::model::{
    pushpin, Direction, EmojiId, Message, PinAction, PinDecision, ReactionEvent, ReactionTally,
};
use reaction_pin::router::{reply_for, route, Command};

fn pin() -> EmojiId {
    EmojiId::Unicode("📌".to_string())
}

fn thumbs_up() -> EmojiId {
    EmojiId::Unicode("👍".to_string())
}

fn tally(emoji: EmojiId, count: u64) -> ReactionTally {
    ReactionTally { emoji, count }
}

fn message(reactions: Vec<ReactionTally>) -> Message {
    Message { id: 42, channel_id: 7, reactions }
}

fn event(emoji: EmojiId, direction: Direction) -> ReactionEvent {
    ReactionEvent { emoji, channel_id: 7, message_id: 42, direction }
}

#[test]
fn pushpin_is_the_pin_glyph() {
    assert_eq!(pushpin(), pin());
    assert!(pushpin().matches(&pin()));
}

#[test]
fn matches_compares_variant_and_value() {
    assert!(pin().matches(&pin()));
    assert!(!pin().matches(&thumbs_up()));
    assert!(EmojiId::Custom(5).matches(&EmojiId::Custom(5)));
    assert!(!EmojiId::Custom(5).matches(&EmojiId::Custom(6)));
    assert!(!EmojiId::Custom(5).matches(&EmojiId::Unicode("5".to_string())));
    assert!(!EmojiId::Unicode("5".to_string()).matches(&EmojiId::Custom(5)));
}

#[test]
fn matches_tells_similar_symbols_apart() {
    let round_pin = EmojiId::Unicode("📍".to_string());
    assert!(!pin().matches(&round_pin));
    assert!(!pin().matches(&EmojiId::Unicode("📌📌".to_string())));
    assert!(!pin().matches(&EmojiId::Unicode(String::new())));
}

#[test]
fn target_count_of_message_without_reactions_is_zero() {
    assert_eq!(target_count(&message(vec![]), &pin()), 0);
}

#[test]
fn target_count_reads_the_matching_tally() {
    let m = message(vec![tally(thumbs_up(), 9), tally(pin(), 3), tally(EmojiId::Custom(1), 4)]);
    assert_eq!(target_count(&m, &pin()), 3);
    assert_eq!(target_count(&m, &thumbs_up()), 9);
    assert_eq!(target_count(&m, &EmojiId::Custom(1)), 4);
    assert_eq!(target_count(&m, &EmojiId::Custom(2)), 0);
}

#[test]
fn target_count_takes_the_first_of_two_tallies() {
    let m = message(vec![tally(pin(), 2), tally(pin(), 5)]);
    assert_eq!(target_count(&m, &pin()), 2);
}

#[test]
fn target_count_keeps_large_counts() {
    let m = message(vec![tally(pin(), u64::MAX)]);
    assert_eq!(target_count(&m, &pin()), u64::MAX);
}

#[test]
fn added_with_count_one_pins() {
    let m = message(vec![tally(pin(), 1)]);
    assert_eq!(
        decide(&m, Direction::Added, &pin()),
        PinDecision { action: PinAction::Pin, channel_id: 7, message_id: 42 }
    );
}

#[test]
fn added_with_other_counts_is_noop() {
    for count in [0u64, 2, 3, 10, u64::MAX] {
        let m = message(vec![tally(pin(), count)]);
        assert_eq!(decide(&m, Direction::Added, &pin()).action, PinAction::NoOp);
    }
    assert_eq!(decide(&message(vec![]), Direction::Added, &pin()).action, PinAction::NoOp);
}

#[test]
fn removed_with_count_zero_unpins() {
    let m = message(vec![tally(pin(), 0)]);
    assert_eq!(
        decide(&m, Direction::Removed, &pin()),
        PinDecision { action: PinAction::Unpin, channel_id: 7, message_id: 42 }
    );
}

#[test]
fn removed_with_absent_tally_unpins() {
    let m = message(vec![tally(thumbs_up(), 4)]);
    assert_eq!(decide(&m, Direction::Removed, &pin()).action, PinAction::Unpin);
    assert_eq!(decide(&message(vec![]), Direction::Removed, &pin()).action, PinAction::Unpin);
}

#[test]
fn removed_with_remaining_reactions_is_noop() {
    for count in [1u64, 2, 3, u64::MAX] {
        let m = message(vec![tally(pin(), count)]);
        assert_eq!(decide(&m, Direction::Removed, &pin()).action, PinAction::NoOp);
    }
}

#[test]
fn decision_names_the_message_it_was_made_for() {
    let m = Message { id: 1001, channel_id: 2002, reactions: vec![tally(pin(), 1)] };
    let d = decide(&m, Direction::Added, &pin());
    assert_eq!(d.message_id, 1001);
    assert_eq!(d.channel_id, 2002);
}

#[test]
fn other_emoji_is_noop_whatever_the_tallies() {
    for direction in [Direction::Added, Direction::Removed] {
        for reactions in [
            vec![],
            vec![tally(pin(), 0)],
            vec![tally(pin(), 1)],
            vec![tally(thumbs_up(), 1)],
            vec![tally(thumbs_up(), 0), tally(pin(), 1)],
        ] {
            let m = message(reactions);
            let d = decide_event(&event(thumbs_up(), direction), &m, &pin());
            assert_eq!(d, PinDecision { action: PinAction::NoOp, channel_id: 7, message_id: 42 });
        }
    }
}

#[test]
fn custom_emoji_event_is_noop_for_unicode_target() {
    let m = message(vec![tally(pin(), 1)]);
    let d = decide_event(&event(EmojiId::Custom(99), Direction::Added), &m, &pin());
    assert_eq!(d.action, PinAction::NoOp);
}

#[test]
fn target_emoji_event_follows_the_table() {
    let one = message(vec![tally(pin(), 1)]);
    let none = message(vec![]);
    assert_eq!(decide_event(&event(pin(), Direction::Added), &one, &pin()).action, PinAction::Pin);
    assert_eq!(
        decide_event(&event(pin(), Direction::Removed), &one, &pin()).action,
        PinAction::NoOp
    );
    assert_eq!(
        decide_event(&event(pin(), Direction::Removed), &none, &pin()).action,
        PinAction::Unpin
    );
    assert_eq!(decide_event(&event(pin(), Direction::Added), &none, &pin()).action, PinAction::NoOp);
}

#[test]
fn custom_target_is_counted_by_id() {
    let target = EmojiId::Custom(314);
    let m = message(vec![tally(EmojiId::Custom(313), 1), tally(EmojiId::Custom(314), 1)]);
    assert_eq!(decide(&m, Direction::Added, &target).action, PinAction::Pin);
    assert_eq!(decide(&m, Direction::Added, &EmojiId::Custom(315)).action, PinAction::NoOp);
}

#[test]
fn repeated_additions_never_pin_again() {
    for count in 2u64..50 {
        let m = message(vec![tally(pin(), count)]);
        assert_eq!(decide(&m, Direction::Added, &pin()).action, PinAction::NoOp);
    }
}

#[test]
fn ping_is_routed_and_answered() {
    assert_eq!(route("ping"), Some(Command::Ping));
    assert_eq!(reply_for(Command::Ping), "Pong!");
}

#[test]
fn other_words_are_not_routed() {
    assert_eq!(route(""), None);
    assert_eq!(route("Ping"), None);
    assert_eq!(route("ping "), None);
    assert_eq!(route("pin"), None);
    assert_eq!(route("pong"), None);
}
