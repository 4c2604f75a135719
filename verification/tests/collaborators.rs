use verifybot::digits::u64_to_decimal;
use verifybot::message_counting::{messages_key, next_message_count, CounterRead};
use verifybot::message_leaderboard::{leaderboard_reply, pair_entries, parse_u64, sort_entries};
use verifybot::message_lookup::{lookup_count, lookup_message, lookup_target, LookupTarget};
use verifybot::messages::{length_message, mismatch_message, usage_message};
use verifybot::set_guild::{config_key, parse_guild_name, set_guild_usage_message};

#[test]
fn decimal_rendering_is_exact() {
    assert_eq!(u64_to_decimal(0), "0".to_string());
    assert_eq!(u64_to_decimal(7), "7".to_string());
    assert_eq!(u64_to_decimal(40), "40".to_string());
    assert_eq!(u64_to_decimal(12345), "12345".to_string());
    assert_eq!(u64_to_decimal(u64::MAX), "18446744073709551615".to_string());
}

#[test]
fn store_keys_embed_the_community_id() {
    assert_eq!(messages_key(42), "verifybot:messages:42".to_string());
    assert_eq!(config_key(42), "verifybot:config:42".to_string());
}

#[test]
fn counter_update_counts_from_zero_and_swallows_errors() {
    assert_eq!(next_message_count(CounterRead::Missing), Some(1));
    assert_eq!(next_message_count(CounterRead::Value(5)), Some(6));
    assert_eq!(next_message_count(CounterRead::Error), None);
    assert_eq!(next_message_count(CounterRead::Value(i64::MAX)), None);
}

#[test]
fn counter_parse_accepts_digits_only() {
    assert_eq!(parse_u64("0"), Some(0));
    assert_eq!(parse_u64("123"), Some(123));
    assert_eq!(parse_u64("18446744073709551615"), Some(u64::MAX));
    assert_eq!(parse_u64(""), None);
    assert_eq!(parse_u64("12a"), None);
    assert_eq!(parse_u64("-4"), None);
    assert_eq!(parse_u64("18446744073709551616"), None);
}

#[test]
fn the_field_value_stream_pairs_up() {
    let items = vec![
        "user1".to_string(),
        "3".to_string(),
        "user2".to_string(),
        "5".to_string(),
    ];
    assert_eq!(
        pair_entries(&items),
        Some(vec![(3, "user1".to_string()), (5, "user2".to_string())])
    );
    // a dangling field is dropped
    let odd = vec!["user1".to_string(), "3".to_string(), "user2".to_string()];
    assert_eq!(pair_entries(&odd), Some(vec![(3, "user1".to_string())]));
    // a malformed count fails the whole read
    let bad = vec!["user1".to_string(), "x".to_string()];
    assert_eq!(pair_entries(&bad), None);
}

#[test]
fn ordering_is_by_count_descending() {
    let sorted = sort_entries(vec![
        (3, "a".to_string()),
        (9, "b".to_string()),
        (5, "c".to_string()),
    ]);
    assert_eq!(
        sorted,
        vec![(9, "b".to_string()), (5, "c".to_string()), (3, "a".to_string())]
    );
}

#[test]
fn equal_counts_keep_every_member_in_id_order() {
    let sorted = sort_entries(vec![
        (3, "20".to_string()),
        (5, "7".to_string()),
        (3, "11".to_string()),
    ]);
    assert_eq!(
        sorted,
        vec![(5, "7".to_string()), (3, "11".to_string()), (3, "20".to_string())]
    );
}

#[test]
fn the_reply_renders_places_from_one() {
    let sorted = vec![(5, "b".to_string()), (3, "a".to_string())];
    assert_eq!(
        leaderboard_reply(&sorted),
        Some(
            "<@!b> has 5 messages and is Place 1\n<@!a> has 3 messages and is Place 2\n"
                .to_string()
        )
    );
    assert_eq!(leaderboard_reply(&vec![]), None);
}

#[test]
fn the_reply_stops_at_ten_places() {
    let mut sorted: Vec<(u64, String)> = Vec::new();
    for i in 0..12u64 {
        sorted.push((100 - i, format!("u{}", i)));
    }
    let text = leaderboard_reply(&sorted).unwrap();
    assert_eq!(text.matches('\n').count(), 10);
    assert!(text.contains("is Place 10\n"));
    assert!(!text.contains("is Place 11"));
}

#[test]
fn lookup_target_is_the_author_without_an_argument() {
    assert_eq!(lookup_target("!lookup"), LookupTarget::Author);
    assert_eq!(lookup_target("!lookup a b"), LookupTarget::Author);
}

#[test]
fn lookup_target_strips_the_mention_mark() {
    assert_eq!(
        lookup_target("!lookup <@!4242>"),
        LookupTarget::User("4242".to_string())
    );
    assert_eq!(
        lookup_target("!lookup 4242"),
        LookupTarget::User("4242".to_string())
    );
}

#[test]
fn a_role_mention_is_an_invalid_target() {
    assert_eq!(lookup_target("!lookup <@&4242>"), LookupTarget::Invalid);
}

#[test]
fn lookup_reply_counts_missing_values_as_zero() {
    assert_eq!(lookup_count(CounterRead::Missing), Some(0));
    assert_eq!(lookup_count(CounterRead::Value(17)), Some(17));
    assert_eq!(lookup_count(CounterRead::Error), None);
    assert_eq!(
        lookup_message("4242", 17),
        "<@!4242> currently has 17 messages.".to_string()
    );
    assert_eq!(
        lookup_message("4242", -2),
        "<@!4242> currently has -2 messages.".to_string()
    );
}

#[test]
fn the_group_name_argument_keeps_its_spaces() {
    assert_eq!(parse_guild_name("!setguild The Cool Guild"), Some("The Cool Guild".to_string()));
    assert_eq!(parse_guild_name("!setguild"), None);
}

#[test]
fn reply_texts_interpolate_their_values() {
    assert_eq!(usage_message("!"), "Invalid usage: `!verify Username`".to_string());
    assert!(length_message(17).contains("`17`"));
    let m = mismatch_message("Alice#0001", "Alice#0002");
    assert!(m.contains("Alice#0001") && m.contains("Alice#0002"));
    assert_eq!(
        set_guild_usage_message("!setguild"),
        "Invalid usage: !setguild [name]".to_string()
    );
}
