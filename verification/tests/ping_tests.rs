use std::collections::VecDeque;

use dns_setter::ping_monitor::{
    current_ping_level, current_ping_text, history_entry_level, history_entry_text,
    initial_ping_text, ping_level, ping_test_text, push_bounded, PingLevel,
    PING_HISTORY_CAPACITY,
};

#[test]
fn levels_by_round_trip() {
    assert_eq!(ping_level(0), PingLevel::Good);
    assert_eq!(ping_level(99), PingLevel::Good);
    assert_eq!(ping_level(100), PingLevel::Fair);
    assert_eq!(ping_level(149), PingLevel::Fair);
    assert_eq!(ping_level(150), PingLevel::Poor);
    assert_eq!(ping_level(u64::MAX), PingLevel::Poor);
}

#[test]
fn texts_for_readings() {
    assert_eq!(current_ping_text(Some(42)), "Current Ping: 42 ms");
    assert_eq!(current_ping_text(None), "Ping failed");
    assert_eq!(history_entry_text(Some(0)), "0 ms");
    assert_eq!(history_entry_text(Some(18446744073709551615)), "18446744073709551615 ms");
    assert_eq!(history_entry_text(None), "Ping failed");
    assert_eq!(initial_ping_text(), "Ping: ...");
}

#[test]
fn single_ping_texts() {
    assert_eq!(ping_test_text(&Ok(23)), "Ping: 23 ms");
    assert_eq!(ping_test_text(&Err("timed out".to_string())), "Ping failed: timed out");
}

#[test]
fn current_text_round_trip() {
    for ms in [0u64, 5, 99, 100, 120, 149, 150, 1000, u64::MAX] {
        assert_eq!(current_ping_level(&current_ping_text(Some(ms))), ping_level(ms));
    }
    assert_eq!(current_ping_level(&current_ping_text(None)), PingLevel::Poor);
}

#[test]
fn current_level_of_other_texts() {
    assert_eq!(current_ping_level("Ping: ..."), PingLevel::Poor);
    assert_eq!(current_ping_level("Current Ping: Current Ping: 12 ms ms"), PingLevel::Good);
    assert_eq!(current_ping_level("+120"), PingLevel::Fair);
    assert_eq!(current_ping_level("Current Ping: 99999999999999999999 ms"), PingLevel::Poor);
}

#[test]
fn history_entry_round_trip() {
    for ms in [0u64, 42, 100, 149, 150, 9999] {
        assert_eq!(history_entry_level(&history_entry_text(Some(ms))), ping_level(ms));
    }
    assert_eq!(history_entry_level(&history_entry_text(None)), PingLevel::Poor);
}

#[test]
fn history_entry_level_of_other_texts() {
    assert_eq!(history_entry_level("   12 ms"), PingLevel::Good);
    assert_eq!(history_entry_level(""), PingLevel::Poor);
    assert_eq!(history_entry_level("abc"), PingLevel::Poor);
    assert_eq!(history_entry_level("20 failed"), PingLevel::Poor);
}

#[test]
fn history_keeps_last_five() {
    let mut h: VecDeque<String> = VecDeque::new();
    for ms in 1..=7u64 {
        push_bounded(&mut h, history_entry_text(Some(ms)), PING_HISTORY_CAPACITY);
        assert!(h.len() <= PING_HISTORY_CAPACITY);
    }
    assert_eq!(Vec::from(h), vec!["3 ms", "4 ms", "5 ms", "6 ms", "7 ms"]);
}

#[test]
fn push_into_empty_history_with_no_room() {
    let mut h: VecDeque<u8> = VecDeque::new();
    push_bounded(&mut h, 1, 0);
    assert_eq!(Vec::from(h.clone()), vec![1]);
    push_bounded(&mut h, 2, 0);
    assert_eq!(Vec::from(h), vec![2]);
}

#[test]
fn unicode_whitespace_separates_words() {
    assert_eq!(history_entry_level("\u{3000}12\u{a0}ms"), PingLevel::Good);
    assert_eq!(history_entry_level("\u{200b}12 ms"), PingLevel::Poor);
}
