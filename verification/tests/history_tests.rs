use term_core::history::{
    clear_conversation_history, get_conversation_summary, message_time, summary_line_with_time,
    ConversationHistory, ConversationMessage, CLOCK_MAX_SECS, CLOCK_MIN_SECS,
};

fn texts(h: &ConversationHistory) -> Vec<(String, String, u64)> {
    h.get_messages().into_iter().map(|m| (m.role, m.content, m.timestamp)).collect()
}

fn add(h: &mut ConversationHistory, role: &str, content: &str, t: u64) {
    h.add_message(role.to_string(), content.to_string(), t);
}

#[test]
fn new_history_is_empty() {
    let h = ConversationHistory::new(5);
    assert!(h.get_messages().is_empty());
    assert_eq!(h.get_context_summary(), "");
    assert_eq!(get_conversation_summary(&h), Ok("No conversation history available.".to_string()));
    assert!(ConversationHistory::default().get_messages().is_empty());
}

#[test]
fn only_the_newest_messages_stay() {
    let mut h = ConversationHistory::new(2);
    add(&mut h, "user", "one", 1);
    add(&mut h, "assistant", "two", 2);
    add(&mut h, "user", "three", 3);
    assert_eq!(
        texts(&h),
        vec![
            ("assistant".to_string(), "two".to_string(), 2),
            ("user".to_string(), "three".to_string(), 3)
        ]
    );
    let mut none = ConversationHistory::new(0);
    add(&mut none, "user", "one", 1);
    assert!(none.get_messages().is_empty());
    let mut d = ConversationHistory::default();
    add(&mut d, "user", "one", 1);
    assert!(d.get_messages().is_empty());
}

#[test]
fn clear_forgets_everything() {
    let mut h = ConversationHistory::new(3);
    add(&mut h, "user", "one", 1);
    h.clear();
    assert!(h.get_messages().is_empty());
    add(&mut h, "user", "one", 1);
    assert_eq!(clear_conversation_history(&mut h), Ok(()));
    assert!(h.get_messages().is_empty());
    add(&mut h, "user", "a", 1);
    add(&mut h, "user", "b", 1);
    add(&mut h, "user", "c", 1);
    add(&mut h, "user", "d", 1);
    assert_eq!(h.get_messages().len(), 3);
}

#[test]
fn context_summary_shows_the_last_six_spoken_messages() {
    let mut h = ConversationHistory::new(50);
    add(&mut h, "user", "q0", 0);
    add(&mut h, "assistant", "a0", 0);
    add(&mut h, "user", "q1", 0);
    add(&mut h, "system", "hidden", 0);
    add(&mut h, "assistant", "a1", 0);
    add(&mut h, "user", "q2", 0);
    add(&mut h, "assistant", "a2", 0);
    add(&mut h, "user", "q3", 0);
    assert_eq!(
        h.get_context_summary(),
        "Previous conversation context:\nUser: q1\nAssistant: a1\nUser: q2\nAssistant: a2\nUser: q3\n---\n"
    );
    let mut one = ConversationHistory::new(50);
    add(&mut one, "tool", "x", 0);
    assert_eq!(one.get_context_summary(), "Previous conversation context:\n---\n");
}

#[test]
fn time_of_day_is_what_the_calendar_library_writes() {
    assert_eq!(message_time(0), "00:00:00");
    assert_eq!(message_time(1), "00:00:01");
    assert_eq!(message_time(59), "00:00:59");
    assert_eq!(message_time(60), "00:01:00");
    assert_eq!(message_time(3_599), "00:59:59");
    assert_eq!(message_time(3_600), "01:00:00");
    assert_eq!(message_time(86_399), "23:59:59");
    assert_eq!(message_time(86_400), "00:00:00");
    assert_eq!(message_time(1_431_648_000), "00:00:00");
    assert_eq!(message_time(1_701_426_645), "10:30:45");
    for secs in [0u64, 1, 86_399, 86_400, 1_701_426_645, 4_102_444_800, CLOCK_MAX_SECS as u64] {
        let expected = chrono::DateTime::from_timestamp(secs as i64, 0)
            .map(|dt| dt.format("%H:%M:%S").to_string())
            .unwrap_or_else(|| "Unknown".to_string());
        assert_eq!(message_time(secs), expected);
    }
}

#[test]
fn time_of_day_at_the_edges_of_the_calendar() {
    assert_eq!(CLOCK_MAX_SECS, 8_210_266_876_799);
    assert_eq!(CLOCK_MIN_SECS, -8_334_601_228_800);
    assert!(chrono::DateTime::from_timestamp(CLOCK_MAX_SECS, 0).is_some());
    assert!(chrono::DateTime::from_timestamp(CLOCK_MAX_SECS + 1, 0).is_none());
    assert!(chrono::DateTime::from_timestamp(CLOCK_MIN_SECS, 0).is_some());
    assert!(chrono::DateTime::from_timestamp(CLOCK_MIN_SECS - 1, 0).is_none());
    assert_eq!(message_time(CLOCK_MAX_SECS as u64), "23:59:59");
    assert_eq!(message_time(CLOCK_MAX_SECS as u64 + 1), "Unknown");
    assert_eq!(message_time(i64::MAX as u64), "Unknown");
    // time stamps beyond the signed range stand for instants before the epoch
    assert_eq!(message_time(u64::MAX), "23:59:59");
    assert_eq!(message_time(u64::MAX - 86_399), "00:00:00");
    assert_eq!(message_time(u64::MAX - 3_600), "22:59:59");
    assert_eq!(message_time(CLOCK_MIN_SECS as u64), "00:00:00");
    assert_eq!(message_time((CLOCK_MIN_SECS - 1) as u64), "Unknown");
    assert_eq!(message_time(i64::MAX as u64 + 1), "Unknown");
}

#[test]
fn summary_lines() {
    let m = |role: &str| ConversationMessage {
        role: role.to_string(),
        content: "hello".to_string(),
        timestamp: 0,
    };
    assert_eq!(summary_line_with_time(&m("user"), "10:30:45"), "[10:30:45] User: hello\n");
    assert_eq!(summary_line_with_time(&m("assistant"), "Unknown"), "[Unknown] AI: hello\n\n");
    assert_eq!(summary_line_with_time(&m("system"), "10:30:45"), "");
}

#[test]
fn conversation_summary() {
    let mut h = ConversationHistory::new(50);
    add(&mut h, "user", "how do I list files?", 1_701_426_645);
    add(&mut h, "system", "hidden", 1_701_426_646);
    add(&mut h, "assistant", "use ls", 1_701_426_647);
    add(&mut h, "user", "thanks", CLOCK_MAX_SECS as u64 + 1);
    assert_eq!(
        get_conversation_summary(&h),
        Ok("Conversation History (4 messages):\n\n\
[10:30:45] User: how do I list files?\n\
[10:30:47] AI: use ls\n\n\
[Unknown] User: thanks\n"
            .to_string())
    );
    let mut many = ConversationHistory::new(50);
    for i in 0..12 {
        add(&mut many, "tool", "x", i);
    }
    assert_eq!(get_conversation_summary(&many), Ok("Conversation History (12 messages):\n\n".to_string()));
}
