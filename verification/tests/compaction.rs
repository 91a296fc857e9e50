use dinoe_core::agent::compaction::{
    build_transcript, compact_history, compaction_range, compaction_transcript,
    should_compact_history, summary_request, truncate_transcript, COMPACTION_MAX_SOURCE_CHARS,
    COMPACTION_MAX_SUMMARY_CHARS, COMPACT_KEEP_RECENT, DEFAULT_MAX_HISTORY,
};
use dinoe_core::traits::ChatMessage;

fn conversation(with_system: bool, others: usize) -> Vec<ChatMessage> {
    let mut messages = Vec::new();
    if with_system {
        messages.push(ChatMessage::system("prompt"));
    }
    for i in 0..others {
        if i % 2 == 0 {
            messages.push(ChatMessage::user(&format!("question {}", i)));
        } else {
            messages.push(ChatMessage::assistant(&format!("answer {}", i)));
        }
    }
    messages
}

fn non_system_count(messages: &[ChatMessage]) -> usize {
    if messages.first().map(|m| m.role == "system").unwrap_or(false) {
        messages.len() - 1
    } else {
        messages.len()
    }
}

#[test]
fn constants() {
    assert_eq!(DEFAULT_MAX_HISTORY, 50);
    assert_eq!(COMPACT_KEEP_RECENT, 20);
    assert_eq!(COMPACTION_MAX_SOURCE_CHARS, 12_000);
    assert_eq!(COMPACTION_MAX_SUMMARY_CHARS, 2_000);
}

#[test]
fn compaction_is_due_above_the_limit_only() {
    assert!(!should_compact_history(&conversation(true, 50), 50));
    assert!(should_compact_history(&conversation(true, 51), 50));
    assert!(!should_compact_history(&conversation(false, 50), 50));
    assert!(should_compact_history(&conversation(false, 51), 50));
    assert!(!should_compact_history(&vec![], 0));
    assert!(!should_compact_history(&conversation(true, 0), 0));
}

#[test]
fn short_text_is_not_truncated() {
    assert_eq!(truncate_transcript("short"), "short");
    let exact = "x".repeat(2000);
    assert_eq!(truncate_transcript(&exact), exact);
}

#[test]
fn long_text_is_cut_to_two_thousand_characters_and_an_ellipsis() {
    let long = "é".repeat(2001);
    let cut = truncate_transcript(&long);
    assert_eq!(cut.chars().count(), 2003);
    assert_eq!(cut, format!("{}...", "é".repeat(2000)));
}

#[test]
fn transcript_has_one_line_per_message() {
    let messages = vec![
        ChatMessage::user("  hello  "),
        ChatMessage::assistant("hi\n"),
        ChatMessage::tool_result("id".to_string(), "{}"),
    ];
    assert_eq!(build_transcript(&messages, 0, 3), "USER: hello\nASSISTANT: hi\nTOOL: {}\n");
    assert_eq!(build_transcript(&messages, 1, 2), "ASSISTANT: hi\n");
    assert_eq!(build_transcript(&messages, 2, 2), "");
}

#[test]
fn transcript_over_the_source_limit_is_cut() {
    let messages = vec![ChatMessage::user(&"a".repeat(12_000))];
    let transcript = build_transcript(&messages, 0, 1);
    assert_eq!(transcript.chars().count(), 12_000);
    assert_eq!(transcript, format!("USER: {}", "a".repeat(11_994)));
    let messages = vec![ChatMessage::user(&"a".repeat(11_993))];
    let transcript = build_transcript(&messages, 0, 1);
    assert_eq!(transcript.chars().count(), 12_000);
    assert_eq!(transcript, format!("USER: {}\n", "a".repeat(11_993)));
}

#[test]
fn transcript_is_cut_by_characters_and_in_message_order() {
    let messages = vec![
        ChatMessage::user(&"é".repeat(7_000)),
        ChatMessage::assistant(&"ü".repeat(7_000)),
        ChatMessage::user("never reached"),
    ];
    let transcript = build_transcript(&messages, 0, 3);
    assert_eq!(transcript.chars().count(), 12_000);
    assert_eq!(
        transcript,
        format!("USER: {}\nASSISTANT: {}", "é".repeat(7_000), "ü".repeat(12_000 - 7_007 - 11))
    );
}

#[test]
fn long_transcript_goes_to_the_provider_whole_and_stands_in_cut_to_summary_size() {
    let mut messages = vec![ChatMessage::user(&"c".repeat(20_000))];
    messages.extend(conversation(false, 20));
    let source = compaction_transcript(&messages).unwrap();
    assert_eq!(source, format!("USER: {}", "c".repeat(11_994)));
    compact_history(&mut messages, None);
    assert_eq!(messages.len(), 21);
    assert_eq!(
        messages[0].content,
        format!("[Conversation summary]\nUSER: {}...", "c".repeat(1_994))
    );
}

#[test]
fn summary_request_is_a_system_and_a_user_message() {
    let request = summary_request("USER: hi\n");
    assert_eq!(request.len(), 2);
    assert_eq!(request[0].role, "system");
    assert_eq!(
        request[0].content,
        "You are a conversation summarizer. Summarize the following conversation into a concise context that preserves: user preferences, decisions, unresolved tasks, and key facts. Keep it under 2000 characters."
    );
    assert_eq!(request[1].role, "user");
    assert_eq!(request[1].content, "Summarize this conversation:\n\nUSER: hi\n");
    assert!(request[0].tool_calls.is_none());
    assert!(request[1].tool_calls.is_none());
}

#[test]
fn range_covers_all_but_the_newest_twenty() {
    assert_eq!(compaction_range(&conversation(true, 51)), Some((1, 32)));
    assert_eq!(compaction_range(&conversation(false, 51)), Some((0, 31)));
    assert_eq!(compaction_range(&conversation(true, 21)), Some((1, 2)));
    assert_eq!(compaction_range(&conversation(true, 20)), None);
    assert_eq!(compaction_range(&conversation(false, 3)), None);
    assert_eq!(compaction_range(&vec![]), None);
}

#[test]
fn after_compaction_twenty_one_messages_are_left_and_the_summary_is_not_empty() {
    for with_system in [true, false] {
        for others in [21usize, 51, 75] {
            let mut messages = conversation(with_system, others);
            let before = messages.clone();
            compact_history(&mut messages, Some("  it went well \n".to_string()));
            assert_eq!(non_system_count(&messages), COMPACT_KEEP_RECENT + 1);
            let start = if with_system { 1 } else { 0 };
            assert_eq!(messages[start].role, "assistant");
            assert_eq!(messages[start].content, "[Conversation summary]\nit went well");
            assert!(!messages[start].content.is_empty());
            if with_system {
                assert_eq!(messages[0].role, "system");
                assert_eq!(messages[0].content, "prompt");
            }
            let kept = &before[before.len() - 20..];
            for (a, b) in messages[start + 1..].iter().zip(kept) {
                assert_eq!(a.role, b.role);
                assert_eq!(a.content, b.content);
            }
        }
    }
}

#[test]
fn without_a_summary_the_transcript_stands_in() {
    let mut messages = conversation(false, 22);
    compact_history(&mut messages, None);
    assert_eq!(messages.len(), 21);
    assert_eq!(
        messages[0].content,
        "[Conversation summary]\nUSER: question 0\nASSISTANT: answer 1"
    );
}

#[test]
fn without_a_summary_a_long_transcript_is_cut() {
    let mut messages = vec![ChatMessage::user(&"b".repeat(3000))];
    messages.extend(conversation(false, 20));
    compact_history(&mut messages, None);
    assert_eq!(messages.len(), 21);
    assert_eq!(
        messages[0].content,
        format!("[Conversation summary]\nUSER: {}...", "b".repeat(1994))
    );
}

#[test]
fn compaction_changes_nothing_with_twenty_messages_or_fewer() {
    let mut messages = conversation(true, 20);
    compact_history(&mut messages, Some("summary".to_string()));
    assert_eq!(messages.len(), 21);
    assert_eq!(messages[1].content, "question 0");
    assert_eq!(compaction_transcript(&messages), None);
}

#[test]
fn an_empty_summary_still_leaves_the_marker() {
    let mut messages = conversation(false, 21);
    compact_history(&mut messages, Some("   ".to_string()));
    assert_eq!(messages[0].content, "[Conversation summary]\n");
}

#[test]
fn transcript_of_what_would_be_compacted() {
    let messages = conversation(true, 22);
    assert_eq!(
        compaction_transcript(&messages),
        Some("USER: question 0\nASSISTANT: answer 1\n".to_string())
    );
}
