use llmchat::chat::{
    estimate_tokens, make_prompt, make_prompt_with_history, ChatHistory, ChatRole, ChatTemplate,
    RecordStatus,
};

#[test]
fn chatml_renders_system_turn() {
    let t = ChatTemplate::ChatML;
    let r = t.apply_one(ChatRole::System, "x");
    assert_eq!(r.as_str(), "<|im_start|>system\nx<|im_end|>\n");
}

#[test]
fn chatml_renders_user_and_assistant_turns() {
    let t = ChatTemplate::ChatML;
    assert_eq!(t.apply_one(ChatRole::User, "x").as_str(), "<|im_start|>user\nx<|im_end|>\n");
    assert_eq!(
        t.apply_one(ChatRole::Assistant, "hi").as_str(),
        "<|im_start|>assistant\nhi<|im_end|>\n"
    );
}

#[test]
fn imessenger_renders_prefixed_turns() {
    let t = ChatTemplate::IMessenger;
    assert_eq!(t.apply_one(ChatRole::System, "x").as_str(), "SYSTEM: x\n");
    assert_eq!(t.apply_one(ChatRole::User, "x").as_str(), "USER: x\n");
    assert_eq!(t.apply_one(ChatRole::Assistant, "ok").as_str(), "ASSISTANT: ok\n");
}

#[test]
fn roles_render_distinct_under_every_template() {
    for t in [ChatTemplate::ChatML, ChatTemplate::IMessenger] {
        let s = t.apply_one(ChatRole::System, "x");
        let u = t.apply_one(ChatRole::User, "x");
        let a = t.apply_one(ChatRole::Assistant, "x");
        assert_ne!(s, u);
        assert_ne!(s, a);
        assert_ne!(u, a);
    }
}

#[test]
fn generation_lead_marks_assistant_turn() {
    assert_eq!(ChatTemplate::ChatML.generation_lead(), "<|im_start|>assistant\n");
    assert_eq!(ChatTemplate::IMessenger.generation_lead(), "ASSISTANT: ");
}

#[test]
fn token_estimate_is_four_thirds_of_word_count() {
    assert_eq!(estimate_tokens(""), 0);
    assert_eq!(estimate_tokens("   \t\n "), 0);
    assert_eq!(estimate_tokens("one"), 1);
    assert_eq!(estimate_tokens("one two three"), 4);
    assert_eq!(estimate_tokens("a b c d e f"), 8);
    assert_eq!(estimate_tokens("  spaced   out  words "), 4);
}

#[test]
fn record_message_appends_with_estimate() {
    let mut h = ChatHistory::new(100);
    let status = h.record_message("one two three");
    assert_eq!(status, RecordStatus::Fits);
    assert_eq!(h.len(), 1);
    assert_eq!(h.total_estimate(), 4);
    assert_eq!(h.entry_estimate(0), 4);
    assert_eq!(h.entry_text(0).as_str(), "one two three");
}

#[test]
fn eviction_is_oldest_first() {
    let mut h = ChatHistory::new(10);
    assert_eq!(h.record_with_estimate(3, String::from("A")), RecordStatus::Fits);
    assert_eq!(h.record_with_estimate(4, String::from("B")), RecordStatus::Fits);
    // A(3) + B(4) + C(5) would be 12: A, the oldest, is evicted first.
    assert_eq!(h.record_with_estimate(5, String::from("C")), RecordStatus::Fits);
    assert_eq!(h.len(), 2);
    assert_eq!(h.entry_text(0).as_str(), "B");
    assert_eq!(h.entry_text(1).as_str(), "C");
    assert_eq!(h.total_estimate(), 9);
    // B(4) + C(5) + D(3) would be 12 again: B goes, leaving C(5), D(3).
    assert_eq!(h.record_with_estimate(3, String::from("D")), RecordStatus::Fits);
    assert_eq!(h.len(), 2);
    assert_eq!(h.entry_text(0).as_str(), "C");
    assert_eq!(h.entry_text(1).as_str(), "D");
    assert_eq!(h.total_estimate(), 8);
}

#[test]
fn budget_holds_after_every_record() {
    let mut h = ChatHistory::new(9);
    let texts = ["a b c", "d e f g h i", "j k l", "m n o p q r", "s", "t u v w x y"];
    for text in texts {
        h.record_message(text);
        assert!(h.total_estimate() <= h.token_budget() || h.len() == 1);
    }
}

#[test]
fn single_oversized_entry_is_kept() {
    let mut h = ChatHistory::new(10);
    assert_eq!(h.record_with_estimate(2, String::from("small")), RecordStatus::Fits);
    // An entry estimated over the whole budget evicts everything older and
    // stays as the only entry.
    assert_eq!(h.record_with_estimate(15, String::from("big")), RecordStatus::Oversized);
    assert_eq!(h.len(), 1);
    assert_eq!(h.entry_text(0).as_str(), "big");
    assert_eq!(h.total_estimate(), 15);
    // The next record displaces the oversized entry.
    assert_eq!(h.record_with_estimate(2, String::from("after")), RecordStatus::Fits);
    assert_eq!(h.len(), 1);
    assert_eq!(h.entry_text(0).as_str(), "after");
    assert_eq!(h.total_estimate(), 2);
}

#[test]
fn make_prompt_concatenates_turns() {
    let p = make_prompt(ChatTemplate::ChatML, "s", "u", None);
    assert_eq!(
        p.as_str(),
        "<|im_start|>system\ns<|im_end|>\n<|im_start|>user\nu<|im_end|>\n<|im_start|>assistant\n"
    );
    let q = make_prompt(ChatTemplate::IMessenger, "s", "u", Some(String::from("c")));
    assert_eq!(q.as_str(), "SYSTEM: s\nSYSTEM: c\nUSER: u\nASSISTANT: ");
}

#[test]
fn make_prompt_with_history_replays_and_records() {
    let mut h = ChatHistory::new(1000);
    let first = make_prompt_with_history(ChatTemplate::ChatML, "s", "hello there you", None, &mut h);
    // The first prompt carries no history yet, just the new user turn,
    // which is also recorded.
    assert_eq!(
        first.as_str(),
        "<|im_start|>system\ns<|im_end|>\n<|im_start|>user\nhello there you<|im_end|>\n<|im_start|>assistant\n"
    );
    assert_eq!(h.len(), 1);
    assert_eq!(h.entry_text(0).as_str(), "<|im_start|>user\nhello there you<|im_end|>\n");
    assert_eq!(h.entry_estimate(0), 5);

    let second = make_prompt_with_history(ChatTemplate::ChatML, "s", "again", None, &mut h);
    // The second prompt replays the recorded first user turn before the
    // new one.
    assert_eq!(
        second.as_str(),
        "<|im_start|>system\ns<|im_end|>\n<|im_start|>user\nhello there you<|im_end|>\n<|im_start|>user\nagain<|im_end|>\n<|im_start|>assistant\n"
    );
    assert_eq!(h.len(), 2);
}

#[test]
fn make_prompt_with_history_injects_context() {
    let mut h = ChatHistory::new(1000);
    let p = make_prompt_with_history(
        ChatTemplate::IMessenger,
        "s",
        "u",
        Some(String::from("ctx")),
        &mut h,
    );
    assert_eq!(p.as_str(), "SYSTEM: s\nSYSTEM: ctx\nUSER: u\nASSISTANT: ");
    assert_eq!(h.len(), 1);
    assert_eq!(h.entry_text(0).as_str(), "USER: u\n");
}

#[test]
fn insert_history_appends_stored_turns_in_order() {
    let mut h = ChatHistory::new(1000);
    h.record_message("first turn here");
    h.record_message("second turn");
    let mut buf = String::from(">");
    ChatTemplate::ChatML.insert_history(&mut buf, &h);
    assert_eq!(buf.as_str(), ">first turn heresecond turn");
}
