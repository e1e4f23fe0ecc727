use chat::history::{append_message, format_history, HISTORY_LIMIT};
use chat::types::Message;

#[test]
fn first_message_starts_a_conversation() {
    let m = Message::new("a", "b", "hi");
    let h = append_message(None, m);
    assert_eq!(h.len(), 1);
    assert_eq!(h[0].content, "hi");
}

#[test]
fn later_message_goes_to_the_end() {
    let h = append_message(None, Message::new("a", "b", "one"));
    let h = append_message(Some(h), Message::new("b", "a", "two"));
    assert_eq!(h.len(), 2);
    assert_eq!(h[0].content, "one");
    assert_eq!(h[1].sender, "b");
    assert_eq!(h[1].content, "two");
}

#[test]
fn empty_history_is_empty_text() {
    let h: Vec<Message> = Vec::new();
    assert_eq!(format_history(&h), "");
}

#[test]
fn history_lines_are_sender_and_content() {
    let h = vec![Message::new("jacob", "bob", "hello world"), Message::new("bob", "jacob", "hi")];
    assert_eq!(format_history(&h), "jacob: hello world\nbob: hi\n");
}

#[test]
fn history_shows_only_the_last_ten() {
    let contents: Vec<String> = (0..12).map(|i| format!("m{}", i)).collect();
    let h: Vec<Message> = contents.iter().map(|c| Message::new("s", "r", c)).collect();
    let text = format_history(&h);
    let expected: String = (2..12).map(|i| format!("s: m{}\n", i)).collect();
    assert_eq!(text, expected);
    assert_eq!(HISTORY_LIMIT, 10);
}

#[test]
fn exactly_ten_messages_are_all_shown() {
    let contents: Vec<String> = (0..10).map(|i| format!("m{}", i)).collect();
    let h: Vec<Message> = contents.iter().map(|c| Message::new("s", "r", c)).collect();
    assert_eq!(format_history(&h).lines().count(), 10);
    assert!(format_history(&h).starts_with("s: m0\n"));
}

#[test]
fn stored_message_is_the_last_line() {
    let contents: Vec<String> = (0..10).map(|i| format!("m{}", i)).collect();
    let mut h: Vec<Message> = contents.iter().map(|c| Message::new("s", "r", c)).collect();
    h = append_message(Some(h), Message::new("t", "r", "new"));
    let text = format_history(&h);
    assert!(text.ends_with("t: new\n"));
    assert!(text.starts_with("s: m1\n"));
    assert_eq!(text.lines().count(), 10);
}

#[test]
fn stores_one_after_another_read_back_in_order() {
    let contents: Vec<String> = (0..13).map(|i| format!("m{}", i)).collect();
    let mut stored: Option<Vec<Message>> = None;
    for c in contents.iter() {
        stored = Some(append_message(stored, Message::new("s", "r", c)));
    }
    let h = stored.unwrap();
    assert_eq!(h.len(), 13);
    let expected: String = (3..13).map(|i| format!("s: m{}\n", i)).collect();
    assert_eq!(format_history(&h), expected);

    let one = append_message(None, Message::new("a", "b", "only"));
    assert_eq!(format_history(&one), "a: only\n");
}
