use chat::types::{get_message_type, Message, MessageType};

#[test]
fn message_new_keeps_its_parts() {
    let m = Message::new("alice", "bob", "hello");
    assert_eq!(m.sender, "alice");
    assert_eq!(m.receiver, "bob");
    assert_eq!(m.content, "hello");
}

#[test]
fn history_command_is_recognised() {
    assert_eq!(get_message_type("!history"), MessageType::History);
}

#[test]
fn bang_prefix_changes_receiver() {
    assert_eq!(get_message_type("!bob"), MessageType::ChangeReceiver);
    assert_eq!(get_message_type("!"), MessageType::ChangeReceiver);
    assert_eq!(get_message_type("!historyx"), MessageType::ChangeReceiver);
    assert_eq!(get_message_type("!histor"), MessageType::ChangeReceiver);
}

#[test]
fn other_text_is_a_message() {
    assert_eq!(get_message_type("hello"), MessageType::SendMessage);
    assert_eq!(get_message_type("history"), MessageType::SendMessage);
    assert_eq!(get_message_type(" !bob"), MessageType::SendMessage);
    assert_eq!(get_message_type("é!"), MessageType::SendMessage);
}

#[test]
fn str_eq_compares_characters() {
    assert!(chat::text::str_eq("abc", "abc"));
    assert!(!chat::text::str_eq("abc", "abd"));
    assert!(!chat::text::str_eq("abc", "ab"));
    assert!(chat::text::str_eq("", ""));
    assert!(chat::text::str_eq("héllo", "héllo"));
}
