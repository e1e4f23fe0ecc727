use chat::server::{is_unprocessable, Server, ServerAction, SERVER_NAME, UNKNOWN_RECEIVER_NOTICE};
use chat::types::Message;

#[test]
fn unreadable_message_is_ignored() {
    let mut s: Server<u32> = Server::new();
    let a = s.process_message(Message::new("", "bob", "hi"), 7);
    assert!(matches!(a, ServerAction::Ignore));
    assert_eq!(s.endpoint_of(""), None);
}

#[test]
fn announcement_registers_the_sender() {
    let mut s: Server<u32> = Server::new();
    let a = s.process_message(Message::new("alice", "", ""), 1);
    assert!(matches!(a, ServerAction::Ignore));
    assert_eq!(s.endpoint_of("alice"), Some(1));
    assert_eq!(s.endpoint_of("bob"), None);
}

#[test]
fn message_to_known_receiver_is_forwarded() {
    let mut s: Server<u32> = Server::new();
    s.process_message(Message::new("alice", "", ""), 1);
    s.process_message(Message::new("bob", "", ""), 2);
    let a = s.process_message(Message::new("alice", "bob", "hello"), 1);
    assert!(matches!(a, ServerAction::Forward(2)));
}

#[test]
fn message_to_unknown_receiver_is_answered() {
    let mut s: Server<u32> = Server::new();
    let a = s.process_message(Message::new("alice", "carol", "hello"), 5);
    match a {
        ServerAction::Reply(to, notice) => {
            assert_eq!(to, 5);
            assert_eq!(notice.sender, "Server");
            assert_eq!(notice.receiver, "alice");
            assert_eq!(notice.content, "No reciever with that name connected");
        }
        _ => panic!("expected a reply"),
    }
    assert_eq!(SERVER_NAME, "Server");
    assert_eq!(UNKNOWN_RECEIVER_NOTICE, "No reciever with that name connected");
}

#[test]
fn change_of_receiver_is_not_sent_on() {
    let mut s: Server<u32> = Server::new();
    s.process_message(Message::new("bob", "", ""), 2);
    let a = s.process_message(Message::new("alice", "bob", "!carol"), 1);
    assert!(matches!(a, ServerAction::Ignore));
    assert_eq!(s.endpoint_of("alice"), Some(1));
}

#[test]
fn first_endpoint_of_a_name_is_kept() {
    let mut s: Server<u32> = Server::new();
    s.process_message(Message::new("alice", "", ""), 1);
    s.process_message(Message::new("alice", "", ""), 9);
    s.process_message(Message::new("bob", "", ""), 2);
    let a = s.process_message(Message::new("bob", "alice", "hey"), 2);
    assert!(matches!(a, ServerAction::Forward(1)));
    assert_eq!(s.endpoint_of("alice"), Some(1));
}

#[test]
fn send_message_routes_directly() {
    let mut s: Server<u32> = Server::new();
    s.process_message(Message::new("alice", "", ""), 1);
    assert!(matches!(s.send_message(Message::new("alice", "alice", "me")), ServerAction::Forward(1)));
    assert!(matches!(s.send_message(Message::new("alice", "zed", "x")), ServerAction::Reply(1, _)));
}

#[test]
fn unprocessable_messages_are_recognised() {
    assert!(is_unprocessable(Message::new("a", "b", "")));
    assert!(is_unprocessable(Message::new("a", "b", "!history")));
    assert!(!is_unprocessable(Message::new("a", "", "")));
    assert!(!is_unprocessable(Message::new("", "b", "")));
    assert!(!is_unprocessable(Message::new("a", "b", "!historyx")));
    assert!(!is_unprocessable(Message::new("a", "b", "hi")));
}

#[test]
fn client_lines_reach_the_receiver() {
    let mut alice = chat::client::Client::new("alice");
    let bob = chat::client::Client::new("bob");
    let mut s: Server<u32> = Server::new();
    assert!(matches!(s.process_message(alice.initial_message(), 1), ServerAction::Ignore));
    assert!(matches!(s.process_message(bob.initial_message(), 2), ServerAction::Ignore));
    assert!(matches!(alice.handle_input("!bob"), chat::client::InputAction::ReceiverChanged));
    match alice.handle_input("  hello bob ") {
        chat::client::InputAction::Send(line) => {
            let m = alice.compose(line);
            assert!(!is_unprocessable(m));
            assert!(matches!(s.process_message(m, 1), ServerAction::Forward(2)));
        }
        _ => panic!("expected a line to send"),
    }
}

#[test]
fn known_receiver_is_reached_from_unknown_sender() {
    let mut s: Server<u32> = Server::new();
    s.process_message(Message::new("bob", "", ""), 2);
    assert!(matches!(s.send_message(Message::new("carol", "bob", "hi")), ServerAction::Forward(2)));
    assert_eq!(s.endpoint_of("carol"), None);
}

#[test]
fn table_grows_by_at_most_one_name() {
    let mut s: Server<u32> = Server::new();
    s.process_message(Message::new("alice", "bob", "hi"), 1);
    assert_eq!(s.endpoint_of("alice"), Some(1));
    assert_eq!(s.endpoint_of("bob"), None);
    s.process_message(Message::new("alice", "", ""), 3);
    assert_eq!(s.endpoint_of("alice"), Some(1));
}
