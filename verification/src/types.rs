//! The message that travels between clients and the server, and the way its
//! content is classified.

use vstd::prelude::*;
use vstd::string::*;

use crate::text::str_eq;

verus! {

/// One chat message: who sent it, to whom, and what it says.
///
/// A message whose `receiver` is empty announces the sender to the server;
/// a message whose `sender` is empty is one that could not be read.
#[derive(Debug, Clone, Copy)]
pub struct Message<'a> {
    pub sender: &'a str,
    pub receiver: &'a str,
    pub content: &'a str,
}

impl<'a> Message<'a> {
    /// Builds a message from its three parts.
    pub fn new(sender: &'a str, reciever: &'a str, content: &'a str) -> (m: Message<'a>)
        ensures
            m.sender == sender,
            m.receiver == reciever,
            m.content == content,
    {
        Message { sender, receiver: reciever, content }
    }
}

/// What a line of chat text asks for.
#[derive(Debug, Clone, Copy, PartialEq, Eq, Structural)]
pub enum MessageType {
    /// `!name`: talk to `name` from now on.
    ChangeReceiver,
    /// `!history`: show the conversation so far.
    History,
    /// Anything else: a message to the current receiver.
    SendMessage,
}

/// The command that asks for the history.
pub open spec fn history_command() -> Seq<char> {
    seq!['!', 'h', 'i', 's', 't', 'o', 'r', 'y']
}

/// The classification of a non-empty line of chat text.
pub open spec fn message_type_of(s: Seq<char>) -> MessageType {
    if s == history_command() {
        MessageType::History
    } else if s.len() > 0 && s[0] == '!' {
        MessageType::ChangeReceiver
    } else {
        MessageType::SendMessage
    }
}

/// Classifies a line of chat text: exactly `!history` asks for the history,
/// any other line that starts with `!` changes the receiver, and everything
/// else is a message.
pub fn get_message_type(message: &str) -> (t: MessageType)
    requires
        message@.len() > 0,
    ensures
        t == message_type_of(message@),
{
    proof {
        reveal_strlit("!history");
    }
    assert("!history"@ =~= history_command());
    if str_eq(message, "!history") {
        MessageType::History
    } else {
        if message.get_char(0) == '!' {
            MessageType::ChangeReceiver
        } else {
            MessageType::SendMessage
        }
    }
}

/// What a non-empty line asks for depends only on whether it is exactly
/// `!history` and on whether its first character is `!`.
pub proof fn lemma_message_type_of(s: Seq<char>)
    requires
        s.len() > 0,
    ensures
        (message_type_of(s) == MessageType::History) <==> s =~= seq![
            '!',
            'h',
            'i',
            's',
            't',
            'o',
            'r',
            'y',
        ],
        (message_type_of(s) == MessageType::ChangeReceiver) <==> (s[0] == '!' && !(s =~= seq![
            '!',
            'h',
            'i',
            's',
            't',
            'o',
            'r',
            'y',
        ])),
        (message_type_of(s) == MessageType::SendMessage) <==> s[0] != '!',
{
}

} // verus!
