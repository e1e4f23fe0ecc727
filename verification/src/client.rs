//! The decisions of the chat client: what a line typed by the user does,
//! what a message from the server does, and the text the chat window shows.

use vstd::prelude::*;
use vstd::string::*;
use vstd::utf8::{char_is_scalar, encode_utf8};

use crate::text::{trim, trimmed};
use crate::text::lemma_trimmed_is_idempotent;
use crate::types::{get_message_type, history_command, message_type_of, Message, MessageType};

verus! {

/// A typed line is refused from this many bytes (UTF-8) on.
pub const MAX_INPUT_BYTES: usize = 400;

/// The receiver a client talks to until the user chooses one.
pub const DEFAULT_RECEIVER: &'static str = "Receiver";

/// What the transport and the terminal should do after a typed line.
#[derive(Debug)]
pub enum InputAction<'b> {
    /// The line is empty or too long: report it, and redraw nothing.
    Rejected,
    /// The receiver was changed: report the new one.
    ReceiverChanged,
    /// Send this text to the current receiver (see `Client::compose`).
    Send(&'b str),
}

/// The state of a chat client.
pub struct Client {
    sender: String,
    receiver: String,
    messages: Vec<String>,
}

/// The abstract state of a client: its own name, the name it writes to, and
/// the contents of the messages it has received, oldest first.
pub struct ClientView {
    pub sender: Seq<char>,
    pub receiver: Seq<char>,
    pub messages: Seq<Seq<char>>,
}

impl View for Client {
    type V = ClientView;

    closed spec fn view(&self) -> ClientView {
        ClientView {
            sender: self.sender@,
            receiver: self.receiver@,
            messages: self.messages@.map_values(|s: String| s@),
        }
    }
}

/// The length in bytes of the UTF-8 encoding of a text held in memory
/// (which never has more than `usize::MAX` bytes).
pub open spec fn byte_len(line: Seq<char>) -> usize {
    encode_utf8(line).len() as usize
}

/// The number of bytes UTF-8 takes for a character, by its code point:
/// one up to U+007F, two up to U+07FF, three up to U+FFFF, four above.
pub open spec fn utf8_width(c: char) -> int {
    let u = c as u32;
    if u <= 0x7f {
        1
    } else if u <= 0x7ff {
        2
    } else if u <= 0xffff {
        3
    } else {
        4
    }
}

/// The sum of the UTF-8 widths of the characters of `line`.
pub open spec fn utf8_length(line: Seq<char>) -> int
    decreases line.len(),
{
    if line.len() == 0 {
        0
    } else {
        utf8_width(line[0]) + utf8_length(line.drop_first())
    }
}

/// The UTF-8 encoding of a text takes, for each character, the number of
/// bytes its code point calls for.
pub proof fn lemma_encoding_length(line: Seq<char>)
    ensures
        encode_utf8(line).len() == utf8_length(line),
    decreases line.len(),
{
    if line.len() > 0 {
        char_is_scalar(line[0]);
        lemma_encoding_length(line.drop_first());
    }
}

/// The UTF-8 length of two texts one after the other is the sum of their
/// lengths.
pub proof fn lemma_utf8_length_concat(s: Seq<char>, t: Seq<char>)
    ensures
        utf8_length(s + t) == utf8_length(s) + utf8_length(t),
    decreases s.len(),
{
    if s.len() > 0 {
        assert((s + t).drop_first() =~= s.drop_first() + t);
        lemma_utf8_length_concat(s.drop_first(), t);
    } else {
        assert(s + t =~= t);
    }
}

/// `byte_len` is the UTF-8 length of the text, and a line is refused exactly
/// when it is empty or its UTF-8 length is `MAX_INPUT_BYTES` or more.
pub proof fn lemma_byte_len_is_utf8_length(line: Seq<char>)
    requires
        utf8_length(line) <= usize::MAX,
    ensures
        byte_len(line) == utf8_length(line),
        input_refused(line) <==> (line.len() == 0 || utf8_length(line) >= 400),
{
    lemma_encoding_length(line);
}

/// Whether a trimmed line is refused: it is empty, or it takes
/// `MAX_INPUT_BYTES` bytes or more in UTF-8.
pub open spec fn input_refused(line: Seq<char>) -> bool {
    line.len() == 0 || byte_len(line) >= MAX_INPUT_BYTES
}

/// The lines a client hands out for sending: not empty, under
/// `MAX_INPUT_BYTES` bytes, their own trim, and not a change of receiver
/// (a line starting with `!` is exactly `!history`).
pub open spec fn sendable_line(line: Seq<char>) -> bool {
    &&& !input_refused(line)
    &&& trimmed(line) == line
    &&& message_type_of(line) != MessageType::ChangeReceiver
    &&& (line[0] == '!' ==> line == history_command())
}

/// The text of the chat window: each received message followed by a line
/// break.
pub open spec fn screen_of(messages: Seq<Seq<char>>) -> Seq<char>
    decreases messages.len(),
{
    if messages.len() == 0 {
        Seq::empty()
    } else {
        screen_of(messages.drop_last()) + messages.last() + seq!['\n']
    }
}

impl Client {
    /// A client named `sender` that writes to `DEFAULT_RECEIVER` and has
    /// received nothing yet.
    pub fn new(sender: &str) -> (c: Client)
        ensures
            c@.sender == sender@,
            c@.receiver == DEFAULT_RECEIVER@,
            c@.messages == Seq::<Seq<char>>::empty(),
    {
        let c = Client {
            sender: String::from_str(sender),
            receiver: String::from_str(DEFAULT_RECEIVER),
            messages: Vec::new(),
        };
        assert(c@.messages =~= Seq::<Seq<char>>::empty());
        c
    }

    /// The client's own name.
    pub fn sender(&self) -> (s: &str)
        ensures
            s@ == self@.sender,
    {
        self.sender.as_str()
    }

    /// The name the client writes to.
    pub fn receiver(&self) -> (r: &str)
        ensures
            r@ == self@.receiver,
    {
        self.receiver.as_str()
    }

    /// The message that introduces the client to the server: it has the
    /// client's name as sender, and no receiver and no content.
    pub fn initial_message(&self) -> (m: Message<'_>)
        ensures
            m.sender@ == self@.sender,
            m.receiver@.len() == 0,
            m.content@.len() == 0,
    {
        proof {
            reveal_strlit("");
        }
        Message::new(self.sender.as_str(), "", "")
    }

    /// The message that carries `content` from this client to its current
    /// receiver.
    pub fn compose<'c>(&'c self, content: &'c str) -> (m: Message<'c>)
        ensures
            m.sender@ == self@.sender,
            m.receiver@ == self@.receiver,
            m.content == content,
    {
        Message::new(self.sender.as_str(), self.receiver.as_str(), content)
    }

    /// Handles a line typed by the user. The line is trimmed of white space
    /// first. A refused line (see `input_refused`) changes nothing. A line
    /// `!name` makes `name` the receiver. Any other line is to be sent, as
    /// it is after trimming, to the current receiver.
    pub fn handle_input<'b>(&mut self, user_input: &'b str) -> (action: InputAction<'b>)
        ensures
            input_refused(trimmed(user_input@)) ==> {
                &&& action is Rejected
                &&& final(self)@ == old(self)@
            },
            !input_refused(trimmed(user_input@)) && message_type_of(trimmed(user_input@))
                == MessageType::ChangeReceiver ==> {
                &&& action is ReceiverChanged
                &&& final(self)@.receiver == trimmed(user_input@).drop_first()
                &&& final(self)@.sender == old(self)@.sender
                &&& final(self)@.messages == old(self)@.messages
            },
            !input_refused(trimmed(user_input@)) && message_type_of(trimmed(user_input@))
                != MessageType::ChangeReceiver ==> {
                &&& action matches InputAction::Send(line) && line@ == trimmed(user_input@)
                &&& final(self)@ == old(self)@
            },
            action matches InputAction::Send(line) ==> sendable_line(line@),
    {
        let cleaned_str = trim(user_input);
        if cleaned_str.len() >= MAX_INPUT_BYTES || cleaned_str.is_empty() {
            return InputAction::Rejected;
        }
        match get_message_type(cleaned_str) {
            MessageType::ChangeReceiver => {
                let name = cleaned_str.substring_char(1, cleaned_str.unicode_len());
                self.receiver = String::from_str(name);
                assert(name@ =~= cleaned_str@.drop_first());
                InputAction::ReceiverChanged
            },
            _ => {
                proof {
                    lemma_trimmed_is_idempotent(user_input@);
                }
                InputAction::Send(cleaned_str)
            },
        }
    }

    /// Handles a message from the server: its content joins the received
    /// messages.
    pub fn receive_message(&mut self, message: Message)
        ensures
            final(self)@.messages == old(self)@.messages.push(message.content@),
            final(self)@.sender == old(self)@.sender,
            final(self)@.receiver == old(self)@.receiver,
    {
        let content = String::from_str(message.content);
        let ghost before = self.messages@;
        self.messages.push(content);
        assert(self.messages@.map_values(|s: String| s@) =~= before.map_values(|s: String| s@).push(
            message.content@,
        ));
    }

    /// How many messages the client has received.
    pub fn message_count(&self) -> (n: usize)
        ensures
            n == self@.messages.len(),
    {
        self.messages.len()
    }

    /// The lines a client hands out for sending: not empty, under
/// `MAX_INPUT_BYTES` bytes, their own trim, and not a change of receiver
/// (a line starting with `!` is exactly `!history`).
pub open spec fn sendable_line(line: Seq<char>) -> bool {
    &&& !input_refused(line)
    &&& trimmed(line) == line
    &&& message_type_of(line) != MessageType::ChangeReceiver
    &&& (line[0] == '!' ==> line == history_command())
}

/// The text of the chat window (see `screen_of`).
    pub fn screen_text(&self) -> (text: String)
        ensures
            text@ == screen_of(self@.messages),
    {
        let ghost all = self@.messages;
        let mut messages = String::new();
        let mut x: usize = 0;
        while x < self.messages.len()
            invariant
                all == self.messages@.map_values(|s: String| s@),
                x <= self.messages.len(),
                messages@ == screen_of(all.take(x as int)),
            decreases self.messages.len() - x,
        {
            proof {
                reveal_strlit("\n");
            }
            messages.append(self.messages[x].as_str());
            messages.append("\n");
            assert(all.take(x + 1).drop_last() =~= all.take(x as int));
            assert("\n"@ =~= seq!['\n']);
            assert(messages@ =~= screen_of(all.take(x + 1)));
            x = x + 1;
        }
        assert(all.take(self.messages.len() as int) =~= all);
        messages
    }
}

/// Receiving a message adds exactly its content and a line break at the end
/// of the chat window.
pub proof fn lemma_receive_extends_screen(messages: Seq<Seq<char>>, content: Seq<char>)
    ensures
        screen_of(messages.push(content)) == screen_of(messages) + content + seq!['\n'],
{
    assert(messages.push(content).drop_last() =~= messages);
}

} // verus!
