//! The routing decisions of the chat server.
//!
//! The server keeps a table from client names to the endpoints they were
//! first seen on. Each message it is handed either registers its sender,
//! or is forwarded to the endpoint of its receiver, or, when the receiver is
//! unknown, is answered with a notice to the sender. The endpoint type is
//! whatever the transport uses to address a peer.

use vstd::prelude::*;
use vstd::hash_map::StringHashMap;
use vstd::string::*;

use crate::client::input_refused;
use crate::text::str_eq;
use crate::types::{get_message_type, history_command, message_type_of, Message, MessageType};

verus! {

/// The sender of the notice that a receiver is unknown.
pub const SERVER_NAME: &'static str = "Server";

/// The content of the notice that a receiver is unknown.
pub const UNKNOWN_RECEIVER_NOTICE: &'static str = "No reciever with that name connected";

/// What the transport should do after a message was processed.
#[derive(Debug)]
pub enum ServerAction<'a, E> {
    /// Send nothing.
    Ignore,
    /// Send the bytes of the received message, unchanged, to this endpoint.
    Forward(E),
    /// Send this message to this endpoint.
    Reply(E, Message<'a>),
}

/// The routing table of the server.
#[verifier::reject_recursive_types(E)]
pub struct Server<E> {
    clients: StringHashMap<E>,
}

impl<E> Server<E> {
    /// The table of a server is finite: it only ever grows by one name at a
    /// time from an empty table.
    #[verifier::type_invariant]
    spec fn table_is_finite(self) -> bool {
        self.clients@.dom().finite()
    }
}

impl<E> View for Server<E> {
    type V = Map<Seq<char>, E>;

    closed spec fn view(&self) -> Map<Seq<char>, E> {
        self.clients@
    }
}

/// The messages the server cannot process: a message with a sender and a
/// receiver whose content is empty or asks for the history.
pub open spec fn unprocessable(m: Message) -> bool {
    &&& m.sender@.len() > 0
    &&& m.receiver@.len() > 0
    &&& (m.content@.len() == 0 || m.content@ == history_command())
}

/// Whether the server cannot process a message (see `unprocessable`).
pub fn is_unprocessable(message: Message) -> (r: bool)
    ensures
        r == unprocessable(message),
{
    proof {
        reveal_strlit("!history");
    }
    assert("!history"@ =~= history_command());
    !message.sender.is_empty() && !message.receiver.is_empty() && (message.content.is_empty()
        || str_eq(message.content, "!history"))
}

/// The table after a message from `m.sender` arrived on `endpoint`: a name
/// seen for the first time is registered with that endpoint; a known name
/// keeps the endpoint it was registered with.
pub open spec fn register_sender<E>(clients: Map<Seq<char>, E>, m: Message, endpoint: E) -> Map<
    Seq<char>,
    E,
> {
    if m.sender@.len() == 0 || clients.contains_key(m.sender@) {
        clients
    } else {
        clients.insert(m.sender@, endpoint)
    }
}

/// Whether `action` is the routing of `m` by a server with table `clients`,
/// in which the sender is registered: to the receiver's endpoint when the
/// receiver is known, else a notice from the server back to the sender.
pub open spec fn is_routing<E>(clients: Map<Seq<char>, E>, m: Message, action: ServerAction<E>) -> bool {
    if clients.contains_key(m.receiver@) {
        action == ServerAction::<E>::Forward(clients[m.receiver@])
    } else {
        match action {
            ServerAction::Reply(to, notice) => {
                &&& to == clients[m.sender@]
                &&& notice.sender@ == SERVER_NAME@
                &&& notice.receiver@ == m.sender@
                &&& notice.content@ == UNKNOWN_RECEIVER_NOTICE@
            },
            _ => false,
        }
    }
}

impl<E: Copy> Server<E> {
    /// A server that knows no client yet.
    pub fn new() -> (s: Server<E>)
        ensures
            s@ == Map::<Seq<char>, E>::empty(),
            s@.dom().finite(),
    {
        Server { clients: StringHashMap::new() }
    }

    /// The endpoint a client name is registered with, if it is.
    pub fn endpoint_of(&self, name: &str) -> (e: Option<E>)
        ensures
            e == (if self@.contains_key(name@) {
                Some(self@[name@])
            } else {
                None
            }),
    {
        match self.clients.get(name) {
            Some(e) => Some(*e),
            None => None,
        }
    }

    /// Processes a message that arrived on `endpoint`.
    ///
    /// A message without a sender could not be read and is ignored. Any other
    /// message registers its sender (see `register_sender`). A message
    /// without a receiver only announces its sender, and a message whose
    /// content starts with `!` only changes the sender's receiver: neither is
    /// sent on. Every other message is routed (see `is_routing`).
    pub fn process_message<'a>(&mut self, message: Message<'a>, endpoint: E) -> (action:
        ServerAction<'a, E>)
        requires
            !unprocessable(message),
        ensures
            final(self)@ == register_sender(old(self)@, message, endpoint),
            old(self)@.submap_of(final(self)@),
            final(self)@.dom().finite(),
            final(self)@.len() <= old(self)@.len() + 1,
            message.sender@.len() == 0 ==> action == ServerAction::<'a, E>::Ignore,
            message.sender@.len() > 0 && message.receiver@.len() == 0 ==> action
                == ServerAction::<'a, E>::Ignore,
            message.sender@.len() > 0 && message.receiver@.len() > 0 && message_type_of(
                message.content@,
            ) == MessageType::ChangeReceiver ==> action == ServerAction::<'a, E>::Ignore,
            message.sender@.len() > 0 && message.receiver@.len() > 0 && message_type_of(
                message.content@,
            ) == MessageType::SendMessage ==> is_routing(final(self)@, message, action),
    {
        proof {
            use_type_invariant(&*self);
            lemma_register_grows_table(old(self)@, message, endpoint);
        }
        if message.sender.is_empty() {
            return ServerAction::Ignore;
        }
        if !self.clients.contains_key(message.sender) {
            let mut clients = StringHashMap::new();
            std::mem::swap(&mut clients, &mut self.clients);
            clients.insert(String::from_str(message.sender), endpoint);
            self.clients = clients;
        }
        if message.receiver.is_empty() {
            return ServerAction::Ignore;
        }
        match get_message_type(message.content) {
            MessageType::ChangeReceiver => ServerAction::Ignore,
            MessageType::History => {
                // excluded by the precondition
                proof {
                    assert(false);
                }
                ServerAction::Ignore
            },
            MessageType::SendMessage => self.send_message(message),
        }
    }

    /// Routes a message whose receiver or sender is registered (see
    /// `is_routing`).
    pub fn send_message<'a>(&self, message: Message<'a>) -> (action: ServerAction<'a, E>)
        requires
            self@.contains_key(message.receiver@) || self@.contains_key(message.sender@),
        ensures
            is_routing(self@, message, action),
    {
        match self.clients.get(message.receiver) {
            Some(receiver_endpt) => ServerAction::Forward(*receiver_endpt),
            None => {
                let sender_endpt = match self.clients.get(message.sender) {
                    Some(e) => *e,
                    None => {
                        proof {
                            assert(false);
                        }
                        return ServerAction::Ignore;
                    },
                };
                let notice = Message::new(SERVER_NAME, message.sender, UNKNOWN_RECEIVER_NOTICE);
                ServerAction::Reply(sender_endpt, notice)
            },
        }
    }
}

/// Once a name is registered, no later message changes its endpoint or
/// removes it.
pub proof fn lemma_registration_is_permanent<E>(
    clients: Map<Seq<char>, E>,
    m: Message,
    endpoint: E,
    name: Seq<char>,
)
    requires
        clients.contains_key(name),
    ensures
        register_sender(clients, m, endpoint).contains_key(name),
        register_sender(clients, m, endpoint)[name] == clients[name],
{
}

/// Processing a message never removes a name nor changes an endpoint, and a
/// finite table grows by at most one name.
pub proof fn lemma_register_grows_table<E>(clients: Map<Seq<char>, E>, m: Message, endpoint: E)
    ensures
        clients.submap_of(register_sender(clients, m, endpoint)),
        clients.dom().finite() ==> register_sender(clients, m, endpoint).dom().finite()
            && register_sender(clients, m, endpoint).len() <= clients.len() + 1,
{
    let after = register_sender(clients, m, endpoint);
    if clients.dom().finite() && !(m.sender@.len() == 0 || clients.contains_key(m.sender@)) {
        assert(after.dom() =~= clients.dom().insert(m.sender@));
    }
}

/// A name that has sent no message before is registered with the endpoint
/// its first message arrived on, and nothing else in the table changes.
pub proof fn lemma_first_message_registers<E>(clients: Map<Seq<char>, E>, m: Message, endpoint: E)
    requires
        m.sender@.len() > 0,
        !clients.contains_key(m.sender@),
    ensures
        register_sender(clients, m, endpoint).contains_key(m.sender@),
        register_sender(clients, m, endpoint)[m.sender@] == endpoint,
        register_sender(clients, m, endpoint).remove(m.sender@) == clients,
{
    assert(clients.insert(m.sender@, endpoint).remove(m.sender@) =~= clients);
}

/// Every line that a client sends as a message (see
/// `crate::client::Client::handle_input`), other than `!history`, makes a
/// message the server can process, whoever sends it to whom.
pub proof fn lemma_sent_lines_are_processable(line: Seq<char>, m: Message)
    requires
        !input_refused(line),
        message_type_of(line) == MessageType::SendMessage,
        m.content@ == line,
    ensures
        !unprocessable(m),
{
}

/// Routing depends only on the table and on the two names of the message:
/// a known receiver gets the message forwarded to its endpoint; otherwise
/// the sender gets the notice from `Server` on its endpoint. The content of
/// the message plays no part.
pub proof fn lemma_routing_by_names<E>(
    clients: Map<Seq<char>, E>,
    m: Message,
    other: Message,
    action: ServerAction<E>,
)
    requires
        other.sender@ == m.sender@,
        other.receiver@ == m.receiver@,
    ensures
        clients.contains_key(m.receiver@) ==> (is_routing(clients, m, action) <==> action
            == ServerAction::<E>::Forward(clients[m.receiver@])),
        !clients.contains_key(m.receiver@) ==> (is_routing(clients, m, action) <==> (
        action matches ServerAction::Reply(to, notice) && to == clients[m.sender@]
            && notice.sender@ == "Server"@ && notice.receiver@ == m.sender@ && notice.content@
            == "No reciever with that name connected"@)),
        is_routing(clients, m, action) <==> is_routing(clients, other, action),
{
}

} // verus!
