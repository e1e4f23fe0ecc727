//! A small terminal chat system: the message type and its classification,
//! the conversation history, and the decisions of the routing server and of
//! the chat client. Transport, storage and terminal drawing live outside
//! this library; it is handed plain values and answers with plain values.

pub mod text;
pub mod client;
pub mod history;
pub mod server;
pub mod types;
