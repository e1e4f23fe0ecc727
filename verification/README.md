# chat

A terminal chat: a server that routes messages between named clients, and a
client that reads lines from the user and shows the messages it receives.

- `src/` is the verified library: the message type and how a line of text is
  classified (`types`), the conversation history and its text (`history`),
  the routing decisions of the server (`server`), the decisions of the client
  (`client`), and text helpers (`text`).
- `app/` is the program around it: networking (message-io), the history
  database (sled), the wire encoding (bincode/serde), reading standard input
  and drawing the terminal (tui/crossterm).
- `tests/` runs the library on concrete values.
