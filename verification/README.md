# chat_server

A WebSocket chat server with group and private messages and password
logins, and its console client. The decisions are a library verified with
Verus; the program around it does the networking.

- `src/message.rs`: the messages, their views, and the texts the server composes.
- `src/user.rs`: users, session tokens with an expiry, password hashing and
  the check against the built-in accounts (`bcrypt`, `uuid`).
- `src/server.rs`: the registry of peers and session tokens (two `dashmap`s),
  re-registering a user after login, and names for users not logged in (`rand`).
- `src/handle_msg.rs`: the answer to one message from one user.
- `src/client.rs`: the client's login, commands and display of messages.
- `app/`: the server and client programs (sockets, tasks, JSON with `serde`).
- `tests/`: tests of the library.
