//! The logic of a WebSocket chat server and its console client.
//!
//! `message` holds the wire messages and the texts the server composes,
//! `user` the connected users, tokens and password checks, `server` the
//! shared registries of peers and tokens, `handle_msg` the server's answer
//! to one incoming message, and `client` the console client's decisions.
pub mod message;
pub mod user;
pub mod server;
pub mod handle_msg;
pub mod client;
