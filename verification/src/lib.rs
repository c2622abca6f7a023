//! Verified core of a set of small tokio networking programs: the packet
//! codec of the chat server, and the decision logic of every connection
//! handler, written as state machines that an I/O driver runs.

pub mod wire;
pub mod buffer;
pub mod codec;
pub mod poll;
pub mod client_manager;
pub mod keepalive_server;
pub mod greetings_server;
pub mod pinger;
pub mod byte_stream;
