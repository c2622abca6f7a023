# tokio_examples

Small tokio servers and clients (a chat server with a binary packet codec,
line servers with greetings and keepalive, a pinging client, a raw byte
server), with their logic verified by Verus.

- `src/` is the verified library:
  - `wire.rs`: bincode's encoding of `u32`, `bool` and strings, as spec
    functions, and the calls into bincode that read and write them;
  - `buffer.rs`: the `bytes::BytesMut` buffers, seen as byte sequences;
  - `codec.rs`: the chat packets, their wire format, the decoder and
    encoder, and the round-trip and framing lemmas;
  - `poll.rs`: what a driver reports from sockets and timers;
  - `client_manager.rs`, `keepalive_server.rs`, `greetings_server.rs`,
    `pinger.rs`, `byte_stream.rs`: each connection handler as a state
    machine (`step` takes an event, returns a log line and a command),
    with its transition relation and laws.
- `app/` runs the programs: it owns the sockets and timers, performs the
  commands of the state machines and reports the outcomes back
  (`app chat_server`, `app with_greetings_server`, ...).
- `tests/` runs the library on concrete values.
