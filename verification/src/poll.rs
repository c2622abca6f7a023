//! What an I/O driver reports back to a connection handler: the outcome of
//! polling a socket stream, a timer or a sink, and what a poll returns.

use vstd::prelude::*;

verus! {

#[verifier::external_type_specification]
#[verifier::external_body]
pub struct ExIoError(std::io::Error);

#[verifier::external_type_specification]
#[verifier::external_body]
pub struct ExTimerError(tokio::timer::Error);

/// Whether a poll finished with a value or must be retried later.
#[derive(Debug, PartialEq, Eq)]
pub enum Progress<T> {
    Ready(T),
    NotReady,
}

/// The outcome of polling a stream of frames read from a socket.
#[derive(Debug)]
pub enum StreamEvent<T> {
    /// A frame arrived.
    Item(T),
    /// The peer closed the socket.
    Closed,
    /// Nothing has arrived yet.
    NotReady,
    /// Reading the socket failed.
    Failed(std::io::Error),
}

/// The outcome of polling a one-shot timer.
#[derive(Debug)]
pub enum TimerEvent {
    Elapsed,
    NotReady,
    Failed(tokio::timer::Error),
}

/// The outcome of polling a periodic timer.
#[derive(Debug)]
pub enum TickEvent {
    /// A period ended.
    Tick,
    /// The timer will never tick again.
    Ended,
    NotReady,
    Failed(tokio::timer::Error),
}

/// The outcome of flushing the frames queued on a socket.
#[derive(Debug)]
pub enum FlushEvent {
    Flushed,
    NotReady,
    Failed(std::io::Error),
}

} // verus!
