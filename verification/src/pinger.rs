//! The client that prints what the server sends and, on each period of an
//! interval timer, queues a "Ping" line, flushing the socket on every
//! poll. It ends when the server closes the socket.
//!
//! The pinger is a state machine driven as in `client_manager`.

use crate::poll::{FlushEvent, Progress, StreamEvent, TickEvent};
use vstd::prelude::*;

verus! {

/// What went wrong with the pinger.
#[derive(Debug)]
pub enum PingerError {
    Socket(std::io::Error),
    Timer(tokio::timer::Error),
}

impl std::convert::From<tokio::timer::Error> for PingerError {
    fn from(data: tokio::timer::Error) -> (r: Self) {
        PingerError::Timer(data)
    }
}

impl vstd::std_specs::convert::FromSpecImpl<tokio::timer::Error> for PingerError {
    open spec fn obeys_from_spec() -> bool {
        true
    }

    open spec fn from_spec(data: tokio::timer::Error) -> Self {
        PingerError::Timer(data)
    }
}

impl std::convert::From<std::io::Error> for PingerError {
    fn from(data: std::io::Error) -> (r: Self) {
        PingerError::Socket(data)
    }
}

impl vstd::std_specs::convert::FromSpecImpl<std::io::Error> for PingerError {
    open spec fn obeys_from_spec() -> bool {
        true
    }

    open spec fn from_spec(data: std::io::Error) -> Self {
        PingerError::Socket(data)
    }
}

/// The line sent on each tick.
pub open spec fn ping_line() -> Seq<char> {
    "Ping"@
}

/// Where the pinger is within a poll.
pub enum PingerStage {
    Waiting,
    PollingStream,
    PollingInterval,
    /// The driver is queueing a ping.
    Queueing,
    /// The driver polls the interval once more after a ping, so that the
    /// task is woken at the next tick.
    Repolling,
    Flushing,
    Done,
}

pub struct Pinger {
    pub stage: PingerStage,
}

pub enum PingerEvent {
    Polled,
    Stream(StreamEvent<String>),
    Interval(TickEvent),
    Queued(Result<(), std::io::Error>),
    Flush(FlushEvent),
}

pub enum PingerCommand {
    PollStream,
    PollInterval,
    /// Queue this line on the stream.
    Send(String),
    /// Flush the stream.
    Flush,
    Return(Result<Progress<()>, PingerError>),
}

pub enum PingerNotice {
    ServerSaid(String),
    SocketClosed,
    SendingPing,
    Flushed,
}

pub struct PingerStep {
    pub notice: Option<PingerNotice>,
    pub command: PingerCommand,
}

impl Pinger {
    pub fn new() -> (p: Pinger)
        ensures
            p.stage is Waiting,
    {
        Pinger { stage: PingerStage::Waiting }
    }

    pub open spec fn accepts(&self, event: PingerEvent) -> bool {
        match self.stage {
            PingerStage::Waiting => event is Polled,
            PingerStage::PollingStream => event is Stream,
            PingerStage::PollingInterval => event is Interval,
            PingerStage::Queueing => event is Queued,
            PingerStage::Repolling => event is Interval,
            PingerStage::Flushing => event is Flush,
            PingerStage::Done => false,
        }
    }

    /// Whether `event` is one that `step` takes now.
    pub fn expects(&self, event: &PingerEvent) -> (r: bool)
        ensures
            r == self.accepts(*event),
    {
        match (&self.stage, event) {
            (PingerStage::Waiting, PingerEvent::Polled) => true,
            (PingerStage::PollingStream, PingerEvent::Stream(_)) => true,
            (PingerStage::PollingInterval, PingerEvent::Interval(_)) => true,
            (PingerStage::Queueing, PingerEvent::Queued(_)) => true,
            (PingerStage::Repolling, PingerEvent::Interval(_)) => true,
            (PingerStage::Flushing, PingerEvent::Flush(_)) => true,
            _ => false,
        }
    }

    /// The pinger `post` and its answer `out` after `pre` takes `event`.
    pub open spec fn transition(pre: Pinger, event: PingerEvent, post: Pinger, out: PingerStep) -> bool {
        match (pre.stage, event) {
            (PingerStage::Waiting, PingerEvent::Polled) => {
                post.stage is PollingStream && out.notice is None && out.command is PollStream
            },
            (PingerStage::PollingStream, PingerEvent::Stream(StreamEvent::Item(line))) => {
                &&& post.stage is PollingStream && out.command is PollStream
                &&& out.notice == Some(PingerNotice::ServerSaid(line))
            },
            (PingerStage::PollingStream, PingerEvent::Stream(StreamEvent::Closed)) => {
                &&& post.stage is Done && out.notice == Some(PingerNotice::SocketClosed)
                &&& out.command == PingerCommand::Return(Ok(Progress::Ready(())))
            },
            (PingerStage::PollingStream, PingerEvent::Stream(StreamEvent::Failed(e))) => {
                &&& post.stage is Done && out.notice is None
                &&& out.command == PingerCommand::Return(Err(PingerError::Socket(e)))
            },
            (PingerStage::PollingStream, PingerEvent::Stream(StreamEvent::NotReady)) => {
                post.stage is PollingInterval && out.notice is None && out.command is PollInterval
            },
            (PingerStage::PollingInterval, PingerEvent::Interval(TickEvent::Tick)) => {
                &&& post.stage is Queueing && out.notice == Some(PingerNotice::SendingPing)
                &&& out.command matches PingerCommand::Send(line) && line@ == ping_line()
            },
            (PingerStage::PollingInterval, PingerEvent::Interval(TickEvent::Failed(e))) => {
                &&& post.stage is Done && out.notice is None
                &&& out.command == PingerCommand::Return(Err(PingerError::Timer(e)))
            },
            (PingerStage::PollingInterval, PingerEvent::Interval(_)) => {
                post.stage is Flushing && out.notice is None && out.command is Flush
            },
            (PingerStage::Queueing, PingerEvent::Queued(Ok(_))) => {
                post.stage is Repolling && out.notice is None && out.command is PollInterval
            },
            (PingerStage::Queueing, PingerEvent::Queued(Err(e))) => {
                &&& post.stage is Done && out.notice is None
                &&& out.command == PingerCommand::Return(Err(PingerError::Socket(e)))
            },
            (PingerStage::Repolling, PingerEvent::Interval(TickEvent::Failed(e))) => {
                &&& post.stage is Done && out.notice is None
                &&& out.command == PingerCommand::Return(Err(PingerError::Timer(e)))
            },
            (PingerStage::Repolling, PingerEvent::Interval(_)) => {
                post.stage is Flushing && out.notice is None && out.command is Flush
            },
            (PingerStage::Flushing, PingerEvent::Flush(FlushEvent::Flushed)) => {
                &&& post.stage is Waiting && out.notice == Some(PingerNotice::Flushed)
                &&& out.command == PingerCommand::Return(Ok(Progress::NotReady))
            },
            (PingerStage::Flushing, PingerEvent::Flush(FlushEvent::NotReady)) => {
                &&& post.stage is Waiting && out.notice is None
                &&& out.command == PingerCommand::Return(Ok(Progress::NotReady))
            },
            (PingerStage::Flushing, PingerEvent::Flush(FlushEvent::Failed(e))) => {
                &&& post.stage is Done && out.notice is None
                &&& out.command == PingerCommand::Return(Err(PingerError::Socket(e)))
            },
            _ => false,
        }
    }

    /// Takes the next event of a poll and says what to do next.
    pub fn step(&mut self, event: PingerEvent) -> (out: PingerStep)
        requires
            old(self).accepts(event),
        ensures
            Pinger::transition(*old(self), event, *final(self), out),
    {
        match (&self.stage, event) {
            (PingerStage::Waiting, PingerEvent::Polled) => {
                self.stage = PingerStage::PollingStream;
                PingerStep { notice: None, command: PingerCommand::PollStream }
            },
            (PingerStage::PollingStream, PingerEvent::Stream(polled)) => match polled {
                StreamEvent::Item(line) => PingerStep {
                    notice: Some(PingerNotice::ServerSaid(line)),
                    command: PingerCommand::PollStream,
                },
                StreamEvent::Closed => {
                    self.stage = PingerStage::Done;
                    PingerStep {
                        notice: Some(PingerNotice::SocketClosed),
                        command: PingerCommand::Return(Ok(Progress::Ready(()))),
                    }
                },
                StreamEvent::Failed(e) => {
                    self.stage = PingerStage::Done;
                    PingerStep { notice: None, command: PingerCommand::Return(Err(PingerError::from(e))) }
                },
                StreamEvent::NotReady => {
                    self.stage = PingerStage::PollingInterval;
                    PingerStep { notice: None, command: PingerCommand::PollInterval }
                },
            },
            (PingerStage::PollingInterval, PingerEvent::Interval(ticked)) => match ticked {
                TickEvent::Tick => {
                    self.stage = PingerStage::Queueing;
                    let line = String::from_str("Ping");
                    proof {
                        reveal_strlit("Ping");
                    }
                    PingerStep { notice: Some(PingerNotice::SendingPing), command: PingerCommand::Send(line) }
                },
                TickEvent::Failed(e) => {
                    self.stage = PingerStage::Done;
                    PingerStep { notice: None, command: PingerCommand::Return(Err(PingerError::from(e))) }
                },
                _ => {
                    self.stage = PingerStage::Flushing;
                    PingerStep { notice: None, command: PingerCommand::Flush }
                },
            },
            (PingerStage::Queueing, PingerEvent::Queued(queued)) => match queued {
                Ok(_) => {
                    self.stage = PingerStage::Repolling;
                    PingerStep { notice: None, command: PingerCommand::PollInterval }
                },
                Err(e) => {
                    self.stage = PingerStage::Done;
                    PingerStep { notice: None, command: PingerCommand::Return(Err(PingerError::from(e))) }
                },
            },
            (PingerStage::Repolling, PingerEvent::Interval(ticked)) => match ticked {
                TickEvent::Failed(e) => {
                    self.stage = PingerStage::Done;
                    PingerStep { notice: None, command: PingerCommand::Return(Err(PingerError::from(e))) }
                },
                _ => {
                    self.stage = PingerStage::Flushing;
                    PingerStep { notice: None, command: PingerCommand::Flush }
                },
            },
            (PingerStage::Flushing, PingerEvent::Flush(flushed)) => match flushed {
                FlushEvent::Flushed => {
                    self.stage = PingerStage::Waiting;
                    PingerStep {
                        notice: Some(PingerNotice::Flushed),
                        command: PingerCommand::Return(Ok(Progress::NotReady)),
                    }
                },
                FlushEvent::NotReady => {
                    self.stage = PingerStage::Waiting;
                    PingerStep { notice: None, command: PingerCommand::Return(Ok(Progress::NotReady)) }
                },
                FlushEvent::Failed(e) => {
                    self.stage = PingerStage::Done;
                    PingerStep { notice: None, command: PingerCommand::Return(Err(PingerError::from(e))) }
                },
            },
            _ => {
                proof {
                    assert(false);
                }
                PingerStep { notice: None, command: PingerCommand::PollStream }
            },
        }
    }
}


/// A ping is queued only when the interval has just ticked, and the
/// pinger ends without error exactly when the server closed the socket.
pub proof fn lemma_pinger_pings_on_ticks(pre: Pinger, event: PingerEvent, post: Pinger, out: PingerStep)
    requires
        Pinger::transition(pre, event, post, out),
    ensures
        out.command is Send ==> pre.stage is PollingInterval && event matches PingerEvent::Interval(TickEvent::Tick),
        out.command == PingerCommand::Return(Ok(Progress::Ready(()))) <==> event matches PingerEvent::Stream(StreamEvent::Closed),
{
}


/// Every line from the server is printed exactly as received and the
/// stream is read on; a ping queued is exactly "Ping"; failures end the
/// pinger with the socket or timer error; a poll ends "not ready" only
/// after a flush was tried.
pub proof fn lemma_pinger_outcomes(pre: Pinger, event: PingerEvent, post: Pinger, out: PingerStep)
    requires
        Pinger::transition(pre, event, post, out),
    ensures
        event matches PingerEvent::Stream(StreamEvent::Item(line)) ==> {
            &&& out.notice matches Some(PingerNotice::ServerSaid(m)) && m@ == line@
            &&& out.command is PollStream && post.stage is PollingStream
        },
        out.command matches PingerCommand::Send(line) ==> line@ == "Ping"@,
        event matches PingerEvent::Stream(StreamEvent::Failed(e)) ==> post.stage is Done && out.command
            == PingerCommand::Return(Err(PingerError::Socket(e))),
        event matches PingerEvent::Queued(Err(e)) ==> post.stage is Done && out.command
            == PingerCommand::Return(Err(PingerError::Socket(e))),
        event matches PingerEvent::Flush(FlushEvent::Failed(e)) ==> post.stage is Done && out.command
            == PingerCommand::Return(Err(PingerError::Socket(e))),
        event matches PingerEvent::Interval(TickEvent::Failed(e)) ==> post.stage is Done && out.command
            == PingerCommand::Return(Err(PingerError::Timer(e))),
        out.command == PingerCommand::Return(Ok(Progress::NotReady)) ==> event is Flush,
{
}

} // verus!
