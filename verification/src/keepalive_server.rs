//! The line server that greets each client with "Hello", then prints the
//! lines the client sends, and drops the client once no line has arrived
//! for a keepalive delay (each line restarts the delay).
//!
//! Both handlers are state machines driven as in `client_manager`.

use crate::poll::{FlushEvent, Progress, StreamEvent, TimerEvent};
use vstd::prelude::*;

verus! {

/// What went wrong with a client.
#[derive(Debug)]
pub enum ClientError {
    Socket(std::io::Error),
    Timer(tokio::timer::Error),
}

impl std::convert::From<tokio::timer::Error> for ClientError {
    fn from(data: tokio::timer::Error) -> (r: Self) {
        ClientError::Timer(data)
    }
}

impl vstd::std_specs::convert::FromSpecImpl<tokio::timer::Error> for ClientError {
    open spec fn obeys_from_spec() -> bool {
        true
    }

    open spec fn from_spec(data: tokio::timer::Error) -> Self {
        ClientError::Timer(data)
    }
}

impl std::convert::From<std::io::Error> for ClientError {
    fn from(data: std::io::Error) -> (r: Self) {
        ClientError::Socket(data)
    }
}

impl vstd::std_specs::convert::FromSpecImpl<std::io::Error> for ClientError {
    open spec fn obeys_from_spec() -> bool {
        true
    }

    open spec fn from_spec(data: std::io::Error) -> Self {
        ClientError::Socket(data)
    }
}

/// The greeting sent to each client.
pub open spec fn greeting() -> Seq<char> {
    "Hello"@
}

/// Where the greeter is within a poll.
pub enum GreetingsStage {
    Waiting,
    /// The driver is queueing the greeting on the stream.
    Queueing,
    /// The driver is flushing the stream.
    Flushing,
    Done,
}

/// Sends the greeting and waits until it is flushed.
pub struct ClientGreetings {
    /// Whether the greeting has been queued already.
    pub is_sending: bool,
    pub stage: GreetingsStage,
}

pub enum GreetingsEvent {
    Polled,
    /// The greeting was queued (`start_send`), or that failed.
    Queued(Result<(), std::io::Error>),
    /// The stream was flushed (`poll_complete`).
    Flush(FlushEvent),
}

pub enum GreetingsCommand {
    /// Queue this line on the stream.
    Send(String),
    /// Flush the stream.
    Flush,
    /// End the poll; `Ready` hands the stream on to the maintenance.
    Return(Result<Progress<()>, ClientError>),
}

pub enum GreetingsNotice {
    SendingGreetings,
    GreetingsSent,
}

pub struct GreetingsStep {
    pub notice: Option<GreetingsNotice>,
    pub command: GreetingsCommand,
}

impl ClientGreetings {
    pub open spec fn fresh() -> ClientGreetings {
        ClientGreetings { is_sending: false, stage: GreetingsStage::Waiting }
    }

    pub fn new() -> (g: ClientGreetings)
        ensures
            g == ClientGreetings::fresh(),
    {
        ClientGreetings { is_sending: false, stage: GreetingsStage::Waiting }
    }

    pub open spec fn accepts(&self, event: GreetingsEvent) -> bool {
        match self.stage {
            GreetingsStage::Waiting => event is Polled,
            GreetingsStage::Queueing => event is Queued,
            GreetingsStage::Flushing => event is Flush,
            GreetingsStage::Done => false,
        }
    }

    /// Whether `event` is one that `step` takes now.
    pub fn expects(&self, event: &GreetingsEvent) -> (r: bool)
        ensures
            r == self.accepts(*event),
    {
        match (&self.stage, event) {
            (GreetingsStage::Waiting, GreetingsEvent::Polled) => true,
            (GreetingsStage::Queueing, GreetingsEvent::Queued(_)) => true,
            (GreetingsStage::Flushing, GreetingsEvent::Flush(_)) => true,
            _ => false,
        }
    }

    /// The greeter `post` and its answer `out` after `pre` takes `event`.
    pub open spec fn transition(pre: ClientGreetings, event: GreetingsEvent, post: ClientGreetings, out: GreetingsStep) -> bool {
        match (pre.stage, event) {
            (GreetingsStage::Waiting, GreetingsEvent::Polled) => {
                if !pre.is_sending {
                    &&& post.is_sending && post.stage is Queueing
                    &&& out.notice == Some(GreetingsNotice::SendingGreetings)
                    &&& out.command matches GreetingsCommand::Send(line) && line@ == greeting()
                } else {
                    &&& post.is_sending && post.stage is Flushing
                    &&& out.notice is None && out.command is Flush
                }
            },
            (GreetingsStage::Queueing, GreetingsEvent::Queued(Ok(_))) => {
                post.is_sending == pre.is_sending && post.stage is Flushing && out.notice is None
                    && out.command is Flush
            },
            (GreetingsStage::Queueing, GreetingsEvent::Queued(Err(e))) => {
                &&& post.is_sending == pre.is_sending && post.stage is Done && out.notice is None
                &&& out.command == GreetingsCommand::Return(Err(ClientError::Socket(e)))
            },
            (GreetingsStage::Flushing, GreetingsEvent::Flush(FlushEvent::NotReady)) => {
                &&& post.is_sending == pre.is_sending && post.stage is Waiting && out.notice is None
                &&& out.command == GreetingsCommand::Return(Ok(Progress::NotReady))
            },
            (GreetingsStage::Flushing, GreetingsEvent::Flush(FlushEvent::Failed(e))) => {
                &&& post.is_sending == pre.is_sending && post.stage is Done && out.notice is None
                &&& out.command == GreetingsCommand::Return(Err(ClientError::Socket(e)))
            },
            (GreetingsStage::Flushing, GreetingsEvent::Flush(FlushEvent::Flushed)) => {
                &&& post.is_sending == pre.is_sending && post.stage is Done
                &&& out.notice == Some(GreetingsNotice::GreetingsSent)
                &&& out.command == GreetingsCommand::Return(Ok(Progress::Ready(())))
            },
            _ => false,
        }
    }

    /// Takes the next event of a poll and says what to do next.
    pub fn step(&mut self, event: GreetingsEvent) -> (out: GreetingsStep)
        requires
            old(self).accepts(event),
        ensures
            ClientGreetings::transition(*old(self), event, *final(self), out),
    {
        match (&self.stage, event) {
            (GreetingsStage::Waiting, GreetingsEvent::Polled) => {
                if !self.is_sending {
                    self.is_sending = true;
                    self.stage = GreetingsStage::Queueing;
                    let line = String::from_str("Hello");
                    proof {
                        reveal_strlit("Hello");
                    }
                    GreetingsStep {
                        notice: Some(GreetingsNotice::SendingGreetings),
                        command: GreetingsCommand::Send(line),
                    }
                } else {
                    self.stage = GreetingsStage::Flushing;
                    GreetingsStep { notice: None, command: GreetingsCommand::Flush }
                }
            },
            (GreetingsStage::Queueing, GreetingsEvent::Queued(queued)) => match queued {
                Ok(_) => {
                    self.stage = GreetingsStage::Flushing;
                    GreetingsStep { notice: None, command: GreetingsCommand::Flush }
                },
                Err(e) => {
                    self.stage = GreetingsStage::Done;
                    GreetingsStep { notice: None, command: GreetingsCommand::Return(Err(ClientError::from(e))) }
                },
            },
            (GreetingsStage::Flushing, GreetingsEvent::Flush(flushed)) => match flushed {
                FlushEvent::NotReady => {
                    self.stage = GreetingsStage::Waiting;
                    GreetingsStep { notice: None, command: GreetingsCommand::Return(Ok(Progress::NotReady)) }
                },
                FlushEvent::Failed(e) => {
                    self.stage = GreetingsStage::Done;
                    GreetingsStep { notice: None, command: GreetingsCommand::Return(Err(ClientError::from(e))) }
                },
                FlushEvent::Flushed => {
                    self.stage = GreetingsStage::Done;
                    GreetingsStep {
                        notice: Some(GreetingsNotice::GreetingsSent),
                        command: GreetingsCommand::Return(Ok(Progress::Ready(()))),
                    }
                },
            },
            _ => {
                proof {
                    assert(false);
                }
                GreetingsStep { notice: None, command: GreetingsCommand::Flush }
            },
        }
    }
}

/// What holds of a greeter once it has queued its greeting.
pub open spec fn greeted(g: ClientGreetings) -> bool {
    g.is_sending
}

/// A step queues the greeting only from a greeter that has not queued it
/// yet, and a greeter that has queued it stays so.
pub proof fn lemma_greetings_step_greets_once(
    pre: ClientGreetings,
    event: GreetingsEvent,
    post: ClientGreetings,
    out: GreetingsStep,
)
    requires
        ClientGreetings::transition(pre, event, post, out),
    ensures
        out.command is Send ==> !greeted(pre) && greeted(post),
        greeted(pre) ==> greeted(post),
{
}

/// Over any run of a greeter from its creation, the greeting is queued at
/// most once.
pub proof fn lemma_greetings_run_greets_once(
    states: Seq<ClientGreetings>,
    events: Seq<GreetingsEvent>,
    outs: Seq<GreetingsStep>,
)
    requires
        states.len() == events.len() + 1,
        outs.len() == events.len(),
        states[0] == ClientGreetings::fresh(),
        forall|i: int|
            #![trigger outs[i]]
            0 <= i < events.len() ==> ClientGreetings::transition(states[i], events[i], states[i + 1], outs[i]),
    ensures
        forall|i: int, j: int|
            #![trigger outs[i], outs[j]]
            0 <= i < j < events.len() && outs[i].command is Send ==> !(outs[j].command is Send),
{
    assert forall|i: int, j: int|
        #![trigger outs[i], outs[j]]
        0 <= i < j < events.len() && outs[i].command is Send implies !(outs[j].command is Send) by {
        lemma_greeted_after(states, events, outs, i, j);
        lemma_greetings_step_greets_once(states[j], events[j], states[j + 1], outs[j]);
    }
}

/// Once the greeting is queued at step `i`, every later greeter has
/// queued it.
proof fn lemma_greeted_after(
    states: Seq<ClientGreetings>,
    events: Seq<GreetingsEvent>,
    outs: Seq<GreetingsStep>,
    i: int,
    k: int,
)
    requires
        states.len() == events.len() + 1,
        outs.len() == events.len(),
        forall|m: int|
            #![trigger outs[m]]
            0 <= m < events.len() ==> ClientGreetings::transition(states[m], events[m], states[m + 1], outs[m]),
        0 <= i < k <= events.len(),
        outs[i].command is Send,
    ensures
        greeted(states[k]),
    decreases k - i,
{
    assert(ClientGreetings::transition(states[k - 1], events[k - 1], states[k], outs[k - 1]));
    lemma_greetings_step_greets_once(states[k - 1], events[k - 1], states[k], outs[k - 1]);
    if k - 1 > i {
        lemma_greeted_after(states, events, outs, i, k - 1);
    }
}

/// Where the maintenance is within a poll.
pub enum MaintenanceStage {
    Waiting,
    PollingStream,
    /// The driver is moving the keepalive deadline.
    Restarting,
    PollingKeepalive,
    Done,
}

/// Prints the client's lines; drops the client after `keepalive` seconds
/// without a line.
pub struct ClientMaintenance {
    pub keepalive: u64,
    pub stage: MaintenanceStage,
}

pub enum MaintenanceEvent {
    Polled,
    Stream(StreamEvent<String>),
    /// The keepalive deadline was moved.
    Restarted,
    Keepalive(TimerEvent),
}

pub enum MaintenanceCommand {
    PollStream,
    /// Move the keepalive deadline to this many seconds from now.
    RestartKeepalive(u64),
    PollKeepalive,
    Return(Result<Progress<()>, ClientError>),
}

pub enum MaintenanceNotice {
    ClientSaid(String),
    SocketClosed,
    ConnectionExpired,
}

pub struct MaintenanceStep {
    pub notice: Option<MaintenanceNotice>,
    pub command: MaintenanceCommand,
}

impl ClientMaintenance {
    pub fn new(keepalive: u64) -> (m: ClientMaintenance)
        ensures
            m.keepalive == keepalive,
            m.stage is Waiting,
    {
        ClientMaintenance { keepalive, stage: MaintenanceStage::Waiting }
    }

    pub open spec fn accepts(&self, event: MaintenanceEvent) -> bool {
        match self.stage {
            MaintenanceStage::Waiting => event is Polled,
            MaintenanceStage::PollingStream => event is Stream,
            MaintenanceStage::Restarting => event is Restarted,
            MaintenanceStage::PollingKeepalive => event is Keepalive,
            MaintenanceStage::Done => false,
        }
    }

    /// Whether `event` is one that `step` takes now.
    pub fn expects(&self, event: &MaintenanceEvent) -> (r: bool)
        ensures
            r == self.accepts(*event),
    {
        match (&self.stage, event) {
            (MaintenanceStage::Waiting, MaintenanceEvent::Polled) => true,
            (MaintenanceStage::PollingStream, MaintenanceEvent::Stream(_)) => true,
            (MaintenanceStage::Restarting, MaintenanceEvent::Restarted) => true,
            (MaintenanceStage::PollingKeepalive, MaintenanceEvent::Keepalive(_)) => true,
            _ => false,
        }
    }

    /// The maintenance `post` and its answer `out` after `pre` takes `event`.
    pub open spec fn transition(pre: ClientMaintenance, event: MaintenanceEvent, post: ClientMaintenance, out: MaintenanceStep) -> bool {
        &&& post.keepalive == pre.keepalive
        &&& match (pre.stage, event) {
            (MaintenanceStage::Waiting, MaintenanceEvent::Polled) => {
                post.stage is PollingStream && out.notice is None && out.command is PollStream
            },
            (MaintenanceStage::PollingStream, MaintenanceEvent::Stream(StreamEvent::Item(line))) => {
                &&& post.stage is Restarting
                &&& out.notice == Some(MaintenanceNotice::ClientSaid(line))
                &&& out.command == MaintenanceCommand::RestartKeepalive(pre.keepalive)
            },
            (MaintenanceStage::Restarting, MaintenanceEvent::Restarted) => {
                post.stage is PollingStream && out.notice is None && out.command is PollStream
            },
            (MaintenanceStage::PollingStream, MaintenanceEvent::Stream(StreamEvent::Closed)) => {
                &&& post.stage is Done && out.notice == Some(MaintenanceNotice::SocketClosed)
                &&& out.command == MaintenanceCommand::Return(Ok(Progress::Ready(())))
            },
            (MaintenanceStage::PollingStream, MaintenanceEvent::Stream(StreamEvent::Failed(e))) => {
                &&& post.stage is Done && out.notice is None
                &&& out.command == MaintenanceCommand::Return(Err(ClientError::Socket(e)))
            },
            (MaintenanceStage::PollingStream, MaintenanceEvent::Stream(StreamEvent::NotReady)) => {
                post.stage is PollingKeepalive && out.notice is None && out.command is PollKeepalive
            },
            (MaintenanceStage::PollingKeepalive, MaintenanceEvent::Keepalive(TimerEvent::Elapsed)) => {
                &&& post.stage is Done && out.notice == Some(MaintenanceNotice::ConnectionExpired)
                &&& out.command == MaintenanceCommand::Return(Ok(Progress::Ready(())))
            },
            (MaintenanceStage::PollingKeepalive, MaintenanceEvent::Keepalive(TimerEvent::NotReady)) => {
                &&& post.stage is Waiting && out.notice is None
                &&& out.command == MaintenanceCommand::Return(Ok(Progress::NotReady))
            },
            (MaintenanceStage::PollingKeepalive, MaintenanceEvent::Keepalive(TimerEvent::Failed(e))) => {
                &&& post.stage is Done && out.notice is None
                &&& out.command == MaintenanceCommand::Return(Err(ClientError::Timer(e)))
            },
            _ => false,
        }
    }

    /// Takes the next event of a poll and says what to do next.
    pub fn step(&mut self, event: MaintenanceEvent) -> (out: MaintenanceStep)
        requires
            old(self).accepts(event),
        ensures
            ClientMaintenance::transition(*old(self), event, *final(self), out),
    {
        match (&self.stage, event) {
            (MaintenanceStage::Waiting, MaintenanceEvent::Polled) => {
                self.stage = MaintenanceStage::PollingStream;
                MaintenanceStep { notice: None, command: MaintenanceCommand::PollStream }
            },
            (MaintenanceStage::PollingStream, MaintenanceEvent::Stream(polled)) => match polled {
                StreamEvent::Item(line) => {
                    self.stage = MaintenanceStage::Restarting;
                    MaintenanceStep {
                        notice: Some(MaintenanceNotice::ClientSaid(line)),
                        command: MaintenanceCommand::RestartKeepalive(self.keepalive),
                    }
                },
                StreamEvent::Closed => {
                    self.stage = MaintenanceStage::Done;
                    MaintenanceStep {
                        notice: Some(MaintenanceNotice::SocketClosed),
                        command: MaintenanceCommand::Return(Ok(Progress::Ready(()))),
                    }
                },
                StreamEvent::Failed(e) => {
                    self.stage = MaintenanceStage::Done;
                    MaintenanceStep { notice: None, command: MaintenanceCommand::Return(Err(ClientError::from(e))) }
                },
                StreamEvent::NotReady => {
                    self.stage = MaintenanceStage::PollingKeepalive;
                    MaintenanceStep { notice: None, command: MaintenanceCommand::PollKeepalive }
                },
            },
            (MaintenanceStage::Restarting, MaintenanceEvent::Restarted) => {
                self.stage = MaintenanceStage::PollingStream;
                MaintenanceStep { notice: None, command: MaintenanceCommand::PollStream }
            },
            (MaintenanceStage::PollingKeepalive, MaintenanceEvent::Keepalive(polled)) => match polled {
                TimerEvent::Elapsed => {
                    self.stage = MaintenanceStage::Done;
                    MaintenanceStep {
                        notice: Some(MaintenanceNotice::ConnectionExpired),
                        command: MaintenanceCommand::Return(Ok(Progress::Ready(()))),
                    }
                },
                TimerEvent::NotReady => {
                    self.stage = MaintenanceStage::Waiting;
                    MaintenanceStep { notice: None, command: MaintenanceCommand::Return(Ok(Progress::NotReady)) }
                },
                TimerEvent::Failed(e) => {
                    self.stage = MaintenanceStage::Done;
                    MaintenanceStep { notice: None, command: MaintenanceCommand::Return(Err(ClientError::from(e))) }
                },
            },
            _ => {
                proof {
                    assert(false);
                }
                MaintenanceStep { notice: None, command: MaintenanceCommand::PollStream }
            },
        }
    }
}


/// The greeter queues exactly "Hello" when it first queues anything; it
/// ends a poll with "not ready" only after a flush reported "not ready";
/// a failed queueing or flush ends it with that socket error.
pub proof fn lemma_greetings_outcomes(pre: ClientGreetings, event: GreetingsEvent, post: ClientGreetings, out: GreetingsStep)
    requires
        ClientGreetings::transition(pre, event, post, out),
    ensures
        out.command matches GreetingsCommand::Send(line) ==> line@ == "Hello"@,
        out.command == GreetingsCommand::Return(Ok(Progress::NotReady)) ==> event matches GreetingsEvent::Flush(FlushEvent::NotReady),
        out.command == GreetingsCommand::Return(Ok(Progress::Ready(()))) ==> event matches GreetingsEvent::Flush(FlushEvent::Flushed),
        event matches GreetingsEvent::Queued(Err(e)) ==> post.stage is Done && out.command
            == GreetingsCommand::Return(Err(ClientError::Socket(e))),
        event matches GreetingsEvent::Flush(FlushEvent::Failed(e)) ==> post.stage is Done && out.command
            == GreetingsCommand::Return(Err(ClientError::Socket(e))),
{
}

/// Every line received is printed exactly as received; a failing socket
/// ends the handler with that socket error, a failing timer with that
/// timer error; a poll ends "not ready" only after the keepalive timer
/// reported "not ready".
pub proof fn lemma_maintenance_outcomes(
    pre: ClientMaintenance,
    event: MaintenanceEvent,
    post: ClientMaintenance,
    out: MaintenanceStep,
)
    requires
        ClientMaintenance::transition(pre, event, post, out),
    ensures
        event matches MaintenanceEvent::Stream(StreamEvent::Item(line)) ==> (out.notice matches Some(
            MaintenanceNotice::ClientSaid(m),
        ) && m@ == line@),
        event matches MaintenanceEvent::Stream(StreamEvent::Failed(e)) ==> post.stage is Done && out.command
            == MaintenanceCommand::Return(Err(ClientError::Socket(e))),
        event matches MaintenanceEvent::Keepalive(TimerEvent::Failed(e)) ==> post.stage is Done && out.command
            == MaintenanceCommand::Return(Err(ClientError::Timer(e))),
        out.command == MaintenanceCommand::Return(Ok(Progress::NotReady)) ==> event matches MaintenanceEvent::Keepalive(TimerEvent::NotReady),
{
}

/// Each line from the client restarts the keepalive deadline before the
/// stream is polled again; the deadline is looked at only once the stream
/// has nothing more; and the handler ends without error exactly when the
/// client closed its socket or stayed silent past the deadline.
pub proof fn lemma_maintenance_keepalive(
    pre: ClientMaintenance,
    event: MaintenanceEvent,
    post: ClientMaintenance,
    out: MaintenanceStep,
)
    requires
        ClientMaintenance::transition(pre, event, post, out),
    ensures
        event matches MaintenanceEvent::Stream(StreamEvent::Item(_)) ==> out.command == MaintenanceCommand::RestartKeepalive(pre.keepalive)
            && post.stage is Restarting,
        post.stage is Restarting ==> post.accepts(MaintenanceEvent::Restarted) && !post.accepts(MaintenanceEvent::Polled),
        out.command is PollKeepalive ==> event matches MaintenanceEvent::Stream(StreamEvent::NotReady),
        out.command == MaintenanceCommand::Return(Ok(Progress::Ready(()))) <==> (event matches MaintenanceEvent::Stream(StreamEvent::Closed)
            || event matches MaintenanceEvent::Keepalive(TimerEvent::Elapsed)),
{
}

} // verus!
