//! The chat server's handling of one client: a greeter that waits for the
//! client's `Connect` packet (within a connect timeout) and acknowledges
//! it, then a maintainer that logs the client's packets until the socket
//! closes or the keepalive delay runs out.
//!
//! Each handler is a state machine: its driver polls it with `Polled`,
//! performs the command that `step` hands back, reports the outcome as the
//! next event, and stops when the command is `Return`.

use crate::codec::Packet;
use crate::poll::{Progress, StreamEvent, TimerEvent};
use vstd::prelude::*;

verus! {

/// What went wrong with a client.
#[derive(Debug)]
pub enum ClientError {
    Socket(std::io::Error),
    Timer(tokio::timer::Error),
    /// The client's name is banned.
    Unauthorized,
    /// The first packet was not a `Connect` packet.
    BadConnectPacket(Packet),
    /// No `Connect` packet arrived before the connect delay ran out.
    ConnectTimeout,
    /// The keepalive delay ran out.
    Keepalive,
    /// The socket closed before a `Connect` packet arrived.
    DisconnectBeforeConnectPacket,
}

/// A client error, with the client's name once it is known.
#[derive(Debug)]
pub struct NamedClientError {
    pub name: Option<String>,
    pub error: ClientError,
}

impl std::convert::From<tokio::timer::Error> for NamedClientError {
    fn from(data: tokio::timer::Error) -> (r: Self) {
        NamedClientError { name: None, error: ClientError::Timer(data) }
    }
}

impl vstd::std_specs::convert::FromSpecImpl<tokio::timer::Error> for NamedClientError {
    open spec fn obeys_from_spec() -> bool {
        true
    }

    open spec fn from_spec(data: tokio::timer::Error) -> Self {
        NamedClientError { name: None, error: ClientError::Timer(data) }
    }
}

impl std::convert::From<std::io::Error> for NamedClientError {
    fn from(data: std::io::Error) -> (r: Self) {
        NamedClientError { name: None, error: ClientError::Socket(data) }
    }
}

impl vstd::std_specs::convert::FromSpecImpl<std::io::Error> for NamedClientError {
    open spec fn obeys_from_spec() -> bool {
        true
    }

    open spec fn from_spec(data: std::io::Error) -> Self {
        NamedClientError { name: None, error: ClientError::Socket(data) }
    }
}

/// A client error with no name attached.
pub open spec fn unnamed(error: ClientError) -> NamedClientError {
    NamedClientError { name: None, error }
}

/// The name that the server refuses.
pub open spec fn is_banned(name: Seq<char>) -> bool {
    name == "troll"@
}

/// Where the greeter is within a poll.
pub enum GreeterStage {
    /// Between polls: no `Connect` packet yet.
    Waiting,
    /// The driver is polling the packet stream.
    PollingStream,
    /// The driver is polling the connect delay.
    PollingTimer,
    /// The driver is queueing the `ConnectAck` for the client `name`.
    Acknowledging { name: String, accepted: bool },
    /// The greeter has returned its result.
    Done,
}

/// Waits for a client's `Connect` packet and answers it.
pub struct ClientGreeter {
    /// Seconds the client has to send its `Connect` packet.
    pub connect_expire: u64,
    /// Keepalive delay, in seconds, handed to the maintainer.
    pub keepalive: u64,
    pub stage: GreeterStage,
}

/// What the driver of a greeter reports.
pub enum GreeterEvent {
    /// The greeter is polled.
    Polled,
    /// The packet stream was polled.
    Stream(StreamEvent<Packet>),
    /// The connect delay was polled.
    Timer(TimerEvent),
    /// The `ConnectAck` was queued on the stream, or that failed.
    AckQueued(Result<(), std::io::Error>),
}

/// What a greeter asks its driver to do next.
pub enum GreeterCommand {
    PollStream,
    PollTimer,
    /// Queue this packet on the stream (`start_send`).
    Send(Packet),
    /// End the poll with this result.
    Return(Result<Progress<ClientMaintainer>, NamedClientError>),
}

/// A line for the server's log.
pub enum GreeterNotice {
    /// The connect delay ran out.
    ConnectExpired,
    /// The client with this name is accepted.
    Connected(String),
}

/// A greeter's answer to an event: a line to log first, if any, then a
/// command.
pub struct GreeterStep {
    pub notice: Option<GreeterNotice>,
    pub command: GreeterCommand,
}

/// Where the maintainer is within a poll.
pub enum MaintainerStage {
    Waiting,
    PollingStream,
    PollingKeepalive,
    Done,
}

/// Logs the packets of a connected client.
pub struct ClientMaintainer {
    pub name: String,
    /// Seconds after which the client is dropped.
    pub keepalive: u64,
    pub stage: MaintainerStage,
}

/// What the driver of a maintainer reports.
pub enum MaintainerEvent {
    Polled,
    Stream(StreamEvent<Packet>),
    Keepalive(TimerEvent),
}

/// What a maintainer asks its driver to do next.
pub enum MaintainerCommand {
    PollStream,
    PollKeepalive,
    Return(Result<Progress<()>, NamedClientError>),
}

/// A line for the server's log.
pub enum MaintainerNotice {
    /// The client `name` sent a packet.
    Received(String, Packet),
    /// The socket of the client `name` closed.
    SocketClosed(String),
}

/// A maintainer's answer to an event.
pub struct MaintainerStep {
    pub notice: Option<MaintainerNotice>,
    pub command: MaintainerCommand,
}

impl ClientGreeter {
    pub fn new(connect_expire: u64, keepalive: u64) -> (g: ClientGreeter)
        ensures
            g.connect_expire == connect_expire,
            g.keepalive == keepalive,
            g.stage is Waiting,
    {
        ClientGreeter { connect_expire, keepalive, stage: GreeterStage::Waiting }
    }

    /// The events the greeter can take in its present stage.
    pub open spec fn accepts(&self, event: GreeterEvent) -> bool {
        match self.stage {
            GreeterStage::Waiting => event is Polled,
            GreeterStage::PollingStream => event is Stream,
            GreeterStage::PollingTimer => event is Timer,
            GreeterStage::Acknowledging { .. } => event is AckQueued,
            GreeterStage::Done => false,
        }
    }

    /// Whether `event` is one that `step` takes now.
    pub fn expects(&self, event: &GreeterEvent) -> (r: bool)
        ensures
            r == self.accepts(*event),
    {
        match (&self.stage, event) {
            (GreeterStage::Waiting, GreeterEvent::Polled) => true,
            (GreeterStage::PollingStream, GreeterEvent::Stream(_)) => true,
            (GreeterStage::PollingTimer, GreeterEvent::Timer(_)) => true,
            (GreeterStage::Acknowledging { .. }, GreeterEvent::AckQueued(_)) => true,
            _ => false,
        }
    }

    /// The greeter `post` and its answer `out` after `pre` takes `event`.
    pub open spec fn transition(pre: ClientGreeter, event: GreeterEvent, post: ClientGreeter, out: GreeterStep) -> bool {
        &&& post.connect_expire == pre.connect_expire
        &&& post.keepalive == pre.keepalive
        &&& match (pre.stage, event) {
            (GreeterStage::Waiting, GreeterEvent::Polled) => {
                post.stage is PollingStream && out.notice is None && out.command is PollStream
            },
            (GreeterStage::PollingStream, GreeterEvent::Stream(StreamEvent::Failed(e))) => {
                &&& post.stage is Done && out.notice is None
                &&& out.command == GreeterCommand::Return(Err(unnamed(ClientError::Socket(e))))
            },
            (GreeterStage::PollingStream, GreeterEvent::Stream(StreamEvent::Closed)) => {
                &&& post.stage is Done && out.notice is None
                &&& out.command == GreeterCommand::Return(Err(unnamed(ClientError::DisconnectBeforeConnectPacket)))
            },
            (GreeterStage::PollingStream, GreeterEvent::Stream(StreamEvent::NotReady)) => {
                post.stage is PollingTimer && out.notice is None && out.command is PollTimer
            },
            (GreeterStage::PollingStream, GreeterEvent::Stream(StreamEvent::Item(packet))) => {
                match packet {
                    Packet::Connect { name } => {
                        let accepted = !is_banned(name@);
                        &&& post.stage matches GreeterStage::Acknowledging { name: n, accepted: a }
                            && n == name && a == accepted
                        &&& out.command == GreeterCommand::Send(Packet::ConnectAck { accepted })
                        &&& if accepted {
                            out.notice matches Some(GreeterNotice::Connected(n)) && n == name
                        } else {
                            out.notice is None
                        }
                    },
                    _ => {
                        &&& post.stage is Done && out.notice is None
                        &&& out.command == GreeterCommand::Return(Err(unnamed(ClientError::BadConnectPacket(packet))))
                    },
                }
            },
            (GreeterStage::PollingTimer, GreeterEvent::Timer(TimerEvent::Failed(e))) => {
                &&& post.stage is Done && out.notice is None
                &&& out.command == GreeterCommand::Return(Err(unnamed(ClientError::Timer(e))))
            },
            (GreeterStage::PollingTimer, GreeterEvent::Timer(TimerEvent::Elapsed)) => {
                &&& post.stage is Done && out.notice == Some(GreeterNotice::ConnectExpired)
                &&& out.command == GreeterCommand::Return(Err(unnamed(ClientError::ConnectTimeout)))
            },
            (GreeterStage::PollingTimer, GreeterEvent::Timer(TimerEvent::NotReady)) => {
                &&& post.stage is Waiting && out.notice is None
                &&& out.command == GreeterCommand::Return(Ok(Progress::NotReady))
            },
            (GreeterStage::Acknowledging { name, accepted }, GreeterEvent::AckQueued(sent)) => {
                &&& post.stage is Done && out.notice is None
                &&& out.command == match (accepted, sent) {
                    (false, Err(e)) => GreeterCommand::Return(Err(unnamed(ClientError::Socket(e)))),
                    (false, Ok(_)) => GreeterCommand::Return(
                        Err(NamedClientError { name: Some(name), error: ClientError::Unauthorized }),
                    ),
                    (true, Err(e)) => GreeterCommand::Return(
                        Err(NamedClientError { name: Some(name), error: ClientError::Socket(e) }),
                    ),
                    (true, Ok(_)) => GreeterCommand::Return(
                        Ok(Progress::Ready(ClientMaintainer::fresh(name, pre.keepalive))),
                    ),
                }
            },
            _ => false,
        }
    }

    /// Takes the next event of a poll and says what to do next.
    pub fn step(&mut self, event: GreeterEvent) -> (out: GreeterStep)
        requires
            old(self).accepts(event),
        ensures
            ClientGreeter::transition(*old(self), event, *final(self), out),
    {
        let mut stage = GreeterStage::Done;
        std::mem::swap(&mut self.stage, &mut stage);
        match (stage, event) {
            (GreeterStage::Waiting, GreeterEvent::Polled) => {
                self.stage = GreeterStage::PollingStream;
                GreeterStep { notice: None, command: GreeterCommand::PollStream }
            },
            (GreeterStage::PollingStream, GreeterEvent::Stream(polled)) => match polled {
                StreamEvent::Failed(e) => GreeterStep {
                    notice: None,
                    command: GreeterCommand::Return(Err(NamedClientError::from(e))),
                },
                StreamEvent::Closed => GreeterStep {
                    notice: None,
                    command: GreeterCommand::Return(
                        Err(NamedClientError { name: None, error: ClientError::DisconnectBeforeConnectPacket }),
                    ),
                },
                StreamEvent::NotReady => {
                    self.stage = GreeterStage::PollingTimer;
                    GreeterStep { notice: None, command: GreeterCommand::PollTimer }
                },
                StreamEvent::Item(packet) => match packet {
                    Packet::Connect { name } => {
                        let banned = String::from_str("troll");
                        proof {
                            reveal_strlit("troll");
                        }
                        if name == banned {
                            self.stage = GreeterStage::Acknowledging { name, accepted: false };
                            GreeterStep {
                                notice: None,
                                command: GreeterCommand::Send(Packet::ConnectAck { accepted: false }),
                            }
                        } else {
                            let shown = name.clone();
                            self.stage = GreeterStage::Acknowledging { name, accepted: true };
                            GreeterStep {
                                notice: Some(GreeterNotice::Connected(shown)),
                                command: GreeterCommand::Send(Packet::ConnectAck { accepted: true }),
                            }
                        }
                    },
                    unexpected => GreeterStep {
                        notice: None,
                        command: GreeterCommand::Return(
                            Err(NamedClientError { name: None, error: ClientError::BadConnectPacket(unexpected) }),
                        ),
                    },
                },
            },
            (GreeterStage::PollingTimer, GreeterEvent::Timer(polled)) => match polled {
                TimerEvent::Failed(e) => GreeterStep {
                    notice: None,
                    command: GreeterCommand::Return(Err(NamedClientError::from(e))),
                },
                TimerEvent::Elapsed => GreeterStep {
                    notice: Some(GreeterNotice::ConnectExpired),
                    command: GreeterCommand::Return(
                        Err(NamedClientError { name: None, error: ClientError::ConnectTimeout }),
                    ),
                },
                TimerEvent::NotReady => {
                    self.stage = GreeterStage::Waiting;
                    GreeterStep { notice: None, command: GreeterCommand::Return(Ok(Progress::NotReady)) }
                },
            },
            (GreeterStage::Acknowledging { name, accepted }, GreeterEvent::AckQueued(sent)) => {
                let command = if accepted {
                    match sent {
                        Ok(_) => GreeterCommand::Return(
                            Ok(Progress::Ready(ClientMaintainer::new(name, self.keepalive))),
                        ),
                        Err(error) => GreeterCommand::Return(
                            Err(NamedClientError { name: Some(name), error: ClientError::Socket(error) }),
                        ),
                    }
                } else {
                    match sent {
                        Ok(_) => GreeterCommand::Return(
                            Err(NamedClientError { name: Some(name), error: ClientError::Unauthorized }),
                        ),
                        Err(e) => GreeterCommand::Return(Err(NamedClientError::from(e))),
                    }
                };
                GreeterStep { notice: None, command }
            },
            _ => {
                proof {
                    assert(false);
                }
                GreeterStep { notice: None, command: GreeterCommand::PollStream }
            },
        }
    }
}

impl ClientMaintainer {
    /// A maintainer for the client `name`, not yet polled.
    pub open spec fn fresh(name: String, keepalive: u64) -> ClientMaintainer {
        ClientMaintainer { name, keepalive, stage: MaintainerStage::Waiting }
    }

    pub fn new(name: String, keepalive: u64) -> (m: ClientMaintainer)
        ensures
            m == ClientMaintainer::fresh(name, keepalive),
    {
        ClientMaintainer { name, keepalive, stage: MaintainerStage::Waiting }
    }

    /// The events the maintainer can take in its present stage.
    pub open spec fn accepts(&self, event: MaintainerEvent) -> bool {
        match self.stage {
            MaintainerStage::Waiting => event is Polled,
            MaintainerStage::PollingStream => event is Stream,
            MaintainerStage::PollingKeepalive => event is Keepalive,
            MaintainerStage::Done => false,
        }
    }

    /// Whether `event` is one that `step` takes now.
    pub fn expects(&self, event: &MaintainerEvent) -> (r: bool)
        ensures
            r == self.accepts(*event),
    {
        match (&self.stage, event) {
            (MaintainerStage::Waiting, MaintainerEvent::Polled) => true,
            (MaintainerStage::PollingStream, MaintainerEvent::Stream(_)) => true,
            (MaintainerStage::PollingKeepalive, MaintainerEvent::Keepalive(_)) => true,
            _ => false,
        }
    }

    /// The maintainer `post` and its answer `out` after `pre` takes `event`.
    pub open spec fn transition(pre: ClientMaintainer, event: MaintainerEvent, post: ClientMaintainer, out: MaintainerStep) -> bool {
        &&& post.name == pre.name
        &&& post.keepalive == pre.keepalive
        &&& match (pre.stage, event) {
            (MaintainerStage::Waiting, MaintainerEvent::Polled) => {
                post.stage is PollingStream && out.notice is None && out.command is PollStream
            },
            (MaintainerStage::PollingStream, MaintainerEvent::Stream(StreamEvent::Item(packet))) => {
                &&& post.stage is PollingStream && out.command is PollStream
                &&& out.notice matches Some(MaintainerNotice::Received(n, p)) && n == pre.name && p == packet
            },
            (MaintainerStage::PollingStream, MaintainerEvent::Stream(StreamEvent::Closed)) => {
                &&& post.stage is Done
                &&& out.notice matches Some(MaintainerNotice::SocketClosed(n)) && n == pre.name
                &&& out.command == MaintainerCommand::Return(Ok(Progress::Ready(())))
            },
            (MaintainerStage::PollingStream, MaintainerEvent::Stream(StreamEvent::Failed(e))) => {
                &&& post.stage is Done && out.notice is None
                &&& out.command == MaintainerCommand::Return(Err(unnamed(ClientError::Socket(e))))
            },
            (MaintainerStage::PollingStream, MaintainerEvent::Stream(StreamEvent::NotReady)) => {
                post.stage is PollingKeepalive && out.notice is None && out.command is PollKeepalive
            },
            (MaintainerStage::PollingKeepalive, MaintainerEvent::Keepalive(TimerEvent::Failed(e))) => {
                &&& post.stage is Done && out.notice is None
                &&& out.command == MaintainerCommand::Return(Err(unnamed(ClientError::Timer(e))))
            },
            (MaintainerStage::PollingKeepalive, MaintainerEvent::Keepalive(TimerEvent::Elapsed)) => {
                &&& post.stage is Done && out.notice is None
                &&& out.command == MaintainerCommand::Return(
                    Err(NamedClientError { name: Some(pre.name), error: ClientError::Keepalive }),
                )
            },
            (MaintainerStage::PollingKeepalive, MaintainerEvent::Keepalive(TimerEvent::NotReady)) => {
                &&& post.stage is Waiting && out.notice is None
                &&& out.command == MaintainerCommand::Return(Ok(Progress::NotReady))
            },
            _ => false,
        }
    }

    /// Takes the next event of a poll and says what to do next.
    pub fn step(&mut self, event: MaintainerEvent) -> (out: MaintainerStep)
        requires
            old(self).accepts(event),
        ensures
            ClientMaintainer::transition(*old(self), event, *final(self), out),
    {
        let mut stage = MaintainerStage::Done;
        std::mem::swap(&mut self.stage, &mut stage);
        match (stage, event) {
            (MaintainerStage::Waiting, MaintainerEvent::Polled) => {
                self.stage = MaintainerStage::PollingStream;
                MaintainerStep { notice: None, command: MaintainerCommand::PollStream }
            },
            (MaintainerStage::PollingStream, MaintainerEvent::Stream(polled)) => match polled {
                StreamEvent::Item(packet) => {
                    self.stage = MaintainerStage::PollingStream;
                    MaintainerStep {
                        notice: Some(MaintainerNotice::Received(self.name.clone(), packet)),
                        command: MaintainerCommand::PollStream,
                    }
                },
                StreamEvent::Closed => MaintainerStep {
                    notice: Some(MaintainerNotice::SocketClosed(self.name.clone())),
                    command: MaintainerCommand::Return(Ok(Progress::Ready(()))),
                },
                StreamEvent::Failed(e) => MaintainerStep {
                    notice: None,
                    command: MaintainerCommand::Return(Err(NamedClientError::from(e))),
                },
                StreamEvent::NotReady => {
                    self.stage = MaintainerStage::PollingKeepalive;
                    MaintainerStep { notice: None, command: MaintainerCommand::PollKeepalive }
                },
            },
            (MaintainerStage::PollingKeepalive, MaintainerEvent::Keepalive(polled)) => match polled {
                TimerEvent::Failed(e) => MaintainerStep {
                    notice: None,
                    command: MaintainerCommand::Return(Err(NamedClientError::from(e))),
                },
                TimerEvent::Elapsed => MaintainerStep {
                    notice: None,
                    command: MaintainerCommand::Return(
                        Err(NamedClientError { name: Some(self.name.clone()), error: ClientError::Keepalive }),
                    ),
                },
                TimerEvent::NotReady => {
                    self.stage = MaintainerStage::Waiting;
                    MaintainerStep { notice: None, command: MaintainerCommand::Return(Ok(Progress::NotReady)) }
                },
            },
            _ => {
                proof {
                    assert(false);
                }
                MaintainerStep { notice: None, command: MaintainerCommand::PollStream }
            },
        }
    }
}


/// What holds of every greeter reached from a new one: a pending
/// acknowledgement accepts the client exactly when its name is not banned.
pub open spec fn greeter_invariant(g: ClientGreeter) -> bool {
    g.stage matches GreeterStage::Acknowledging { name, accepted } ==> accepted == !is_banned(name@)
}

/// Each step keeps the greeter invariant; under it, the acknowledgement
/// queued for a client accepts it exactly when its name is not banned,
/// and a greeter admits (returns a maintainer for) no banned client.
pub proof fn lemma_greeter_step_admits_no_banned(
    pre: ClientGreeter,
    event: GreeterEvent,
    post: ClientGreeter,
    out: GreeterStep,
)
    requires
        greeter_invariant(pre),
        ClientGreeter::transition(pre, event, post, out),
    ensures
        greeter_invariant(post),
        out.command matches GreeterCommand::Send(Packet::ConnectAck { accepted }) ==> (post.stage matches GreeterStage::Acknowledging { name, .. } && accepted == !is_banned(name@)),
        out.command matches GreeterCommand::Return(Ok(Progress::Ready(m))) ==> !is_banned(m.name@),
{
}

/// Over any run of a greeter from its creation, no client with the banned
/// name is ever admitted, and every client it admits was acknowledged as
/// accepted.
pub proof fn lemma_greeter_run_admits_no_banned(
    states: Seq<ClientGreeter>,
    events: Seq<GreeterEvent>,
    outs: Seq<GreeterStep>,
)
    requires
        states.len() == events.len() + 1,
        outs.len() == events.len(),
        states[0].stage is Waiting,
        forall|i: int|
            #![trigger outs[i]]
            0 <= i < events.len() ==> ClientGreeter::transition(states[i], events[i], states[i + 1], outs[i]),
    ensures
        forall|i: int|
            #![trigger outs[i]]
            0 <= i < events.len() ==> (outs[i].command matches GreeterCommand::Return(Ok(Progress::Ready(m)))
                ==> !is_banned(m.name@)),
    decreases events.len(),
{
    if events.len() > 0 {
        let k = events.len() - 1;
        lemma_greeter_run_admits_no_banned(states.drop_last(), events.drop_last(), outs.drop_last());
        assert(forall|i: int|
            #![trigger outs[i]]
            0 <= i < k ==> ClientGreeter::transition(states[i], events[i], states[i + 1], outs[i]));
        lemma_greeter_run_invariant(states, events, outs, k);
        lemma_greeter_step_admits_no_banned(states[k], events[k], states[k + 1], outs[k]);
        assert forall|i: int| #![trigger outs[i]] 0 <= i < k implies (outs[i].command matches GreeterCommand::Return(Ok(Progress::Ready(m)))
            ==> !is_banned(m.name@)) by {
            assert(outs.drop_last()[i] == outs[i]);
        }
    }
}

/// Every greeter along a run from a new one keeps the greeter invariant.
proof fn lemma_greeter_run_invariant(
    states: Seq<ClientGreeter>,
    events: Seq<GreeterEvent>,
    outs: Seq<GreeterStep>,
    k: int,
)
    requires
        states.len() == events.len() + 1,
        outs.len() == events.len(),
        states[0].stage is Waiting,
        forall|i: int|
            #![trigger outs[i]]
            0 <= i < events.len() ==> ClientGreeter::transition(states[i], events[i], states[i + 1], outs[i]),
        0 <= k <= events.len(),
    ensures
        greeter_invariant(states[k]),
    decreases k,
{
    if k > 0 {
        lemma_greeter_run_invariant(states, events, outs, k - 1);
        assert(ClientGreeter::transition(states[k - 1], events[k - 1], states[k], outs[k - 1]));
        lemma_greeter_step_admits_no_banned(states[k - 1], events[k - 1], states[k], outs[k - 1]);
    }
}

/// A `Connect` packet is acknowledged as refused exactly when its name is
/// the string "troll"; every other client is acknowledged as accepted and
/// announced as connected.
pub proof fn lemma_greeter_refuses_only_troll(
    pre: ClientGreeter,
    name: String,
    post: ClientGreeter,
    out: GreeterStep,
)
    requires
        pre.stage is PollingStream,
        ClientGreeter::transition(pre, GreeterEvent::Stream(StreamEvent::Item(Packet::Connect { name })), post, out),
    ensures
        out.command == GreeterCommand::Send(Packet::ConnectAck { accepted: name@ != "troll"@ }),
        name@ != "troll"@ ==> (out.notice matches Some(GreeterNotice::Connected(n)) && n == name),
        name@ == "troll"@ ==> out.notice is None,
        post.stage matches GreeterStage::Acknowledging { name: n, .. } && n == name,
{
}

/// From a new greeter, polling, a `Connect` packet from `name` and a
/// successfully queued acknowledgement admit the client (a maintainer
/// named `name` with the greeter's keepalive) unless the name is "troll",
/// which ends with `Unauthorized` for that name.
pub proof fn lemma_greeter_connect_run(
    g0: ClientGreeter,
    g1: ClientGreeter,
    g2: ClientGreeter,
    g3: ClientGreeter,
    name: String,
    o1: GreeterStep,
    o2: GreeterStep,
    o3: GreeterStep,
)
    requires
        g0.stage is Waiting,
        ClientGreeter::transition(g0, GreeterEvent::Polled, g1, o1),
        ClientGreeter::transition(g1, GreeterEvent::Stream(StreamEvent::Item(Packet::Connect { name })), g2, o2),
        ClientGreeter::transition(g2, GreeterEvent::AckQueued(Ok(())), g3, o3),
    ensures
        o1.command is PollStream,
        o2.command == GreeterCommand::Send(Packet::ConnectAck { accepted: name@ != "troll"@ }),
        name@ != "troll"@ ==> o3.command == GreeterCommand::Return(
            Ok(Progress::Ready(ClientMaintainer { name, keepalive: g0.keepalive, stage: MaintainerStage::Waiting })),
        ),
        name@ == "troll"@ ==> o3.command == GreeterCommand::Return(
            Err(NamedClientError { name: Some(name), error: ClientError::Unauthorized }),
        ),
        g3.stage is Done,
{
}

/// A greeter ends a poll with "not ready" only after its connect delay
/// reported "not ready"; a failing stream or timer ends it with that
/// error and no name.
pub proof fn lemma_greeter_waits_only_on_timer(
    pre: ClientGreeter,
    event: GreeterEvent,
    post: ClientGreeter,
    out: GreeterStep,
)
    requires
        ClientGreeter::transition(pre, event, post, out),
    ensures
        out.command == GreeterCommand::Return(Ok(Progress::NotReady)) ==> event matches GreeterEvent::Timer(TimerEvent::NotReady),
        event matches GreeterEvent::Stream(StreamEvent::Failed(e)) ==> post.stage is Done && out.command
            == GreeterCommand::Return(Err(NamedClientError { name: None, error: ClientError::Socket(e) })),
        event matches GreeterEvent::Timer(TimerEvent::Failed(e)) ==> post.stage is Done && out.command
            == GreeterCommand::Return(Err(NamedClientError { name: None, error: ClientError::Timer(e) })),
{
}

/// A maintainer reading its stream logs every packet, whatever its kind,
/// under the client's name, and goes on reading the stream in the same
/// poll.
pub proof fn lemma_maintainer_reads_on(
    pre: ClientMaintainer,
    packet: Packet,
    post: ClientMaintainer,
    out: MaintainerStep,
)
    requires
        pre.stage is PollingStream,
        ClientMaintainer::transition(pre, MaintainerEvent::Stream(StreamEvent::Item(packet)), post, out),
    ensures
        out.command is PollStream,
        post.stage is PollingStream,
        post.name == pre.name,
        out.notice matches Some(MaintainerNotice::Received(n, p)) && n == pre.name && p == packet,
{
}

/// A maintainer ends a poll with "not ready" only after its keepalive
/// delay reported "not ready"; a failing stream or timer ends it with
/// that error and no name.
pub proof fn lemma_maintainer_waits_only_on_keepalive(
    pre: ClientMaintainer,
    event: MaintainerEvent,
    post: ClientMaintainer,
    out: MaintainerStep,
)
    requires
        ClientMaintainer::transition(pre, event, post, out),
    ensures
        out.command == MaintainerCommand::Return(Ok(Progress::NotReady)) ==> event matches MaintainerEvent::Keepalive(TimerEvent::NotReady),
        event matches MaintainerEvent::Stream(StreamEvent::Failed(e)) ==> post.stage is Done && out.command
            == MaintainerCommand::Return(Err(NamedClientError { name: None, error: ClientError::Socket(e) })),
        event matches MaintainerEvent::Keepalive(TimerEvent::Failed(e)) ==> post.stage is Done && out.command
            == MaintainerCommand::Return(Err(NamedClientError { name: None, error: ClientError::Timer(e) })),
{
}

/// A connected client's handler ends without error only when the client
/// closed its socket, and ends with the client's name when its keepalive
/// delay runs out.
pub proof fn lemma_maintainer_endings(
    pre: ClientMaintainer,
    event: MaintainerEvent,
    post: ClientMaintainer,
    out: MaintainerStep,
)
    requires
        ClientMaintainer::transition(pre, event, post, out),
    ensures
        out.command == MaintainerCommand::Return(Ok(Progress::Ready(()))) <==> event matches MaintainerEvent::Stream(StreamEvent::Closed),
        event matches MaintainerEvent::Keepalive(TimerEvent::Elapsed) ==> out.command == MaintainerCommand::Return(
            Err(NamedClientError { name: Some(pre.name), error: ClientError::Keepalive }),
        ),
{
}

} // verus!
