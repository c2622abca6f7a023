use std::io;
use tokio_examples::client_manager::{
    ClientError, ClientGreeter, ClientMaintainer, GreeterCommand, GreeterEvent, GreeterNotice,
    MaintainerCommand, MaintainerEvent, MaintainerNotice, NamedClientError,
};
use tokio_examples::codec::Packet;
use tokio_examples::poll::{Progress, StreamEvent, TimerEvent};

fn io_error() -> io::Error {
    io::Error::new(io::ErrorKind::Other, "socket gone")
}

fn connect(name: &str) -> GreeterEvent {
    GreeterEvent::Stream(StreamEvent::Item(Packet::Connect { name: name.to_string() }))
}

fn polled_greeter() -> ClientGreeter {
    let mut g = ClientGreeter::new(5, 10);
    assert!(g.expects(&GreeterEvent::Polled));
    let out = g.step(GreeterEvent::Polled);
    assert!(out.notice.is_none());
    assert!(matches!(out.command, GreeterCommand::PollStream));
    g
}

#[test]
fn greeter_admits_a_named_client() {
    let mut g = polled_greeter();
    let out = g.step(connect("alice"));
    assert!(matches!(out.notice, Some(GreeterNotice::Connected(ref n)) if n == "alice"));
    assert!(matches!(out.command, GreeterCommand::Send(Packet::ConnectAck { accepted: true })));
    let out = g.step(GreeterEvent::AckQueued(Ok(())));
    match out.command {
        GreeterCommand::Return(Ok(Progress::Ready(m))) => {
            assert_eq!(m.name, "alice");
            assert_eq!(m.keepalive, 10);
        },
        _ => panic!("the client should be admitted"),
    }
    assert!(!g.expects(&GreeterEvent::Polled));
}

#[test]
fn greeter_refuses_the_troll() {
    let mut g = polled_greeter();
    let out = g.step(connect("troll"));
    assert!(out.notice.is_none());
    assert!(matches!(out.command, GreeterCommand::Send(Packet::ConnectAck { accepted: false })));
    let out = g.step(GreeterEvent::AckQueued(Ok(())));
    match out.command {
        GreeterCommand::Return(Err(NamedClientError { name: Some(n), error: ClientError::Unauthorized })) => {
            assert_eq!(n, "troll")
        },
        _ => panic!("the troll should be refused"),
    }
}

#[test]
fn greeter_failed_ack_for_troll_is_unnamed() {
    let mut g = polled_greeter();
    g.step(connect("troll"));
    let out = g.step(GreeterEvent::AckQueued(Err(io_error())));
    assert!(matches!(
        out.command,
        GreeterCommand::Return(Err(NamedClientError { name: None, error: ClientError::Socket(_) }))
    ));
}

#[test]
fn greeter_failed_ack_for_client_is_named() {
    let mut g = polled_greeter();
    g.step(connect("bob"));
    let out = g.step(GreeterEvent::AckQueued(Err(io_error())));
    match out.command {
        GreeterCommand::Return(Err(NamedClientError { name: Some(n), error: ClientError::Socket(_) })) => {
            assert_eq!(n, "bob")
        },
        _ => panic!("expected a named socket error"),
    }
}

#[test]
fn greeter_refuses_a_first_packet_that_is_not_connect() {
    let mut g = polled_greeter();
    let out = g.step(GreeterEvent::Stream(StreamEvent::Item(Packet::Ping)));
    assert!(matches!(
        out.command,
        GreeterCommand::Return(Err(NamedClientError { name: None, error: ClientError::BadConnectPacket(Packet::Ping) }))
    ));
}

#[test]
fn greeter_reports_a_disconnect_before_connect() {
    let mut g = polled_greeter();
    let out = g.step(GreeterEvent::Stream(StreamEvent::Closed));
    assert!(matches!(
        out.command,
        GreeterCommand::Return(Err(NamedClientError { name: None, error: ClientError::DisconnectBeforeConnectPacket }))
    ));
}

#[test]
fn greeter_waits_then_times_out() {
    let mut g = polled_greeter();
    let out = g.step(GreeterEvent::Stream(StreamEvent::NotReady));
    assert!(matches!(out.command, GreeterCommand::PollTimer));
    let out = g.step(GreeterEvent::Timer(TimerEvent::NotReady));
    assert!(matches!(out.command, GreeterCommand::Return(Ok(Progress::NotReady))));
    let out = g.step(GreeterEvent::Polled);
    assert!(matches!(out.command, GreeterCommand::PollStream));
    g.step(GreeterEvent::Stream(StreamEvent::NotReady));
    let out = g.step(GreeterEvent::Timer(TimerEvent::Elapsed));
    assert!(matches!(out.notice, Some(GreeterNotice::ConnectExpired)));
    assert!(matches!(
        out.command,
        GreeterCommand::Return(Err(NamedClientError { name: None, error: ClientError::ConnectTimeout }))
    ));
}

#[test]
fn greeter_reports_timer_and_socket_failures() {
    let mut g = polled_greeter();
    g.step(GreeterEvent::Stream(StreamEvent::NotReady));
    let out = g.step(GreeterEvent::Timer(TimerEvent::Failed(tokio::timer::Error::shutdown())));
    assert!(matches!(
        out.command,
        GreeterCommand::Return(Err(NamedClientError { name: None, error: ClientError::Timer(_) }))
    ));
    let mut g = polled_greeter();
    let out = g.step(GreeterEvent::Stream(StreamEvent::Failed(io_error())));
    assert!(matches!(
        out.command,
        GreeterCommand::Return(Err(NamedClientError { name: None, error: ClientError::Socket(_) }))
    ));
}

#[test]
fn greeter_expects_only_the_event_it_asked_for() {
    let mut g = polled_greeter();
    assert!(!g.expects(&GreeterEvent::Polled));
    assert!(!g.expects(&GreeterEvent::AckQueued(Ok(()))));
    assert!(g.expects(&GreeterEvent::Stream(StreamEvent::NotReady)));
    g.step(GreeterEvent::Stream(StreamEvent::NotReady));
    assert!(g.expects(&GreeterEvent::Timer(TimerEvent::NotReady)));
}

#[test]
fn maintainer_logs_packets_until_close() {
    let mut m = ClientMaintainer::new("erin".to_string(), 10);
    assert!(matches!(m.step(MaintainerEvent::Polled).command, MaintainerCommand::PollStream));
    let out = m.step(MaintainerEvent::Stream(StreamEvent::Item(Packet::Message { msg: "hey".to_string() })));
    match out.notice {
        Some(MaintainerNotice::Received(n, p)) => {
            assert_eq!(n, "erin");
            assert_eq!(p, Packet::Message { msg: "hey".to_string() });
        },
        _ => panic!("the packet should be logged"),
    }
    assert!(matches!(out.command, MaintainerCommand::PollStream));
    let out = m.step(MaintainerEvent::Stream(StreamEvent::Closed));
    assert!(matches!(out.notice, Some(MaintainerNotice::SocketClosed(ref n)) if n == "erin"));
    assert!(matches!(out.command, MaintainerCommand::Return(Ok(Progress::Ready(())))));
}

#[test]
fn maintainer_drops_a_client_after_keepalive() {
    let mut m = ClientMaintainer::new("frank".to_string(), 3);
    m.step(MaintainerEvent::Polled);
    let out = m.step(MaintainerEvent::Stream(StreamEvent::NotReady));
    assert!(matches!(out.command, MaintainerCommand::PollKeepalive));
    let out = m.step(MaintainerEvent::Keepalive(TimerEvent::NotReady));
    assert!(matches!(out.command, MaintainerCommand::Return(Ok(Progress::NotReady))));
    m.step(MaintainerEvent::Polled);
    m.step(MaintainerEvent::Stream(StreamEvent::NotReady));
    let out = m.step(MaintainerEvent::Keepalive(TimerEvent::Elapsed));
    match out.command {
        MaintainerCommand::Return(Err(NamedClientError { name: Some(n), error: ClientError::Keepalive })) => {
            assert_eq!(n, "frank")
        },
        _ => panic!("the client should be dropped"),
    }
}

#[test]
fn maintainer_socket_error_is_unnamed() {
    let mut m = ClientMaintainer::new("gina".to_string(), 3);
    m.step(MaintainerEvent::Polled);
    let out = m.step(MaintainerEvent::Stream(StreamEvent::Failed(io_error())));
    assert!(matches!(
        out.command,
        MaintainerCommand::Return(Err(NamedClientError { name: None, error: ClientError::Socket(_) }))
    ));
}

#[test]
fn named_client_error_from_sub_errors() {
    let e = NamedClientError::from(io_error());
    assert!(e.name.is_none());
    assert!(matches!(e.error, ClientError::Socket(_)));
    let e = NamedClientError::from(tokio::timer::Error::at_capacity());
    assert!(matches!(e.error, ClientError::Timer(_)));
}
