use std::io;
use tokio_examples::greetings_server as plain;
use tokio_examples::keepalive_server as kept;
use tokio_examples::poll::{FlushEvent, Progress, StreamEvent, TimerEvent};

fn io_error() -> io::Error {
    io::Error::new(io::ErrorKind::BrokenPipe, "closed")
}

#[test]
fn keepalive_greeting_is_sent_once_across_polls() {
    let mut g = kept::ClientGreetings::new();
    let out = g.step(kept::GreetingsEvent::Polled);
    assert!(matches!(out.notice, Some(kept::GreetingsNotice::SendingGreetings)));
    match out.command {
        kept::GreetingsCommand::Send(line) => assert_eq!(line, "Hello"),
        _ => panic!("the greeting should be queued"),
    }
    assert!(g.is_sending);
    assert!(matches!(g.step(kept::GreetingsEvent::Queued(Ok(()))).command, kept::GreetingsCommand::Flush));
    let out = g.step(kept::GreetingsEvent::Flush(FlushEvent::NotReady));
    assert!(matches!(out.command, kept::GreetingsCommand::Return(Ok(Progress::NotReady))));
    let out = g.step(kept::GreetingsEvent::Polled);
    assert!(out.notice.is_none());
    assert!(matches!(out.command, kept::GreetingsCommand::Flush));
    let out = g.step(kept::GreetingsEvent::Flush(FlushEvent::Flushed));
    assert!(matches!(out.notice, Some(kept::GreetingsNotice::GreetingsSent)));
    assert!(matches!(out.command, kept::GreetingsCommand::Return(Ok(Progress::Ready(())))));
}

#[test]
fn keepalive_greeting_failures_are_socket_errors() {
    let mut g = kept::ClientGreetings::new();
    g.step(kept::GreetingsEvent::Polled);
    let out = g.step(kept::GreetingsEvent::Queued(Err(io_error())));
    assert!(matches!(out.command, kept::GreetingsCommand::Return(Err(kept::ClientError::Socket(_)))));
    let mut g = kept::ClientGreetings::new();
    g.step(kept::GreetingsEvent::Polled);
    g.step(kept::GreetingsEvent::Queued(Ok(())));
    let out = g.step(kept::GreetingsEvent::Flush(FlushEvent::Failed(io_error())));
    assert!(matches!(out.command, kept::GreetingsCommand::Return(Err(kept::ClientError::Socket(_)))));
}

#[test]
fn keepalive_lines_restart_the_deadline() {
    let mut m = kept::ClientMaintenance::new(10);
    assert!(matches!(m.step(kept::MaintenanceEvent::Polled).command, kept::MaintenanceCommand::PollStream));
    let out = m.step(kept::MaintenanceEvent::Stream(StreamEvent::Item("hi".to_string())));
    assert!(matches!(out.notice, Some(kept::MaintenanceNotice::ClientSaid(ref l)) if l == "hi"));
    assert!(matches!(out.command, kept::MaintenanceCommand::RestartKeepalive(10)));
    assert!(!m.expects(&kept::MaintenanceEvent::Stream(StreamEvent::NotReady)));
    assert!(matches!(m.step(kept::MaintenanceEvent::Restarted).command, kept::MaintenanceCommand::PollStream));
    let out = m.step(kept::MaintenanceEvent::Stream(StreamEvent::NotReady));
    assert!(matches!(out.command, kept::MaintenanceCommand::PollKeepalive));
    let out = m.step(kept::MaintenanceEvent::Keepalive(TimerEvent::NotReady));
    assert!(matches!(out.command, kept::MaintenanceCommand::Return(Ok(Progress::NotReady))));
}

#[test]
fn keepalive_expiry_closes_without_error() {
    let mut m = kept::ClientMaintenance::new(1);
    m.step(kept::MaintenanceEvent::Polled);
    m.step(kept::MaintenanceEvent::Stream(StreamEvent::NotReady));
    let out = m.step(kept::MaintenanceEvent::Keepalive(TimerEvent::Elapsed));
    assert!(matches!(out.notice, Some(kept::MaintenanceNotice::ConnectionExpired)));
    assert!(matches!(out.command, kept::MaintenanceCommand::Return(Ok(Progress::Ready(())))));
}

#[test]
fn keepalive_maintenance_errors() {
    let mut m = kept::ClientMaintenance::new(1);
    m.step(kept::MaintenanceEvent::Polled);
    let out = m.step(kept::MaintenanceEvent::Stream(StreamEvent::Closed));
    assert!(matches!(out.notice, Some(kept::MaintenanceNotice::SocketClosed)));
    assert!(matches!(out.command, kept::MaintenanceCommand::Return(Ok(Progress::Ready(())))));
    let mut m = kept::ClientMaintenance::new(1);
    m.step(kept::MaintenanceEvent::Polled);
    m.step(kept::MaintenanceEvent::Stream(StreamEvent::NotReady));
    let out = m.step(kept::MaintenanceEvent::Keepalive(TimerEvent::Failed(tokio::timer::Error::shutdown())));
    assert!(matches!(out.command, kept::MaintenanceCommand::Return(Err(kept::ClientError::Timer(_)))));
    let e = kept::ClientError::from(io_error());
    assert!(matches!(e, kept::ClientError::Socket(_)));
}

#[test]
fn plain_greeting_is_sent_once_across_polls() {
    let mut g = plain::ClientGreetings::new();
    let out = g.step(plain::GreetingsEvent::Polled);
    match out.command {
        plain::GreetingsCommand::Send(line) => assert_eq!(line, "Hello"),
        _ => panic!("the greeting should be queued"),
    }
    assert!(!g.is_sending);
    g.step(plain::GreetingsEvent::Queued(Ok(())));
    let out = g.step(plain::GreetingsEvent::Flush(FlushEvent::NotReady));
    assert!(matches!(out.command, plain::GreetingsCommand::Return(Ok(Progress::NotReady))));
    assert!(g.is_sending);
    let out = g.step(plain::GreetingsEvent::Polled);
    assert!(matches!(out.command, plain::GreetingsCommand::Flush));
    let out = g.step(plain::GreetingsEvent::Flush(FlushEvent::Flushed));
    assert!(matches!(out.notice, Some(plain::GreetingsNotice::GreetingsSent)));
    assert!(matches!(out.command, plain::GreetingsCommand::Return(Ok(Progress::Ready(())))));
}

#[test]
fn plain_maintenance_prints_until_close() {
    let mut m = plain::ClientMaintenance::new();
    m.step(plain::MaintenanceEvent::Polled);
    let out = m.step(plain::MaintenanceEvent::Stream(StreamEvent::Item("a".to_string())));
    assert!(matches!(out.notice, Some(plain::MaintenanceNotice::ClientSaid(ref l)) if l == "a"));
    assert!(matches!(out.command, plain::MaintenanceCommand::PollStream));
    let out = m.step(plain::MaintenanceEvent::Stream(StreamEvent::NotReady));
    assert!(matches!(out.command, plain::MaintenanceCommand::Return(Ok(Progress::NotReady))));
    m.step(plain::MaintenanceEvent::Polled);
    let out = m.step(plain::MaintenanceEvent::Stream(StreamEvent::Closed));
    assert!(matches!(out.notice, Some(plain::MaintenanceNotice::SocketClosed)));
    assert!(matches!(out.command, plain::MaintenanceCommand::Return(Ok(Progress::Ready(())))));
}

#[test]
fn plain_maintenance_socket_error() {
    let mut m = plain::ClientMaintenance::new();
    m.step(plain::MaintenanceEvent::Polled);
    let out = m.step(plain::MaintenanceEvent::Stream(StreamEvent::Failed(io_error())));
    assert!(matches!(out.command, plain::MaintenanceCommand::Return(Err(_))));
}
