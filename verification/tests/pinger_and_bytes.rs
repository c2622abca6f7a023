use std::io;
use tokio_examples::byte_stream::{ByteCodec, FlushCommand, ReadCommand, ReadEvent, WriteEvent};
use tokio_examples::pinger::{Pinger, PingerCommand, PingerError, PingerEvent, PingerNotice};
use tokio_examples::poll::{FlushEvent, Progress, StreamEvent, TickEvent};

#[test]
fn pinger_prints_server_lines_and_pings_on_ticks() {
    let mut p = Pinger::new();
    assert!(matches!(p.step(PingerEvent::Polled).command, PingerCommand::PollStream));
    let out = p.step(PingerEvent::Stream(StreamEvent::Item("pong".to_string())));
    assert!(matches!(out.notice, Some(PingerNotice::ServerSaid(ref l)) if l == "pong"));
    assert!(matches!(out.command, PingerCommand::PollStream));
    assert!(matches!(p.step(PingerEvent::Stream(StreamEvent::NotReady)).command, PingerCommand::PollInterval));
    let out = p.step(PingerEvent::Interval(TickEvent::Tick));
    assert!(matches!(out.notice, Some(PingerNotice::SendingPing)));
    match out.command {
        PingerCommand::Send(line) => assert_eq!(line, "Ping"),
        _ => panic!("a ping should be queued"),
    }
    assert!(matches!(p.step(PingerEvent::Queued(Ok(()))).command, PingerCommand::PollInterval));
    assert!(matches!(p.step(PingerEvent::Interval(TickEvent::NotReady)).command, PingerCommand::Flush));
    let out = p.step(PingerEvent::Flush(FlushEvent::Flushed));
    assert!(matches!(out.notice, Some(PingerNotice::Flushed)));
    assert!(matches!(out.command, PingerCommand::Return(Ok(Progress::NotReady))));
}

#[test]
fn pinger_without_tick_only_flushes() {
    let mut p = Pinger::new();
    p.step(PingerEvent::Polled);
    p.step(PingerEvent::Stream(StreamEvent::NotReady));
    let out = p.step(PingerEvent::Interval(TickEvent::NotReady));
    assert!(out.notice.is_none());
    assert!(matches!(out.command, PingerCommand::Flush));
    let out = p.step(PingerEvent::Flush(FlushEvent::NotReady));
    assert!(out.notice.is_none());
    assert!(matches!(out.command, PingerCommand::Return(Ok(Progress::NotReady))));
}

#[test]
fn pinger_exits_when_the_server_closes() {
    let mut p = Pinger::new();
    p.step(PingerEvent::Polled);
    let out = p.step(PingerEvent::Stream(StreamEvent::Closed));
    assert!(matches!(out.notice, Some(PingerNotice::SocketClosed)));
    assert!(matches!(out.command, PingerCommand::Return(Ok(Progress::Ready(())))));
}

#[test]
fn pinger_errors() {
    let mut p = Pinger::new();
    p.step(PingerEvent::Polled);
    p.step(PingerEvent::Stream(StreamEvent::NotReady));
    let out = p.step(PingerEvent::Interval(TickEvent::Failed(tokio::timer::Error::shutdown())));
    assert!(matches!(out.command, PingerCommand::Return(Err(PingerError::Timer(_)))));
    let mut p = Pinger::new();
    p.step(PingerEvent::Polled);
    p.step(PingerEvent::Stream(StreamEvent::NotReady));
    p.step(PingerEvent::Interval(TickEvent::Tick));
    let out = p.step(PingerEvent::Queued(Err(io::Error::new(io::ErrorKind::Other, "x"))));
    assert!(matches!(out.command, PingerCommand::Return(Err(PingerError::Socket(_)))));
}

#[test]
fn byte_codec_hands_out_everything_read() {
    let mut c = ByteCodec::new();
    assert!(matches!(c.read_step(ReadEvent::Polled), ReadCommand::Read));
    c.rd.extend_from_slice(b"hello ");
    assert!(matches!(c.read_step(ReadEvent::Read(6)), ReadCommand::Read));
    c.rd.extend_from_slice(b"world");
    assert!(matches!(c.read_step(ReadEvent::Read(5)), ReadCommand::Read));
    match c.read_step(ReadEvent::NotReady) {
        ReadCommand::Return(Ok(Progress::Ready(Some(chunk)))) => assert_eq!(&chunk[..], b"hello world"),
        _ => panic!("a chunk should be handed out"),
    }
    assert!(c.rd.is_empty());
    assert!(matches!(c.read_step(ReadEvent::NotReady), ReadCommand::Return(Ok(Progress::NotReady))));
}

#[test]
fn byte_codec_ends_after_close_once_drained() {
    let mut c = ByteCodec::new();
    c.rd.extend_from_slice(b"bye");
    match c.read_step(ReadEvent::Read(0)) {
        ReadCommand::Return(Ok(Progress::Ready(Some(chunk)))) => assert_eq!(&chunk[..], b"bye"),
        _ => panic!("the last bytes should be handed out"),
    }
    assert!(matches!(c.read_step(ReadEvent::Read(0)), ReadCommand::Return(Ok(Progress::Ready(None)))));
    let failed = c.read_step(ReadEvent::Failed(io::Error::new(io::ErrorKind::Other, "x")));
    assert!(matches!(failed, ReadCommand::Return(Err(_))));
}

#[test]
fn byte_codec_flushes_until_empty() {
    let mut c = ByteCodec::new();
    assert!(matches!(c.flush_step(WriteEvent::Polled), FlushCommand::Return(Ok(Progress::Ready(())))));
    c.buffer(b"abcdef");
    assert_eq!(&c.wr[..], b"abcdef");
    assert!(matches!(c.flush_step(WriteEvent::Polled), FlushCommand::Write));
    assert!(matches!(c.flush_step(WriteEvent::Wrote(4)), FlushCommand::Write));
    assert_eq!(&c.wr[..], b"ef");
    assert!(matches!(c.flush_step(WriteEvent::NotReady), FlushCommand::Return(Ok(Progress::NotReady))));
    assert!(matches!(c.flush_step(WriteEvent::Wrote(2)), FlushCommand::Return(Ok(Progress::Ready(())))));
    assert!(c.wr.is_empty());
}

#[test]
fn byte_codec_buffer_fits_checks_the_bound() {
    let mut c = ByteCodec::new();
    assert!(c.buffer_fits(b"abc"));
    c.buffer(b"abc");
    assert!(c.buffer_fits(b""));
}

#[test]
fn byte_codec_chunks_over_polls_add_up_to_the_bytes_read() {
    let mut c = ByteCodec::new();
    let mut handed: Vec<u8> = Vec::new();
    let deliveries: [&[u8]; 4] = [b"ab", b"", b"cde", b"f"];
    for d in deliveries.iter() {
        assert!(matches!(c.read_step(ReadEvent::Polled), ReadCommand::Read));
        c.rd.extend_from_slice(d);
        if d.is_empty() {
            match c.read_step(ReadEvent::NotReady) {
                ReadCommand::Return(Ok(Progress::Ready(Some(chunk)))) => {
                    assert!(!chunk.is_empty());
                    handed.extend_from_slice(&chunk)
                },
                ReadCommand::Return(Ok(Progress::NotReady)) => {},
                _ => panic!("unexpected answer"),
            }
        } else {
            assert!(matches!(c.read_step(ReadEvent::Read(d.len())), ReadCommand::Read));
        }
    }
    if let ReadCommand::Return(Ok(Progress::Ready(Some(chunk)))) = c.read_step(ReadEvent::Read(0)) {
        handed.extend_from_slice(&chunk);
    }
    assert_eq!(&handed[..], b"abcdef");
    assert!(c.rd.is_empty());
}
