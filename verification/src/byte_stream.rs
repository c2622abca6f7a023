//! The raw listening server's stream of byte chunks: bytes read from a
//! socket gather in a read buffer and are handed out as one chunk per
//! poll; bytes to send gather in a write buffer that is written out until
//! it is empty.
//!
//! The socket stays with the driver: it reads into `rd` and writes from
//! `wr` when `read_step` and `flush_step` ask it to, and reports what
//! happened.

use crate::buffer::{append_bytes, buffer_contents, buffer_len, empty_buffer, split_front};
use crate::poll::Progress;
use bytes::BytesMut;
use vstd::prelude::*;

verus! {

/// The read and write buffers of one socket.
pub struct ByteCodec {
    /// Bytes read from the socket, not yet handed out.
    pub rd: BytesMut,
    /// Bytes to write to the socket, not yet written.
    pub wr: BytesMut,
}

/// What the driver reports while reading.
pub enum ReadEvent {
    /// The stream is polled.
    Polled,
    /// This many bytes were read into `rd`; zero means the peer closed.
    Read(usize),
    NotReady,
    Failed(std::io::Error),
}

pub enum ReadCommand {
    /// Make room in `rd` and read from the socket into it.
    Read,
    /// End the poll: a chunk, the end of the stream, or not yet.
    Return(Result<Progress<Option<BytesMut>>, std::io::Error>),
}

/// What the driver reports while flushing.
pub enum WriteEvent {
    /// A flush is asked for.
    Polled,
    /// The socket took this many bytes from the front of `wr`.
    Wrote(usize),
    NotReady,
    Failed(std::io::Error),
}

pub enum FlushCommand {
    /// Write the bytes of `wr` to the socket.
    Write,
    /// End the flush: done (`Ready`), or not yet.
    Return(Result<Progress<()>, std::io::Error>),
}

/// What a poll answers once reading has stopped, `closed` telling whether
/// the peer closed the socket: every byte read so far as one chunk, leaving
/// `rd` empty; else the end of the stream when closed; else not yet.
pub open spec fn chunk_answer(rd: Seq<u8>, closed: bool, post_rd: Seq<u8>, c: ReadCommand) -> bool {
    if rd.len() > 0 {
        &&& c matches ReadCommand::Return(Ok(Progress::Ready(Some(chunk)))) && buffer_contents(chunk) == rd
        &&& post_rd == Seq::<u8>::empty()
    } else {
        &&& post_rd == rd
        &&& c == ReadCommand::Return(Ok(if closed { Progress::Ready(None) } else { Progress::NotReady }))
    }
}

/// One step of reading, seen on the bytes of `rd`: `pre` before the step,
/// `post` after it, `c` the command answered.
pub open spec fn read_transition(pre: Seq<u8>, event: ReadEvent, post: Seq<u8>, c: ReadCommand) -> bool {
    match event {
        ReadEvent::Polled => c is Read && post == pre,
        ReadEvent::Read(n) => if n > 0 {
            c is Read && post == pre
        } else {
            chunk_answer(pre, true, post, c)
        },
        ReadEvent::NotReady => chunk_answer(pre, false, post, c),
        ReadEvent::Failed(e) => c == ReadCommand::Return(Err(e)) && post == pre,
    }
}

/// The bytes a command hands out: those of its chunk, if it has one.
pub open spec fn chunk_of(c: ReadCommand) -> Seq<u8> {
    match c {
        ReadCommand::Return(Ok(Progress::Ready(Some(chunk)))) => buffer_contents(chunk),
        _ => Seq::empty(),
    }
}

/// All the bytes handed out by a sequence of commands, in order.
pub open spec fn handed_out(cmds: Seq<ReadCommand>) -> Seq<u8>
    decreases cmds.len(),
{
    if cmds.len() == 0 {
        Seq::empty()
    } else {
        handed_out(cmds.drop_last()) + chunk_of(cmds.last())
    }
}

/// Byte sequences joined in order.
pub open spec fn joined(parts: Seq<Seq<u8>>) -> Seq<u8>
    decreases parts.len(),
{
    if parts.len() == 0 {
        Seq::empty()
    } else {
        joined(parts.drop_last()) + parts.last()
    }
}

/// In one step, the chunk handed out followed by what stays in `rd` is
/// what `rd` held before; a chunk is never empty.
pub proof fn lemma_read_step_keeps_bytes(pre: Seq<u8>, event: ReadEvent, post: Seq<u8>, c: ReadCommand)
    requires
        read_transition(pre, event, post, c),
    ensures
        chunk_of(c) + post == pre,
        c matches ReadCommand::Return(Ok(Progress::Ready(Some(chunk)))) ==> buffer_contents(chunk).len() > 0,
{
    assert(Seq::<u8>::empty() + post =~= post);
    assert(pre + Seq::<u8>::empty() =~= pre);
}

/// Over any run of reading steps, where the driver adds `delivered[i]`
/// (the bytes the socket gave) to `rd` between step `i` and step `i + 1`:
/// the chunks handed out, followed by what is left in `rd`, are exactly
/// the bytes `rd` began with followed by every byte delivered, in order,
/// none lost or repeated; and no chunk handed out is empty.
pub proof fn lemma_read_run_keeps_bytes(
    pre: Seq<Seq<u8>>,
    post: Seq<Seq<u8>>,
    events: Seq<ReadEvent>,
    cmds: Seq<ReadCommand>,
    delivered: Seq<Seq<u8>>,
)
    requires
        events.len() >= 1,
        pre.len() == events.len(),
        post.len() == events.len(),
        cmds.len() == events.len(),
        delivered.len() + 1 == events.len(),
        forall|i: int| #![trigger cmds[i]] 0 <= i < events.len() ==> read_transition(pre[i], events[i], post[i], cmds[i]),
        forall|i: int| #![trigger delivered[i]] 0 <= i < delivered.len() ==> pre[i + 1] == post[i] + delivered[i],
    ensures
        handed_out(cmds) + post.last() == pre[0] + joined(delivered),
        forall|i: int|
            #![trigger cmds[i]]
            0 <= i < cmds.len() ==> (cmds[i] matches ReadCommand::Return(Ok(Progress::Ready(Some(chunk))))
                ==> buffer_contents(chunk).len() > 0),
    decreases events.len(),
{
    let n = events.len() - 1;
    assert(read_transition(pre[n], events[n], post[n], cmds[n]));
    lemma_read_step_keeps_bytes(pre[n], events[n], post[n], cmds[n]);
    if n == 0 {
        assert(handed_out(cmds.drop_last()) == Seq::<u8>::empty());
        assert(joined(delivered) == Seq::<u8>::empty());
        assert(handed_out(cmds) + post.last() =~= pre[0] + joined(delivered));
    } else {
        let d = delivered.drop_last();
        assert forall|i: int| #![trigger cmds.drop_last()[i]] 0 <= i < n implies read_transition(
            pre.drop_last()[i],
            events.drop_last()[i],
            post.drop_last()[i],
            cmds.drop_last()[i],
        ) by {
            assert(read_transition(pre[i], events[i], post[i], cmds[i]));
        }
        assert forall|i: int| #![trigger d[i]] 0 <= i < d.len() implies pre.drop_last()[i + 1]
            == post.drop_last()[i] + d[i] by {
            assert(pre[i + 1] == post[i] + delivered[i]);
        }
        lemma_read_run_keeps_bytes(pre.drop_last(), post.drop_last(), events.drop_last(), cmds.drop_last(), d);
        let earlier = handed_out(cmds.drop_last());
        assert(post.drop_last().last() == post[n - 1]);
        assert(pre.drop_last()[0] == pre[0]);
        assert(earlier + post[n - 1] == pre[0] + joined(d));
        assert(pre[n] == post[n - 1] + delivered[n - 1]);
        assert(handed_out(cmds) == earlier + chunk_of(cmds[n]));
        assert(joined(delivered) == joined(d) + delivered[n - 1]);
        assert(handed_out(cmds) + post.last() =~= earlier + (chunk_of(cmds[n]) + post[n]));
        assert(earlier + pre[n] =~= (earlier + post[n - 1]) + delivered[n - 1]);
        assert(pre[0] + joined(delivered) =~= (pre[0] + joined(d)) + delivered[n - 1]);
        assert forall|i: int|
            #![trigger cmds[i]]
            0 <= i < cmds.len() implies (cmds[i] matches ReadCommand::Return(Ok(Progress::Ready(Some(chunk))))
                ==> buffer_contents(chunk).len() > 0) by {
            if i < n {
                assert(cmds.drop_last()[i] == cmds[i]);
            }
        }
    }
}

impl ByteCodec {
    pub fn new() -> (c: ByteCodec)
        ensures
            buffer_contents(c.rd) == Seq::<u8>::empty(),
            buffer_contents(c.wr) == Seq::<u8>::empty(),
    {
        ByteCodec { rd: empty_buffer(), wr: empty_buffer() }
    }

    /// Whether adding `line` to the bytes to write keeps the buffer within
    /// what an allocation can hold, which `buffer` requires.
    pub fn buffer_fits(&self, line: &[u8]) -> (r: bool)
        ensures
            r == (buffer_contents(self.wr).len() + line@.len() <= isize::MAX),
    {
        let used = buffer_len(&self.wr);
        let added = line.len();
        used <= isize::MAX as usize && added <= (isize::MAX as usize) - used
    }

    /// Adds `line` to the bytes to write.
    pub fn buffer(&mut self, line: &[u8])
        requires
            buffer_contents(old(self).wr).len() + line@.len() <= isize::MAX,
        ensures
            buffer_contents(final(self).wr) == buffer_contents(old(self).wr) + line@,
            final(self).rd == old(self).rd,
    {
        append_bytes(&mut self.wr, line);
    }

    /// Hands out the bytes read so far once reading has stopped.
    fn answer_chunk(&mut self, closed: bool) -> (c: ReadCommand)
        ensures
            chunk_answer(buffer_contents(old(self).rd), closed, buffer_contents(final(self).rd), c),
            final(self).wr == old(self).wr,
    {
        let len = buffer_len(&self.rd);
        if len > 0 {
            let chunk = split_front(&mut self.rd, len);
            proof {
                assert(buffer_contents(self.rd) =~= Seq::<u8>::empty());
                assert(buffer_contents(chunk) =~= buffer_contents(old(self).rd));
            }
            return ReadCommand::Return(Ok(Progress::Ready(Some(chunk))));
        }
        if closed {
            ReadCommand::Return(Ok(Progress::Ready(None)))
        } else {
            ReadCommand::Return(Ok(Progress::NotReady))
        }
    }

    /// One step of a poll of the stream: read until the socket has nothing
    /// more, then hand out what was read.
    pub fn read_step(&mut self, event: ReadEvent) -> (c: ReadCommand)
        ensures
            final(self).wr == old(self).wr,
            match event {
                ReadEvent::Polled => c is Read && final(self).rd == old(self).rd,
                ReadEvent::Read(n) => if n > 0 {
                    c is Read && final(self).rd == old(self).rd
                } else {
                    chunk_answer(buffer_contents(old(self).rd), true, buffer_contents(final(self).rd), c)
                },
                ReadEvent::NotReady => chunk_answer(
                    buffer_contents(old(self).rd),
                    false,
                    buffer_contents(final(self).rd),
                    c,
                ),
                ReadEvent::Failed(e) => c == ReadCommand::Return(Err(e)) && final(self).rd == old(self).rd,
            },
            read_transition(buffer_contents(old(self).rd), event, buffer_contents(final(self).rd), c),
    {
        match event {
            ReadEvent::Polled => ReadCommand::Read,
            ReadEvent::Read(n) => {
                if n == 0 {
                    self.answer_chunk(true)
                } else {
                    ReadCommand::Read
                }
            },
            ReadEvent::NotReady => self.answer_chunk(false),
            ReadEvent::Failed(e) => ReadCommand::Return(Err(e)),
        }
    }

    /// One step of a flush: write until `wr` is empty.
    pub fn flush_step(&mut self, event: WriteEvent) -> (c: FlushCommand)
        requires
            old(self).write_accepts(event),
        ensures
            final(self).rd == old(self).rd,
            match event {
                WriteEvent::Polled => {
                    &&& final(self).wr == old(self).wr
                    &&& if buffer_contents(old(self).wr).len() == 0 {
                        c == FlushCommand::Return(Ok(Progress::Ready(())))
                    } else {
                        c is Write
                    }
                },
                WriteEvent::Wrote(n) => {
                    &&& buffer_contents(final(self).wr) == buffer_contents(old(self).wr).skip(n as int)
                    &&& if buffer_contents(final(self).wr).len() == 0 {
                        c == FlushCommand::Return(Ok(Progress::Ready(())))
                    } else {
                        c is Write
                    }
                },
                WriteEvent::NotReady => {
                    final(self).wr == old(self).wr && c == FlushCommand::Return(Ok(Progress::NotReady))
                },
                WriteEvent::Failed(e) => final(self).wr == old(self).wr && c == FlushCommand::Return(Err(e)),
            },
    {
        match event {
            WriteEvent::Wrote(n) => {
                let _ = split_front(&mut self.wr, n);
            },
            WriteEvent::NotReady => {
                return FlushCommand::Return(Ok(Progress::NotReady));
            },
            WriteEvent::Failed(e) => {
                return FlushCommand::Return(Err(e));
            },
            WriteEvent::Polled => {},
        }
        if buffer_len(&self.wr) == 0 {
            FlushCommand::Return(Ok(Progress::Ready(())))
        } else {
            FlushCommand::Write
        }
    }

    /// A write report is possible only for bytes that were there to write,
    /// and a write that took no byte of a non-empty buffer is refused.
    pub open spec fn write_accepts(&self, event: WriteEvent) -> bool {
        event matches WriteEvent::Wrote(n) ==> 0 < n <= buffer_contents(self.wr).len()
    }
}

} // verus!
