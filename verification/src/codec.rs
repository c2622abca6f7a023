//! The chat server's packets and their framing on a byte stream: each
//! packet is bincode's encoding of the enum, its variant index as a `u32`
//! followed by the variant's fields.

use crate::buffer::{append_bytes, buffer_bytes, buffer_contents, buffer_len, split_front};
use crate::wire::{
    bool_bytes, le_value, lemma_le_bytes_len,
    lemma_le_value_prefix, lemma_str_bytes_of_field, lemma_str_field_of_bytes, lemma_u32_bytes_of_field,
    lemma_u32_field_of_bytes, read_string, read_u32,
    size_bool, size_str, size_u32, str_bytes, str_field, u32_bytes, u32_field, write_bool,
    write_str, write_u32, Field, WireFault,
};
use bytes::BytesMut;
use vstd::prelude::*;
use vstd::slice::slice_subrange;
use vstd::utf8::*;

verus! {

/// A message between a chat client and the server.
#[derive(Debug, PartialEq, Eq)]
pub enum Packet {
    Connect { name: String },
    Ping,
    Message { msg: String },
    ConnectAck { accepted: bool },
}

/// A packet with its strings seen as characters.
pub enum PacketView {
    Connect { name: Seq<char> },
    Ping,
    Message { msg: Seq<char> },
    ConnectAck { accepted: bool },
}

impl View for Packet {
    type V = PacketView;

    open spec fn view(&self) -> PacketView {
        match self {
            Packet::Connect { name } => PacketView::Connect { name: name@ },
            Packet::Ping => PacketView::Ping,
            Packet::Message { msg } => PacketView::Message { msg: msg@ },
            Packet::ConnectAck { accepted } => PacketView::ConnectAck { accepted: *accepted },
        }
    }
}

/// The variant index bincode writes for each kind of packet.
pub open spec fn packet_tag(p: PacketView) -> u32 {
    match p {
        PacketView::Connect { .. } => 0,
        PacketView::Ping => 1,
        PacketView::Message { .. } => 2,
        PacketView::ConnectAck { .. } => 3,
    }
}

/// The bytes of a packet on the wire.
pub open spec fn packet_bytes(p: PacketView) -> Seq<u8> {
    u32_bytes(packet_tag(p)) + match p {
        PacketView::Connect { name } => str_bytes(name),
        PacketView::Ping => Seq::empty(),
        PacketView::Message { msg } => str_bytes(msg),
        PacketView::ConnectAck { accepted } => bool_bytes(accepted),
    }
}

/// The packets the decoder reads: the three kinds the chat codec defines.
/// The server's acknowledgement is written, but a stream that carries one
/// is refused as an unknown variant.
pub open spec fn decodable(p: PacketView) -> bool {
    !(p is ConnectAck)
}

/// Every string of the packet has a UTF-8 length that fits a `usize`.
pub open spec fn packet_fits(p: PacketView) -> bool {
    match p {
        PacketView::Connect { name } => encode_utf8(name).len() <= usize::MAX,
        PacketView::Message { msg } => encode_utf8(msg).len() <= usize::MAX,
        _ => true,
    }
}

/// What the front of a byte stream holds.
pub enum PacketParse {
    /// The bytes so far are the start of a packet; more are needed.
    Incomplete,
    /// The variant index names no packet.
    UnknownVariant(u32),
    /// A field can never be read (bad UTF-8, bad boolean, huge length).
    Malformed,
    /// A packet, and the number of bytes it takes.
    Complete(PacketView, nat),
}

/// Reads a field with `f` after the four bytes of the variant index, and
/// makes a packet of it with `make`.
pub open spec fn parse_after_tag<T>(f: Field<T>, make: spec_fn(T) -> PacketView) -> PacketParse {
    match f {
        Field::EndOfInput => PacketParse::Incomplete,
        Field::Malformed => PacketParse::Malformed,
        Field::Value(v, n) => PacketParse::Complete(make(v), 4 + n),
    }
}

/// The packet at the front of `b`, as bincode reads it.
pub open spec fn parse_packet(b: Seq<u8>) -> PacketParse {
    match u32_field(b) {
        Field::Value(tag, _) => {
            let rest = b.skip(4);
            if tag == 0 {
                parse_after_tag(str_field(rest), |s: Seq<char>| PacketView::Connect { name: s })
            } else if tag == 1 {
                PacketParse::Complete(PacketView::Ping, 4)
            } else if tag == 2 {
                parse_after_tag(str_field(rest), |s: Seq<char>| PacketView::Message { msg: s })
            } else {
                PacketParse::UnknownVariant(tag)
            }
        },
        _ => PacketParse::Incomplete,
    }
}

/// Why a packet could not be read from the front of a byte slice.
#[derive(Debug, PartialEq, Eq)]
pub enum PacketFault {
    EndOfInput,
    UnknownVariant(u32),
    Malformed(String),
}

/// `r` is what reading a packet gives when the bytes hold `p`.
pub open spec fn packet_read_agrees(r: Result<Packet, PacketFault>, p: PacketParse) -> bool {
    match p {
        PacketParse::Incomplete => r == Err::<Packet, PacketFault>(PacketFault::EndOfInput),
        PacketParse::UnknownVariant(t) => r == Err::<Packet, PacketFault>(PacketFault::UnknownVariant(t)),
        PacketParse::Malformed => r matches Err(PacketFault::Malformed(_)),
        PacketParse::Complete(v, _) => r matches Ok(q) && q@ == v,
    }
}

/// Turns a fault of a field read into a fault of the packet read.
fn field_fault(f: WireFault) -> (r: PacketFault)
    ensures
        f == WireFault::EndOfInput ==> r == PacketFault::EndOfInput,
        f matches WireFault::Malformed(m) ==> r == PacketFault::Malformed(m),
{
    match f {
        WireFault::EndOfInput => PacketFault::EndOfInput,
        WireFault::Malformed(m) => PacketFault::Malformed(m),
    }
}

/// Reads the packet at the front of `bytes`: its variant index, then the
/// fields of that variant. Bytes after the packet are left unread.
pub fn deserialize_packet(bytes: &[u8]) -> (r: Result<Packet, PacketFault>)
    ensures
        packet_read_agrees(r, parse_packet(bytes@)),
{
    let tag = match read_u32(bytes) {
        Ok(t) => t,
        Err(f) => return Err(field_fault(f)),
    };
    let rest = slice_subrange(bytes, 4, bytes.len());
    assert(rest@ == bytes@.skip(4));
    if tag == 0 {
        match read_string(rest) {
            Ok(name) => Ok(Packet::Connect { name }),
            Err(f) => Err(field_fault(f)),
        }
    } else if tag == 1 {
        Ok(Packet::Ping)
    } else if tag == 2 {
        match read_string(rest) {
            Ok(msg) => Ok(Packet::Message { msg }),
            Err(f) => Err(field_fault(f)),
        }
    } else {
        Err(PacketFault::UnknownVariant(tag))
    }
}

/// The number of bytes `packet_bytes` gives for a packet, counted by
/// bincode field by field.
pub fn serialized_size(packet: &Packet) -> (r: Result<u64, String>)
    requires
        packet_bytes(packet@).len() <= u64::MAX,
    ensures
        r == Ok::<u64, String>(packet_bytes(packet@).len() as u64),
{
    proof {
        lemma_le_bytes_len(packet_tag(packet@) as nat, 4);
        match packet@ {
            PacketView::Connect { name } => lemma_le_bytes_len(encode_utf8(name).len(), 8),
            PacketView::Message { msg } => lemma_le_bytes_len(encode_utf8(msg).len(), 8),
            _ => {},
        }
    }
    match packet {
        Packet::Connect { name } => {
            let t = size_u32(0)?;
            let f = size_str(name.as_str())?;
            Ok(t + f)
        },
        Packet::Ping => size_u32(1),
        Packet::Message { msg } => {
            let t = size_u32(2)?;
            let f = size_str(msg.as_str())?;
            Ok(t + f)
        },
        Packet::ConnectAck { accepted } => {
            let t = size_u32(3)?;
            let f = size_bool(*accepted)?;
            Ok(t + f)
        },
    }
}

/// Writes a packet with bincode: its variant index, then its fields.
pub fn serialize_packet(packet: &Packet) -> (r: Result<Vec<u8>, String>)
    ensures
        r matches Ok(b) && b@ == packet_bytes(packet@),
{
    match packet {
        Packet::Connect { name } => {
            let mut out = write_u32(0)?;
            let mut field = write_str(name.as_str())?;
            out.append(&mut field);
            Ok(out)
        },
        Packet::Ping => {
            let out = write_u32(1)?;
            assert(out@ =~= packet_bytes(packet@));
            Ok(out)
        },
        Packet::Message { msg } => {
            let mut out = write_u32(2)?;
            let mut field = write_str(msg.as_str())?;
            out.append(&mut field);
            Ok(out)
        },
        Packet::ConnectAck { accepted } => {
            let mut out = write_u32(3)?;
            let mut field = write_bool(*accepted)?;
            out.append(&mut field);
            Ok(out)
        },
    }
}


/// Why the codec refused the bytes of the stream.
#[derive(Debug, PartialEq, Eq)]
pub enum CodecError {
    /// The variant index read names no packet.
    UnknownVariant(u32),
    /// bincode refused the data; carries its description.
    InvalidData(String),
}

/// The error reported for data that bincode refused.
pub fn parsing_error(description: String) -> (e: CodecError)
    ensures
        e == CodecError::InvalidData(description),
{
    CodecError::InvalidData(description)
}

/// Frames packets on a byte stream: decodes them from the front of a read
/// buffer and encodes them at the end of a write buffer.
pub struct Codec {}

/// The number of bytes a packet's field takes after its variant index.
pub open spec fn field_len(p: PacketView) -> nat {
    match p {
        PacketView::Connect { name } => 8 + encode_utf8(name).len(),
        PacketView::Ping => 0,
        PacketView::Message { msg } => 8 + encode_utf8(msg).len(),
        PacketView::ConnectAck { .. } => 1,
    }
}

/// A packet takes four bytes of variant index and then its field.
pub proof fn lemma_packet_bytes_len(p: PacketView)
    ensures
        packet_bytes(p).len() == 4 + field_len(p),
{
    lemma_le_bytes_len(packet_tag(p) as nat, 4);
    match p {
        PacketView::Connect { name } => lemma_le_bytes_len(encode_utf8(name).len(), 8),
        PacketView::Message { msg } => lemma_le_bytes_len(encode_utf8(msg).len(), 8),
        _ => {},
    }
}

/// Whether encoding `packet` onto `buf` keeps the buffer within what an
/// allocation can hold, which `Codec::encode` requires.
pub fn encode_fits(buf: &BytesMut, packet: &Packet) -> (r: bool)
    ensures
        r == (buffer_contents(*buf).len() + packet_bytes(packet@).len() <= isize::MAX),
{
    proof {
        lemma_packet_bytes_len(packet@);
    }
    let text: usize = match packet {
        Packet::Connect { name } => name.as_str().as_bytes().len(),
        Packet::Message { msg } => msg.as_str().as_bytes().len(),
        _ => 0,
    };
    if text > (isize::MAX as usize) - 12 {
        return false;
    }
    let size = match serialized_size(packet) {
        Ok(size) => size,
        Err(_) => return false,
    };
    let used = buffer_len(buf);
    size <= isize::MAX as u64 && (used as u64) <= (isize::MAX as u64) - size
}

impl Codec {
    pub fn new() -> (c: Codec) {
        Codec {}
    }

    /// Takes the packet at the front of `buf`, if all of it has arrived.
    ///
    /// `Ok(None)` when more bytes are needed; `Ok(Some(p))` when a whole
    /// packet was there, whose bytes are then removed; an error when the
    /// bytes can never be a packet. Only a decoded packet consumes bytes.
    pub fn decode(&mut self, buf: &mut BytesMut) -> (r: Result<Option<Packet>, CodecError>)
        ensures
            match parse_packet(buffer_contents(*old(buf))) {
                PacketParse::Incomplete => {
                    &&& r == Ok::<Option<Packet>, CodecError>(None)
                    &&& buffer_contents(*final(buf)) == buffer_contents(*old(buf))
                },
                PacketParse::UnknownVariant(t) => {
                    &&& r == Err::<Option<Packet>, CodecError>(CodecError::UnknownVariant(t))
                    &&& buffer_contents(*final(buf)) == buffer_contents(*old(buf))
                },
                PacketParse::Malformed => {
                    &&& r matches Err(CodecError::InvalidData(_))
                    &&& buffer_contents(*final(buf)) == buffer_contents(*old(buf))
                },
                PacketParse::Complete(p, n) => {
                    &&& r matches Ok(Some(q)) && q@ == p
                    &&& buffer_contents(*final(buf)) == buffer_contents(*old(buf)).skip(n as int)
                },
            },
    {
        let ghost before = buffer_contents(*buf);
        let bytes = buffer_bytes(buf);
        let available = bytes.len();
        match deserialize_packet(bytes) {
            Ok(item) => {
                proof {
                    lemma_packet_bytes_of_parse(before);
                    assert(packet_bytes(item@).len() <= available);
                }
                let parsed_size = match serialized_size(&item) {
                    Ok(parsed_size) => parsed_size,
                    Err(e) => return Err(parsing_error(e)),
                };
                split_front(buf, parsed_size as usize);
                Ok(Some(item))
            },
            Err(PacketFault::EndOfInput) => Ok(None),
            Err(PacketFault::UnknownVariant(t)) => Err(CodecError::UnknownVariant(t)),
            Err(PacketFault::Malformed(e)) => Err(parsing_error(e)),
        }
    }

    /// Appends the bytes of `packet` to `buf`.
    pub fn encode(&mut self, packet: Packet, buf: &mut BytesMut) -> (r: Result<(), CodecError>)
        requires
            buffer_contents(*old(buf)).len() + packet_bytes(packet@).len() <= isize::MAX,
        ensures
            r == Ok::<(), CodecError>(()),
            buffer_contents(*final(buf)) == buffer_contents(*old(buf)) + packet_bytes(packet@),
    {
        match serialize_packet(&packet) {
            Ok(vec) => {
                append_bytes(buf, vec.as_slice());
                Ok(())
            },
            Err(e) => Err(parsing_error(e)),
        }
    }
}

/// A packet read from bytes is written back as exactly the bytes it took.
pub proof fn lemma_packet_bytes_of_parse(b: Seq<u8>)
    ensures
        parse_packet(b) matches PacketParse::Complete(p, n) ==> {
            &&& n <= b.len()
            &&& packet_bytes(p) == b.take(n as int)
        },
{
    if let PacketParse::Complete(p, n) = parse_packet(b) {
        lemma_u32_bytes_of_field(b);
        let rest = b.skip(4);
        lemma_str_bytes_of_field(rest);
        lemma_le_bytes_len(packet_tag(p) as nat, 4);
        assert(b.take(n as int) =~= b.take(4) + rest.take(n - 4));
    }
}

/// Decoding the bytes of a packet gives the packet back and takes exactly
/// its bytes, whatever follows them in the stream.
pub proof fn lemma_parse_of_packet_bytes(p: PacketView, rest: Seq<u8>)
    requires
        decodable(p),
        packet_fits(p),
    ensures
        parse_packet(packet_bytes(p) + rest) == PacketParse::Complete(p, packet_bytes(p).len()),
{
    let b = packet_bytes(p) + rest;
    let tag = packet_tag(p);
    let field = match p {
        PacketView::Connect { name } => str_bytes(name),
        PacketView::Ping => Seq::empty(),
        PacketView::Message { msg } => str_bytes(msg),
        PacketView::ConnectAck { accepted } => bool_bytes(accepted),
    };
    assert(b =~= u32_bytes(tag) + (field + rest));
    lemma_u32_field_of_bytes(tag, field + rest);
    lemma_le_bytes_len(tag as nat, 4);
    assert(b.skip(4) =~= field + rest);
    match p {
        PacketView::Connect { name } => lemma_str_field_of_bytes(name, rest),
        PacketView::Message { msg } => lemma_str_field_of_bytes(msg, rest),
        _ => {},
    }
}

/// A packet at the front of a buffer stays the same packet, taking the
/// same bytes, however many bytes arrive after it.
pub proof fn lemma_parse_stable_under_append(b: Seq<u8>, more: Seq<u8>)
    ensures
        parse_packet(b) matches PacketParse::Complete(p, n) ==>
            parse_packet(b + more) == PacketParse::Complete(p, n),
{
    if let PacketParse::Complete(p, n) = parse_packet(b) {
        lemma_packet_bytes_of_parse(b);
        lemma_parse_fits(b);
        lemma_parse_decodable(b);
        assert(b + more =~= packet_bytes(p) + (b.skip(n as int) + more));
        lemma_parse_of_packet_bytes(p, b.skip(n as int) + more);
    }
}

/// Packets written one after another are read back one after another, in
/// the order they were written.
pub proof fn lemma_packets_in_order(p1: PacketView, p2: PacketView, rest: Seq<u8>)
    requires
        decodable(p1),
        decodable(p2),
        packet_fits(p1),
        packet_fits(p2),
    ensures
        parse_packet(packet_bytes(p1) + packet_bytes(p2) + rest) == PacketParse::Complete(p1, packet_bytes(p1).len()),
        (packet_bytes(p1) + packet_bytes(p2) + rest).skip(packet_bytes(p1).len() as int) == packet_bytes(p2) + rest,
        parse_packet(packet_bytes(p2) + rest) == PacketParse::Complete(p2, packet_bytes(p2).len()),
{
    let b = packet_bytes(p1) + packet_bytes(p2) + rest;
    assert(b =~= packet_bytes(p1) + (packet_bytes(p2) + rest));
    lemma_parse_of_packet_bytes(p1, packet_bytes(p2) + rest);
    lemma_parse_of_packet_bytes(p2, rest);
    assert(b.skip(packet_bytes(p1).len() as int) =~= packet_bytes(p2) + rest);
}

/// A packet whose bytes have only partly arrived is not decoded yet: every
/// proper prefix of its bytes reads as incomplete.
pub proof fn lemma_partial_packet_is_incomplete(p: PacketView, cut: int)
    requires
        decodable(p),
        packet_fits(p),
        0 <= cut < packet_bytes(p).len(),
    ensures
        parse_packet(packet_bytes(p).take(cut)) == PacketParse::Incomplete,
{
    let whole = packet_bytes(p);
    let part = whole.take(cut);
    let tag = packet_tag(p);
    lemma_le_bytes_len(tag as nat, 4);
    if cut >= 4 {
        lemma_u32_field_of_bytes(tag, whole.skip(4));
        assert(whole =~= u32_bytes(tag) + whole.skip(4));
        assert(part.take(4) =~= whole.take(4));
        lemma_le_value_prefix(part, whole, 4);
        match p {
            PacketView::Connect { name } => {
                assert(whole.skip(4) =~= str_bytes(name));
                lemma_partial_str_is_incomplete(name, whole, cut);
            },
            PacketView::Message { msg } => {
                assert(whole.skip(4) =~= str_bytes(msg));
                lemma_partial_str_is_incomplete(msg, whole, cut);
            },
            _ => {},
        }
    }
}

/// A string field cut short reads as incomplete.
proof fn lemma_partial_str_is_incomplete(s: Seq<char>, whole: Seq<u8>, cut: int)
    requires
        encode_utf8(s).len() <= usize::MAX,
        whole.len() >= 4,
        whole.skip(4) == str_bytes(s),
        4 <= cut < whole.len(),
    ensures
        str_field(whole.take(cut).skip(4)) == Field::<Seq<char>>::EndOfInput,
{
    let rest = whole.take(cut).skip(4);
    let field = str_bytes(s);
    assert(rest =~= field.take(cut - 4));
    if rest.len() >= 8 {
        lemma_str_field_of_bytes(s, Seq::empty());
        assert(field + Seq::<u8>::empty() =~= field);
        assert(rest.take(8) =~= field.take(8));
        lemma_le_value_prefix(rest, field, 8);
    }
}

/// Decoding undoes encoding: a packet encoded into an empty buffer (within
/// the size `Codec::encode` requires) is decoded back as that packet, and
/// the buffer is left empty.
pub proof fn lemma_decode_undoes_encode(p: PacketView)
    requires
        decodable(p),
        packet_bytes(p).len() <= isize::MAX,
    ensures
        parse_packet(Seq::<u8>::empty() + packet_bytes(p)) == PacketParse::Complete(p, packet_bytes(p).len()),
        (Seq::<u8>::empty() + packet_bytes(p)).skip(packet_bytes(p).len() as int) == Seq::<u8>::empty(),
{
    lemma_packet_bytes_len(p);
    let b = Seq::<u8>::empty() + packet_bytes(p);
    assert(b =~= packet_bytes(p) + Seq::<u8>::empty());
    lemma_parse_of_packet_bytes(p, Seq::empty());
    assert(b.skip(packet_bytes(p).len() as int) =~= Seq::<u8>::empty());
}

/// The bytes of an acknowledgement, whatever follows them, are refused by
/// the decoder as the unknown variant 3.
pub proof fn lemma_ack_is_refused(accepted: bool, rest: Seq<u8>)
    ensures
        parse_packet(packet_bytes(PacketView::ConnectAck { accepted }) + rest) == PacketParse::UnknownVariant(3),
{
    let b = packet_bytes(PacketView::ConnectAck { accepted }) + rest;
    assert(b =~= u32_bytes(3) + (bool_bytes(accepted) + rest));
    lemma_u32_field_of_bytes(3, bool_bytes(accepted) + rest);
}

/// Packets decoded from a stream are of the kinds the decoder reads.
pub proof fn lemma_parse_decodable(b: Seq<u8>)
    ensures
        parse_packet(b) matches PacketParse::Complete(p, _) ==> decodable(p),
{
}

/// The `u32` that four bytes spell, least significant byte first.
pub open spec fn bytes_u32(b0: u8, b1: u8, b2: u8, b3: u8) -> int {
    b0 + 256 * b1 + 65536 * b2 + 16777216 * b3
}

/// The `u64` that the eight bytes of `b` from `at` spell, least
/// significant byte first.
pub open spec fn bytes_u64_at(b: Seq<u8>, at: int) -> int {
    bytes_u32(b[at], b[at + 1], b[at + 2], b[at + 3])
        + 4294967296 * bytes_u32(b[at + 4], b[at + 5], b[at + 6], b[at + 7])
}

proof fn lemma_le_value_four(b: Seq<u8>)
    requires
        b.len() >= 4,
    ensures
        le_value(b, 4) == bytes_u32(b[0], b[1], b[2], b[3]),
{
    reveal_with_fuel(le_value, 5);
    assert(b.drop_first().drop_first().drop_first().drop_first() =~= b.skip(4));
}

proof fn lemma_le_value_eight(b: Seq<u8>)
    requires
        b.len() >= 8,
    ensures
        le_value(b, 8) == bytes_u64_at(b, 0),
{
    reveal_with_fuel(le_value, 9);
}

/// Bytes that begin with any variant index other than Connect (0), Ping (1)
/// or Message (2) are refused as that unknown variant, whatever follows:
/// the decoder never waits for more bytes after a bad index.
pub proof fn lemma_unknown_variant_refused(b: Seq<u8>)
    requires
        b.len() >= 4,
        bytes_u32(b[0], b[1], b[2], b[3]) != 0,
        bytes_u32(b[0], b[1], b[2], b[3]) != 1,
        bytes_u32(b[0], b[1], b[2], b[3]) != 2,
    ensures
        parse_packet(b) == PacketParse::UnknownVariant(bytes_u32(b[0], b[1], b[2], b[3]) as u32),
{
    lemma_le_value_four(b);
}

/// The decoder answers "incomplete" only while the bytes cannot yet be
/// judged: fewer than the four bytes of the variant index, or a Connect or
/// Message packet whose length field or text has not fully arrived.
pub proof fn lemma_incomplete_only_when_short(b: Seq<u8>)
    ensures
        parse_packet(b) == PacketParse::Incomplete ==> {
            ||| b.len() < 4
            ||| {
                &&& bytes_u32(b[0], b[1], b[2], b[3]) == 0 || bytes_u32(b[0], b[1], b[2], b[3]) == 2
                &&& b.len() < 12 || 12 + bytes_u64_at(b, 4) > b.len()
            }
        },
{
    if b.len() >= 4 {
        lemma_le_value_four(b);
        if b.len() >= 12 {
            let rest = b.skip(4);
            lemma_le_value_eight(rest);
            assert(bytes_u64_at(rest, 0) == bytes_u64_at(b, 4));
        }
    }
}

/// Strings decoded from a stream have lengths that fit a `usize`.
pub proof fn lemma_parse_fits(b: Seq<u8>)
    ensures
        parse_packet(b) matches PacketParse::Complete(p, _) ==> packet_fits(p),
{
    broadcast use vstd::utf8::decode_utf8_encode_utf8;

}

} // verus!
