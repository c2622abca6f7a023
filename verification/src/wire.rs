//! Bincode's encoding of the primitive fields that make up a packet:
//! fixed-width little-endian integers, one-byte booleans, and strings
//! written as a `u64` byte length followed by their UTF-8 bytes.

use vstd::prelude::*;
use vstd::utf8::*;

verus! {

/// Why bincode could not read a value from a byte slice.
#[derive(Debug, PartialEq, Eq)]
pub enum WireFault {
    /// The slice ended before the value did; more bytes may complete it.
    EndOfInput,
    /// The bytes can never form a value; carries bincode's description.
    Malformed(String),
}

/// The number `n` bytes of `b` spell in little-endian order.
pub open spec fn le_value(b: Seq<u8>, n: nat) -> nat
    decreases n,
{
    if n == 0 {
        0
    } else {
        b[0] as nat + 256 * le_value(b.drop_first(), (n - 1) as nat)
    }
}

/// The `n` little-endian bytes of `v` (truncated to `n` bytes).
pub open spec fn le_bytes(v: nat, n: nat) -> Seq<u8>
    decreases n,
{
    if n == 0 {
        Seq::empty()
    } else {
        seq![(v % 256) as u8] + le_bytes(v / 256, (n - 1) as nat)
    }
}

/// `256` to the power `n`.
pub open spec fn radix_pow(n: nat) -> nat
    decreases n,
{
    if n == 0 {
        1
    } else {
        256 * radix_pow((n - 1) as nat)
    }
}

pub proof fn lemma_le_bytes_len(v: nat, n: nat)
    ensures
        le_bytes(v, n).len() == n,
    decreases n,
{
    if n > 0 {
        lemma_le_bytes_len(v / 256, (n - 1) as nat);
    }
}

/// Reading back the bytes of a number that fits gives the number.
pub proof fn lemma_le_value_of_bytes(v: nat, n: nat, rest: Seq<u8>)
    requires
        v < radix_pow(n),
    ensures
        le_value(le_bytes(v, n) + rest, n) == v,
    decreases n,
{
    if n > 0 {
        let tail = le_bytes(v / 256, (n - 1) as nat) + rest;
        assert((le_bytes(v, n) + rest).drop_first() =~= tail);
        lemma_le_value_of_bytes(v / 256, (n - 1) as nat, rest);
    }
}

/// The value read from `n` bytes always fits in `n` bytes.
pub proof fn lemma_le_value_bound(b: Seq<u8>, n: nat)
    requires
        b.len() >= n,
    ensures
        le_value(b, n) < radix_pow(n),
    decreases n,
{
    if n > 0 {
        lemma_le_value_bound(b.drop_first(), (n - 1) as nat);
    }
}

/// Writing the value read from `n` bytes gives those bytes back.
pub proof fn lemma_le_bytes_of_value(b: Seq<u8>, n: nat)
    requires
        b.len() >= n,
    ensures
        le_bytes(le_value(b, n), n) =~= b.take(n as int),
    decreases n,
{
    if n > 0 {
        let t = b.drop_first();
        lemma_le_bytes_of_value(t, (n - 1) as nat);
        let v = le_value(b, n);
        assert(v % 256 == b[0] as nat);
        assert(v / 256 == le_value(t, (n - 1) as nat));
        assert(b.take(n as int) =~= seq![b[0]] + t.take(n - 1));
    }
}


/// What bincode reads from the front of a byte slice: nothing yet, nothing
/// ever, or a value together with the number of bytes it took.
pub enum Field<T> {
    EndOfInput,
    Malformed,
    Value(T, nat),
}

/// The encoding of a `u32`: its four little-endian bytes.
pub open spec fn u32_bytes(v: u32) -> Seq<u8> {
    le_bytes(v as nat, 4)
}

/// The encoding of a `bool`: one byte, `1` or `0`.
pub open spec fn bool_bytes(b: bool) -> Seq<u8> {
    seq![if b { 1u8 } else { 0u8 }]
}

/// The encoding of a string: its UTF-8 byte count as a `u64`, then the bytes.
pub open spec fn str_bytes(s: Seq<char>) -> Seq<u8> {
    le_bytes(encode_utf8(s).len(), 8) + encode_utf8(s)
}

/// A `u32` read from the front of `b`.
pub open spec fn u32_field(b: Seq<u8>) -> Field<u32> {
    if b.len() < 4 {
        Field::EndOfInput
    } else {
        Field::Value(le_value(b, 4) as u32, 4)
    }
}

/// A string read from the front of `b`: a `u64` length that must fit a
/// `usize`, then that many bytes, which must be valid UTF-8.
pub open spec fn str_field(b: Seq<u8>) -> Field<Seq<char>> {
    if b.len() < 8 {
        Field::EndOfInput
    } else {
        let n = le_value(b, 8);
        if n > usize::MAX {
            Field::Malformed
        } else if n > b.len() - 8 {
            Field::EndOfInput
        } else if !valid_utf8(b.subrange(8, 8 + n as int)) {
            Field::Malformed
        } else {
            Field::Value(decode_utf8(b.subrange(8, 8 + n as int)), 8 + n)
        }
    }
}

/// `r` is what a reader returns when the bytes hold `f` (`view` maps the
/// value read to the field's value).
pub open spec fn read_agrees<T, V>(r: Result<T, WireFault>, f: Field<V>, view: spec_fn(T) -> V) -> bool {
    match f {
        Field::EndOfInput => r == Err::<T, WireFault>(WireFault::EndOfInput),
        Field::Malformed => r matches Err(WireFault::Malformed(_)),
        Field::Value(v, _) => r matches Ok(x) && view(x) == v,
    }
}

/// The value read from `n` bytes depends on those bytes only.
pub proof fn lemma_le_value_prefix(b1: Seq<u8>, b2: Seq<u8>, n: nat)
    requires
        b1.len() >= n,
        b2.len() >= n,
        b1.take(n as int) == b2.take(n as int),
    ensures
        le_value(b1, n) == le_value(b2, n),
    decreases n,
{
    if n > 0 {
        assert(b1[0] == b1.take(n as int)[0]);
        assert(b2[0] == b2.take(n as int)[0]);
        assert(b1.drop_first().take(n - 1) =~= b1.take(n as int).drop_first());
        assert(b2.drop_first().take(n - 1) =~= b2.take(n as int).drop_first());
        lemma_le_value_prefix(b1.drop_first(), b2.drop_first(), (n - 1) as nat);
    }
}

/// `256^4` and `256^8`, the ranges of `u32` and `u64`.
pub proof fn lemma_radix_pows()
    ensures
        radix_pow(4) == 0x1_0000_0000,
        radix_pow(8) == 0x1_0000_0000_0000_0000,
{
    reveal_with_fuel(radix_pow, 9);
}

/// Reading a written `u32`, whatever follows it, gives it back.
pub proof fn lemma_u32_field_of_bytes(v: u32, rest: Seq<u8>)
    ensures
        u32_field(u32_bytes(v) + rest) == Field::Value(v, 4),
{
    lemma_radix_pows();
    lemma_le_bytes_len(v as nat, 4);
    lemma_le_value_of_bytes(v as nat, 4, rest);
}

/// A `u32` read from bytes is written back as those bytes.
pub proof fn lemma_u32_bytes_of_field(b: Seq<u8>)
    ensures
        u32_field(b) matches Field::Value(v, n) ==> u32_bytes(v) == b.take(n as int),
{
    if b.len() >= 4 {
        lemma_radix_pows();
        lemma_le_value_bound(b, 4);
        lemma_le_bytes_of_value(b, 4);
    }
}

/// Reading a written string, whatever follows it, gives it back, provided
/// its UTF-8 length fits a `usize` (as that of every `String` does).
pub proof fn lemma_str_field_of_bytes(s: Seq<char>, rest: Seq<u8>)
    requires
        encode_utf8(s).len() <= usize::MAX,
    ensures
        str_field(str_bytes(s) + rest) == Field::Value(s, str_bytes(s).len()),
{
    broadcast use encode_utf8_decode_utf8, encode_utf8_valid_utf8;

    let u = encode_utf8(s);
    let n = u.len();
    let b = str_bytes(s) + rest;
    lemma_radix_pows();
    lemma_le_bytes_len(n, 8);
    assert(b =~= le_bytes(n, 8) + (u + rest));
    lemma_le_value_of_bytes(n, 8, u + rest);
    assert(b.subrange(8, 8 + n as int) =~= u);
}

/// A string read from bytes is written back as those bytes.
pub proof fn lemma_str_bytes_of_field(b: Seq<u8>)
    ensures
        str_field(b) matches Field::Value(v, n) ==> str_bytes(v) == b.take(n as int),
{
    broadcast use decode_utf8_encode_utf8;

    if let Field::Value(v, n) = str_field(b) {
        let len = le_value(b, 8);
        let payload = b.subrange(8, 8 + len as int);
        assert(encode_utf8(v) == payload);
        lemma_le_bytes_of_value(b, 8);
        assert(b.take(n as int) =~= b.take(8) + payload);
    }
}

/// `r` is a successful write of exactly `bytes`.
pub open spec fn wrote(r: Result<Vec<u8>, String>, bytes: Seq<u8>) -> bool {
    r matches Ok(b) && b@ == bytes
}

/// `r` is a successful count of `n` bytes.
pub open spec fn counted(r: Result<u64, String>, n: nat) -> bool {
    r matches Ok(m) && m == n
}

/// Reads a `u32` with bincode from the front of `bytes`.
///
/// Calls `bincode::deserialize::<u32>`, which reads four little-endian
/// bytes and ignores what follows; a slice too short for them gives an
/// I/O error, reported here as `EndOfInput`.
#[verifier::external_body]
pub(crate) fn read_u32(bytes: &[u8]) -> (r: Result<u32, WireFault>)
    ensures
        read_agrees(r, u32_field(bytes@), |x: u32| x),
{
    match bincode::deserialize::<u32>(bytes) {
        Ok(v) => Ok(v),
        Err(e) => match *e {
            bincode::ErrorKind::Io(_) => Err(WireFault::EndOfInput),
            _ => Err(WireFault::Malformed(format!("{:?}", e))),
        },
    }
}

/// Reads a `String` with bincode from the front of `bytes`.
///
/// Calls `bincode::deserialize::<String>`, which reads a little-endian
/// `u64` length (an error when it exceeds `usize::MAX`), then that many
/// bytes, and checks them with `String::from_utf8`. Running out of bytes
/// gives an I/O error, reported here as `EndOfInput`; bad UTF-8 gives
/// `InvalidUtf8Encoding`. The text of a `Malformed` fault is not stated.
#[verifier::external_body]
pub(crate) fn read_string(bytes: &[u8]) -> (r: Result<String, WireFault>)
    ensures
        read_agrees(r, str_field(bytes@), |x: String| x@),
{
    match bincode::deserialize::<String>(bytes) {
        Ok(v) => Ok(v),
        Err(e) => match *e {
            bincode::ErrorKind::Io(_) => Err(WireFault::EndOfInput),
            _ => Err(WireFault::Malformed(format!("{:?}", e))),
        },
    }
}

/// Writes a `u32` with bincode.
///
/// Calls `bincode::serialize::<u32>`, which writes the four little-endian
/// bytes of the value and cannot fail with its unbounded size limit.
#[verifier::external_body]
pub(crate) fn write_u32(v: u32) -> (r: Result<Vec<u8>, String>)
    ensures
        wrote(r, u32_bytes(v)),
{
    match bincode::serialize::<u32>(&v) {
        Ok(b) => Ok(b),
        Err(e) => Err(format!("{:?}", e)),
    }
}

/// Writes a `bool` with bincode.
///
/// Calls `bincode::serialize::<bool>`, which writes one byte, `1` for true
/// and `0` for false, and cannot fail with its unbounded size limit.
#[verifier::external_body]
pub(crate) fn write_bool(v: bool) -> (r: Result<Vec<u8>, String>)
    ensures
        wrote(r, bool_bytes(v)),
{
    match bincode::serialize::<bool>(&v) {
        Ok(b) => Ok(b),
        Err(e) => Err(format!("{:?}", e)),
    }
}

/// Writes a string with bincode.
///
/// Calls `bincode::serialize::<str>`, which writes the UTF-8 byte count as
/// a little-endian `u64` followed by the bytes, and cannot fail with its
/// unbounded size limit.
#[verifier::external_body]
pub(crate) fn write_str(s: &str) -> (r: Result<Vec<u8>, String>)
    ensures
        wrote(r, str_bytes(s@)),
{
    match bincode::serialize::<str>(s) {
        Ok(b) => Ok(b),
        Err(e) => Err(format!("{:?}", e)),
    }
}

/// The number of bytes bincode writes for a `u32`.
///
/// Calls `bincode::serialized_size::<u32>`, which counts four bytes and
/// cannot fail with its unbounded size limit.
#[verifier::external_body]
pub(crate) fn size_u32(v: u32) -> (r: Result<u64, String>)
    ensures
        counted(r, 4),
{
    match bincode::serialized_size::<u32>(&v) {
        Ok(n) => Ok(n),
        Err(e) => Err(format!("{:?}", e)),
    }
}

/// The number of bytes bincode writes for a `bool`.
///
/// Calls `bincode::serialized_size::<bool>`, which counts one byte and
/// cannot fail with its unbounded size limit.
#[verifier::external_body]
pub(crate) fn size_bool(v: bool) -> (r: Result<u64, String>)
    ensures
        counted(r, 1),
{
    match bincode::serialized_size::<bool>(&v) {
        Ok(n) => Ok(n),
        Err(e) => Err(format!("{:?}", e)),
    }
}

/// The number of bytes bincode writes for a string.
///
/// Calls `bincode::serialized_size::<str>`, which counts eight bytes of
/// length plus the UTF-8 byte count, and cannot fail with its unbounded
/// size limit.
#[verifier::external_body]
pub(crate) fn size_str(s: &str) -> (r: Result<u64, String>)
    requires
        8 + encode_utf8(s@).len() <= u64::MAX,
    ensures
        counted(r, 8 + encode_utf8(s@).len()),
{
    match bincode::serialized_size::<str>(s) {
        Ok(n) => Ok(n),
        Err(e) => Err(format!("{:?}", e)),
    }
}

} // verus!
