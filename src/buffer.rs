//! The byte buffers of the `bytes` crate, as the codec sees them: each is a
//! sequence of bytes, and each operation the codec uses is stated over it.

use vstd::prelude::*;
use vstd::string::StringSliceAdditionalSpecFns;
use bytes::{Buf, BufMut, Bytes, BytesMut};

verus! {

#[verifier::external_type_specification]
#[verifier::external_body]
pub struct ExBytes(Bytes);

#[verifier::external_type_specification]
#[verifier::external_body]
pub struct ExBytesMut(BytesMut);

/// The bytes that an immutable shared buffer holds.
pub uninterp spec fn bytes_content(b: Bytes) -> Seq<u8>;

/// The bytes that a growable buffer holds, from its read position on.
pub uninterp spec fn buf_content(b: BytesMut) -> Seq<u8>;

/// Relies on `Clone for Bytes`: the clone shares, and so holds, the same bytes.
pub assume_specification[ <Bytes as Clone>::clone ](b: &Bytes) -> (r: Bytes)
    ensures
        bytes_content(r) == bytes_content(*b),
;

/// Relies on `Bytes::len`: the number of bytes held.
#[verifier::external_body]
pub(crate) fn bytes_len(b: &Bytes) -> (r: usize)
    ensures
        r == bytes_content(*b).len(),
{
    b.len()
}

/// Relies on `PartialEq for Bytes`: equal exactly when the held bytes are equal.
#[verifier::external_body]
pub(crate) fn bytes_equal(a: &Bytes, b: &Bytes) -> (r: bool)
    ensures
        r == (bytes_content(*a) == bytes_content(*b)),
{
    a == b
}

/// Relies on `From<String> for Bytes`: the buffer holds the string's UTF-8 bytes.
#[verifier::external_body]
pub(crate) fn bytes_from_str(s: &str) -> (r: Bytes)
    ensures
        bytes_content(r) == s.spec_bytes(),
{
    Bytes::from(s.to_string())
}

/// Relies on `BytesMut::len`: the number of bytes held.
#[verifier::external_body]
pub(crate) fn buf_len(b: &BytesMut) -> (r: usize)
    ensures
        r == buf_content(*b).len(),
{
    b.len()
}

/// Relies on `Buf::get_u32` on a slice of four bytes: they are read as a
/// big-endian integer, and the buffer itself is left as it was.
#[verifier::external_body]
pub(crate) fn buf_peek_u32(b: &BytesMut, at: usize) -> (r: u32)
    requires
        at + 4 <= buf_content(*b).len(),
    ensures
        r as int == be_u32_value(buf_content(*b).subrange(at as int, at + 4)),
{
    (&b[at..at + 4]).get_u32()
}

/// Relies on `Buf::get_u8`: it returns the first byte and consumes it.
#[verifier::external_body]
pub(crate) fn buf_take_u8(b: &mut BytesMut) -> (r: u8)
    requires
        buf_content(*old(b)).len() >= 1,
    ensures
        r == buf_content(*old(b))[0],
        buf_content(*final(b)) == buf_content(*old(b)).drop_first(),
{
    b.get_u8()
}

/// Relies on `Buf::advance`: it drops the first `n` bytes.
#[verifier::external_body]
pub(crate) fn buf_advance(b: &mut BytesMut, n: usize)
    requires
        n <= buf_content(*old(b)).len(),
    ensures
        buf_content(*final(b)) == buf_content(*old(b)).skip(n as int),
{
    b.advance(n)
}

/// Relies on `BytesMut::split_to`: the first `n` bytes move to the result,
/// the rest stay.
#[verifier::external_body]
pub(crate) fn buf_split_to(b: &mut BytesMut, n: usize) -> (r: BytesMut)
    requires
        n <= buf_content(*old(b)).len(),
    ensures
        buf_content(r) == buf_content(*old(b)).take(n as int),
        buf_content(*final(b)) == buf_content(*old(b)).skip(n as int),
{
    b.split_to(n)
}

/// Relies on `BytesMut::freeze`: the frozen buffer holds the same bytes.
#[verifier::external_body]
pub(crate) fn buf_freeze(b: BytesMut) -> (r: Bytes)
    ensures
        bytes_content(r) == buf_content(b),
{
    b.freeze()
}

/// Relies on `BytesMut::reserve`: only the capacity grows, the bytes held stay.
#[verifier::external_body]
pub(crate) fn buf_reserve(b: &mut BytesMut, additional: usize)
    requires
        buf_content(*old(b)).len() + additional <= isize::MAX,
    ensures
        buf_content(*final(b)) == buf_content(*old(b)),
{
    b.reserve(additional)
}

/// Relies on `BufMut::put_u8`: one byte is appended.
#[verifier::external_body]
pub(crate) fn buf_put_u8(b: &mut BytesMut, v: u8)
    requires
        buf_content(*old(b)).len() + 1 <= isize::MAX,
    ensures
        buf_content(*final(b)) == buf_content(*old(b)).push(v),
{
    b.put_u8(v)
}

/// Relies on `BufMut::put_u32`: the four big-endian bytes of `v` are appended.
#[verifier::external_body]
pub(crate) fn buf_put_u32(b: &mut BytesMut, v: u32)
    requires
        buf_content(*old(b)).len() + 4 <= isize::MAX,
    ensures
        buf_content(*final(b)) == buf_content(*old(b)) + be_u32_bytes(v),
{
    b.put_u32(v)
}

/// Relies on `BufMut::put` with a `Bytes` source: its bytes are appended.
#[verifier::external_body]
pub(crate) fn buf_put_bytes(b: &mut BytesMut, src: Bytes)
    requires
        buf_content(*old(b)).len() + bytes_content(src).len() <= isize::MAX,
    ensures
        buf_content(*final(b)) == buf_content(*old(b)) + bytes_content(src),
{
    b.put(src)
}

/// The value of four bytes read as a big-endian unsigned integer.
pub open spec fn be_u32_value(s: Seq<u8>) -> int {
    s[0] as int * 0x1000000 + s[1] as int * 0x10000 + s[2] as int * 0x100 + s[3] as int
}

/// The four big-endian bytes of `v`.
pub open spec fn be_u32_bytes(v: u32) -> Seq<u8> {
    seq![
        (v / 0x1000000) as u8,
        (v / 0x10000 % 0x100) as u8,
        (v / 0x100 % 0x100) as u8,
        (v % 0x100) as u8,
    ]
}

/// Writing a length in four big-endian bytes and reading it back gives the length.
pub proof fn lemma_be_u32_round_trip(v: u32)
    ensures
        be_u32_bytes(v).len() == 4,
        be_u32_value(be_u32_bytes(v)) == v as int,
{
    let b = be_u32_bytes(v);
    assert(b[0] as int == v as int / 0x1000000);
    assert(b[1] as int == v as int / 0x10000 % 0x100);
    assert(b[2] as int == v as int / 0x100 % 0x100);
    assert(b[3] as int == v as int % 0x100);
    let x = v as int;
    assert(0 <= x < 0x100000000);
    assert(x / 0x1000000 * 0x1000000 + x / 0x10000 % 0x100 * 0x10000 + x / 0x100 % 0x100 * 0x100
        + x % 0x100 == x) by (nonlinear_arith)
        requires 0 <= x < 0x100000000;
}

} // verus!
