//! What the codec does to a byte stream as a whole: encoding then decoding gives
//! the frame back, an unknown command never decodes, and the frames that come
//! out do not depend on how the stream was cut into reads.

use vstd::prelude::*;
use crate::buffer::{be_u32_bytes, be_u32_value, lemma_be_u32_round_trip};
use crate::codec::{declared_frame_len, encoding, holds_whole_frame, parse, Parsed, HEADER_LEN};
use crate::frame::{command_of_byte, lemma_command_byte_round_trip, lemma_command_of_byte, CommandType};

verus! {

/// What repeated decoding of a buffer yields: the frames, as command and
/// payload, the bytes left over, and whether it stopped on an unknown command.
pub struct Drained {
    pub frames: Seq<(CommandType, Seq<u8>)>,
    pub rest: Seq<u8>,
    pub failed: bool,
}

/// Decodes frames off the front of `buf` until it holds no whole frame or an
/// unknown command comes.
pub open spec fn drain(buf: Seq<u8>) -> Drained
    decreases buf.len(),
{
    if !holds_whole_frame(buf) {
        Drained { frames: seq![], rest: buf, failed: false }
    } else {
        match command_of_byte(buf[0]) {
            None => Drained { frames: seq![], rest: buf, failed: true },
            Some(c) => {
                let n = declared_frame_len(buf);
                let d = drain(buf.skip(n));
                Drained {
                    frames: seq![(c, buf.subrange(HEADER_LEN as int, n))] + d.frames,
                    rest: d.rest,
                    failed: d.failed,
                }
            },
        }
    }
}

/// Reads `chunks` one after another into a buffer that starts as `buf`,
/// decoding every whole frame after each read, and stops at an unknown command.
pub open spec fn feed(buf: Seq<u8>, chunks: Seq<Seq<u8>>) -> Drained
    decreases chunks.len(),
{
    if chunks.len() == 0 {
        Drained { frames: seq![], rest: buf, failed: false }
    } else {
        let d = drain(buf + chunks[0]);
        if d.failed {
            d
        } else {
            let t = feed(d.rest, chunks.drop_first());
            Drained { frames: d.frames + t.frames, rest: t.rest, failed: t.failed }
        }
    }
}

/// Decoding the encoding of a frame gives that frame back, whatever follows it,
/// and consumes exactly its header and payload.
pub proof fn lemma_round_trip(c: CommandType, payload: Seq<u8>, rest: Seq<u8>)
    requires
        payload.len() <= u32::MAX,
    ensures
        parse(encoding(c, payload) + rest) == Parsed::Complete(c, payload),
        declared_frame_len(encoding(c, payload) + rest) == HEADER_LEN + payload.len(),
{
    let b = encoding(c, payload) + rest;
    lemma_be_u32_round_trip(payload.len() as u32);
    lemma_command_byte_round_trip(c);
    assert(b.subrange(1, 5) =~= be_u32_bytes(payload.len() as u32));
    assert(b.subrange(HEADER_LEN as int, HEADER_LEN + payload.len()) =~= payload);
}

/// A frame decoded off a buffer fits the length field, and encoding it again
/// gives back exactly the bytes it was decoded from.
pub proof fn lemma_reencode(buf: Seq<u8>)
    requires
        parse(buf) is Complete,
    ensures
        ({
            let (c, p) = (parse(buf)->Complete_0, parse(buf)->Complete_1);
            &&& p.len() <= u32::MAX
            &&& encoding(c, p) == buf.take(HEADER_LEN + p.len())
        }),
{
    let c = parse(buf)->Complete_0;
    let p = parse(buf)->Complete_1;
    let h = buf.subrange(1, 5);
    let v = be_u32_value(h);
    assert(0 <= v < 0x100000000) by {
        assert(h[0] as int * 0x1000000 <= 255 * 0x1000000);
    }
    let w = v as u32;
    lemma_be_u32_round_trip(w);
    lemma_be_u32_bytes_unique(h, be_u32_bytes(w));
    lemma_command_of_byte(buf[0]);
    assert(encoding(c, p) =~= buf.take(HEADER_LEN + p.len()));
}

/// Four bytes are fixed by their big-endian value.
proof fn lemma_be_u32_bytes_unique(a: Seq<u8>, b: Seq<u8>)
    requires
        a.len() == 4,
        b.len() == 4,
        be_u32_value(a) == be_u32_value(b),
    ensures
        a == b,
{
    let (a0, a1, a2, a3) = (a[0] as int, a[1] as int, a[2] as int, a[3] as int);
    let (b0, b1, b2, b3) = (b[0] as int, b[1] as int, b[2] as int, b[3] as int);
    assert(a0 == b0 && a1 == b1 && a2 == b2 && a3 == b3) by (nonlinear_arith)
        requires
            0 <= a0 < 256,
            0 <= a1 < 256,
            0 <= a2 < 256,
            0 <= a3 < 256,
            0 <= b0 < 256,
            0 <= b1 < 256,
            0 <= b2 < 256,
            0 <= b3 < 256,
            a0 * 0x1000000 + a1 * 0x10000 + a2 * 0x100 + a3 == b0 * 0x1000000 + b1 * 0x10000
                + b2 * 0x100 + b3,
    ;
    assert(a =~= b);
}

/// A buffer whose first byte names no command never decodes into a frame: once
/// it holds a whole frame, it decodes to the error naming that byte.
pub proof fn lemma_unknown_command_rejected(buf: Seq<u8>)
    requires
        buf.len() >= 1,
        command_of_byte(buf[0]) is None,
    ensures
        !(parse(buf) is Complete),
        holds_whole_frame(buf) ==> parse(buf) == Parsed::Unknown(buf[0]),
{
}

/// A buffer that holds a whole frame still holds it, unchanged, when more bytes
/// are appended.
proof fn lemma_parse_prefix(x: Seq<u8>, y: Seq<u8>)
    requires
        holds_whole_frame(x),
    ensures
        holds_whole_frame(x + y),
        (x + y)[0] == x[0],
        declared_frame_len(x + y) == declared_frame_len(x),
        (x + y).subrange(HEADER_LEN as int, declared_frame_len(x)) == x.subrange(
            HEADER_LEN as int,
            declared_frame_len(x),
        ),
        (x + y).skip(declared_frame_len(x)) == x.skip(declared_frame_len(x)) + y,
{
    assert((x + y).subrange(1, 5) =~= x.subrange(1, 5));
    let n = declared_frame_len(x);
    assert((x + y).subrange(HEADER_LEN as int, n) =~= x.subrange(HEADER_LEN as int, n));
    assert((x + y).skip(n) =~= x.skip(n) + y);
}

/// What is left after draining holds no whole frame, unless draining failed.
proof fn lemma_drain_rest(x: Seq<u8>)
    ensures
        !drain(x).failed ==> !holds_whole_frame(drain(x).rest),
    decreases x.len(),
{
    if holds_whole_frame(x) && command_of_byte(x[0]) is Some {
        lemma_drain_rest(x.skip(declared_frame_len(x)));
    }
}

/// Draining `x + y` first drains `x`, then goes on from what `x` left over.
proof fn lemma_drain_append(x: Seq<u8>, y: Seq<u8>)
    ensures
        !drain(x).failed ==> drain(x + y) == (Drained {
            frames: drain(x).frames + drain(drain(x).rest + y).frames,
            rest: drain(drain(x).rest + y).rest,
            failed: drain(drain(x).rest + y).failed,
        }),
        drain(x).failed ==> drain(x + y).failed && drain(x + y).frames == drain(x).frames,
    decreases x.len(),
{
    if !holds_whole_frame(x) {
        assert(drain(x).frames + drain(x + y).frames =~= drain(x + y).frames);
    } else {
        lemma_parse_prefix(x, y);
        let n = declared_frame_len(x);
        match command_of_byte(x[0]) {
            None => {},
            Some(c) => {
                lemma_drain_append(x.skip(n), y);
                let head = seq![(c, x.subrange(HEADER_LEN as int, n))];
                let a = drain(x.skip(n));
                if !a.failed {
                    let b = drain(a.rest + y);
                    assert(head + (a.frames + b.frames) =~= (head + a.frames) + b.frames);
                }
            },
        }
    }
}

/// Frames come out of a byte stream the same whether it arrives in one read or
/// cut into any chunks: reading the chunks in turn into one buffer, decoding
/// after each read, yields the frames of decoding the whole stream at once, and
/// stops on an unknown command exactly when that does.
pub proof fn lemma_chunked_decode(chunks: Seq<Seq<u8>>)
    ensures
        feed(seq![], chunks).frames == drain(chunks.flatten()).frames,
        feed(seq![], chunks).failed == drain(chunks.flatten()).failed,
        !feed(seq![], chunks).failed ==> feed(seq![], chunks).rest == drain(chunks.flatten()).rest,
{
    lemma_feed_from(seq![], chunks);
    assert(Seq::<u8>::empty() + chunks.flatten() =~= chunks.flatten());
}

/// Feeding chunks into a buffer that holds no whole frame decodes as draining
/// that buffer with all the chunks appended.
proof fn lemma_feed_from(buf: Seq<u8>, chunks: Seq<Seq<u8>>)
    requires
        !holds_whole_frame(buf),
    ensures
        feed(buf, chunks).frames == drain(buf + chunks.flatten()).frames,
        feed(buf, chunks).failed == drain(buf + chunks.flatten()).failed,
        !feed(buf, chunks).failed ==> feed(buf, chunks).rest == drain(buf + chunks.flatten()).rest,
    decreases chunks.len(),
{
    if chunks.len() == 0 {
        assert(buf + chunks.flatten() =~= buf);
    } else {
        let x = buf + chunks[0];
        let tail = chunks.drop_first();
        assert(buf + chunks.flatten() =~= x + tail.flatten());
        lemma_drain_append(x, tail.flatten());
        let d = drain(x);
        if !d.failed {
            lemma_drain_rest(x);
            lemma_feed_from(d.rest, tail);
        }
    }
}

} // verus!
