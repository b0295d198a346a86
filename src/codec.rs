//! The wire format, `[command: 1 byte][length: 4 bytes, big-endian][payload]`,
//! and its incremental codec over a growing byte buffer.

use vstd::prelude::*;
use bytes::BytesMut;
use crate::buffer::{
    be_u32_bytes, be_u32_value, buf_advance, buf_content, buf_freeze, buf_len, buf_peek_u32,
    buf_put_bytes, buf_put_u32, buf_put_u8, buf_reserve, buf_split_to, buf_take_u8, bytes_content,
    bytes_len,
    lemma_be_u32_round_trip,
};
use crate::frame::{command_byte, command_of_byte, CommandType, Frame, FrameError};

verus! {

/// Bytes of a frame that come before its payload.
pub const HEADER_LEN: usize = 5;

/// What the front of a buffer holds.
pub enum Parsed {
    /// Not a whole frame yet: more bytes are needed.
    Incomplete,
    /// A whole frame whose command byte names no command.
    Unknown(u8),
    /// A whole frame with its command and payload.
    Complete(CommandType, Seq<u8>),
}

/// The length that the header at the front of `buf` declares for the whole frame.
pub open spec fn declared_frame_len(buf: Seq<u8>) -> int {
    HEADER_LEN as int + be_u32_value(buf.subrange(1, 5))
}

/// Whether `buf` begins with a whole frame, header and payload.
pub open spec fn holds_whole_frame(buf: Seq<u8>) -> bool {
    buf.len() >= HEADER_LEN && buf.len() >= declared_frame_len(buf)
}

/// How the front of `buf` decodes.
pub open spec fn parse(buf: Seq<u8>) -> Parsed {
    if !holds_whole_frame(buf) {
        Parsed::Incomplete
    } else {
        match command_of_byte(buf[0]) {
            Some(c) => Parsed::Complete(c, buf.subrange(HEADER_LEN as int, declared_frame_len(buf))),
            None => Parsed::Unknown(buf[0]),
        }
    }
}

/// The wire bytes of a frame with command `c` and payload `payload`.
pub open spec fn encoding(c: CommandType, payload: Seq<u8>) -> Seq<u8> {
    seq![command_byte(c)] + be_u32_bytes(payload.len() as u32) + payload
}

/// The codec of the protocol. It keeps no state between calls.
pub struct MessageCodec;

impl MessageCodec {
    /// Appends the wire bytes of `item` to `dst`; the length field is taken from
    /// the payload itself.
    pub fn encode(&mut self, item: Frame, dst: &mut BytesMut)
        requires
            item.payload_view().len() <= u32::MAX,
            buf_content(*old(dst)).len() + HEADER_LEN + item.payload_view().len() <= isize::MAX,
        ensures
            buf_content(*final(dst)) == buf_content(*old(dst)) + encoding(
                item.command_type,
                item.payload_view(),
            ),
    {
        let payload_len = bytes_len(&item.payload);
        buf_reserve(dst, HEADER_LEN + payload_len);
        buf_put_u8(dst, item.command_type.as_byte());
        buf_put_u32(dst, payload_len as u32);
        buf_put_bytes(dst, item.payload);
        proof {
            let old_content = buf_content(*old(dst));
            let p = bytes_content(item.payload);
            assert(buf_content(*dst) =~= old_content + encoding(item.command_type, p));
        }
    }

    /// Takes the first frame off the front of `src`.
    ///
    /// With no whole frame buffered yet it returns `Ok(None)` and leaves the bytes
    /// as they were, so that more can be appended and decoding retried. With a
    /// whole frame it consumes exactly that frame and returns it, its payload
    /// split off the buffer without a copy; if the command byte names no command,
    /// it consumes that byte and returns the error.
    pub fn decode(&mut self, src: &mut BytesMut) -> (r: Result<Option<Frame>, FrameError>)
        ensures
            match parse(buf_content(*old(src))) {
                Parsed::Incomplete => {
                    &&& r == Ok::<Option<Frame>, FrameError>(None)
                    &&& buf_content(*final(src)) == buf_content(*old(src))
                },
                Parsed::Unknown(b) => {
                    &&& r == Err::<Option<Frame>, FrameError>(FrameError::UnknownCommand(b))
                    &&& buf_content(*final(src)) == buf_content(*old(src)).drop_first()
                },
                Parsed::Complete(c, p) => {
                    &&& r matches Ok(Some(f))
                    &&& f.command_type == c
                    &&& f.payload_view() == p
                    &&& p.len() <= u32::MAX
                    &&& buf_content(*final(src)) == buf_content(*old(src)).skip(
                        HEADER_LEN + p.len(),
                    )
                },
            },
    {
        let len = buf_len(src);
        if len < HEADER_LEN {
            return Ok(None);
        }
        let payload_len = buf_peek_u32(src, 1) as usize;
        if len - HEADER_LEN < payload_len {
            let additional = payload_len - (len - HEADER_LEN);
            if len <= isize::MAX as usize && additional <= isize::MAX as usize - len {
                buf_reserve(src, additional);
            }
            return Ok(None);
        }
        let byte = buf_take_u8(src);
        let command_type = match CommandType::try_from(byte) {
            Ok(c) => c,
            Err(e) => return Err(e),
        };
        buf_advance(src, 4);
        let payload = buf_freeze(buf_split_to(src, payload_len));
        proof {
            let o = buf_content(*old(src));
            assert(buf_content(*src) =~= o.skip(HEADER_LEN + payload_len));
            assert(bytes_content(payload) =~= o.subrange(HEADER_LEN as int, declared_frame_len(o)));
        }
        Ok(Some(Frame { command_type, payload }))
    }
}

} // verus!
