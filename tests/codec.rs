use bytes::{BufMut, Bytes, BytesMut};
use message_broker::codec::MessageCodec;
use message_broker::frame::{CommandType, Frame, FrameError};

fn encode(frame: Frame) -> BytesMut {
    let mut codec = MessageCodec;
    let mut buf = BytesMut::new();
    codec.encode(frame, &mut buf);
    buf
}

#[test]
fn encode_writes_command_length_and_payload() {
    let buf = encode(Frame::new_pub(Bytes::from("abc")));
    assert_eq!(&buf[..], &[2, 0, 0, 0, 3, b'a', b'b', b'c'][..]);
}

#[test]
fn encode_length_is_big_endian() {
    let payload = vec![7u8; 0x0102];
    let buf = encode(Frame { command_type: CommandType::Admin, payload: Bytes::from(payload) });
    assert_eq!(&buf[..5], &[9, 0, 0, 1, 2][..]);
    assert_eq!(buf.len(), 5 + 0x0102);
}

#[test]
fn round_trip_every_command() {
    let commands = [
        CommandType::Hello,
        CommandType::Auth,
        CommandType::Pub,
        CommandType::Sub,
        CommandType::Ack,
        CommandType::Nack,
        CommandType::Pull,
        CommandType::Conf,
        CommandType::Heartbeat,
        CommandType::Admin,
    ];
    for (i, c) in commands.iter().enumerate() {
        let frame = Frame { command_type: *c, payload: Bytes::from(vec![i as u8; i * 3]) };
        let mut buf = encode(frame.clone());
        let mut codec = MessageCodec;
        let decoded = codec.decode(&mut buf).unwrap().unwrap();
        assert_eq!(decoded, frame);
        assert!(buf.is_empty());
    }
}

#[test]
fn decode_short_header_is_incomplete() {
    let mut codec = MessageCodec;
    let mut buf = BytesMut::from(&[2u8, 0, 0, 0][..]);
    assert_eq!(codec.decode(&mut buf), Ok(None));
    assert_eq!(&buf[..], &[2u8, 0, 0, 0][..]);
}

#[test]
fn decode_partial_payload_is_incomplete_and_keeps_bytes() {
    let mut codec = MessageCodec;
    let mut buf = BytesMut::from(&[2u8, 0, 0, 0, 4, b'a', b'b'][..]);
    assert_eq!(codec.decode(&mut buf), Ok(None));
    assert_eq!(&buf[..], &[2u8, 0, 0, 0, 4, b'a', b'b'][..]);
    buf.put_slice(b"cd");
    let frame = codec.decode(&mut buf).unwrap().unwrap();
    assert_eq!(frame.command_type, CommandType::Pub);
    assert_eq!(&frame.payload[..], b"abcd");
    assert!(buf.is_empty());
}

#[test]
fn decode_takes_one_frame_and_leaves_the_next() {
    let mut buf = encode(Frame::new_pub(Bytes::from("one")));
    buf.unsplit(encode(Frame::new_sub("two")));
    let mut codec = MessageCodec;
    let first = codec.decode(&mut buf).unwrap().unwrap();
    assert_eq!(first, Frame::new_pub(Bytes::from("one")));
    let second = codec.decode(&mut buf).unwrap().unwrap();
    assert_eq!(second.command_type, CommandType::Sub);
    assert_eq!(&second.payload[..], b"two");
    assert_eq!(codec.decode(&mut buf), Ok(None));
}

#[test]
fn decode_unknown_command_is_error() {
    let mut codec = MessageCodec;
    let mut buf = BytesMut::from(&[10u8, 0, 0, 0, 1, b'x'][..]);
    assert_eq!(codec.decode(&mut buf), Err(FrameError::UnknownCommand(10)));
    assert_eq!(&buf[..], &[0u8, 0, 0, 1, b'x'][..]);
    let mut buf = BytesMut::from(&[255u8, 0, 0, 0, 0][..]);
    assert_eq!(codec.decode(&mut buf), Err(FrameError::UnknownCommand(255)));
}

#[test]
fn decode_unknown_command_waits_for_whole_frame() {
    let mut codec = MessageCodec;
    let mut buf = BytesMut::from(&[42u8, 0, 0, 0, 3, b'x'][..]);
    assert_eq!(codec.decode(&mut buf), Ok(None));
}

#[test]
fn empty_sub_payload_decodes() {
    let mut codec = MessageCodec;
    let mut buf = BytesMut::from(&[3u8, 0, 0, 0, 0][..]);
    let frame = codec.decode(&mut buf).unwrap().unwrap();
    assert_eq!(frame.command_type, CommandType::Sub);
    assert!(frame.payload.is_empty());
    assert!(buf.is_empty());
}

#[test]
fn chunked_decode_matches_whole_decode() {
    let frames = vec![
        Frame::new_pub(Bytes::from("hello")),
        Frame::new_sub("topic"),
        Frame { command_type: CommandType::Heartbeat, payload: Bytes::new() },
        Frame::new_pub(Bytes::from(vec![1u8; 300])),
    ];
    let mut stream = BytesMut::new();
    for f in frames.iter() {
        stream.unsplit(encode(f.clone()));
    }
    let bytes = stream.freeze();
    for chunk_size in [1usize, 2, 3, 5, 7, 64, bytes.len()] {
        let mut codec = MessageCodec;
        let mut buf = BytesMut::new();
        let mut out = Vec::new();
        for chunk in bytes.chunks(chunk_size) {
            buf.put_slice(chunk);
            while let Some(f) = codec.decode(&mut buf).unwrap() {
                out.push(f);
            }
        }
        assert_eq!(out, frames);
        assert!(buf.is_empty());
    }
}

#[test]
fn command_bytes_round_trip() {
    for b in 0u8..=255 {
        match CommandType::try_from(b) {
            Ok(c) => {
                assert!(b <= 9);
                assert_eq!(c.as_byte(), b);
            }
            Err(e) => {
                assert!(b > 9);
                assert_eq!(e, FrameError::UnknownCommand(b));
            }
        }
    }
    assert_eq!(CommandType::try_from(2), Ok(CommandType::Pub));
    assert_eq!(CommandType::Heartbeat.as_byte(), 8);
}

#[test]
fn new_sub_payload_is_channel_name() {
    let f = Frame::new_sub("meu-topico");
    assert_eq!(f.command_type, CommandType::Sub);
    assert_eq!(&f.payload[..], b"meu-topico");
    assert_ne!(f, Frame::new_sub("other"));
    assert_ne!(f, Frame { command_type: CommandType::Pub, payload: Bytes::from("meu-topico") });
}
