//! Frames: a command and an opaque payload.

use vstd::prelude::*;
use bytes::Bytes;
use crate::buffer::{bytes_content, bytes_equal, bytes_from_str};
use vstd::string::StringSliceAdditionalSpecFns;

verus! {

/// The kinds of command a frame carries; on the wire each is one byte,
/// `Hello` being 0 and `Admin` 9, in the order declared.
#[derive(Clone, Copy, Debug, PartialEq, Eq, Structural)]
pub enum CommandType {
    Hello,
    Auth,
    Pub,
    Sub,
    Ack,
    Nack,
    Pull,
    Conf,
    Heartbeat,
    Admin,
}

/// Why a buffer could not be decoded into a frame.
#[derive(Clone, Copy, Debug, PartialEq, Eq, Structural)]
pub enum FrameError {
    /// The command byte names no known command.
    UnknownCommand(u8),
}

/// The wire byte of a command.
pub open spec fn command_byte(c: CommandType) -> u8 {
    match c {
        CommandType::Hello => 0,
        CommandType::Auth => 1,
        CommandType::Pub => 2,
        CommandType::Sub => 3,
        CommandType::Ack => 4,
        CommandType::Nack => 5,
        CommandType::Pull => 6,
        CommandType::Conf => 7,
        CommandType::Heartbeat => 8,
        CommandType::Admin => 9,
    }
}

/// The command that a wire byte names, if any.
pub open spec fn command_of_byte(b: u8) -> Option<CommandType> {
    if b == 0 {
        Some(CommandType::Hello)
    } else if b == 1 {
        Some(CommandType::Auth)
    } else if b == 2 {
        Some(CommandType::Pub)
    } else if b == 3 {
        Some(CommandType::Sub)
    } else if b == 4 {
        Some(CommandType::Ack)
    } else if b == 5 {
        Some(CommandType::Nack)
    } else if b == 6 {
        Some(CommandType::Pull)
    } else if b == 7 {
        Some(CommandType::Conf)
    } else if b == 8 {
        Some(CommandType::Heartbeat)
    } else if b == 9 {
        Some(CommandType::Admin)
    } else {
        None
    }
}

/// Each command's byte names that command again.
pub proof fn lemma_command_byte_round_trip(c: CommandType)
    ensures
        command_of_byte(command_byte(c)) == Some(c),
        command_byte(c) <= 9,
{
}

/// A byte names a command exactly when it is at most 9, and then it is that command's byte.
pub proof fn lemma_command_of_byte(b: u8)
    ensures
        command_of_byte(b) is Some <==> b <= 9,
        command_of_byte(b) is Some ==> command_byte(command_of_byte(b)->0) == b,
{
}

impl CommandType {
    /// The wire byte of this command.
    pub fn as_byte(&self) -> (r: u8)
        ensures
            r == command_byte(*self),
    {
        match self {
            CommandType::Hello => 0,
            CommandType::Auth => 1,
            CommandType::Pub => 2,
            CommandType::Sub => 3,
            CommandType::Ack => 4,
            CommandType::Nack => 5,
            CommandType::Pull => 6,
            CommandType::Conf => 7,
            CommandType::Heartbeat => 8,
            CommandType::Admin => 9,
        }
    }
}

impl TryFrom<u8> for CommandType {
    type Error = FrameError;

    fn try_from(value: u8) -> (r: Result<CommandType, FrameError>)
        ensures
            r == command_result(value),
    {
        match value {
            0 => Ok(CommandType::Hello),
            1 => Ok(CommandType::Auth),
            2 => Ok(CommandType::Pub),
            3 => Ok(CommandType::Sub),
            4 => Ok(CommandType::Ack),
            5 => Ok(CommandType::Nack),
            6 => Ok(CommandType::Pull),
            7 => Ok(CommandType::Conf),
            8 => Ok(CommandType::Heartbeat),
            9 => Ok(CommandType::Admin),
            _ => Err(FrameError::UnknownCommand(value)),
        }
    }
}

/// The outcome of reading a command byte: its command, or the error naming the byte.
pub open spec fn command_result(b: u8) -> Result<CommandType, FrameError> {
    match command_of_byte(b) {
        Some(c) => Ok(c),
        None => Err(FrameError::UnknownCommand(b)),
    }
}

impl vstd::std_specs::convert::TryFromSpecImpl<u8> for CommandType {
    open spec fn obeys_try_from_spec() -> bool {
        true
    }

    open spec fn try_from_spec(v: u8) -> Result<CommandType, FrameError> {
        command_result(v)
    }
}

/// One protocol message: a command and its payload. The payload is shared,
/// never copied, when the frame is cloned.
#[derive(Clone, Debug)]
pub struct Frame {
    pub command_type: CommandType,
    pub payload: Bytes,
}

impl Frame {
    /// The bytes of the payload.
    pub open spec fn payload_view(&self) -> Seq<u8> {
        bytes_content(self.payload)
    }

    /// A `Pub` frame carrying `payload`.
    pub fn new_pub(payload: Bytes) -> (r: Frame)
        ensures
            r.command_type == CommandType::Pub,
            r.payload_view() == bytes_content(payload),
    {
        Frame { command_type: CommandType::Pub, payload }
    }

    /// A `Sub` frame whose payload is the UTF-8 text of the channel name.
    pub fn new_sub(channel: &str) -> (r: Frame)
        ensures
            r.command_type == CommandType::Sub,
            r.payload_view() == channel.spec_bytes(),
    {
        Frame { command_type: CommandType::Sub, payload: bytes_from_str(channel) }
    }
}

impl PartialEq for Frame {
    fn eq(&self, other: &Frame) -> (r: bool)
        ensures
            r == (self.command_type == other.command_type && self.payload_view()
                == other.payload_view()),
    {
        self.command_type == other.command_type && bytes_equal(&self.payload, &other.payload)
    }
}

impl vstd::std_specs::cmp::PartialEqSpecImpl for Frame {
    open spec fn obeys_eq_spec() -> bool {
        true
    }

    open spec fn eq_spec(&self, other: &Frame) -> bool {
        self.command_type == other.command_type && self.payload_view() == other.payload_view()
    }
}

} // verus!
