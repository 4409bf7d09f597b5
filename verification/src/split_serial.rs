//! The one-byte messages of the wired link between the two halves.
use vstd::prelude::*;

verus! {

/// A message over the wired link between the halves.
#[derive(Debug, Copy, Clone, PartialEq, Eq, Structural)]
pub enum SplitSerialMessage {
    Ping,
    Pong,
}

/// The byte that carries each message.
pub open spec fn message_byte(msg: SplitSerialMessage) -> u8 {
    match msg {
        SplitSerialMessage::Ping => 1,
        SplitSerialMessage::Pong => 2,
    }
}

impl SplitSerialMessage {
    /// The byte written to the link for this message.
    pub fn byte(self) -> (r: u8)
        ensures
            r == message_byte(self),
    {
        match self {
            SplitSerialMessage::Ping => 1,
            SplitSerialMessage::Pong => 2,
        }
    }

    /// The message a received byte stands for; other bytes are none.
    pub fn from_byte(byte: u8) -> (r: Option<Self>)
        ensures
            r matches Some(msg) ==> message_byte(msg) == byte,
            r is None <==> (byte != 1 && byte != 2),
    {
        match byte {
            1 => Some(SplitSerialMessage::Ping),
            2 => Some(SplitSerialMessage::Pong),
            _ => None,
        }
    }
}

/// Reading back the byte of a message gives the message.
pub proof fn lemma_message_round_trip(msg: SplitSerialMessage)
    ensures
        message_byte(msg) == 1 || message_byte(msg) == 2,
        (message_byte(msg) == 1) == (msg == SplitSerialMessage::Ping),
{
}

} // verus!
