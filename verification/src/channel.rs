//! The message that a child sends when it fails before the program starts.
//!
//! The child holds the writing end of a pipe that closes by itself when the
//! program starts. A parent that reads nothing knows the program is running;
//! one that reads a message knows which step of the setup failed, and why.

use vstd::prelude::*;

verus! {

/// What the child tells the parent about a setup that failed: the position
/// of the step in the list of the child's steps, and the error number that
/// the system gave.
#[derive(Debug, Clone, Copy, PartialEq, Eq, Structural)]
pub struct SetupFailure {
    pub step: u8,
    pub errno: u32,
}

/// What the parent learns from the bytes it read until the pipe closed.
#[derive(Debug, Clone, Copy, PartialEq, Eq, Structural)]
pub enum Reading {
    /// Nothing was written: the program has started.
    Started,
    /// The child failed at a step.
    Failed(SetupFailure),
    /// The bytes are no message.
    Malformed,
}

/// The length of a message in bytes.
pub const MESSAGE_LEN: usize = 5;

/// A message: the step, then the error number with its lowest byte first.
pub open spec fn encoded(failure: SetupFailure) -> Seq<u8> {
    seq![
        failure.step,
        (failure.errno % 256) as u8,
        ((failure.errno / 256) % 256) as u8,
        ((failure.errno / 65536) % 256) as u8,
        (failure.errno / 16777216) as u8,
    ]
}

/// What a sequence of bytes read from the pipe says.
pub open spec fn decoded(bytes: Seq<u8>) -> Reading {
    if bytes.len() == 0 {
        Reading::Started
    } else if bytes.len() == MESSAGE_LEN {
        Reading::Failed(
            SetupFailure {
                step: bytes[0],
                errno: (bytes[1] + 256 * bytes[2] + 65536 * bytes[3] + 16777216 * bytes[4]) as u32,
            },
        )
    } else {
        Reading::Malformed
    }
}

/// Writes a failure as a message. The result is an array, so that a child
/// can build it without asking for memory.
pub fn encode(failure: SetupFailure) -> (message: [u8; 5])
    ensures
        message@ == encoded(failure),
{
    let e: u32 = failure.errno;
    let message: [u8; 5] = [
        failure.step,
        (e % 256) as u8,
        ((e / 256) % 256) as u8,
        ((e / 65536) % 256) as u8,
        (e / 16777216) as u8,
    ];
    assert(message@ =~= encoded(failure));
    message
}

/// Reads what the child wrote, all of it, after the pipe has closed.
pub fn decode(bytes: &[u8]) -> (reading: Reading)
    ensures
        reading == decoded(bytes@),
{
    let len: usize = bytes.len();
    if len == 0 {
        Reading::Started
    } else if len == MESSAGE_LEN {
        let b1: u32 = bytes[1] as u32;
        let b2: u32 = bytes[2] as u32;
        let b3: u32 = bytes[3] as u32;
        let b4: u32 = bytes[4] as u32;
        Reading::Failed(
            SetupFailure { step: bytes[0], errno: b1 + 256 * b2 + 65536 * b3 + 16777216 * b4 },
        )
    } else {
        Reading::Malformed
    }
}

/// A message that was written is read back as it was, and no message is
/// empty: a failure is never taken for a start, nor for another failure.
pub proof fn lemma_message_round_trip(failure: SetupFailure)
    ensures
        encoded(failure).len() == MESSAGE_LEN,
        decoded(encoded(failure)) == Reading::Failed(failure),
{
}

} // verus!
