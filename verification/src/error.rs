//! Why a read of the console can fail.

use vstd::prelude::*;

verus! {

/// The ways in which talking to the console fails.
///
/// The first four end a single attempt and are absorbed by the retry
/// policy; only `ReadExhausted` reaches the caller of a read.
#[derive(Clone, Copy, Debug, PartialEq, Eq, Structural)]
pub enum ProtocolError {
    /// Every handshake round ended without the console reporting ready.
    HandshakeFailed,
    /// The console echoed a command byte with an unexpected value.
    EchoMismatch,
    /// The data bytes do not add up to the checksum byte that followed them.
    ChecksumMismatch,
    /// The channel timed out or reported a transport failure.
    ChannelIo,
    /// Every attempt of a read failed.
    ReadExhausted,
}

} // verus!
