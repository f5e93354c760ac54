//! The vocabulary shared by the protocol state machines and the driver
//! that owns the serial channel.
//!
//! A machine names the next operation as an [`Action`]; the driver performs
//! it on the channel and reports what happened as an [`Event`].

use vstd::prelude::*;

verus! {

/// An operation the driver performs on the channel.
#[derive(Clone, Copy, Debug, PartialEq, Eq, Structural)]
pub enum Action {
    /// Discard whatever input the channel has buffered.
    Flush,
    /// Write one byte.
    Write(u8),
    /// Read exactly one byte.
    Read,
    /// Wait for this many milliseconds.
    Sleep(u64),
}

/// What the channel made of an action.
#[derive(Clone, Copy, Debug, PartialEq, Eq, Structural)]
pub enum Event {
    /// The flush, the write or the wait went through.
    Done,
    /// The read produced this byte.
    Byte(u8),
    /// The channel timed out or failed.
    Failed,
}

} // verus!
