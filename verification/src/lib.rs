//! Protocol engine and decoder for the WS-2300 weather station console.
//!
//! The crate is free of I/O. The serial exchange is described by state
//! machines that name the next channel operation and consume its result;
//! the raw bytes they produce are decoded into fixed-point readings.

pub mod channel;
pub mod command;
pub mod data;
pub mod decimal;
pub mod decode;
pub mod device;
pub mod error;
pub mod exchange;
pub mod memory;
pub mod read;
pub mod reset;
pub mod sweep;
pub mod try_read;

pub use channel::{Action, Event};
pub use data::Data;
pub use device::Device;
pub use error::ProtocolError;
pub use memory::{Memory, MemoryMap};
pub use read::{Attempt, Stage};
pub use reset::Handshake;
pub use sweep::Sweep;
pub use try_read::Retry;
