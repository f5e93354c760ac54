//! The console as the host sees it.

use vstd::prelude::*;
use crate::memory::{memory_map, Memory, MemoryMap};

verus! {

/// A WS-2300 console: its memory layout, and with it the rules for
/// addressing, reading and decoding that memory.
///
/// A `Device` performs no I/O. Reading a region is described by the state
/// machines of this crate, which a driver runs against a serial channel.
#[derive(Clone, Copy, Debug)]
pub struct Device {
    pub memory: MemoryMap,
}

impl Device {
    /// A device is well formed when it carries the console's memory layout.
    pub open spec fn wf(&self) -> bool {
        self.memory == memory_map()
    }

    /// A device with the console's memory layout.
    pub fn new() -> (device: Device)
        ensures
            device.wf(),
    {
        Device {
            memory: MemoryMap {
                temperature_indoor: Memory { address: 0x346, size: 2 },
                temperature_outdoor: Memory { address: 0x373, size: 2 },
                dewpoint: Memory { address: 0x3CE, size: 2 },
                humidity_indoor: Memory { address: 0x3FB, size: 1 },
                humidity_outdoor: Memory { address: 0x419, size: 1 },
                wind_speed: Memory { address: 0x529, size: 3 },
                wind_dir: Memory { address: 0x52C, size: 1 },
                wind_chill: Memory { address: 0x3A0, size: 2 },
                rain_1h: Memory { address: 0x4B4, size: 3 },
                rain_24h: Memory { address: 0x497, size: 3 },
                rain_total: Memory { address: 0x4D2, size: 3 },
                pressure: Memory { address: 0x5E2, size: 3 },
                tendency: Memory { address: 0x26B, size: 1 },
            },
        }
    }
}

} // verus!
