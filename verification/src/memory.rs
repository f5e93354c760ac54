//! The console's addressable memory: where each quantity lives.

use vstd::prelude::*;

verus! {

/// A region of the console's memory: the address of its first nibble and
/// the number of bytes the console returns for it.
#[derive(Clone, Copy, Debug, PartialEq, Eq, Structural)]
pub struct Memory {
    pub address: u16,
    pub size: usize,
}

/// The regions of the thirteen quantities the console keeps.
#[derive(Clone, Copy, Debug, PartialEq, Eq, Structural)]
pub struct MemoryMap {
    pub temperature_indoor: Memory,
    pub temperature_outdoor: Memory,
    pub dewpoint: Memory,
    pub humidity_indoor: Memory,
    pub humidity_outdoor: Memory,
    pub wind_speed: Memory,
    pub wind_dir: Memory,
    pub wind_chill: Memory,
    pub rain_1h: Memory,
    pub rain_24h: Memory,
    pub rain_total: Memory,
    pub pressure: Memory,
    pub tendency: Memory,
}

/// The memory layout of the console.
pub open spec fn memory_map() -> MemoryMap {
    MemoryMap {
        temperature_indoor: Memory { address: 0x346, size: 2 },
        temperature_outdoor: Memory { address: 0x373, size: 2 },
        dewpoint: Memory { address: 0x3CE, size: 2 },
        humidity_indoor: Memory { address: 0x3FB, size: 1 },
        humidity_outdoor: Memory { address: 0x419, size: 1 },
        wind_speed: Memory { address: 0x529, size: 3 },
        wind_dir: Memory { address: 0x52C, size: 1 },
        wind_chill: Memory { address: 0x3A0, size: 2 },
        rain_1h: Memory { address: 0x4B4, size: 3 },
        rain_24h: Memory { address: 0x497, size: 3 },
        rain_total: Memory { address: 0x4D2, size: 3 },
        pressure: Memory { address: 0x5E2, size: 3 },
        tendency: Memory { address: 0x26B, size: 1 },
    }
}

} // verus!
