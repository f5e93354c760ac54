//! Command framing: how a memory region is addressed on the wire, what the
//! console echoes for each command byte, and how the data it returns is
//! checked.

use vstd::prelude::*;
use crate::device::Device;
use crate::error::ProtocolError;
use crate::memory::Memory;

verus! {

/// The byte that resets the console at the start of a handshake.
pub const RESET: u8 = 0x06;

/// The code of the first address nibble; each further nibble adds four.
pub const ADDRESS_BASE: u8 = 0x82;

/// The code of a response of no bytes; each further byte adds four.
pub const LENGTH_BASE: u8 = 0xC2;

/// The largest response-size code the console knows.
pub const LENGTH_MAX: u8 = 0xFE;

/// Nibble `index` of a 16-bit address, the most significant being nibble 0.
pub open spec fn nibble(address: u16, index: int) -> int {
    if index == 0 {
        address as int / 0x1000
    } else if index == 1 {
        address as int / 0x100 % 16
    } else if index == 2 {
        address as int / 0x10 % 16
    } else {
        address as int % 16
    }
}

/// The command byte that carries one address nibble.
pub open spec fn address_code(nibble: int) -> int {
    ADDRESS_BASE + nibble * 4
}

/// The command byte that asks for `size` bytes, capped at the largest code.
pub open spec fn length_code(size: int) -> int {
    if LENGTH_BASE + size * 4 <= LENGTH_MAX as int {
        LENGTH_BASE + size * 4
    } else {
        LENGTH_MAX as int
    }
}

/// The command that asks the console for a memory region.
///
/// A region at the address that equals the reset byte is addressed by
/// that single byte. Any other is addressed by its four nibbles, most
/// significant first, followed by the size of the response.
pub open spec fn command(memory: Memory) -> Seq<u8> {
    if memory.address == RESET {
        seq![RESET]
    } else {
        seq![
            address_code(nibble(memory.address, 0)) as u8,
            address_code(nibble(memory.address, 1)) as u8,
            address_code(nibble(memory.address, 2)) as u8,
            address_code(nibble(memory.address, 3)) as u8,
            length_code(memory.size as int) as u8,
        ]
    }
}

/// The echo the console owes for the command byte at position `sequence`.
pub open spec fn expected_echo(command: u8, sequence: int) -> int {
    if sequence < 4 {
        sequence * 16 + (command - ADDRESS_BASE) / 4
    } else {
        0x30 + (command - LENGTH_BASE) / 4
    }
}

/// Whether a command byte is one that the console echoes at `sequence`:
/// an address code in the first four positions, a length code after them.
pub open spec fn has_echo(command: u8, sequence: int) -> bool {
    if sequence < 4 {
        command >= ADDRESS_BASE
    } else {
        command >= LENGTH_BASE
    }
}

/// The sum of a sequence of bytes.
pub open spec fn sum(bytes: Seq<u8>) -> int
    decreases bytes.len(),
{
    if bytes.len() == 0 {
        0
    } else {
        sum(bytes.drop_last()) + bytes.last() as int
    }
}

/// The checksum byte the console sends after a sequence of data bytes.
pub open spec fn checksum(bytes: Seq<u8>) -> int {
    sum(bytes) % 256
}

/// A command for an address other than the reset byte has exactly five
/// bytes, and each lies between the first address code and the largest
/// length code.
pub proof fn lemma_command_general(memory: Memory)
    requires
        memory.address != RESET,
    ensures
        command(memory).len() == 5,
        forall|i: int| 0 <= i < 5 ==> ADDRESS_BASE <= #[trigger] command(memory)[i] <= LENGTH_MAX,
{
    assert(memory.address as int / 0x1000 < 16);
}

/// The address that equals the reset byte, and no other, is encoded as
/// that single byte.
pub proof fn lemma_command_reset(memory: Memory)
    ensures
        memory.address == RESET <==> command(memory) == seq![RESET],
        memory.address == RESET <==> command(memory).len() == 1,
{
}

/// The console echoes every byte of a five-byte command, and the echo
/// carries the byte's position together with the nibble it encodes, or,
/// for the last byte, the capped size.
pub proof fn lemma_command_echo(memory: Memory, sequence: int)
    requires
        memory.address != RESET,
        0 <= sequence < 5,
    ensures
        has_echo(command(memory)[sequence], sequence),
        sequence < 4 ==> expected_echo(command(memory)[sequence], sequence) == sequence * 16
            + nibble(memory.address, sequence),
        sequence == 4 ==> expected_echo(command(memory)[sequence], sequence) == 0x30 + if memory.size
            < 15 {
            memory.size as int
        } else {
            15
        },
        0 <= expected_echo(command(memory)[sequence], sequence) < 64,
{
    assert(memory.address as int / 0x1000 < 16);
}

/// The checksum of a sequence is that of its front part, with the last
/// byte added, reduced to a byte.
pub proof fn lemma_checksum_push(bytes: Seq<u8>, byte: u8)
    ensures
        checksum(bytes.push(byte)) == (checksum(bytes) + byte) % 256,
        0 <= checksum(bytes) < 256,
{
    assert(bytes.push(byte).drop_last() == bytes);
}

/// One nibble of an address, by shifting and masking.
fn address_nibble(address: u16, index: u32) -> (value: u8)
    requires
        index < 4,
    ensures
        value == nibble(address, index as int),
        value < 16,
{
    let shift: u32 = 4 * (3 - index);
    let value: u16 = (address >> shift) & 0x0F;
    assert(value == nibble(address, index as int) && value < 16) by {
        assert((address >> 12u32) & 0x0F == address / 0x1000) by (bit_vector);
        assert((address >> 8u32) & 0x0F == address / 0x100 % 16) by (bit_vector);
        assert((address >> 4u32) & 0x0F == address / 0x10 % 16) by (bit_vector);
        assert((address >> 0u32) & 0x0F == address % 16) by (bit_vector);
        assert(address / 0x1000 < 16);
    }
    value as u8
}

impl Device {
    /// Encodes the command that asks for a memory region.
    pub fn encode_address(memory: &Memory) -> (command: Vec<u8>)
        ensures
            command@ == self::command(*memory),
    {
        let mut command: Vec<u8> = Vec::new();
        if memory.address == 0x06 {
            command.push(RESET);
        } else {
            let mut i: u32 = 0;
            while i < 4
                invariant
                    i <= 4,
                    command@.len() == i,
                    forall|j: int|
                        0 <= j < i ==> command@[j] == address_code(
                            nibble(memory.address, j),
                        ) as u8,
                decreases 4 - i,
            {
                let nibble: u8 = address_nibble(memory.address, i);
                command.push(ADDRESS_BASE + nibble * 4);
                i = i + 1;
            }
            let length: u8 = if memory.size >= 15 {
                LENGTH_MAX
            } else {
                LENGTH_BASE + (memory.size as u8) * 4
            };
            command.push(length);
        }
        command
    }

    /// Checks the echo of one command byte.
    ///
    /// The command byte must be one the console echoes at that position;
    /// every byte of a five-byte command is.
    pub fn check(command: u8, sequence: usize, answer: u8) -> (result: Result<(), ProtocolError>)
        requires
            has_echo(command, sequence as int),
        ensures
            answer == expected_echo(command, sequence as int) ==> result == Ok::<
                (),
                ProtocolError,
            >(()),
            answer != expected_echo(command, sequence as int) ==> result == Err::<
                (),
                ProtocolError,
            >(ProtocolError::EchoMismatch),
    {
        let checksum: u8 = if sequence < 4 {
            (sequence as u8) * 16 + (command - ADDRESS_BASE) / 4
        } else {
            0x30 + (command - LENGTH_BASE) / 4
        };
        if checksum == answer {
            Ok(())
        } else {
            Err(ProtocolError::EchoMismatch)
        }
    }

    /// Checks the data bytes of a response against the checksum byte that
    /// followed them.
    pub fn check_data(answer: u8, response: Vec<u8>) -> (result: Result<(), ProtocolError>)
        ensures
            answer == checksum(response@) ==> result == Ok::<(), ProtocolError>(()),
            answer != checksum(response@) ==> result == Err::<(), ProtocolError>(
                ProtocolError::ChecksumMismatch,
            ),
    {
        let mut checksum: u32 = 0;
        let mut i: usize = 0;
        while i < response.len()
            invariant
                i <= response.len(),
                checksum == self::checksum(response@.take(i as int)),
            decreases response.len() - i,
        {
            assert(response@.take(i + 1).drop_last() == response@.take(i as int));
            checksum = (checksum + response[i] as u32) % 256;
            i = i + 1;
        }
        assert(response@.take(i as int) == response@);
        if checksum == answer as u32 {
            Ok(())
        } else {
            Err(ProtocolError::ChecksumMismatch)
        }
    }
}

} // verus!
