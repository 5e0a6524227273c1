//! The register file as reported by the simulator.

use vstd::prelude::*;
use crate::error::LibiguanaError;
use crate::wire::{le_u32, read_u32_le};

verus! {

/// Number of registers in one snapshot.
pub const REGISTER_COUNT: usize = 16;

/// Number of bytes in the response that carries one snapshot.
pub const REGISTER_BUFFER_LEN: usize = 64;

/// A snapshot of the sixteen 32-bit registers: the general registers
/// `r0` to `r12`, the stack pointer `r13`, the link register `r14` and
/// the program counter.
#[derive(Clone, Copy, Debug, PartialEq, Eq)]
pub struct Registers {
    pub r0: u32,
    pub r1: u32,
    pub r2: u32,
    pub r3: u32,
    pub r4: u32,
    pub r5: u32,
    pub r6: u32,
    pub r7: u32,
    pub r8: u32,
    pub r9: u32,
    pub r10: u32,
    pub r11: u32,
    pub r12: u32,
    pub r13: u32,
    pub r14: u32,
    pub pc: u32,
}

/// The `index`-th 32-bit word of a response, little-endian.
pub open spec fn word_at(bytes: Seq<u8>, index: int) -> u32 {
    le_u32(bytes.subrange(4 * index, 4 * index + 4))
}

impl Registers {
    /// The registers in wire order: `r0` first, the program counter last.
    pub open spec fn words(self) -> Seq<u32> {
        seq![
            self.r0,
            self.r1,
            self.r2,
            self.r3,
            self.r4,
            self.r5,
            self.r6,
            self.r7,
            self.r8,
            self.r9,
            self.r10,
            self.r11,
            self.r12,
            self.r13,
            self.r14,
            self.pc,
        ]
    }

    /// What a response decodes to: sixteen little-endian words in wire
    /// order when it is exactly 64 bytes long, and nothing otherwise.
    pub open spec fn decoded(bytes: Seq<u8>) -> Option<Registers> {
        if bytes.len() == 64 {
            Some(
                Registers {
                    r0: word_at(bytes, 0),
                    r1: word_at(bytes, 1),
                    r2: word_at(bytes, 2),
                    r3: word_at(bytes, 3),
                    r4: word_at(bytes, 4),
                    r5: word_at(bytes, 5),
                    r6: word_at(bytes, 6),
                    r7: word_at(bytes, 7),
                    r8: word_at(bytes, 8),
                    r9: word_at(bytes, 9),
                    r10: word_at(bytes, 10),
                    r11: word_at(bytes, 11),
                    r12: word_at(bytes, 12),
                    r13: word_at(bytes, 13),
                    r14: word_at(bytes, 14),
                    pc: word_at(bytes, 15),
                },
            )
        } else {
            None
        }
    }

    /// Decodes the response to a register query. The length is checked
    /// before any field is read: a response that is not 64 bytes long is
    /// rejected with its length.
    pub fn decode(buf: &[u8]) -> (result: Result<Registers, LibiguanaError>)
        ensures
            match result {
                Ok(registers) => Registers::decoded(buf@) == Some(registers),
                Err(error) => Registers::decoded(buf@) is None
                    && error == LibiguanaError::InvalidRegisterBufferLength(buf.len()),
            },
    {
        if buf.len() != REGISTER_BUFFER_LEN {
            return Err(LibiguanaError::InvalidRegisterBufferLength(buf.len()));
        }
        Ok(
            Registers {
                r0: read_u32_le(buf, 0),
                r1: read_u32_le(buf, 4),
                r2: read_u32_le(buf, 8),
                r3: read_u32_le(buf, 12),
                r4: read_u32_le(buf, 16),
                r5: read_u32_le(buf, 20),
                r6: read_u32_le(buf, 24),
                r7: read_u32_le(buf, 28),
                r8: read_u32_le(buf, 32),
                r9: read_u32_le(buf, 36),
                r10: read_u32_le(buf, 40),
                r11: read_u32_le(buf, 44),
                r12: read_u32_le(buf, 48),
                r13: read_u32_le(buf, 52),
                r14: read_u32_le(buf, 56),
                pc: read_u32_le(buf, 60),
            },
        )
    }
}

/// A decoded snapshot holds sixteen words, and the word at each position
/// is the little-endian word at that position of the response.
pub proof fn lemma_decoded_words(bytes: Seq<u8>)
    requires
        bytes.len() == 64,
    ensures
        Registers::decoded(bytes) is Some,
        Registers::decoded(bytes)->Some_0.words().len() == 16,
        forall|i: int|
            0 <= i < 16 ==> #[trigger] Registers::decoded(bytes)->Some_0.words()[i] == word_at(
                bytes,
                i,
            ),
{
}

} // verus!
