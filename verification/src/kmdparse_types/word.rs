//! The content of one line of a program image.

use vstd::prelude::*;

verus! {

/// What a line of a program image puts into memory.
#[derive(Clone, Debug, PartialEq, Eq)]
pub enum KmdparseWord {
    /// An instruction of four bytes, in the order in which they go into
    /// memory.
    Instruction { instruction: [u8; 4] },
    /// Data of any length.
    Data { data: Vec<u8> },
}

impl KmdparseWord {
    /// The bytes that the word puts into memory.
    pub open spec fn bytes(self) -> Seq<u8> {
        match self {
            KmdparseWord::Instruction { instruction } => instruction@,
            KmdparseWord::Data { data } => data@,
        }
    }

    /// The bytes that the word puts into memory.
    pub fn as_bytes(&self) -> (bytes: &[u8])
        ensures
            bytes@ == self.bytes(),
    {
        match self {
            KmdparseWord::Instruction { instruction } => instruction.as_slice(),
            KmdparseWord::Data { data } => data.as_slice(),
        }
    }
}

} // verus!
