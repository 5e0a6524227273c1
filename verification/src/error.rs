//! The one error type of the driver.

use vstd::prelude::*;

verus! {

/// An I/O failure on the channel to the simulator. Opaque to proofs.
#[verifier::external_type_specification]
#[verifier::external_body]
pub struct ExIoError(std::io::Error);

/// Why a byte slice is not UTF-8. Opaque to proofs.
#[verifier::external_type_specification]
#[verifier::external_body]
pub struct ExUtf8Error(core::str::Utf8Error);

/// Why an owned byte buffer is not UTF-8. Opaque to proofs.
#[verifier::external_type_specification]
#[verifier::external_body]
pub struct ExFromUtf8Error(std::string::FromUtf8Error);

/// A slice of the wrong length for an array. Opaque to proofs.
#[verifier::external_type_specification]
#[verifier::external_body]
pub struct ExTryFromSliceError(core::array::TryFromSliceError);

/// Everything that can go wrong in one operation of the driver. An
/// operation reports exactly one of these or succeeds in full.
#[derive(Debug)]
pub enum LibiguanaError {
    /// The simulator's input stream is not available.
    NoStdin,
    /// The simulator's output stream is not available.
    NoStdout,
    /// Reading from or writing to the simulator failed.
    IO(std::io::Error),
    /// A text response was not valid UTF-8.
    Utf8Error(core::str::Utf8Error),
    /// The program image could not be parsed.
    ParseError,
    /// A length does not fit the width of its field on the wire.
    IntegerOverflow(core::num::TryFromIntError),
    /// A slice did not have the length of the array it was meant for.
    TryFromSliceError(core::array::TryFromSliceError),
    /// The simulator reported a status byte outside the known set.
    InvalidStatus(u8),
    /// The register response did not have the expected number of bytes.
    InvalidRegisterBufferLength(usize),
    /// The assembler executable does not exist.
    AasmDoesNotExist,
    /// Assembler output was not valid UTF-8.
    FromUtf8Error(std::string::FromUtf8Error),
    /// The mnemonics file does not exist.
    MnemonicsDoesNotExist,
    /// Every trap slot is taken.
    TooManyTraps,
    /// No trap is defined at this address.
    NoTrapForAddress(u32),
}

} // verus!
