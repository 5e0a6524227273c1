//! Disassembly of single ARM instructions, for display.

use vstd::prelude::*;
use vstd::std_specs::convert::FromSpecImpl;
use yaxpeax_arch::{Arch, Decoder, ReaderBuilder};
use yaxpeax_arm::armv7::{ARMv7, DecodeError};
use crate::wire::{le_u32, lemma_u32_le_decodes, u32_le, u32_to_le_bytes};

verus! {

/// Why the ARMv7 decoder of `yaxpeax_arm` refused a word. Opaque to
/// proofs.
#[verifier::external_type_specification]
#[verifier::external_body]
pub struct ExDecodeError(DecodeError);

/// The failure to decode an instruction, with the decoder's own reason.
#[derive(Debug)]
pub enum DecoderError {
    DecodeError(DecodeError),
}

impl From<DecodeError> for DecoderError {
    fn from(reason: DecodeError) -> (error: DecoderError) {
        DecoderError::DecodeError(reason)
    }
}

impl FromSpecImpl<DecodeError> for DecoderError {
    open spec fn obeys_from_spec() -> bool {
        true
    }

    open spec fn from_spec(reason: DecodeError) -> DecoderError {
        DecoderError::DecodeError(reason)
    }
}

/// Whether `word` is one that the ARMv7 decoder of `yaxpeax_arm` gives
/// up on by panicking: a conditional load or store of a register pair
/// (LDRD, STRD) with a valid addressing mode whose first register is
/// `r15`. The decoder then asks for the register after `r15`, which its
/// register type does not have.
pub open spec fn decoder_gives_up(word: u32) -> bool {
    &&& (word >> 28) != 0xF
    &&& (word & 0x0E10_00D0) == 0x0000_00D0
    &&& !((word >> 24) & 1 == 0 && (word >> 21) & 1 == 1)
    &&& (word >> 12) & 0xF == 0xF
}

/// Tests whether `word` is one that the decoder gives up on.
pub fn gives_up(word: u32) -> (result: bool)
    ensures
        result == decoder_gives_up(word),
{
    (word >> 28) != 0xF && (word & 0x0E10_00D0) == 0x0000_00D0 && !((word >> 24) & 1 == 0 && (word
        >> 21) & 1 == 1) && (word >> 12) & 0xF == 0xF
}

/// The text of the ARM instruction that `bytes` encode, as the ARMv7
/// decoder of `yaxpeax_arm` in its default mode prints it, or nothing if
/// that decoder refuses them.
pub uninterp spec fn armv7_text(bytes: Seq<u8>) -> Option<Seq<char>>;

/// `yaxpeax_arch::Decoder::decode` of the default ARMv7 decoder of
/// `yaxpeax_arm`, on a reader over `bytes`, followed by the `to_string`
/// of the instruction. The decoder reads from its input alone, so what
/// comes back depends on `bytes` only: the text that `armv7_text` names,
/// or a refusal where it names none. Left out are the words on which
/// the decoder panics.
#[verifier::external_body]
fn disassemble_armv7(bytes: &[u8]) -> (result: Result<String, DecodeError>)
    requires
        bytes.len() >= 4 ==> !decoder_gives_up(le_u32(bytes@)),
    ensures
        match result {
            Ok(text) => armv7_text(bytes@) == Some(text@),
            Err(_) => armv7_text(bytes@) is None,
        },
{
    let mut reader = ReaderBuilder::<u32, u8>::read_from(bytes);
    let decoder = <ARMv7 as Arch>::Decoder::default();
    match decoder.decode(&mut reader) {
        Ok(instruction) => Ok(instruction.to_string()),
        Err(reason) => Err(reason),
    }
}

/// Hands on the outcome of a disassembly: the text as it is, a refusal
/// wrapped as the error of this module.
pub fn disassembled(outcome: Result<String, DecodeError>) -> (result: Result<String, DecoderError>)
    ensures
        match outcome {
            Ok(text) => result == Ok::<String, DecoderError>(text),
            Err(reason) => result == Err::<String, DecoderError>(
                DecoderError::DecodeError(reason),
            ),
        },
{
    match outcome {
        Ok(text) => Ok(text),
        Err(reason) => Err(DecoderError::from(reason)),
    }
}

/// Decodes `word` into the text of an ARM instruction. The word is
/// handed to the decoder as it lies in memory, least significant byte
/// first. Words that the decoder gives up on are not taken.
pub fn decode_instruction(word: u32) -> (result: Result<String, DecoderError>)
    requires
        !decoder_gives_up(word),
    ensures
        match result {
            Ok(text) => armv7_text(u32_le(word)) == Some(text@),
            Err(_) => armv7_text(u32_le(word)) is None,
        },
{
    let bytes = u32_to_le_bytes(word);
    proof {
        lemma_u32_le_decodes(word);
    }
    disassembled(disassemble_armv7(bytes.as_slice()))
}

} // verus!
