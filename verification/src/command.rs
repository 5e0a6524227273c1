//! The commands the simulator understands, as exact byte sequences, and
//! the decoders of its fixed-size responses.
//!
//! Every command starts with one opcode byte, with one exception kept as
//! observed: the command that removes a trap has none. All multi-byte
//! integers are little-endian.

use vstd::prelude::*;
use vstd::string::StringSliceAdditionalSpecFns;
use vstd::utf8::{decode_utf8, encode_utf8_decode_utf8, valid_utf8};
use crate::error::LibiguanaError;
use crate::wire::{
    le_u32,
    push_bytes,
    push_u16_le,
    push_u32_le,
    u16_le,
    u32_from_le_bytes,
    u32_le,
};

verus! {

/// Opcode of the ping command.
pub const OP_PING: u8 = 0x01;

/// Opcode of the reset command.
pub const OP_RESET: u8 = 0x04;

/// Opcode of a terminal write.
pub const OP_TERMINAL_WRITE: u8 = 0x12;

/// Opcode of a terminal read.
pub const OP_TERMINAL_READ: u8 = 0x13;

/// Opcode of the status query.
pub const OP_STATUS: u8 = 0x20;

/// Opcode of the stop command.
pub const OP_STOP: u8 = 0x21;

/// Opcode of the pause command.
pub const OP_PAUSE: u8 = 0x22;

/// Opcode of the continue command. The simulator uses one code for pause
/// and continue.
pub const OP_CONTINUE: u8 = 0x22;

/// Opcode that defines a trap.
pub const OP_DEFINE_TRAP: u8 = 0x30;

/// Opcode of a byte-wise write to memory.
pub const OP_WRITE_MEMORY: u8 = 0x40;

/// Opcode of a word-wise read from memory.
pub const OP_READ_MEMORY: u8 = 0x4A;

/// Opcode of a word-wise read from the register bank.
pub const OP_READ_REGISTERS: u8 = 0x5A;

/// Opcode of the start command.
pub const OP_START: u8 = 0xB0;

/// Number of bytes in the response to a ping.
pub const PING_RESPONSE_LEN: usize = 4;

/// Number of bytes in the response to a one-word memory read.
pub const MEMORY_WORD_LEN: usize = 4;

/// Largest payload one memory write can carry: its length field is two
/// bytes wide.
pub const MAX_WRITE_LEN: usize = 65535;

/// Largest number of bytes the terminal read asks for in one fragment.
pub const TERMINAL_READ_MAX: u8 = 32;

/// The ping command.
pub open spec fn ping_command() -> Seq<u8> {
    seq![0x01u8]
}

/// The command that reads the 32-bit word at `address`.
pub open spec fn read_memory_command(address: u32) -> Seq<u8> {
    seq![0x4Au8] + u32_le(address) + u16_le(1)
}

/// The command that writes `payload` to memory at `address`. An empty
/// payload needs no command, so nothing is sent for it.
pub open spec fn write_memory_command(address: u32, payload: Seq<u8>) -> Seq<u8>
    recommends
        payload.len() <= 65535,
{
    if payload.len() == 0 {
        Seq::empty()
    } else {
        seq![0x40u8] + u32_le(address) + u16_le(payload.len() as u16) + payload
    }
}

/// The command that reads all sixteen registers.
pub open spec fn registers_command() -> Seq<u8> {
    seq![0x5Au8] + u32_le(0) + u16_le(16)
}

/// The status query.
pub open spec fn status_command() -> Seq<u8> {
    seq![0x20u8]
}

/// The command that starts execution for `steps` steps; zero steps means
/// no limit.
pub open spec fn start_command(steps: u32) -> Seq<u8> {
    seq![0xB0u8] + u32_le(steps)
}

/// The command that stops execution.
pub open spec fn stop_command() -> Seq<u8> {
    seq![0x21u8]
}

/// The command that pauses execution.
pub open spec fn pause_command() -> Seq<u8> {
    seq![0x22u8]
}

/// The command that continues execution. It is the same byte as the
/// pause command.
pub open spec fn continue_command() -> Seq<u8> {
    seq![0x22u8]
}

/// The reset command.
pub open spec fn reset_command() -> Seq<u8> {
    seq![0x04u8]
}

/// The command that defines a trap in `slot` at `address`: the opcode,
/// the slot, a condition mask with every condition set, a size mask with
/// every transfer size set, the address as the lower bound of the range,
/// an upper bound of all ones, and eight reserved zero bytes.
pub open spec fn define_trap_command(slot: u8, address: u32) -> Seq<u8> {
    seq![0x30u8, slot, 0xFFu8, 0x0Fu8] + u32_le(address) + u32_le(0xFFFF_FFFF) + seq![
        0u8,
        0u8,
        0u8,
        0u8,
        0u8,
        0u8,
        0u8,
        0u8,
    ]
}

/// The command that removes the trap in `slot`: a word of zeros, which
/// disables the trap, followed by the slot as a 32-bit number. It has no
/// opcode byte.
pub open spec fn remove_trap_command(slot: u8) -> Seq<u8> {
    seq![0u8, 0u8, 0u8, 0u8] + u32_le(slot as u32)
}

/// The command that asks for the next fragment of terminal output.
pub open spec fn terminal_read_command() -> Seq<u8> {
    seq![0x13u8, 0x00u8, 0x20u8]
}

/// The command that writes one chunk to the terminal: the opcode, the
/// terminal number zero, the length of the chunk in one byte, the chunk.
pub open spec fn terminal_write_command(chunk: Seq<u8>) -> Seq<u8>
    recommends
        chunk.len() <= 255,
{
    seq![0x12u8, 0x00u8, chunk.len() as u8] + chunk
}

/// Encodes the ping command.
pub fn encode_ping() -> (bytes: Vec<u8>)
    ensures
        bytes@ == ping_command(),
{
    let mut bytes: Vec<u8> = Vec::new();
    bytes.push(OP_PING);
    assert(bytes@ =~= ping_command());
    bytes
}

/// Encodes the command that reads the word at `address`.
pub fn encode_read_memory(address: u32) -> (bytes: Vec<u8>)
    ensures
        bytes@ == read_memory_command(address),
{
    let mut bytes: Vec<u8> = Vec::new();
    bytes.push(OP_READ_MEMORY);
    assert(bytes@ =~= seq![0x4Au8]);
    push_u32_le(&mut bytes, address);
    push_u16_le(&mut bytes, 1);
    bytes
}

/// Encodes the command that writes `payload` at `address`. A payload
/// whose length does not fit the two-byte length field is refused before
/// anything is encoded, so that no truncated header can reach the wire.
pub fn encode_write_memory(address: u32, payload: &[u8]) -> (result: Result<
    Vec<u8>,
    LibiguanaError,
>)
    ensures
        match result {
            Ok(bytes) => payload.len() <= 65535 && bytes@ == write_memory_command(
                address,
                payload@,
            ),
            Err(error) => payload.len() > 65535 && error is IntegerOverflow,
        },
{
    let mut bytes: Vec<u8> = Vec::new();
    if payload.len() == 0 {
        assert(bytes@ =~= write_memory_command(address, payload@));
        return Ok(bytes);
    }
    let count: u16 = match u16::try_from(payload.len()) {
        Ok(count) => count,
        Err(error) => {
            return Err(LibiguanaError::IntegerOverflow(error));
        },
    };
    bytes.push(OP_WRITE_MEMORY);
    assert(bytes@ =~= seq![0x40u8]);
    push_u32_le(&mut bytes, address);
    push_u16_le(&mut bytes, count);
    push_bytes(&mut bytes, payload);
    Ok(bytes)
}

/// Encodes the command that reads all sixteen registers.
pub fn encode_registers() -> (bytes: Vec<u8>)
    ensures
        bytes@ == registers_command(),
{
    let mut bytes: Vec<u8> = Vec::new();
    bytes.push(OP_READ_REGISTERS);
    assert(bytes@ =~= seq![0x5Au8]);
    push_u32_le(&mut bytes, 0);
    push_u16_le(&mut bytes, 16);
    bytes
}

/// Encodes the status query.
pub fn encode_status() -> (bytes: Vec<u8>)
    ensures
        bytes@ == status_command(),
{
    let mut bytes: Vec<u8> = Vec::new();
    bytes.push(OP_STATUS);
    assert(bytes@ =~= status_command());
    bytes
}

/// Encodes the command that starts execution for `steps` steps.
pub fn encode_start(steps: u32) -> (bytes: Vec<u8>)
    ensures
        bytes@ == start_command(steps),
{
    let mut bytes: Vec<u8> = Vec::new();
    bytes.push(OP_START);
    assert(bytes@ =~= seq![0xB0u8]);
    push_u32_le(&mut bytes, steps);
    bytes
}

/// Encodes the command that stops execution.
pub fn encode_stop() -> (bytes: Vec<u8>)
    ensures
        bytes@ == stop_command(),
{
    let mut bytes: Vec<u8> = Vec::new();
    bytes.push(OP_STOP);
    assert(bytes@ =~= stop_command());
    bytes
}

/// Encodes the command that pauses execution.
pub fn encode_pause() -> (bytes: Vec<u8>)
    ensures
        bytes@ == pause_command(),
{
    let mut bytes: Vec<u8> = Vec::new();
    bytes.push(OP_PAUSE);
    assert(bytes@ =~= pause_command());
    bytes
}

/// Encodes the command that continues execution.
pub fn encode_continue() -> (bytes: Vec<u8>)
    ensures
        bytes@ == continue_command(),
{
    let mut bytes: Vec<u8> = Vec::new();
    bytes.push(OP_CONTINUE);
    assert(bytes@ =~= continue_command());
    bytes
}

/// Encodes the reset command.
pub fn encode_reset() -> (bytes: Vec<u8>)
    ensures
        bytes@ == reset_command(),
{
    let mut bytes: Vec<u8> = Vec::new();
    bytes.push(OP_RESET);
    assert(bytes@ =~= reset_command());
    bytes
}

/// Encodes the command that defines a trap in `slot` at `address`.
pub fn encode_define_trap(slot: u8, address: u32) -> (bytes: Vec<u8>)
    ensures
        bytes@ == define_trap_command(slot, address),
{
    let mut bytes: Vec<u8> = Vec::new();
    bytes.push(OP_DEFINE_TRAP);
    bytes.push(slot);
    bytes.push(0xFF);
    bytes.push(0x0F);
    assert(bytes@ =~= seq![0x30u8, slot, 0xFFu8, 0x0Fu8]);
    push_u32_le(&mut bytes, address);
    push_u32_le(&mut bytes, 0xFFFF_FFFF);
    let reserved: [u8; 8] = [0, 0, 0, 0, 0, 0, 0, 0];
    assert(reserved@ =~= seq![0u8, 0u8, 0u8, 0u8, 0u8, 0u8, 0u8, 0u8]);
    push_bytes(&mut bytes, &reserved);
    bytes
}

/// Encodes the command that removes the trap in `slot`.
pub fn encode_remove_trap(slot: u8) -> (bytes: Vec<u8>)
    ensures
        bytes@ == remove_trap_command(slot),
{
    let mut bytes: Vec<u8> = Vec::new();
    push_u32_le(&mut bytes, 0);
    assert(bytes@ =~= seq![0u8, 0u8, 0u8, 0u8]);
    push_u32_le(&mut bytes, slot as u32);
    bytes
}

/// Encodes the command that asks for the next fragment of terminal
/// output.
pub fn encode_terminal_read() -> (bytes: Vec<u8>)
    ensures
        bytes@ == terminal_read_command(),
{
    let mut bytes: Vec<u8> = Vec::new();
    bytes.push(OP_TERMINAL_READ);
    bytes.push(0);
    bytes.push(TERMINAL_READ_MAX);
    assert(bytes@ =~= terminal_read_command());
    bytes
}

/// Encodes the command that writes one chunk of at most 255 bytes to the
/// terminal.
pub fn encode_terminal_write(chunk: &[u8]) -> (bytes: Vec<u8>)
    requires
        chunk.len() <= 255,
    ensures
        bytes@ == terminal_write_command(chunk@),
{
    let mut bytes: Vec<u8> = Vec::new();
    bytes.push(OP_TERMINAL_WRITE);
    bytes.push(0);
    bytes.push(chunk.len() as u8);
    assert(bytes@ =~= seq![0x12u8, 0x00u8, chunk.len() as u8]);
    push_bytes(&mut bytes, chunk);
    bytes
}

/// `core::str::from_utf8`: it succeeds exactly on byte sequences that are
/// valid UTF-8, and the text it then returns consists of those bytes.
#[verifier::external_body]
fn str_from_utf8(bytes: &[u8]) -> (result: Result<&str, core::str::Utf8Error>)
    ensures
        result is Ok <==> valid_utf8(bytes@),
        result matches Ok(text) ==> text.spec_bytes() == bytes@,
{
    core::str::from_utf8(bytes)
}

/// Decodes the response to a ping: the text that the bytes encode in
/// UTF-8. Bytes that are not valid UTF-8 are an encoding failure, kept
/// apart from failures of the transport.
pub fn decode_ping(response: &[u8]) -> (result: Result<String, LibiguanaError>)
    ensures
        match result {
            Ok(text) => valid_utf8(response@) && text@ == decode_utf8(response@),
            Err(error) => !valid_utf8(response@) && error is Utf8Error,
        },
{
    match str_from_utf8(response) {
        Ok(text) => {
            proof {
                encode_utf8_decode_utf8(text@);
            }
            Ok(text.to_owned())
        },
        Err(error) => Err(LibiguanaError::Utf8Error(error)),
    }
}

/// Decodes the response to a one-word memory read.
pub fn decode_memory_word(response: [u8; 4]) -> (value: u32)
    ensures
        value == le_u32(response@),
{
    u32_from_le_bytes(response)
}

} // verus!
