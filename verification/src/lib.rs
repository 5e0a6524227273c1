//! Driver core for the jimulator ARM simulator: the byte-level command
//! codec, the trap slot allocator, the status model and the program loader.
//!
//! Nothing in this crate performs I/O. Every operation is expressed as the
//! bytes to send and a decoder for the bytes that come back, so that the
//! owner of the simulator process only moves bytes.

pub mod aasm_output;
pub mod arm_decoder;
pub mod command;
pub mod error;
pub mod kmdparse_types;
pub mod loader;
pub mod registers;
pub mod status;
pub mod terminal;
pub mod traps;
pub mod wire;

pub use self::aasm_output::AasmOutput;
pub use self::error::LibiguanaError;
pub use self::registers::Registers;
pub use self::status::{BoardState, Status};
