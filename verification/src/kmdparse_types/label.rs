//! A label of a program image.

use vstd::prelude::*;

verus! {

/// A named address. Labels inform the user; nothing is loaded for them.
#[derive(Clone, Debug, PartialEq)]
pub struct KmdparseLabel {
    /// The name of the label.
    pub name: String,
    /// The address that the label names.
    pub memory_address: u32,
    /// Whether the label is global rather than local.
    pub is_exported: bool,
    /// Whether the label points to a Thumb instruction.
    pub is_thumb: bool,
}

} // verus!
