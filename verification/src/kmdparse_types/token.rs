//! One unit of a parsed program image.

use vstd::prelude::*;
use super::label::KmdparseLabel;
use super::line::KmdparseLine;

verus! {

/// A token of a parsed program image.
#[derive(Clone, Debug, PartialEq)]
pub enum KmdparseToken {
    /// The marker at the head of an image. It carries nothing.
    Tag,
    /// A line that may put a word into memory.
    Line { line: KmdparseLine },
    /// A label.
    Label { label: KmdparseLabel },
}

} // verus!
