//! A line of a program image.

use vstd::prelude::*;
use super::word::KmdparseWord;

verus! {

/// One line of a program image: where it goes, what it holds, and the
/// source text it came from. A line may lack an address, a word or both.
#[derive(Clone, Debug, PartialEq, Eq)]
pub struct KmdparseLine {
    pub memory_address: Option<u32>,
    pub word: Option<KmdparseWord>,
    pub comment: String,
}

} // verus!
