use vstd::prelude::*;

verus! {

/// A half-open range of indices `start..end`.
#[derive(Clone, Copy, PartialEq, Eq, Structural, Debug)]
pub struct IndexRange {
    pub start: usize,
    pub end: usize,
}

} // verus!
