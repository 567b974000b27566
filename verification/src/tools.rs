use crate::scalar::Scalar;
use vstd::prelude::*;

verus! {

/// An interval of numbers.
#[derive(Clone, Copy, Debug, PartialEq, Eq, Structural)]
pub struct Range {
    pub min: Scalar,
    pub max: Scalar,
}

/// An interval cut into bins of one width.
#[derive(Clone, Copy, Debug, PartialEq, Eq, Structural)]
pub struct Binner {
    pub range: Range,
    pub bins: u64,
}

} // verus!
