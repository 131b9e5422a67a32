//! Places in source text.

use vstd::prelude::*;

verus! {

/// A place in source text.
#[derive(Clone, Copy, Debug, PartialEq, Eq, Structural)]
pub struct Loc {
    pub line: usize,
    pub column: usize,
}

} // verus!
