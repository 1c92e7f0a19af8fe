//! Minimal worker implementations.

use vstd::prelude::*;

verus! {

/// A minimal worker that does nothing; useful as a placeholder
/// registration on a node.
#[derive(Clone, Copy, Debug, PartialEq, Eq, Structural)]
pub struct NullWorker;

} // verus!
