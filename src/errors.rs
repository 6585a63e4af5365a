use vstd::prelude::*;

verus! {

/// Errors raised while building topological entities.
#[derive(Clone, Copy, Debug, PartialEq, Eq, Structural)]
pub enum Error {
    /// The two end vertices of an edge are the same vertex.
    SameVertex,
}

} // verus!
