//! Topological entities of a boundary-representation kernel: vertices and
//! directed edges whose geometric payloads live in a shared arena.
use vstd::prelude::*;

pub mod arena;
pub mod curve;
pub mod edge;
pub mod errors;

pub use arena::{Arena, Vertex, VertexID};
pub use curve::Curve;
pub use edge::{ConcatError, Edge, EdgeID, SEARCH_PARAMETER_TRIALS};
pub use errors::Error;
