//! Primitives for flow-based programming: ports, message-count constraints,
//! port identifiers, and the structural definition of systems of blocks.

pub mod bounded;
pub mod error;
pub mod io;
pub mod laws;
pub mod model;
pub mod tokio;

pub use io::{Cardinality, CardinalityBounds};
