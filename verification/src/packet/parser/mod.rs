//! Reassembly of the two sensor streams from the transfers that carry them.
pub mod color;
pub mod depth;

pub use color::ColorStreamParser;
pub use depth::DepthStreamParser;
