//! Shape diffing of observed JSON values against the shape alternatives that
//! a recorded specification admits at each position.

pub mod diff;
pub mod encoder;
pub mod shapes;
pub mod visitors;
