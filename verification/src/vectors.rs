//! Triples of scalars: directions, positions and colours.
pub mod color;
pub mod point;
pub mod vector;
