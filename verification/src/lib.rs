//! Scene registry for constructive solid geometry: primitives and boolean
//! composites flattened into fixed-capacity, index-linked tables, together
//! with the byte images a renderer reads from them.

pub mod color;
pub mod layout;
pub mod scalar;
pub mod shapes;
