//! A small vector-algebra library: a fixed three-component vector over a
//! generic numeric scalar, with componentwise arithmetic, scalar
//! multiplication in both directions, a planar dot product, the full 3D
//! cross product, and exact componentwise equality.

pub mod scalar;
pub mod sqrt;
pub mod vector;
