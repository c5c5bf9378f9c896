//! The Yafa-146 curve, a curve of embedding degree 12 that embeds curve25519,
//! with a bit security level of 146.
//!
//! The main feature of this curve is that the scalar field equals the base
//! field of the curve25519 curve.

pub mod curves;
pub mod fields;
