//! Curve25519, the curve that the Yafa curves embed.
//! This is not a pairing-friendly curve, so its instantiation is straightforward.

pub mod curves;
pub mod fields;
