//! The fields of curve25519.

pub mod fq;
pub mod fr;
