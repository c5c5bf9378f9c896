//! The group laws of the curves.

pub mod short_weierstrass;
pub mod twisted_edwards;
