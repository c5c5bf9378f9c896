//! Prime fields and the extension towers built over them.

pub mod cubic;
pub mod embedded;
pub mod field;
pub mod frobenius;
pub mod laws;
pub mod power;
pub mod prime;
pub mod products;
pub mod quadratic;
