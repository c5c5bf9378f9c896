//! Miller loops and final exponentiations.

pub mod ate;
pub mod ate_laws;
pub mod prepared;
pub mod tate;
pub mod tate_laws;
