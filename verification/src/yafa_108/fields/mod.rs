//! The fields of Yafa-108.

pub mod fq;
pub mod fq3;
pub mod fq6;
pub mod fr;
