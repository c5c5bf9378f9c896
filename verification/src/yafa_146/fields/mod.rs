//! The fields of Yafa-146.

pub mod fq;
pub mod fq12;
pub mod fq2;
pub mod fq6;
pub mod fr;
