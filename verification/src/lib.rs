//! # abao
//!
//! Append only array backed data structures

mod errors;
mod vec;

pub use errors::OomError;
pub use vec::AbaoVec;
