//! The generator: from the description of a struct to the code that tracks it.

pub mod emit;
pub mod error;
pub mod expand;
pub mod field;
pub mod input;
pub mod laws;
pub mod text;
pub mod width;
