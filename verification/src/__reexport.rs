//! What the generated code names besides the items of this crate.

pub use bitflags::bitflags;
pub use bitflags::Flags;
