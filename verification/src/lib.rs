//! Dirty tracking for struct fields.
//!
//! The crate has two halves. The runtime half is the [`TrackedField`] wrapper,
//! which couples a write to a field with setting that field's bit in a flag
//! set, and the [`TrackedStruct`] trait, which drains the accumulated flags.
//! The generator half, under [`derive`], turns the description of a struct
//! into the text of the flags type, the accessor pairs and the trait impl
//! for it.

pub mod __reexport;
pub mod aggregate;
pub mod derive;
pub mod field;
pub mod flags;

pub use aggregate::TrackedStruct;
pub use field::TrackedField;
pub use flags::Flags;
