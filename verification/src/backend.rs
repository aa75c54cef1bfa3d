//! The x86-64 back end: labels, operands, instructions and the builder.

pub mod code;
pub mod instruction;
pub mod label;
pub mod location;
