//! Assembly emission for a small compiler: operands, instructions, the
//! per-function stack frame and the instruction builder that turns a build
//! sequence into x86-64 assembler text, together with the syntax tree that
//! the front end hands over.

pub mod backend;
pub mod frontend;
pub mod text;
