//! The front end's side of the hand-over: the parsed syntax tree.

pub mod past;

use vstd::prelude::*;

verus! {

/// A value together with the place in the source text where it was read.
pub struct Locatable<T> {
    /// The value itself.
    pub raw: T,
    /// The line on which it starts.
    pub line: usize,
    /// The column at which it starts.
    pub column: usize,
}

impl<T> Locatable<T> {
    /// Pairs a value with its place.
    pub fn new(raw: T, line: usize, column: usize) -> (located: Locatable<T>)
        ensures
            located.raw == raw,
            located.line == line,
            located.column == column,
    {
        Locatable { raw, line, column }
    }

    /// The value without its place.
    pub fn borrow_raw(&self) -> (raw: &T)
        ensures
            *raw == self.raw,
    {
        &self.raw
    }
}

} // verus!
