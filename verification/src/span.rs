//! Source files and the stretches of text inside them.
use vstd::prelude::*;

use crate::table::{Dup, Key};

verus! {

/// File ids from this one up belong to files shipped with the compiler.
pub const STDLIB_FILE_ID_START: u32 = 0x8000_0000;

/// A source file.
#[derive(Debug, Clone, Copy, PartialEq, Eq, Structural)]
pub struct FileId {
    pub index: u32,
}

impl FileId {
    pub fn new(index: u32) -> (r: Self)
        ensures
            r == (FileId { index }),
    {
        FileId { index }
    }

    pub open spec fn stdlib(self) -> bool {
        self.index >= STDLIB_FILE_ID_START
    }

    /// Whether the file is shipped with the compiler.
    pub fn is_stdlib(self) -> (r: bool)
        ensures
            r == self.stdlib(),
    {
        self.index >= STDLIB_FILE_ID_START
    }
}

/// A stretch of text in one file, from `start` up to `end`.
#[derive(Debug, Clone, Copy, PartialEq, Eq, Structural)]
pub struct Span {
    pub file: FileId,
    pub start: u32,
    pub end: u32,
}

impl Span {
    pub fn new(file: FileId, start: u32, end: u32) -> (r: Self)
        ensures
            r == (Span { file, start, end }),
    {
        Span { file, start, end }
    }
}

impl View for Span {
    type V = Span;

    open spec fn view(&self) -> Span {
        *self
    }
}

impl Dup for Span {
    fn dup(&self) -> (r: Self) {
        *self
    }
}

impl Key for Span {
    fn same(&self, other: &Self) -> (r: bool) {
        *self == *other
    }
}

} // verus!
