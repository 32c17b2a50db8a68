//! What can go wrong in the note store.

use vstd::prelude::*;

verus! {

/// What a lookup looked for and did not find.
#[derive(Clone, Copy, Debug, PartialEq, Eq, Structural)]
pub enum Missing {
    /// The store holds no note at all.
    Notes,
    /// No note has the name asked for.
    Note,
    /// The category has no directory.
    Category,
    /// The category's directory holds no note.
    CategoryContents,
}

/// Why an operation on the store failed.
#[derive(Clone, Copy, Debug, PartialEq, Eq, Structural)]
pub enum NoteError {
    /// A required setting (data home, editor) is not set.
    Config,
    /// A lookup matched nothing.
    NotFound(Missing),
    /// The scope already holds a note of that name.
    Conflict,
    /// The editor could not be started.
    Editor,
    /// The file system refused an operation or could not be read.
    Io,
    /// The clock shows a moment for which no calendar date can be written.
    Clock,
}

impl NoteError {
    /// Whether the error reports a lookup that matched nothing.
    pub open spec fn not_found(self) -> bool {
        self is NotFound
    }

    /// Whether the error reports a lookup that matched nothing.
    pub fn is_not_found(&self) -> (yes: bool)
        ensures
            yes == self.not_found(),
    {
        match self {
            NoteError::NotFound(_) => true,
            _ => false,
        }
    }
}

} // verus!
