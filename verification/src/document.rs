//! The parts of the document model that events refer to: positions,
//! directions of cursor movement, and snapshots of a line's content.

use vstd::prelude::*;

verus! {

/// A place in the document: column `x` of line `y`.
#[derive(Clone, Copy, Debug, PartialEq, Eq, Structural)]
pub struct Position {
    pub x: usize,
    pub y: usize,
}

/// The four ways the cursor can move.
#[derive(Clone, Copy, Debug, PartialEq, Eq, Structural)]
pub enum Direction {
    Up,
    Down,
    Left,
    Right,
}

/// An owned copy of the content of one line, taken at one point in time.
///
/// A row never refers back to the live document, so an event that holds one
/// stays valid however the document changes afterwards.  The view of a row is
/// the sequence of its characters.
#[derive(Debug, PartialEq, Eq)]
pub struct Row {
    pub string: String,
}

impl View for Row {
    type V = Seq<char>;

    open spec fn view(&self) -> Seq<char> {
        self.string@
    }
}

impl Clone for Row {
    /// Copies the row, character for character.
    fn clone(&self) -> (copy: Row)
        ensures
            copy@ == self@,
    {
        Row { string: self.string.clone() }
    }
}

impl From<&str> for Row {
    /// Takes a snapshot of `text`.
    fn from(text: &str) -> (row: Row)
        ensures
            row@ == text@,
    {
        Row { string: text.to_owned() }
    }
}

/// Rows are compared by their characters, so the conversion is specified by
/// the view of its result and not by equality with one chosen row.
impl vstd::std_specs::convert::FromSpecImpl<&str> for Row {
    open spec fn obeys_from_spec() -> bool {
        false
    }

    open spec fn from_spec(text: &str) -> Row {
        choose|row: Row| row@ == text@
    }
}

} // verus!
