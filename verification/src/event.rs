//! The vocabulary of changes that the editor records.

use vstd::prelude::*;
use crate::document::{Direction, Position, Row};

verus! {

/// The kinds of scratch buffer ("bank") that an editor keeps beside the
/// document.
#[derive(Clone, Copy, Debug, PartialEq, Eq, Structural)]
pub enum BankType {
    /// Holds lines taken from the document.
    Line,
    /// Holds cursor positions.
    Cursor,
}

/// One change made by the user, with everything needed to describe it and,
/// where it can be undone, to undo it.
///
/// Row content is held by value, never by reference into the document.
#[derive(Debug, PartialEq, Eq)]
pub enum Event {
    /// Store an item in slot `.1` of a bank.
    Store(BankType, usize),
    /// Load the item in slot `.1` of a bank.
    Load(BankType, usize),
    /// Join the line at the position onto the end of the line above it.
    SpliceUp(Position),
    /// Split the line at the position in two.
    SplitDown(Position),
    /// Open a new line above line `.0`.
    InsertLineAbove(usize),
    /// Open a new line below line `.0`.
    InsertLineBelow(usize),
    /// Remove the character `.1` at the position.
    Deletion(Position, char),
    /// Insert the character `.1` at the position.
    Insertion(Position, char),
    /// Remove line `.0`, whose content was `.1`.
    DeleteLine(usize, Box<Row>),
    /// Replace the content `.1` of line `.0` by `.2`.
    UpdateLine(usize, Box<Row>, Box<Row>),
    /// Move the cursor by `.0` steps in a direction.
    MoveCursor(i128, Direction),
    /// Put the cursor at the position.
    GotoCursor(Position),
    /// Replace the whole document `.0` by `.1`.
    Overwrite(Vec<Row>, Vec<Row>),
    /// Start a new document.
    New,
    /// Open the document at a path.
    Open(Option<String>),
    /// Save the document, to a path where one is given.
    Save(Option<String>, bool),
    /// Save every open document.
    SaveAll,
    /// Undo the latest patch.
    Undo,
    /// Redo the patch undone last.
    Redo,
    /// Close the patch that is being recorded.
    Commit,
    /// Leave the document.
    Quit(bool),
    /// Leave every document.
    QuitAll(bool),
    /// Go to the next tab.
    NextTab,
    /// Go to the previous tab.
    PrevTab,
}

/// What an [`Event`] says, with every row and path given as the sequence of
/// its characters.
pub enum EventView {
    Store(BankType, usize),
    Load(BankType, usize),
    SpliceUp(Position),
    SplitDown(Position),
    InsertLineAbove(usize),
    InsertLineBelow(usize),
    Deletion(Position, char),
    Insertion(Position, char),
    DeleteLine(usize, Seq<char>),
    UpdateLine(usize, Seq<char>, Seq<char>),
    MoveCursor(i128, Direction),
    GotoCursor(Position),
    Overwrite(Seq<Seq<char>>, Seq<Seq<char>>),
    New,
    Open(Option<Seq<char>>),
    Save(Option<Seq<char>>, bool),
    SaveAll,
    Undo,
    Redo,
    Commit,
    Quit(bool),
    QuitAll(bool),
    NextTab,
    PrevTab,
}

/// The content of a run of rows, row by row.
pub open spec fn rows_view(rows: Seq<Row>) -> Seq<Seq<char>> {
    Seq::new(rows.len(), |i: int| rows[i]@)
}

/// The characters of a path, where there is one.
pub open spec fn path_view(path: Option<String>) -> Option<Seq<char>> {
    match path {
        Some(name) => Some(name@),
        None => None,
    }
}

impl View for Event {
    type V = EventView;

    open spec fn view(&self) -> EventView {
        match *self {
            Event::Store(bank, slot) => EventView::Store(bank, slot),
            Event::Load(bank, slot) => EventView::Load(bank, slot),
            Event::SpliceUp(at) => EventView::SpliceUp(at),
            Event::SplitDown(at) => EventView::SplitDown(at),
            Event::InsertLineAbove(y) => EventView::InsertLineAbove(y),
            Event::InsertLineBelow(y) => EventView::InsertLineBelow(y),
            Event::Deletion(at, ch) => EventView::Deletion(at, ch),
            Event::Insertion(at, ch) => EventView::Insertion(at, ch),
            Event::DeleteLine(y, row) => EventView::DeleteLine(y, row@),
            Event::UpdateLine(y, before, after) => EventView::UpdateLine(y, before@, after@),
            Event::MoveCursor(steps, direction) => EventView::MoveCursor(steps, direction),
            Event::GotoCursor(at) => EventView::GotoCursor(at),
            Event::Overwrite(before, after) => EventView::Overwrite(
                rows_view(before@),
                rows_view(after@),
            ),
            Event::New => EventView::New,
            Event::Open(path) => EventView::Open(path_view(path)),
            Event::Save(path, flag) => EventView::Save(path_view(path), flag),
            Event::SaveAll => EventView::SaveAll,
            Event::Undo => EventView::Undo,
            Event::Redo => EventView::Redo,
            Event::Commit => EventView::Commit,
            Event::Quit(flag) => EventView::Quit(flag),
            Event::QuitAll(flag) => EventView::QuitAll(flag),
            Event::NextTab => EventView::NextTab,
            Event::PrevTab => EventView::PrevTab,
        }
    }
}

impl Clone for Event {
    /// Copies the event together with the rows and paths it holds.
    fn clone(&self) -> (copy: Event)
        ensures
            copy@ == self@,
    {
        match self {
            Event::Store(bank, slot) => Event::Store(*bank, *slot),
            Event::Load(bank, slot) => Event::Load(*bank, *slot),
            Event::SpliceUp(at) => Event::SpliceUp(*at),
            Event::SplitDown(at) => Event::SplitDown(*at),
            Event::InsertLineAbove(y) => Event::InsertLineAbove(*y),
            Event::InsertLineBelow(y) => Event::InsertLineBelow(*y),
            Event::Deletion(at, ch) => Event::Deletion(*at, *ch),
            Event::Insertion(at, ch) => Event::Insertion(*at, *ch),
            Event::DeleteLine(y, row) => Event::DeleteLine(*y, Box::new((**row).clone())),
            Event::UpdateLine(y, before, after) => Event::UpdateLine(
                *y,
                Box::new((**before).clone()),
                Box::new((**after).clone()),
            ),
            Event::MoveCursor(steps, direction) => Event::MoveCursor(*steps, *direction),
            Event::GotoCursor(at) => Event::GotoCursor(*at),
            Event::Overwrite(before, after) => {
                let before_copy = before.clone();
                let after_copy = after.clone();
                assert(rows_view(before_copy@) =~= rows_view(before@));
                assert(rows_view(after_copy@) =~= rows_view(after@));
                Event::Overwrite(before_copy, after_copy)
            },
            Event::New => Event::New,
            Event::Open(path) => Event::Open(path.clone()),
            Event::Save(path, flag) => Event::Save(path.clone(), *flag),
            Event::SaveAll => Event::SaveAll,
            Event::Undo => Event::Undo,
            Event::Redo => Event::Redo,
            Event::Commit => Event::Commit,
            Event::Quit(flag) => Event::Quit(*flag),
            Event::QuitAll(flag) => Event::QuitAll(*flag),
            Event::NextTab => Event::NextTab,
            Event::PrevTab => Event::PrevTab,
        }
    }
}

} // verus!
