//! Turning an event into the event that undoes it.

use vstd::prelude::*;
use crate::document::{Position, Row};
use crate::event::{Event, EventView};

verus! {

/// The index of the line after line `y`, held at the largest index there is.
pub open spec fn line_below(y: usize) -> usize {
    if y < usize::MAX {
        (y + 1) as usize
    } else {
        usize::MAX
    }
}

/// Whether an event is an edit of the document's content, which can be undone.
/// Cursor movement, bank access, document lifecycle and control events are
/// not.
pub open spec fn invertible(event: EventView) -> bool {
    ||| event is SpliceUp
    ||| event is SplitDown
    ||| event is InsertLineAbove
    ||| event is InsertLineBelow
    ||| event is Deletion
    ||| event is Insertion
    ||| event is DeleteLine
    ||| event is UpdateLine
    ||| event is Overwrite
}

/// The event that undoes `event`, where there is one.
///
/// A line opened above `y` is undone by deleting the empty line `y`, a line
/// opened below `y` by deleting the empty line after it.  A deleted line
/// comes back as an update of line `y` from empty to its old content.  An
/// update or an overwrite is undone by swapping its two images.  A joined
/// line is undone by a split at the same position.  A split is answered by
/// the same split, not by a join: the two are no pair of inverses.
pub open spec fn inverse(event: EventView) -> Option<EventView> {
    match event {
        EventView::SpliceUp(at) => Some(EventView::SplitDown(at)),
        EventView::SplitDown(at) => Some(EventView::SplitDown(at)),
        EventView::InsertLineAbove(y) => Some(EventView::DeleteLine(y, Seq::empty())),
        EventView::InsertLineBelow(y) => Some(EventView::DeleteLine(line_below(y), Seq::empty())),
        EventView::Deletion(at, ch) => Some(EventView::Insertion(at, ch)),
        EventView::Insertion(at, ch) => Some(EventView::Deletion(at, ch)),
        EventView::DeleteLine(y, before) => Some(EventView::UpdateLine(y, Seq::empty(), before)),
        EventView::UpdateLine(y, before, after) => Some(EventView::UpdateLine(y, after, before)),
        EventView::Overwrite(before, after) => Some(EventView::Overwrite(after, before)),
        _ => None,
    }
}

/// Turns an event into the event that undoes it.  Gives `None` for an event
/// that is no edit of the content; a caller that undoes a patch skips those.
pub fn reverse(before: Event) -> (after: Option<Event>)
    ensures
        after is Some <==> invertible(before@),
        match after {
            Some(event) => inverse(before@) == Some(event@),
            None => inverse(before@) is None,
        },
{
    proof {
        reveal_strlit("");
        assert(""@ =~= Seq::<char>::empty());
    }
    Some(
        match before {
            Event::SpliceUp(pos) => Event::SplitDown(pos),
            Event::SplitDown(pos) => Event::SplitDown(pos),
            Event::InsertLineAbove(y) => Event::DeleteLine(y, Box::new(Row::from(""))),
            Event::InsertLineBelow(y) => Event::DeleteLine(
                y.saturating_add(1),
                Box::new(Row::from("")),
            ),
            Event::Deletion(pos, ch) => Event::Insertion(pos, ch),
            Event::Insertion(pos, ch) => Event::Deletion(pos, ch),
            Event::DeleteLine(y, before) => Event::UpdateLine(y, Box::new(Row::from("")), before),
            Event::UpdateLine(y, before, after) => Event::UpdateLine(y, after, before),
            Event::Overwrite(before, after) => Event::Overwrite(after, before),
            _ => return None,
        },
    )
}

/// Inserting a character and deleting it undo each other: the inverse of
/// either is the other, at the same position and with the same character.
pub proof fn insertion_and_deletion_are_inverses(at: Position, ch: char)
    ensures
        inverse(EventView::Insertion(at, ch)) == Some(EventView::Deletion(at, ch)),
        inverse(EventView::Deletion(at, ch)) == Some(EventView::Insertion(at, ch)),
{
}

/// The inverse of a line update is the update of the same line with its two
/// images swapped, and the inverse of an overwrite is the overwrite with its
/// two documents swapped.
pub proof fn inverse_swaps_images(
    y: usize,
    before: Seq<char>,
    after: Seq<char>,
    document_before: Seq<Seq<char>>,
    document_after: Seq<Seq<char>>,
)
    ensures
        inverse(EventView::UpdateLine(y, before, after)) == Some(
            EventView::UpdateLine(y, after, before),
        ),
        inverse(EventView::Overwrite(document_before, document_after)) == Some(
            EventView::Overwrite(document_after, document_before),
        ),
{
}

/// How whole-line events are undone.  A deleted line comes back as an update
/// of that line from empty to the deleted content.  A line opened above `y`
/// goes by deleting the empty line `y`; a line opened below `y` goes by
/// deleting the empty line `y + 1`, or the last line there can be where `y`
/// is already that line.
pub proof fn inverse_of_line_events(y: usize, row: Seq<char>)
    ensures
        inverse(EventView::DeleteLine(y, row)) == Some(
            EventView::UpdateLine(y, Seq::empty(), row),
        ),
        inverse(EventView::InsertLineAbove(y)) == Some(EventView::DeleteLine(y, Seq::empty())),
        y < usize::MAX ==> inverse(EventView::InsertLineBelow(y)) == Some(
            EventView::DeleteLine((y + 1) as usize, Seq::empty()),
        ),
        inverse(EventView::InsertLineBelow(usize::MAX)) == Some(
            EventView::DeleteLine(usize::MAX, Seq::empty()),
        ),
{
}

/// Joining and splitting are both answered by a split at the same position,
/// so undoing a join twice does not give the join back.
pub proof fn inverse_of_splice_and_split(at: Position)
    ensures
        inverse(EventView::SpliceUp(at)) == Some(EventView::SplitDown(at)),
        inverse(EventView::SplitDown(at)) == Some(EventView::SplitDown(at)),
{
}

/// Bank access, cursor movement, document lifecycle and control events have
/// no inverse, and every other event has one.
pub proof fn only_edits_have_an_inverse(event: EventView)
    ensures
        inverse(event) is Some <==> invertible(event),
        inverse(event) is None <==> {
            ||| event is Store
            ||| event is Load
            ||| event is MoveCursor
            ||| event is GotoCursor
            ||| event is New
            ||| event is Open
            ||| event is Save
            ||| event is SaveAll
            ||| event is Undo
            ||| event is Redo
            ||| event is Commit
            ||| event is Quit
            ||| event is QuitAll
            ||| event is NextTab
            ||| event is PrevTab
        },
{
}

/// Undoing the undo of a character edit, a line update or an overwrite gives
/// the event back.
pub proof fn inverse_twice(event: EventView)
    requires
        event is Insertion || event is Deletion || event is UpdateLine || event is Overwrite,
    ensures
        inverse(event) matches Some(undo) && inverse(undo) == Some(event),
{
}

} // verus!
