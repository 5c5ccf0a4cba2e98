//! The history of committed patches and the patch that is being recorded.

use std::collections::VecDeque;
use vstd::prelude::*;
use crate::event::{Event, EventView};

verus! {

/// What a patch says: the views of its events, in the order in which they
/// are stored.
pub open spec fn patch_view(patch: Seq<Event>) -> Seq<EventView> {
    Seq::new(patch.len(), |i: int| patch[i]@)
}

/// The state of an [`EventStack`] as two sequences.
#[verifier::ext_equal]
pub struct StackView {
    /// The committed patches, oldest first.
    pub history: Seq<Seq<EventView>>,
    /// The events recorded since the last commit, newest first.
    pub pending: Seq<EventView>,
}

impl StackView {
    /// The stack that holds nothing.
    pub open spec fn fresh() -> StackView {
        StackView { history: Seq::empty(), pending: Seq::empty() }
    }

    /// The stack after `event` has been recorded: it stands in front of the
    /// events recorded before it.
    pub open spec fn recorded(self, event: EventView) -> StackView {
        StackView { history: self.history, pending: self.pending.insert(0, event) }
    }

    /// The stack after each of `events` has been recorded, from the first to
    /// the last.
    pub open spec fn recorded_each(self, events: Seq<EventView>) -> StackView
        decreases events.len(),
    {
        if events.len() == 0 {
            self
        } else {
            self.recorded_each(events.drop_last()).recorded(events.last())
        }
    }

    /// The stack after `patch` has been put on the history as it is.
    pub open spec fn appended(self, patch: Seq<EventView>) -> StackView {
        StackView { history: self.history.push(patch), pending: self.pending }
    }

    /// The stack after a commit: pending events, where there are any, have
    /// become the newest patch of the history.
    pub open spec fn committed(self) -> StackView {
        if self.pending.len() > 0 {
            StackView { history: self.history.push(self.pending), pending: Seq::empty() }
        } else {
            self
        }
    }

    /// The newest patch of the history, where it has one.
    pub open spec fn last_patch(self) -> Option<Seq<EventView>> {
        if self.history.len() > 0 {
            Some(self.history.last())
        } else {
            None
        }
    }

    /// The stack after its newest patch, if any, has been taken off.
    pub open spec fn popped(self) -> StackView {
        if self.history.len() > 0 {
            StackView { history: self.history.drop_last(), pending: self.pending }
        } else {
            self
        }
    }

    /// The stack after its history has been discarded.
    pub open spec fn cleared(self) -> StackView {
        StackView { history: Seq::empty(), pending: self.pending }
    }
}

/// The events of an editing session: a history of committed patches and one
/// patch that is still being recorded.
///
/// The stack stores and groups events and never looks into them.  Pending
/// events are kept in a queue that grows at its front, so that recording an
/// event takes constant time, amortized, and a patch is stored in the order
/// in which an undo walks it.
#[derive(Debug)]
pub struct EventStack {
    history: Vec<Vec<Event>>,
    current_patch: VecDeque<Event>,
}

impl View for EventStack {
    type V = StackView;

    closed spec fn view(&self) -> StackView {
        StackView {
            history: Seq::new(self.history@.len(), |i: int| patch_view(self.history@[i]@)),
            pending: patch_view(self.current_patch@),
        }
    }
}

impl EventStack {
    /// Makes a stack with no history and nothing pending.
    pub fn new() -> (stack: EventStack)
        ensures
            stack@ == StackView::fresh(),
    {
        EventStack { history: Vec::new(), current_patch: VecDeque::new() }
    }

    /// Records `event` in front of the pending events.
    pub fn push(&mut self, event: Event)
        ensures
            final(self)@ == old(self)@.recorded(event@),
    {
        self.current_patch.push_front(event);
    }

    /// Puts `patch` on the history as its newest entry, whatever is pending.
    pub fn append(&mut self, patch: Vec<Event>)
        ensures
            final(self)@ == old(self)@.appended(patch_view(patch@)),
    {
        self.history.push(patch);
    }

    /// Takes the newest patch off the history, or gives `None` where the
    /// history is empty.  Pending events stay as they are.
    pub fn pop(&mut self) -> (patch: Option<Vec<Event>>)
        ensures
            final(self)@ == old(self)@.popped(),
            match patch {
                Some(events) => old(self)@.last_patch() == Some(patch_view(events@)),
                None => old(self)@.last_patch() is None,
            },
    {
        self.history.pop()
    }

    /// Discards the history.  Pending events stay as they are.
    pub fn empty(&mut self)
        ensures
            final(self)@ == old(self)@.cleared(),
    {
        self.history.clear();
    }

    /// Closes the pending patch: where events are pending they become the
    /// newest patch of the history and nothing is pending afterwards; where
    /// none are, nothing changes.
    pub fn commit(&mut self)
        ensures
            final(self)@ == old(self)@.committed(),
    {
        let mut patch: Vec<Event> = Vec::new();
        while self.current_patch.len() > 0
            invariant
                self.history == old(self).history,
                patch@ + self.current_patch@ == old(self).current_patch@,
            decreases self.current_patch@.len(),
        {
            if let Some(event) = self.current_patch.pop_front() {
                patch.push(event);
            }
        }
        if patch.len() > 0 {
            self.history.push(patch);
        }
    }
}

/// Events are pending newest first: after `events` have been recorded one
/// after the other, they stand in reverse order in front of what was pending
/// before, and the history is as it was.
pub proof fn recorded_events_are_newest_first(stack: StackView, events: Seq<EventView>)
    ensures
        stack.recorded_each(events).pending == events.reverse() + stack.pending,
        stack.recorded_each(events).history == stack.history,
    decreases events.len(),
{
    if events.len() == 0 {
        assert(events.reverse() + stack.pending =~= stack.pending);
    } else {
        let earlier = events.drop_last();
        recorded_events_are_newest_first(stack, earlier);
        assert(events.reverse() + stack.pending =~= (earlier.reverse() + stack.pending).insert(
            0,
            events.last(),
        ));
    }
}

/// Three events recorded on a fresh stack and committed make one patch, which
/// holds them newest first, and `pop` gives that patch back.
pub proof fn commit_groups_recorded_events(a: EventView, b: EventView, c: EventView)
    ensures
        ({
            let stack = StackView::fresh().recorded(a).recorded(b).recorded(c).committed();
            &&& stack.history == seq![seq![c, b, a]]
            &&& stack.pending == Seq::<EventView>::empty()
            &&& stack.last_patch() == Some(seq![c, b, a])
            &&& stack.popped() == StackView::fresh()
        }),
{
    let stack = StackView::fresh().recorded(a).recorded(b).recorded(c).committed();
    assert(stack.history =~~= seq![seq![c, b, a]]);
    assert(stack.popped() =~~= StackView::fresh());
}

/// A second commit with nothing recorded since the first changes nothing.
pub proof fn commit_is_idempotent(stack: StackView)
    ensures
        stack.committed().committed() == stack.committed(),
{
}

/// Discarding the history leaves pending events alone: they are committed
/// afterwards as if nothing had been discarded, and make the only patch.
pub proof fn clear_keeps_pending(stack: StackView)
    ensures
        stack.cleared().pending == stack.pending,
        stack.cleared().history.len() == 0,
        stack.pending.len() > 0 ==> stack.cleared().committed().history == seq![stack.pending],
{
    if stack.pending.len() > 0 {
        assert(stack.cleared().committed().history =~~= seq![stack.pending]);
    }
}

/// An event recorded before the history is discarded and committed after it
/// makes the only patch of the history.
pub proof fn clear_then_commit_keeps_event(event: EventView)
    ensures
        StackView::fresh().recorded(event).cleared().committed().history == seq![seq![event]],
{
    let stack = StackView::fresh().recorded(event).cleared().committed();
    assert(stack.history =~~= seq![seq![event]]);
}

/// A fresh stack has no patch to give.
pub proof fn fresh_stack_has_no_patch()
    ensures
        StackView::fresh().last_patch() is None,
        StackView::fresh().popped() == StackView::fresh(),
{
}

/// Taking a patch off undoes putting it on: the patch put on last is the one
/// that comes off, and the stack is then as it was before.
pub proof fn pop_undoes_append(stack: StackView, patch: Seq<EventView>)
    ensures
        stack.appended(patch).last_patch() == Some(patch),
        stack.appended(patch).popped() == stack,
{
    assert(stack.appended(patch).popped() =~~= stack);
}

/// Patches come off in the reverse of the order in which they were committed.
/// Where three groups of events are recorded and committed one after the
/// other, the first patch taken off holds the third group, the next the
/// second and the last the first, each newest event first, and the history
/// is then as it was before the three commits.
pub proof fn patches_come_off_newest_first(
    stack: StackView,
    first: Seq<EventView>,
    second: Seq<EventView>,
    third: Seq<EventView>,
)
    requires
        stack.pending.len() == 0,
        first.len() > 0,
        second.len() > 0,
        third.len() > 0,
    ensures
        ({
            let full = stack.recorded_each(first).committed().recorded_each(
                second,
            ).committed().recorded_each(third).committed();
            &&& full.last_patch() == Some(third.reverse())
            &&& full.popped().last_patch() == Some(second.reverse())
            &&& full.popped().popped().last_patch() == Some(first.reverse())
            &&& full.popped().popped().popped() == stack
        }),
{
    let one = stack.recorded_each(first).committed();
    recorded_events_are_newest_first(stack, first);
    assert(first.reverse() + stack.pending =~= first.reverse());
    assert(one == stack.appended(first.reverse()));
    let two = one.recorded_each(second).committed();
    recorded_events_are_newest_first(one, second);
    assert(second.reverse() + one.pending =~= second.reverse());
    assert(two == one.appended(second.reverse()));
    let full = two.recorded_each(third).committed();
    recorded_events_are_newest_first(two, third);
    assert(third.reverse() + two.pending =~= third.reverse());
    assert(full == two.appended(third.reverse()));
    pop_undoes_append(two, third.reverse());
    pop_undoes_append(one, second.reverse());
    pop_undoes_append(stack, first.reverse());
}

} // verus!
