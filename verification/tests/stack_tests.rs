use undo::{reverse, BankType, Direction, Event, EventStack, Position, Row};

fn insertion(x: usize, ch: char) -> Event {
    Event::Insertion(Position { x, y: 0 }, ch)
}

#[test]
fn pop_on_fresh_stack_returns_nothing() {
    let mut stack = EventStack::new();
    assert_eq!(stack.pop(), None);
    assert_eq!(stack.pop(), None);
}

#[test]
fn committed_patch_holds_events_newest_first() {
    let a = insertion(0, 'a');
    let b = insertion(1, 'b');
    let c = insertion(2, 'c');
    let mut stack = EventStack::new();
    stack.push(a.clone());
    stack.push(b.clone());
    stack.push(c.clone());
    stack.commit();
    assert_eq!(stack.pop(), Some(vec![c, b, a]));
    assert_eq!(stack.pop(), None);
}

#[test]
fn second_commit_changes_nothing() {
    let mut stack = EventStack::new();
    stack.push(Event::New);
    stack.commit();
    stack.commit();
    assert_eq!(stack.pop(), Some(vec![Event::New]));
    assert_eq!(stack.pop(), None);
}

#[test]
fn commit_with_nothing_pending_adds_no_patch() {
    let mut stack = EventStack::new();
    stack.commit();
    assert_eq!(stack.pop(), None);
    stack.append(vec![Event::Undo]);
    stack.commit();
    stack.commit();
    assert_eq!(stack.pop(), Some(vec![Event::Undo]));
    assert_eq!(stack.pop(), None);
}

#[test]
fn commit_empties_pending() {
    let mut stack = EventStack::new();
    stack.push(insertion(0, 'a'));
    stack.commit();
    stack.push(insertion(1, 'b'));
    stack.commit();
    assert_eq!(stack.pop(), Some(vec![insertion(1, 'b')]));
    assert_eq!(stack.pop(), Some(vec![insertion(0, 'a')]));
    assert_eq!(stack.pop(), None);
}

#[test]
fn empty_keeps_pending_events() {
    let x = Event::DeleteLine(3, Box::new(Row::from("kept")));
    let mut stack = EventStack::new();
    stack.push(x.clone());
    stack.empty();
    stack.commit();
    assert_eq!(stack.pop(), Some(vec![x]));
    assert_eq!(stack.pop(), None);
}

#[test]
fn empty_discards_every_committed_patch() {
    let mut stack = EventStack::new();
    stack.push(insertion(0, 'a'));
    stack.commit();
    stack.push(insertion(1, 'b'));
    stack.commit();
    stack.append(vec![Event::SaveAll]);
    stack.empty();
    assert_eq!(stack.pop(), None);
}

#[test]
fn patches_come_off_in_reverse_order_of_commit() {
    let first = vec![insertion(0, 'a'), insertion(1, 'b')];
    let second = vec![Event::InsertLineBelow(0)];
    let third = vec![
        Event::MoveCursor(1, Direction::Down),
        insertion(0, 'c'),
        Event::Store(BankType::Cursor, 0),
    ];
    let mut stack = EventStack::new();
    for group in [&first, &second, &third] {
        for event in group.iter() {
            stack.push(event.clone());
        }
        stack.commit();
    }
    let newest_first = |group: &Vec<Event>| -> Vec<Event> {
        group.iter().rev().cloned().collect()
    };
    assert_eq!(stack.pop(), Some(newest_first(&third)));
    assert_eq!(stack.pop(), Some(newest_first(&second)));
    assert_eq!(stack.pop(), Some(newest_first(&first)));
    assert_eq!(stack.pop(), None);
}

#[test]
fn appended_patches_come_off_last_in_first_out() {
    let oldest = vec![insertion(0, 'a')];
    let middle = vec![insertion(1, 'b'), insertion(2, 'c')];
    let newest = vec![Event::Redo];
    let mut stack = EventStack::new();
    stack.append(oldest.clone());
    stack.append(middle.clone());
    stack.append(newest.clone());
    assert_eq!(stack.pop(), Some(newest));
    assert_eq!(stack.pop(), Some(middle));
    assert_eq!(stack.pop(), Some(oldest));
    assert_eq!(stack.pop(), None);
}

#[test]
fn append_keeps_the_patch_as_given() {
    let mut stack = EventStack::new();
    stack.append(vec![]);
    stack.append(vec![insertion(0, 'a'), insertion(1, 'b')]);
    assert_eq!(stack.pop(), Some(vec![insertion(0, 'a'), insertion(1, 'b')]));
    assert_eq!(stack.pop(), Some(vec![]));
    assert_eq!(stack.pop(), None);
}

#[test]
fn append_does_not_touch_pending() {
    let mut stack = EventStack::new();
    stack.push(insertion(0, 'a'));
    stack.append(vec![Event::NextTab]);
    stack.push(insertion(1, 'b'));
    stack.commit();
    assert_eq!(stack.pop(), Some(vec![insertion(1, 'b'), insertion(0, 'a')]));
    assert_eq!(stack.pop(), Some(vec![Event::NextTab]));
    assert_eq!(stack.pop(), None);
}

#[test]
fn pop_does_not_touch_pending() {
    let mut stack = EventStack::new();
    stack.append(vec![Event::PrevTab]);
    stack.push(insertion(0, 'a'));
    assert_eq!(stack.pop(), Some(vec![Event::PrevTab]));
    assert_eq!(stack.pop(), None);
    stack.push(insertion(1, 'b'));
    stack.commit();
    assert_eq!(stack.pop(), Some(vec![insertion(1, 'b'), insertion(0, 'a')]));
}

#[test]
fn stack_stores_events_it_cannot_reverse() {
    let events = vec![
        Event::Open(Some(String::from("a.txt"))),
        Event::Save(None, true),
        Event::Quit(false),
        Event::QuitAll(true),
        Event::Commit,
        Event::GotoCursor(Position { x: 4, y: 2 }),
        Event::Load(BankType::Line, 7),
    ];
    let mut stack = EventStack::new();
    for event in events.iter() {
        stack.push(event.clone());
    }
    stack.commit();
    let patch = stack.pop().unwrap();
    assert_eq!(patch.len(), events.len());
    for (stored, recorded) in patch.iter().zip(events.iter().rev()) {
        assert_eq!(stored, recorded);
    }
}

#[test]
fn undo_walks_a_patch_and_skips_what_has_no_inverse() {
    let mut undo = EventStack::new();
    let mut redo = EventStack::new();
    undo.push(Event::Insertion(Position { x: 0, y: 0 }, 'h'));
    undo.push(Event::MoveCursor(1, Direction::Right));
    undo.push(Event::Insertion(Position { x: 1, y: 0 }, 'i'));
    undo.commit();

    let patch = undo.pop().unwrap();
    let mut inverses = Vec::new();
    for event in patch.iter() {
        if let Some(inverse) = reverse(event.clone()) {
            inverses.push(inverse);
        }
    }
    assert_eq!(
        inverses,
        vec![
            Event::Deletion(Position { x: 1, y: 0 }, 'i'),
            Event::Deletion(Position { x: 0, y: 0 }, 'h'),
        ]
    );
    redo.append(patch);
    assert_eq!(
        redo.pop(),
        Some(vec![
            Event::Insertion(Position { x: 1, y: 0 }, 'i'),
            Event::MoveCursor(1, Direction::Right),
            Event::Insertion(Position { x: 0, y: 0 }, 'h'),
        ])
    );
    assert_eq!(undo.pop(), None);
}

#[test]
fn debug_output_names_the_stack() {
    let stack = EventStack::new();
    assert!(format!("{:?}", stack).contains("EventStack"));
}
