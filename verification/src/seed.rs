//! The notes that a first run starts with.

use crate::list::{ListState, ListView};
use crate::machine::notes_wf;
use crate::note::{Remind, RemindView, Todo, TodoView};
use crate::time::Timestamp;
use vstd::prelude::*;

verus! {

/// A todo that is not done yet.
pub open spec fn open_todo(task: Seq<char>, cmd: Seq<char>, date: Timestamp) -> TodoView {
    TodoView { date, task, cmd, completed: false }
}

/// The first note of a first run: a tour of the keys.
pub open spec fn first_note(date: Timestamp) -> RemindView {
    RemindView {
        title: "Note One"@,
        note: "You can add to the Notes by hitting ctrl-k."@,
        list: ListView {
            items: seq![
                open_todo("You can add a Sticky Note by hitting ctrl-h"@, ""@, date),
                open_todo("You can add a Todo by hitting ctrl-n"@, ""@, date),
                open_todo("You can check off a Todo by hitting Backspace"@, ""@, date),
                open_todo("You can delete a Todo by hitting Delete"@, ""@, date),
                open_todo("You can delete a Sticky by hitting ctrl-u"@, ""@, date),
                open_todo("You can save to the data base by hitting ctrl-s"@, ""@, date),
                open_todo("Oh you can exit by ctrl-q or Esc"@, ""@, date),
                open_todo(
                    "Todo's can run commands when selected with Enter."@,
                    "sensible-browser https://github.com/DevinR528/forget"@,
                    date,
                ),
            ],
            selected: 0,
        },
    }
}

/// The second note of a first run.
pub open spec fn second_note(date: Timestamp) -> RemindView {
    RemindView {
        title: "Note Two"@,
        note: ""@,
        list: ListView {
            items: seq![
                open_todo("First"@, ""@, date),
                open_todo("Second"@, ""@, date),
                open_todo("Third"@, ""@, date),
            ],
            selected: 0,
        },
    }
}

/// The notes of a first run, every todo dated `date`.
pub open spec fn seed(date: Timestamp) -> ListView<RemindView> {
    ListView { items: seq![first_note(date), second_note(date)], selected: 0 }
}

fn todo(task: &str, cmd: &str, date: Timestamp) -> (todo: Todo)
    ensures
        todo@ == open_todo(task@, cmd@, date),
{
    Todo { date, task: task.to_owned(), cmd: cmd.to_owned(), completed: false }
}

fn note(title: &str, text: &str, items: Vec<Todo>) -> (note: Remind)
    ensures
        note.title@ == title@,
        note.note@ == text@,
        note.list.items == items,
        note.list.selected == 0,
{
    Remind { title: title.to_owned(), note: text.to_owned(), list: ListState::new(items) }
}

/// The notes that a first run starts with, every todo dated `date`.
pub fn seed_notes(date: Timestamp) -> (notes: ListState<Remind>)
    ensures
        notes@ == seed(date),
        notes_wf(notes@),
{
    let mut one: Vec<Todo> = Vec::new();
    one.push(todo("You can add a Sticky Note by hitting ctrl-h", "", date));
    one.push(todo("You can add a Todo by hitting ctrl-n", "", date));
    one.push(todo("You can check off a Todo by hitting Backspace", "", date));
    one.push(todo("You can delete a Todo by hitting Delete", "", date));
    one.push(todo("You can delete a Sticky by hitting ctrl-u", "", date));
    one.push(todo("You can save to the data base by hitting ctrl-s", "", date));
    one.push(todo("Oh you can exit by ctrl-q or Esc", "", date));
    one.push(
        todo(
            "Todo's can run commands when selected with Enter.",
            "sensible-browser https://github.com/DevinR528/forget",
            date,
        ),
    );
    let mut two: Vec<Todo> = Vec::new();
    two.push(todo("First", "", date));
    two.push(todo("Second", "", date));
    two.push(todo("Third", "", date));
    let first = note("Note One", "You can add to the Notes by hitting ctrl-k.", one);
    let second = note("Note Two", "", two);
    assert(first@.list.items =~= first_note(date).list.items);
    assert(second@.list.items =~= second_note(date).list.items);
    let mut items: Vec<Remind> = Vec::new();
    items.push(first);
    items.push(second);
    let notes = ListState::new(items);
    assert(notes@.items =~= seed(date).items);
    notes
}

} // verus!
