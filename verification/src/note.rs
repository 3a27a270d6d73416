//! Todos and the notes that hold them.

use crate::list::{ListState, ListView};
use crate::time::Timestamp;
use vstd::prelude::*;

verus! {

/// The mathematical model of a todo.
#[verifier::ext_equal]
pub struct TodoView {
    pub date: Timestamp,
    pub task: Seq<char>,
    pub cmd: Seq<char>,
    pub completed: bool,
}

/// The mathematical model of a note.
#[verifier::ext_equal]
pub struct RemindView {
    pub title: Seq<char>,
    pub note: Seq<char>,
    pub list: ListView<TodoView>,
}

impl RemindView {
    /// The cursor of the todo list is valid.
    pub open spec fn wf(self) -> bool {
        self.list.wf()
    }
}

/// A task, the command that goes with it, the moment it was written and
/// whether it is done.
#[derive(Clone, Debug)]
pub struct Todo {
    pub date: Timestamp,
    pub task: String,
    pub cmd: String,
    pub completed: bool,
}

/// The model of a todo: its texts as sequences of characters.
impl View for Todo {
    type V = TodoView;

    open spec fn view(&self) -> TodoView {
        TodoView { date: self.date, task: self.task@, cmd: self.cmd@, completed: self.completed }
    }
}

impl Todo {
    /// The text of the task.
    pub fn as_str(&self) -> (task: &str)
        ensures
            task@ == self.task@,
    {
        self.task.as_str()
    }
}

/// A note: a title, a free text and a list of todos.
#[derive(Clone, Debug)]
pub struct Remind {
    pub title: String,
    pub note: String,
    pub list: ListState<Todo>,
}

/// The model of a note.
impl View for Remind {
    type V = RemindView;

    open spec fn view(&self) -> RemindView {
        RemindView { title: self.title@, note: self.note@, list: self.list@ }
    }
}

/// The note without a title, a text or a todo.
impl Default for Remind {
    fn default() -> (note: Self)
        ensures
            note@ == (RemindView {
                title: Seq::empty(),
                note: Seq::empty(),
                list: ListView { items: Seq::empty(), selected: 0 },
            }),
    {
        let note = Self { title: String::new(), note: String::new(), list: ListState::default() };
        assert(note.list@.items =~= Seq::empty());
        note
    }
}

} // verus!
