//! The pending entries: what has been typed for a todo or for a note's
//! title and is not committed yet.

use crate::time::{local_now, Timestamp};
use vstd::prelude::*;

verus! {

/// The mathematical model of a pending todo.
#[verifier::ext_equal]
pub struct AddTodoView {
    pub date: Timestamp,
    pub question_index: int,
    pub task: Seq<char>,
    pub cmd: Seq<char>,
}

impl AddTodoView {
    /// The entry with both texts emptied and the first field addressed.
    pub open spec fn cleared(self) -> Self {
        AddTodoView { question_index: 0, task: Seq::empty(), cmd: Seq::empty(), ..self }
    }

    /// The entry with the field after the addressed one addressed: the
    /// command after the task, and no further.
    pub open spec fn next(self) -> Self {
        if self.question_index != 1 && self.question_index < usize::MAX {
            AddTodoView { question_index: self.question_index + 1, ..self }
        } else {
            self
        }
    }

    /// The entry with the field before the addressed one addressed.
    pub open spec fn previous(self) -> Self {
        if self.question_index != 0 {
            AddTodoView { question_index: self.question_index - 1, ..self }
        } else {
            self
        }
    }

    /// The entry with a character added to the addressed field.
    pub open spec fn typed(self, c: char) -> Self {
        if self.question_index == 0 {
            AddTodoView { task: self.task.push(c), ..self }
        } else {
            AddTodoView { cmd: self.cmd.push(c), ..self }
        }
    }

    /// The entry with the last character of the addressed field removed.
    pub open spec fn erased(self) -> Self {
        if self.question_index == 0 {
            AddTodoView { task: crate::strings::without_last(self.task), ..self }
        } else {
            AddTodoView { cmd: crate::strings::without_last(self.cmd), ..self }
        }
    }
}

/// The todo being typed: its two fields, task and command, and the index
/// of the field that the keys go to, 0 for the task and 1 for the command.
#[derive(Clone, Debug)]
pub struct AddTodo {
    pub date: Timestamp,
    pub question_index: usize,
    pub task: String,
    pub cmd: String,
}

/// The model of a pending todo.
impl View for AddTodo {
    type V = AddTodoView;

    open spec fn view(&self) -> AddTodoView {
        AddTodoView {
            date: self.date,
            question_index: self.question_index as int,
            task: self.task@,
            cmd: self.cmd@,
        }
    }
}

impl AddTodo {
    /// An empty entry that carries the given date.
    pub fn dated(date: Timestamp) -> (entry: Self)
        ensures
            entry@ == (AddTodoView {
                date,
                question_index: 0,
                task: Seq::empty(),
                cmd: Seq::empty(),
            }),
    {
        Self { date, question_index: 0, task: String::new(), cmd: String::new() }
    }

    /// Addresses the field after the addressed one: the command after the
    /// task, and no further.
    pub fn next(&mut self)
        ensures
            final(self)@ == old(self)@.next(),
    {
        if self.question_index != 1 && self.question_index < usize::MAX {
            self.question_index += 1
        }
    }

    /// Addresses the field before the addressed one.
    pub fn previous(&mut self)
        ensures
            final(self)@ == old(self)@.previous(),
    {
        if self.question_index != 0 {
            self.question_index -= 1
        }
    }
}

/// The empty pending todo.
impl Default for AddTodo {
    /// An empty entry dated by the local clock.
    fn default() -> (entry: Self)
        ensures
            entry@.question_index == 0,
            entry@.task == Seq::<char>::empty(),
            entry@.cmd == Seq::<char>::empty(),
            entry.date.is_civil(),
    {
        Self::dated(local_now())
    }
}

/// The title being typed for a new note.
#[derive(Clone, Debug)]
pub struct AddRemind {
    pub title: String,
}

/// The empty title.
impl Default for AddRemind {
    fn default() -> (entry: Self)
        ensures
            entry.title@ == Seq::<char>::empty(),
    {
        Self { title: String::new() }
    }
}

} // verus!
