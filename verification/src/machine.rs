//! The input modes and what each key does in each of them, stated over the
//! mathematical model of the application.

use crate::command::{command_of, words, ActionView};
use crate::config::{AppConfig, AppKey};
use crate::entry::AddTodoView;
use crate::event::Event;
use crate::list::{previous_cursor, ListView};
use crate::note::{RemindView, TodoView};
use crate::strings::without_last;
use crate::tabs::{lemma_next_wraps, TabsView};
use crate::time::Timestamp;
use vstd::prelude::*;

verus! {

/// What the keyboard is being used for.
#[derive(Clone, Copy, Debug, PartialEq, Eq, Structural)]
pub enum Mode {
    /// Moving about the notes and todos.
    Browsing,
    /// Typing the title of a new note.
    AddingNote,
    /// Typing the task and command of a new todo.
    AddingTodo,
    /// Retyping the task and command of the selected todo.
    EditingTodo,
    /// Typing into the free text of the active note.
    AddingFreeNote,
}

/// The mode that four flags stand for. At most one of them is set in a
/// well-formed application.
pub open spec fn mode_of(new_reminder: bool, new_todo: bool, edit_todo: bool, new_note: bool) -> Mode {
    if new_reminder {
        Mode::AddingNote
    } else if new_todo {
        Mode::AddingTodo
    } else if edit_todo {
        Mode::EditingTodo
    } else if new_note {
        Mode::AddingFreeNote
    } else {
        Mode::Browsing
    }
}

/// No two of the four flags are set.
pub open spec fn at_most_one(a: bool, b: bool, c: bool, d: bool) -> bool {
    &&& !(a && b)
    &&& !(a && c)
    &&& !(a && d)
    &&& !(b && c)
    &&& !(b && d)
    &&& !(c && d)
}

/// The titles of a row of notes.
pub open spec fn titles_of(notes: Seq<RemindView>) -> Seq<Seq<char>> {
    Seq::new(notes.len(), |i: int| notes[i].title)
}

/// A collection of notes is well-formed when its cursor and the cursor of
/// every note in it are valid.
pub open spec fn notes_wf(notes: ListView<RemindView>) -> bool {
    &&& notes.wf()
    &&& forall|i: int| 0 <= i < notes.items.len() ==> (#[trigger] notes.items[i]).wf()
}

/// A todo as it is committed from a pending entry.
pub open spec fn committed(entry: AddTodoView, date: Timestamp) -> TodoView {
    TodoView { date, task: entry.task, cmd: entry.cmd, completed: false }
}

/// A note as it is committed from a pending title.
pub open spec fn fresh_note(title: Seq<char>) -> RemindView {
    RemindView {
        title,
        note: Seq::empty(),
        list: ListView { items: Seq::empty(), selected: 0 },
    }
}

/// A list after the delete key: the cursor steps back unless it is at 0,
/// and the item that it pointed at is gone. An empty list stays as it is.
pub open spec fn after_delete(list: ListView<TodoView>) -> ListView<TodoView> {
    if list.items.len() == 0 {
        ListView { selected: previous_cursor(list.selected), ..list }
    } else {
        ListView {
            items: list.items.remove(list.selected),
            selected: previous_cursor(list.selected),
        }
    }
}

/// The mathematical model of the application.
#[verifier::ext_equal]
pub struct AppView {
    pub title: Seq<char>,
    pub tabs: TabsView,
    pub add_todo: AddTodoView,
    pub add_remind: Seq<char>,
    pub should_quit: bool,
    pub mode: Mode,
    pub sticky_note: ListView<RemindView>,
    pub cmd_err: Seq<char>,
    pub config: AppConfig,
}

impl AppView {
    /// Every cursor is valid, the tab bar shows the titles of the notes in
    /// their order, and the pending todo addresses one of its two fields.
    pub open spec fn wf(self) -> bool {
        &&& self.tabs.wf()
        &&& notes_wf(self.sticky_note)
        &&& self.tabs.titles =~= titles_of(self.sticky_note.items)
        &&& 0 <= self.add_todo.question_index <= 1
    }

    /// The note that the active tab shows.
    pub open spec fn active_note(self) -> Option<RemindView> {
        if 0 <= self.tabs.index < self.sticky_note.items.len() {
            Some(self.sticky_note.items[self.tabs.index])
        } else {
            None
        }
    }

    /// The todo under the cursor of the active note.
    pub open spec fn selected_todo(self) -> Option<TodoView> {
        match self.active_note() {
            Some(note) => note.list.selected_item(),
            None => None,
        }
    }

    /// The application with the active note replaced.
    pub open spec fn with_active_note(self, note: RemindView) -> AppView {
        AppView {
            sticky_note: ListView {
                items: self.sticky_note.items.update(self.tabs.index, note),
                ..self.sticky_note
            },
            ..self
        }
    }

    /// The application with every pending entry emptied.
    pub open spec fn reset_addition(self) -> AppView {
        AppView { add_remind: Seq::empty(), add_todo: self.add_todo.cleared(), ..self }
    }

    /// The application back in browsing mode, pending entries untouched.
    pub open spec fn reset_new_flag(self) -> AppView {
        AppView { mode: Mode::Browsing, ..self }
    }

    /// The application after the up key: while a todo is typed, the field
    /// before is addressed; while browsing, the cursor of the active note
    /// steps back; otherwise nothing changes.
    pub open spec fn on_up(self) -> AppView {
        match self.mode {
            Mode::AddingTodo | Mode::EditingTodo => AppView {
                add_todo: self.add_todo.previous(),
                ..self
            },
            Mode::AddingNote | Mode::AddingFreeNote => self,
            Mode::Browsing => match self.active_note() {
                Some(note) => self.with_active_note(
                    RemindView { list: note.list.select_previous(), ..note },
                ),
                None => self,
            },
        }
    }

    /// The application after the down key: while a todo is typed, the field
    /// after is addressed; while browsing, the cursor of the active note
    /// steps forth; otherwise nothing changes.
    pub open spec fn on_down(self) -> AppView {
        match self.mode {
            Mode::AddingTodo | Mode::EditingTodo => AppView {
                add_todo: self.add_todo.next(),
                ..self
            },
            Mode::AddingNote | Mode::AddingFreeNote => self,
            Mode::Browsing => match self.active_note() {
                Some(note) => self.with_active_note(
                    RemindView { list: note.list.select_next(), ..note },
                ),
                None => self,
            },
        }
    }

    /// The application after the right key: the next tab is active and
    /// every pending entry is emptied. The mode stays.
    pub open spec fn on_right(self) -> AppView {
        AppView { tabs: self.tabs.next(), ..self.reset_addition() }
    }

    /// The application after the left key: the tab before is active and
    /// every pending entry is emptied. The mode stays.
    pub open spec fn on_left(self) -> AppView {
        AppView { tabs: self.tabs.previous(), ..self.reset_addition() }
    }

    /// The pending title becomes a new, empty note at the end of the
    /// collection, with its tab.
    pub open spec fn commit_note(self) -> AppView {
        AppView {
            sticky_note: self.sticky_note.push(fresh_note(self.add_remind)),
            tabs: TabsView { titles: self.tabs.titles.push(self.add_remind), ..self.tabs },
            add_remind: Seq::empty(),
            mode: Mode::Browsing,
            ..self
        }
    }

    /// The pending todo is appended to the active note. Without an active
    /// note nothing changes.
    pub open spec fn commit_todo(self, date: Timestamp) -> AppView {
        match self.active_note() {
            Some(note) => AppView {
                add_todo: self.add_todo.cleared(),
                mode: Mode::Browsing,
                ..self.with_active_note(
                    RemindView { list: note.list.push(committed(self.add_todo, date)), ..note },
                )
            },
            None => self,
        }
    }

    /// The pending todo takes the place of the selected one. Without a
    /// selected todo nothing changes.
    pub open spec fn commit_edit(self, date: Timestamp) -> AppView {
        match self.active_note() {
            Some(note) => if 0 <= note.list.selected < note.list.items.len() {
                AppView {
                    add_todo: self.add_todo.cleared(),
                    mode: Mode::Browsing,
                    ..self.with_active_note(
                        RemindView {
                            list: ListView {
                                items: note.list.items.update(
                                    note.list.selected,
                                    committed(self.add_todo, date),
                                ),
                                ..note.list
                            },
                            ..note
                        },
                    )
                }
            } else {
                self
            },
            None => self,
        }
    }

    /// The application after a character key. `date` is the moment of the
    /// key press, which a committed todo carries.
    pub open spec fn on_key(self, c: char, date: Timestamp) -> AppView {
        match self.mode {
            Mode::AddingNote => if c == '\n' {
                self.commit_note()
            } else {
                AppView { add_remind: self.add_remind.push(c), ..self }
            },
            Mode::AddingTodo => if c == '\n' {
                self.commit_todo(date)
            } else {
                AppView { add_todo: self.add_todo.typed(c), ..self }
            },
            Mode::EditingTodo => if c == '\n' {
                self.commit_edit(date)
            } else {
                AppView { add_todo: self.add_todo.typed(c), ..self }
            },
            Mode::AddingFreeNote => match self.active_note() {
                Some(note) => self.with_active_note(RemindView { note: note.note.push(c), ..note }),
                None => self,
            },
            Mode::Browsing => self,
        }
    }

    /// What a character key asks for: in browsing mode the enter key starts
    /// the command of the selected todo, if its command text holds a word.
    pub open spec fn key_action(self, c: char) -> ActionView {
        if self.mode == Mode::Browsing && c == '\n' {
            match self.selected_todo() {
                Some(todo) => match command_of(words(todo.cmd)) {
                    Some(command) => ActionView::Run(command),
                    None => ActionView::Idle,
                },
                None => ActionView::Idle,
            }
        } else {
            ActionView::Idle
        }
    }

    /// The application after the backspace key: the last character of the
    /// text being typed is removed; while browsing, the selected todo changes
    /// between done and not done.
    pub open spec fn on_backspace(self) -> AppView {
        match self.mode {
            Mode::AddingNote => AppView { add_remind: without_last(self.add_remind), ..self },
            Mode::AddingTodo | Mode::EditingTodo => AppView {
                add_todo: self.add_todo.erased(),
                ..self
            },
            Mode::AddingFreeNote => match self.active_note() {
                Some(note) => self.with_active_note(
                    RemindView { note: without_last(note.note), ..note },
                ),
                None => self,
            },
            Mode::Browsing => match self.active_note() {
                Some(note) => match note.list.selected_item() {
                    Some(todo) => self.with_active_note(
                        RemindView {
                            list: ListView {
                                items: note.list.items.update(
                                    note.list.selected,
                                    TodoView { completed: !todo.completed, ..todo },
                                ),
                                ..note.list
                            },
                            ..note
                        },
                    ),
                    None => self,
                },
                None => self,
            },
        }
    }

    /// The application after the delete key: while a title or a todo is
    /// typed, every pending entry is emptied; in the free text, the last
    /// character is removed; while browsing, the selected todo is removed.
    pub open spec fn on_delete(self) -> AppView {
        match self.mode {
            Mode::AddingNote | Mode::AddingTodo | Mode::EditingTodo => self.reset_addition(),
            Mode::AddingFreeNote => match self.active_note() {
                Some(note) => self.with_active_note(
                    RemindView { note: without_last(note.note), ..note },
                ),
                None => self,
            },
            Mode::Browsing => match self.active_note() {
                Some(note) => self.with_active_note(
                    RemindView { list: after_delete(note.list), ..note },
                ),
                None => self,
            },
        }
    }

    /// The application after the key of a mode: that mode is entered, or
    /// left for browsing if it was the active one. Every pending entry is
    /// emptied; on entering the editing mode the pending todo is filled with
    /// the text of the selected one.
    pub open spec fn toggle(self, target: Mode) -> AppView {
        let cleared = self.reset_addition();
        if self.mode == target {
            AppView { mode: Mode::Browsing, ..cleared }
        } else if target == Mode::EditingTodo {
            match self.selected_todo() {
                Some(todo) => AppView {
                    mode: target,
                    add_todo: AddTodoView { task: todo.task, cmd: todo.cmd, ..cleared.add_todo },
                    ..cleared
                },
                None => AppView { mode: target, ..cleared },
            }
        } else {
            AppView { mode: target, ..cleared }
        }
    }

    /// The application without its active note and that note's tab. The
    /// cursor of the collection steps back unless it is at 0, and the active
    /// tab becomes the one before, the last one from the first.
    pub open spec fn remove_active_note(self) -> AppView {
        if 0 <= self.tabs.index < self.sticky_note.items.len() {
            AppView {
                sticky_note: ListView {
                    items: self.sticky_note.items.remove(self.tabs.index),
                    selected: previous_cursor(self.sticky_note.selected),
                },
                tabs: (TabsView {
                    titles: self.tabs.titles.remove(self.tabs.index),
                    ..self.tabs
                }).previous(),
                ..self
            }
        } else {
            self
        }
    }

    /// The application after a control key. `q` ends the session; the other
    /// keys are those of the configuration, tried in the order: new todo,
    /// edit todo, new note, free text, remove note, save.
    pub open spec fn on_ctrl_key(self, c: char) -> AppView {
        if c == 'q' {
            AppView { should_quit: true, ..self }
        } else if c == self.config.new_todo_char_ctrl {
            self.toggle(Mode::AddingTodo)
        } else if c == self.config.edit_todo_char_ctrl {
            self.toggle(Mode::EditingTodo)
        } else if c == self.config.new_sticky_note_char_ctrl {
            self.toggle(Mode::AddingNote)
        } else if c == self.config.new_note_char_ctrl {
            self.toggle(Mode::AddingFreeNote)
        } else if c == self.config.remove_sticky_note_char_ctrl {
            self.remove_active_note()
        } else {
            self
        }
    }

    /// Whether a control key is the save key: it is when no key before it in
    /// the order of `on_ctrl_key` is the same character.
    pub open spec fn is_save_key(self, c: char) -> bool {
        &&& c != 'q'
        &&& c != self.config.new_todo_char_ctrl
        &&& c != self.config.edit_todo_char_ctrl
        &&& c != self.config.new_sticky_note_char_ctrl
        &&& c != self.config.new_note_char_ctrl
        &&& c != self.config.remove_sticky_note_char_ctrl
        &&& c == self.config.save_state_to_db_char_ctrl
    }

    /// What a control key asks for.
    pub open spec fn ctrl_action(self, c: char) -> ActionView {
        if c == 'q' {
            ActionView::Quit
        } else if self.is_save_key(c) {
            ActionView::Save
        } else {
            ActionView::Idle
        }
    }

    /// The application after an event.
    pub open spec fn step(self, event: Event<AppKey>, date: Timestamp) -> AppView {
        match event {
            Event::Input(AppKey::Char(c)) => self.on_key(c, date),
            Event::Input(AppKey::Up) => self.on_up(),
            Event::Input(AppKey::Down) => self.on_down(),
            Event::Input(AppKey::Left) => self.on_left(),
            Event::Input(AppKey::Right) => self.on_right(),
            Event::Input(AppKey::Esc) => self.on_ctrl_key('q'),
            Event::Input(AppKey::Backspace) => self.on_backspace(),
            Event::Input(AppKey::Delete) => self.on_delete(),
            Event::Input(AppKey::Ctrl(c)) => self.on_ctrl_key(c),
            Event::Input(_) => self,
            Event::Tick => self,
        }
    }

    /// The application after a sequence of events, each with its moment.
    pub open spec fn run(self, events: Seq<(Event<AppKey>, Timestamp)>) -> AppView
        decreases events.len(),
    {
        if events.len() == 0 {
            self
        } else {
            self.run(events.drop_last()).step(events.last().0, events.last().1)
        }
    }

    /// What an event asks for.
    pub open spec fn step_action(self, event: Event<AppKey>) -> ActionView {
        match event {
            Event::Input(AppKey::Char(c)) => self.key_action(c),
            Event::Input(AppKey::Esc) => self.ctrl_action('q'),
            Event::Input(AppKey::Ctrl(c)) => self.ctrl_action(c),
            _ => ActionView::Idle,
        }
    }
}

/// Replacing the active note by a well-formed note with the same title keeps
/// the application well-formed.
pub proof fn lemma_with_active_note_wf(app: AppView, note: RemindView)
    requires
        app.wf(),
        app.active_note() matches Some(old_note) && old_note.title == note.title,
        note.wf(),
    ensures
        app.with_active_note(note).wf(),
        app.with_active_note(note).active_note() == Some(note),
{
    let after = app.with_active_note(note);
    assert forall|i: int| 0 <= i < after.sticky_note.items.len() implies (
    #[trigger] after.sticky_note.items[i]).wf() by {
        if i != app.tabs.index {
            assert(app.sticky_note.items[i].wf());
        }
    }
    assert(after.tabs.titles =~= titles_of(after.sticky_note.items));
}

/// The tab bar has one title for each note, whatever happens: every event
/// takes a well-formed application to a well-formed one.
pub proof fn lemma_step_preserves_wf(app: AppView, event: Event<AppKey>, date: Timestamp)
    requires
        app.wf(),
    ensures
        app.step(event, date).wf(),
        app.step(event, date).tabs.titles.len() == app.step(event, date).sticky_note.items.len(),
{
    match event {
        Event::Input(AppKey::Char(c)) => lemma_on_key_wf(app, c, date),
        Event::Input(AppKey::Up) => lemma_on_up_wf(app),
        Event::Input(AppKey::Down) => lemma_on_down_wf(app),
        Event::Input(AppKey::Left) => lemma_on_left_right_wf(app),
        Event::Input(AppKey::Right) => lemma_on_left_right_wf(app),
        Event::Input(AppKey::Esc) => lemma_on_ctrl_key_wf(app, 'q'),
        Event::Input(AppKey::Backspace) => lemma_on_backspace_wf(app),
        Event::Input(AppKey::Delete) => lemma_on_delete_wf(app),
        Event::Input(AppKey::Ctrl(c)) => lemma_on_ctrl_key_wf(app, c),
        Event::Input(_) => {},
        Event::Tick => {},
    }
}

/// The tab bar has one title for each note after any sequence of events.
pub proof fn lemma_run_preserves_wf(app: AppView, events: Seq<(Event<AppKey>, Timestamp)>)
    requires
        app.wf(),
    ensures
        app.run(events).wf(),
        app.run(events).tabs.titles.len() == app.run(events).sticky_note.items.len(),
    decreases events.len(),
{
    if events.len() > 0 {
        lemma_run_preserves_wf(app, events.drop_last());
        lemma_step_preserves_wf(app.run(events.drop_last()), events.last().0, events.last().1);
    }
}

/// The up key keeps the application well-formed.
pub proof fn lemma_on_up_wf(app: AppView)
    requires
        app.wf(),
    ensures
        app.on_up().wf(),
{
    if app.mode == Mode::Browsing {
        if let Some(note) = app.active_note() {
            lemma_with_active_note_wf(
                app,
                RemindView { list: note.list.select_previous(), ..note },
            );
        }
    }
}

/// The down key keeps the application well-formed.
pub proof fn lemma_on_down_wf(app: AppView)
    requires
        app.wf(),
    ensures
        app.on_down().wf(),
{
    if app.mode == Mode::Browsing {
        if let Some(note) = app.active_note() {
            lemma_with_active_note_wf(app, RemindView { list: note.list.select_next(), ..note });
        }
    }
}

/// The left and right keys keep the application well-formed.
pub proof fn lemma_on_left_right_wf(app: AppView)
    requires
        app.wf(),
    ensures
        app.on_left().wf(),
        app.on_right().wf(),
{
    if app.tabs.titles.len() > 0 {
        lemma_next_wraps(app.tabs);
    }
}

/// A character key keeps the application well-formed.
pub proof fn lemma_on_key_wf(app: AppView, c: char, date: Timestamp)
    requires
        app.wf(),
    ensures
        app.on_key(c, date).wf(),
{
    let after = app.on_key(c, date);
    match app.mode {
        Mode::AddingNote => {
            if c == '\n' {
                let note = fresh_note(app.add_remind);
                assert forall|i: int| 0 <= i < after.sticky_note.items.len() implies (
                #[trigger] after.sticky_note.items[i]).wf() by {
                    if i < app.sticky_note.items.len() {
                        assert(app.sticky_note.items[i].wf());
                    }
                }
                assert(after.tabs.titles =~= titles_of(after.sticky_note.items));
            }
        },
        Mode::AddingTodo => {
            if c == '\n' {
                if let Some(note) = app.active_note() {
                    lemma_with_active_note_wf(
                        app,
                        RemindView { list: note.list.push(committed(app.add_todo, date)), ..note },
                    );
                }
            }
        },
        Mode::EditingTodo => {
            if c == '\n' {
                if let Some(note) = app.active_note() {
                    if 0 <= note.list.selected < note.list.items.len() {
                        lemma_with_active_note_wf(
                            app,
                            RemindView {
                                list: ListView {
                                    items: note.list.items.update(
                                        note.list.selected,
                                        committed(app.add_todo, date),
                                    ),
                                    ..note.list
                                },
                                ..note
                            },
                        );
                    }
                }
            }
        },
        Mode::AddingFreeNote => {
            if let Some(note) = app.active_note() {
                lemma_with_active_note_wf(app, RemindView { note: note.note.push(c), ..note });
            }
        },
        Mode::Browsing => {},
    }
}

/// The backspace key keeps the application well-formed.
pub proof fn lemma_on_backspace_wf(app: AppView)
    requires
        app.wf(),
    ensures
        app.on_backspace().wf(),
{
    match app.mode {
        Mode::AddingFreeNote => {
            if let Some(note) = app.active_note() {
                lemma_with_active_note_wf(
                    app,
                    RemindView { note: without_last(note.note), ..note },
                );
            }
        },
        Mode::Browsing => {
            if let Some(note) = app.active_note() {
                if let Some(todo) = note.list.selected_item() {
                    lemma_with_active_note_wf(
                        app,
                        RemindView {
                            list: ListView {
                                items: note.list.items.update(
                                    note.list.selected,
                                    TodoView { completed: !todo.completed, ..todo },
                                ),
                                ..note.list
                            },
                            ..note
                        },
                    );
                }
            }
        },
        _ => {},
    }
}

/// The delete key keeps the application well-formed.
pub proof fn lemma_on_delete_wf(app: AppView)
    requires
        app.wf(),
    ensures
        app.on_delete().wf(),
{
    match app.mode {
        Mode::AddingFreeNote => {
            if let Some(note) = app.active_note() {
                lemma_with_active_note_wf(
                    app,
                    RemindView { note: without_last(note.note), ..note },
                );
            }
        },
        Mode::Browsing => {
            if let Some(note) = app.active_note() {
                assert(note.wf());
                lemma_with_active_note_wf(app, RemindView { list: after_delete(note.list), ..note });
            }
        },
        _ => {},
    }
}

/// Removing the active note takes its tab with it and leaves the active tab
/// within the bar: below the new number of tabs, or at 0 when none is left.
pub proof fn lemma_remove_active_note(app: AppView)
    requires
        app.wf(),
        app.sticky_note.items.len() > 0,
    ensures
        app.remove_active_note().wf(),
        app.remove_active_note().tabs.titles.len() == app.tabs.titles.len() - 1,
        app.remove_active_note().sticky_note.items.len() == app.sticky_note.items.len() - 1,
        app.remove_active_note().tabs.titles.len() > 0 ==> 0 <= app.remove_active_note().tabs.index
            < app.remove_active_note().tabs.titles.len(),
        app.remove_active_note().tabs.titles.len() == 0 ==> app.remove_active_note().tabs.index
            == 0,
{
    let after = app.remove_active_note();
    assert forall|i: int| 0 <= i < after.sticky_note.items.len() implies (
    #[trigger] after.sticky_note.items[i]).wf() by {
        if i < app.tabs.index {
            assert(app.sticky_note.items[i].wf());
        } else {
            assert(app.sticky_note.items[i + 1].wf());
        }
    }
    assert(after.tabs.titles =~= titles_of(after.sticky_note.items));
}

/// A control key keeps the application well-formed.
pub proof fn lemma_on_ctrl_key_wf(app: AppView, c: char)
    requires
        app.wf(),
    ensures
        app.on_ctrl_key(c).wf(),
{
    if app.sticky_note.items.len() > 0 {
        lemma_remove_active_note(app);
    }
}

/// While browsing, the backspace key pressed twice leaves every todo as it
/// was.
pub proof fn lemma_backspace_twice(app: AppView)
    requires
        app.wf(),
        app.mode == Mode::Browsing,
    ensures
        app.on_backspace().on_backspace() == app,
{
    if let Some(note) = app.active_note() {
        if let Some(todo) = note.list.selected_item() {
            let once = app.on_backspace();
            lemma_on_backspace_wf(app);
            assert(once.active_note().unwrap().list.selected_item().unwrap() == (TodoView {
                completed: !todo.completed,
                ..todo
            }));
            assert(once.on_backspace().sticky_note.items[app.tabs.index].list.items
                =~= note.list.items);
            assert(once.on_backspace().sticky_note.items =~= app.sticky_note.items);
        }
    }
}

/// Switching to another mode leaves that mode active and no text of the
/// mode before: the pending title is empty, and the pending todo is empty
/// or, in the editing mode, holds the text of the selected todo.
pub proof fn lemma_switch_mode(app: AppView, target: Mode)
    requires
        app.wf(),
        target != Mode::Browsing,
        app.mode != target,
    ensures
        app.toggle(target).mode == target,
        app.toggle(target).add_remind == Seq::<char>::empty(),
        app.toggle(target).add_todo.question_index == 0,
        target != Mode::EditingTodo ==> app.toggle(target).add_todo == app.add_todo.cleared(),
        target == Mode::EditingTodo ==> match app.selected_todo() {
            Some(todo) => app.toggle(target).add_todo.task == todo.task && app.toggle(
                target,
            ).add_todo.cmd == todo.cmd,
            None => app.toggle(target).add_todo == app.add_todo.cleared(),
        },
        app.toggle(target).sticky_note == app.sticky_note,
        app.toggle(target).tabs == app.tabs,
        app.toggle(target).wf(),
{
}

/// Pressing the key of the active mode leaves it for browsing, with every
/// pending entry emptied.
pub proof fn lemma_leave_mode(app: AppView)
    requires
        app.wf(),
    ensures
        app.toggle(app.mode).mode == Mode::Browsing,
        app.toggle(app.mode).add_remind == Seq::<char>::empty(),
        app.toggle(app.mode).add_todo == app.add_todo.cleared(),
{
}

} // verus!
