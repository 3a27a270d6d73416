//! The application: the notes, the tab bar, the pending entries and the
//! input mode, with one handler for each key.

use crate::command::{Action, Command};
use crate::config::{AppConfig, AppKey};
use crate::entry::{AddRemind, AddTodo};
use crate::event::Event;
use crate::list::ListState;
use crate::machine::{
    at_most_one, lemma_on_backspace_wf, lemma_on_ctrl_key_wf, lemma_on_delete_wf,
    lemma_on_down_wf, lemma_on_key_wf, lemma_on_left_right_wf, lemma_on_up_wf, mode_of, notes_wf,
    titles_of, AppView, Mode,
};
use crate::note::{Remind, Todo};
use crate::snapshot::notes_valid;
use crate::strings::texts;
use crate::tabs::{TabsState, TabsView};
use crate::time::{local_now, Timestamp};
use vstd::prelude::*;

verus! {

/// The state of a session. At most one of `new_reminder`, `new_todo`,
/// `edit_todo` and `new_note` is set; none of them set is browsing.
#[derive(Debug)]
pub struct App {
    pub title: String,
    pub tabs: TabsState,
    pub add_todo: AddTodo,
    pub add_remind: AddRemind,
    pub should_quit: bool,
    pub new_reminder: bool,
    pub new_todo: bool,
    pub edit_todo: bool,
    pub new_note: bool,
    pub sticky_note: ListState<Remind>,
    pub cmd_err: String,
    pub config: AppConfig,
}

/// The model of the application: the texts as sequences of characters and
/// the four mode flags as one mode.
impl View for App {
    type V = AppView;

    open spec fn view(&self) -> AppView {
        AppView {
            title: self.title@,
            tabs: self.tabs@,
            add_todo: self.add_todo@,
            add_remind: self.add_remind.title@,
            should_quit: self.should_quit,
            mode: mode_of(self.new_reminder, self.new_todo, self.edit_todo, self.new_note),
            sticky_note: self.sticky_note@,
            cmd_err: self.cmd_err@,
            config: self.config,
        }
    }
}

impl App {
    /// The model is well-formed and at most one mode flag is set.
    pub open spec fn wf(&self) -> bool {
        &&& self@.wf()
        &&& at_most_one(self.new_reminder, self.new_todo, self.edit_todo, self.new_note)
    }

    /// The application as it starts: browsing the given notes, first tab
    /// active, nothing pending.
    pub fn new(config: AppConfig, sticky_note: ListState<Remind>) -> (app: App)
        requires
            notes_wf(sticky_note@),
        ensures
            app.wf(),
            app@.title == config.title@,
            app@.tabs == (TabsView { titles: titles_of(sticky_note@.items), index: 0 }),
            app@.add_todo.question_index == 0,
            app@.add_todo.task == Seq::<char>::empty(),
            app@.add_todo.cmd == Seq::<char>::empty(),
            app@.add_todo.date.is_civil(),
            app@.add_remind == Seq::<char>::empty(),
            !app@.should_quit,
            app@.mode == Mode::Browsing,
            app@.sticky_note == sticky_note@,
            app@.cmd_err == Seq::<char>::empty(),
            app@.config == config,
    {
        let mut titles: Vec<String> = Vec::new();
        let mut i: usize = 0;
        while i < sticky_note.items.len()
            invariant
                i <= sticky_note.items@.len(),
                titles@.len() == i,
                forall|j: int| 0 <= j < i ==> titles@[j]@ == sticky_note.items@[j].title@,
            decreases sticky_note.items@.len() - i,
        {
            titles.push(sticky_note.items[i].title.clone());
            i += 1;
        }
        assert(texts(titles@) =~= titles_of(sticky_note@.items));
        App {
            title: config.title.clone(),
            tabs: TabsState::new(titles),
            add_todo: AddTodo::default(),
            add_remind: AddRemind::default(),
            should_quit: false,
            new_reminder: false,
            new_todo: false,
            edit_todo: false,
            new_note: false,
            sticky_note,
            cmd_err: String::new(),
            config,
        }
    }

    /// Whether the application is well-formed.
    pub fn is_valid(&self) -> (valid: bool)
        ensures
            valid == self.wf(),
    {
        let len: usize = self.tabs.titles.len();
        let one_mode = !(self.new_reminder && self.new_todo) && !(self.new_reminder
            && self.edit_todo) && !(self.new_reminder && self.new_note) && !(self.new_todo
            && self.edit_todo) && !(self.new_todo && self.new_note) && !(self.edit_todo
            && self.new_note);
        let tab_ok = self.tabs.index < len || (len == 0 && self.tabs.index == 0);
        if !one_mode || !tab_ok || self.add_todo.question_index > 1 || len
            != self.sticky_note.items.len() || !notes_valid(&self.sticky_note) {
            return false;
        }
        let mut i: usize = 0;
        while i < len
            invariant
                i <= len,
                len == self.tabs.titles@.len(),
                len == self.sticky_note.items@.len(),
                forall|k: int| 0 <= k < i ==> self@.tabs.titles[k] == (#[trigger] titles_of(
                    self@.sticky_note.items,
                )[k]),
            decreases len - i,
        {
            if self.tabs.titles[i] != self.sticky_note.items[i].title {
                assert(self@.tabs.titles[i as int] != titles_of(self@.sticky_note.items)[i as int]);
                return false;
            }
            i += 1;
        }
        true
    }

    /// The input mode.
    pub fn mode(&self) -> (mode: Mode)
        ensures
            mode == self@.mode,
    {
        if self.new_reminder {
            Mode::AddingNote
        } else if self.new_todo {
            Mode::AddingTodo
        } else if self.edit_todo {
            Mode::EditingTodo
        } else if self.new_note {
            Mode::AddingFreeNote
        } else {
            Mode::Browsing
        }
    }

    /// Handles the up key.
    pub fn on_up(&mut self)
        requires
            old(self).wf(),
        ensures
            final(self).wf(),
            final(self)@ == old(self)@.on_up(),
    {
        proof {
            lemma_on_up_wf(self@);
        }
        match self.mode() {
            Mode::AddingTodo | Mode::EditingTodo => self.add_todo.previous(),
            Mode::AddingNote | Mode::AddingFreeNote => {},
            Mode::Browsing => {
                if !self.sticky_note.is_empty() {
                    let at: usize = self.tabs.index;
                    self.sticky_note.items[at].list.select_previous();
                    assert(self@.sticky_note.items =~= old(self)@.on_up().sticky_note.items);
                }
            },
        }
    }

    /// Handles the down key.
    pub fn on_down(&mut self)
        requires
            old(self).wf(),
        ensures
            final(self).wf(),
            final(self)@ == old(self)@.on_down(),
    {
        proof {
            lemma_on_down_wf(self@);
        }
        match self.mode() {
            Mode::AddingTodo | Mode::EditingTodo => self.add_todo.next(),
            Mode::AddingNote | Mode::AddingFreeNote => {},
            Mode::Browsing => {
                if !self.sticky_note.is_empty() {
                    let at: usize = self.tabs.index;
                    self.sticky_note.items[at].list.select_next();
                    assert(self@.sticky_note.items =~= old(self)@.on_down().sticky_note.items);
                }
            },
        }
    }

    /// Handles the right key.
    pub fn on_right(&mut self)
        requires
            old(self).wf(),
        ensures
            final(self).wf(),
            final(self)@ == old(self)@.on_right(),
    {
        proof {
            lemma_on_left_right_wf(self@);
        }
        self.reset_addition();
        self.tabs.next();
    }

    /// Handles the left key.
    pub fn on_left(&mut self)
        requires
            old(self).wf(),
        ensures
            final(self).wf(),
            final(self)@ == old(self)@.on_left(),
    {
        proof {
            lemma_on_left_right_wf(self@);
        }
        self.reset_addition();
        self.tabs.previous();
    }

    /// Empties every pending entry.
    pub fn reset_addition(&mut self)
        ensures
            final(self)@ == old(self)@.reset_addition(),
            final(self).new_reminder == old(self).new_reminder,
            final(self).new_todo == old(self).new_todo,
            final(self).edit_todo == old(self).edit_todo,
            final(self).new_note == old(self).new_note,
            final(self).sticky_note == old(self).sticky_note,
            final(self).tabs == old(self).tabs,
    {
        self.add_remind.title.clear();
        self.add_todo.cmd.clear();
        self.add_todo.task.clear();
        self.add_todo.question_index = 0;
    }

    /// Returns to browsing mode.
    pub fn reset_new_flag(&mut self)
        ensures
            final(self)@ == old(self)@.reset_new_flag(),
            !final(self).new_reminder,
            !final(self).new_todo,
            !final(self).edit_todo,
            !final(self).new_note,
            final(self).sticky_note == old(self).sticky_note,
            final(self).tabs == old(self).tabs,
            final(self).add_todo == old(self).add_todo,
            final(self).add_remind == old(self).add_remind,
    {
        self.new_note = false;
        self.new_reminder = false;
        self.new_todo = false;
        self.edit_todo = false;
    }

    /// Handles a tick of the timer: nothing changes.
    pub fn on_tick(&mut self)
        ensures
            *final(self) == *old(self),
    {
    }

    /// Records the message of an action that failed. The session goes on.
    pub fn on_failure(&mut self, message: String)
        ensures
            final(self)@ == (AppView { cmd_err: message@, ..old(self)@ }),
            old(self).wf() ==> final(self).wf(),
    {
        self.cmd_err = message;
    }

    /// Sets the flag of a mode, every other flag cleared.
    fn enter(&mut self, mode: Mode)
        ensures
            final(self)@ == (AppView { mode, ..old(self)@ }),
            at_most_one(
                final(self).new_reminder,
                final(self).new_todo,
                final(self).edit_todo,
                final(self).new_note,
            ),
            final(self).sticky_note == old(self).sticky_note,
            final(self).tabs == old(self).tabs,
            final(self).add_todo == old(self).add_todo,
            final(self).add_remind == old(self).add_remind,
    {
        self.new_reminder = mode == Mode::AddingNote;
        self.new_todo = mode == Mode::AddingTodo;
        self.edit_todo = mode == Mode::EditingTodo;
        self.new_note = mode == Mode::AddingFreeNote;
    }

    /// Commits the pending title as a new note with its tab.
    fn commit_note(&mut self)
        requires
            old(self).wf(),
        ensures
            final(self)@ == (AppView { mode: old(self)@.mode, ..old(self)@.commit_note() }),
            final(self).new_reminder == old(self).new_reminder,
            final(self).new_todo == old(self).new_todo,
            final(self).edit_todo == old(self).edit_todo,
            final(self).new_note == old(self).new_note,
    {
        let note = Remind {
            title: self.add_remind.title.clone(),
            note: String::new(),
            list: ListState::default(),
        };
        assert(note@.list.items =~= Seq::empty());
        self.sticky_note.items.push(note);
        self.tabs.titles.push(self.add_remind.title.clone());
        self.add_remind.title.clear();
        assert(self@.sticky_note.items =~= old(self)@.commit_note().sticky_note.items);
        assert(self@.tabs.titles =~= old(self)@.commit_note().tabs.titles);
    }

    /// The pending todo as a todo of its own, dated `date`.
    fn pending_todo(&self, date: Timestamp) -> (todo: Todo)
        ensures
            todo@ == crate::machine::committed(self@.add_todo, date),
    {
        Todo {
            date,
            task: self.add_todo.task.clone(),
            cmd: self.add_todo.cmd.clone(),
            completed: false,
        }
    }

    /// Empties the pending todo.
    fn clear_todo(&mut self)
        ensures
            final(self)@ == (AppView { add_todo: old(self)@.add_todo.cleared(), ..old(self)@ }),
            final(self).new_reminder == old(self).new_reminder,
            final(self).new_todo == old(self).new_todo,
            final(self).edit_todo == old(self).edit_todo,
            final(self).new_note == old(self).new_note,
    {
        self.add_todo.task.clear();
        self.add_todo.cmd.clear();
        self.add_todo.question_index = 0;
    }

    /// Appends the pending todo to the active note; reports whether there
    /// was one.
    fn commit_todo(&mut self, date: Timestamp) -> (done: bool)
        requires
            old(self).wf(),
        ensures
            done == old(self)@.active_note().is_some(),
            final(self)@ == (AppView { mode: old(self)@.mode, ..old(self)@.commit_todo(date) }),
            final(self).new_reminder == old(self).new_reminder,
            final(self).new_todo == old(self).new_todo,
            final(self).edit_todo == old(self).edit_todo,
            final(self).new_note == old(self).new_note,
    {
        let at: usize = self.tabs.index;
        if at < self.sticky_note.items.len() {
            let todo = self.pending_todo(date);
            self.sticky_note.items[at].list.items.push(todo);
            assert(self@.sticky_note.items[at as int].list.items =~= old(self)@.commit_todo(
                date,
            ).sticky_note.items[at as int].list.items);
            assert(self@.sticky_note.items =~= old(self)@.commit_todo(date).sticky_note.items);
            self.clear_todo();
            true
        } else {
            false
        }
    }

    /// Puts the pending todo in the place of the selected one; reports
    /// whether there was one.
    fn commit_edit(&mut self, date: Timestamp) -> (done: bool)
        requires
            old(self).wf(),
        ensures
            done == old(self)@.selected_todo().is_some(),
            final(self)@ == (AppView { mode: old(self)@.mode, ..old(self)@.commit_edit(date) }),
            final(self).new_reminder == old(self).new_reminder,
            final(self).new_todo == old(self).new_todo,
            final(self).edit_todo == old(self).edit_todo,
            final(self).new_note == old(self).new_note,
    {
        let at: usize = self.tabs.index;
        if at < self.sticky_note.items.len() {
            let selected: usize = self.sticky_note.items[at].list.selected;
            if selected < self.sticky_note.items[at].list.items.len() {
                let todo = self.pending_todo(date);
                self.sticky_note.items[at].list.items[selected] = todo;
                assert(self@.sticky_note.items[at as int].list.items =~= old(self)@.commit_edit(
                    date,
                ).sticky_note.items[at as int].list.items);
                assert(self@.sticky_note.items =~= old(self)@.commit_edit(date).sticky_note.items);
                self.clear_todo();
                return true;
            }
        }
        false
    }

    /// The command that the enter key starts: that of the selected todo.
    fn activation(&self) -> (action: Action)
        requires
            self.wf(),
        ensures
            action@ == (AppView { mode: Mode::Browsing, ..self@ }).key_action('\n'),
    {
        let at: usize = self.tabs.index;
        if at < self.sticky_note.items.len() {
            match self.sticky_note.items[at].list.get_selected() {
                Some(todo) => match Command::parse(todo.cmd.as_str()) {
                    Some(command) => Action::Run(command),
                    None => Action::Idle,
                },
                None => Action::Idle,
            }
        } else {
            Action::Idle
        }
    }

    /// Handles a character key pressed at the moment `date`.
    pub fn add_char(&mut self, c: char, date: Timestamp) -> (action: Action)
        requires
            old(self).wf(),
        ensures
            final(self).wf(),
            final(self)@ == old(self)@.on_key(c, date),
            action@ == old(self)@.key_action(c),
    {
        proof {
            lemma_on_key_wf(self@, c, date);
        }
        match self.mode() {
            Mode::AddingNote => {
                if c == '\n' {
                    self.commit_note();
                    self.new_reminder = false;
                } else {
                    self.add_remind.title.push(c);
                }
                Action::Idle
            },
            Mode::AddingTodo => {
                if c == '\n' {
                    if self.commit_todo(date) {
                        self.new_todo = false;
                    }
                } else if self.add_todo.question_index == 0 {
                    self.add_todo.task.push(c);
                } else {
                    self.add_todo.cmd.push(c);
                }
                Action::Idle
            },
            Mode::EditingTodo => {
                if c == '\n' {
                    if self.commit_edit(date) {
                        self.edit_todo = false;
                    }
                } else if self.add_todo.question_index == 0 {
                    self.add_todo.task.push(c);
                } else {
                    self.add_todo.cmd.push(c);
                }
                Action::Idle
            },
            Mode::AddingFreeNote => {
                let at: usize = self.tabs.index;
                if at < self.sticky_note.items.len() {
                    self.sticky_note.items[at].note.push(c);
                    assert(self@.sticky_note.items =~= old(self)@.on_key(
                        c,
                        date,
                    ).sticky_note.items);
                }
                Action::Idle
            },
            Mode::Browsing => {
                if c == '\n' {
                    self.activation()
                } else {
                    Action::Idle
                }
            },
        }
    }

    /// Handles a character key. A todo committed by it carries the moment
    /// that the local clock shows.
    pub fn on_key(&mut self, c: char) -> (action: Action)
        requires
            old(self).wf(),
        ensures
            final(self).wf(),
            exists|date: Timestamp| date.is_civil() && final(self)@ == old(self)@.on_key(c, date),
            action@ == old(self)@.key_action(c),
    {
        let date = local_now();
        self.add_char(c, date)
    }

    /// Handles the backspace key.
    pub fn on_backspace(&mut self)
        requires
            old(self).wf(),
        ensures
            final(self).wf(),
            final(self)@ == old(self)@.on_backspace(),
    {
        proof {
            lemma_on_backspace_wf(self@);
        }
        match self.mode() {
            Mode::AddingNote => {
                self.add_remind.title.pop();
            },
            Mode::AddingTodo | Mode::EditingTodo => {
                if self.add_todo.question_index == 0 {
                    self.add_todo.task.pop();
                } else {
                    self.add_todo.cmd.pop();
                }
            },
            Mode::AddingFreeNote => {
                let at: usize = self.tabs.index;
                if at < self.sticky_note.items.len() {
                    self.sticky_note.items[at].note.pop();
                    assert(self@.sticky_note.items =~= old(self)@.on_backspace().sticky_note.items);
                }
            },
            Mode::Browsing => {
                let at: usize = self.tabs.index;
                if at < self.sticky_note.items.len() {
                    match self.sticky_note.items[at].list.get_selected_mut() {
                        Some(todo) => {
                            let flag = todo.completed;
                            todo.completed = !flag;
                        },
                        None => {},
                    }
                    assert(self@.sticky_note.items[at as int].list.items
                        =~= old(self)@.on_backspace().sticky_note.items[at as int].list.items);
                    assert(self@.sticky_note.items =~= old(self)@.on_backspace().sticky_note.items);
                }
            },
        }
    }

    /// Handles the delete key.
    pub fn on_delete(&mut self)
        requires
            old(self).wf(),
        ensures
            final(self).wf(),
            final(self)@ == old(self)@.on_delete(),
    {
        proof {
            lemma_on_delete_wf(self@);
        }
        match self.mode() {
            Mode::AddingNote | Mode::AddingTodo | Mode::EditingTodo => {
                self.reset_addition();
            },
            Mode::AddingFreeNote => {
                let at: usize = self.tabs.index;
                if at < self.sticky_note.items.len() {
                    self.sticky_note.items[at].note.pop();
                    assert(self@.sticky_note.items =~= old(self)@.on_delete().sticky_note.items);
                }
            },
            Mode::Browsing => {
                let at: usize = self.tabs.index;
                if at < self.sticky_note.items.len() {
                    assert(old(self)@.sticky_note.items[at as int].wf());
                    let idx: usize = self.sticky_note.items[at].list.selected;
                    if idx > 0 {
                        self.sticky_note.items[at].list.selected -= 1;
                    }
                    if !self.sticky_note.items[at].list.is_empty() {
                        self.sticky_note.items[at].list.items.remove(idx);
                    }
                    assert(self@.sticky_note.items[at as int].list.items
                        =~= old(self)@.on_delete().sticky_note.items[at as int].list.items);
                    assert(self@.sticky_note.items =~= old(self)@.on_delete().sticky_note.items);
                }
            },
        }
    }

    /// Enters the mode, or leaves it for browsing if it is the active one.
    fn toggle(&mut self, target: Mode)
        requires
            old(self).wf(),
        ensures
            final(self)@ == old(self)@.toggle(target),
            at_most_one(
                final(self).new_reminder,
                final(self).new_todo,
                final(self).edit_todo,
                final(self).new_note,
            ),
    {
        let active = self.mode();
        self.reset_addition();
        if active == target {
            self.enter(Mode::Browsing);
        } else {
            self.enter(target);
            if target == Mode::EditingTodo {
                let at: usize = self.tabs.index;
                if at < self.sticky_note.items.len() {
                    match self.sticky_note.items[at].list.get_selected() {
                        Some(todo) => {
                            self.add_todo.task = todo.task.clone();
                            self.add_todo.cmd = todo.cmd.clone();
                        },
                        None => {},
                    }
                }
            }
        }
    }

    /// Removes the active note and its tab.
    fn remove_active_note(&mut self)
        requires
            old(self).wf(),
        ensures
            final(self)@ == old(self)@.remove_active_note(),
            final(self).new_reminder == old(self).new_reminder,
            final(self).new_todo == old(self).new_todo,
            final(self).edit_todo == old(self).edit_todo,
            final(self).new_note == old(self).new_note,
    {
        if !self.sticky_note.is_empty() {
            let tab_idx: usize = self.tabs.index;
            self.sticky_note.items.remove(tab_idx);
            self.sticky_note.select_previous();
            self.tabs.titles.remove(tab_idx);
            assert(self@.tabs.titles =~= old(self)@.tabs.titles.remove(tab_idx as int));
            self.tabs.previous();
            assert(self@.sticky_note.items =~= old(self)@.remove_active_note().sticky_note.items);
        }
    }

    /// Handles a key pressed with control held down.
    pub fn on_ctrl_key(&mut self, c: char) -> (action: Action)
        requires
            old(self).wf(),
        ensures
            final(self).wf(),
            final(self)@ == old(self)@.on_ctrl_key(c),
            action@ == old(self)@.ctrl_action(c),
    {
        proof {
            lemma_on_ctrl_key_wf(self@, c);
        }
        if c == 'q' {
            self.should_quit = true;
            Action::Quit
        } else if c == self.config.new_todo_char_ctrl {
            self.toggle(Mode::AddingTodo);
            Action::Idle
        } else if c == self.config.edit_todo_char_ctrl {
            self.toggle(Mode::EditingTodo);
            Action::Idle
        } else if c == self.config.new_sticky_note_char_ctrl {
            self.toggle(Mode::AddingNote);
            Action::Idle
        } else if c == self.config.new_note_char_ctrl {
            self.toggle(Mode::AddingFreeNote);
            Action::Idle
        } else if c == self.config.remove_sticky_note_char_ctrl {
            self.remove_active_note();
            Action::Idle
        } else if c == self.config.save_state_to_db_char_ctrl {
            Action::Save
        } else {
            Action::Idle
        }
    }

    /// Handles an event that arrived at the moment `date`.
    pub fn handle(&mut self, event: Event<AppKey>, date: Timestamp) -> (action: Action)
        requires
            old(self).wf(),
        ensures
            final(self).wf(),
            final(self)@ == old(self)@.step(event, date),
            action@ == old(self)@.step_action(event),
    {
        match event {
            Event::Input(key) => match key {
                AppKey::Char(c) => self.add_char(c, date),
                AppKey::Up => {
                    self.on_up();
                    Action::Idle
                },
                AppKey::Down => {
                    self.on_down();
                    Action::Idle
                },
                AppKey::Left => {
                    self.on_left();
                    Action::Idle
                },
                AppKey::Right => {
                    self.on_right();
                    Action::Idle
                },
                AppKey::Esc => self.on_ctrl_key('q'),
                AppKey::Backspace => {
                    self.on_backspace();
                    Action::Idle
                },
                AppKey::Delete => {
                    self.on_delete();
                    Action::Idle
                },
                AppKey::Ctrl(c) => self.on_ctrl_key(c),
                _ => Action::Idle,
            },
            Event::Tick => {
                self.on_tick();
                Action::Idle
            },
        }
    }

    /// Handles an event. A todo committed by it carries the moment that the
    /// local clock shows.
    pub fn on_event(&mut self, event: Event<AppKey>) -> (action: Action)
        requires
            old(self).wf(),
        ensures
            final(self).wf(),
            exists|date: Timestamp| date.is_civil() && final(self)@ == old(self)@.step(event, date),
            action@ == old(self)@.step_action(event),
    {
        let date = local_now();
        self.handle(event, date)
    }
}

} // verus!
