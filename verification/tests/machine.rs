use forget::app::App;
use forget::command::Action;
use forget::config::{AppConfig, AppKey};
use forget::event::Event;
use forget::list::ListState;
use forget::machine::Mode;
use forget::note::{Remind, Todo};
use forget::seed::seed_notes;
use forget::time::Timestamp;

fn at(second: u32) -> Timestamp {
    Timestamp { year: 2023, month: 4, day: 5, hour: 6, minute: 7, second, nanosecond: 0 }
}

fn seeded() -> App {
    App::new(AppConfig::default(), seed_notes(at(0)))
}

fn blank() -> App {
    App::new(AppConfig::default(), ListState::new(Vec::new()))
}

fn type_text(app: &mut App, text: &str) {
    for c in text.chars() {
        assert!(matches!(app.add_char(c, at(1)), Action::Idle));
    }
}

fn flags(app: &App) -> [bool; 4] {
    [app.new_reminder, app.new_todo, app.edit_todo, app.new_note]
}

fn mirrored(app: &App) {
    assert_eq!(app.tabs.titles.len(), app.sticky_note.len());
    for (title, note) in app.tabs.titles.iter().zip(app.sticky_note.iter()) {
        assert_eq!(title, &note.title);
    }
    assert!(app.tabs.index < app.tabs.titles.len() || app.tabs.index == 0);
}

#[test]
fn new_app_browses_the_first_tab() {
    let app = seeded();
    assert_eq!(app.title, "Forget It");
    assert_eq!(app.mode(), Mode::Browsing);
    assert_eq!(flags(&app), [false; 4]);
    assert!(!app.should_quit);
    assert_eq!(app.tabs.index, 0);
    assert_eq!(app.tabs.titles, vec!["Note One".to_string(), "Note Two".to_string()]);
    assert_eq!(app.add_todo.task, "");
    assert_eq!(app.add_todo.cmd, "");
    assert_eq!(app.add_todo.question_index, 0);
    assert_eq!(app.add_remind.title, "");
    assert_eq!(app.cmd_err, "");
    assert_eq!(app.sticky_note.len(), 2);
    assert_eq!(app.config.new_todo_char_ctrl, 'n');
}

#[test]
fn committing_a_todo_appends_it_and_returns_to_browsing() {
    let mut app = seeded();
    assert!(matches!(app.on_ctrl_key('n'), Action::Idle));
    assert_eq!(app.mode(), Mode::AddingTodo);
    type_text(&mut app, "Buy milk");
    assert_eq!(app.add_todo.task, "Buy milk");
    let action = app.add_char('\n', at(30));
    assert!(matches!(action, Action::Idle));
    assert_eq!(app.mode(), Mode::Browsing);
    assert_eq!(flags(&app), [false; 4]);
    assert_eq!(app.add_todo.task, "");
    assert_eq!(app.add_todo.cmd, "");
    assert_eq!(app.add_todo.question_index, 0);
    let list = &app.sticky_note.items[0].list;
    assert_eq!(list.len(), 9);
    let added = &list.items[8];
    assert_eq!(added.task, "Buy milk");
    assert_eq!(added.cmd, "");
    assert!(!added.completed);
    assert_eq!(added.date, at(30));
    assert_eq!(list.selected, 0);
    assert_eq!(app.sticky_note.items[1].list.len(), 3);
}

#[test]
fn todo_entry_has_a_task_and_a_command_field() {
    let mut app = seeded();
    app.on_right();
    app.on_ctrl_key('n');
    type_text(&mut app, "Look");
    app.on_down();
    assert_eq!(app.add_todo.question_index, 1);
    type_text(&mut app, "ls -l");
    app.on_down();
    assert_eq!(app.add_todo.question_index, 1);
    app.on_backspace();
    app.on_up();
    assert_eq!(app.add_todo.question_index, 0);
    app.on_backspace();
    app.on_up();
    assert_eq!(app.add_todo.question_index, 0);
    assert_eq!(app.add_todo.task, "Loo");
    assert_eq!(app.add_todo.cmd, "ls -");
    assert_eq!(app.sticky_note.items[1].list.selected, 0);
    app.add_char('\n', at(2));
    let added = &app.sticky_note.items[1].list.items[3];
    assert_eq!(added.task, "Loo");
    assert_eq!(added.cmd, "ls -");
}

#[test]
fn on_key_dates_the_todo_by_the_clock() {
    let mut app = seeded();
    app.on_ctrl_key('n');
    assert!(matches!(app.on_key('a'), Action::Idle));
    assert!(matches!(app.on_key('\n'), Action::Idle));
    let added = &app.sticky_note.items[0].list.items[8];
    assert_eq!(added.task, "a");
    assert!((1..=12).contains(&added.date.month));
    assert!((1..=31).contains(&added.date.day));
    assert!(added.date.hour < 24);
    assert_eq!(app.mode(), Mode::Browsing);
}

#[test]
fn committing_a_note_adds_its_tab() {
    let mut app = seeded();
    app.on_ctrl_key('h');
    assert_eq!(app.mode(), Mode::AddingNote);
    type_text(&mut app, "Errandz");
    app.on_backspace();
    app.add_char('s', at(1));
    assert_eq!(app.add_remind.title, "Errands");
    app.add_char('\n', at(1));
    assert_eq!(app.mode(), Mode::Browsing);
    assert_eq!(app.add_remind.title, "");
    assert_eq!(app.sticky_note.len(), 3);
    assert_eq!(app.tabs.titles[2], "Errands");
    assert_eq!(app.sticky_note.items[2].title, "Errands");
    assert_eq!(app.sticky_note.items[2].note, "");
    assert!(app.sticky_note.items[2].list.is_empty());
    assert_eq!(app.tabs.index, 0);
    mirrored(&app);
}

#[test]
fn tab_bar_mirrors_the_notes_through_additions_and_removals() {
    let mut app = blank();
    mirrored(&app);
    for name in ["a", "b", "c", "d"] {
        app.on_ctrl_key('h');
        type_text(&mut app, name);
        app.add_char('\n', at(1));
        mirrored(&app);
    }
    assert_eq!(app.tabs.titles.len(), 4);
    app.on_right();
    app.on_ctrl_key('u');
    mirrored(&app);
    assert_eq!(app.tabs.titles, vec!["a".to_string(), "c".to_string(), "d".to_string()]);
    assert_eq!(app.tabs.index, 0);
    app.on_left();
    assert_eq!(app.tabs.index, 2);
    app.on_ctrl_key('u');
    mirrored(&app);
    assert_eq!(app.tabs.titles, vec!["a".to_string(), "c".to_string()]);
    assert_eq!(app.tabs.index, 1);
    app.on_ctrl_key('h');
    type_text(&mut app, "e");
    app.add_char('\n', at(1));
    mirrored(&app);
    while !app.sticky_note.is_empty() {
        app.on_ctrl_key('u');
        mirrored(&app);
    }
    assert_eq!(app.tabs.index, 0);
    assert_eq!(app.sticky_note.selected, 0);
    app.on_ctrl_key('u');
    mirrored(&app);
}

#[test]
fn removing_the_first_tab_activates_the_last() {
    let mut app = seeded();
    app.on_ctrl_key('h');
    type_text(&mut app, "Three");
    app.add_char('\n', at(1));
    assert_eq!(app.tabs.index, 0);
    app.on_ctrl_key('u');
    assert_eq!(app.tabs.titles, vec!["Note Two".to_string(), "Three".to_string()]);
    assert_eq!(app.tabs.index, 1);
    assert_eq!(app.sticky_note.items[0].title, "Note Two");
}

#[test]
fn removing_the_last_tab_activates_the_one_before() {
    let mut app = seeded();
    app.on_right();
    assert_eq!(app.tabs.index, 1);
    app.on_ctrl_key('u');
    assert_eq!(app.tabs.titles, vec!["Note One".to_string()]);
    assert_eq!(app.tabs.index, 0);
    app.on_ctrl_key('u');
    assert!(app.tabs.titles.is_empty());
    assert_eq!(app.tabs.index, 0);
}

#[test]
fn removing_a_note_steps_the_collection_cursor_back() {
    let mut notes = seed_notes(at(0));
    notes.select_next();
    let mut app = App::new(AppConfig::default(), notes);
    assert_eq!(app.sticky_note.selected, 1);
    app.on_ctrl_key('u');
    assert_eq!(app.sticky_note.selected, 0);
    assert_eq!(app.sticky_note.items[0].title, "Note Two");
}

#[test]
fn deleting_the_only_todo_empties_the_list() {
    let only = Todo { date: at(0), task: "one".to_string(), cmd: String::new(), completed: false };
    let note = Remind { title: "n".to_string(), note: String::new(), list: ListState::new(vec![only]) };
    let mut app = App::new(AppConfig::default(), ListState::new(vec![note]));
    app.on_delete();
    assert!(app.sticky_note.items[0].list.is_empty());
    assert_eq!(app.sticky_note.items[0].list.selected, 0);
    app.on_down();
    assert_eq!(app.sticky_note.items[0].list.selected, 0);
    app.on_up();
    assert_eq!(app.sticky_note.items[0].list.selected, 0);
    assert!(app.sticky_note.items[0].list.get_selected().is_none());
    app.on_delete();
    app.on_backspace();
    assert!(matches!(app.add_char('\n', at(1)), Action::Idle));
    assert!(app.sticky_note.items[0].list.is_empty());
    assert_eq!(app.sticky_note.items[0].list.selected, 0);
}

#[test]
fn delete_steps_the_cursor_back_and_removes_the_selected_todo() {
    let mut app = seeded();
    app.on_right();
    app.on_down();
    app.on_down();
    assert_eq!(app.sticky_note.items[1].list.selected, 2);
    app.on_delete();
    let tasks: Vec<&str> = app.sticky_note.items[1].list.iter().map(|t| t.as_str()).collect();
    assert_eq!(tasks, vec!["First", "Second"]);
    assert_eq!(app.sticky_note.items[1].list.selected, 1);
    app.on_up();
    app.on_delete();
    let tasks: Vec<&str> = app.sticky_note.items[1].list.iter().map(|t| t.as_str()).collect();
    assert_eq!(tasks, vec!["Second"]);
    assert_eq!(app.sticky_note.items[1].list.selected, 0);
    assert_eq!(app.sticky_note.items[0].list.len(), 8);
}

#[test]
fn delete_from_the_middle_selects_the_item_before() {
    let mut app = seeded();
    app.on_down();
    app.on_delete();
    assert_eq!(app.sticky_note.items[0].list.len(), 7);
    assert_eq!(app.sticky_note.items[0].list.selected, 0);
    assert_eq!(app.sticky_note.items[0].list.items[1].task, "You can check off a Todo by hitting Backspace");
}

#[test]
fn backspace_toggles_the_selected_todo() {
    let mut app = seeded();
    app.on_down();
    app.on_backspace();
    assert!(app.sticky_note.items[0].list.items[1].completed);
    assert!(!app.sticky_note.items[0].list.items[0].completed);
    assert!(!app.sticky_note.items[0].list.items[2].completed);
    app.on_backspace();
    assert!(!app.sticky_note.items[0].list.items[1].completed);
}

#[test]
fn browsing_moves_the_cursor_of_the_active_note() {
    let mut app = seeded();
    app.on_down();
    app.on_down();
    app.on_up();
    assert_eq!(app.sticky_note.items[0].list.selected, 1);
    assert_eq!(app.sticky_note.items[1].list.selected, 0);
    app.on_right();
    for _ in 0..5 {
        app.on_down();
    }
    assert_eq!(app.sticky_note.items[1].list.selected, 2);
    assert_eq!(app.sticky_note.items[0].list.selected, 1);
    assert_eq!(app.sticky_note.selected, 0);
}

#[test]
fn left_and_right_wrap_and_empty_the_entries() {
    let mut app = seeded();
    app.on_ctrl_key('n');
    type_text(&mut app, "half");
    app.on_down();
    type_text(&mut app, "typed");
    app.on_right();
    assert_eq!(app.tabs.index, 1);
    assert_eq!(app.add_todo.task, "");
    assert_eq!(app.add_todo.cmd, "");
    assert_eq!(app.add_todo.question_index, 0);
    assert_eq!(app.mode(), Mode::AddingTodo);
    app.on_right();
    assert_eq!(app.tabs.index, 0);
    app.on_left();
    assert_eq!(app.tabs.index, 1);
    app.on_left();
    assert_eq!(app.tabs.index, 0);
}

#[test]
fn switching_modes_leaves_one_mode_and_no_old_text() {
    let keys = [('h', Mode::AddingNote), ('n', Mode::AddingTodo), ('e', Mode::EditingTodo), ('k', Mode::AddingFreeNote)];
    for (from_key, from) in keys {
        for (to_key, to) in keys {
            if from == to {
                continue;
            }
            let mut app = blank();
            app.on_ctrl_key(from_key);
            assert_eq!(app.mode(), from);
            type_text(&mut app, "typed");
            app.on_ctrl_key(to_key);
            assert_eq!(app.mode(), to);
            assert_eq!(flags(&app).iter().filter(|f| **f).count(), 1);
            assert_eq!(app.add_remind.title, "");
            assert_eq!(app.add_todo.task, "");
            assert_eq!(app.add_todo.cmd, "");
            assert_eq!(app.add_todo.question_index, 0);
        }
    }
}

#[test]
fn the_key_of_the_active_mode_leaves_it() {
    for (key, mode) in [('h', Mode::AddingNote), ('n', Mode::AddingTodo), ('e', Mode::EditingTodo), ('k', Mode::AddingFreeNote)] {
        let mut app = seeded();
        app.on_ctrl_key(key);
        assert_eq!(app.mode(), mode);
        app.on_ctrl_key(key);
        assert_eq!(app.mode(), Mode::Browsing);
        assert_eq!(flags(&app), [false; 4]);
        assert_eq!(app.add_todo.task, "");
        assert_eq!(app.add_todo.cmd, "");
    }
}

#[test]
fn mode_flags_map_to_modes() {
    let mut app = seeded();
    app.on_ctrl_key('h');
    assert_eq!(flags(&app), [true, false, false, false]);
    app.on_ctrl_key('n');
    assert_eq!(flags(&app), [false, true, false, false]);
    app.on_ctrl_key('e');
    assert_eq!(flags(&app), [false, false, true, false]);
    app.on_ctrl_key('k');
    assert_eq!(flags(&app), [false, false, false, true]);
    app.reset_new_flag();
    assert_eq!(flags(&app), [false; 4]);
    assert_eq!(app.mode(), Mode::Browsing);
}

#[test]
fn editing_loads_and_replaces_the_selected_todo() {
    let mut app = seeded();
    for _ in 0..7 {
        app.on_down();
    }
    app.on_ctrl_key('e');
    assert_eq!(app.mode(), Mode::EditingTodo);
    assert_eq!(app.add_todo.task, "Todo's can run commands when selected with Enter.");
    assert_eq!(app.add_todo.cmd, "sensible-browser https://github.com/DevinR528/forget");
    app.on_delete();
    assert_eq!(app.add_todo.task, "");
    assert_eq!(app.add_todo.cmd, "");
    type_text(&mut app, "Read");
    app.on_down();
    assert_eq!(app.sticky_note.items[0].list.selected, 7);
    type_text(&mut app, "less notes");
    app.sticky_note.items[0].list.items[7].completed = true;
    app.add_char('\n', at(40));
    assert_eq!(app.mode(), Mode::Browsing);
    assert_eq!(flags(&app), [false; 4]);
    let list = &app.sticky_note.items[0].list;
    assert_eq!(list.len(), 8);
    assert_eq!(list.selected, 7);
    assert_eq!(list.items[7].task, "Read");
    assert_eq!(list.items[7].cmd, "less notes");
    assert!(!list.items[7].completed);
    assert_eq!(list.items[7].date, at(40));
    assert_eq!(list.items[6].task, "Oh you can exit by ctrl-q or Esc");
    assert_eq!(app.add_todo.task, "");
    assert_eq!(app.add_todo.cmd, "");
    assert_eq!(app.add_todo.question_index, 0);
}

#[test]
fn editing_with_nothing_selected_changes_nothing() {
    let note = Remind { title: "n".to_string(), note: String::new(), list: ListState::default() };
    let mut app = App::new(AppConfig::default(), ListState::new(vec![note]));
    app.on_ctrl_key('e');
    assert_eq!(app.mode(), Mode::EditingTodo);
    assert_eq!(app.add_todo.task, "");
    type_text(&mut app, "x");
    app.add_char('\n', at(1));
    assert_eq!(app.mode(), Mode::EditingTodo);
    assert_eq!(app.add_todo.task, "x");
    assert!(app.sticky_note.items[0].list.is_empty());
}

#[test]
fn committing_against_no_notes_changes_nothing() {
    let mut app = blank();
    app.on_ctrl_key('n');
    type_text(&mut app, "lost");
    assert!(matches!(app.add_char('\n', at(1)), Action::Idle));
    assert_eq!(app.mode(), Mode::AddingTodo);
    assert_eq!(app.add_todo.task, "lost");
    assert!(app.sticky_note.is_empty());
    app.on_ctrl_key('e');
    app.add_char('\n', at(1));
    assert_eq!(app.mode(), Mode::EditingTodo);
    app.on_ctrl_key('k');
    type_text(&mut app, "nowhere");
    app.on_backspace();
    app.on_delete();
    assert!(app.sticky_note.is_empty());
    assert!(app.tabs.titles.is_empty());
}

#[test]
fn browsing_without_notes_ignores_every_key() {
    let mut app = blank();
    app.on_up();
    app.on_down();
    app.on_left();
    app.on_right();
    app.on_backspace();
    app.on_delete();
    app.on_tick();
    assert!(matches!(app.add_char('\n', at(1)), Action::Idle));
    assert!(matches!(app.add_char('x', at(1)), Action::Idle));
    assert!(matches!(app.on_ctrl_key('u'), Action::Idle));
    assert!(matches!(app.on_ctrl_key('z'), Action::Idle));
    assert_eq!(app.mode(), Mode::Browsing);
    assert!(app.sticky_note.is_empty());
    assert_eq!(app.tabs.index, 0);
    assert_eq!(app.sticky_note.selected, 0);
}

#[test]
fn free_text_is_written_into_the_active_note() {
    let mut app = seeded();
    app.on_right();
    app.on_ctrl_key('k');
    assert_eq!(app.mode(), Mode::AddingFreeNote);
    type_text(&mut app, "line\nnexx");
    assert_eq!(app.sticky_note.items[1].note, "line\nnexx");
    app.on_backspace();
    app.on_delete();
    app.add_char('w', at(1));
    assert_eq!(app.sticky_note.items[1].note, "line\nnew");
    assert_eq!(app.mode(), Mode::AddingFreeNote);
    assert_eq!(app.sticky_note.items[0].note, "You can add to the Notes by hitting ctrl-k.");
    app.on_up();
    app.on_down();
    assert_eq!(app.sticky_note.items[1].list.selected, 0);
}

#[test]
fn enter_starts_the_command_of_the_selected_todo() {
    let mut app = seeded();
    assert!(matches!(app.add_char('\n', at(1)), Action::Idle));
    for _ in 0..7 {
        app.on_down();
    }
    match app.add_char('\n', at(1)) {
        Action::Run(command) => {
            assert_eq!(command.program, "sensible-browser");
            assert_eq!(command.args, vec!["https://github.com/DevinR528/forget".to_string()]);
        }
        other => panic!("{:?}", other),
    }
    assert_eq!(app.mode(), Mode::Browsing);
    assert_eq!(app.sticky_note.items[0].list.len(), 8);
    assert!(matches!(app.add_char('x', at(1)), Action::Idle));
}

#[test]
fn enter_in_an_entry_mode_starts_nothing() {
    let mut app = seeded();
    for _ in 0..7 {
        app.on_down();
    }
    app.on_ctrl_key('k');
    assert!(matches!(app.add_char('\n', at(1)), Action::Idle));
    app.on_ctrl_key('n');
    app.on_down();
    type_text(&mut app, "true");
    assert!(matches!(app.add_char('\n', at(1)), Action::Idle));
    app.on_ctrl_key('h');
    assert!(matches!(app.add_char('\n', at(1)), Action::Idle));
}

#[test]
fn blank_command_starts_nothing() {
    let todo = Todo { date: at(0), task: "t".to_string(), cmd: "  \t ".to_string(), completed: false };
    let note = Remind { title: "n".to_string(), note: String::new(), list: ListState::new(vec![todo]) };
    let mut app = App::new(AppConfig::default(), ListState::new(vec![note]));
    assert!(matches!(app.add_char('\n', at(1)), Action::Idle));
}

#[test]
fn quit_and_save_ask_the_caller() {
    let mut app = seeded();
    assert!(matches!(app.on_ctrl_key('s'), Action::Save));
    assert!(!app.should_quit);
    assert_eq!(app.sticky_note.len(), 2);
    assert!(matches!(app.on_ctrl_key('q'), Action::Quit));
    assert!(app.should_quit);
    assert_eq!(app.mode(), Mode::Browsing);
}

#[test]
fn a_key_bound_twice_acts_as_the_first_binding() {
    let mut config = AppConfig::default();
    config.save_state_to_db_char_ctrl = 'n';
    config.remove_sticky_note_char_ctrl = 'q';
    let mut app = App::new(config, seed_notes(at(0)));
    assert!(matches!(app.on_ctrl_key('n'), Action::Idle));
    assert_eq!(app.mode(), Mode::AddingTodo);
    assert!(matches!(app.on_ctrl_key('q'), Action::Quit));
    assert_eq!(app.sticky_note.len(), 2);
}

#[test]
fn failure_is_recorded_and_the_session_goes_on() {
    let mut app = seeded();
    app.on_failure("disk full".to_string());
    assert_eq!(app.cmd_err, "disk full");
    assert!(!app.should_quit);
    assert!(matches!(app.on_ctrl_key('s'), Action::Save));
}

#[test]
fn events_are_dispatched_to_their_handlers() {
    let mut app = seeded();
    let key = |app: &mut App, key: AppKey| app.handle(Event::Input(key), at(9));
    assert!(matches!(key(&mut app, AppKey::Down), Action::Idle));
    assert_eq!(app.sticky_note.items[0].list.selected, 1);
    key(&mut app, AppKey::Up);
    assert_eq!(app.sticky_note.items[0].list.selected, 0);
    key(&mut app, AppKey::Right);
    assert_eq!(app.tabs.index, 1);
    key(&mut app, AppKey::Left);
    assert_eq!(app.tabs.index, 0);
    key(&mut app, AppKey::Backspace);
    assert!(app.sticky_note.items[0].list.items[0].completed);
    key(&mut app, AppKey::Delete);
    assert_eq!(app.sticky_note.items[0].list.len(), 7);
    key(&mut app, AppKey::Ctrl('n'));
    assert_eq!(app.mode(), Mode::AddingTodo);
    key(&mut app, AppKey::Char('z'));
    key(&mut app, AppKey::Char('\n'));
    assert_eq!(app.sticky_note.items[0].list.items[7].task, "z");
    assert_eq!(app.sticky_note.items[0].list.items[7].date, at(9));
    for other in [AppKey::Home, AppKey::End, AppKey::PageUp, AppKey::PageDown, AppKey::BackTab, AppKey::Insert, AppKey::F(1), AppKey::Alt('n'), AppKey::Null] {
        assert!(matches!(key(&mut app, other), Action::Idle));
    }
    assert!(matches!(app.handle(Event::Tick, at(9)), Action::Idle));
    assert_eq!(app.mode(), Mode::Browsing);
    assert_eq!(app.sticky_note.items[0].list.len(), 8);
    assert!(matches!(key(&mut app, AppKey::Ctrl('s')), Action::Save));
    assert!(matches!(key(&mut app, AppKey::Esc), Action::Quit));
    assert!(app.should_quit);
}

#[test]
fn on_event_reads_the_clock() {
    let mut app = seeded();
    app.on_event(Event::Input(AppKey::Ctrl('n')));
    app.on_event(Event::Input(AppKey::Char('c')));
    assert!(matches!(app.on_event(Event::Input(AppKey::Char('\n'))), Action::Idle));
    let added = &app.sticky_note.items[0].list.items[8];
    assert_eq!(added.task, "c");
    assert!((1..=12).contains(&added.date.month));
    assert!(matches!(app.on_event(Event::Tick), Action::Idle));
}

#[test]
fn validity_follows_the_invariants() {
    assert!(seeded().is_valid());
    assert!(blank().is_valid());

    let mut two_modes = seeded();
    two_modes.new_todo = true;
    assert!(two_modes.is_valid());
    two_modes.new_note = true;
    assert!(!two_modes.is_valid());

    let mut renamed = seeded();
    renamed.tabs.titles[1] = "Other".to_string();
    assert!(!renamed.is_valid());

    let mut missing_tab = seeded();
    missing_tab.tabs.titles.pop();
    assert!(!missing_tab.is_valid());

    let mut past_the_bar = seeded();
    past_the_bar.tabs.index = 2;
    assert!(!past_the_bar.is_valid());

    let mut past_the_list = seeded();
    past_the_list.sticky_note.items[1].list.selected = 3;
    assert!(!past_the_list.is_valid());

    let mut past_the_notes = seeded();
    past_the_notes.sticky_note.selected = 2;
    assert!(!past_the_notes.is_valid());

    let mut third_field = seeded();
    third_field.add_todo.question_index = 2;
    assert!(!third_field.is_valid());
}

#[test]
fn every_handler_keeps_the_application_valid() {
    let mut app = seeded();
    let keys = [
        AppKey::Ctrl('h'), AppKey::Char('t'), AppKey::Char('\n'), AppKey::Right, AppKey::Right,
        AppKey::Ctrl('n'), AppKey::Char('a'), AppKey::Down, AppKey::Char('b'), AppKey::Char('\n'),
        AppKey::Down, AppKey::Ctrl('e'), AppKey::Backspace, AppKey::Char('c'), AppKey::Char('\n'),
        AppKey::Ctrl('k'), AppKey::Char('d'), AppKey::Delete, AppKey::Ctrl('k'), AppKey::Backspace,
        AppKey::Delete, AppKey::Delete, AppKey::Up, AppKey::Left, AppKey::Ctrl('u'), AppKey::Ctrl('u'),
        AppKey::Ctrl('u'), AppKey::Ctrl('u'), AppKey::Char('\n'), AppKey::Ctrl('s'), AppKey::Esc,
    ];
    for key in keys {
        assert!(app.is_valid());
        app.handle(Event::Input(key), at(3));
    }
    assert!(app.is_valid());
    assert!(app.sticky_note.is_empty());
    assert!(app.should_quit);
}
