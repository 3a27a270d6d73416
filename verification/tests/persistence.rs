use forget::list::ListState;
use forget::note::{Remind, Todo};
use forget::seed::seed_notes;
use forget::snapshot::{notes_valid, restore, snapshot, RemindRecord, SnapshotError, TodoRecord};
use forget::time::{deserialize, serialize, DateError, Timestamp, DATE_FORMAT};

fn stamp(year: i32, month: u32, day: u32, hour: u32, minute: u32, second: u32) -> Timestamp {
    Timestamp { year, month, day, hour, minute, second, nanosecond: 0 }
}

fn todo(task: &str, cmd: &str, date: Timestamp, completed: bool) -> Todo {
    Todo { date, task: task.to_string(), cmd: cmd.to_string(), completed }
}

fn record(date: &str, task: &str) -> TodoRecord {
    TodoRecord { date: date.to_string(), task: task.to_string(), cmd: String::new(), completed: false }
}

fn note_record(title: &str, items: Vec<TodoRecord>, selected: usize) -> RemindRecord {
    RemindRecord {
        title: title.to_string(),
        note: String::new(),
        list: ListState { items, selected },
    }
}

#[test]
fn date_format_is_year_to_second() {
    assert_eq!(DATE_FORMAT, "%Y-%m-%d %H:%M:%S");
}

#[test]
fn serialize_writes_zero_padded_fields() {
    assert_eq!(serialize(&stamp(2015, 9, 5, 23, 56, 4)).as_deref(), Some("2015-09-05 23:56:04"));
    assert_eq!(serialize(&stamp(7, 1, 2, 0, 0, 0)).as_deref(), Some("0007-01-02 00:00:00"));
    assert_eq!(serialize(&stamp(9999, 12, 31, 23, 59, 59)).as_deref(), Some("9999-12-31 23:59:59"));
    assert_eq!(serialize(&stamp(0, 2, 29, 1, 2, 3)).as_deref(), Some("0000-02-29 01:02:03"));
}

#[test]
fn serialize_drops_the_part_below_a_second() {
    let date = Timestamp { nanosecond: 987_654_321, ..stamp(2020, 2, 29, 12, 0, 1) };
    assert_eq!(serialize(&date).as_deref(), Some("2020-02-29 12:00:01"));
}

#[test]
fn serialize_writes_a_leap_second_as_sixty() {
    let date = Timestamp { nanosecond: 1_000_000_000, ..stamp(2016, 12, 31, 23, 59, 59) };
    assert_eq!(serialize(&date).as_deref(), Some("2016-12-31 23:59:60"));
}

#[test]
fn serialize_refuses_fields_that_name_no_date() {
    assert_eq!(serialize(&stamp(2015, 2, 29, 0, 0, 0)), None);
    assert_eq!(serialize(&stamp(2015, 0, 1, 0, 0, 0)), None);
    assert_eq!(serialize(&stamp(2015, 13, 1, 0, 0, 0)), None);
    assert_eq!(serialize(&stamp(2015, 4, 31, 0, 0, 0)), None);
    assert_eq!(serialize(&stamp(2015, 1, 1, 24, 0, 0)), None);
    assert_eq!(serialize(&stamp(2015, 1, 1, 0, 60, 0)), None);
    assert_eq!(serialize(&stamp(2015, 1, 1, 0, 0, 60)), None);
    let late = Timestamp { nanosecond: 1_000_000_000, ..stamp(2015, 1, 1, 0, 0, 58) };
    assert_eq!(serialize(&late), None);
}

#[test]
fn deserialize_reads_what_serialize_writes() {
    assert_eq!(deserialize("2015-09-05 23:56:04"), Ok(stamp(2015, 9, 5, 23, 56, 4)));
    assert_eq!(deserialize("2001-07-08 00:34:59"), Ok(stamp(2001, 7, 8, 0, 34, 59)));
}

#[test]
fn deserialize_rejects_other_text() {
    assert_eq!(deserialize(""), Err(DateError));
    assert_eq!(deserialize("yesterday"), Err(DateError));
    assert_eq!(deserialize("2015-09-05"), Err(DateError));
    assert_eq!(deserialize("2015-02-30 10:00:00"), Err(DateError));
    assert_eq!(deserialize("2015-09-05 25:00:00"), Err(DateError));
    assert_eq!(deserialize("2015-09-05 23:56:04 and more"), Err(DateError));
}

#[test]
fn timestamp_round_trip_keeps_whole_seconds() {
    let date = Timestamp { nanosecond: 123_456_789, ..stamp(2024, 3, 9, 8, 7, 6) };
    let text = serialize(&date).unwrap();
    assert_eq!(deserialize(&text), Ok(stamp(2024, 3, 9, 8, 7, 6)));
}

#[test]
fn now_is_a_calendar_date() {
    let now = Timestamp::now();
    assert!((1..=12).contains(&now.month));
    assert!((1..=31).contains(&now.day));
    assert!(now.hour < 24);
    assert!(now.minute < 60);
    assert!(now.second < 60);
    assert!(now.year >= 1970);
    assert!(serialize(&now).is_some());
}

#[test]
fn todo_record_holds_the_date_as_text() {
    let record = todo("Buy milk", "ls", stamp(2021, 1, 2, 3, 4, 5), true).to_record().unwrap();
    assert_eq!(record.date, "2021-01-02 03:04:05");
    assert_eq!(record.task, "Buy milk");
    assert_eq!(record.cmd, "ls");
    assert!(record.completed);
}

#[test]
fn todo_without_a_real_date_has_no_record() {
    assert!(todo("x", "", stamp(2021, 2, 30, 0, 0, 0), false).to_record().is_none());
}

#[test]
fn record_with_unreadable_date_is_no_todo() {
    assert!(record("soon", "x").to_todo().is_none());
    let back = record("2021-01-02 03:04:05", "x").to_todo().unwrap();
    assert_eq!(back.date, stamp(2021, 1, 2, 3, 4, 5));
    assert_eq!(back.task, "x");
}

#[test]
fn snapshot_round_trip_keeps_every_field_but_the_fraction() {
    let date = Timestamp { nanosecond: 999_999_999, ..stamp(2022, 11, 30, 7, 8, 9) };
    let mut first = Remind {
        title: "Shopping".to_string(),
        note: "on the way home\n".to_string(),
        list: ListState::new(vec![
            todo("Buy milk", "", date, false),
            todo("Open site", "xdg-open https://example.org", date, true),
        ]),
    };
    first.list.select_next();
    let second = Remind::default();
    let mut notes = ListState::new(vec![first, second]);
    notes.select_next();

    let records = snapshot(&notes).unwrap();
    assert_eq!(records.items[0].list.items[0].date, "2022-11-30 07:08:09");
    let back = restore(&records).unwrap();

    assert_eq!(back.selected, 1);
    assert_eq!(back.len(), 2);
    assert_eq!(back.items[0].title, "Shopping");
    assert_eq!(back.items[0].note, "on the way home\n");
    assert_eq!(back.items[0].list.selected, 1);
    assert_eq!(back.items[0].list.len(), 2);
    for (after, before) in back.items[0].list.iter().zip(notes.items[0].list.iter()) {
        assert_eq!(after.task, before.task);
        assert_eq!(after.cmd, before.cmd);
        assert_eq!(after.completed, before.completed);
        assert_eq!(after.date, Timestamp { nanosecond: 0, ..before.date });
    }
    assert_eq!(back.items[1].title, "");
    assert_eq!(back.items[1].note, "");
    assert!(back.items[1].list.is_empty());
    assert_eq!(back.items[1].list.selected, 0);
}

#[test]
fn snapshot_fails_on_a_date_that_cannot_be_written() {
    let notes = ListState::new(vec![Remind {
        title: "t".to_string(),
        note: String::new(),
        list: ListState::new(vec![todo("x", "", stamp(2021, 13, 1, 0, 0, 0), false)]),
    }]);
    assert!(snapshot(&notes).is_none());
}

#[test]
fn restore_reports_an_unreadable_date() {
    let records = ListState::new(vec![
        note_record("a", vec![record("2021-01-02 03:04:05", "fine")], 0),
        note_record("b", vec![record("2021-01-02", "short")], 0),
    ]);
    assert_eq!(restore(&records).err(), Some(SnapshotError::Date));
}

#[test]
fn restore_reports_a_cursor_outside_its_list() {
    let inner = ListState::new(vec![note_record("a", vec![record("2021-01-02 03:04:05", "x")], 1)]);
    assert_eq!(restore(&inner).err(), Some(SnapshotError::Cursor));
    let outer = ListState {
        items: vec![note_record("a", vec![record("2021-01-02 03:04:05", "x")], 0)],
        selected: 1,
    };
    assert_eq!(restore(&outer).err(), Some(SnapshotError::Cursor));
    let empty: ListState<RemindRecord> = ListState { items: Vec::new(), selected: 3 };
    assert_eq!(restore(&empty).err(), Some(SnapshotError::Cursor));
}

#[test]
fn restore_reports_the_date_before_the_cursor() {
    let records = ListState {
        items: vec![note_record("a", vec![record("never", "x")], 4)],
        selected: 9,
    };
    assert_eq!(restore(&records).err(), Some(SnapshotError::Date));
}

#[test]
fn restore_accepts_an_empty_snapshot() {
    let empty: ListState<RemindRecord> = ListState::new(Vec::new());
    let notes = restore(&empty).unwrap();
    assert!(notes.is_empty());
    assert_eq!(notes.selected, 0);
}

#[test]
fn validity_checks_follow_the_cursors() {
    assert!(ListState::new(vec![1, 2]).is_valid());
    assert!(ListState::<u8>::new(Vec::new()).is_valid());
    assert!(ListState { items: vec![1, 2], selected: 1 }.is_valid());
    assert!(!ListState { items: vec![1, 2], selected: 2 }.is_valid());
    assert!(!ListState { items: Vec::<u8>::new(), selected: 1 }.is_valid());
    let mut notes = seed_notes(stamp(2020, 1, 1, 0, 0, 0));
    assert!(notes_valid(&notes));
    notes.items[1].list.selected = 3;
    assert!(!notes_valid(&notes));
    notes.items[1].list.selected = 2;
    notes.selected = 2;
    assert!(!notes_valid(&notes));
}

#[test]
fn seed_holds_two_notes() {
    let date = stamp(2020, 5, 6, 7, 8, 9);
    let notes = seed_notes(date);
    assert_eq!(notes.selected, 0);
    assert_eq!(notes.len(), 2);
    assert_eq!(notes.items[0].title, "Note One");
    assert_eq!(notes.items[0].note, "You can add to the Notes by hitting ctrl-k.");
    assert_eq!(notes.items[0].list.len(), 8);
    assert_eq!(notes.items[0].list.selected, 0);
    assert_eq!(notes.items[0].list.items[0].task, "You can add a Sticky Note by hitting ctrl-h");
    assert_eq!(notes.items[0].list.items[6].task, "Oh you can exit by ctrl-q or Esc");
    assert_eq!(
        notes.items[0].list.items[7].task,
        "Todo's can run commands when selected with Enter."
    );
    assert_eq!(
        notes.items[0].list.items[7].cmd,
        "sensible-browser https://github.com/DevinR528/forget"
    );
    assert_eq!(notes.items[1].title, "Note Two");
    assert_eq!(notes.items[1].note, "");
    let tasks: Vec<&str> = notes.items[1].list.iter().map(|t| t.as_str()).collect();
    assert_eq!(tasks, vec!["First", "Second", "Third"]);
    for note in notes.iter() {
        for todo in note.list.iter() {
            assert_eq!(todo.date, date);
            assert!(!todo.completed);
        }
    }
    for todo in notes.items[0].list.items[..7].iter().chain(notes.items[1].list.iter()) {
        assert_eq!(todo.cmd, "");
    }
}

#[test]
fn seed_survives_a_round_trip() {
    let date = stamp(2020, 5, 6, 7, 8, 9);
    let back = restore(&snapshot(&seed_notes(date)).unwrap()).unwrap();
    assert_eq!(back.len(), 2);
    assert_eq!(back.items[0].list.len(), 8);
    assert_eq!(back.items[1].list.items[2].task, "Third");
    assert_eq!(back.items[1].list.items[2].date, date);
}

fn leap(year: i32) -> bool {
    year % 4 == 0 && (year % 100 != 0 || year % 400 == 0)
}

fn month_length(year: i32, month: u32) -> u32 {
    match month {
        2 => {
            if leap(year) {
                29
            } else {
                28
            }
        }
        4 | 6 | 9 | 11 => 30,
        _ => 31,
    }
}

#[test]
fn every_calendar_day_is_written_in_the_layout_and_read_back() {
    let times = [(0, 0, 0, 0), (23, 59, 59, 999_999_999), (12, 34, 56, 1), (9, 5, 7, 500_000_000)];
    for year in [0, 1, 4, 99, 100, 400, 999, 1000, 1900, 2000, 2023, 2024, 9999] {
        for month in 1..=12u32 {
            for day in 1..=31u32 {
                for (hour, minute, second, nanosecond) in times {
                    let date = Timestamp { year, month, day, hour, minute, second, nanosecond };
                    let text = serialize(&date);
                    if day > month_length(year, month) {
                        assert_eq!(text, None);
                        continue;
                    }
                    let expected = format!(
                        "{:04}-{:02}-{:02} {:02}:{:02}:{:02}",
                        year, month, day, hour, minute, second
                    );
                    assert_eq!(text.as_deref(), Some(expected.as_str()));
                    assert_eq!(deserialize(&expected), Ok(Timestamp { nanosecond: 0, ..date }));
                }
            }
        }
    }
}

#[test]
fn leap_second_survives_as_a_leap_second() {
    let date = Timestamp { nanosecond: 1_999_999_999, ..stamp(2008, 12, 31, 23, 59, 59) };
    let text = serialize(&date).unwrap();
    assert_eq!(text, "2008-12-31 23:59:60");
    assert_eq!(deserialize(&text), Ok(Timestamp { nanosecond: 1_000_000_000, ..date }));
    assert_eq!(
        deserialize("2020-06-15 10:20:60"),
        Ok(Timestamp { nanosecond: 1_000_000_000, ..stamp(2020, 6, 15, 10, 20, 59) })
    );
}

#[test]
fn text_in_the_layout_that_names_no_date_is_rejected() {
    assert_eq!(deserialize("2015-13-01 00:00:00"), Err(DateError));
    assert_eq!(deserialize("2015-00-10 00:00:00"), Err(DateError));
    assert_eq!(deserialize("2015-04-31 00:00:00"), Err(DateError));
    assert_eq!(deserialize("2015-01-00 00:00:00"), Err(DateError));
    assert_eq!(deserialize("2015-01-01 24:00:00"), Err(DateError));
    assert_eq!(deserialize("2015-01-01 00:60:00"), Err(DateError));
    assert_eq!(deserialize("2015-01-01 00:00:61"), Err(DateError));
    assert_eq!(deserialize("1900-02-29 00:00:00"), Err(DateError));
    assert_eq!(deserialize("2000-02-29 00:00:00"), Ok(stamp(2000, 2, 29, 0, 0, 0)));
}
