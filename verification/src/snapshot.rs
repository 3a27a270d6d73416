//! The persisted form of the notes: the same collection with every
//! timestamp written as text, and the way back from it.

use crate::list::{ListState, ListView};
use crate::machine::notes_wf;
use crate::note::{Remind, RemindView, Todo, TodoView};
use crate::time::{deserialize, lemma_read_written, read, serialize, written, Timestamp};
use vstd::prelude::*;

verus! {

/// The mathematical model of a persisted todo.
#[verifier::ext_equal]
pub struct TodoRecordView {
    pub date: Seq<char>,
    pub task: Seq<char>,
    pub cmd: Seq<char>,
    pub completed: bool,
}

/// The mathematical model of a persisted note.
#[verifier::ext_equal]
pub struct RemindRecordView {
    pub title: Seq<char>,
    pub note: Seq<char>,
    pub list: ListView<TodoRecordView>,
}

/// A todo as it is persisted.
#[derive(Clone, Debug)]
pub struct TodoRecord {
    pub date: String,
    pub task: String,
    pub cmd: String,
    pub completed: bool,
}

/// The model of a persisted todo.
impl View for TodoRecord {
    type V = TodoRecordView;

    open spec fn view(&self) -> TodoRecordView {
        TodoRecordView {
            date: self.date@,
            task: self.task@,
            cmd: self.cmd@,
            completed: self.completed,
        }
    }
}

/// A note as it is persisted.
#[derive(Clone, Debug)]
pub struct RemindRecord {
    pub title: String,
    pub note: String,
    pub list: ListState<TodoRecord>,
}

/// The model of a persisted note.
impl View for RemindRecord {
    type V = RemindRecordView;

    open spec fn view(&self) -> RemindRecordView {
        RemindRecordView { title: self.title@, note: self.note@, list: self.list@ }
    }
}

/// Why a snapshot could not be restored.
#[derive(Clone, Copy, Debug, PartialEq, Eq, Structural)]
pub enum SnapshotError {
    /// The date of a todo is no timestamp.
    Date,
    /// A cursor points outside its list.
    Cursor,
}

/// The persisted form of a todo whose date can be written.
pub open spec fn todo_record(todo: TodoView) -> TodoRecordView {
    TodoRecordView {
        date: written(todo.date).unwrap(),
        task: todo.task,
        cmd: todo.cmd,
        completed: todo.completed,
    }
}

/// The persisted form of a list of todos whose dates can be written.
pub open spec fn todo_records(list: ListView<TodoView>) -> ListView<TodoRecordView> {
    ListView {
        items: Seq::new(list.items.len(), |j: int| todo_record(list.items[j])),
        selected: list.selected,
    }
}

/// The persisted form of a note whose dates can be written.
pub open spec fn note_record(note: RemindView) -> RemindRecordView {
    RemindRecordView { title: note.title, note: note.note, list: todo_records(note.list) }
}

/// Every date in the list can be written.
pub open spec fn list_writable(todos: Seq<TodoView>) -> bool {
    forall|j: int| 0 <= j < todos.len() ==> written((#[trigger] todos[j]).date).is_some()
}

/// Every date in the collection can be written.
pub open spec fn writable(notes: Seq<RemindView>) -> bool {
    forall|i: int| 0 <= i < notes.len() ==> list_writable((#[trigger] notes[i]).list.items)
}

/// The persisted form of a collection: `None` where a date cannot be
/// written.
pub open spec fn snapshot_of(notes: ListView<RemindView>) -> Option<ListView<RemindRecordView>> {
    if writable(notes.items) {
        Some(
            ListView {
                items: Seq::new(notes.items.len(), |i: int| note_record(notes.items[i])),
                selected: notes.selected,
            },
        )
    } else {
        None
    }
}

/// The todo that a record with a readable date stands for.
pub open spec fn record_todo(record: TodoRecordView) -> TodoView {
    TodoView {
        date: read(record.date).unwrap(),
        task: record.task,
        cmd: record.cmd,
        completed: record.completed,
    }
}

/// The list that a list of records with readable dates stands for.
pub open spec fn record_todos(list: ListView<TodoRecordView>) -> ListView<TodoView> {
    ListView {
        items: Seq::new(list.items.len(), |j: int| record_todo(list.items[j])),
        selected: list.selected,
    }
}

/// The note that a record with readable dates stands for.
pub open spec fn record_note(record: RemindRecordView) -> RemindView {
    RemindView { title: record.title, note: record.note, list: record_todos(record.list) }
}

/// Every date in the list can be read.
pub open spec fn list_readable(records: Seq<TodoRecordView>) -> bool {
    forall|j: int| 0 <= j < records.len() ==> read((#[trigger] records[j]).date).is_some()
}

/// Every date in the records can be read.
pub open spec fn readable(records: Seq<RemindRecordView>) -> bool {
    forall|i: int| 0 <= i < records.len() ==> list_readable((#[trigger] records[i]).list.items)
}

/// The cursor of the collection and that of every note are valid.
pub open spec fn cursors_valid(records: ListView<RemindRecordView>) -> bool {
    &&& records.wf()
    &&& forall|i: int| 0 <= i < records.items.len() ==> (#[trigger] records.items[i]).list.wf()
}

/// The collection that a snapshot stands for. A date that cannot be read
/// is reported before a cursor that points outside its list.
pub open spec fn restore_of(records: ListView<RemindRecordView>) -> Result<
    ListView<RemindView>,
    SnapshotError,
> {
    if !readable(records.items) {
        Err(SnapshotError::Date)
    } else if !cursors_valid(records) {
        Err(SnapshotError::Cursor)
    } else {
        Ok(
            ListView {
                items: Seq::new(records.items.len(), |i: int| record_note(records.items[i])),
                selected: records.selected,
            },
        )
    }
}

/// A timestamp as it comes back after being written and read.
pub open spec fn reread(date: Timestamp) -> Option<Timestamp> {
    match written(date) {
        Some(text) => read(text),
        None => None,
    }
}

/// A todo with its timestamp written and read again.
pub open spec fn reread_todo(todo: TodoView) -> TodoView {
    TodoView { date: reread(todo.date).unwrap(), ..todo }
}

/// A note with the timestamp of every todo written and read again.
pub open spec fn reread_note(note: RemindView) -> RemindView {
    RemindView {
        list: ListView {
            items: Seq::new(note.list.items.len(), |j: int| reread_todo(note.list.items[j])),
            ..note.list
        },
        ..note
    }
}

/// A collection with the timestamp of every todo written and read again.
pub open spec fn reread_notes(notes: ListView<RemindView>) -> ListView<RemindView> {
    ListView {
        items: Seq::new(notes.items.len(), |i: int| reread_note(notes.items[i])),
        ..notes
    }
}

/// Every date in the collection can be read from what is written for it.
pub open spec fn rereadable(notes: Seq<RemindView>) -> bool {
    forall|i: int, j: int|
        0 <= i < notes.len() && 0 <= j < notes[i].list.items.len() ==> reread(
            (#[trigger] notes[i].list.items[j]).date,
        ).is_some()
}

impl Todo {
    /// The persisted form of the todo; `None` where its date cannot be
    /// written.
    pub fn to_record(&self) -> (record: Option<TodoRecord>)
        ensures
            record.is_some() <==> written(self.date).is_some(),
            record matches Some(r) ==> r@ == todo_record(self@),
    {
        match serialize(&self.date) {
            Some(date) => Some(
                TodoRecord {
                    date,
                    task: self.task.clone(),
                    cmd: self.cmd.clone(),
                    completed: self.completed,
                },
            ),
            None => None,
        }
    }
}

impl TodoRecord {
    /// The todo that the record stands for; `None` where its date cannot be
    /// read.
    pub fn to_todo(&self) -> (todo: Option<Todo>)
        ensures
            todo.is_some() <==> read(self.date@).is_some(),
            todo matches Some(t) ==> t@ == record_todo(self@),
    {
        match deserialize(self.date.as_str()) {
            Ok(date) => Some(
                Todo {
                    date,
                    task: self.task.clone(),
                    cmd: self.cmd.clone(),
                    completed: self.completed,
                },
            ),
            Err(_) => None,
        }
    }
}

impl Remind {
    /// The persisted form of the note; `None` where a date cannot be
    /// written.
    pub fn to_record(&self) -> (record: Option<RemindRecord>)
        ensures
            record.is_some() <==> list_writable(self@.list.items),
            record matches Some(r) ==> r@ == note_record(self@),
    {
        let mut items: Vec<TodoRecord> = Vec::new();
        let mut j: usize = 0;
        while j < self.list.items.len()
            invariant
                j <= self.list.items@.len(),
                items@.len() == j,
                forall|k: int| 0 <= k < j ==> written((#[trigger] self@.list.items[k]).date).is_some(),
                forall|k: int| 0 <= k < j ==> (#[trigger] items@[k])@ == todo_record(self@.list.items[k]),
            decreases self.list.items@.len() - j,
        {
            match self.list.items[j].to_record() {
                Some(record) => items.push(record),
                None => {
                    assert(!written(self@.list.items[j as int].date).is_some());
                    return None;
                },
            }
            j += 1;
        }
        let record = RemindRecord {
            title: self.title.clone(),
            note: self.note.clone(),
            list: ListState { items, selected: self.list.selected },
        };
        assert(record@.list.items =~= note_record(self@).list.items);
        Some(record)
    }
}

impl RemindRecord {
    /// The note that the record stands for; `None` where a date cannot be
    /// read. The cursor is taken as it is.
    pub fn to_remind(&self) -> (note: Option<Remind>)
        ensures
            note.is_some() <==> list_readable(self@.list.items),
            note matches Some(n) ==> n@ == record_note(self@),
    {
        let mut items: Vec<Todo> = Vec::new();
        let mut j: usize = 0;
        while j < self.list.items.len()
            invariant
                j <= self.list.items@.len(),
                items@.len() == j,
                forall|k: int|
                    0 <= k < j ==> read((#[trigger] self@.list.items[k]).date).is_some(),
                forall|k: int| 0 <= k < j ==> (#[trigger] items@[k])@ == record_todo(self@.list.items[k]),
            decreases self.list.items@.len() - j,
        {
            match self.list.items[j].to_todo() {
                Some(todo) => items.push(todo),
                None => {
                    assert(!read(self@.list.items[j as int].date).is_some());
                    return None;
                },
            }
            j += 1;
        }
        let note = Remind {
            title: self.title.clone(),
            note: self.note.clone(),
            list: ListState { items, selected: self.list.selected },
        };
        assert(note@.list.items =~= record_note(self@).list.items);
        Some(note)
    }
}

/// The persisted form of the notes; `None` where a date cannot be written.
pub fn snapshot(notes: &ListState<Remind>) -> (records: Option<ListState<RemindRecord>>)
    ensures
        match records {
            Some(r) => Some(r@) == snapshot_of(notes@),
            None => snapshot_of(notes@).is_none(),
        },
{
    let mut items: Vec<RemindRecord> = Vec::new();
    let mut i: usize = 0;
    while i < notes.items.len()
        invariant
            i <= notes.items@.len(),
            items@.len() == i,
            forall|k: int| 0 <= k < i ==> list_writable((#[trigger] notes@.items[k]).list.items),
            forall|k: int| 0 <= k < i ==> (#[trigger] items@[k])@ == note_record(notes@.items[k]),
        decreases notes.items@.len() - i,
    {
        match notes.items[i].to_record() {
            Some(record) => items.push(record),
            None => {
                assert(!list_writable(notes@.items[i as int].list.items));
                return None;
            },
        }
        i += 1;
    }
    let records = ListState { items, selected: notes.selected };
    assert(records@.items =~= snapshot_of(notes@).unwrap().items);
    Some(records)
}

/// The notes that a snapshot stands for.
pub fn restore(records: &ListState<RemindRecord>) -> (notes: Result<
    ListState<Remind>,
    SnapshotError,
>)
    ensures
        match notes {
            Ok(n) => restore_of(records@) == Ok::<ListView<RemindView>, SnapshotError>(n@)
                && notes_wf(n@),
            Err(e) => restore_of(records@) == Err::<ListView<RemindView>, SnapshotError>(e),
        },
{
    let mut items: Vec<Remind> = Vec::new();
    let mut cursors: bool = records.is_valid();
    let mut i: usize = 0;
    while i < records.items.len()
        invariant
            i <= records.items@.len(),
            items@.len() == i,
            forall|k: int| 0 <= k < i ==> list_readable((#[trigger] records@.items[k]).list.items),
            forall|k: int| 0 <= k < i ==> (#[trigger] items@[k])@ == record_note(records@.items[k]),
            cursors == (records@.wf() && forall|k: int|
                0 <= k < i ==> (#[trigger] records@.items[k]).list.wf()),
        decreases records.items@.len() - i,
    {
        match records.items[i].to_remind() {
            Some(note) => {
                let ok = records.items[i].list.is_valid();
                assert(ok == records@.items[i as int].list.wf());
                cursors = cursors && ok;
                items.push(note);
            },
            None => {
                assert(!list_readable(records@.items[i as int].list.items));
                return Err(SnapshotError::Date);
            },
        }
        i += 1;
    }
    if !cursors {
        return Err(SnapshotError::Cursor);
    }
    let notes = ListState { items, selected: records.selected };
    assert(notes@.items =~= restore_of(records@).unwrap().items);
    assert forall|k: int| 0 <= k < notes@.items.len() implies (#[trigger] notes@.items[k]).wf() by {
        assert(records@.items[k].list.wf());
    }
    Ok(notes)
}

/// Whether the cursor of the collection and that of every note are valid.
pub fn notes_valid(notes: &ListState<Remind>) -> (valid: bool)
    ensures
        valid == notes_wf(notes@),
{
    let mut valid: bool = notes.is_valid();
    let mut i: usize = 0;
    while i < notes.items.len()
        invariant
            i <= notes.items@.len(),
            valid == (notes@.wf() && forall|k: int|
                0 <= k < i ==> (#[trigger] notes@.items[k]).wf()),
        decreases notes.items@.len() - i,
    {
        let ok = notes.items[i].list.is_valid();
        assert(ok == notes@.items[i as int].wf());
        valid = valid && ok;
        i += 1;
    }
    valid
}

/// Saving and restoring gives the collection back, field for field, but for
/// the timestamps: each is what is read from the text written for it. Where
/// one of them cannot be read back, restoring reports the date.
pub proof fn lemma_snapshot_reread(notes: ListView<RemindView>)
    requires
        notes_wf(notes),
    ensures
        snapshot_of(notes) matches Some(records) ==> restore_of(records) == if rereadable(
            notes.items,
        ) {
            Ok::<ListView<RemindView>, SnapshotError>(reread_notes(notes))
        } else {
            Err::<ListView<RemindView>, SnapshotError>(SnapshotError::Date)
        },
{
    if snapshot_of(notes).is_some() {
        let records = snapshot_of(notes).unwrap();
        if rereadable(notes.items) {
            assert forall|i: int| 0 <= i < records.items.len() implies list_readable(
                (#[trigger] records.items[i]).list.items,
            ) by {
                assert forall|j: int| 0 <= j < records.items[i].list.items.len() implies read(
                    (#[trigger] records.items[i].list.items[j]).date,
                ).is_some() by {
                    assert(reread(notes.items[i].list.items[j].date).is_some());
                }
            }
            assert forall|i: int| 0 <= i < records.items.len() implies (
            #[trigger] records.items[i]).list.wf() by {
                assert(notes.items[i].wf());
            }
            let restored = restore_of(records).unwrap();
            assert forall|i: int| 0 <= i < notes.items.len() implies restored.items[i] == reread_note(
                notes.items[i],
            ) by {
                assert(list_writable(notes.items[i].list.items));
                assert(restored.items[i].list.items =~= reread_note(notes.items[i]).list.items);
            }
            assert(restored.items =~= reread_notes(notes).items);
        } else {
            let (i, j) = choose|i: int, j: int|
                0 <= i < notes.items.len() && 0 <= j < notes.items[i].list.items.len() && !reread(
                    (#[trigger] notes.items[i].list.items[j]).date,
                ).is_some();
            assert(list_writable(notes.items[i].list.items));
            assert(written(notes.items[i].list.items[j].date).is_some());
            assert(!read(records.items[i].list.items[j].date).is_some());
            assert(!list_readable(records.items[i].list.items));
        }
    }
}

/// Every date in the collection is civil and in the years 0 to 9999.
pub open spec fn dates_have_layout(notes: Seq<RemindView>) -> bool {
    forall|i: int, j: int|
        0 <= i < notes.len() && 0 <= j < notes[i].list.items.len() ==> (
        #[trigger] notes[i].list.items[j]).date.has_layout()
}

/// A todo with its timestamp to the second.
pub open spec fn todo_to_the_second(todo: TodoView) -> TodoView {
    TodoView { date: todo.date.to_the_second(), ..todo }
}

/// A note with the timestamp of every todo to the second.
pub open spec fn note_to_the_second(note: RemindView) -> RemindView {
    RemindView {
        list: ListView {
            items: Seq::new(
                note.list.items.len(),
                |j: int| todo_to_the_second(note.list.items[j]),
            ),
            ..note.list
        },
        ..note
    }
}

/// A collection with the timestamp of every todo to the second.
pub open spec fn notes_to_the_second(notes: ListView<RemindView>) -> ListView<RemindView> {
    ListView {
        items: Seq::new(notes.items.len(), |i: int| note_to_the_second(notes.items[i])),
        ..notes
    }
}

/// Saving and restoring gives the collection back, field for field, with
/// every timestamp cut to the second. This holds of every well-formed
/// collection whose dates are civil and in the years 0 to 9999.
pub proof fn lemma_snapshot_round_trip(notes: ListView<RemindView>)
    requires
        notes_wf(notes),
        dates_have_layout(notes.items),
    ensures
        snapshot_of(notes).is_some(),
        restore_of(snapshot_of(notes).unwrap()) == Ok::<ListView<RemindView>, SnapshotError>(
            notes_to_the_second(notes),
        ),
{
    assert forall|i: int| 0 <= i < notes.items.len() implies list_writable(
        (#[trigger] notes.items[i]).list.items,
    ) by {
        assert forall|j: int| 0 <= j < notes.items[i].list.items.len() implies written(
            (#[trigger] notes.items[i].list.items[j]).date,
        ).is_some() by {
            lemma_read_written(notes.items[i].list.items[j].date);
        }
    }
    assert forall|i: int, j: int|
        0 <= i < notes.items.len() && 0 <= j < notes.items[i].list.items.len() implies reread(
        (#[trigger] notes.items[i].list.items[j]).date,
    ) == Some(notes.items[i].list.items[j].date.to_the_second()) by {
        lemma_read_written(notes.items[i].list.items[j].date);
    }
    lemma_snapshot_reread(notes);
    assert forall|i: int| 0 <= i < notes.items.len() implies reread_note(notes.items[i])
        == note_to_the_second(notes.items[i]) by {
        assert forall|j: int| 0 <= j < notes.items[i].list.items.len() implies reread_todo(
            notes.items[i].list.items[j],
        ) == todo_to_the_second(notes.items[i].list.items[j]) by {
            assert(reread(notes.items[i].list.items[j].date) == Some(
                notes.items[i].list.items[j].date.to_the_second(),
            ));
        }
        assert(reread_note(notes.items[i]).list.items =~= note_to_the_second(
            notes.items[i],
        ).list.items);
    }
    assert(reread_notes(notes).items =~= notes_to_the_second(notes).items);
}

} // verus!
