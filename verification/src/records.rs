//! The three kinds of record, and how each is written to and read from a row.

use vstd::prelude::*;
use crate::error::StoreError;
use crate::schema::Cells;
use crate::schema::Kind;
use crate::schema::nul_free;
use crate::schema::plain;
use crate::schema::Statement;
use crate::text::text_of;

verus! {

/// A stored password. All timestamps are text that the caller supplies.
#[derive(Debug, Clone, PartialEq, Eq)]
pub struct PasswordEntry {
    pub id: String,
    pub title: String,
    pub username: String,
    pub password: String,
    pub website: Option<String>,
    pub notes: Option<String>,
    pub created_at: String,
    pub updated_at: String,
}

/// A calendar event. That `start_date` is not after `end_date` is left to
/// the caller.
#[derive(Debug, Clone, PartialEq, Eq)]
pub struct CalendarEvent {
    pub id: String,
    pub title: String,
    pub description: Option<String>,
    pub start_date: String,
    pub end_date: String,
    pub location: Option<String>,
    pub color: String,
    pub created_at: String,
    pub updated_at: String,
}

/// A free-text document.
#[derive(Debug, Clone, PartialEq, Eq)]
pub struct Document {
    pub id: String,
    pub title: String,
    pub content: String,
    pub created_at: String,
    pub updated_at: String,
}

/// What a [`PasswordEntry`] says.
pub struct PasswordRecord {
    pub id: Seq<char>,
    pub title: Seq<char>,
    pub username: Seq<char>,
    pub password: Seq<char>,
    pub website: Option<Seq<char>>,
    pub notes: Option<Seq<char>>,
    pub created_at: Seq<char>,
    pub updated_at: Seq<char>,
}

/// What a [`CalendarEvent`] says.
pub struct EventRecord {
    pub id: Seq<char>,
    pub title: Seq<char>,
    pub description: Option<Seq<char>>,
    pub start_date: Seq<char>,
    pub end_date: Seq<char>,
    pub location: Option<Seq<char>>,
    pub color: Seq<char>,
    pub created_at: Seq<char>,
    pub updated_at: Seq<char>,
}

/// What a [`Document`] says.
pub struct DocumentRecord {
    pub id: Seq<char>,
    pub title: Seq<char>,
    pub content: Seq<char>,
    pub created_at: Seq<char>,
    pub updated_at: Seq<char>,
}

impl View for PasswordEntry {
    type V = PasswordRecord;

    open spec fn view(&self) -> PasswordRecord {
        PasswordRecord {
            id: self.id@,
            title: self.title@,
            username: self.username@,
            password: self.password@,
            website: self.website.deep_view(),
            notes: self.notes.deep_view(),
            created_at: self.created_at@,
            updated_at: self.updated_at@,
        }
    }
}

impl View for CalendarEvent {
    type V = EventRecord;

    open spec fn view(&self) -> EventRecord {
        EventRecord {
            id: self.id@,
            title: self.title@,
            description: self.description.deep_view(),
            start_date: self.start_date@,
            end_date: self.end_date@,
            location: self.location.deep_view(),
            color: self.color@,
            created_at: self.created_at@,
            updated_at: self.updated_at@,
        }
    }
}

impl View for Document {
    type V = DocumentRecord;

    open spec fn view(&self) -> DocumentRecord {
        DocumentRecord {
            id: self.id@,
            title: self.title@,
            content: self.content@,
            created_at: self.created_at@,
            updated_at: self.updated_at@,
        }
    }
}

impl DeepView for PasswordEntry {
    type V = PasswordRecord;

    open spec fn deep_view(&self) -> PasswordRecord {
        self@
    }
}

impl DeepView for CalendarEvent {
    type V = EventRecord;

    open spec fn deep_view(&self) -> EventRecord {
        self@
    }
}

impl DeepView for Document {
    type V = DocumentRecord;

    open spec fn deep_view(&self) -> DocumentRecord {
        self@
    }
}

/// What the three kinds of record have in common: each has a table, lies in
/// it under its id, is listed by one of its fields, and is written to and
/// read from a row.
pub trait Record: Sized {
    /// The kind of the record, which names its table.
    spec fn kind() -> Kind;

    /// The id under which the record is stored.
    spec fn key(self) -> Seq<char>;

    /// The field by which a listing is ordered.
    spec fn rank(self) -> Seq<char>;

    /// No field of the record holds a character U+0000.
    spec fn plain(self) -> bool;

    /// The row of this record: its fields in the order of the table's
    /// columns. These are the parameters of the insert statement.
    spec fn cells(self) -> Cells;

    /// The parameters of the update statement: every field but `id` and
    /// `created_at`, then `id`.
    spec fn changes(self) -> Cells;

    /// The record that the row under `key` holds.
    spec fn of_row(key: Seq<char>, row: Cells) -> Self;

    /// The row has a cell for every column, and none that must hold text is
    /// NULL.
    spec fn readable(row: Cells) -> bool;

    /// This record with the `created_at` of `stored`: what an update with
    /// this record leaves where `stored` was.
    spec fn replacing(self, stored: Self) -> Self;

    /// A record read from under a key has that key for its id, and where
    /// the row is readable, the text of the table's sort column for its
    /// rank.
    proof fn lemma_read(key: Seq<char>, row: Cells)
        ensures
            Self::of_row(key, row).key() == key,
            Self::readable(row) ==> row[Self::kind().sort_column()] is Some && Self::of_row(
                key,
                row,
            ).rank() == text_of(row[Self::kind().sort_column()]),
    ;

    /// The update parameters of a record end with its id, and the row that
    /// an update leaves reads as the record with the `created_at` that the
    /// row had.
    proof fn lemma_changed(self, row: Cells)
        ensures
            self.changes().len() == Self::kind().width() - 1,
            self.changes()[Self::kind().width() - 2] == Some(self.key()),
            Self::of_row(self.key(), Self::kind().revised(row, self.changes()))
                == self.replacing(Self::of_row(self.key(), row)),
    ;

    /// The row of a record can be read, and reads as that record.
    proof fn lemma_written(self)
        ensures
            Self::readable(self.cells()),
            Self::of_row(self.key(), self.cells()) == self,
            self.cells().len() > 0,
            self.cells()[0] == Some(self.key()),
    ;
}

impl Record for PasswordRecord {
    open spec fn kind() -> Kind {
        Kind::Password
    }

    open spec fn key(self) -> Seq<char> {
        self.id
    }

    open spec fn rank(self) -> Seq<char> {
        self.updated_at
    }

    open spec fn plain(self) -> bool {
        plain(self.cells())
    }

    open spec fn cells(self) -> Cells {
        seq![
            Some(self.id),
            Some(self.title),
            Some(self.username),
            Some(self.password),
            self.website,
            self.notes,
            Some(self.created_at),
            Some(self.updated_at),
        ]
    }

    open spec fn changes(self) -> Cells {
        seq![
            Some(self.title),
            Some(self.username),
            Some(self.password),
            self.website,
            self.notes,
            Some(self.updated_at),
            Some(self.id),
        ]
    }

    open spec fn of_row(key: Seq<char>, row: Cells) -> PasswordRecord {
        PasswordRecord {
            id: key,
            title: text_of(row[1]),
            username: text_of(row[2]),
            password: text_of(row[3]),
            website: row[4],
            notes: row[5],
            created_at: text_of(row[6]),
            updated_at: text_of(row[7]),
        }
    }

    open spec fn readable(row: Cells) -> bool {
        &&& row.len() == 8
        &&& row[0] is Some
        &&& row[1] is Some
        &&& row[2] is Some
        &&& row[3] is Some
        &&& row[6] is Some
        &&& row[7] is Some
    }

    open spec fn replacing(self, stored: PasswordRecord) -> PasswordRecord {
        PasswordRecord { created_at: stored.created_at, ..self }
    }

    proof fn lemma_read(key: Seq<char>, row: Cells) {
    }

    proof fn lemma_changed(self, row: Cells) {
    }

    proof fn lemma_written(self) {
    }
}

impl Record for EventRecord {
    open spec fn kind() -> Kind {
        Kind::Event
    }

    open spec fn key(self) -> Seq<char> {
        self.id
    }

    open spec fn rank(self) -> Seq<char> {
        self.start_date
    }

    open spec fn plain(self) -> bool {
        plain(self.cells())
    }

    open spec fn cells(self) -> Cells {
        seq![
            Some(self.id),
            Some(self.title),
            self.description,
            Some(self.start_date),
            Some(self.end_date),
            self.location,
            Some(self.color),
            Some(self.created_at),
            Some(self.updated_at),
        ]
    }

    open spec fn changes(self) -> Cells {
        seq![
            Some(self.title),
            self.description,
            Some(self.start_date),
            Some(self.end_date),
            self.location,
            Some(self.color),
            Some(self.updated_at),
            Some(self.id),
        ]
    }

    open spec fn of_row(key: Seq<char>, row: Cells) -> EventRecord {
        EventRecord {
            id: key,
            title: text_of(row[1]),
            description: row[2],
            start_date: text_of(row[3]),
            end_date: text_of(row[4]),
            location: row[5],
            color: text_of(row[6]),
            created_at: text_of(row[7]),
            updated_at: text_of(row[8]),
        }
    }

    open spec fn readable(row: Cells) -> bool {
        &&& row.len() == 9
        &&& row[0] is Some
        &&& row[1] is Some
        &&& row[3] is Some
        &&& row[4] is Some
        &&& row[6] is Some
        &&& row[7] is Some
        &&& row[8] is Some
    }

    open spec fn replacing(self, stored: EventRecord) -> EventRecord {
        EventRecord { created_at: stored.created_at, ..self }
    }

    proof fn lemma_read(key: Seq<char>, row: Cells) {
    }

    proof fn lemma_changed(self, row: Cells) {
    }

    proof fn lemma_written(self) {
    }
}

impl Record for DocumentRecord {
    open spec fn kind() -> Kind {
        Kind::Document
    }

    open spec fn key(self) -> Seq<char> {
        self.id
    }

    open spec fn rank(self) -> Seq<char> {
        self.updated_at
    }

    open spec fn plain(self) -> bool {
        plain(self.cells())
    }

    open spec fn cells(self) -> Cells {
        seq![
            Some(self.id),
            Some(self.title),
            Some(self.content),
            Some(self.created_at),
            Some(self.updated_at),
        ]
    }

    open spec fn changes(self) -> Cells {
        seq![Some(self.title), Some(self.content), Some(self.updated_at), Some(self.id)]
    }

    open spec fn of_row(key: Seq<char>, row: Cells) -> DocumentRecord {
        DocumentRecord {
            id: key,
            title: text_of(row[1]),
            content: text_of(row[2]),
            created_at: text_of(row[3]),
            updated_at: text_of(row[4]),
        }
    }

    open spec fn readable(row: Cells) -> bool {
        &&& row.len() == 5
        &&& row[0] is Some
        &&& row[1] is Some
        &&& row[2] is Some
        &&& row[3] is Some
        &&& row[4] is Some
    }

    open spec fn replacing(self, stored: DocumentRecord) -> DocumentRecord {
        DocumentRecord { created_at: stored.created_at, ..self }
    }

    proof fn lemma_read(key: Seq<char>, row: Cells) {
    }

    proof fn lemma_changed(self, row: Cells) {
    }

    proof fn lemma_written(self) {
    }
}

/// The message of the failure to read a row.
pub open spec fn unreadable_row() -> Seq<char> {
    "a stored row cannot be read"@
}

/// The failure to read a row.
pub fn unreadable() -> (e: StoreError)
    ensures
        e@ == unreadable_row(),
        e@.len() > 0,
{
    proof {
        reveal_strlit("a stored row cannot be read");
    }
    StoreError::new("a stored row cannot be read".to_owned())
}

/// Reads the answer to a lookup of one setting: no row means that there is
/// no such setting, and a first row gives the value in its first cell. Fails
/// where that cell is missing or NULL, with [`unreadable_row`] as the
/// message.
pub fn setting_from_rows(rows: &Vec<Vec<Option<String>>>) -> (r: Result<Option<String>, StoreError>)
    ensures
        rows.len() == 0 ==> r matches Ok(None),
        rows.len() > 0 && rows.deep_view()[0].len() > 0 && rows.deep_view()[0][0] is Some
            ==> (r matches Ok(Some(value)) && value@ == text_of(rows.deep_view()[0][0])),
        rows.len() > 0 && !(rows.deep_view()[0].len() > 0 && rows.deep_view()[0][0] is Some)
            ==> (r matches Err(e) && e@ == unreadable_row() && e@.len() > 0),
{
    if rows.len() == 0 {
        return Ok(None);
    }
    if rows[0].len() == 0 {
        return Err(unreadable());
    }
    match copy_cell(&rows[0][0]) {
        Some(value) => Ok(Some(value)),
        None => Err(unreadable()),
    }
}

/// A copy of a cell.
pub fn copy_cell(cell: &Option<String>) -> (r: Option<String>)
    ensures
        r == *cell,
{
    match cell {
        Some(s) => Some(s.clone()),
        None => None,
    }
}

/// A cell that holds the given text.
pub fn text_cell(s: &String) -> (r: Option<String>)
    ensures
        r == Some(*s),
{
    Some(s.clone())
}

impl PasswordEntry {
    /// The row of this entry, which is also the parameter list of the
    /// insert statement.
    pub fn to_row(&self) -> (row: Vec<Option<String>>)
        ensures
            row.deep_view() == self@.cells(),
            Statement::Insert(Kind::Password).accepts(row.deep_view()),
            Statement::Insert(Kind::Password).key(row.deep_view()) == self.id@,
    {
        let mut row: Vec<Option<String>> = Vec::new();
        row.push(text_cell(&self.id));
        row.push(text_cell(&self.title));
        row.push(text_cell(&self.username));
        row.push(text_cell(&self.password));
        row.push(copy_cell(&self.website));
        row.push(copy_cell(&self.notes));
        row.push(text_cell(&self.created_at));
        row.push(text_cell(&self.updated_at));
        assert(row.deep_view() =~= self@.cells());
        row
    }

    /// The parameter list of the update statement for this entry.
    pub fn to_changes(&self) -> (args: Vec<Option<String>>)
        ensures
            args.deep_view() == self@.changes(),
            Statement::Update(Kind::Password).accepts(args.deep_view()),
            Statement::Update(Kind::Password).key(args.deep_view()) == self.id@,
            self@.plain() ==> plain(args.deep_view()),
    {
        let mut args: Vec<Option<String>> = Vec::new();
        args.push(text_cell(&self.title));
        args.push(text_cell(&self.username));
        args.push(text_cell(&self.password));
        args.push(copy_cell(&self.website));
        args.push(copy_cell(&self.notes));
        args.push(text_cell(&self.updated_at));
        args.push(text_cell(&self.id));
        assert(args.deep_view() =~= self@.changes());
        proof {
            let cells = self@.cells();
            let changes = self@.changes();
            if self@.plain() {
                assert forall|i: int| 0 <= i < changes.len() implies ((#[trigger] changes[i]) matches Some(
                    text,
                ) ==> nul_free(text)) by {
                    if i == 0 {
                        assert(changes[0] == cells[1]);
                    } else if i == 1 {
                        assert(changes[1] == cells[2]);
                    } else if i == 2 {
                        assert(changes[2] == cells[3]);
                    } else if i == 3 {
                        assert(changes[3] == cells[4]);
                    } else if i == 4 {
                        assert(changes[4] == cells[5]);
                    } else if i == 5 {
                        assert(changes[5] == cells[7]);
                    } else if i == 6 {
                        assert(changes[6] == cells[0]);
                    }
                }
            }
        }
        args
    }

    /// Reads an entry from a row. There is none where the row has not eight
    /// cells or a cell that must hold text is NULL.
    pub fn from_row(row: &Vec<Option<String>>) -> (r: Option<PasswordEntry>)
        ensures
            r is Some <==> PasswordRecord::readable(row.deep_view()),
            r matches Some(entry) ==> entry@ == PasswordRecord::of_row(
                text_of(row.deep_view()[0]),
                row.deep_view(),
            ),
    {
        if row.len() != 8 {
            return None;
        }
        let id = match copy_cell(&row[0]) {
            Some(s) => s,
            None => { return None; },
        };
        let title = match copy_cell(&row[1]) {
            Some(s) => s,
            None => { return None; },
        };
        let username = match copy_cell(&row[2]) {
            Some(s) => s,
            None => { return None; },
        };
        let password = match copy_cell(&row[3]) {
            Some(s) => s,
            None => { return None; },
        };
        let created_at = match copy_cell(&row[6]) {
            Some(s) => s,
            None => { return None; },
        };
        let updated_at = match copy_cell(&row[7]) {
            Some(s) => s,
            None => { return None; },
        };
        Some(
            PasswordEntry {
                id,
                title,
                username,
                password,
                website: copy_cell(&row[4]),
                notes: copy_cell(&row[5]),
                created_at,
                updated_at,
            },
        )
    }

    /// Reads a password from every row, in the order of the rows. Fails where one
    /// of the rows cannot be read, with [`unreadable_row`] as the message.
    pub fn from_rows(rows: &Vec<Vec<Option<String>>>) -> (r: Result<Vec<PasswordEntry>, StoreError>)
        ensures
            r is Ok <==> forall|i: int|
                0 <= i < rows.len() ==> PasswordRecord::readable(#[trigger] rows.deep_view()[i]),
            r matches Ok(list) ==> list.len() == rows.len() && forall|i: int|
                0 <= i < rows.len() ==> list.deep_view()[i] == PasswordRecord::of_row(
                    text_of(rows.deep_view()[i][0]),
                    #[trigger] rows.deep_view()[i],
                ),
            r matches Err(e) ==> e@ == unreadable_row() && e@.len() > 0,
    {
        let mut list: Vec<PasswordEntry> = Vec::new();
        let mut i: usize = 0;
        while i < rows.len()
            invariant
                i <= rows.len(),
                list.len() == i,
                forall|k: int|
                    0 <= k < i ==> PasswordRecord::readable(#[trigger] rows.deep_view()[k])
                        && list.deep_view()[k] == PasswordRecord::of_row(
                        text_of(rows.deep_view()[k][0]),
                        rows.deep_view()[k],
                    ),
            decreases rows.len() - i,
        {
            match PasswordEntry::from_row(&rows[i]) {
                Some(entry) => {
                    list.push(entry);
                },
                None => {
                    assert(!PasswordRecord::readable(rows.deep_view()[i as int]));
                    return Err(unreadable());
                },
            }
            i += 1;
        }
        Ok(list)
    }
}

impl CalendarEvent {
    /// The row of this event, which is also the parameter list of the
    /// insert statement.
    pub fn to_row(&self) -> (row: Vec<Option<String>>)
        ensures
            row.deep_view() == self@.cells(),
            Statement::Insert(Kind::Event).accepts(row.deep_view()),
            Statement::Insert(Kind::Event).key(row.deep_view()) == self.id@,
    {
        let mut row: Vec<Option<String>> = Vec::new();
        row.push(text_cell(&self.id));
        row.push(text_cell(&self.title));
        row.push(copy_cell(&self.description));
        row.push(text_cell(&self.start_date));
        row.push(text_cell(&self.end_date));
        row.push(copy_cell(&self.location));
        row.push(text_cell(&self.color));
        row.push(text_cell(&self.created_at));
        row.push(text_cell(&self.updated_at));
        assert(row.deep_view() =~= self@.cells());
        row
    }

    /// The parameter list of the update statement for this event.
    pub fn to_changes(&self) -> (args: Vec<Option<String>>)
        ensures
            args.deep_view() == self@.changes(),
            Statement::Update(Kind::Event).accepts(args.deep_view()),
            Statement::Update(Kind::Event).key(args.deep_view()) == self.id@,
            self@.plain() ==> plain(args.deep_view()),
    {
        let mut args: Vec<Option<String>> = Vec::new();
        args.push(text_cell(&self.title));
        args.push(copy_cell(&self.description));
        args.push(text_cell(&self.start_date));
        args.push(text_cell(&self.end_date));
        args.push(copy_cell(&self.location));
        args.push(text_cell(&self.color));
        args.push(text_cell(&self.updated_at));
        args.push(text_cell(&self.id));
        assert(args.deep_view() =~= self@.changes());
        proof {
            let cells = self@.cells();
            let changes = self@.changes();
            if self@.plain() {
                assert forall|i: int| 0 <= i < changes.len() implies ((#[trigger] changes[i]) matches Some(
                    text,
                ) ==> nul_free(text)) by {
                    if i == 0 {
                        assert(changes[0] == cells[1]);
                    } else if i == 1 {
                        assert(changes[1] == cells[2]);
                    } else if i == 2 {
                        assert(changes[2] == cells[3]);
                    } else if i == 3 {
                        assert(changes[3] == cells[4]);
                    } else if i == 4 {
                        assert(changes[4] == cells[5]);
                    } else if i == 5 {
                        assert(changes[5] == cells[6]);
                    } else if i == 6 {
                        assert(changes[6] == cells[8]);
                    } else if i == 7 {
                        assert(changes[7] == cells[0]);
                    }
                }
            }
        }
        args
    }

    /// Reads an event from a row. There is none where the row has not nine
    /// cells or a cell that must hold text is NULL.
    pub fn from_row(row: &Vec<Option<String>>) -> (r: Option<CalendarEvent>)
        ensures
            r is Some <==> EventRecord::readable(row.deep_view()),
            r matches Some(event) ==> event@ == EventRecord::of_row(
                text_of(row.deep_view()[0]),
                row.deep_view(),
            ),
    {
        if row.len() != 9 {
            return None;
        }
        let id = match copy_cell(&row[0]) {
            Some(s) => s,
            None => { return None; },
        };
        let title = match copy_cell(&row[1]) {
            Some(s) => s,
            None => { return None; },
        };
        let start_date = match copy_cell(&row[3]) {
            Some(s) => s,
            None => { return None; },
        };
        let end_date = match copy_cell(&row[4]) {
            Some(s) => s,
            None => { return None; },
        };
        let color = match copy_cell(&row[6]) {
            Some(s) => s,
            None => { return None; },
        };
        let created_at = match copy_cell(&row[7]) {
            Some(s) => s,
            None => { return None; },
        };
        let updated_at = match copy_cell(&row[8]) {
            Some(s) => s,
            None => { return None; },
        };
        Some(
            CalendarEvent {
                id,
                title,
                description: copy_cell(&row[2]),
                start_date,
                end_date,
                location: copy_cell(&row[5]),
                color,
                created_at,
                updated_at,
            },
        )
    }

    /// Reads an event from every row, in the order of the rows. Fails where one
    /// of the rows cannot be read, with [`unreadable_row`] as the message.
    pub fn from_rows(rows: &Vec<Vec<Option<String>>>) -> (r: Result<Vec<CalendarEvent>, StoreError>)
        ensures
            r is Ok <==> forall|i: int|
                0 <= i < rows.len() ==> EventRecord::readable(#[trigger] rows.deep_view()[i]),
            r matches Ok(list) ==> list.len() == rows.len() && forall|i: int|
                0 <= i < rows.len() ==> list.deep_view()[i] == EventRecord::of_row(
                    text_of(rows.deep_view()[i][0]),
                    #[trigger] rows.deep_view()[i],
                ),
            r matches Err(e) ==> e@ == unreadable_row() && e@.len() > 0,
    {
        let mut list: Vec<CalendarEvent> = Vec::new();
        let mut i: usize = 0;
        while i < rows.len()
            invariant
                i <= rows.len(),
                list.len() == i,
                forall|k: int|
                    0 <= k < i ==> EventRecord::readable(#[trigger] rows.deep_view()[k])
                        && list.deep_view()[k] == EventRecord::of_row(
                        text_of(rows.deep_view()[k][0]),
                        rows.deep_view()[k],
                    ),
            decreases rows.len() - i,
        {
            match CalendarEvent::from_row(&rows[i]) {
                Some(event) => {
                    list.push(event);
                },
                None => {
                    assert(!EventRecord::readable(rows.deep_view()[i as int]));
                    return Err(unreadable());
                },
            }
            i += 1;
        }
        Ok(list)
    }
}

impl Document {
    /// The row of this document, which is also the parameter list of the
    /// insert statement.
    pub fn to_row(&self) -> (row: Vec<Option<String>>)
        ensures
            row.deep_view() == self@.cells(),
            Statement::Insert(Kind::Document).accepts(row.deep_view()),
            Statement::Insert(Kind::Document).key(row.deep_view()) == self.id@,
    {
        let mut row: Vec<Option<String>> = Vec::new();
        row.push(text_cell(&self.id));
        row.push(text_cell(&self.title));
        row.push(text_cell(&self.content));
        row.push(text_cell(&self.created_at));
        row.push(text_cell(&self.updated_at));
        assert(row.deep_view() =~= self@.cells());
        row
    }

    /// The parameter list of the update statement for this document.
    pub fn to_changes(&self) -> (args: Vec<Option<String>>)
        ensures
            args.deep_view() == self@.changes(),
            Statement::Update(Kind::Document).accepts(args.deep_view()),
            Statement::Update(Kind::Document).key(args.deep_view()) == self.id@,
            self@.plain() ==> plain(args.deep_view()),
    {
        let mut args: Vec<Option<String>> = Vec::new();
        args.push(text_cell(&self.title));
        args.push(text_cell(&self.content));
        args.push(text_cell(&self.updated_at));
        args.push(text_cell(&self.id));
        assert(args.deep_view() =~= self@.changes());
        proof {
            let cells = self@.cells();
            let changes = self@.changes();
            if self@.plain() {
                assert forall|i: int| 0 <= i < changes.len() implies ((#[trigger] changes[i]) matches Some(
                    text,
                ) ==> nul_free(text)) by {
                    if i == 0 {
                        assert(changes[0] == cells[1]);
                    } else if i == 1 {
                        assert(changes[1] == cells[2]);
                    } else if i == 2 {
                        assert(changes[2] == cells[4]);
                    } else if i == 3 {
                        assert(changes[3] == cells[0]);
                    }
                }
            }
        }
        args
    }

    /// Reads a document from a row. There is none where the row has not
    /// five cells or one of them is NULL.
    pub fn from_row(row: &Vec<Option<String>>) -> (r: Option<Document>)
        ensures
            r is Some <==> DocumentRecord::readable(row.deep_view()),
            r matches Some(doc) ==> doc@ == DocumentRecord::of_row(
                text_of(row.deep_view()[0]),
                row.deep_view(),
            ),
    {
        if row.len() != 5 {
            return None;
        }
        let id = match copy_cell(&row[0]) {
            Some(s) => s,
            None => { return None; },
        };
        let title = match copy_cell(&row[1]) {
            Some(s) => s,
            None => { return None; },
        };
        let content = match copy_cell(&row[2]) {
            Some(s) => s,
            None => { return None; },
        };
        let created_at = match copy_cell(&row[3]) {
            Some(s) => s,
            None => { return None; },
        };
        let updated_at = match copy_cell(&row[4]) {
            Some(s) => s,
            None => { return None; },
        };
        Some(Document { id, title, content, created_at, updated_at })
    }

    /// Reads a document from every row, in the order of the rows. Fails where one
    /// of the rows cannot be read, with [`unreadable_row`] as the message.
    pub fn from_rows(rows: &Vec<Vec<Option<String>>>) -> (r: Result<Vec<Document>, StoreError>)
        ensures
            r is Ok <==> forall|i: int|
                0 <= i < rows.len() ==> DocumentRecord::readable(#[trigger] rows.deep_view()[i]),
            r matches Ok(list) ==> list.len() == rows.len() && forall|i: int|
                0 <= i < rows.len() ==> list.deep_view()[i] == DocumentRecord::of_row(
                    text_of(rows.deep_view()[i][0]),
                    #[trigger] rows.deep_view()[i],
                ),
            r matches Err(e) ==> e@ == unreadable_row() && e@.len() > 0,
    {
        let mut list: Vec<Document> = Vec::new();
        let mut i: usize = 0;
        while i < rows.len()
            invariant
                i <= rows.len(),
                list.len() == i,
                forall|k: int|
                    0 <= k < i ==> DocumentRecord::readable(#[trigger] rows.deep_view()[k])
                        && list.deep_view()[k] == DocumentRecord::of_row(
                        text_of(rows.deep_view()[k][0]),
                        rows.deep_view()[k],
                    ),
            decreases rows.len() - i,
        {
            match Document::from_row(&rows[i]) {
                Some(doc) => {
                    list.push(doc);
                },
                None => {
                    assert(!DocumentRecord::readable(rows.deep_view()[i as int]));
                    return Err(unreadable());
                },
            }
            i += 1;
        }
        Ok(list)
    }
}

} // verus!
