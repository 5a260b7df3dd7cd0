//! The schema of the vault and the statements that are issued against it.
//!
//! A database is modelled by its rows: a map from a table's name and a row's
//! primary key to the cells of that row, in the order of the table's columns.
//! Each statement has a fixed SQL text and a meaning on that map.

use vstd::prelude::*;
use crate::text::text_of;
use crate::text::cell_le;

verus! {

/// The cells of one row. A cell is `None` for NULL, else its text.
pub type Cells = Seq<Option<Seq<char>>>;

/// The rows of a database, by table name and primary key.
pub type Rows = Map<(Seq<char>, Seq<char>), Cells>;

/// The text holds no character U+0000. Of text that holds one the database
/// engine does not say how it compares.
pub open spec fn nul_free(text: Seq<char>) -> bool {
    forall|i: int| 0 <= i < text.len() ==> text[i] != '\0'
}

/// No cell holds text with a character U+0000.
pub open spec fn plain(cells: Cells) -> bool {
    forall|i: int|
        0 <= i < cells.len() ==> ((#[trigger] cells[i]) matches Some(text) ==> nul_free(text))
}

/// The three kinds of record that are stored one table each.
#[derive(Clone, Copy, Debug)]
pub enum Kind {
    Password,
    Event,
    Document,
}

/// Name of the table that holds the settings.
pub open spec fn settings_table() -> Seq<char> {
    "settings"@
}

/// The names of the four tables of the schema.
pub open spec fn schema_tables() -> Set<Seq<char>> {
    set![Kind::Password.table(), Kind::Event.table(), Kind::Document.table(), settings_table()]
}

impl Kind {
    /// Name of the table that holds the records of this kind.
    pub open spec fn table(self) -> Seq<char> {
        match self {
            Kind::Password => "passwords"@,
            Kind::Event => "events"@,
            Kind::Document => "documents"@,
        }
    }

    /// Number of columns of the table.
    pub open spec fn width(self) -> nat {
        match self {
            Kind::Password => 8,
            Kind::Event => 9,
            Kind::Document => 5,
        }
    }

    /// Index of the column by which a listing is ordered: `updated_at` for
    /// passwords and documents, `start_date` for events.
    pub open spec fn sort_column(self) -> int {
        match self {
            Kind::Password => 7,
            Kind::Event => 3,
            Kind::Document => 4,
        }
    }

    /// Whether a listing runs from the greatest sort value to the least.
    pub open spec fn descending(self) -> bool {
        match self {
            Kind::Password => true,
            Kind::Event => false,
            Kind::Document => true,
        }
    }

    /// The row that an update leaves behind. `args` are the parameters of the
    /// update statement: the new values of the columns it sets, then the key.
    /// The key column and `created_at` keep what `row` has.
    pub open spec fn revised(self, row: Cells, args: Cells) -> Cells {
        match self {
            Kind::Password => seq![
                row[0], args[0], args[1], args[2], args[3], args[4], row[6], args[5],
            ],
            Kind::Event => seq![
                row[0], args[0], args[1], args[2], args[3], args[4], args[5], row[7], args[6],
            ],
            Kind::Document => seq![row[0], args[0], args[1], row[3], args[2]],
        }
    }

    /// `first` may stand before `second` in a listing of this kind.
    pub open spec fn in_order(self, first: Cells, second: Cells) -> bool {
        if self.descending() {
            cell_le(second[self.sort_column()], first[self.sort_column()])
        } else {
            cell_le(first[self.sort_column()], second[self.sort_column()])
        }
    }
}

/// A statement that changes the database, or leaves it as it is.
#[derive(Clone, Copy, Debug)]
pub enum Statement {
    /// Create the table of a kind of record unless it exists.
    CreateRecords(Kind),
    /// Create the settings table unless it exists.
    CreateSettings,
    /// Insert a row; its parameters are the row's cells, the key first.
    Insert(Kind),
    /// Overwrite the row with a given key; for the parameters see
    /// [`Kind::revised`].
    Update(Kind),
    /// Delete the row with a given key, the only parameter.
    Delete(Kind),
    /// Insert a setting, or replace the one with the same key; the
    /// parameters are key and value.
    PutSetting,
}

impl Statement {
    /// The SQL text of the statement.
    pub open spec fn text(self) -> Seq<char> {
        match self {
            Statement::CreateRecords(Kind::Password) =>
                "CREATE TABLE IF NOT EXISTS passwords (id TEXT PRIMARY KEY, title TEXT NOT NULL, username TEXT NOT NULL, password TEXT NOT NULL, website TEXT, notes TEXT, created_at TEXT NOT NULL, updated_at TEXT NOT NULL)"@,
            Statement::CreateRecords(Kind::Event) =>
                "CREATE TABLE IF NOT EXISTS events (id TEXT PRIMARY KEY, title TEXT NOT NULL, description TEXT, start_date TEXT NOT NULL, end_date TEXT NOT NULL, location TEXT, color TEXT NOT NULL, created_at TEXT NOT NULL, updated_at TEXT NOT NULL)"@,
            Statement::CreateRecords(Kind::Document) =>
                "CREATE TABLE IF NOT EXISTS documents (id TEXT PRIMARY KEY, title TEXT NOT NULL, content TEXT NOT NULL, created_at TEXT NOT NULL, updated_at TEXT NOT NULL)"@,
            Statement::CreateSettings =>
                "CREATE TABLE IF NOT EXISTS settings (key TEXT PRIMARY KEY, value TEXT NOT NULL)"@,
            Statement::Insert(Kind::Password) =>
                "INSERT INTO passwords (id, title, username, password, website, notes, created_at, updated_at) VALUES (?1, ?2, ?3, ?4, ?5, ?6, ?7, ?8)"@,
            Statement::Insert(Kind::Event) =>
                "INSERT INTO events (id, title, description, start_date, end_date, location, color, created_at, updated_at) VALUES (?1, ?2, ?3, ?4, ?5, ?6, ?7, ?8, ?9)"@,
            Statement::Insert(Kind::Document) =>
                "INSERT INTO documents (id, title, content, created_at, updated_at) VALUES (?1, ?2, ?3, ?4, ?5)"@,
            Statement::Update(Kind::Password) =>
                "UPDATE passwords SET title = ?1, username = ?2, password = ?3, website = ?4, notes = ?5, updated_at = ?6 WHERE id = ?7"@,
            Statement::Update(Kind::Event) =>
                "UPDATE events SET title = ?1, description = ?2, start_date = ?3, end_date = ?4, location = ?5, color = ?6, updated_at = ?7 WHERE id = ?8"@,
            Statement::Update(Kind::Document) =>
                "UPDATE documents SET title = ?1, content = ?2, updated_at = ?3 WHERE id = ?4"@,
            Statement::Delete(Kind::Password) => "DELETE FROM passwords WHERE id = ?1"@,
            Statement::Delete(Kind::Event) => "DELETE FROM events WHERE id = ?1"@,
            Statement::Delete(Kind::Document) => "DELETE FROM documents WHERE id = ?1"@,
            Statement::PutSetting =>
                "INSERT OR REPLACE INTO settings (key, value) VALUES (?1, ?2)"@,
        }
    }

    /// Number of parameters that the statement takes.
    pub open spec fn arity(self) -> nat {
        match self {
            Statement::CreateRecords(_) => 0,
            Statement::CreateSettings => 0,
            Statement::Insert(kind) => kind.width(),
            Statement::Update(kind) => (kind.width() - 1) as nat,
            Statement::Delete(_) => 1,
            Statement::PutSetting => 2,
        }
    }

    /// Index of the parameter that holds the key; of no meaning for the
    /// statements without parameters.
    pub open spec fn key_index(self) -> int {
        match self {
            Statement::Update(kind) => kind.width() - 2,
            _ => 0,
        }
    }

    /// The key that the statement addresses.
    pub open spec fn key(self, args: Cells) -> Seq<char> {
        text_of(args[self.key_index()])
    }

    /// `args` has one cell for each parameter, and the key is not NULL.
    pub open spec fn accepts(self, args: Cells) -> bool {
        &&& args.len() == self.arity()
        &&& self.arity() > 0 ==> args[self.key_index()] is Some
    }

    /// The rows after the statement has run with `args` on `rows`.
    pub open spec fn applied(self, rows: Rows, args: Cells) -> Rows {
        match self {
            Statement::CreateRecords(_) => rows,
            Statement::CreateSettings => rows,
            Statement::Insert(kind) => rows.insert((kind.table(), self.key(args)), args),
            Statement::Update(kind) => {
                let at = (kind.table(), self.key(args));
                if rows.contains_key(at) {
                    rows.insert(at, kind.revised(rows[at], args))
                } else {
                    rows
                }
            },
            Statement::Delete(kind) => rows.remove((kind.table(), self.key(args))),
            Statement::PutSetting => rows.insert((settings_table(), self.key(args)), args),
        }
    }

    /// The kind of record whose rows the statement may change, if any.
    pub open spec fn touches(self) -> Option<Kind> {
        match self {
            Statement::Insert(kind) => Some(kind),
            Statement::Update(kind) => Some(kind),
            Statement::Delete(kind) => Some(kind),
            _ => None,
        }
    }

    /// The tables that exist after the statement has run where `tables`
    /// existed before: a create statement adds its table unless it is there,
    /// and no statement takes a table away.
    pub open spec fn tables_after(self, tables: Set<Seq<char>>) -> Set<Seq<char>> {
        match self {
            Statement::CreateRecords(kind) => tables.insert(kind.table()),
            Statement::CreateSettings => tables.insert(settings_table()),
            _ => tables,
        }
    }

    /// The statement cannot run with `args` on `rows`: an insert whose key
    /// is taken.
    pub open spec fn refused(self, rows: Rows, args: Cells) -> bool {
        match self {
            Statement::Insert(kind) => rows.contains_key((kind.table(), self.key(args))),
            _ => false,
        }
    }

    /// The statement that has `sql` as its text, if there is one.
    pub open spec fn denoted(sql: Seq<char>) -> Option<Statement> {
        if exists|s: Statement| #[trigger] s.text() == sql {
            Some(choose|s: Statement| #[trigger] s.text() == sql)
        } else {
            None
        }
    }

    /// The SQL text of the statement.
    pub fn sql(&self) -> (s: &'static str)
        ensures
            s@ == self.text(),
    {
        match self {
            Statement::CreateRecords(Kind::Password) =>
                "CREATE TABLE IF NOT EXISTS passwords (id TEXT PRIMARY KEY, title TEXT NOT NULL, username TEXT NOT NULL, password TEXT NOT NULL, website TEXT, notes TEXT, created_at TEXT NOT NULL, updated_at TEXT NOT NULL)",
            Statement::CreateRecords(Kind::Event) =>
                "CREATE TABLE IF NOT EXISTS events (id TEXT PRIMARY KEY, title TEXT NOT NULL, description TEXT, start_date TEXT NOT NULL, end_date TEXT NOT NULL, location TEXT, color TEXT NOT NULL, created_at TEXT NOT NULL, updated_at TEXT NOT NULL)",
            Statement::CreateRecords(Kind::Document) =>
                "CREATE TABLE IF NOT EXISTS documents (id TEXT PRIMARY KEY, title TEXT NOT NULL, content TEXT NOT NULL, created_at TEXT NOT NULL, updated_at TEXT NOT NULL)",
            Statement::CreateSettings =>
                "CREATE TABLE IF NOT EXISTS settings (key TEXT PRIMARY KEY, value TEXT NOT NULL)",
            Statement::Insert(Kind::Password) =>
                "INSERT INTO passwords (id, title, username, password, website, notes, created_at, updated_at) VALUES (?1, ?2, ?3, ?4, ?5, ?6, ?7, ?8)",
            Statement::Insert(Kind::Event) =>
                "INSERT INTO events (id, title, description, start_date, end_date, location, color, created_at, updated_at) VALUES (?1, ?2, ?3, ?4, ?5, ?6, ?7, ?8, ?9)",
            Statement::Insert(Kind::Document) =>
                "INSERT INTO documents (id, title, content, created_at, updated_at) VALUES (?1, ?2, ?3, ?4, ?5)",
            Statement::Update(Kind::Password) =>
                "UPDATE passwords SET title = ?1, username = ?2, password = ?3, website = ?4, notes = ?5, updated_at = ?6 WHERE id = ?7",
            Statement::Update(Kind::Event) =>
                "UPDATE events SET title = ?1, description = ?2, start_date = ?3, end_date = ?4, location = ?5, color = ?6, updated_at = ?7 WHERE id = ?8",
            Statement::Update(Kind::Document) =>
                "UPDATE documents SET title = ?1, content = ?2, updated_at = ?3 WHERE id = ?4",
            Statement::Delete(Kind::Password) => "DELETE FROM passwords WHERE id = ?1",
            Statement::Delete(Kind::Event) => "DELETE FROM events WHERE id = ?1",
            Statement::Delete(Kind::Document) => "DELETE FROM documents WHERE id = ?1",
            Statement::PutSetting =>
                "INSERT OR REPLACE INTO settings (key, value) VALUES (?1, ?2)",
        }
    }
}

/// A statement that reads rows and changes nothing.
#[derive(Clone, Copy, Debug)]
pub enum Query {
    /// All rows of a kind's table, in the kind's order; no parameters.
    List(Kind),
    /// The value of the setting with a given key, the only parameter.
    GetSetting,
}

/// `row` is the row of `table` that `rows` holds under the key in the row's
/// first cell.
pub open spec fn stored_row(rows: Rows, table: Seq<char>, row: Cells) -> bool {
    &&& row.len() > 0
    &&& row[0] is Some
    &&& rows.contains_key((table, text_of(row[0])))
    &&& rows[(table, text_of(row[0]))] == row
}

impl Query {
    /// The SQL text of the query.
    pub open spec fn text(self) -> Seq<char> {
        match self {
            Query::List(Kind::Password) =>
                "SELECT id, title, username, password, website, notes, created_at, updated_at FROM passwords ORDER BY updated_at DESC"@,
            Query::List(Kind::Event) =>
                "SELECT id, title, description, start_date, end_date, location, color, created_at, updated_at FROM events ORDER BY start_date ASC"@,
            Query::List(Kind::Document) =>
                "SELECT id, title, content, created_at, updated_at FROM documents ORDER BY updated_at DESC"@,
            Query::GetSetting => "SELECT value FROM settings WHERE key = ?1"@,
        }
    }

    /// `args` has one cell for each parameter, and the key is not NULL.
    pub open spec fn accepts(self, args: Cells) -> bool {
        match self {
            Query::List(_) => args.len() == 0,
            Query::GetSetting => args.len() == 1 && args[0] is Some,
        }
    }

    /// `out` is an answer to the query with `args` on `rows`.
    ///
    /// A listing holds each row of the table once, every row with as many
    /// cells as the table has columns, and in the kind's order; where two
    /// rows have the same sort value either may come first. The answer to a
    /// lookup is the value cell of the setting, or nothing.
    pub open spec fn answers(self, rows: Rows, args: Cells, out: Seq<Cells>) -> bool {
        match self {
            Query::List(kind) => {
                &&& forall|i: int|
                    0 <= i < out.len() ==> #[trigger] out[i].len() == kind.width()
                        && stored_row(rows, kind.table(), out[i])
                &&& forall|i: int, j: int|
                    0 <= i < j < out.len() ==> text_of(#[trigger] out[i][0]) != text_of(
                        #[trigger] out[j][0],
                    )
                &&& forall|key: Seq<char>| #[trigger]
                    rows.contains_key((kind.table(), key)) ==> exists|i: int|
                        0 <= i < out.len() && text_of(#[trigger] out[i][0]) == key
                &&& forall|i: int, j: int|
                    0 <= i < j < out.len() ==> kind.in_order(#[trigger] out[i], #[trigger] out[j])
            },
            Query::GetSetting => {
                let at = (settings_table(), text_of(args[0]));
                if rows.contains_key(at) {
                    out == seq![seq![rows[at][1]]]
                } else {
                    out == Seq::<Cells>::empty()
                }
            },
        }
    }

    /// The query that has `sql` as its text, if there is one.
    pub open spec fn denoted(sql: Seq<char>) -> Option<Query> {
        if exists|q: Query| #[trigger] q.text() == sql {
            Some(choose|q: Query| #[trigger] q.text() == sql)
        } else {
            None
        }
    }

    /// The SQL text of the query.
    pub fn sql(&self) -> (s: &'static str)
        ensures
            s@ == self.text(),
    {
        match self {
            Query::List(Kind::Password) =>
                "SELECT id, title, username, password, website, notes, created_at, updated_at FROM passwords ORDER BY updated_at DESC",
            Query::List(Kind::Event) =>
                "SELECT id, title, description, start_date, end_date, location, color, created_at, updated_at FROM events ORDER BY start_date ASC",
            Query::List(Kind::Document) =>
                "SELECT id, title, content, created_at, updated_at FROM documents ORDER BY updated_at DESC",
            Query::GetSetting => "SELECT value FROM settings WHERE key = ?1",
        }
    }
}

/// Length of a statement's text.
pub open spec fn statement_length(s: Statement) -> nat {
    match s {
        Statement::CreateRecords(Kind::Password) => 205,
        Statement::CreateRecords(Kind::Event) => 232,
        Statement::CreateRecords(Kind::Document) => 154,
        Statement::CreateSettings => 79,
        Statement::Insert(Kind::Password) => 133,
        Statement::Insert(Kind::Event) => 150,
        Statement::Insert(Kind::Document) => 94,
        Statement::Update(Kind::Password) => 118,
        Statement::Update(Kind::Event) => 136,
        Statement::Update(Kind::Document) => 76,
        Statement::Delete(Kind::Password) => 35,
        Statement::Delete(Kind::Event) => 32,
        Statement::Delete(Kind::Document) => 35,
        Statement::PutSetting => 60,
    }
}

/// Length of a query's text.
pub open spec fn query_length(q: Query) -> nat {
    match q {
        Query::List(Kind::Password) => 116,
        Query::List(Kind::Event) => 128,
        Query::List(Kind::Document) => 89,
        Query::GetSetting => 41,
    }
}

/// The texts of the statements have the lengths of [`statement_length`];
/// the two of equal length differ in the first letter of the table's name.
pub proof fn lemma_statement_shape(s: Statement)
    ensures
        s.text().len() == statement_length(s),
        s == Statement::Delete(Kind::Password) ==> s.text()[12] == 'p',
        s == Statement::Delete(Kind::Document) ==> s.text()[12] == 'd',
{
    match s {
        Statement::CreateRecords(Kind::Password) => {
            reveal_strlit(
                "CREATE TABLE IF NOT EXISTS passwords (id TEXT PRIMARY KEY, title TEXT NOT NULL, username TEXT NOT NULL, password TEXT NOT NULL, website TEXT, notes TEXT, created_at TEXT NOT NULL, updated_at TEXT NOT NULL)",
            );
        },
        Statement::CreateRecords(Kind::Event) => {
            reveal_strlit(
                "CREATE TABLE IF NOT EXISTS events (id TEXT PRIMARY KEY, title TEXT NOT NULL, description TEXT, start_date TEXT NOT NULL, end_date TEXT NOT NULL, location TEXT, color TEXT NOT NULL, created_at TEXT NOT NULL, updated_at TEXT NOT NULL)",
            );
        },
        Statement::CreateRecords(Kind::Document) => {
            reveal_strlit(
                "CREATE TABLE IF NOT EXISTS documents (id TEXT PRIMARY KEY, title TEXT NOT NULL, content TEXT NOT NULL, created_at TEXT NOT NULL, updated_at TEXT NOT NULL)",
            );
        },
        Statement::CreateSettings => {
            reveal_strlit(
                "CREATE TABLE IF NOT EXISTS settings (key TEXT PRIMARY KEY, value TEXT NOT NULL)",
            );
        },
        Statement::Insert(Kind::Password) => {
            reveal_strlit(
                "INSERT INTO passwords (id, title, username, password, website, notes, created_at, updated_at) VALUES (?1, ?2, ?3, ?4, ?5, ?6, ?7, ?8)",
            );
        },
        Statement::Insert(Kind::Event) => {
            reveal_strlit(
                "INSERT INTO events (id, title, description, start_date, end_date, location, color, created_at, updated_at) VALUES (?1, ?2, ?3, ?4, ?5, ?6, ?7, ?8, ?9)",
            );
        },
        Statement::Insert(Kind::Document) => {
            reveal_strlit(
                "INSERT INTO documents (id, title, content, created_at, updated_at) VALUES (?1, ?2, ?3, ?4, ?5)",
            );
        },
        Statement::Update(Kind::Password) => {
            reveal_strlit(
                "UPDATE passwords SET title = ?1, username = ?2, password = ?3, website = ?4, notes = ?5, updated_at = ?6 WHERE id = ?7",
            );
        },
        Statement::Update(Kind::Event) => {
            reveal_strlit(
                "UPDATE events SET title = ?1, description = ?2, start_date = ?3, end_date = ?4, location = ?5, color = ?6, updated_at = ?7 WHERE id = ?8",
            );
        },
        Statement::Update(Kind::Document) => {
            reveal_strlit(
                "UPDATE documents SET title = ?1, content = ?2, updated_at = ?3 WHERE id = ?4",
            );
        },
        Statement::Delete(Kind::Password) => {
            reveal_strlit("DELETE FROM passwords WHERE id = ?1");
        },
        Statement::Delete(Kind::Event) => {
            reveal_strlit("DELETE FROM events WHERE id = ?1");
        },
        Statement::Delete(Kind::Document) => {
            reveal_strlit("DELETE FROM documents WHERE id = ?1");
        },
        Statement::PutSetting => {
            reveal_strlit("INSERT OR REPLACE INTO settings (key, value) VALUES (?1, ?2)");
        },
    }
}

/// The texts of the queries have the lengths of [`query_length`].
pub proof fn lemma_query_shape(q: Query)
    ensures
        q.text().len() == query_length(q),
{
    match q {
        Query::List(Kind::Password) => {
            reveal_strlit(
                "SELECT id, title, username, password, website, notes, created_at, updated_at FROM passwords ORDER BY updated_at DESC",
            );
        },
        Query::List(Kind::Event) => {
            reveal_strlit(
                "SELECT id, title, description, start_date, end_date, location, color, created_at, updated_at FROM events ORDER BY start_date ASC",
            );
        },
        Query::List(Kind::Document) => {
            reveal_strlit(
                "SELECT id, title, content, created_at, updated_at FROM documents ORDER BY updated_at DESC",
            );
        },
        Query::GetSetting => {
            reveal_strlit("SELECT value FROM settings WHERE key = ?1");
        },
    }
}

/// No two statements have the same text.
pub proof fn lemma_statement_texts_differ(a: Statement, b: Statement)
    requires
        a.text() == b.text(),
    ensures
        a == b,
{
    lemma_statement_shape(a);
    lemma_statement_shape(b);
}

/// No two queries have the same text.
pub proof fn lemma_query_texts_differ(a: Query, b: Query)
    requires
        a.text() == b.text(),
    ensures
        a == b,
{
    lemma_query_shape(a);
    lemma_query_shape(b);
}

/// A statement's text denotes that statement.
pub proof fn lemma_statement_denoted(s: Statement)
    ensures
        Statement::denoted(s.text()) == Some(s),
{
    let found = choose|t: Statement| #[trigger] t.text() == s.text();
    lemma_statement_texts_differ(found, s);
}

/// A query's text denotes that query.
pub proof fn lemma_query_denoted(q: Query)
    ensures
        Query::denoted(q.text()) == Some(q),
{
    let found = choose|t: Query| #[trigger] t.text() == q.text();
    lemma_query_texts_differ(found, q);
}

/// The four tables have four names.
pub proof fn lemma_table_names_differ()
    ensures
        Kind::Password.table() != Kind::Event.table(),
        Kind::Password.table() != Kind::Document.table(),
        Kind::Event.table() != Kind::Document.table(),
        Kind::Password.table() != settings_table(),
        Kind::Event.table() != settings_table(),
        Kind::Document.table() != settings_table(),
{
    reveal_strlit("passwords");
    reveal_strlit("events");
    reveal_strlit("documents");
    reveal_strlit("settings");
    assert("events"@.len() == 6);
    assert("settings"@.len() == 8);
    assert("passwords"@[0] == 'p');
    assert("documents"@[0] == 'd');
}

} // verus!
