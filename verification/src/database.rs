//! The store: one connection to the database, and the operations on the four
//! tables. Every operation is one statement, which takes effect as a whole
//! or not at all.
//!
//! What an operation does to the vault is promised of an intact store, see
//! [`Database::intact`], and of text without a character U+0000. A store in
//! memory is intact; of a store on a file, which other connections can
//! reach, the operations promise no more than that a failure has a message.
//!
//! Operations that write take `&mut self`, so no two of them run at once on
//! one store; a program that shares the store between threads keeps it
//! behind a lock.

use vstd::prelude::*;
use crate::records::Record;
use crate::error::StoreError;
use crate::error::settle;
pub use crate::records::CalendarEvent;
pub use crate::records::Document;
pub use crate::records::PasswordEntry;
use crate::records::DocumentRecord;
use crate::records::EventRecord;
use crate::records::PasswordRecord;
use crate::records::setting_from_rows;
use crate::schema::Kind;
use crate::schema::Query;
use crate::schema::Rows;
use crate::schema::Statement;
use crate::schema::lemma_query_denoted;
use crate::schema::lemma_statement_denoted;
use crate::schema::nul_free;
use crate::schema::plain;
use crate::schema::schema_tables;
use crate::sqlite::created;
use crate::sqlite::execute;
use crate::sqlite::intact;
use crate::sqlite::location;
use crate::sqlite::open;
use crate::sqlite::query;
use crate::sqlite::stored;
use crate::vault::Vault;
use crate::vault::documents_newest_first;
use crate::vault::events_earliest_first;
use crate::vault::lemma_delete;
use crate::vault::lemma_frame;
use crate::vault::lemma_insert;
use crate::vault::lemma_listing;
use crate::vault::lemma_update;
use crate::vault::lemma_no_rows_is_empty;
use crate::vault::lemma_put_setting;
use crate::vault::lemma_setting_lookup;
use crate::vault::passwords_newest_first;

verus! {

/// The store. Its view is the [`Vault`] that the database holds.
pub struct Database {
    conn: rusqlite::Connection,
}

impl View for Database {
    type V = Vault;

    closed spec fn view(&self) -> Vault {
        Vault::of_rows(self.rows())
    }
}

impl Database {
    /// The rows of the database.
    spec fn rows(&self) -> Rows {
        stored(self.conn)
    }

    /// The names of the tables that exist in the database.
    pub closed spec fn tables(&self) -> Set<Seq<char>> {
        created(self.conn)
    }

    /// The path with which the store was opened.
    pub closed spec fn location(&self) -> Seq<char> {
        location(self.conn)
    }

    /// The database is the store's own: no other connection reaches it, and
    /// it holds nothing but what the operations of this store have put
    /// there, none of it text with a character U+0000.
    pub closed spec fn intact(&self) -> bool {
        intact(self.conn)
    }

    /// Every record of the vault lies under its own id.
    pub proof fn lemma_records_lie_under_their_ids(&self)
        ensures
            forall|id: Seq<char>| #[trigger]
                self@.passwords.contains_key(id) ==> self@.passwords[id].id == id,
            forall|id: Seq<char>| #[trigger]
                self@.events.contains_key(id) ==> self@.events[id].id == id,
            forall|id: Seq<char>| #[trigger]
                self@.documents.contains_key(id) ==> self@.documents[id].id == id,
    {
    }

    /// Opens the database at `path`, creating the file if there is none,
    /// and creates each of the four tables unless it exists. The store that
    /// comes back is the one at `path`. A failure to open is passed on, as
    /// is a failure to create a table. The path `:memory:` gives a new store
    /// in memory, which is intact, empty, and has the four tables and no
    /// other.
    pub fn new(path: &str) -> (r: Result<Database, StoreError>)
        ensures
            r matches Ok(db) ==> db.location() == path@,
            r matches Ok(db) ==> (path@ == ":memory:"@ ==> db.intact() && db@ == Vault::empty()
                && db.tables() == schema_tables()),
            r matches Err(e) ==> e@.len() > 0,
    {
        let r = Database::from_opened(open(path));
        proof {
            lemma_no_rows_is_empty();
            assert(Set::<Seq<char>>::empty().union(schema_tables()) =~= schema_tables());
        }
        r
    }

    /// Makes a store of what an attempt to open a database gave. A failure
    /// to open is a failure here; there is no second attempt and no other
    /// database in its place. On a connection, each of the four tables is
    /// created unless it exists, and the first failure to create one is
    /// passed on. The store that comes back is one on that connection;
    /// where the database was intact it still is, holds what it held, and
    /// has the four tables beside those that it had.
    pub fn from_opened(outcome: Result<rusqlite::Connection, rusqlite::Error>) -> (r: Result<
        Database,
        StoreError,
    >)
        ensures
            outcome is Err ==> r is Err,
            outcome matches Ok(conn) ==> (r matches Ok(db) ==> db.location() == location(conn)),
            outcome matches Ok(conn) ==> (intact(conn) ==> (r matches Ok(db) ==> db.intact()
                && db@ == Vault::of_rows(stored(conn)) && db.tables() == created(conn).union(
                schema_tables(),
            ))),
            r matches Err(e) ==> e@.len() > 0,
    {
        match settle(outcome) {
            Err(e) => Err(e),
            Ok(conn) => {
                let mut db = Database { conn };
                match db.init_tables() {
                    Ok(()) => Ok(db),
                    Err(e) => Err(e),
                }
            },
        }
    }

    /// Runs one statement with its parameters.
    fn run(&mut self, stmt: Statement, args: &Vec<Option<String>>) -> (r: Result<(), StoreError>)
        requires
            stmt.accepts(args.deep_view()),
        ensures
            final(self).location() == old(self).location(),
            old(self).intact() && r is Ok ==> final(self).tables() == stmt.tables_after(
                old(self).tables(),
            ),
            old(self).intact() && r is Err ==> final(self).tables() == old(self).tables(),
            old(self).intact() && plain(args.deep_view()) ==> ({
                &&& final(self).intact()
                &&& r is Ok ==> final(self).rows() == stmt.applied(
                    old(self).rows(),
                    args.deep_view(),
                )
                &&& r is Err ==> final(self).rows() == old(self).rows()
                &&& stmt.refused(old(self).rows(), args.deep_view()) ==> r is Err
            }),
            r matches Err(e) ==> e@.len() > 0,
    {
        proof {
            lemma_statement_denoted(stmt);
        }
        match settle(execute(&mut self.conn, stmt.sql(), args)) {
            Ok(_) => Ok(()),
            Err(e) => Err(e),
        }
    }

    /// Runs one query with its parameters.
    fn ask(&self, q: Query, args: &Vec<Option<String>>) -> (r: Result<
        Vec<Vec<Option<String>>>,
        StoreError,
    >)
        requires
            q.accepts(args.deep_view()),
        ensures
            self.intact() && plain(args.deep_view()) ==> (r matches Ok(out) ==> q.answers(
                self.rows(),
                args.deep_view(),
                out.deep_view(),
            )),
            r matches Err(e) ==> e@.len() > 0,
    {
        proof {
            lemma_query_denoted(q);
        }
        settle(query(&self.conn, q.sql(), args))
    }

    /// Creates each of the four tables unless it exists, and stops at the
    /// first failure. Of an intact database: it stays intact, and no row of
    /// it is added, changed or removed; after success the four tables exist
    /// beside those that were there; after a failure the tables that were
    /// made before it stay; no table is taken away, so that on a database
    /// that has the four tables none is added either.
    fn init_tables(&mut self) -> (r: Result<(), StoreError>)
        ensures
            final(self).location() == old(self).location(),
            old(self).intact() ==> ({
                &&& final(self).intact()
                &&& final(self).rows() == old(self).rows()
                &&& r is Ok ==> final(self).tables() == old(self).tables().union(schema_tables())
                &&& old(self).tables().subset_of(final(self).tables())
                &&& final(self).tables().subset_of(old(self).tables().union(schema_tables()))
                &&& schema_tables().subset_of(old(self).tables()) ==> final(self).tables()
                    == old(self).tables()
            }),
            r matches Err(e) ==> e@.len() > 0,
    {
        let none: Vec<Option<String>> = Vec::new();
        assert(none.deep_view() =~= Seq::empty());
        match self.run(Statement::CreateRecords(Kind::Password), &none) {
            Ok(()) => {},
            Err(e) => { return Err(e); },
        }
        match self.run(Statement::CreateRecords(Kind::Event), &none) {
            Ok(()) => {},
            Err(e) => { return Err(e); },
        }
        match self.run(Statement::CreateRecords(Kind::Document), &none) {
            Ok(()) => {},
            Err(e) => { return Err(e); },
        }
        self.run(Statement::CreateSettings, &none)
    }

    /// All passwords, the one updated last first; where two have the same
    /// `updated_at`, either may come first. An empty store gives an empty
    /// list. Fails where the database fails, or where a row cannot be read
    /// as a password.
    pub fn get_all_passwords(&self) -> (r: Result<Vec<PasswordEntry>, StoreError>)
        ensures
            self.intact() ==> (r matches Ok(list) ==> self@.lists_passwords(list.deep_view())
                && passwords_newest_first(list.deep_view())),
            r matches Err(e) ==> e@.len() > 0,
    {
        let none: Vec<Option<String>> = Vec::new();
        assert(none.deep_view() =~= Seq::empty());
        let out = match self.ask(Query::List(Kind::Password), &none) {
            Ok(out) => out,
            Err(e) => { return Err(e); },
        };
        match PasswordEntry::from_rows(&out) {
            Ok(list) => {
                proof {
                    if self.intact() {
                        lemma_listing(self.rows(), out.deep_view(), list.deep_view());
                    }
                }
                Ok(list)
            },
            Err(e) => Err(e),
        }
    }

    /// Stores a new password under its id. Fails, and changes nothing, where
    /// a password with that id is stored already; the caller makes the ids.
    pub fn add_password(&mut self, entry: &PasswordEntry) -> (r: Result<(), StoreError>)
        ensures
            final(self).location() == old(self).location(),
            old(self).intact() ==> final(self).tables() == old(self).tables(),
            old(self).intact() && entry@.plain() ==> ({
                &&& final(self).intact()
                &&& r is Ok ==> !old(self)@.passwords.contains_key(entry.id@) && final(self)@
                    == old(self)@.with_password(entry@)
                &&& r is Err ==> final(self)@ == old(self)@
                &&& old(self)@.passwords.contains_key(entry.id@) ==> r is Err
            }),
            r matches Err(e) ==> e@.len() > 0,
    {
        let row = entry.to_row();
        proof {
            lemma_frame(Statement::Insert(Kind::Password), self.rows(), row.deep_view());
            lemma_insert::<PasswordRecord>(self.rows(), entry@);
        }
        self.run(Statement::Insert(Kind::Password), &row)
    }

    /// Overwrites the password that has the given id with the given password,
    /// but for `created_at`, which stays as it was stored. Where no password
    /// has that id nothing changes, and that is no failure.
    pub fn update_password(&mut self, entry: &PasswordEntry) -> (r: Result<(), StoreError>)
        ensures
            final(self).location() == old(self).location(),
            old(self).intact() ==> final(self).tables() == old(self).tables(),
            old(self).intact() && entry@.plain() ==> ({
                &&& final(self).intact()
                &&& r is Ok ==> final(self)@ == old(self)@.revising_password(entry@)
                &&& r is Err ==> final(self)@ == old(self)@
                &&& !old(self)@.passwords.contains_key(entry.id@) ==> final(self)@ == old(self)@
            }),
            r matches Err(e) ==> e@.len() > 0,
    {
        let args = entry.to_changes();
        proof {
            lemma_frame(Statement::Update(Kind::Password), self.rows(), args.deep_view());
            lemma_update::<PasswordRecord>(self.rows(), entry@);
        }
        self.run(Statement::Update(Kind::Password), &args)
    }

    /// Removes the password with the given id. Where there is none nothing
    /// changes, and that is no failure.
    pub fn delete_password(&mut self, id: &str) -> (r: Result<(), StoreError>)
        ensures
            final(self).location() == old(self).location(),
            old(self).intact() ==> final(self).tables() == old(self).tables(),
            old(self).intact() && nul_free(id@) ==> ({
                &&& final(self).intact()
                &&& r is Ok ==> final(self)@ == old(self)@.without_password(id@)
                &&& r is Err ==> final(self)@ == old(self)@
            }),
            r matches Err(e) ==> e@.len() > 0,
    {
        let mut args: Vec<Option<String>> = Vec::new();
        args.push(Some(id.to_owned()));
        proof {
            assert(args.deep_view() =~= seq![Some(id@)]);
            lemma_frame(Statement::Delete(Kind::Password), self.rows(), args.deep_view());
            lemma_delete::<PasswordRecord>(self.rows(), id@);
        }
        self.run(Statement::Delete(Kind::Password), &args)
    }

    /// All events, the one that starts first first; where two have the same
    /// `start_date`, either may come first. An empty store gives an empty
    /// list. Fails where the database fails, or where a row cannot be read
    /// as an event.
    pub fn get_all_events(&self) -> (r: Result<Vec<CalendarEvent>, StoreError>)
        ensures
            self.intact() ==> (r matches Ok(list) ==> self@.lists_events(list.deep_view())
                && events_earliest_first(list.deep_view())),
            r matches Err(e) ==> e@.len() > 0,
    {
        let none: Vec<Option<String>> = Vec::new();
        assert(none.deep_view() =~= Seq::empty());
        let out = match self.ask(Query::List(Kind::Event), &none) {
            Ok(out) => out,
            Err(e) => { return Err(e); },
        };
        match CalendarEvent::from_rows(&out) {
            Ok(list) => {
                proof {
                    if self.intact() {
                        lemma_listing(self.rows(), out.deep_view(), list.deep_view());
                    }
                }
                Ok(list)
            },
            Err(e) => Err(e),
        }
    }

    /// Stores a new event under its id. Fails, and changes nothing, where
    /// an event with that id is stored already; the caller makes the ids.
    pub fn add_event(&mut self, event: &CalendarEvent) -> (r: Result<(), StoreError>)
        ensures
            final(self).location() == old(self).location(),
            old(self).intact() ==> final(self).tables() == old(self).tables(),
            old(self).intact() && event@.plain() ==> ({
                &&& final(self).intact()
                &&& r is Ok ==> !old(self)@.events.contains_key(event.id@) && final(self)@
                    == old(self)@.with_event(event@)
                &&& r is Err ==> final(self)@ == old(self)@
                &&& old(self)@.events.contains_key(event.id@) ==> r is Err
            }),
            r matches Err(e) ==> e@.len() > 0,
    {
        let row = event.to_row();
        proof {
            lemma_frame(Statement::Insert(Kind::Event), self.rows(), row.deep_view());
            lemma_insert::<EventRecord>(self.rows(), event@);
        }
        self.run(Statement::Insert(Kind::Event), &row)
    }

    /// Overwrites the event that has the given id with the given event,
    /// but for `created_at`, which stays as it was stored. Where no event
    /// has that id nothing changes, and that is no failure.
    pub fn update_event(&mut self, event: &CalendarEvent) -> (r: Result<(), StoreError>)
        ensures
            final(self).location() == old(self).location(),
            old(self).intact() ==> final(self).tables() == old(self).tables(),
            old(self).intact() && event@.plain() ==> ({
                &&& final(self).intact()
                &&& r is Ok ==> final(self)@ == old(self)@.revising_event(event@)
                &&& r is Err ==> final(self)@ == old(self)@
                &&& !old(self)@.events.contains_key(event.id@) ==> final(self)@ == old(self)@
            }),
            r matches Err(e) ==> e@.len() > 0,
    {
        let args = event.to_changes();
        proof {
            lemma_frame(Statement::Update(Kind::Event), self.rows(), args.deep_view());
            lemma_update::<EventRecord>(self.rows(), event@);
        }
        self.run(Statement::Update(Kind::Event), &args)
    }

    /// Removes the event with the given id. Where there is none nothing
    /// changes, and that is no failure.
    pub fn delete_event(&mut self, id: &str) -> (r: Result<(), StoreError>)
        ensures
            final(self).location() == old(self).location(),
            old(self).intact() ==> final(self).tables() == old(self).tables(),
            old(self).intact() && nul_free(id@) ==> ({
                &&& final(self).intact()
                &&& r is Ok ==> final(self)@ == old(self)@.without_event(id@)
                &&& r is Err ==> final(self)@ == old(self)@
            }),
            r matches Err(e) ==> e@.len() > 0,
    {
        let mut args: Vec<Option<String>> = Vec::new();
        args.push(Some(id.to_owned()));
        proof {
            assert(args.deep_view() =~= seq![Some(id@)]);
            lemma_frame(Statement::Delete(Kind::Event), self.rows(), args.deep_view());
            lemma_delete::<EventRecord>(self.rows(), id@);
        }
        self.run(Statement::Delete(Kind::Event), &args)
    }

    /// All documents, the one updated last first; where two have the same
    /// `updated_at`, either may come first. An empty store gives an empty
    /// list. Fails where the database fails, or where a row cannot be read
    /// as a document.
    pub fn get_all_documents(&self) -> (r: Result<Vec<Document>, StoreError>)
        ensures
            self.intact() ==> (r matches Ok(list) ==> self@.lists_documents(list.deep_view())
                && documents_newest_first(list.deep_view())),
            r matches Err(e) ==> e@.len() > 0,
    {
        let none: Vec<Option<String>> = Vec::new();
        assert(none.deep_view() =~= Seq::empty());
        let out = match self.ask(Query::List(Kind::Document), &none) {
            Ok(out) => out,
            Err(e) => { return Err(e); },
        };
        match Document::from_rows(&out) {
            Ok(list) => {
                proof {
                    if self.intact() {
                        lemma_listing(self.rows(), out.deep_view(), list.deep_view());
                    }
                }
                Ok(list)
            },
            Err(e) => Err(e),
        }
    }

    /// Stores a new document under its id. Fails, and changes nothing, where
    /// a document with that id is stored already; the caller makes the ids.
    pub fn add_document(&mut self, doc: &Document) -> (r: Result<(), StoreError>)
        ensures
            final(self).location() == old(self).location(),
            old(self).intact() ==> final(self).tables() == old(self).tables(),
            old(self).intact() && doc@.plain() ==> ({
                &&& final(self).intact()
                &&& r is Ok ==> !old(self)@.documents.contains_key(doc.id@) && final(self)@
                    == old(self)@.with_document(doc@)
                &&& r is Err ==> final(self)@ == old(self)@
                &&& old(self)@.documents.contains_key(doc.id@) ==> r is Err
            }),
            r matches Err(e) ==> e@.len() > 0,
    {
        let row = doc.to_row();
        proof {
            lemma_frame(Statement::Insert(Kind::Document), self.rows(), row.deep_view());
            lemma_insert::<DocumentRecord>(self.rows(), doc@);
        }
        self.run(Statement::Insert(Kind::Document), &row)
    }

    /// Overwrites the document that has the given id with the given document,
    /// but for `created_at`, which stays as it was stored. Where no document
    /// has that id nothing changes, and that is no failure.
    pub fn update_document(&mut self, doc: &Document) -> (r: Result<(), StoreError>)
        ensures
            final(self).location() == old(self).location(),
            old(self).intact() ==> final(self).tables() == old(self).tables(),
            old(self).intact() && doc@.plain() ==> ({
                &&& final(self).intact()
                &&& r is Ok ==> final(self)@ == old(self)@.revising_document(doc@)
                &&& r is Err ==> final(self)@ == old(self)@
                &&& !old(self)@.documents.contains_key(doc.id@) ==> final(self)@ == old(self)@
            }),
            r matches Err(e) ==> e@.len() > 0,
    {
        let args = doc.to_changes();
        proof {
            lemma_frame(Statement::Update(Kind::Document), self.rows(), args.deep_view());
            lemma_update::<DocumentRecord>(self.rows(), doc@);
        }
        self.run(Statement::Update(Kind::Document), &args)
    }

    /// Removes the document with the given id. Where there is none nothing
    /// changes, and that is no failure.
    pub fn delete_document(&mut self, id: &str) -> (r: Result<(), StoreError>)
        ensures
            final(self).location() == old(self).location(),
            old(self).intact() ==> final(self).tables() == old(self).tables(),
            old(self).intact() && nul_free(id@) ==> ({
                &&& final(self).intact()
                &&& r is Ok ==> final(self)@ == old(self)@.without_document(id@)
                &&& r is Err ==> final(self)@ == old(self)@
            }),
            r matches Err(e) ==> e@.len() > 0,
    {
        let mut args: Vec<Option<String>> = Vec::new();
        args.push(Some(id.to_owned()));
        proof {
            assert(args.deep_view() =~= seq![Some(id@)]);
            lemma_frame(Statement::Delete(Kind::Document), self.rows(), args.deep_view());
            lemma_delete::<DocumentRecord>(self.rows(), id@);
        }
        self.run(Statement::Delete(Kind::Document), &args)
    }

    /// The value of the setting under `key`, or `None` where there is no
    /// such setting. Fails where the database fails, or where the value
    /// cannot be read as text.
    pub fn get_setting(&self, key: &str) -> (r: Result<Option<String>, StoreError>)
        ensures
            self.intact() && nul_free(key@) ==> (r matches Ok(value) ==> value.deep_view()
                == self@.setting(key@)),
            r matches Err(e) ==> e@.len() > 0,
    {
        let mut args: Vec<Option<String>> = Vec::new();
        args.push(Some(key.to_owned()));
        assert(args.deep_view() =~= seq![Some(key@)]);
        let out = match self.ask(Query::GetSetting, &args) {
            Ok(out) => out,
            Err(e) => { return Err(e); },
        };
        proof {
            if self.intact() && nul_free(key@) {
                lemma_setting_lookup(self.rows(), key@, out.deep_view());
            }
        }
        setting_from_rows(&out)
    }

    /// Stores `value` as the setting under `key`, in place of the value
    /// that was there if there was one.
    pub fn set_setting(&mut self, key: &str, value: &str) -> (r: Result<(), StoreError>)
        ensures
            final(self).location() == old(self).location(),
            old(self).intact() ==> final(self).tables() == old(self).tables(),
            old(self).intact() && nul_free(key@) && nul_free(value@) ==> ({
                &&& final(self).intact()
                &&& r is Ok ==> final(self)@ == old(self)@.with_setting(key@, value@)
                &&& r is Err ==> final(self)@ == old(self)@
            }),
            r matches Err(e) ==> e@.len() > 0,
    {
        let mut args: Vec<Option<String>> = Vec::new();
        args.push(Some(key.to_owned()));
        args.push(Some(value.to_owned()));
        proof {
            assert(args.deep_view() =~= seq![Some(key@), Some(value@)]);
            lemma_put_setting(self.rows(), key@, value@);
        }
        self.run(Statement::PutSetting, &args)
    }
}

} // verus!
