//! The database engine, as far as this library relies on it.
//!
//! Nothing in this file is proved. Each item states what the library takes
//! for granted of SQLite, reached through the `rusqlite` crate, and the
//! tests run every one of them against the engine.
//!
//! What a statement does to the rows and to the tables is claimed of an
//! [`intact`] database alone: one that no other connection reaches and that holds nothing but
//! what the statements of this schema have put there, none of it text with
//! a character U+0000. Its tables are then the ones that the schema creates:
//! each has its first column as primary key, every cell is NULL or text, and
//! text is kept in UTF-8 and ordered byte by byte, as
//! [`crate::text::cell_le`] says. Of a database file, which another
//! connection may write and another program may have made, no such claim is
//! made.

use vstd::prelude::*;
use crate::schema::Statement;
use crate::schema::Query;
use crate::schema::plain;

verus! {

/// `rusqlite::Connection`: an open database. Of its inside nothing is known
/// but what [`stored`] says.
#[verifier::external_type_specification]
#[verifier::external_body]
pub struct ExConnection(rusqlite::Connection);

/// `rusqlite::Error`: why a call into the database failed.
#[verifier::external_type_specification]
#[verifier::external_body]
pub struct ExError(rusqlite::Error);

/// The rows that the database behind a connection holds: for a table's name
/// and a primary key, the cells of the row with that key, in the order of the
/// table's columns.
pub uninterp spec fn stored(conn: rusqlite::Connection) -> Map<
    (Seq<char>, Seq<char>),
    Seq<Option<Seq<char>>>,
>;

/// The names of the tables that exist in the database behind a connection.
pub uninterp spec fn created(conn: rusqlite::Connection) -> Set<Seq<char>>;

/// The path with which the connection was opened.
pub uninterp spec fn location(conn: rusqlite::Connection) -> Seq<char>;

/// The database behind the connection is the connection's own, reached by no
/// other, and holds nothing but what statements of this schema, run through
/// this connection with parameters free of U+0000, have put there.
pub uninterp spec fn intact(conn: rusqlite::Connection) -> bool;

/// `rusqlite::Connection::open`: opens the database at `path`, creating the
/// file if there is none. The connection that comes back is one to that
/// path. The path `:memory:` stands for a new database in memory, private to
/// the connection: it is intact and has no tables and no rows. Of what a
/// file holds nothing is claimed.
#[verifier::external_body]
pub(crate) fn open(path: &str) -> (r: Result<rusqlite::Connection, rusqlite::Error>)
    ensures
        r matches Ok(conn) ==> location(conn) == path@,
        r matches Ok(conn) ==> (path@ == ":memory:"@ ==> intact(conn) && created(conn)
            == Set::<Seq<char>>::empty() && stored(conn) == Map::<
            (Seq<char>, Seq<char>),
            Seq<Option<Seq<char>>>,
        >::empty()),
{
    rusqlite::Connection::open(path)
}

/// `rusqlite::Connection::execute`: prepares `sql`, binds `args` to its
/// parameters in order, and runs it to completion.
///
/// Claimed of every connection: it stays a connection to the path that it
/// was opened with.
///
/// Claimed of an intact database: a statement that fails leaves the tables
/// that exist, and one that succeeds leaves those that
/// [`Statement::tables_after`] gives.
///
/// Claimed of an intact database and parameters free of U+0000: the
/// database stays intact; a statement that fails changes no row; one that
/// succeeds leaves the rows that [`Statement::applied`] gives; an insert
/// under a key that is taken fails.
///
/// The number that comes back on success, the count of rows changed, is
/// left open.
#[verifier::external_body]
pub(crate) fn execute(conn: &mut rusqlite::Connection, sql: &str, args: &Vec<Option<String>>) -> (r:
    Result<usize, rusqlite::Error>)
    requires
        Statement::denoted(sql@) is Some,
        Statement::denoted(sql@).unwrap().accepts(args.deep_view()),
    ensures
        location(*final(conn)) == location(*old(conn)),
        intact(*old(conn)) && r is Err ==> created(*final(conn)) == created(*old(conn)),
        intact(*old(conn)) && r is Ok ==> created(*final(conn)) == Statement::denoted(
            sql@,
        ).unwrap().tables_after(created(*old(conn))),
        intact(*old(conn)) && plain(args.deep_view()) ==> intact(*final(conn)),
        intact(*old(conn)) && plain(args.deep_view()) && r is Err ==> stored(*final(conn))
            == stored(*old(conn)),
        intact(*old(conn)) && plain(args.deep_view()) && r is Ok ==> stored(*final(conn))
            == Statement::denoted(sql@).unwrap().applied(stored(*old(conn)), args.deep_view()),
        intact(*old(conn)) && plain(args.deep_view()) && Statement::denoted(
            sql@,
        ).unwrap().refused(stored(*old(conn)), args.deep_view()) ==> r is Err,
{
    conn.execute(sql, rusqlite::params_from_iter(args.iter()))
}

/// `rusqlite::Connection::prepare`, `Statement::query`, `Rows::next` and
/// `Row::get`: prepares `sql`, binds `args`, and hands out every row of the
/// result, each cell read as text or NULL. A cell that is neither makes the
/// call fail.
///
/// Claimed of an intact database and parameters free of U+0000: the rows
/// that come back are an answer to the query in the sense of
/// [`Query::answers`]: for a listing, every row of the table once, in the
/// order that the query asks for; for a lookup, the value under the key or
/// no row.
#[verifier::external_body]
pub(crate) fn query(conn: &rusqlite::Connection, sql: &str, args: &Vec<Option<String>>) -> (r:
    Result<Vec<Vec<Option<String>>>, rusqlite::Error>)
    requires
        Query::denoted(sql@) is Some,
        Query::denoted(sql@).unwrap().accepts(args.deep_view()),
    ensures
        intact(*conn) && plain(args.deep_view()) ==> (r matches Ok(rows) ==> Query::denoted(
            sql@,
        ).unwrap().answers(stored(*conn), args.deep_view(), rows.deep_view())),
{
    let mut stmt = conn.prepare(sql)?;
    let width: usize = stmt.column_count();
    let mut rows = stmt.query(rusqlite::params_from_iter(args.iter()))?;
    let mut out = Vec::new();
    while let Some(row) = rows.next()? {
        let mut cells = Vec::with_capacity(width);
        for i in 0..width {
            cells.push(row.get::<usize, Option<String>>(i)?);
        }
        out.push(cells);
    }
    Ok(out)
}

/// The `Display` text of a `rusqlite::Error`. Nothing is claimed of it.
#[verifier::external_body]
pub(crate) fn describe(err: &rusqlite::Error) -> String {
    err.to_string()
}

} // verus!
