//! What a vault holds, as mathematics: four maps, one for each table, from
//! a record's id (or a setting's key) to the record (or the value).

use vstd::prelude::*;
use crate::records::Record;
use crate::records::DocumentRecord;
use crate::records::EventRecord;
use crate::records::PasswordRecord;
use crate::schema::lemma_table_names_differ;
use crate::schema::settings_table;
use crate::schema::stored_row;
use crate::schema::Cells;
use crate::schema::Kind;
use crate::schema::Query;
use crate::schema::Rows;
use crate::schema::Statement;
use crate::text::lemma_text_order_is_byte_order;
use crate::text::text_le;
use crate::text::text_of;

verus! {

/// The records of one kind that the rows of a database make up, by id.
pub open spec fn table_of<R: Record>(rows: Rows) -> Map<Seq<char>, R> {
    Map::new(
        |id: Seq<char>| rows.contains_key((R::kind().table(), id)),
        |id: Seq<char>| R::of_row(id, rows[(R::kind().table(), id)]),
    )
}

/// `listing` holds the records of the table, each of them once.
pub open spec fn lists<R: Record>(table: Map<Seq<char>, R>, listing: Seq<R>) -> bool {
    &&& forall|i: int|
        0 <= i < listing.len() ==> table.contains_key((#[trigger] listing[i]).key())
            && table[listing[i].key()] == listing[i]
    &&& forall|i: int, j: int|
        0 <= i < j < listing.len() ==> (#[trigger] listing[i]).key() != (#[trigger] listing[j]).key()
    &&& forall|id: Seq<char>| #[trigger]
        table.contains_key(id) ==> exists|i: int|
            0 <= i < listing.len() && (#[trigger] listing[i]).key() == id
}

/// The listing is in the order of its kind: where the kind is listed
/// downwards, no record has a greater rank than one before it; where
/// upwards, none has a smaller.
pub open spec fn in_order<R: Record>(listing: Seq<R>) -> bool {
    forall|i: int, j: int|
        0 <= i < j < listing.len() ==> if R::kind().descending() {
            text_le((#[trigger] listing[j]).rank(), (#[trigger] listing[i]).rank())
        } else {
            text_le(listing[i].rank(), listing[j].rank())
        }
}

/// The table after an update with `given`: where a record has its id,
/// `given` takes its place and keeps the stored `created_at`; where none
/// has, nothing changes.
pub open spec fn revised<R: Record>(table: Map<Seq<char>, R>, given: R) -> Map<Seq<char>, R> {
    if table.contains_key(given.key()) {
        table.insert(given.key(), given.replacing(table[given.key()]))
    } else {
        table
    }
}

/// The contents of a vault.
pub struct Vault {
    pub passwords: Map<Seq<char>, PasswordRecord>,
    pub events: Map<Seq<char>, EventRecord>,
    pub documents: Map<Seq<char>, DocumentRecord>,
    pub settings: Map<Seq<char>, Seq<char>>,
}

impl Vault {
    /// The vault that holds nothing.
    pub open spec fn empty() -> Vault {
        Vault {
            passwords: Map::empty(),
            events: Map::empty(),
            documents: Map::empty(),
            settings: Map::empty(),
        }
    }

    /// The vault that the rows of a database make up.
    pub open spec fn of_rows(rows: Rows) -> Vault {
        Vault {
            passwords: table_of(rows),
            events: table_of(rows),
            documents: table_of(rows),
            settings: Map::new(
                |key: Seq<char>| rows.contains_key((settings_table(), key)),
                |key: Seq<char>| text_of(rows[(settings_table(), key)][1]),
            ),
        }
    }

    /// The vault with `entry` stored under its id.
    pub open spec fn with_password(self, entry: PasswordRecord) -> Vault {
        Vault { passwords: self.passwords.insert(entry.id, entry), ..self }
    }

    /// The vault after an update with `entry`: where a password has the
    /// entry's id, the entry takes its place and keeps its `created_at`;
    /// where none has, nothing changes.
    pub open spec fn revising_password(self, entry: PasswordRecord) -> Vault {
        Vault { passwords: revised(self.passwords, entry), ..self }
    }

    /// The vault without the password that has the given id.
    pub open spec fn without_password(self, id: Seq<char>) -> Vault {
        Vault { passwords: self.passwords.remove(id), ..self }
    }

    /// The vault with `event` stored under its id.
    pub open spec fn with_event(self, event: EventRecord) -> Vault {
        Vault { events: self.events.insert(event.id, event), ..self }
    }

    /// The vault after an update with `event`: where an event has its id,
    /// `event` takes its place and keeps its `created_at`; where none has,
    /// nothing changes.
    pub open spec fn revising_event(self, event: EventRecord) -> Vault {
        Vault { events: revised(self.events, event), ..self }
    }

    /// The vault without the event that has the given id.
    pub open spec fn without_event(self, id: Seq<char>) -> Vault {
        Vault { events: self.events.remove(id), ..self }
    }

    /// The vault with `doc` stored under its id.
    pub open spec fn with_document(self, doc: DocumentRecord) -> Vault {
        Vault { documents: self.documents.insert(doc.id, doc), ..self }
    }

    /// The vault after an update with `doc`: where a document has its id,
    /// `doc` takes its place and keeps its `created_at`; where none has,
    /// nothing changes.
    pub open spec fn revising_document(self, doc: DocumentRecord) -> Vault {
        Vault { documents: revised(self.documents, doc), ..self }
    }

    /// The vault without the document that has the given id.
    pub open spec fn without_document(self, id: Seq<char>) -> Vault {
        Vault { documents: self.documents.remove(id), ..self }
    }

    /// The vault with `value` as the setting under `key`, whatever was
    /// there before.
    pub open spec fn with_setting(self, key: Seq<char>, value: Seq<char>) -> Vault {
        Vault { settings: self.settings.insert(key, value), ..self }
    }

    /// The setting under `key`, if there is one.
    pub open spec fn setting(self, key: Seq<char>) -> Option<Seq<char>> {
        if self.settings.contains_key(key) {
            Some(self.settings[key])
        } else {
            None
        }
    }

    /// `listing` holds the passwords of the vault, each of them once.
    pub open spec fn lists_passwords(self, listing: Seq<PasswordRecord>) -> bool {
        lists(self.passwords, listing)
    }

    /// `listing` holds the events of the vault, each of them once.
    pub open spec fn lists_events(self, listing: Seq<EventRecord>) -> bool {
        lists(self.events, listing)
    }

    /// `listing` holds the documents of the vault, each of them once.
    pub open spec fn lists_documents(self, listing: Seq<DocumentRecord>) -> bool {
        lists(self.documents, listing)
    }
}

/// No password in the listing was updated later than one before it.
pub open spec fn passwords_newest_first(listing: Seq<PasswordRecord>) -> bool {
    in_order(listing)
}

/// No event in the listing starts earlier than one before it.
pub open spec fn events_earliest_first(listing: Seq<EventRecord>) -> bool {
    in_order(listing)
}

/// No document in the listing was updated later than one before it.
pub open spec fn documents_newest_first(listing: Seq<DocumentRecord>) -> bool {
    in_order(listing)
}

/// Two vaults with the same four maps are one vault.
pub proof fn lemma_vault_ext(a: Vault, b: Vault)
    requires
        a.passwords =~= b.passwords,
        a.events =~= b.events,
        a.documents =~= b.documents,
        a.settings =~= b.settings,
    ensures
        a == b,
{
}

/// A statement changes no table but its own: the records of every kind
/// that it does not touch stay, and the settings stay unless it puts one.
pub proof fn lemma_frame(stmt: Statement, rows: Rows, args: Cells)
    ensures
        stmt.touches() != Some(Kind::Password) ==> Vault::of_rows(
            stmt.applied(rows, args),
        ).passwords == Vault::of_rows(rows).passwords,
        stmt.touches() != Some(Kind::Event) ==> Vault::of_rows(stmt.applied(rows, args)).events
            == Vault::of_rows(rows).events,
        stmt.touches() != Some(Kind::Document) ==> Vault::of_rows(
            stmt.applied(rows, args),
        ).documents == Vault::of_rows(rows).documents,
        !(stmt is PutSetting) ==> Vault::of_rows(stmt.applied(rows, args)).settings
            == Vault::of_rows(rows).settings,
{
    lemma_table_names_differ();
    let before = Vault::of_rows(rows);
    let after = Vault::of_rows(stmt.applied(rows, args));
    if stmt.touches() != Some(Kind::Password) {
        assert(after.passwords =~= before.passwords);
    }
    if stmt.touches() != Some(Kind::Event) {
        assert(after.events =~= before.events);
    }
    if stmt.touches() != Some(Kind::Document) {
        assert(after.documents =~= before.documents);
    }
    if !(stmt is PutSetting) {
        assert(after.settings =~= before.settings);
    }
}

/// The insert statement of a kind stores the record in the kind's table,
/// and is refused where the table has a record under that id.
pub proof fn lemma_insert<R: Record>(rows: Rows, given: R)
    ensures
        table_of::<R>(Statement::Insert(R::kind()).applied(rows, given.cells())) == table_of::<R>(
            rows,
        ).insert(given.key(), given),
        Statement::Insert(R::kind()).refused(rows, given.cells()) <==> table_of::<R>(
            rows,
        ).contains_key(given.key()),
{
    given.lemma_written();
    assert(table_of::<R>(Statement::Insert(R::kind()).applied(rows, given.cells()))
        =~= table_of::<R>(rows).insert(given.key(), given));
}

/// The update statement of a kind revises the kind's table with the record.
pub proof fn lemma_update<R: Record>(rows: Rows, given: R)
    ensures
        table_of::<R>(Statement::Update(R::kind()).applied(rows, given.changes())) == revised(
            table_of::<R>(rows),
            given,
        ),
{
    given.lemma_changed(rows[(R::kind().table(), given.key())]);
    assert(table_of::<R>(Statement::Update(R::kind()).applied(rows, given.changes())) =~= revised(
        table_of::<R>(rows),
        given,
    ));
}

/// The delete statement of a kind removes the record with the id from the
/// kind's table.
pub proof fn lemma_delete<R: Record>(rows: Rows, id: Seq<char>)
    ensures
        table_of::<R>(Statement::Delete(R::kind()).applied(rows, seq![Some(id)])) == table_of::<R>(
            rows,
        ).remove(id),
{
    assert(table_of::<R>(Statement::Delete(R::kind()).applied(rows, seq![Some(id)]))
        =~= table_of::<R>(rows).remove(id));
}

/// The statement that puts a setting stores the value under the key.
pub proof fn lemma_put_setting(rows: Rows, key: Seq<char>, value: Seq<char>)
    ensures
        Vault::of_rows(Statement::PutSetting.applied(rows, seq![Some(key), Some(value)]))
            == Vault::of_rows(rows).with_setting(key, value),
{
    lemma_table_names_differ();
    let after = Statement::PutSetting.applied(rows, seq![Some(key), Some(value)]);
    lemma_vault_ext(Vault::of_rows(after), Vault::of_rows(rows).with_setting(key, value));
}

/// A database without rows is the empty vault.
pub proof fn lemma_no_rows_is_empty()
    ensures
        Vault::of_rows(Map::empty()) == Vault::empty(),
{
    lemma_vault_ext(Vault::of_rows(Map::empty()), Vault::empty());
}

/// What a listing query answers, read row by row, lists the records of the
/// kind's table, in the kind's order.
pub proof fn lemma_listing<R: Record>(rows: Rows, out: Seq<Cells>, listing: Seq<R>)
    requires
        Query::List(R::kind()).answers(rows, Seq::empty(), out),
        listing.len() == out.len(),
        forall|i: int|
            0 <= i < out.len() ==> R::readable(#[trigger] out[i]) && listing[i] == R::of_row(
                text_of(out[i][0]),
                out[i],
            ),
    ensures
        lists(table_of::<R>(rows), listing),
        in_order(listing),
{
    let table = table_of::<R>(rows);
    let name = R::kind().table();
    assert forall|i: int| 0 <= i < listing.len() implies (#[trigger] listing[i]).key() == text_of(
        out[i][0],
    ) && stored_row(rows, name, out[i]) by {
        assert(out[i].len() == R::kind().width());
        assert(R::readable(out[i]));
        R::lemma_read(text_of(out[i][0]), out[i]);
    }
    assert forall|i: int| 0 <= i < listing.len() implies table.contains_key(
        (#[trigger] listing[i]).key(),
    ) && table[listing[i].key()] == listing[i] by {
        assert(stored_row(rows, name, out[i]));
    }
    assert forall|i: int, j: int| 0 <= i < j < listing.len() implies (#[trigger] listing[i]).key()
        != (#[trigger] listing[j]).key() by {
        assert(text_of(out[i][0]) != text_of(out[j][0]));
    }
    assert forall|id: Seq<char>| #[trigger] table.contains_key(id) implies exists|i: int|
        0 <= i < listing.len() && (#[trigger] listing[i]).key() == id by {
        assert(rows.contains_key((name, id)));
        let i = choose|i: int| 0 <= i < out.len() && text_of(#[trigger] out[i][0]) == id;
        assert(listing[i].key() == id);
    }
    let column = R::kind().sort_column();
    assert forall|i: int, j: int| 0 <= i < j < listing.len() implies if R::kind().descending() {
        text_le((#[trigger] listing[j]).rank(), (#[trigger] listing[i]).rank())
    } else {
        text_le(listing[i].rank(), listing[j].rank())
    } by {
        assert(R::kind().in_order(out[i], out[j]));
        assert(R::readable(out[i]) && R::readable(out[j]));
        R::lemma_read(text_of(out[i][0]), out[i]);
        R::lemma_read(text_of(out[j][0]), out[j]);
        lemma_text_order_is_byte_order(text_of(out[i][column]), text_of(out[j][column]));
        lemma_text_order_is_byte_order(text_of(out[j][column]), text_of(out[i][column]));
    }
}

/// What a lookup answers for a key is the setting under that key.
pub proof fn lemma_setting_lookup(rows: Rows, key: Seq<char>, out: Seq<Cells>)
    requires
        Query::GetSetting.answers(rows, seq![Some(key)], out),
    ensures
        out.len() == 0 ==> Vault::of_rows(rows).setting(key) is None,
        out.len() != 0 ==> out.len() == 1 && out[0].len() == 1 && Vault::of_rows(rows).setting(key)
            == Some(text_of(out[0][0])),
{
}

} // verus!
