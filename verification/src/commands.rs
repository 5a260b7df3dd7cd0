//! The commands that a host shell invokes by name. Each hands its payload
//! to the one operation of the store that it stands for and turns a failure
//! into its message; it validates and changes nothing itself. What a command
//! promises of the store it promises as the operation does: of an intact
//! store and of text without a character U+0000.

use vstd::prelude::*;
use crate::records::Record;
use crate::database::Database;
use crate::records::CalendarEvent;
use crate::records::Document;
use crate::records::PasswordEntry;
use crate::schema::nul_free;
pub use crate::system::get_system_info;
use crate::vault::documents_newest_first;
use crate::vault::events_earliest_first;
use crate::vault::passwords_newest_first;

verus! {

/// Command `get_all_passwords`: all passwords, the one updated last first.
pub fn get_all_passwords(db: &Database) -> (r: Result<Vec<PasswordEntry>, String>)
    ensures
        db.intact() ==> (r matches Ok(list) ==> db@.lists_passwords(list.deep_view()) && passwords_newest_first(
            list.deep_view(),
        )),
        r matches Err(message) ==> message@.len() > 0,
{
    match db.get_all_passwords() {
        Ok(list) => Ok(list),
        Err(e) => Err(e.to_string()),
    }
}

/// Command `add_password`: stores a new password; fails where its id is taken.
pub fn add_password(db: &mut Database, entry: PasswordEntry) -> (r: Result<(), String>)
    ensures
        final(db).location() == old(db).location(),
        old(db).intact() ==> final(db).tables() == old(db).tables(),
        old(db).intact() && entry@.plain() ==> ({
            &&& final(db).intact()
            &&& r is Ok ==> !old(db)@.passwords.contains_key(entry.id@) && final(db)@ == old(
                db,
            )@.with_password(entry@)
            &&& r is Err ==> final(db)@ == old(db)@
            &&& old(db)@.passwords.contains_key(entry.id@) ==> r is Err
        }),
        r matches Err(message) ==> message@.len() > 0,
{
    match db.add_password(&entry) {
        Ok(()) => Ok(()),
        Err(e) => Err(e.to_string()),
    }
}

/// Command `update_password`: overwrites the password with the entry's id, if there is one.
pub fn update_password(db: &mut Database, entry: PasswordEntry) -> (r: Result<(), String>)
    ensures
        final(db).location() == old(db).location(),
        old(db).intact() ==> final(db).tables() == old(db).tables(),
        old(db).intact() && entry@.plain() ==> ({
            &&& final(db).intact()
            &&& r is Ok ==> final(db)@ == old(db)@.revising_password(entry@)
            &&& r is Err ==> final(db)@ == old(db)@
            &&& !old(db)@.passwords.contains_key(entry.id@) ==> final(db)@ == old(db)@
        }),
        r matches Err(message) ==> message@.len() > 0,
{
    match db.update_password(&entry) {
        Ok(()) => Ok(()),
        Err(e) => Err(e.to_string()),
    }
}

/// Command `delete_password`: removes the password with the id, if there is one.
pub fn delete_password(db: &mut Database, id: String) -> (r: Result<(), String>)
    ensures
        final(db).location() == old(db).location(),
        old(db).intact() ==> final(db).tables() == old(db).tables(),
        old(db).intact() && nul_free(id@) ==> ({
            &&& final(db).intact()
            &&& r is Ok ==> final(db)@ == old(db)@.without_password(id@)
            &&& r is Err ==> final(db)@ == old(db)@
        }),
        r matches Err(message) ==> message@.len() > 0,
{
    match db.delete_password(id.as_str()) {
        Ok(()) => Ok(()),
        Err(e) => Err(e.to_string()),
    }
}

/// Command `get_all_events`: all events, the one that starts first first.
pub fn get_all_events(db: &Database) -> (r: Result<Vec<CalendarEvent>, String>)
    ensures
        db.intact() ==> (r matches Ok(list) ==> db@.lists_events(list.deep_view()) && events_earliest_first(
            list.deep_view(),
        )),
        r matches Err(message) ==> message@.len() > 0,
{
    match db.get_all_events() {
        Ok(list) => Ok(list),
        Err(e) => Err(e.to_string()),
    }
}

/// Command `add_event`: stores a new event; fails where its id is taken.
pub fn add_event(db: &mut Database, event: CalendarEvent) -> (r: Result<(), String>)
    ensures
        final(db).location() == old(db).location(),
        old(db).intact() ==> final(db).tables() == old(db).tables(),
        old(db).intact() && event@.plain() ==> ({
            &&& final(db).intact()
            &&& r is Ok ==> !old(db)@.events.contains_key(event.id@) && final(db)@ == old(
                db,
            )@.with_event(event@)
            &&& r is Err ==> final(db)@ == old(db)@
            &&& old(db)@.events.contains_key(event.id@) ==> r is Err
        }),
        r matches Err(message) ==> message@.len() > 0,
{
    match db.add_event(&event) {
        Ok(()) => Ok(()),
        Err(e) => Err(e.to_string()),
    }
}

/// Command `update_event`: overwrites the event with the given event's id, if there is one.
pub fn update_event(db: &mut Database, event: CalendarEvent) -> (r: Result<(), String>)
    ensures
        final(db).location() == old(db).location(),
        old(db).intact() ==> final(db).tables() == old(db).tables(),
        old(db).intact() && event@.plain() ==> ({
            &&& final(db).intact()
            &&& r is Ok ==> final(db)@ == old(db)@.revising_event(event@)
            &&& r is Err ==> final(db)@ == old(db)@
            &&& !old(db)@.events.contains_key(event.id@) ==> final(db)@ == old(db)@
        }),
        r matches Err(message) ==> message@.len() > 0,
{
    match db.update_event(&event) {
        Ok(()) => Ok(()),
        Err(e) => Err(e.to_string()),
    }
}

/// Command `delete_event`: removes the event with the id, if there is one.
pub fn delete_event(db: &mut Database, id: String) -> (r: Result<(), String>)
    ensures
        final(db).location() == old(db).location(),
        old(db).intact() ==> final(db).tables() == old(db).tables(),
        old(db).intact() && nul_free(id@) ==> ({
            &&& final(db).intact()
            &&& r is Ok ==> final(db)@ == old(db)@.without_event(id@)
            &&& r is Err ==> final(db)@ == old(db)@
        }),
        r matches Err(message) ==> message@.len() > 0,
{
    match db.delete_event(id.as_str()) {
        Ok(()) => Ok(()),
        Err(e) => Err(e.to_string()),
    }
}

/// Command `get_all_documents`: all documents, the one updated last first.
pub fn get_all_documents(db: &Database) -> (r: Result<Vec<Document>, String>)
    ensures
        db.intact() ==> (r matches Ok(list) ==> db@.lists_documents(list.deep_view()) && documents_newest_first(
            list.deep_view(),
        )),
        r matches Err(message) ==> message@.len() > 0,
{
    match db.get_all_documents() {
        Ok(list) => Ok(list),
        Err(e) => Err(e.to_string()),
    }
}

/// Command `add_document`: stores a new document; fails where its id is taken.
pub fn add_document(db: &mut Database, doc: Document) -> (r: Result<(), String>)
    ensures
        final(db).location() == old(db).location(),
        old(db).intact() ==> final(db).tables() == old(db).tables(),
        old(db).intact() && doc@.plain() ==> ({
            &&& final(db).intact()
            &&& r is Ok ==> !old(db)@.documents.contains_key(doc.id@) && final(db)@ == old(
                db,
            )@.with_document(doc@)
            &&& r is Err ==> final(db)@ == old(db)@
            &&& old(db)@.documents.contains_key(doc.id@) ==> r is Err
        }),
        r matches Err(message) ==> message@.len() > 0,
{
    match db.add_document(&doc) {
        Ok(()) => Ok(()),
        Err(e) => Err(e.to_string()),
    }
}

/// Command `update_document`: overwrites the document with the given document's id, if there is one.
pub fn update_document(db: &mut Database, doc: Document) -> (r: Result<(), String>)
    ensures
        final(db).location() == old(db).location(),
        old(db).intact() ==> final(db).tables() == old(db).tables(),
        old(db).intact() && doc@.plain() ==> ({
            &&& final(db).intact()
            &&& r is Ok ==> final(db)@ == old(db)@.revising_document(doc@)
            &&& r is Err ==> final(db)@ == old(db)@
            &&& !old(db)@.documents.contains_key(doc.id@) ==> final(db)@ == old(db)@
        }),
        r matches Err(message) ==> message@.len() > 0,
{
    match db.update_document(&doc) {
        Ok(()) => Ok(()),
        Err(e) => Err(e.to_string()),
    }
}

/// Command `delete_document`: removes the document with the id, if there is one.
pub fn delete_document(db: &mut Database, id: String) -> (r: Result<(), String>)
    ensures
        final(db).location() == old(db).location(),
        old(db).intact() ==> final(db).tables() == old(db).tables(),
        old(db).intact() && nul_free(id@) ==> ({
            &&& final(db).intact()
            &&& r is Ok ==> final(db)@ == old(db)@.without_document(id@)
            &&& r is Err ==> final(db)@ == old(db)@
        }),
        r matches Err(message) ==> message@.len() > 0,
{
    match db.delete_document(id.as_str()) {
        Ok(()) => Ok(()),
        Err(e) => Err(e.to_string()),
    }
}

/// Command `get_setting`: the value under the key, or `None`.
pub fn get_setting(db: &Database, key: String) -> (r: Result<Option<String>, String>)
    ensures
        db.intact() && nul_free(key@) ==> (r matches Ok(value) ==> value.deep_view()
            == db@.setting(key@)),
        r matches Err(message) ==> message@.len() > 0,
{
    match db.get_setting(key.as_str()) {
        Ok(value) => Ok(value),
        Err(e) => Err(e.to_string()),
    }
}

/// Command `set_setting`: stores the value under the key, in place of what
/// was there.
pub fn set_setting(db: &mut Database, key: String, value: String) -> (r: Result<(), String>)
    ensures
        final(db).location() == old(db).location(),
        old(db).intact() ==> final(db).tables() == old(db).tables(),
        old(db).intact() && nul_free(key@) && nul_free(value@) ==> ({
            &&& final(db).intact()
            &&& r is Ok ==> final(db)@ == old(db)@.with_setting(key@, value@)
            &&& r is Err ==> final(db)@ == old(db)@
        }),
        r matches Err(message) ==> message@.len() > 0,
{
    match db.set_setting(key.as_str(), value.as_str()) {
        Ok(()) => Ok(()),
        Err(e) => Err(e.to_string()),
    }
}

} // verus!
