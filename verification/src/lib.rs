//! Local persistence layer of a personal vault: password entries, calendar
//! events, documents and key/value settings, kept in one SQLite database.
//!
//! [`Database`] is the store; [`commands`] is the surface that a host shell
//! calls; [`vault::Vault`] is what the store holds, as mathematics, and
//! [`laws`] states what follows from the operations' contracts.

pub mod commands;
pub mod database;
pub mod error;
pub mod laws;
pub mod records;
pub mod schema;
pub mod sqlite;
pub mod system;
pub mod text;
pub mod vault;

pub use crate::database::Database;
pub use crate::error::StoreError;
pub use crate::records::CalendarEvent;
pub use crate::records::Document;
pub use crate::records::PasswordEntry;
pub use crate::system::SystemInfo;
