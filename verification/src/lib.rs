//! A typed key-value store kept in one two-column table of an SQLite database.
//!
//! Keys and values are JSON documents, written to the table as lowercase
//! hexadecimal text. `encoding` states the text form and proves that it
//! reads back unchanged, `table` states what writing and looking up a row
//! mean and proves the laws of the store over that, and `sqlite` runs the
//! statements on a `rusqlite::Connection`.

pub mod encoding;
pub mod error;
pub mod field;
pub mod json;
pub mod sqlite;
pub mod store;
pub mod table;

pub use error::Error;
pub use field::Field;
pub use json::Json;
pub use store::KeyValueStore;
