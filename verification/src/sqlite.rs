//! The store on an SQLite database: one table `kvs` of two text columns,
//! `key` (unique) and `value`.
//!
//! What a statement does to the table is the engine's business and depends
//! on what the database holds, so no contract here speaks of it. The
//! contracts say which statements a call has executed, in which order and
//! with which texts bound, and how each answer of the engine becomes the
//! call's result; `table` says what the statements are meant to do to the
//! rows.

use crate::error::Error;
use crate::field::{found_or_default, Field};
use crate::json::Json;
use crate::store::{from_text, reads_as, row_text, to_text, writes_as, KeyValueStore};
use rusqlite::OptionalExtension;
use vstd::prelude::*;

verus! {

/// `rusqlite::Connection`, carried through unopened.
#[verifier::external_type_specification]
#[verifier::external_body]
pub struct ExConnection(rusqlite::Connection);

/// Creates the table unless it is there.
pub const CREATE_TABLE: &'static str =
    "CREATE TABLE if not exists kvs(key TEXT NOT NULL UNIQUE, value TEXT);";

/// Writes the row `(?1, ?2)`, replacing the value of a row whose key is
/// `?1`.
pub const UPSERT: &'static str =
    "INSERT INTO kvs(key, value) VALUES (?1, ?2) ON CONFLICT(key) DO UPDATE SET value=excluded.value;";

/// The value of the row whose key is `?1`.
pub const SELECT: &'static str = "SELECT value FROM kvs WHERE key = ?1;";

/// `rusqlite::Connection::execute`, with `params` bound by position as text.
/// Success and failure are both the engine's to decide.
#[verifier::external_body]
fn execute(conn: &rusqlite::Connection, sql: &str, params: &Vec<String>) -> (r: Result<
    usize,
    rusqlite::Error,
>) {
    conn.execute(sql, rusqlite::params_from_iter(params.iter()))
}

/// `rusqlite::Connection::query_row` on a statement that selects one text
/// column, followed by `rusqlite::OptionalExtension::optional`: the first
/// row's text, or `None` where the statement selects no row. Which of these
/// comes back, or which error, is the engine's to decide.
#[verifier::external_body]
fn query_text(conn: &rusqlite::Connection, sql: &str, params: &Vec<String>) -> (r: Result<
    Option<String>,
    rusqlite::Error,
>) {
    conn.query_row(sql, rusqlite::params_from_iter(params.iter()), |row| row.get(0)).optional()
}

/// Whether `r` is what the engine returned when `sql` was executed on `conn`
/// with the texts `params` bound to it.
pub closed spec fn executed(
    conn: &rusqlite::Connection,
    sql: &str,
    params: Seq<Seq<char>>,
    r: Result<usize, rusqlite::Error>,
) -> bool {
    exists|bound: &Vec<String>|
        bound.deep_view() == params && #[trigger] call_ensures(execute, (conn, sql, bound), r)
}

/// Whether `r` is what the engine returned when `sql` was asked of `conn`
/// for the text of one row, with the texts `params` bound to it.
pub closed spec fn queried(
    conn: &rusqlite::Connection,
    sql: &str,
    params: Seq<Seq<char>>,
    r: Result<Option<String>, rusqlite::Error>,
) -> bool {
    exists|bound: &Vec<String>|
        bound.deep_view() == params && #[trigger] call_ensures(query_text, (conn, sql, bound), r)
}

/// What a step returns for what the engine returned: its value, or its
/// error as `Error::Rusqlite`.
pub open spec fn engine_gave<T>(r: Result<T, rusqlite::Error>) -> Result<T, Error> {
    match r {
        Ok(value) => Ok(value),
        Err(e) => Err(Error::Rusqlite(e)),
    }
}

/// Whether `r` is how making sure of the table on `conn` ended: `CREATE_TABLE`
/// was executed, and `r` is an error exactly if the engine returned one.
pub open spec fn table_ensured(conn: &rusqlite::Connection, r: Result<(), Error>) -> bool {
    exists|gave: Result<usize, rusqlite::Error>|
        {
            &&& #[trigger] executed(conn, CREATE_TABLE, Seq::empty(), gave)
            &&& gave is Ok ==> r == Ok::<(), Error>(())
            &&& gave matches Err(e) ==> r == Err::<(), Error>(Error::Rusqlite(e))
        }
}

/// Whether `r` is how writing the row of `key` and `value` on `conn` ended:
/// `UPSERT` was executed with the two texts bound, and `r` is an error
/// exactly if the engine returned one.
pub open spec fn row_written(
    conn: &rusqlite::Connection,
    key: Seq<char>,
    value: Seq<char>,
    r: Result<(), Error>,
) -> bool {
    exists|gave: Result<usize, rusqlite::Error>|
        {
            &&& #[trigger] executed(conn, UPSERT, Seq::empty().push(key).push(value), gave)
            &&& gave is Ok ==> r == Ok::<(), Error>(())
            &&& gave matches Err(e) ==> r == Err::<(), Error>(Error::Rusqlite(e))
        }
}

/// Whether `r` is how looking up the row of `key` on `conn` ended: `SELECT`
/// was asked with the text bound, and `r` is the row the engine returned, or
/// its error.
pub open spec fn row_looked_up(
    conn: &rusqlite::Connection,
    key: Seq<char>,
    r: Result<Option<String>, Error>,
) -> bool {
    exists|gave: Result<Option<String>, rusqlite::Error>|
        #[trigger] queried(conn, SELECT, Seq::empty().push(key), gave) && r == engine_gave(gave)
}

/// Whether `r` is how setting `value` under `key` on `conn` ended. The
/// steps, in this order, of which the first that fails ends the call with
/// its error: make sure of the table, write `key` as text, write `value` as
/// text, write the row of the two texts.
pub open spec fn set_gave<K: Json, V: Json>(
    conn: &rusqlite::Connection,
    key: &K,
    value: &V,
    r: Result<(), Error>,
) -> bool {
    exists|table: Result<(), Error>|
        #[trigger] table_ensured(conn, table) && match table {
            Err(e) => r == Err::<(), Error>(e),
            Ok(_) => exists|key_text: Result<Seq<char>, Error>|
                #[trigger] writes_as(key, key_text) && match key_text {
                    Err(e) => r == Err::<(), Error>(e),
                    Ok(k) => exists|value_text: Result<Seq<char>, Error>|
                        #[trigger] writes_as(value, value_text) && match value_text {
                            Err(e) => r == Err::<(), Error>(e),
                            Ok(v) => row_written(conn, k, v, r),
                        },
                },
        }
}

/// Whether `r` is how reading the value in the row of `key` on `conn` ended:
/// the row was looked up, and `r` is the error of that, or what the row that
/// came back reads as.
pub open spec fn row_read<V: Json>(
    conn: &rusqlite::Connection,
    key: Seq<char>,
    r: Result<Option<V>, Error>,
) -> bool {
    exists|row: Result<Option<String>, Error>|
        #[trigger] row_looked_up(conn, key, row) && match row {
            Err(e) => r == Err::<Option<V>, Error>(e),
            Ok(found) => reads_as::<V>(row_text(found), r),
        }
}

/// Whether `r` is how getting the value under `key` on `conn` ended. The
/// steps, in this order, of which the first that fails ends the call with
/// its error: make sure of the table, write `key` as text, look up the row
/// of that text, read the row as a `V`.
pub open spec fn get_gave<V: Json, K: Json>(
    conn: &rusqlite::Connection,
    key: &K,
    r: Result<Option<V>, Error>,
) -> bool {
    exists|table: Result<(), Error>|
        #[trigger] table_ensured(conn, table) && match table {
            Err(e) => r == Err::<Option<V>, Error>(e),
            Ok(_) => exists|key_text: Result<Seq<char>, Error>|
                #[trigger] writes_as(key, key_text) && match key_text {
                    Err(e) => r == Err::<Option<V>, Error>(e),
                    Ok(k) => row_read(conn, k, r),
                },
        }
}

/// Whether `r` is what reading a field gives for what getting the value
/// under its name gave: the value found, the default of `F` where none was
/// found, and the error where getting failed.
pub open spec fn field_read<F: Field>(got: Result<Option<F>, Error>, r: Result<F, Error>) -> bool {
    match got {
        Err(e) => r == Err::<F, Error>(e),
        Ok(Some(v)) => r == Ok::<F, Error>(v),
        Ok(None) => r is Ok && call_ensures(F::default, (), r->Ok_0),
    }
}

/// Makes sure the table is there.
fn ensure_table(conn: &rusqlite::Connection) -> (r: Result<(), Error>)
    ensures
        table_ensured(conn, r),
        r matches Err(e) ==> e is Rusqlite,
{
    let params: Vec<String> = Vec::new();
    assert(params.deep_view() =~= Seq::<Seq<char>>::empty());
    let gave = execute(conn, CREATE_TABLE, &params);
    assert(executed(conn, CREATE_TABLE, Seq::empty(), gave));
    match gave {
        Ok(_) => Ok(()),
        Err(e) => Err(Error::Rusqlite(e)),
    }
}

/// Writes the row of `key` and `value`, both as stored text.
fn upsert(conn: &rusqlite::Connection, key: String, value: String) -> (r: Result<(), Error>)
    ensures
        row_written(conn, key@, value@, r),
        r matches Err(e) ==> e is Rusqlite,
{
    let mut params: Vec<String> = Vec::new();
    params.push(key);
    params.push(value);
    assert(params.deep_view() =~= Seq::empty().push(key@).push(value@));
    let gave = execute(conn, UPSERT, &params);
    assert(executed(conn, UPSERT, Seq::empty().push(key@).push(value@), gave));
    match gave {
        Ok(_) => Ok(()),
        Err(e) => Err(Error::Rusqlite(e)),
    }
}

/// Looks up the value text of the row of `key`, given as stored text.
fn select(conn: &rusqlite::Connection, key: String) -> (r: Result<Option<String>, Error>)
    ensures
        row_looked_up(conn, key@, r),
        r matches Err(e) ==> e is Rusqlite,
{
    let mut params: Vec<String> = Vec::new();
    params.push(key);
    assert(params.deep_view() =~= Seq::empty().push(key@));
    let gave = query_text(conn, SELECT, &params);
    assert(queried(conn, SELECT, Seq::empty().push(key@), gave));
    match gave {
        Ok(row) => Ok(row),
        Err(e) => Err(Error::Rusqlite(e)),
    }
}

impl KeyValueStore for rusqlite::Connection {
    type Error = Error;

    /// Creates the table if need be, then writes the row of `key` and
    /// `value`. Succeeds exactly if every step does. Never fails with
    /// `Error::Hex`.
    fn set<K: Json, V: Json>(&mut self, key: &K, value: &V) -> (r: Result<(), Error>)
        ensures
            set_gave(&*old(self), key, value, r),
            r matches Err(e) ==> e is Rusqlite || e is SerdeJson,
    {
        match ensure_table(self) {
            Ok(()) => {},
            Err(e) => {
                return Err(e);
            },
        }
        let key_text = match to_text(key) {
            Ok(text) => text,
            Err(e) => {
                return Err(e);
            },
        };
        let value_text = match to_text(value) {
            Ok(text) => text,
            Err(e) => {
                return Err(e);
            },
        };
        upsert(self, key_text, value_text)
    }

    /// Creates the table if need be, then looks up the row of `key` and
    /// reads its value.
    fn get<V: Json, K: Json>(&self, key: &K) -> (r: Result<Option<V>, Error>)
        ensures
            get_gave(self, key, r),
    {
        match ensure_table(self) {
            Ok(()) => {},
            Err(e) => {
                return Err(e);
            },
        }
        let key_text = match to_text(key) {
            Ok(text) => text,
            Err(e) => {
                return Err(e);
            },
        };
        match select(self, key_text) {
            Ok(row) => from_text(row),
            Err(e) => Err(e),
        }
    }

    /// Sets `item` under the name that `F::key` gives, as `set` does.
    fn set_field<F: Field>(&mut self, item: &F) -> (r: Result<(), Error>)
        ensures
            exists|name: String|
                #[trigger] call_ensures(F::key, (), name) && set_gave(
                    &*old(self),
                    &name,
                    item,
                    r,
                ),
            r matches Err(e) ==> e is Rusqlite || e is SerdeJson,
    {
        let name = F::key();
        self.set(&name, item)
    }

    /// Gets the value under the name that `F::key` gives, as `get` does. A
    /// value found is the result; none found is the default of `F`; an
    /// error is passed on.
    fn get_field<F: Field>(&self) -> (r: Result<F, Error>)
        ensures
            exists|name: String, got: Result<Option<F>, Error>|
                {
                    &&& call_ensures(F::key, (), name)
                    &&& #[trigger] get_gave(self, &name, got)
                    &&& field_read(got, r)
                },
    {
        let name = F::key();
        match self.get::<F, String>(&name) {
            Ok(found) => Ok(found_or_default(found)),
            Err(e) => Err(e),
        }
    }
}

} // verus!
