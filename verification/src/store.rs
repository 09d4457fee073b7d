//! The database as the engine sees it: one connection, the version counter
//! in its header, and scripts that run against it.
//!
//! The functions that hand a call to `rusqlite` claim nothing of what comes
//! back: whether a call succeeds, and what a read returns, depends on the
//! database.

use crate::catalog::MigrateError;
use rusqlite::Connection;
use vstd::prelude::*;

verus! {

/// `rusqlite::Connection`, an open SQLite database. Its state is not
/// modelled.
#[verifier::external_type_specification]
#[verifier::external_body]
pub struct ExConnection(rusqlite::Connection);

/// `rusqlite::Error`, carried through and turned into text by
/// [`error_text`].
#[verifier::external_type_specification]
#[verifier::external_body]
pub struct ExSqlError(rusqlite::Error);

/// Reads the version counter with `Connection::query_row` on the
/// `user_version` pragma. Nothing is claimed of the value: it is whatever
/// the database holds, and the read may fail.
#[verifier::external_body]
pub(crate) fn schema_version(conn: &Connection) -> (r: Result<i16, rusqlite::Error>) {
    conn.query_row("SELECT user_version FROM pragma_user_version", [], |row| row.get(0))
}

/// Writes the version counter with `Connection::pragma_update` on the
/// `user_version` pragma. Nothing is claimed of the result.
#[verifier::external_body]
pub(crate) fn set_schema_version(conn: &mut Connection, version: i16) -> (r: Result<(), rusqlite::Error>) {
    conn.pragma_update(None, "user_version", version)
}

/// Runs one statement with `Connection::execute`, without parameters, and
/// returns the number of rows it changed. Nothing is claimed of the result.
/// The engine runs migration scripts with it, and the statements that open,
/// commit and roll back the transaction of a step.
#[verifier::external_body]
pub(crate) fn execute_script(conn: &mut Connection, script: &str) -> (r: Result<usize, rusqlite::Error>) {
    conn.execute(script, [])
}

/// The message of an error, as its `Display` impl writes it.
#[verifier::external_body]
pub(crate) fn error_text(error: &rusqlite::Error) -> (text: String) {
    error.to_string()
}

/// The version counter of the database: 0 until a run has recorded one.
///
/// Whether the read succeeds lies with the database; where it fails, the
/// error is a storage error with the database's message.
pub fn read_version(conn: &Connection) -> (r: Result<i16, MigrateError>)
    ensures
        r matches Err(e) ==> e is Storage,
{
    match schema_version(conn) {
        Ok(version) => stored(Ok(version)),
        Err(e) => stored(Err(error_text(&e))),
    }
}

/// Sets the version counter of the database. The value is not checked
/// against any catalog.
///
/// Whether the write succeeds lies with the database; where it fails, the
/// error is a storage error with the database's message.
pub fn write_version(conn: &mut Connection, version: i16) -> (r: Result<(), MigrateError>)
    ensures
        r matches Err(e) ==> e is Storage,
{
    match set_schema_version(conn, version) {
        Ok(_) => stored(Ok(())),
        Err(e) => stored(Err(error_text(&e))),
    }
}

/// What a call on the version counter amounts to, given the database's
/// answer: the value it gave, or a storage error that carries its message.
pub fn stored<T>(answer: Result<T, String>) -> (r: Result<T, MigrateError>)
    ensures
        r == match answer {
            Ok(value) => Ok::<T, MigrateError>(value),
            Err(cause) => Err::<T, MigrateError>(MigrateError::Storage { cause }),
        },
{
    match answer {
        Ok(value) => Ok(value),
        Err(cause) => Err(MigrateError::Storage { cause }),
    }
}

} // verus!
