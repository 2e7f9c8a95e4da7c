//! The calls into the SQLite binding and into the standard mutex. Nothing
//! in this file is proved: each function's contract is taken on trust, and
//! none promises anything of what the store answers.

use vstd::prelude::*;
use rusqlite::{Connection, Statement, Transaction};
use std::sync::{Mutex, MutexGuard};

verus! {

/// `rusqlite::Connection`: a session on a database file.
#[verifier::external_type_specification]
#[verifier::external_body]
pub struct ExConnection(rusqlite::Connection);

/// `rusqlite::Transaction`: an open transaction, rolled back when it is
/// dropped without a commit.
#[verifier::external_type_specification]
#[verifier::external_body]
pub struct ExTransaction<'conn>(rusqlite::Transaction<'conn>);

/// `rusqlite::Statement`: a compiled statement.
#[verifier::external_type_specification]
#[verifier::external_body]
pub struct ExStatement<'conn>(rusqlite::Statement<'conn>);

/// `rusqlite::Error`.
#[verifier::external_type_specification]
#[verifier::external_body]
pub struct ExSqlError(rusqlite::Error);

/// `std::sync::Mutex`.
#[verifier::external_type_specification]
#[verifier::external_body]
#[verifier::reject_recursive_types(T)]
pub struct ExMutex<T: ?Sized>(std::sync::Mutex<T>);

/// `std::sync::MutexGuard`: exclusive access, given up when it is dropped.
#[verifier::external_type_specification]
#[verifier::external_body]
#[verifier::reject_recursive_types(T)]
pub struct ExMutexGuard<'a, T: ?Sized + 'a>(std::sync::MutexGuard<'a, T>);

/// `std::sync::Mutex::new`: nothing is claimed of the mutex.
pub assume_specification<T>[ Mutex::<T>::new ](t: T) -> (m: Mutex<T>)
;

/// `std::sync::Mutex::lock`: waits for exclusive access. `None` stands for
/// a poisoned mutex. Nothing is claimed of the outcome.
#[verifier::external_body]
pub(crate) fn lock<'a>(gate: &'a Mutex<Connection>) -> (held: Option<MutexGuard<'a, Connection>>) {
    match gate.lock() {
        Ok(guard) => Some(guard),
        Err(_) => None,
    }
}

/// `DerefMut::deref_mut` of `std::sync::MutexGuard`: the connection that
/// the guard protects.
#[verifier::external_body]
pub(crate) fn guarded<'a>(guard: &'a mut MutexGuard<'_, Connection>) -> (conn: &'a mut Connection) {
    &mut **guard
}

/// `rusqlite::Connection::open`: opens the file at `path`, creating it if
/// it is absent. Nothing is claimed of the outcome.
#[verifier::external_body]
pub(crate) fn open_connection(path: &str) -> (opened: Result<Connection, rusqlite::Error>) {
    Connection::open(path)
}

/// `rusqlite::Connection::execute_batch`: runs the statements of `sql`.
/// Nothing is claimed of the outcome.
#[verifier::external_body]
pub(crate) fn execute_batch(conn: &Connection, sql: &str) -> (done: Result<(), rusqlite::Error>) {
    conn.execute_batch(sql)
}

/// `rusqlite::Connection::execute`: runs the one statement `sql` with
/// `param` bound to its only parameter. Nothing is claimed of the outcome.
#[verifier::external_body]
pub(crate) fn execute_with_text(conn: &Connection, sql: &str, param: &str) -> (done: Result<
    usize,
    rusqlite::Error,
>) {
    conn.execute(sql, [param])
}

/// `rusqlite::Connection::query_row`: runs `sql` and reads the first
/// column of its first row as text. Nothing is claimed of the outcome.
#[verifier::external_body]
pub(crate) fn query_text(conn: &Connection, sql: &str) -> (read: Result<String, rusqlite::Error>) {
    conn.query_row(sql, [], |row| row.get(0))
}

/// `rusqlite::Connection::transaction`: begins a transaction. Nothing is
/// claimed of the outcome.
#[verifier::external_body]
pub(crate) fn begin<'a>(conn: &'a mut Connection) -> (begun: Result<
    Transaction<'a>,
    rusqlite::Error,
>) {
    conn.transaction()
}

/// `rusqlite::Connection::prepare`, on the connection of a transaction:
/// compiles `sql`. Nothing is claimed of the outcome.
#[verifier::external_body]
pub(crate) fn prepare<'a>(tx: &'a Transaction<'_>, sql: &str) -> (prepared: Result<
    Statement<'a>,
    rusqlite::Error,
>) {
    tx.prepare(sql)
}

/// `rusqlite::Statement::execute`: runs the statement with `params` bound
/// to its parameters in order. Nothing is claimed of the outcome.
#[verifier::external_body]
pub(crate) fn run_statement(statement: &mut Statement<'_>, params: &Vec<String>) -> (done: Result<
    usize,
    rusqlite::Error,
>) {
    statement.execute(rusqlite::params_from_iter(params.iter()))
}

/// `rusqlite::Transaction::commit`: commits and ends the transaction.
/// Nothing is claimed of the outcome.
#[verifier::external_body]
pub(crate) fn commit(tx: Transaction<'_>) -> (done: Result<(), rusqlite::Error>) {
    tx.commit()
}

/// `ToString::to_string` of `rusqlite::Error`: the error's text. Nothing
/// is claimed of it.
#[verifier::external_body]
pub(crate) fn error_text(e: &rusqlite::Error) -> (text: String) {
    e.to_string()
}

} // verus!
