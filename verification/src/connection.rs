//! The handle on a store, and the import of a manifest into it.

use vstd::prelude::*;
use rusqlite::{Connection, Statement, Transaction};
use std::sync::{Arc, Mutex};
use crate::engine::{
    begin, commit, error_text, execute_batch, execute_with_text, guarded, lock, open_connection,
    prepare, query_text, run_statement,
};
use crate::error::{StatementKind, StorageError};
use crate::metadata::{manifest_fault, texts, RemotePackageMetadata};
use crate::rows::{
    is_fault_error, manifest_rows, plan_import, rows_view, table_field, RowSpec, RowWrite, Table,
};
use crate::sql::{
    attach_statement, shard_alias, shard_alias_texts, statement_sql, COUNT_OBJECTS, CREATE_SCHEMA,
    SET_JOURNAL_MODE,
};

verus! {

/// The error for a row that the store refused.
pub open spec fn is_refusal(e: StorageError, row: RowSpec) -> bool {
    &&& e matches StorageError::Ingest { package, field, .. }
    &&& package@ == row.key.package
    &&& field == table_field(row.key.table)
}

/// Whether the store holds no schema object, given their count as text.
pub fn is_fresh(count: &String) -> (fresh: bool)
    ensures
        fresh == (count@ == "0"@),
{
    let zero = String::from_str("0");
    *count == zero
}

/// What opening makes of the count of schema objects: a store without any
/// is to be given the tables (`true`), another is left as it is (`false`),
/// and one that cannot be read is refused with an open error.
pub fn open_outcome(counted: Result<String, rusqlite::Error>) -> (decided: Result<bool, StorageError>)
    ensures
        counted matches Ok(count) ==> decided == Ok::<bool, StorageError>(count@ == "0"@),
        counted is Err ==> (decided matches Err(e) && e is Open),
{
    match counted {
        Ok(count) => Ok(is_fresh(&count)),
        Err(e) => Err(StorageError::Open { detail: error_text(&e) }),
    }
}

/// What an import makes of the journal mode that the store reports after
/// write-ahead logging was asked for: it goes on only if the mode read
/// back is `wal`, and fails with a config error otherwise.
pub fn config_outcome(readback: Result<String, rusqlite::Error>) -> (decided: Result<(), StorageError>)
    ensures
        decided is Ok <==> (readback matches Ok(mode) && mode@ == "wal"@),
        decided matches Err(e) ==> e is Config,
        readback matches Ok(mode) ==> (decided matches Err(e) ==> e.detail_text() == mode@),
{
    match readback {
        Ok(mode) => {
            let wal = String::from_str("wal");
            if mode == wal {
                Ok(())
            } else {
                Err(StorageError::Config { detail: mode })
            }
        },
        Err(e) => Err(StorageError::Config { detail: error_text(&e) }),
    }
}

/// What an import makes of the store's answer to the write of `row`: it
/// goes on if the row was taken, and fails with an ingest error that
/// names the row's package and field otherwise.
pub fn write_outcome(row: &RowWrite, written: Result<usize, rusqlite::Error>) -> (decided: Result<
    (),
    StorageError,
>)
    ensures
        decided is Ok <==> written is Ok,
        decided matches Err(e) ==> is_refusal(e, row@),
{
    match written {
        Ok(_) => Ok(()),
        Err(e) => Err(
            StorageError::Ingest {
                package: row.package.clone(),
                field: row.field(),
                detail: error_text(&e),
            },
        ),
    }
}

/// What attaching makes of the store's answer for shard `shard`.
pub fn attach_outcome(shard: usize, attached: Result<usize, rusqlite::Error>) -> (decided: Result<
    (),
    StorageError,
>)
    ensures
        decided is Ok <==> attached is Ok,
        decided matches Err(e) ==> (e matches StorageError::Attach { shard: s, .. } && s == shard),
{
    match attached {
        Ok(_) => Ok(()),
        Err(e) => Err(StorageError::Attach { shard, detail: error_text(&e) }),
    }
}

/// What compiling the write statement of `kind` makes of the store's
/// answer: the compiled statement is handed on as it is, and a refusal
/// becomes a prepare error that names `kind`.
pub fn prepare_outcome<'conn>(
    kind: StatementKind,
    prepared: Result<Statement<'conn>, rusqlite::Error>,
) -> (decided: Result<Statement<'conn>, StorageError>)
    ensures
        prepared matches Ok(statement) ==> (decided matches Ok(handed) && handed == statement),
        prepared is Err ==> (decided matches Err(e) && e matches StorageError::Prepare {
            statement,
            ..
        } && statement == kind),
{
    match prepared {
        Ok(statement) => Ok(statement),
        Err(e) => Err(StorageError::Prepare { statement: kind, detail: error_text(&e) }),
    }
}

/// What opening makes of an answer of the store that it needs in order to
/// go on: the answer's value is handed on as it is, and a failure becomes
/// an open error.
pub fn or_open_error<T>(answer: Result<T, rusqlite::Error>) -> (decided: Result<T, StorageError>)
    ensures
        answer matches Ok(value) ==> (decided matches Ok(handed) && handed == value),
        answer is Err ==> (decided matches Err(e) && e is Open),
{
    match answer {
        Ok(value) => Ok(value),
        Err(e) => Err(StorageError::Open { detail: error_text(&e) }),
    }
}

/// What an import makes of the store's answer to the final commit.
pub fn commit_outcome(committed: Result<(), rusqlite::Error>) -> (decided: Result<(), StorageError>)
    ensures
        decided is Ok <==> committed is Ok,
        decided matches Err(e) ==> e is Commit,
{
    match committed {
        Ok(()) => Ok(()),
        Err(e) => Err(StorageError::Commit { detail: error_text(&e) }),
    }
}

/// One compiled statement for each write operation, bound to one
/// transaction, with an account of the rows that the store has taken
/// through them.
pub struct DbStatements<'conn> {
    package: Statement<'conn>,
    version: Statement<'conn>,
    dependency: Statement<'conn>,
    accepted: Ghost<Seq<RowSpec>>,
}

/// Compiles one write statement, or says which one the schema refuses.
/// The text handed to the store is that of `kind`; whether it compiles is
/// the store's answer.
fn prepare_kind<'conn>(tx: &'conn Transaction<'_>, kind: StatementKind) -> (prepared: Result<
    Statement<'conn>,
    StorageError,
>)
    ensures
        prepared matches Err(e) ==> (e matches StorageError::Prepare { statement, .. } && statement
            == kind),
{
    prepare_outcome(kind, prepare(tx, statement_sql(kind)))
}

impl<'conn> DbStatements<'conn> {
    /// Compiles every write statement against the transaction's store. The
    /// first one that the schema refuses ends the attempt with a prepare
    /// error that names it; the order is package, version, dependency.
    pub fn new(tx: &'conn Transaction<'_>) -> (made: Result<DbStatements<'conn>, StorageError>)
        ensures
            made matches Ok(statements) ==> statements.accepted() == Seq::<RowSpec>::empty(),
            made matches Err(e) ==> e is Prepare,
    {
        let package = match prepare_kind(tx, StatementKind::UpsertPackage) {
            Ok(statement) => statement,
            Err(e) => {
                return Err(e);
            },
        };
        let version = match prepare_kind(tx, StatementKind::UpsertVersion) {
            Ok(statement) => statement,
            Err(e) => {
                return Err(e);
            },
        };
        let dependency = match prepare_kind(tx, StatementKind::UpsertDependency) {
            Ok(statement) => statement,
            Err(e) => {
                return Err(e);
            },
        };
        Ok(DbStatements { package, version, dependency, accepted: Ghost(Seq::empty()) })
    }

    /// The rows that the store has taken through these statements, in
    /// order.
    pub closed spec fn accepted(&self) -> Seq<RowSpec> {
        self.accepted@
    }

    /// Writes one row through the statement of its table, with the row's
    /// parameters. A row that the store takes is added to the account; a
    /// row that it refuses leaves the account as it was and gives an
    /// ingest error that names the row's package and field.
    fn write(&mut self, row: &RowWrite) -> (decided: Result<(), StorageError>)
        ensures
            decided is Ok ==> final(self).accepted() == old(self).accepted().push(row@),
            decided matches Err(e) ==> is_refusal(e, row@) && final(self).accepted() == old(
                self,
            ).accepted(),
    {
        let params = row.params();
        let written = match row.table {
            Table::Packages => run_statement(&mut self.package, &params),
            Table::Versions => run_statement(&mut self.version, &params),
            Table::Dependencies => run_statement(&mut self.dependency, &params),
        };
        let decided = write_outcome(row, written);
        if decided.is_ok() {
            self.accepted = Ghost(self.accepted@.push(row@));
        }
        decided
    }
}

/// Writes the rows of a manifest under one repository name, through the
/// statements of one transaction.
pub struct PackageRepository<'conn, 'a> {
    statements: DbStatements<'conn>,
    repo_name: &'a str,
}

impl<'conn, 'a> PackageRepository<'conn, 'a> {
    /// An importer that writes under `repo_name` through `statements`.
    pub fn new(statements: DbStatements<'conn>, repo_name: &'a str) -> (made: Self)
        ensures
            made.repo() == repo_name@,
            made.accepted() == statements.accepted(),
    {
        PackageRepository { statements, repo_name }
    }

    /// The repository name that every row is written under.
    pub closed spec fn repo(&self) -> Seq<char> {
        self.repo_name@
    }

    /// The rows that the store has taken through this importer's
    /// statements, in order.
    pub closed spec fn accepted(&self) -> Seq<RowSpec> {
        self.statements.accepted()
    }

    /// Writes the rows in order and stops at the first that the store
    /// refuses.
    fn write_rows(&mut self, rows: &Vec<RowWrite>) -> (decided: Result<(), StorageError>)
        ensures
            final(self).repo() == old(self).repo(),
            decided is Ok ==> final(self).accepted() == old(self).accepted() + rows_view(rows@),
            decided matches Err(e) ==> exists|i: int|
                0 <= i < rows@.len() && is_refusal(e, #[trigger] rows_view(rows@)[i])
                    && final(self).accepted() == old(self).accepted() + rows_view(rows@).subrange(
                    0,
                    i,
                ),
    {
        let mut i: usize = 0;
        assert(rows_view(rows@).subrange(0, 0) =~= Seq::<RowSpec>::empty());
        assert(self.accepted() =~= old(self).accepted() + rows_view(rows@).subrange(0, 0));
        while i < rows.len()
            invariant
                i <= rows.len(),
                self.repo() == old(self).repo(),
                self.accepted() == old(self).accepted() + rows_view(rows@).subrange(0, i as int),
            decreases rows.len() - i,
        {
            match self.statements.write(&rows[i]) {
                Ok(()) => {},
                Err(e) => {
                    assert(is_refusal(e, rows_view(rows@)[i as int]));
                    return Err(e);
                },
            }
            assert(rows_view(rows@).subrange(0, i + 1) =~= rows_view(rows@).subrange(0, i as int).push(
                rows[i as int]@,
            ));
            assert(self.accepted() =~= old(self).accepted() + rows_view(rows@).subrange(0, i + 1));
            i += 1;
        }
        assert(rows_view(rows@).subrange(0, i as int) =~= rows_view(rows@));
        Ok(())
    }

    /// Imports a manifest: a malformed manifest is refused before anything
    /// is written, with an ingest error for its first malformed record;
    /// otherwise its rows are written in order, and the first row that the
    /// store refuses ends the import with an ingest error for that row.
    pub fn import_packages(&mut self, metadata: &RemotePackageMetadata) -> (decided: Result<
        (),
        StorageError,
    >)
        ensures
            final(self).repo() == old(self).repo(),
            decided is Ok ==> manifest_fault(metadata@) is None && final(self).accepted() == old(
                self,
            ).accepted() + manifest_rows(old(self).repo(), metadata@),
            decided matches Err(e) ==> {
                ||| (is_fault_error(e, metadata@) && final(self).accepted() == old(self).accepted())
                ||| (manifest_fault(metadata@) is None && exists|i: int|
                    0 <= i < manifest_rows(old(self).repo(), metadata@).len() && is_refusal(
                        e,
                        #[trigger] manifest_rows(old(self).repo(), metadata@)[i],
                    ) && final(self).accepted() == old(self).accepted() + manifest_rows(
                        old(self).repo(),
                        metadata@,
                    ).subrange(0, i))
            },
    {
        match plan_import(metadata, self.repo_name) {
            Ok(rows) => self.write_rows(&rows),
            Err(e) => Err(e),
        }
    }
}

/// Prepares the statements on a transaction and imports the manifest
/// through them; the statements are gone when this returns.
fn import_within(tx: &Transaction<'_>, metadata: &RemotePackageMetadata, repo_name: &str) -> (decided:
    Result<(), StorageError>)
    ensures
        decided is Ok ==> manifest_fault(metadata@) is None,
        decided matches Err(e) ==> {
            ||| e is Prepare
            ||| is_fault_error(e, metadata@)
            ||| (manifest_fault(metadata@) is None && exists|i: int|
                0 <= i < manifest_rows(repo_name@, metadata@).len() && is_refusal(
                    e,
                    #[trigger] manifest_rows(repo_name@, metadata@)[i],
                ))
        },
{
    let statements = match DbStatements::new(tx) {
        Ok(statements) => statements,
        Err(e) => {
            return Err(e);
        },
    };
    let mut repo = PackageRepository::new(statements, repo_name);
    repo.import_packages(metadata)
}

/// Opens the primary file, and gives it the tables if it holds no schema
/// object at all. A file that holds other objects is left as it is.
fn open_primary(path: &str) -> (opened: Result<Connection, StorageError>)
    ensures
        opened matches Err(e) ==> e is Open,
{
    let conn = match or_open_error(open_connection(path)) {
        Ok(conn) => conn,
        Err(e) => {
            return Err(e);
        },
    };
    match open_outcome(query_text(&conn, COUNT_OBJECTS)) {
        Ok(true) => match or_open_error(execute_batch(&conn, CREATE_SCHEMA)) {
            Ok(()) => Ok(conn),
            Err(e) => Err(e),
        },
        Ok(false) => Ok(conn),
        Err(e) => Err(e),
    }
}

/// A handle on a store: one primary file and the shards attached to it.
/// Its owners share one connection, which serves one of them at a time.
pub struct Database {
    pub conn: Arc<Mutex<Connection>>,
    files: Vec<String>,
    aliases: Vec<String>,
}

impl Database {
    /// The aliases of the attached shards, in the order of attachment.
    /// They are fixed when the handle is opened.
    pub closed spec fn aliases(&self) -> Seq<Seq<char>> {
        texts(self.aliases@)
    }

    /// The paths of the files that the handle was opened on: the primary
    /// file first, then the shards in the order of attachment. They are
    /// fixed when the handle is opened.
    pub closed spec fn files(&self) -> Seq<Seq<char>> {
        texts(self.files@)
    }

    /// The paths of the files that the handle was opened on: the primary
    /// file first, then the shards in the order of attachment.
    pub fn file_paths(&self) -> (files: &Vec<String>)
        ensures
            texts(files@) == self.files(),
    {
        &self.files
    }

    /// The aliases of the attached shards, in the order of attachment.
    pub fn shard_aliases(&self) -> (aliases: &Vec<String>)
        ensures
            texts(aliases@) == self.aliases(),
    {
        &self.aliases
    }

    /// Opens the store at `path`, creating it if it is absent. The handle
    /// is on that one file and has no shard. The only error is an open
    /// error.
    pub fn new(path: &str) -> (opened: Result<Database, StorageError>)
        ensures
            opened matches Ok(db) ==> db.files() == seq![path@] && db.aliases() == Seq::<
                Seq<char>,
            >::empty(),
            opened matches Err(e) ==> e is Open,
    {
        match open_primary(path) {
            Ok(conn) => {
                let mut files: Vec<String> = Vec::new();
                files.push(path.to_owned());
                assert(texts(files@) =~= seq![path@]);
                let aliases: Vec<String> = Vec::new();
                assert(texts(aliases@) =~= Seq::<Seq<char>>::empty());
                Ok(Database { conn: Arc::new(Mutex::new(conn)), files, aliases })
            },
            Err(e) => Err(e),
        }
    }

    /// Opens `paths[0]` as the primary file and attaches every further
    /// path, in order, under the alias of its position: `shard1` for
    /// `paths[1]`. The first shard that cannot be attached ends the
    /// attempt with an attach error that carries its number, and no handle
    /// is returned. With one path this is `new`.
    pub fn new_multi(paths: &[String]) -> (opened: Result<Database, StorageError>)
        requires
            paths@.len() >= 1,
        ensures
            opened matches Ok(db) ==> db.files() == texts(paths@) && db.aliases()
                == shard_alias_texts((paths@.len() - 1) as nat),
            opened matches Err(e) ==> {
                ||| e is Open
                ||| (e matches StorageError::Attach { shard, .. } && 1 <= shard < paths@.len())
            },
            paths@.len() == 1 ==> (opened matches Err(e) ==> e is Open),
    {
        let conn = match open_primary(paths[0].as_str()) {
            Ok(conn) => conn,
            Err(e) => {
                return Err(e);
            },
        };
        let mut files: Vec<String> = Vec::new();
        files.push(paths[0].clone());
        assert(texts(files@) =~= texts(paths@).subrange(0, 1));
        let mut aliases: Vec<String> = Vec::new();
        assert(texts(aliases@) =~= shard_alias_texts(0));
        let mut index: usize = 1;
        while index < paths.len()
            invariant
                1 <= index <= paths@.len(),
                aliases@.len() == index - 1,
                texts(aliases@) == shard_alias_texts((index - 1) as nat),
                texts(files@) == texts(paths@).subrange(0, index as int),
            decreases paths@.len() - index,
        {
            let alias = shard_alias(index);
            let sql = attach_statement(alias.as_str());
            let attached = execute_with_text(&conn, sql.as_str(), paths[index].as_str());
            match attach_outcome(index, attached) {
                Ok(()) => {},
                Err(e) => {
                    return Err(e);
                },
            }
            let ghost attached_before = aliases@;
            aliases.push(alias);
            assert forall|k: int| 0 <= k < index implies texts(aliases@)[k] == shard_alias_texts(
                index as nat,
            )[k] by {
                if k < index - 1 {
                    assert(texts(aliases@)[k] == texts(attached_before)[k]);
                    assert(texts(attached_before)[k] == shard_alias_texts((index - 1) as nat)[k]);
                }
            }
            assert(texts(aliases@) =~= shard_alias_texts(index as nat));
            let ghost files_before = texts(files@);
            files.push(paths[index].clone());
            assert(texts(files@) =~= files_before.push(paths@[index as int]@));
            assert(texts(files@) =~= texts(paths@).subrange(0, index + 1));
            index += 1;
        }
        assert(texts(paths@).subrange(0, index as int) =~= texts(paths@));
        Ok(Database { conn: Arc::new(Mutex::new(conn)), files, aliases })
    }

    /// Imports a manifest under a repository name, in one transaction.
    ///
    /// The caller waits for exclusive access to the connection and holds
    /// it until this returns. Write-ahead logging is asked for and read
    /// back; the transaction begins; the statements are prepared; the
    /// manifest's rows are written; the transaction commits. Every return
    /// before the commit drops the transaction, which rolls it back.
    ///
    /// A connection that cannot be locked, or on which no transaction can
    /// begin, ends the call with a config error, as a journal mode other
    /// than `wal` does. A malformed manifest is refused with an ingest
    /// error for its first malformed record, unless an earlier step has
    /// failed.
    pub fn from_json_metadata(&self, metadata: RemotePackageMetadata, repo_name: &str) -> (decided:
        Result<(), StorageError>)
        ensures
            decided is Ok ==> manifest_fault(metadata@) is None,
            decided matches Err(e) ==> {
                ||| e is Config
                ||| e is Prepare
                ||| e is Commit && manifest_fault(metadata@) is None
                ||| is_fault_error(e, metadata@)
                ||| (manifest_fault(metadata@) is None && exists|i: int|
                    0 <= i < manifest_rows(repo_name@, metadata@).len() && is_refusal(
                        e,
                        #[trigger] manifest_rows(repo_name@, metadata@)[i],
                    ))
            },
    {
        let mut guard = match lock(&self.conn) {
            Some(guard) => guard,
            None => {
                return Err(StorageError::Config { detail: String::from_str("poisoned lock") });
            },
        };
        let conn = guarded(&mut guard);
        match config_outcome(query_text(conn, SET_JOURNAL_MODE)) {
            Ok(()) => {},
            Err(e) => {
                return Err(e);
            },
        }
        let tx = match begin(conn) {
            Ok(tx) => tx,
            Err(e) => {
                return Err(StorageError::Config { detail: error_text(&e) });
            },
        };
        match import_within(&tx, &metadata, repo_name) {
            Ok(()) => commit_outcome(commit(tx)),
            Err(e) => Err(e),
        }
    }
}

} // verus!
