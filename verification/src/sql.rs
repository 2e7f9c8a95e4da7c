//! The text of every statement that the library sends to the store.

use vstd::prelude::*;
use crate::error::StatementKind;

verus! {

/// Counts the schema objects of the primary file, as text.
pub const COUNT_OBJECTS: &'static str = "SELECT CAST(count(*) AS TEXT) FROM sqlite_master";

/// Creates the three tables. Each table's primary key is the identity of
/// its rows, so that a second write of a row replaces the first.
pub const CREATE_SCHEMA: &'static str = "CREATE TABLE packages (repo TEXT NOT NULL, name TEXT NOT NULL, description TEXT NOT NULL, PRIMARY KEY (repo, name)); CREATE TABLE versions (repo TEXT NOT NULL, name TEXT NOT NULL, version TEXT NOT NULL, PRIMARY KEY (repo, name, version)); CREATE TABLE dependencies (repo TEXT NOT NULL, name TEXT NOT NULL, version TEXT NOT NULL, dependency TEXT NOT NULL, PRIMARY KEY (repo, name, version, dependency));";

/// Switches write-ahead logging on and answers with the mode in force.
pub const SET_JOURNAL_MODE: &'static str = "PRAGMA journal_mode = WAL";

/// The text of a write statement.
pub open spec fn statement_text(kind: StatementKind) -> Seq<char> {
    match kind {
        StatementKind::UpsertPackage => "INSERT OR REPLACE INTO packages (repo, name, description) VALUES (?1, ?2, ?3)"@,
        StatementKind::UpsertVersion => "INSERT OR REPLACE INTO versions (repo, name, version) VALUES (?1, ?2, ?3)"@,
        StatementKind::UpsertDependency => "INSERT OR REPLACE INTO dependencies (repo, name, version, dependency) VALUES (?1, ?2, ?3, ?4)"@,
    }
}

/// The text of a write statement.
pub fn statement_sql(kind: StatementKind) -> (sql: &'static str)
    ensures
        sql@ == statement_text(kind),
{
    match kind {
        StatementKind::UpsertPackage => "INSERT OR REPLACE INTO packages (repo, name, description) VALUES (?1, ?2, ?3)",
        StatementKind::UpsertVersion => "INSERT OR REPLACE INTO versions (repo, name, version) VALUES (?1, ?2, ?3)",
        StatementKind::UpsertDependency => "INSERT OR REPLACE INTO dependencies (repo, name, version, dependency) VALUES (?1, ?2, ?3, ?4)",
    }
}

/// The character of a decimal digit.
pub open spec fn digit_char(d: nat) -> char {
    if d == 0 {
        '0'
    } else if d == 1 {
        '1'
    } else if d == 2 {
        '2'
    } else if d == 3 {
        '3'
    } else if d == 4 {
        '4'
    } else if d == 5 {
        '5'
    } else if d == 6 {
        '6'
    } else if d == 7 {
        '7'
    } else if d == 8 {
        '8'
    } else {
        '9'
    }
}

/// A number in decimal, without leading zeros.
pub open spec fn decimal(n: nat) -> Seq<char>
    decreases n,
{
    if n < 10 {
        seq![digit_char(n)]
    } else {
        decimal(n / 10).push(digit_char(n % 10))
    }
}

/// The alias of the shard with number `index`: `shard1` for the first.
pub open spec fn shard_alias_text(index: nat) -> Seq<char> {
    "shard"@ + decimal(index)
}

/// The aliases of the first `count` shards, in order.
pub open spec fn shard_alias_texts(count: nat) -> Seq<Seq<char>> {
    Seq::new(count, |i: int| shard_alias_text((i + 1) as nat))
}

/// The statement that attaches a file under an alias. The file's path is
/// bound to the statement's parameter and never becomes part of its text.
pub open spec fn attach_text(alias: Seq<char>) -> Seq<char> {
    "ATTACH DATABASE ?1 AS "@ + alias
}

fn digit_text(d: usize) -> (text: &'static str)
    requires
        d < 10,
    ensures
        text@ == seq![digit_char(d as nat)],
{
    proof {
        reveal_strlit("0");
        reveal_strlit("1");
        reveal_strlit("2");
        reveal_strlit("3");
        reveal_strlit("4");
        reveal_strlit("5");
        reveal_strlit("6");
        reveal_strlit("7");
        reveal_strlit("8");
        reveal_strlit("9");
    }
    let text: &'static str = if d == 0 {
        "0"
    } else if d == 1 {
        "1"
    } else if d == 2 {
        "2"
    } else if d == 3 {
        "3"
    } else if d == 4 {
        "4"
    } else if d == 5 {
        "5"
    } else if d == 6 {
        "6"
    } else if d == 7 {
        "7"
    } else if d == 8 {
        "8"
    } else {
        "9"
    };
    assert(text@ =~= seq![digit_char(d as nat)]);
    text
}

/// Appends a number in decimal to a text.
fn push_decimal(text: String, n: usize) -> (out: String)
    ensures
        out@ == text@ + decimal(n as nat),
    decreases n,
{
    if n < 10 {
        text.concat(digit_text(n))
    } else {
        let out = push_decimal(text, n / 10).concat(digit_text(n % 10));
        assert(out@ =~= text@ + decimal(n as nat));
        out
    }
}

/// The alias of the shard with number `index`.
pub fn shard_alias(index: usize) -> (alias: String)
    ensures
        alias@ == shard_alias_text(index as nat),
{
    push_decimal(String::from_str("shard"), index)
}

/// The statement that attaches a file under an alias.
pub fn attach_statement(alias: &str) -> (sql: String)
    ensures
        sql@ == attach_text(alias@),
{
    String::from_str("ATTACH DATABASE ?1 AS ").concat(alias)
}

} // verus!
