//! The calls into `rusqlite`, one function for each.
//!
//! Nothing in this file is proved. Each function makes one call and says of
//! its result only what holds whatever the database holds: that `rusqlite`
//! refuses a path or a text that it cannot hand to SQLite, and otherwise
//! nothing. The rest of the crate is verified for every result that these
//! calls can give.

use vstd::prelude::*;
use vstd::utf8::encode_utf8;

verus! {

/// `rusqlite::Connection`, an open database. Nothing inside it is visible
/// here.
#[verifier::external_type_specification]
#[verifier::external_body]
pub struct ExConnection(rusqlite::Connection);

/// `rusqlite::Error`, carried from a failed call to whoever reports it.
#[verifier::external_type_specification]
#[verifier::external_body]
pub struct ExSqlError(rusqlite::Error);

/// `rusqlite::Statement`, a compiled SQL statement.
#[verifier::external_type_specification]
#[verifier::external_body]
pub struct ExStatement<'conn>(rusqlite::Statement<'conn>);

/// `rusqlite::Transaction`, an open transaction on a connection.
#[verifier::external_type_specification]
#[verifier::external_body]
pub struct ExTransaction<'conn>(rusqlite::Transaction<'conn>);

/// Whether `text` is too long for `rusqlite` to bind as one value: its UTF-8
/// form has 2^31 - 1 bytes or more, the largest C `int` at the least.
pub open spec fn too_long_to_bind(text: Seq<char>) -> bool {
    encode_utf8(text).len() >= i32::MAX
}

/// `rusqlite::Connection::open` on `path`. The path goes to SQLite as a C
/// string, so `rusqlite` refuses one that holds a NUL character. Whether any
/// other path can be opened is the file system's affair: nothing is claimed
/// of it.
#[verifier::external_body]
pub(crate) fn open_connection(path: &str) -> (r: Result<rusqlite::Connection, rusqlite::Error>)
    ensures
        path@.contains('\0') ==> r is Err,
{
    rusqlite::Connection::open(path)
}

/// `rusqlite::Connection::execute`: compiles `sql`, binds `params` to `?1`,
/// `?2`, ... as integers and runs it. Nothing is claimed of the outcome.
#[verifier::external_body]
pub(crate) fn execute(
    conn: &rusqlite::Connection,
    sql: &str,
    params: &Vec<u32>,
) -> (r: Result<usize, rusqlite::Error>) {
    conn.execute(sql, rusqlite::params_from_iter(params.iter()))
}

/// `rusqlite::Connection::prepare`: compiles `sql`. Nothing is claimed of the
/// outcome.
#[verifier::external_body]
pub(crate) fn prepare<'conn>(
    conn: &'conn rusqlite::Connection,
    sql: &str,
) -> (r: Result<rusqlite::Statement<'conn>, rusqlite::Error>) {
    conn.prepare(sql)
}

/// `rusqlite::Connection::transaction`: begins a transaction that is rolled
/// back when dropped uncommitted. Nothing is claimed of the outcome.
#[verifier::external_body]
pub(crate) fn begin<'conn>(
    conn: &'conn mut rusqlite::Connection,
) -> (r: Result<rusqlite::Transaction<'conn>, rusqlite::Error>) {
    conn.transaction()
}

/// `rusqlite::Connection::prepare`, reached through the transaction: compiles
/// `sql` on the transaction's connection. Nothing is claimed of the outcome.
#[verifier::external_body]
pub(crate) fn prepare_in<'tx, 'conn>(
    tx: &'tx rusqlite::Transaction<'conn>,
    sql: &str,
) -> (r: Result<rusqlite::Statement<'tx>, rusqlite::Error>) {
    tx.prepare(sql)
}

/// `rusqlite::Transaction::commit`. Nothing is claimed of the outcome.
#[verifier::external_body]
pub(crate) fn commit<'conn>(
    tx: rusqlite::Transaction<'conn>,
) -> (r: Result<(), rusqlite::Error>) {
    tx.commit()
}

/// `rusqlite::Statement::execute` with integer parameters bound in order.
/// Nothing is claimed of the outcome.
#[verifier::external_body]
pub(crate) fn run<'conn>(
    stmt: &mut rusqlite::Statement<'conn>,
    params: &Vec<u32>,
) -> (r: Result<usize, rusqlite::Error>) {
    stmt.execute(rusqlite::params_from_iter(params.iter()))
}

/// `rusqlite::Statement::execute` with a text bound to `?1` and an integer to
/// `?2`. The text's length goes to SQLite as a C `int`, so `rusqlite` refuses
/// a text that is too long for one. Nothing is claimed of any other outcome.
#[verifier::external_body]
pub(crate) fn run_named<'conn>(
    stmt: &mut rusqlite::Statement<'conn>,
    name: &String,
    number: u32,
) -> (r: Result<usize, rusqlite::Error>)
    ensures
        too_long_to_bind(name@) ==> r is Err,
{
    stmt.execute((name, number))
}

/// `rusqlite::Statement::query_row`: binds `params`, takes the first row and
/// reads its first column as an unsigned integer. No row, or a column that is
/// no such integer, is an error. Nothing more is claimed of the outcome.
#[verifier::external_body]
pub(crate) fn query_number<'conn>(
    stmt: &mut rusqlite::Statement<'conn>,
    params: &Vec<u32>,
) -> (r: Result<u32, rusqlite::Error>) {
    stmt.query_row(rusqlite::params_from_iter(params.iter()), |row| row.get(0))
}

/// `rusqlite::Statement::query_row`: binds `params`, takes the first row and
/// reads its first column as text. Nothing is claimed of the outcome.
#[verifier::external_body]
pub(crate) fn query_text<'conn>(
    stmt: &mut rusqlite::Statement<'conn>,
    params: &Vec<u32>,
) -> (r: Result<String, rusqlite::Error>) {
    stmt.query_row(rusqlite::params_from_iter(params.iter()), |row| row.get(0))
}

/// `rusqlite::Statement::query_map` over rows whose first column is read as
/// an unsigned integer and whose second as text: every row that SQLite steps
/// to, read or failed, in the order it came. Nothing is claimed of the
/// outcome.
#[verifier::external_body]
pub(crate) fn query_collections<'conn>(
    stmt: &mut rusqlite::Statement<'conn>,
) -> (r: Result<Vec<Result<(u32, String), rusqlite::Error>>, rusqlite::Error>) {
    stmt.query_map([], |row| Ok((row.get(0)?, row.get(1)?))).map(|rows| rows.collect())
}

/// `rusqlite::Statement::query_map` over rows of the `cards` table, whose
/// columns are id, collection_id, card_number, collected, duplicates. Of each
/// row it reads, in the table's order, all columns but collection_id: every
/// row that SQLite steps to, read or failed, in the order it came. Nothing is
/// claimed of the outcome.
#[verifier::external_body]
pub(crate) fn query_cards<'conn>(
    stmt: &mut rusqlite::Statement<'conn>,
    params: &Vec<u32>,
) -> (r: Result<Vec<Result<(u32, u32, bool, u32), rusqlite::Error>>, rusqlite::Error>) {
    stmt.query_map(rusqlite::params_from_iter(params.iter()), |row| {
        Ok((row.get(0)?, row.get(2)?, row.get(3)?, row.get(4)?))
    })
    .map(|rows| rows.collect())
}

} // verus!
