//! The calls into SQLite and bcrypt. Nothing here is proved: each function
//! below states what the repository takes on trust from the crate it calls.

use vstd::prelude::*;
use bcrypt::BcryptError;
use crate::text::digit_char;
use rusqlite::{Connection, Error, Row, Rows, Statement};

verus! {

#[verifier::external_type_specification]
#[verifier::external_body]
pub struct ExConnection(Connection);

#[verifier::external_type_specification]
#[verifier::external_body]
pub struct ExError(Error);

#[verifier::external_type_specification]
#[verifier::external_body]
pub struct ExStatement<'conn>(Statement<'conn>);

#[verifier::external_type_specification]
#[verifier::external_body]
pub struct ExRows<'stmt>(Rows<'stmt>);

#[verifier::external_type_specification]
#[verifier::external_body]
pub struct ExRow<'stmt>(Row<'stmt>);

#[verifier::external_type_specification]
#[verifier::external_body]
pub struct ExBcryptError(BcryptError);

/// A value bound to a statement's parameter or read from a result column.
pub enum SqlValue {
    Integer(i64),
    Text(String),
}

/// What such a value is, to a contract.
pub enum SqlModel {
    Integer(i64),
    Text(Seq<char>),
}

impl View for SqlValue {
    type V = SqlModel;

    open spec fn view(&self) -> SqlModel {
        match self {
            SqlValue::Integer(n) => SqlModel::Integer(*n),
            SqlValue::Text(t) => SqlModel::Text(t@),
        }
    }
}

/// `rusqlite::Connection::open`: opens, or creates, the database file at
/// `path`. Whether that succeeds depends on the file system.
#[verifier::external_body]
pub(crate) fn open(path: &str) -> (r: Result<Connection, Error>) {
    Connection::open(path)
}

/// `rusqlite::Connection::open_in_memory`: opens a private, empty database
/// that lives in memory.
#[verifier::external_body]
pub(crate) fn open_in_memory() -> (r: Result<Connection, Error>) {
    Connection::open_in_memory()
}

/// `rusqlite::Connection::execute`: prepares `sql`, binds `params` in order
/// and runs it; on success the number of rows it changed. What comes back
/// depends on the stored data, so nothing is claimed of it.
#[verifier::external_body]
pub(crate) fn execute(conn: &Connection, sql: &str, params: &Vec<SqlValue>) -> (r: Result<
    usize,
    Error,
>) {
    conn.execute(
        sql,
        rusqlite::params_from_iter(
            params.iter().map(
                |p|
                    match p {
                        SqlValue::Integer(i) => rusqlite::types::Value::Integer(*i),
                        SqlValue::Text(t) => rusqlite::types::Value::Text(t.clone()),
                    },
            ),
        ),
    )
}

/// `rusqlite::Connection::last_insert_rowid`: the row id of the most recent
/// successful insert on this connection.
#[verifier::external_body]
pub(crate) fn last_insert_rowid(conn: &Connection) -> (id: i64) {
    conn.last_insert_rowid()
}

/// `rusqlite::Connection::prepare`: compiles `sql` into a statement.
#[verifier::external_body]
pub(crate) fn prepare<'c>(conn: &'c Connection, sql: &str) -> (r: Result<Statement<'c>, Error>) {
    conn.prepare(sql)
}

/// `rusqlite::Statement::query`: binds `params` in order and starts the
/// query; the rows are then read one at a time.
#[verifier::external_body]
pub(crate) fn query<'s>(stmt: &'s mut Statement<'_>, params: &Vec<SqlValue>) -> (r: Result<
    Rows<'s>,
    Error,
>) {
    stmt.query(
        rusqlite::params_from_iter(
            params.iter().map(
                |p|
                    match p {
                        SqlValue::Integer(i) => rusqlite::types::Value::Integer(*i),
                        SqlValue::Text(t) => rusqlite::types::Value::Text(t.clone()),
                    },
            ),
        ),
    )
}

/// `rusqlite::Rows::next`: advances to the next row of the result, `None`
/// once all rows have been read.
#[verifier::external_body]
pub(crate) fn next_row<'a, 's>(rows: &'a mut Rows<'s>) -> (r: Result<Option<&'a Row<'s>>, Error>) {
    rows.next()
}

/// The columns of a row that hold an integer, each under every name it is
/// found by, with the integer.
pub uninterp spec fn row_integers(row: Row<'_>) -> Map<Seq<char>, int>;

/// The columns of a row that hold well-formed text, each under every name
/// it is found by, with the text.
pub uninterp spec fn row_texts(row: Row<'_>) -> Map<Seq<char>, Seq<char>>;

/// `rusqlite::Row::get` for an integer column, found by name: the integer
/// where the row has a column of this name and the column holds an
/// integer, an error in every other case.
#[verifier::external_body]
pub(crate) fn column_integer(row: &Row<'_>, name: &str) -> (r: Result<i64, Error>)
    ensures
        r is Ok == row_integers(*row).contains_key(name@),
        r is Ok ==> r->Ok_0 as int == row_integers(*row)[name@],
{
    row.get(name)
}

/// `rusqlite::Row::get` for a text column, found by name: the text where
/// the row has a column of this name and the column holds well-formed
/// text, an error in every other case.
#[verifier::external_body]
pub(crate) fn column_text(row: &Row<'_>, name: &str) -> (r: Result<String, Error>)
    ensures
        r is Ok == row_texts(*row).contains_key(name@),
        r is Ok ==> r->Ok_0@ == row_texts(*row)[name@],
{
    row.get(name)
}

/// What `bcrypt::verify` answers for a password and a stored hash: `Some` of
/// whether they match, `None` where the hash is malformed.
pub uninterp spec fn bcrypt_verdict(password: Seq<char>, hash: Seq<char>) -> Option<bool>;

/// A text has the form of a bcrypt hash made at `cost`: sixty characters,
/// the fifth and sixth of which are the two decimal digits of the cost.
pub open spec fn made_at_cost(hash: Seq<char>, cost: u32) -> bool {
    &&& hash.len() == 60
    &&& hash[4] == digit_char((cost / 10) as int)
    &&& hash[5] == digit_char((cost % 10) as int)
}

/// `bcrypt::hash`: a fresh hash of `password` at the given cost. The salt is
/// random, so two calls on one password differ; every hash it returns has
/// the form of a hash made at that cost, and `bcrypt::verify` finds that
/// the password matches it.
#[verifier::external_body]
pub(crate) fn hash_password(password: &str, cost: u32) -> (r: Result<String, BcryptError>)
    ensures
        r is Ok ==> made_at_cost(r->Ok_0@, cost),
        r is Ok ==> bcrypt_verdict(password@, r->Ok_0@) == Some(true),
{
    bcrypt::hash(password, cost)
}

/// `bcrypt::verify`: recomputes the hash of `password` with the salt and
/// cost found in `hash` and compares. The answer depends on the two
/// arguments alone.
#[verifier::external_body]
pub(crate) fn verify_password(password: &str, hash: &str) -> (r: Result<bool, BcryptError>)
    ensures
        r is Ok ==> bcrypt_verdict(password@, hash@) == Some(r->Ok_0),
        r is Err ==> bcrypt_verdict(password@, hash@) is None,
{
    bcrypt::verify(password, hash)
}

} // verus!
