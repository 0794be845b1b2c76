//! The SQLite connection and the plain values that go in and out of it.
//!
//! Statements are run through `rusqlite`; parameters are handed over as
//! [`SqlParam`] and every result row comes back as the list of its column
//! values, so that all decoding is done (and verified) in [`crate::rows`].
//! What the engine answers depends on what is on disk, so nothing is
//! promised about the results of the calls here.

use vstd::prelude::*;
use rusqlite::types::{Value, ValueRef};
use rusqlite::{params_from_iter, Statement};

verus! {

/// An open SQLite database.
#[verifier::external_type_specification]
#[verifier::external_body]
pub struct ExConnection(rusqlite::Connection);

/// An error reported by `rusqlite`.
#[verifier::external_type_specification]
#[verifier::external_body]
pub struct ExSqliteError(rusqlite::Error);

/// An owned value handed to SQLite as a parameter.
#[verifier::external_type_specification]
#[verifier::external_body]
pub struct ExSqliteValue(Value);

/// A compiled statement of an open database.
#[verifier::external_type_specification]
#[verifier::external_body]
pub struct ExStatement<'c>(Statement<'c>);

/// A borrowed column value of a result row.
#[verifier::external_type_specification]
#[verifier::external_body]
pub struct ExSqliteValueRef<'a>(ValueRef<'a>);

/// A statement parameter.
#[derive(Debug, Clone, PartialEq)]
pub enum SqlParam {
    Null,
    Integer(i64),
    Text(String),
}

/// What a statement parameter holds.
pub enum ParamView {
    Null,
    Integer(i64),
    Text(Seq<char>),
}

impl View for SqlParam {
    type V = ParamView;

    open spec fn view(&self) -> ParamView {
        match self {
            SqlParam::Null => ParamView::Null,
            SqlParam::Integer(i) => ParamView::Integer(*i),
            SqlParam::Text(t) => ParamView::Text(t@),
        }
    }
}

/// What a list of parameters holds, in order.
pub open spec fn params_view(params: Seq<SqlParam>) -> Seq<ParamView> {
    params.map_values(|p: SqlParam| p@)
}

/// A column value of a result row.
#[derive(Debug, Clone, PartialEq)]
pub enum SqlValue {
    Null,
    Integer(i64),
    /// A floating-point value; the gateway stores none and reads none.
    Real,
    Text(String),
    /// A text value whose bytes are not UTF-8.
    NotUtf8,
    Blob(Vec<u8>),
}

/// Why a database operation failed.
#[derive(Debug)]
pub enum DbError {
    /// The engine reported an error.
    Sqlite(rusqlite::Error),
    /// A query that must return a row returned none.
    NoRows,
    /// A column was read that the row does not have.
    InvalidColumnIndex(usize),
    /// A column holds a value of another type than the one read.
    InvalidColumnType(usize),
    /// An integer column holds a value out of the range of the type read.
    IntegralValueOutOfRange(usize, i64),
    /// A text column holds bytes that are not UTF-8.
    NotUtf8(usize),
    /// A pool entry just created could not be read back.
    EntryNotFound,
}

/// `rusqlite::Connection::open`: opens (or creates) the database file at
/// `path`. Whether it succeeds depends on the file system.
#[verifier::external_body]
pub(crate) fn open_connection(path: &str) -> Result<rusqlite::Connection, rusqlite::Error> {
    rusqlite::Connection::open(path)
}

/// `rusqlite::Connection::execute_batch`: runs the statements of `sql` in turn.
#[verifier::external_body]
pub(crate) fn run_batch(conn: &rusqlite::Connection, sql: &str) -> Result<(), rusqlite::Error> {
    conn.execute_batch(sql)
}

/// Builds the value of `rusqlite` that a parameter stands for, variant for
/// variant.
#[verifier::external_body]
fn param_value(p: SqlParam) -> Value {
    match p {
        SqlParam::Null => Value::Null,
        SqlParam::Integer(i) => Value::Integer(i),
        SqlParam::Text(t) => Value::Text(t),
    }
}

/// The values of `rusqlite` that the parameters stand for, in order.
pub(crate) fn param_values(params: Vec<SqlParam>) -> (r: Vec<Value>)
    ensures
        r@.len() == params@.len(),
{
    let mut params = params;
    let mut out: Vec<Value> = Vec::new();
    let ghost n = params@.len();
    while params.len() > 0
        invariant
            out@.len() + params@.len() == n,
        decreases params@.len(),
    {
        let p = params.remove(0);
        out.push(param_value(p));
    }
    out
}

/// `rusqlite::Connection::execute`: runs one statement with `params` bound to
/// `?1`, `?2`, ... in order, and gives the number of rows it changed.
#[verifier::external_body]
pub(crate) fn run_execute(conn: &rusqlite::Connection, sql: &str, params: Vec<Value>) -> Result<usize, rusqlite::Error> {
    conn.execute(sql, rusqlite::params_from_iter(params))
}

/// `rusqlite::Connection::prepare`: compiles `sql` into a statement.
#[verifier::external_body]
pub(crate) fn prepare_statement<'c>(conn: &'c rusqlite::Connection, sql: &str) -> Result<Statement<'c>, rusqlite::Error> {
    conn.prepare(sql)
}

/// `rusqlite::Statement::query_map`: runs the statement with `params` bound
/// in order and steps through its result rows, in the order the engine
/// returns them, until there are no more or stepping fails. It gives the rows
/// stepped through, each as the list of its column values (text that is not
/// UTF-8 comes back as [`SqlValue::NotUtf8`]), and the error it stopped on,
/// if any; parameters that fail to bind are an error.
#[verifier::external_body]
pub(crate) fn step_rows(
    stmt: &mut Statement<'_>,
    params: Vec<Value>,
) -> Result<(Vec<Vec<SqlValue>>, Option<rusqlite::Error>), rusqlite::Error> {
    let n = stmt.column_count();
    let rows = stmt.query_map(params_from_iter(params), |row| {
        (0..n).map(|i| row.get_ref(i).map(|v| match v {
            ValueRef::Null => SqlValue::Null,
            ValueRef::Integer(x) => SqlValue::Integer(x),
            ValueRef::Real(_) => SqlValue::Real,
            ValueRef::Text(t) => std::str::from_utf8(t).map_or(SqlValue::NotUtf8, |s| SqlValue::Text(s.into())),
            ValueRef::Blob(b) => SqlValue::Blob(b.to_vec()),
        })).collect()
    })?;
    let mut error = None;
    let out = rows.map_while(|row| row.map_err(|e| error = Some(e)).ok()).collect();
    Ok((out, error))
}

/// Runs one query: prepares `sql`, then steps through its rows with
/// `params` bound. A statement that fails to prepare or to bind gives no row
/// and its error.
pub(crate) fn run_query(conn: &rusqlite::Connection, sql: &str, params: Vec<Value>) -> (Vec<Vec<SqlValue>>, Option<rusqlite::Error>) {
    match prepare_statement(conn, sql) {
        Err(e) => (Vec::new(), Some(e)),
        Ok(mut stmt) => match step_rows(&mut stmt, params) {
            Err(e) => (Vec::new(), Some(e)),
            Ok(answer) => answer,
        },
    }
}

} // verus!
