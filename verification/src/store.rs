use crate::platform_error::{PlatformError, PlatformResult};
use rusqlite::types::Value;
use vstd::prelude::*;

verus! {

#[verifier::external_type_specification]
#[verifier::external_body]
pub struct ExSqliteConnection(rusqlite::Connection);

#[verifier::external_type_specification]
#[verifier::external_body]
pub struct ExSqliteError(rusqlite::Error);

#[verifier::external_type_specification]
#[verifier::external_body]
pub struct ExSqliteValue(rusqlite::types::Value);

/// A value bound to a statement parameter.
#[derive(Clone, Debug, PartialEq, Eq)]
pub enum SqlParam {
    Null,
    Integer(i64),
    Text(String),
    Blob(Vec<u8>),
}

/// A parameter value as the statement receives it.
pub enum BoundValue {
    Null,
    Integer(i64),
    Text(Seq<char>),
    Blob(Seq<u8>),
}

impl View for SqlParam {
    type V = BoundValue;

    open spec fn view(&self) -> BoundValue {
        match self {
            SqlParam::Null => BoundValue::Null,
            SqlParam::Integer(v) => BoundValue::Integer(*v),
            SqlParam::Text(t) => BoundValue::Text(t@),
            SqlParam::Blob(b) => BoundValue::Blob(b@),
        }
    }
}

/// The values bound to a statement's parameters, in order.
pub open spec fn bound_values(params: Seq<SqlParam>) -> Seq<BoundValue> {
    params.map_values(|p: SqlParam| p@)
}

/// A statement and the parameters it is run with.
pub struct SqlStatement {
    pub sql: &'static str,
    pub params: Vec<SqlParam>,
}

/// A statement as its text and the values bound to its parameters.
pub open spec fn statement_view(statement: SqlStatement) -> (Seq<char>, Seq<BoundValue>) {
    (statement.sql@, bound_values(statement.params@))
}

/// A column value of a result row. `Other` stands for floating-point
/// numbers, which no reader of this crate accepts.
#[derive(Clone, Debug, PartialEq, Eq)]
pub enum SqlValue {
    Null,
    Integer(i64),
    Text(String),
    Blob(Vec<u8>),
    Other,
}

/// `rusqlite::Connection::open`: a connection to the database file. Whether
/// it opens depends on the file system.
#[verifier::external_body]
fn open_connection(path: &str) -> (connection: Result<rusqlite::Connection, rusqlite::Error>) {
    rusqlite::Connection::open(path)
}

/// `rusqlite::Connection::execute`: runs one statement with its parameters,
/// each bound as the `rusqlite` value of the same kind, and reports how many
/// rows it changed. Both the count and a failure depend on the database.
#[verifier::external_body]
fn sql_execute(connection: &rusqlite::Connection, sql: &str, params: &[SqlParam]) -> (changed:
    Result<usize, rusqlite::Error>) {
    connection.execute(sql, rusqlite::params_from_iter(params.iter().map(bound_value)))
}

/// The `rusqlite` value that a parameter is bound as: each kind as the value
/// of the same kind.
#[verifier::external_body]
fn bound_value(param: &SqlParam) -> (value: Value) {
    match param {
        SqlParam::Null => Value::Null,
        SqlParam::Integer(v) => Value::Integer(*v),
        SqlParam::Text(v) => Value::Text(v.clone()),
        SqlParam::Blob(v) => Value::Blob(v.clone()),
    }
}

/// `rusqlite::Statement::query_map` on the prepared query: every result row,
/// each column read as a `rusqlite` value and kept as the `SqlValue` of the
/// same kind. The rows depend on the database; text that is not UTF-8 fails
/// the query, as `rusqlite` reads it.
#[verifier::external_body]
fn sql_query(connection: &rusqlite::Connection, sql: &str, params: &[SqlParam]) -> (rows: Result<
    Vec<Vec<SqlValue>>,
    rusqlite::Error,
>) {
    let mut statement = connection.prepare(sql)?;
    let width = statement.column_count();
    let rows = statement.query_map(rusqlite::params_from_iter(params.iter().map(bound_value)), |row| (0..width).map(|index| row.get::<_, Value>(index).map(|value| match value {
        Value::Null => SqlValue::Null,
        Value::Integer(v) => SqlValue::Integer(v),
        Value::Text(v) => SqlValue::Text(v),
        Value::Blob(v) => SqlValue::Blob(v),
        _ => SqlValue::Other,
    })).collect())?;
    rows.collect()
}

/// The application database, by the path of its file.
#[derive(Clone, Debug)]
pub struct Database {
    pub path: String,
}

impl Database {
    pub fn new(path: String) -> (database: Self)
        ensures
            database.path@ == path@,
    {
        Database { path }
    }

    /// Opens a connection; a failure to open is `Sqlite`.
    pub fn connection(&self) -> (connection: PlatformResult<rusqlite::Connection>)
        ensures
            connection matches Err(e) ==> e == PlatformError::Sqlite,
    {
        match open_connection(self.path.as_str()) {
            Ok(connection) => Ok(connection),
            Err(_) => Err(PlatformError::Sqlite),
        }
    }
}

/// The text of column `index`, as `rusqlite` reads a `String`: only text
/// converts.
pub open spec fn text_at(row: Seq<SqlValue>, index: int) -> Option<Seq<char>> {
    if 0 <= index < row.len() {
        match row[index] {
            SqlValue::Text(t) => Some(t@),
            _ => None,
        }
    } else {
        None
    }
}

/// The integer of column `index`, as `rusqlite` reads an `i64`.
pub open spec fn integer_at(row: Seq<SqlValue>, index: int) -> Option<i64> {
    if 0 <= index < row.len() {
        match row[index] {
            SqlValue::Integer(v) => Some(v),
            _ => None,
        }
    } else {
        None
    }
}

/// A nullable integer column, as `rusqlite` reads an `Option<i64>`: `None`
/// when the column is missing or of another kind.
pub open spec fn optional_integer_at(row: Seq<SqlValue>, index: int) -> Option<Option<i64>> {
    if 0 <= index < row.len() {
        match row[index] {
            SqlValue::Integer(v) => Some(Some(v)),
            SqlValue::Null => Some(None),
            _ => None,
        }
    } else {
        None
    }
}

/// The bytes of column `index`, as `rusqlite` reads a `Vec<u8>`: only a blob
/// converts.
pub open spec fn blob_at(row: Seq<SqlValue>, index: int) -> Option<Seq<u8>> {
    if 0 <= index < row.len() {
        match row[index] {
            SqlValue::Blob(b) => Some(b@),
            _ => None,
        }
    } else {
        None
    }
}

pub fn blob_column(row: &Vec<SqlValue>, index: usize) -> (value: PlatformResult<Vec<u8>>)
    ensures
        match value {
            Ok(b) => blob_at(row@, index as int) == Some(b@),
            Err(e) => e == PlatformError::Sqlite && blob_at(row@, index as int) is None,
        },
{
    if index >= row.len() {
        return Err(PlatformError::Sqlite);
    }
    match &row[index] {
        SqlValue::Blob(b) => Ok(b.clone()),
        _ => Err(PlatformError::Sqlite),
    }
}

pub fn text_column(row: &Vec<SqlValue>, index: usize) -> (value: PlatformResult<String>)
    ensures
        match value {
            Ok(s) => text_at(row@, index as int) == Some(s@),
            Err(e) => e == PlatformError::Sqlite && text_at(row@, index as int) is None,
        },
{
    if index >= row.len() {
        return Err(PlatformError::Sqlite);
    }
    match &row[index] {
        SqlValue::Text(t) => Ok(t.clone()),
        _ => Err(PlatformError::Sqlite),
    }
}

pub fn integer_column(row: &Vec<SqlValue>, index: usize) -> (value: PlatformResult<i64>)
    ensures
        match value {
            Ok(v) => integer_at(row@, index as int) == Some(v),
            Err(e) => e == PlatformError::Sqlite && integer_at(row@, index as int) is None,
        },
{
    if index >= row.len() {
        return Err(PlatformError::Sqlite);
    }
    match &row[index] {
        SqlValue::Integer(v) => Ok(*v),
        _ => Err(PlatformError::Sqlite),
    }
}

pub fn optional_integer_column(row: &Vec<SqlValue>, index: usize) -> (value: PlatformResult<
    Option<i64>,
>)
    ensures
        match value {
            Ok(v) => optional_integer_at(row@, index as int) == Some(v),
            Err(e) => e == PlatformError::Sqlite && optional_integer_at(row@, index as int) is None,
        },
{
    if index >= row.len() {
        return Err(PlatformError::Sqlite);
    }
    match &row[index] {
        SqlValue::Integer(v) => Ok(Some(*v)),
        SqlValue::Null => Ok(None),
        _ => Err(PlatformError::Sqlite),
    }
}

/// Runs a statement and reports how many rows it changed; a failure is
/// `Sqlite`.
pub fn execute(connection: &rusqlite::Connection, sql: &str, params: &[SqlParam]) -> (changed:
    PlatformResult<usize>)
    ensures
        changed matches Err(e) ==> e == PlatformError::Sqlite,
{
    match sql_execute(connection, sql, params) {
        Ok(n) => Ok(n),
        Err(_) => Err(PlatformError::Sqlite),
    }
}

/// Runs a statement with its parameters and reports how many rows it
/// changed; a failure is `Sqlite`.
pub fn run(connection: &rusqlite::Connection, statement: SqlStatement) -> (changed: PlatformResult<usize>)
    ensures
        changed matches Err(e) ==> e == PlatformError::Sqlite,
{
    execute(connection, statement.sql, statement.params.as_slice())
}

/// Runs the statements in order, stopping at the first failure, which is
/// `Sqlite`.
pub fn run_all(connection: &rusqlite::Connection, statements: Vec<SqlStatement>) -> (result: PlatformResult<()>)
    ensures
        result matches Err(e) ==> e == PlatformError::Sqlite,
{
    let mut remaining = statements;
    while remaining.len() > 0
        decreases remaining@.len(),
    {
        let statement = remaining.remove(0);
        run(connection, statement)?;
    }
    Ok(())
}

/// Runs a query with its parameters and returns its rows; a failure is
/// `Sqlite`.
pub fn fetch(connection: &rusqlite::Connection, statement: SqlStatement) -> (rows: PlatformResult<
    Vec<Vec<SqlValue>>,
>)
    ensures
        rows matches Err(e) ==> e == PlatformError::Sqlite,
{
    query(connection, statement.sql, statement.params.as_slice())
}

/// Runs a query and returns its rows; a failure is `Sqlite`.
pub fn query(connection: &rusqlite::Connection, sql: &str, params: &[SqlParam]) -> (rows:
    PlatformResult<Vec<Vec<SqlValue>>>)
    ensures
        rows matches Err(e) ==> e == PlatformError::Sqlite,
{
    match sql_query(connection, sql, params) {
        Ok(rows) => Ok(rows),
        Err(_) => Err(PlatformError::Sqlite),
    }
}

/// Starts a transaction that takes the write lock at once. Dropping the
/// connection before `commit` rolls it back.
pub fn begin_immediate(connection: &rusqlite::Connection) -> (result: PlatformResult<()>)
    ensures
        result matches Err(e) ==> e == PlatformError::Sqlite,
{
    let empty: Vec<SqlParam> = Vec::new();
    match execute(connection, "BEGIN IMMEDIATE", empty.as_slice()) {
        Ok(_) => Ok(()),
        Err(e) => Err(e),
    }
}

pub fn commit(connection: &rusqlite::Connection) -> (result: PlatformResult<()>)
    ensures
        result matches Err(e) ==> e == PlatformError::Sqlite,
{
    let empty: Vec<SqlParam> = Vec::new();
    match execute(connection, "COMMIT", empty.as_slice()) {
        Ok(_) => Ok(()),
        Err(e) => Err(e),
    }
}

} // verus!
