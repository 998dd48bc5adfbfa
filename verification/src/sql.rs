//! The calls into the SQLite engine.
//!
//! Every statement that the library runs passes through one of the functions
//! of this file. Nothing is known of what the engine answers: it depends on
//! the database behind the connection. The callers fix what is handed to the
//! engine and decode what comes back.

use vstd::prelude::*;

verus! {

/// A connection to a SQLite database.
#[verifier::external_type_specification]
#[verifier::external_body]
pub struct ExConnection(rusqlite::Connection);

/// The error type of the SQLite bindings.
#[verifier::external_type_specification]
#[verifier::external_body]
pub struct ExEngineError(rusqlite::Error);

/// A value bound to a placeholder of a statement.
#[derive(Debug)]
pub enum SqlParam {
    Null,
    Integer(i64),
    Text(String),
}

/// The mathematical content of a [`SqlParam`].
pub enum SqlParamView {
    Null,
    Integer(int),
    Text(Seq<char>),
}

impl View for SqlParam {
    type V = SqlParamView;

    open spec fn view(&self) -> SqlParamView {
        match self {
            SqlParam::Null => SqlParamView::Null,
            SqlParam::Integer(i) => SqlParamView::Integer(*i as int),
            SqlParam::Text(t) => SqlParamView::Text(t@),
        }
    }
}

/// The views of a list of parameters, element by element.
pub open spec fn param_views(params: Seq<SqlParam>) -> Seq<SqlParamView> {
    params.map_values(|p: SqlParam| p@)
}

/// A row of the conversation listing as the engine returns it.
#[derive(Debug)]
pub struct ListingRow {
    pub id: u32,
    pub title: String,
    pub usage: u64,
    pub lastupdate: String,
}

/// A row of the message table as the engine returns it.
#[derive(Debug)]
pub struct MessageRow {
    pub id: u32,
    pub conversation_id: u32,
    pub role: String,
    pub content: String,
    pub prompt_tokens: u64,
    pub completion_tokens: u64,
    pub updateat: String,
}

/// Runs a statement that returns no rows, through
/// `rusqlite::Connection::execute`, with `params` bound to its placeholders in
/// order. The result is the engine's: the number of rows changed, or its error.
#[verifier::external_body]
pub(crate) fn execute(conn: &rusqlite::Connection, sql: &str, params: &Vec<SqlParam>) -> (done:
    Result<usize, rusqlite::Error>) {
    let values = params.iter().map(|p| match p {
        SqlParam::Null => rusqlite::types::Value::Null,
        SqlParam::Integer(i) => rusqlite::types::Value::Integer(*i),
        SqlParam::Text(t) => rusqlite::types::Value::Text(t.clone()),
    });
    conn.execute(sql, rusqlite::params_from_iter(values))
}

/// Runs a query through `rusqlite::Connection::prepare` and
/// `rusqlite::Statement::query_map`, with the texts of `params` bound in
/// order, and reads the first column of every row as an integer. The result
/// is the engine's.
#[verifier::external_body]
pub(crate) fn query_integers(conn: &rusqlite::Connection, sql: &str, params: &Vec<String>) -> (rows:
    Result<Vec<i64>, rusqlite::Error>) {
    let mut stmt = conn.prepare(sql)?;
    let rows = stmt.query_map(rusqlite::params_from_iter(params.iter()), |row| row.get(0))?;
    rows.collect()
}

/// Runs the listing query through `rusqlite::Connection::prepare` and
/// `rusqlite::Statement::query_map`, with `key` bound to its one placeholder,
/// and reads each row's four columns. The result is the engine's.
#[verifier::external_body]
pub(crate) fn query_listing_rows(conn: &rusqlite::Connection, sql: &str, key: &str) -> (rows:
    Result<Vec<ListingRow>, rusqlite::Error>) {
    let mut stmt = conn.prepare(sql)?;
    let rows = stmt.query_map([key], |row| {
        let (id, title, usage, lastupdate) = (row.get(0)?, row.get(1)?, row.get(2)?, row.get(3)?);
        Ok(ListingRow { id, title, usage, lastupdate })
    })?;
    rows.collect()
}

/// Runs the message query through `rusqlite::Connection::prepare` and
/// `rusqlite::Statement::query_map`, with `conversation_id` bound to its one
/// placeholder, and reads each row's seven columns. The result is the
/// engine's.
#[verifier::external_body]
pub(crate) fn query_message_rows(conn: &rusqlite::Connection, sql: &str, conversation_id: u32) -> (rows:
    Result<Vec<MessageRow>, rusqlite::Error>) {
    let mut stmt = conn.prepare(sql)?;
    let rows = stmt.query_map([conversation_id], |row| {
        let (id, conversation_id, role, content) = (row.get(0)?, row.get(1)?, row.get(2)?, row.get(3)?);
        let (prompt_tokens, completion_tokens, updateat) = (row.get(4)?, row.get(5)?, row.get(6)?);
        Ok(MessageRow { id, conversation_id, role, content, prompt_tokens, completion_tokens, updateat })
    })?;
    rows.collect()
}

/// The engine's own description of an error, from the `Display` of
/// `rusqlite::Error`.
#[verifier::external_body]
pub(crate) fn describe(error: &rusqlite::Error) -> (text: String) {
    error.to_string()
}

} // verus!
