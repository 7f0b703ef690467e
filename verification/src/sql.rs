//! The store is an SQLite database, reached through rusqlite. This file
//! holds the calls into rusqlite, one function each, and nothing else.
//!
//! What a call answers depends on what the database holds, so none of these
//! functions promises anything about what the store does. The values that
//! the parameters of a prepared statement were given do not depend on the
//! database: of these the functions that make and fill a statement do speak.
//! A failure comes back as the text with which rusqlite reports it.
use crate::store::CellView;
use vstd::prelude::*;

verus! {

/// rusqlite's `Connection`: an open database.
#[verifier::external_type_specification]
#[verifier::external_body]
pub struct ExConnection(rusqlite::Connection);

/// rusqlite's `Statement`: one compiled SQL statement of a connection.
#[verifier::external_type_specification]
#[verifier::external_body]
pub struct ExStatement<'conn>(rusqlite::Statement<'conn>);

/// rusqlite's `Rows`: the rows that a statement answers with, fetched one
/// after the other.
#[verifier::external_type_specification]
#[verifier::external_body]
pub struct ExRows<'stmt>(rusqlite::Rows<'stmt>);

/// rusqlite's `Row`: the row that was fetched last.
#[verifier::external_type_specification]
#[verifier::external_body]
pub struct ExRow<'stmt>(rusqlite::Row<'stmt>);

/// The values that the parameters of a prepared statement were given, by
/// the number of the parameter, counted from 1. A parameter that was given no
/// value is not in the map.
pub uninterp spec fn bound(statement: rusqlite::Statement<'_>) -> Map<int, CellView>;

/// The parameters of a statement of which none was given a value.
pub open spec fn nothing_bound() -> Map<int, CellView> {
    Map::empty()
}

/// rusqlite's `Connection::prepare`: compiles one SQL statement. None of the
/// parameters of the statement that comes back has a value yet. Nothing is
/// said of the text that the statement was compiled from: SQLite keeps the
/// text only up to the end of the first statement in it.
#[verifier::external_body]
pub(crate) fn prepare<'conn>(
    connection: &'conn rusqlite::Connection,
    sql: &str,
) -> (made: Result<rusqlite::Statement<'conn>, String>)
    ensures
        made matches Ok(statement) ==> bound(statement) == nothing_bound(),
{
    connection.prepare(sql).map_err(|e| e.to_string())
}

/// rusqlite's `Statement::raw_bind_parameter` with a text: gives the
/// parameter `?index` of the statement the value `value`. Where the call
/// succeeds, the parameter has the value and the other parameters have what
/// they had. rusqlite hands the
/// index to SQLite as a C `int`, so an index that an `i32` does not hold is
/// left out.
#[verifier::external_body]
pub(crate) fn bind_text(
    statement: &mut rusqlite::Statement<'_>,
    index: usize,
    value: &str,
) -> (done: Result<(), String>)
    requires
        index <= 0x7fff_ffff,
    ensures
        done is Ok ==> bound(*final(statement)) == bound(*old(statement)).insert(
            index as int,
            CellView::Text(value@),
        ),
{
    statement.raw_bind_parameter(index, value).map_err(|e| e.to_string())
}

/// rusqlite's `Statement::raw_bind_parameter` with an integer: gives the
/// parameter `?index` of the statement the value `value`. Where the call
/// succeeds, the parameter has the value and the other parameters have what
/// they had. rusqlite hands the
/// index to SQLite as a C `int`, so an index that an `i32` does not hold is
/// left out.
#[verifier::external_body]
pub(crate) fn bind_integer(
    statement: &mut rusqlite::Statement<'_>,
    index: usize,
    value: i64,
) -> (done: Result<(), String>)
    requires
        index <= 0x7fff_ffff,
    ensures
        done is Ok ==> bound(*final(statement)) == bound(*old(statement)).insert(
            index as int,
            CellView::Integer(value as int),
        ),
{
    statement.raw_bind_parameter(index, value).map_err(|e| e.to_string())
}

/// rusqlite's `Statement::raw_execute`: runs a statement that answers with no
/// rows, and says how many rows it changed.
#[verifier::external_body]
pub(crate) fn run(statement: &mut rusqlite::Statement<'_>) -> Result<usize, String> {
    statement.raw_execute().map_err(|e| e.to_string())
}

/// rusqlite's `Statement::raw_query`: the rows that a statement answers with,
/// yet to be fetched.
#[verifier::external_body]
pub(crate) fn rows_of<'a>(statement: &'a mut rusqlite::Statement<'_>) -> rusqlite::Rows<'a> {
    statement.raw_query()
}

/// rusqlite's `Rows::next`: fetches the next row; `None` when there is no
/// further row.
#[verifier::external_body]
pub(crate) fn next_row<'a, 'stmt>(rows: &'a mut rusqlite::Rows<'stmt>) -> Result<
    Option<&'a rusqlite::Row<'stmt>>,
    String,
> {
    rows.next().map_err(|e| e.to_string())
}

/// rusqlite's `Row::get` for a text: the value of the column `column`,
/// counted from 0. A value that is no text is a failure.
#[verifier::external_body]
pub(crate) fn text_at(row: &rusqlite::Row<'_>, column: usize) -> Result<String, String> {
    row.get(column).map_err(|e| e.to_string())
}

/// rusqlite's `Row::get` for an `i64`: the value of the column `column`,
/// counted from 0. A value that is no integer is a failure.
#[verifier::external_body]
pub(crate) fn integer_at(row: &rusqlite::Row<'_>, column: usize) -> Result<i64, String> {
    row.get(column).map_err(|e| e.to_string())
}

} // verus!
