//! Statements for the store and the rows that it answers with, as plain
//! values.
//!
//! A `Query` says all that is handed to the store: the SQL text, the values
//! of its parameters, and what kind of value each column of an answer is read
//! as. `execute` and `fetch` hand a query over and bring back what the store
//! answered; what that is, the store decides.
//!
//! A `Store` is a connection together with a journal of what was asked of it
//! and what it answered. The journal is there for the contracts alone: it
//! lets every function that talks to the store say which statements it hands
//! over, in which order, and how its result follows from the answers.
use crate::error::{fails_with, failure, Error};
use crate::sql::{
    bind_integer,
    bind_text,
    bound,
    integer_at,
    next_row,
    prepare,
    rows_of,
    run,
    text_at,
};
use rusqlite::Connection;
use vstd::prelude::*;

verus! {

/// The kinds of value that the tracker keeps in the store.
#[derive(Clone, Copy, Debug, PartialEq, Eq, Structural)]
pub enum Kind {
    Integer,
    Text,
}

/// A value that goes to the store as a parameter or comes from it in a row.
#[derive(Clone, Debug, PartialEq, Eq)]
pub enum Cell {
    Integer(i64),
    Text(String),
}

/// What a `Cell` holds.
pub enum CellView {
    Integer(int),
    Text(Seq<char>),
}

impl View for Cell {
    type V = CellView;

    open spec fn view(&self) -> CellView {
        match self {
            Cell::Integer(value) => CellView::Integer(*value as int),
            Cell::Text(value) => CellView::Text(value@),
        }
    }
}

impl Cell {
    /// The kind of this value.
    pub open spec fn kind(self) -> Kind {
        match self {
            Cell::Integer(_) => Kind::Integer,
            Cell::Text(_) => Kind::Text,
        }
    }
}

/// What each of some cells holds, in order.
pub open spec fn cells_view(cells: Seq<Cell>) -> Seq<CellView> {
    cells.map_values(|cell: Cell| cell@)
}

/// Whether a row has one value for each of the columns, each of the kind of
/// its column.
pub open spec fn fits(row: Seq<Cell>, columns: Seq<Kind>) -> bool {
    &&& row.len() == columns.len()
    &&& forall|i: int| 0 <= i < row.len() ==> (#[trigger] row[i]).kind() == columns[i]
}

/// One statement for the store: its SQL text, the values of its parameters
/// `?1`, `?2` and so on, and the kinds of the columns of the rows that it
/// answers with, none for a statement that only changes the store.
#[derive(Debug)]
pub struct Query {
    pub sql: &'static str,
    pub parameters: Vec<Cell>,
    pub columns: Vec<Kind>,
}

/// What a `Query` holds.
pub struct QueryView {
    pub sql: Seq<char>,
    pub parameters: Seq<CellView>,
    pub columns: Seq<Kind>,
}

impl View for Query {
    type V = QueryView;

    open spec fn view(&self) -> QueryView {
        QueryView {
            sql: self.sql@,
            parameters: cells_view(self.parameters@),
            columns: self.columns@,
        }
    }
}

/// What came of a statement: the number of rows that it changed, the rows
/// that it answered with, or no answer but a message that says why.
pub enum Answer {
    Changed(int),
    Rows(Seq<Seq<CellView>>),
    Refused(Seq<char>),
}

/// One statement that was handed to the store, and what came of it.
pub struct Exchange {
    pub query: QueryView,
    pub answer: Answer,
}

/// A connection to the store, with the journal of all that the functions of
/// this library asked of the store through it, oldest first. The journal
/// takes no room when the program runs.
pub struct Store {
    pub connection: Connection,
    pub journal: Ghost<Seq<Exchange>>,
}

impl View for Store {
    type V = Seq<Exchange>;

    open spec fn view(&self) -> Seq<Exchange> {
        self.journal@
    }
}

impl Store {
    /// A store on an open connection, of which nothing was asked yet.
    pub fn new(connection: Connection) -> (store: Store)
        ensures
            store@ == Seq::<Exchange>::empty(),
    {
        Store { connection, journal: Ghost(Seq::empty()) }
    }
}

/// What each of some rows holds, in order.
pub open spec fn rows_view(rows: Seq<Vec<Cell>>) -> Seq<Seq<CellView>> {
    rows.map_values(|row: Vec<Cell>| cells_view(row@))
}

/// Whether the journal `after` is the journal `before` with one more
/// exchange, in which `query` was handed to the store.
pub open spec fn asked(before: Seq<Exchange>, after: Seq<Exchange>, query: QueryView) -> bool {
    &&& after.len() == before.len() + 1
    &&& after.drop_last() == before
    &&& after.last().query == query
}

/// Whether `r` is what a statement that changes the store comes to, given
/// what the store answered: done where the store carried it out, and a
/// failure with the store's message where it refused.
pub open spec fn change_result(answer: Answer, r: Result<(), Error>) -> bool {
    match answer {
        Answer::Changed(_) => r is Ok,
        Answer::Refused(message) => fails_with(r, message),
        Answer::Rows(_) => false,
    }
}

/// The answer that a result of `execute` stands for.
pub open spec fn count_answer(r: Result<usize, Error>) -> Answer {
    match r {
        Ok(count) => Answer::Changed(count as int),
        Err(refusal) => Answer::Refused(refusal.message@),
    }
}

/// The answer that a result of `fetch` stands for.
pub open spec fn rows_answer(r: Result<Vec<Vec<Cell>>, Error>) -> Answer {
    match r {
        Ok(rows) => Answer::Rows(rows_view(rows@)),
        Err(refusal) => Answer::Refused(refusal.message@),
    }
}

/// What the store answered, with a refusal turned into a failure that carries
/// the store's message.
pub fn stored<T>(answer: Result<T, String>) -> (r: Result<T, Error>)
    ensures
        match answer {
            Ok(value) => r == Ok::<T, Error>(value),
            Err(message) => r is Err && r->Err_0.message == message,
        },
{
    match answer {
        Ok(value) => Ok(value),
        Err(message) => Err(Error::new(message)),
    }
}

/// Whether a query has more parameters than SQLite can number: more than an
/// `i32` holds. Such a query is refused before the store is asked.
pub open spec fn too_many(query: QueryView) -> bool {
    query.parameters.len() > 0x7fff_ffff
}

/// The values that the parameters of a statement have once each of
/// `parameters` is given to the parameter of its place, counted from 1.
pub open spec fn in_place(parameters: Seq<CellView>) -> Map<int, CellView> {
    Map::new(|k: int| 1 <= k <= parameters.len(), |k: int| parameters[k - 1])
}

/// Compiles the statement of a query and gives its parameters their values:
/// the first value to `?1`, the second to `?2`, and so on.
///
/// Whether the store accepts the statement is the store's to decide. A
/// statement that comes back holds the values of the query, each in its
/// place, and no others. A query with more parameters than SQLite can number
/// is refused before the store is asked.
fn ready<'a>(connection: &'a Connection, query: &Query) -> (r: Result<rusqlite::Statement<'a>, Error>)
    ensures
        r matches Ok(statement) ==> bound(statement) == in_place(query@.parameters),
        too_many(query@) ==> fails_with(r, "Too many parameters"@),
{
    if query.parameters.len() > 0x7fff_ffff {
        return Err(failure("Too many parameters"));
    }
    let mut statement = stored(prepare(connection, query.sql))?;
    let mut i: usize = 0;
    while i < query.parameters.len()
        invariant
            i <= query.parameters@.len() <= 0x7fff_ffff,
            bound(statement) == in_place(query@.parameters.take(i as int)),
        decreases query.parameters@.len() - i,
    {
        let ghost before = bound(statement);
        match &query.parameters[i] {
            Cell::Integer(value) => stored(bind_integer(&mut statement, i + 1, *value))?,
            Cell::Text(value) => stored(bind_text(&mut statement, i + 1, value.as_str()))?,
        }
        proof {
            let given = query@.parameters;
            assert(given[i as int] == query.parameters@[i as int]@);
            assert(bound(statement) == before.insert(i + 1, given[i as int]));
            assert(bound(statement) =~= in_place(given.take(i + 1)));
        }
        i = i + 1;
    }
    assert(query@.parameters.take(i as int) =~= query@.parameters);
    Ok(statement)
}

/// Hands a statement that answers with no rows to the store, and says how
/// many rows the statement changed.
///
/// A query with too many parameters is refused, and the store is not asked:
/// the journal stays as it is. Else the journal gets one more exchange, with
/// this query, and the result is what came of it: the number of rows, or a
/// failure with the store's message.
pub fn execute(store: &mut Store, query: &Query) -> (r: Result<usize, Error>)
    ensures
        too_many(query@) ==> final(store)@ == old(store)@ && fails_with(
            r,
            "Too many parameters"@,
        ),
        !too_many(query@) ==> asked(old(store)@, final(store)@, query@),
        !too_many(query@) ==> match final(store)@.last().answer {
            Answer::Changed(count) => r is Ok && r->Ok_0 == count,
            Answer::Refused(message) => fails_with(r, message),
            Answer::Rows(_) => false,
        },
{
    if query.parameters.len() > 0x7fff_ffff {
        return Err(failure("Too many parameters"));
    }
    let r = match ready(&store.connection, query) {
        Ok(mut statement) => stored(run(&mut statement)),
        Err(refusal) => Err(refusal),
    };
    let ghost answer = count_answer(r);
    let ghost before = store.journal@;
    store.journal = Ghost(before.push(Exchange { query: query@, answer }));
    assert(store.journal@.drop_last() =~= before);
    r
}

/// Fetches the rows that a prepared statement answers with, each column read
/// as the kind that `columns` names for it.
fn rows_from(connection: &Connection, query: &Query) -> (r: Result<Vec<Vec<Cell>>, Error>)
    ensures
        r matches Ok(rows) ==> forall|i: int|
            0 <= i < rows@.len() ==> fits((#[trigger] rows@[i])@, query.columns@),
{
    let mut statement = ready(connection, query)?;
    let mut rows = rows_of(&mut statement);
    let mut found: Vec<Vec<Cell>> = Vec::new();
    let mut room: usize = usize::MAX;
    while room > 0
        invariant
            forall|i: int| 0 <= i < found@.len() ==> fits((#[trigger] found@[i])@, query.columns@),
        decreases room,
    {
        match stored(next_row(&mut rows))? {
            None => {
                return Ok(found);
            },
            Some(row) => {
                let mut cells: Vec<Cell> = Vec::new();
                let mut column: usize = 0;
                while column < query.columns.len()
                    invariant
                        column <= query.columns@.len(),
                        cells@.len() == column,
                        forall|k: int|
                            0 <= k < column ==> (#[trigger] cells@[k]).kind() == query.columns@[k],
                    decreases query.columns@.len() - column,
                {
                    let cell = match query.columns[column] {
                        Kind::Integer => Cell::Integer(stored(integer_at(row, column))?),
                        Kind::Text => Cell::Text(stored(text_at(row, column))?),
                    };
                    cells.push(cell);
                    column = column + 1;
                }
                found.push(cells);
            },
        }
        room = room - 1;
    }
    Err(failure("Too many rows"))
}

/// Hands a statement to the store and fetches the rows that it answers
/// with, in the order in which the store gives them.
///
/// A query with too many parameters is refused, and the store is not asked:
/// the journal stays as it is. Else the journal gets one more exchange, with
/// this query, and the result is what came of it: the rows, or a failure
/// with the store's message. Every column is read as the kind that the query
/// names for it, so every row that comes back fits the columns of the query;
/// a value of another kind is a failure.
pub fn fetch(store: &mut Store, query: &Query) -> (r: Result<Vec<Vec<Cell>>, Error>)
    ensures
        too_many(query@) ==> final(store)@ == old(store)@ && fails_with(
            r,
            "Too many parameters"@,
        ),
        !too_many(query@) ==> asked(old(store)@, final(store)@, query@),
        !too_many(query@) ==> match final(store)@.last().answer {
            Answer::Rows(rows) => r is Ok && rows_view(r->Ok_0@) == rows,
            Answer::Refused(message) => fails_with(r, message),
            Answer::Changed(_) => false,
        },
        r matches Ok(rows) ==> forall|i: int|
            0 <= i < rows@.len() ==> fits((#[trigger] rows@[i])@, query.columns@),
{
    if query.parameters.len() > 0x7fff_ffff {
        return Err(failure("Too many parameters"));
    }
    let r = rows_from(&store.connection, query);
    let ghost answer = rows_answer(r);
    let ghost before = store.journal@;
    store.journal = Ghost(before.push(Exchange { query: query@, answer }));
    assert(store.journal@.drop_last() =~= before);
    r
}

} // verus!
